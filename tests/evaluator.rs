use rtb_extension::builder::{activate_deals, activate_segments, bid_shade, build_metadata};
use rtb_extension::evaluator::{evaluate, Evaluator, TableEvaluator};
use rtb_extension::model::{BidContext, Intent, Mutation, MutationSet, Operation, Payload};
use rtb_extension::service::RtbExtensionPointService;

fn request(id: &str) -> BidContext {
    BidContext { id: id.to_string(), bid: Vec::new() }
}

fn ids_of(m: &Mutation) -> Vec<String> {
    match &m.payload {
        Payload::Ids(p) => p.ids.clone(),
        Payload::AdjustBid(_) => panic!("expected an ids payload"),
    }
}

fn assert_ids(m: &Mutation, intent: Intent, path: &str, ids: &[&str]) {
    assert_eq!(m.intent, intent);
    assert_eq!(m.op, Operation::Add);
    assert_eq!(m.path, path);
    assert_eq!(ids_of(m), ids.iter().map(|s| s.to_string()).collect::<Vec<String>>());
}

fn assert_consistent(set: &MutationSet) {
    for m in &set.mutations {
        assert!(m.path.starts_with('/'));
        match (&m.intent, &m.payload) {
            (Intent::ActivateSegments, Payload::Ids(p))
            | (Intent::ActivateDeals, Payload::Ids(p)) => {
                assert_eq!(m.op, Operation::Add);
                assert!(!p.ids.is_empty());
            }
            (Intent::BidShade, Payload::AdjustBid(_)) => assert_eq!(m.op, Operation::Replace),
            _ => panic!("payload does not match intent"),
        }
    }
}

#[test]
fn unary_auction_123() {
    let r = RtbExtensionPointService::new(TableEvaluator {}).get_mutations(request("auction-123"));
    assert_eq!(r.id, "auction-123");
    assert_eq!(r.mutations.len(), 2);
    assert_ids(
        &r.mutations[0],
        Intent::ActivateSegments,
        "/user/data/segment",
        &["seg-sports", "demo-25-35", "gender-male"],
    );
    assert_ids(&r.mutations[1], Intent::ActivateDeals, "/imp/imp-1", &["display-deal-001"]);
    assert_eq!(r.metadata, build_metadata());
}

#[test]
fn unary_auction_789_shades_bid() {
    let r = evaluate(request("auction-789"));
    assert_eq!(r.mutations.len(), 3);
    assert_ids(&r.mutations[0], Intent::ActivateSegments, "/user/data/segment", &["demo-45-plus"]);
    assert_ids(&r.mutations[1], Intent::ActivateDeals, "/imp/imp-1", &["display-deal-001"]);
    let shade = &r.mutations[2];
    assert_eq!(shade.intent, Intent::BidShade);
    assert_eq!(shade.op, Operation::Replace);
    assert_eq!(shade.path, "/seatbid/dsp-001/bid/bid-abc");
    match &shade.payload {
        Payload::AdjustBid(p) => assert_eq!(p.price_micros, Some(4_675_000)),
        Payload::Ids(_) => panic!("expected a price"),
    }
    let price = shade_price(shade);
    assert!((price - 4.675).abs() < 1e-9);
}

fn shade_price(m: &Mutation) -> f64 {
    match &m.payload {
        Payload::AdjustBid(p) => p.price_micros.unwrap() as f64 / 1_000_000.0,
        Payload::Ids(_) => panic!("expected a price"),
    }
}

#[test]
fn unary_unknown_id_is_empty() {
    let r = evaluate(request("unknown-id-999"));
    assert_eq!(r.id, "unknown-id-999");
    assert!(r.mutations.is_empty());
    assert_eq!(r.metadata.api_version, "1.0.0");
    assert_eq!(r.metadata.model_version, "v0.10.0");
}

#[test]
fn empty_id_is_unknown() {
    let r = evaluate(request(""));
    assert_eq!(r.id, "");
    assert!(r.mutations.is_empty());
    assert_eq!(r.metadata, build_metadata());
}

#[test]
fn unary_auction_456() {
    let r = evaluate(request("auction-456"));
    assert_eq!(r.mutations.len(), 2);
    assert_ids(&r.mutations[0], Intent::ActivateSegments, "/user/data/segment", &["demo-35-44"]);
    assert_ids(
        &r.mutations[1],
        Intent::ActivateDeals,
        "/imp/imp-1",
        &["premium-deal-001", "video-deal-001"],
    );
}

#[test]
fn unary_auction_multi_123() {
    let r = evaluate(request("auction-multi-123"));
    assert_eq!(r.mutations.len(), 4);
    assert_ids(
        &r.mutations[0],
        Intent::ActivateSegments,
        "/user/data/segment",
        &["demo-35-44", "gender-female"],
    );
    assert_ids(&r.mutations[1], Intent::ActivateDeals, "/imp/imp-header", &["display-deal-001"]);
    assert_ids(&r.mutations[2], Intent::ActivateDeals, "/imp/imp-sidebar", &["display-deal-001"]);
    assert_ids(&r.mutations[3], Intent::ActivateDeals, "/imp/imp-footer", &["display-deal-001"]);
}

#[test]
fn unary_app_123() {
    let r = evaluate(request("app-123"));
    assert_eq!(r.mutations.len(), 2);
    assert_ids(&r.mutations[0], Intent::ActivateSegments, "/user/data/segment", &["demo-18-24"]);
    assert_ids(&r.mutations[1], Intent::ActivateDeals, "/imp/imp-1", &["native-deal-001"]);
}

#[test]
fn response_echoes_request_id() {
    let ids = ["auction-123", "auction-456", "auction-789", "auction-multi-123", "app-123", "x"];
    for id in ids {
        let r = evaluate(BidContext { id: id.to_string(), bid: vec![1, 2, 3] });
        assert_eq!(r.id, id);
    }
}

#[test]
fn lookup_is_case_sensitive() {
    assert!(evaluate(request("AUCTION-123")).mutations.is_empty());
    assert!(evaluate(request("auction-123 ")).mutations.is_empty());
}

#[test]
fn every_payload_matches_its_intent() {
    let ids = ["auction-123", "auction-456", "auction-789", "auction-multi-123", "app-123", "none"];
    for id in ids {
        assert_consistent(&evaluate(request(id)));
    }
}

#[test]
fn evaluation_is_deterministic() {
    assert_eq!(evaluate(request("auction-789")), evaluate(request("auction-789")));
    assert_ne!(evaluate(request("auction-789")), evaluate(request("auction-123")));
}

#[test]
fn metadata_versions() {
    let m = build_metadata();
    assert_eq!(m.api_version, "1.0.0");
    assert_eq!(m.model_version, "v0.10.0");
}

#[test]
fn activate_deals_twice_is_equal() {
    let a = activate_deals("/imp/imp-1", &["d1", "d2"]).unwrap();
    let b = activate_deals("/imp/imp-1", &["d1", "d2"]).unwrap();
    assert_eq!(a, b);
    let c = activate_deals("/imp/imp-1", &["d2", "d1"]).unwrap();
    assert_ne!(a, c);
}

#[test]
fn activate_deals_keeps_path_and_ids() {
    let m = activate_deals("/imp/x", &["a", "b", "c"]).unwrap();
    assert_ids(&m, Intent::ActivateDeals, "/imp/x", &["a", "b", "c"]);
}

#[test]
fn activate_segments_uses_segment_path() {
    let m = activate_segments(&["s1"]).unwrap();
    assert_ids(&m, Intent::ActivateSegments, "/user/data/segment", &["s1"]);
}

#[test]
fn bid_shade_builds_replace() {
    let m = bid_shade("/seatbid/a/bid/b", 1_250_000).unwrap();
    assert_eq!(m.intent, Intent::BidShade);
    assert_eq!(m.op, Operation::Replace);
    assert_eq!(m.path, "/seatbid/a/bid/b");
    assert!((shade_price(&m) - 1.25).abs() < 1e-12);
}

#[test]
fn table_evaluator_answers_from_table() {
    let table = TableEvaluator {};
    for id in ["auction-123", "auction-789", "app-123", "unknown-id-999"] {
        assert_eq!(table.evaluate(request(id)), evaluate(request(id)));
    }
}
