use rtb_extension::evaluator::{evaluate, TableEvaluator};
use rtb_extension::model::BidContext;
use rtb_extension::service::RtbExtensionPointService;
use rtb_extension::stream::{run_stream, StreamAction, StreamEvent, StreamPhase, StreamSession};

fn request(id: &str) -> BidContext {
    BidContext { id: id.to_string(), bid: Vec::new() }
}

fn emitted(a: &StreamAction) -> &rtb_extension::model::MutationSet {
    match a {
        StreamAction::Emit(m) => m,
        other => panic!("expected an emission, got {:?}", other),
    }
}

#[test]
fn stream_answers_in_order() {
    let out = run_stream(&TableEvaluator {}, vec![
        StreamEvent::Received(request("auction-123")),
        StreamEvent::Received(request("app-123")),
        StreamEvent::InputEnded,
    ]);
    assert_eq!(out.len(), 3);
    let service = RtbExtensionPointService::new(TableEvaluator {});
    assert_eq!(*emitted(&out[0]), service.get_mutations(request("auction-123")));
    assert_eq!(*emitted(&out[1]), service.get_mutations(request("app-123")));
    assert!(matches!(out[2], StreamAction::Close));
}

#[test]
fn stream_order_follows_input_order() {
    let ids = ["unknown", "auction-789", "auction-123", "auction-789", "app-123"];
    let mut events: Vec<StreamEvent> =
        ids.iter().map(|id| StreamEvent::Received(request(id))).collect();
    events.push(StreamEvent::InputEnded);
    let out = run_stream(&TableEvaluator {}, events);
    assert_eq!(out.len(), ids.len() + 1);
    for (i, id) in ids.iter().enumerate() {
        assert_eq!(*emitted(&out[i]), evaluate(request(id)));
    }
    assert!(matches!(out[ids.len()], StreamAction::Close));
}

#[test]
fn empty_stream_just_closes() {
    let out = run_stream(&TableEvaluator {}, vec![StreamEvent::InputEnded]);
    assert_eq!(out.len(), 1);
    assert!(matches!(out[0], StreamAction::Close));
    assert!(run_stream(&TableEvaluator {}, Vec::new()).is_empty());
}

#[test]
fn decode_failure_aborts_stream() {
    let out = run_stream(&TableEvaluator {}, vec![
        StreamEvent::Received(request("auction-123")),
        StreamEvent::DecodeFailed,
        StreamEvent::Received(request("app-123")),
        StreamEvent::InputEnded,
    ]);
    assert_eq!(out.len(), 4);
    assert_eq!(emitted(&out[0]).id, "auction-123");
    assert!(matches!(out[1], StreamAction::Abort));
    assert!(matches!(out[2], StreamAction::Nothing));
    assert!(matches!(out[3], StreamAction::Nothing));
}

#[test]
fn cancel_after_k_items_emits_no_more() {
    let out = run_stream(&TableEvaluator {}, vec![
        StreamEvent::Received(request("auction-123")),
        StreamEvent::Received(request("auction-456")),
        StreamEvent::Cancelled,
        StreamEvent::Received(request("app-123")),
        StreamEvent::InputEnded,
    ]);
    assert_eq!(out.len(), 5);
    assert_eq!(emitted(&out[0]).id, "auction-123");
    assert_eq!(emitted(&out[1]).id, "auction-456");
    for a in &out[2..] {
        assert!(matches!(a, StreamAction::Nothing));
    }
}

#[test]
fn session_phases() {
    let mut s = RtbExtensionPointService::new(TableEvaluator {}).get_mutation_stream();
    assert_eq!(s.phase(), StreamPhase::Open);
    let a = s.step(&TableEvaluator {}, StreamEvent::Received(request("app-123")));
    assert_eq!(emitted(&a).id, "app-123");
    assert_eq!(s.phase(), StreamPhase::Open);
    assert!(matches!(s.step(&TableEvaluator {}, StreamEvent::InputEnded), StreamAction::Close));
    assert_eq!(s.phase(), StreamPhase::Closed);
    let late = s.step(&TableEvaluator {}, StreamEvent::Received(request("app-123")));
    assert!(matches!(late, StreamAction::Nothing));
    assert!(matches!(s.step(&TableEvaluator {}, StreamEvent::DecodeFailed), StreamAction::Nothing));
    assert_eq!(s.phase(), StreamPhase::Closed);

    let mut f = StreamSession::new();
    assert!(matches!(f.step(&TableEvaluator {}, StreamEvent::DecodeFailed), StreamAction::Abort));
    assert_eq!(f.phase(), StreamPhase::Failed);

    let mut c = StreamSession::new();
    assert!(matches!(c.step(&TableEvaluator {}, StreamEvent::Cancelled), StreamAction::Nothing));
    assert_eq!(c.phase(), StreamPhase::Cancelled);
    assert!(matches!(c.step(&TableEvaluator {}, StreamEvent::InputEnded), StreamAction::Nothing));
}
