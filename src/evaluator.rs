//! The sample evaluator: a fixed table from request identifiers to mutations.

use vstd::prelude::*;
use crate::builder::{
    activate_deals, activate_segments, bid_shade, build_metadata, deals_view, metadata_view,
    segments_view, shade_view, strs_view,
};
use crate::model::{
    valid_path, well_formed, BidContext, BidContextView, Mutation, MutationSet, MutationSetView,
    MutationView,
};
use crate::paths::{
    PATH_IMP_1, PATH_IMP_FOOTER, PATH_IMP_HEADER, PATH_IMP_SIDEBAR, PATH_SEATBID_BID_ABC,
};

verus! {

/// The mutations that the sample table holds for a request identifier; an
/// unknown identifier has none.
pub open spec fn table_mutations(id: Seq<char>) -> Seq<MutationView> {
    if id == "auction-123"@ {
        seq![
            segments_view(seq!["seg-sports"@, "demo-25-35"@, "gender-male"@]),
            deals_view(PATH_IMP_1@, seq!["display-deal-001"@]),
        ]
    } else if id == "auction-456"@ {
        seq![
            segments_view(seq!["demo-35-44"@]),
            deals_view(PATH_IMP_1@, seq!["premium-deal-001"@, "video-deal-001"@]),
        ]
    } else if id == "auction-789"@ {
        seq![
            segments_view(seq!["demo-45-plus"@]),
            deals_view(PATH_IMP_1@, seq!["display-deal-001"@]),
            shade_view(PATH_SEATBID_BID_ABC@, 4_675_000),
        ]
    } else if id == "auction-multi-123"@ {
        seq![
            segments_view(seq!["demo-35-44"@, "gender-female"@]),
            deals_view(PATH_IMP_HEADER@, seq!["display-deal-001"@]),
            deals_view(PATH_IMP_SIDEBAR@, seq!["display-deal-001"@]),
            deals_view(PATH_IMP_FOOTER@, seq!["display-deal-001"@]),
        ]
    } else if id == "app-123"@ {
        seq![
            segments_view(seq!["demo-18-24"@]),
            deals_view(PATH_IMP_1@, seq!["native-deal-001"@]),
        ]
    } else {
        seq![]
    }
}

/// The identifiers for which the sample table holds mutations.
pub open spec fn known_id(id: Seq<char>) -> bool {
    ||| id == "auction-123"@
    ||| id == "auction-456"@
    ||| id == "auction-789"@
    ||| id == "auction-multi-123"@
    ||| id == "app-123"@
}

/// Every mutation of the table is well formed.
pub proof fn lemma_table_well_formed(id: Seq<char>)
    ensures
        forall|i: int|
            0 <= i < table_mutations(id).len() ==> well_formed(#[trigger] table_mutations(id)[i]),
{
    reveal_strlit("/user/data/segment");
    reveal_strlit("/imp/imp-1");
    reveal_strlit("/imp/imp-header");
    reveal_strlit("/imp/imp-sidebar");
    reveal_strlit("/imp/imp-footer");
    reveal_strlit("/seatbid/dsp-001/bid/bid-abc");
}

/// The response to a request: its identifier echoed, the table's mutations and
/// the metadata.
pub open spec fn evaluation(req: BidContextView) -> MutationSetView {
    MutationSetView { id: req.id, mutations: table_mutations(req.id), metadata: metadata_view() }
}

fn id_is(id: &String, lit: &str) -> (r: bool)
    ensures
        r == (id@ == lit@),
{
    *id == lit.to_owned()
}

fn segments(ids: &[&str]) -> (r: Mutation)
    requires
        ids@.len() > 0,
    ensures
        r@ == segments_view(strs_view(ids@)),
{
    activate_segments(ids).unwrap()
}

fn deals(path: &str, ids: &[&str]) -> (r: Mutation)
    requires
        valid_path(path@),
        ids@.len() > 0,
    ensures
        r@ == deals_view(path@, strs_view(ids@)),
{
    activate_deals(path, ids).unwrap()
}

/// Evaluate a request: the table's mutations for its identifier, stamped with
/// the metadata, under the same identifier.
pub fn evaluate(req: BidContext) -> (r: MutationSet)
    ensures
        r@ == evaluation(req@),
        r.id@ == req.id@,
        !known_id(req.id@) ==> r.mutations@.len() == 0 && r.metadata@ == metadata_view(),
        forall|i: int| 0 <= i < r.mutations@.len() ==> well_formed(#[trigger] r.mutations@[i]@),
{
    proof {
        reveal_strlit("/imp/imp-1");
        reveal_strlit("/imp/imp-header");
        reveal_strlit("/imp/imp-sidebar");
        reveal_strlit("/imp/imp-footer");
        reveal_strlit("/seatbid/dsp-001/bid/bid-abc");
    }
    let metadata = build_metadata();
    let mut mutations: Vec<Mutation> = Vec::new();
    if id_is(&req.id, "auction-123") {
        let segs = ["seg-sports", "demo-25-35", "gender-male"];
        let deal = ["display-deal-001"];
        mutations.push(segments(&segs));
        mutations.push(deals(PATH_IMP_1, &deal));
        assert(strs_view(segs@) =~= seq!["seg-sports"@, "demo-25-35"@, "gender-male"@]);
        assert(strs_view(deal@) =~= seq!["display-deal-001"@]);
    } else if id_is(&req.id, "auction-456") {
        let segs = ["demo-35-44"];
        let deal = ["premium-deal-001", "video-deal-001"];
        mutations.push(segments(&segs));
        mutations.push(deals(PATH_IMP_1, &deal));
        assert(strs_view(segs@) =~= seq!["demo-35-44"@]);
        assert(strs_view(deal@) =~= seq!["premium-deal-001"@, "video-deal-001"@]);
    } else if id_is(&req.id, "auction-789") {
        let segs = ["demo-45-plus"];
        let deal = ["display-deal-001"];
        mutations.push(segments(&segs));
        mutations.push(deals(PATH_IMP_1, &deal));
        mutations.push(bid_shade(PATH_SEATBID_BID_ABC, 4_675_000).unwrap());
        assert(strs_view(segs@) =~= seq!["demo-45-plus"@]);
        assert(strs_view(deal@) =~= seq!["display-deal-001"@]);
    } else if id_is(&req.id, "auction-multi-123") {
        let segs = ["demo-35-44", "gender-female"];
        let deal = ["display-deal-001"];
        mutations.push(segments(&segs));
        mutations.push(deals(PATH_IMP_HEADER, &deal));
        mutations.push(deals(PATH_IMP_SIDEBAR, &deal));
        mutations.push(deals(PATH_IMP_FOOTER, &deal));
        assert(strs_view(segs@) =~= seq!["demo-35-44"@, "gender-female"@]);
        assert(strs_view(deal@) =~= seq!["display-deal-001"@]);
    } else if id_is(&req.id, "app-123") {
        let segs = ["demo-18-24"];
        let deal = ["native-deal-001"];
        mutations.push(segments(&segs));
        mutations.push(deals(PATH_IMP_1, &deal));
        assert(strs_view(segs@) =~= seq!["demo-18-24"@]);
        assert(strs_view(deal@) =~= seq!["native-deal-001"@]);
    }
    let r = MutationSet { id: req.id, mutations, metadata };
    assert(r@.mutations =~= table_mutations(req@.id));
    proof {
        lemma_table_well_formed(req@.id);
        assert forall|i: int| 0 <= i < r.mutations@.len() implies well_formed(
            #[trigger] r.mutations@[i]@,
        ) by {
            assert(r.mutations@[i]@ == r@.mutations[i]);
        }
    }
    r
}

/// A bidding logic that the protocol layer consults: it maps each request to a
/// response under the request's identifier, made of well-formed mutations.
pub trait Evaluator {
    /// The response to a request.
    spec fn response(&self, req: BidContextView) -> MutationSetView;

    fn evaluate(&self, req: BidContext) -> (r: MutationSet)
        ensures
            r@ == self.response(req@),
            r.id@ == req.id@,
            r.metadata@ == metadata_view(),
            forall|i: int|
                0 <= i < r.mutations@.len() ==> well_formed(#[trigger] r.mutations@[i]@),
    ;
}

/// The evaluator that answers from the fixed table.
#[derive(Clone, Copy, Debug, Default)]
pub struct TableEvaluator {}

impl Evaluator for TableEvaluator {
    open spec fn response(&self, req: BidContextView) -> MutationSetView {
        evaluation(req)
    }

    fn evaluate(&self, req: BidContext) -> (r: MutationSet) {
        evaluate(req)
    }
}

} // verus!
