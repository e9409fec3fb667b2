//! Constructors for each recognised mutation shape, and the response metadata.

use vstd::prelude::*;
use crate::config::{API_VERSION, MODEL_VERSION};
use crate::model::{
    IdsPayload, Intent, Metadata, MetadataView, Mutation, MutationView, Operation, Payload,
    PayloadView, AdjustBidPayload, strings_view, well_formed,
};
use crate::paths::PATH_USER_SEGMENT;

verus! {

/// Why a mutation could not be built.
#[derive(Clone, Copy, Debug, PartialEq, Eq, Structural)]
pub enum InvalidMutation {
    /// The path is the empty string.
    EmptyPath,
    /// The path does not begin with `/`.
    PathWithoutRoot,
    /// No identifiers were given.
    EmptyIds,
}

/// The metadata stamped on every response.
pub open spec fn metadata_view() -> MetadataView {
    MetadataView { api_version: API_VERSION@, model_version: MODEL_VERSION@ }
}

/// The character sequences of a list of string slices.
pub open spec fn strs_view(ids: Seq<&str>) -> Seq<Seq<char>> {
    ids.map_values(|s: &str| s@)
}

/// The error, if any, for a mutation at `path` carrying `n_ids` identifiers.
pub open spec fn ids_check(path: Seq<char>, n_ids: nat) -> Option<InvalidMutation> {
    if path.len() == 0 {
        Some(InvalidMutation::EmptyPath)
    } else if path[0] != '/' {
        Some(InvalidMutation::PathWithoutRoot)
    } else if n_ids == 0 {
        Some(InvalidMutation::EmptyIds)
    } else {
        None
    }
}

/// The error, if any, for a mutation at `path` that carries a price.
pub open spec fn path_check(path: Seq<char>) -> Option<InvalidMutation> {
    if path.len() == 0 {
        Some(InvalidMutation::EmptyPath)
    } else if path[0] != '/' {
        Some(InvalidMutation::PathWithoutRoot)
    } else {
        None
    }
}

pub open spec fn segments_view(ids: Seq<Seq<char>>) -> MutationView {
    MutationView {
        intent: Intent::ActivateSegments,
        op: Operation::Add,
        path: PATH_USER_SEGMENT@,
        payload: PayloadView::Ids(ids),
    }
}

pub open spec fn deals_view(path: Seq<char>, ids: Seq<Seq<char>>) -> MutationView {
    MutationView {
        intent: Intent::ActivateDeals,
        op: Operation::Add,
        path,
        payload: PayloadView::Ids(ids),
    }
}

pub open spec fn shade_view(path: Seq<char>, price_micros: u64) -> MutationView {
    MutationView {
        intent: Intent::BidShade,
        op: Operation::Replace,
        path,
        payload: PayloadView::AdjustBid(Some(price_micros)),
    }
}

/// Build the response metadata from the configured versions.
pub fn build_metadata() -> (r: Metadata)
    ensures
        r@ == metadata_view(),
{
    Metadata { api_version: API_VERSION.to_owned(), model_version: MODEL_VERSION.to_owned() }
}

/// The path checks shared by every constructor.
fn check_path(path: &str) -> (r: Option<InvalidMutation>)
    ensures
        r == path_check(path@),
{
    let n = path.unicode_len();
    if n == 0 {
        Some(InvalidMutation::EmptyPath)
    } else if path.get_char(0) != '/' {
        Some(InvalidMutation::PathWithoutRoot)
    } else {
        None
    }
}

fn ids_payload(ids: &[&str]) -> (r: IdsPayload)
    ensures
        r@ == strs_view(ids@),
{
    let mut out: Vec<String> = Vec::new();
    let mut i: usize = 0;
    while i < ids.len()
        invariant
            i <= ids@.len(),
            strings_view(out@) == strs_view(ids@.subrange(0, i as int)),
        decreases ids@.len() - i,
    {
        let ghost before = out@;
        let id = ids[i].to_owned();
        out.push(id);
        proof {
            assert(ids@.subrange(0, i + 1) == ids@.subrange(0, i as int).push(ids@[i as int]));
            assert(strings_view(out@) =~= strings_view(before).push(id@));
            assert(strings_view(out@) =~= strs_view(ids@.subrange(0, i + 1)));
        }
        i = i + 1;
    }
    proof {
        assert(ids@.subrange(0, ids@.len() as int) == ids@);
    }
    IdsPayload { ids: out }
}

/// Build a mutation that activates the given user segments.
pub fn activate_segments(ids: &[&str]) -> (r: Result<Mutation, InvalidMutation>)
    ensures
        ids@.len() == 0 ==> r == Err::<Mutation, InvalidMutation>(InvalidMutation::EmptyIds),
        ids@.len() > 0 ==> r is Ok && r->Ok_0@ == segments_view(strs_view(ids@)),
        r is Ok ==> well_formed(r->Ok_0@),
{
    proof {
        reveal_strlit("/user/data/segment");
    }
    if ids.len() == 0 {
        return Err(InvalidMutation::EmptyIds);
    }
    Ok(
        Mutation {
            intent: Intent::ActivateSegments,
            op: Operation::Add,
            path: PATH_USER_SEGMENT.to_owned(),
            payload: Payload::Ids(ids_payload(ids)),
        },
    )
}

/// Build a mutation that activates the given deals on the impression at `path`.
pub fn activate_deals(path: &str, ids: &[&str]) -> (r: Result<Mutation, InvalidMutation>)
    ensures
        match ids_check(path@, ids@.len()) {
            Some(e) => r == Err::<Mutation, InvalidMutation>(e),
            None => r is Ok && r->Ok_0@ == deals_view(path@, strs_view(ids@)),
        },
        r is Ok ==> well_formed(r->Ok_0@),
{
    if let Some(e) = check_path(path) {
        return Err(e);
    }
    if ids.len() == 0 {
        return Err(InvalidMutation::EmptyIds);
    }
    Ok(
        Mutation {
            intent: Intent::ActivateDeals,
            op: Operation::Add,
            path: path.to_owned(),
            payload: Payload::Ids(ids_payload(ids)),
        },
    )
}

/// Build a mutation that replaces the price of the bid at `path`.
pub fn bid_shade(path: &str, price_micros: u64) -> (r: Result<Mutation, InvalidMutation>)
    ensures
        match path_check(path@) {
            Some(e) => r == Err::<Mutation, InvalidMutation>(e),
            None => r is Ok && r->Ok_0@ == shade_view(path@, price_micros),
        },
        r is Ok ==> well_formed(r->Ok_0@),
{
    if let Some(e) = check_path(path) {
        return Err(e);
    }
    Ok(
        Mutation {
            intent: Intent::BidShade,
            op: Operation::Replace,
            path: path.to_owned(),
            payload: Payload::AdjustBid(AdjustBidPayload { price_micros: Some(price_micros) }),
        },
    )
}

/// What a constructor's result stands for.
pub open spec fn outcome(r: Result<Mutation, InvalidMutation>) -> Result<
    MutationView,
    InvalidMutation,
> {
    match r {
        Ok(m) => Ok(m@),
        Err(e) => Err(e),
    }
}

/// Building a deal activation twice from the same arguments gives structurally
/// equal results.
pub proof fn lemma_activate_deals_idempotent(
    path: &str,
    ids: &[&str],
    first: Result<Mutation, InvalidMutation>,
    second: Result<Mutation, InvalidMutation>,
)
    requires
        call_ensures(activate_deals, (path, ids), first),
        call_ensures(activate_deals, (path, ids), second),
    ensures
        outcome(first) == outcome(second),
{
}

} // verus!
