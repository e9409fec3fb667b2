//! Data model: mutations, mutation sets, metadata and bid contexts, with their
//! mathematical views.

use vstd::prelude::*;

verus! {

/// The purpose of a mutation.
#[derive(Clone, Copy, Debug, PartialEq, Eq, Structural)]
pub enum Intent {
    ActivateSegments,
    ActivateDeals,
    BidShade,
}

/// The edit verb applied at a mutation's path.
#[derive(Clone, Copy, Debug, PartialEq, Eq, Structural)]
pub enum Operation {
    Add,
    Replace,
}

/// Identifiers to activate (segments or deals), in order.
#[derive(Debug)]
pub struct IdsPayload {
    pub ids: Vec<String>,
}

/// A bid price adjustment, in millionths of the currency unit.
#[derive(Clone, Copy, Debug, PartialEq, Eq, Structural)]
pub struct AdjustBidPayload {
    pub price_micros: Option<u64>,
}

/// The single typed payload of a mutation.
#[derive(Debug)]
pub enum Payload {
    Ids(IdsPayload),
    AdjustBid(AdjustBidPayload),
}

/// One directive to edit the bid object.
#[derive(Debug)]
pub struct Mutation {
    pub intent: Intent,
    pub op: Operation,
    pub path: String,
    pub payload: Payload,
}

/// Versioning stamp attached to every response.
#[derive(Debug)]
pub struct Metadata {
    pub api_version: String,
    pub model_version: String,
}

/// An incoming bid context: its identifier and the encoded bid object, which is
/// carried through uninterpreted.
#[derive(Debug)]
pub struct BidContext {
    pub id: String,
    pub bid: Vec<u8>,
}

/// The response to one evaluation.
#[derive(Debug)]
pub struct MutationSet {
    pub id: String,
    pub mutations: Vec<Mutation>,
    pub metadata: Metadata,
}

/// Abstract payload: identifiers as character sequences, or a price.
pub enum PayloadView {
    Ids(Seq<Seq<char>>),
    AdjustBid(Option<u64>),
}

pub struct MutationView {
    pub intent: Intent,
    pub op: Operation,
    pub path: Seq<char>,
    pub payload: PayloadView,
}

pub struct MetadataView {
    pub api_version: Seq<char>,
    pub model_version: Seq<char>,
}

pub struct BidContextView {
    pub id: Seq<char>,
    pub bid: Seq<u8>,
}

pub struct MutationSetView {
    pub id: Seq<char>,
    pub mutations: Seq<MutationView>,
    pub metadata: MetadataView,
}

/// The character sequences of a list of strings.
pub open spec fn strings_view(v: Seq<String>) -> Seq<Seq<char>> {
    v.map_values(|s: String| s@)
}

impl View for IdsPayload {
    type V = Seq<Seq<char>>;

    open spec fn view(&self) -> Seq<Seq<char>> {
        strings_view(self.ids@)
    }
}

impl View for Payload {
    type V = PayloadView;

    open spec fn view(&self) -> PayloadView {
        match self {
            Payload::Ids(p) => PayloadView::Ids(p@),
            Payload::AdjustBid(p) => PayloadView::AdjustBid(p.price_micros),
        }
    }
}

impl View for Mutation {
    type V = MutationView;

    open spec fn view(&self) -> MutationView {
        MutationView { intent: self.intent, op: self.op, path: self.path@, payload: self.payload@ }
    }
}

impl View for Metadata {
    type V = MetadataView;

    open spec fn view(&self) -> MetadataView {
        MetadataView { api_version: self.api_version@, model_version: self.model_version@ }
    }
}

impl View for BidContext {
    type V = BidContextView;

    open spec fn view(&self) -> BidContextView {
        BidContextView { id: self.id@, bid: self.bid@ }
    }
}

impl View for MutationSet {
    type V = MutationSetView;

    open spec fn view(&self) -> MutationSetView {
        MutationSetView {
            id: self.id@,
            mutations: self.mutations@.map_values(|m: Mutation| m@),
            metadata: self.metadata@,
        }
    }
}

fn strings_equal(a: &Vec<String>, b: &Vec<String>) -> (r: bool)
    ensures
        r == (strings_view(a@) == strings_view(b@)),
{
    if a.len() != b.len() {
        assert(strings_view(a@).len() != strings_view(b@).len());
        return false;
    }
    let mut i: usize = 0;
    while i < a.len()
        invariant
            i <= a@.len() == b@.len(),
            forall|j: int| 0 <= j < i ==> a@[j]@ == b@[j]@,
        decreases a@.len() - i,
    {
        if a[i] != b[i] {
            assert(strings_view(a@)[i as int] != strings_view(b@)[i as int]);
            return false;
        }
        i = i + 1;
    }
    assert(strings_view(a@) =~= strings_view(b@));
    true
}

fn mutations_equal(a: &Vec<Mutation>, b: &Vec<Mutation>) -> (r: bool)
    ensures
        r == (a@.map_values(|m: Mutation| m@) == b@.map_values(|m: Mutation| m@)),
{
    if a.len() != b.len() {
        assert(a@.map_values(|m: Mutation| m@).len() != b@.map_values(|m: Mutation| m@).len());
        return false;
    }
    let mut i: usize = 0;
    while i < a.len()
        invariant
            i <= a@.len() == b@.len(),
            forall|j: int| 0 <= j < i ==> a@[j]@ == b@[j]@,
        decreases a@.len() - i,
    {
        if !a[i].eq(&b[i]) {
            assert(a@.map_values(|m: Mutation| m@)[i as int] != b@.map_values(
                |m: Mutation| m@,
            )[i as int]);
            return false;
        }
        i = i + 1;
    }
    assert(a@.map_values(|m: Mutation| m@) =~= b@.map_values(|m: Mutation| m@));
    true
}

fn bytes_equal(a: &Vec<u8>, b: &Vec<u8>) -> (r: bool)
    ensures
        r == (a@ == b@),
{
    if a.len() != b.len() {
        return false;
    }
    let mut i: usize = 0;
    while i < a.len()
        invariant
            i <= a@.len() == b@.len(),
            forall|j: int| 0 <= j < i ==> a@[j] == b@[j],
        decreases a@.len() - i,
    {
        if a[i] != b[i] {
            return false;
        }
        i = i + 1;
    }
    assert(a@ =~= b@);
    true
}

impl PartialEq for IdsPayload {
    fn eq(&self, o: &IdsPayload) -> (r: bool) {
        strings_equal(&self.ids, &o.ids)
    }
}

impl vstd::std_specs::cmp::PartialEqSpecImpl for IdsPayload {
    open spec fn obeys_eq_spec() -> bool {
        true
    }

    open spec fn eq_spec(&self, o: &IdsPayload) -> bool {
        self@ == o@
    }
}

impl PartialEq for Payload {
    fn eq(&self, o: &Payload) -> (r: bool) {
        match (self, o) {
            (Payload::Ids(a), Payload::Ids(b)) => a.eq(b),
            (Payload::AdjustBid(a), Payload::AdjustBid(b)) => a.price_micros == b.price_micros,
            _ => false,
        }
    }
}

impl vstd::std_specs::cmp::PartialEqSpecImpl for Payload {
    open spec fn obeys_eq_spec() -> bool {
        true
    }

    open spec fn eq_spec(&self, o: &Payload) -> bool {
        self@ == o@
    }
}

impl PartialEq for Mutation {
    fn eq(&self, o: &Mutation) -> (r: bool) {
        self.intent == o.intent && self.op == o.op && self.path == o.path && self.payload.eq(
            &o.payload,
        )
    }
}

impl vstd::std_specs::cmp::PartialEqSpecImpl for Mutation {
    open spec fn obeys_eq_spec() -> bool {
        true
    }

    open spec fn eq_spec(&self, o: &Mutation) -> bool {
        self@ == o@
    }
}

impl PartialEq for Metadata {
    fn eq(&self, o: &Metadata) -> (r: bool) {
        self.api_version == o.api_version && self.model_version == o.model_version
    }
}

impl vstd::std_specs::cmp::PartialEqSpecImpl for Metadata {
    open spec fn obeys_eq_spec() -> bool {
        true
    }

    open spec fn eq_spec(&self, o: &Metadata) -> bool {
        self@ == o@
    }
}

impl PartialEq for BidContext {
    fn eq(&self, o: &BidContext) -> (r: bool) {
        self.id == o.id && bytes_equal(&self.bid, &o.bid)
    }
}

impl vstd::std_specs::cmp::PartialEqSpecImpl for BidContext {
    open spec fn obeys_eq_spec() -> bool {
        true
    }

    open spec fn eq_spec(&self, o: &BidContext) -> bool {
        self@ == o@
    }
}

impl PartialEq for MutationSet {
    fn eq(&self, o: &MutationSet) -> (r: bool) {
        self.id == o.id && mutations_equal(&self.mutations, &o.mutations) && self.metadata.eq(
            &o.metadata,
        )
    }
}

impl vstd::std_specs::cmp::PartialEqSpecImpl for MutationSet {
    open spec fn obeys_eq_spec() -> bool {
        true
    }

    open spec fn eq_spec(&self, o: &MutationSet) -> bool {
        self@ == o@
    }
}

/// A path is a pointer into the bid object: non-empty and starting at the root.
pub open spec fn valid_path(path: Seq<char>) -> bool {
    path.len() > 0 && path[0] == '/'
}

/// The payload variant matches the intent, and the operation matches both.
pub open spec fn well_formed(m: MutationView) -> bool {
    &&& valid_path(m.path)
    &&& match m.intent {
        Intent::ActivateSegments | Intent::ActivateDeals => {
            &&& m.op == Operation::Add
            &&& m.payload matches PayloadView::Ids(ids) && ids.len() > 0
        },
        Intent::BidShade => m.op == Operation::Replace && m.payload is AdjustBid,
    }
}

} // verus!
