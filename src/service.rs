//! The RPC surface and the health probes, as decisions on plain values.

use vstd::prelude::*;
use crate::builder::metadata_view;
use crate::evaluator::Evaluator;
use crate::model::{BidContext, MutationSet};
use crate::stream::{StreamPhase, StreamSession};

verus! {

/// The extension point: answers unary calls and opens stream sessions, both
/// through one evaluator.
#[derive(Debug, Default)]
pub struct RtbExtensionPointService<E> {
    evaluator: E,
}

impl<E: Evaluator> RtbExtensionPointService<E> {
    pub closed spec fn spec_evaluator(&self) -> E {
        self.evaluator
    }

    pub fn new(evaluator: E) -> (r: RtbExtensionPointService<E>)
        ensures
            r.spec_evaluator() == evaluator,
    {
        RtbExtensionPointService { evaluator }
    }

    /// The evaluator that stream sessions of this service consult.
    pub fn evaluator(&self) -> (r: &E)
        ensures
            *r == self.spec_evaluator(),
    {
        &self.evaluator
    }

    /// Answer one request with one evaluation.
    pub fn get_mutations(&self, req: BidContext) -> (r: MutationSet)
        ensures
            r@ == self.spec_evaluator().response(req@),
            r.id@ == req.id@,
            r.metadata@ == metadata_view(),
    {
        self.evaluator.evaluate(req)
    }

    /// A session for a new stream, ready for its first request.
    pub fn get_mutation_stream(&self) -> (r: StreamSession)
        ensures
            r.spec_phase() == StreamPhase::Open,
    {
        StreamSession::new()
    }
}

/// The answer of the health front door.
#[derive(Debug)]
pub struct RestReply {
    pub status: u16,
    pub body: String,
}

/// A liveness or readiness probe.
pub open spec fn is_health_probe(method: Seq<char>, path: Seq<char>) -> bool {
    method == "GET"@ && (path == "/health/live"@ || path == "/health/ready"@)
}

/// Answer a plain HTTP request: `200 OK` for a probe, `404 Not Found` otherwise.
pub fn handle_rest(method: &str, path: &str) -> (r: RestReply)
    ensures
        is_health_probe(method@, path@) ==> r.status == 200 && r.body@ == "OK"@,
        !is_health_probe(method@, path@) ==> r.status == 404 && r.body@ == "Not Found"@,
{
    let method = method.to_owned();
    let path = path.to_owned();
    if method == "GET".to_owned() && (path == "/health/live".to_owned() || path
        == "/health/ready".to_owned()) {
        RestReply { status: 200, body: "OK".to_owned() }
    } else {
        RestReply { status: 404, body: "Not Found".to_owned() }
    }
}

} // verus!
