//! The computational core of one connection cycle.
//!
//! A connection is handled as read, parse, build, serialize, write, close.
//! The caller reads the bytes, resolves the parsed target against the
//! document root, and writes the serialized reply; everything in between
//! is pure and stands here. On a parse or build failure nothing is written
//! back: the cycle ends without a reply.

use crate::request::HttpRequest;
use crate::request::spec_parse;
use crate::response::BuildError;
use crate::response::HttpResponse;
use crate::response::LookupView;
use crate::response::ResourceLookup;
use crate::response::spec_build;
use crate::response::spec_serialize;
use vstd::prelude::*;

verus! {

/// The bytes one connection cycle writes back, as a function of the input
/// bytes and of the lookup outcome for the parsed target: `None` when a
/// parse or build failure ends the cycle without a reply.
pub open spec fn spec_cycle(input: Seq<u8>, lookup: LookupView) -> Option<Seq<u8>> {
    match spec_parse(input) {
        Result::Err(_) => Option::None,
        Result::Ok(req) => match spec_build(req, lookup) {
            Result::Err(_) => Option::None,
            Result::Ok(resp) => Option::Some(spec_serialize(resp)),
        },
    }
}

/// The reply for a parsed request once its target has been resolved:
/// builds the response and renders its wire bytes in one step.
pub fn respond(request: &HttpRequest, resource: ResourceLookup) -> (r: Result<Vec<u8>, BuildError>)
    ensures
        match r {
            Result::Ok(bytes) => spec_build(request@, resource@) is Ok && bytes@
                == spec_serialize(spec_build(request@, resource@)->Ok_0),
            Result::Err(e) => spec_build(request@, resource@) == Result::Err::<
                crate::response::HttpResponseView,
                BuildError,
            >(e),
        },
{
    match HttpResponse::new(request, resource) {
        Result::Ok(resp) => Result::Ok(resp.serialize()),
        Result::Err(e) => Result::Err(e),
    }
}

/// One connection cycle is deterministic: identical input bytes and an
/// identical filesystem outcome always produce identical output bytes,
/// because every stage is a function of its inputs alone.
pub proof fn lemma_cycle_deterministic(
    x1: Seq<u8>,
    x2: Seq<u8>,
    l1: LookupView,
    l2: LookupView,
)
    requires
        x1 == x2,
        l1 == l2,
    ensures
        spec_cycle(x1, l1) == spec_cycle(x2, l2),
{
}

} // verus!
