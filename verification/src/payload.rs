//! The plain-value model of what a worker reads of a request payload and
//! of a backend response: a payload identifies a workload type and an
//! addressable resource, turns into a request, and — after a successful
//! execution — yields a successor payload built from the mutated resource
//! reference and the new gas reference that the execution effects expose.

use vstd::prelude::*;

verus! {

/// A reference to an addressable resource: its id and its version.
#[derive(Clone, Copy, PartialEq, Eq, Structural, Debug)]
pub struct ObjRef {
    pub id: u64,
    pub version: u64,
}

/// A reusable request template: the workload type it belongs to, the
/// resource it addresses, and the gas resource that funds it.
#[derive(Clone, Copy, PartialEq, Eq, Structural, Debug)]
pub struct Payload {
    pub workload_type: u64,
    pub object: ObjRef,
    pub gas: ObjRef,
}

/// A submittable request, derived from a payload.
#[derive(Clone, Copy, PartialEq, Eq, Structural, Debug)]
pub struct Request {
    pub object_id: u64,
    pub object_version: u64,
}

/// A request retained together with its payload after a failed attempt,
/// so it can be resubmitted without being rebuilt.
#[derive(Clone, Copy, PartialEq, Eq, Structural, Debug)]
pub struct PendingRequest {
    pub request: Request,
    pub payload: Payload,
}

/// What a successful execution exposes: the set of mutated resource
/// references and the new gas reference.
pub struct Effects {
    pub mutated: Vec<ObjRef>,
    pub gas: ObjRef,
}

/// A backend response, as the worker classifies it: a certificate of
/// effects, a response of an unexpected shape, or a transport/rejection
/// error.
pub enum BackendResult {
    EffectsCert(Effects),
    Unexpected,
    Error,
}

/// The resolution of one submitted request: either it completed with a
/// latency and the successor payload, or it failed and its pending
/// request is retained for retry. No third outcome is representable.
#[derive(Clone, Copy, PartialEq, Eq, Structural, Debug)]
pub enum NextOutcome {
    Completed(u64, Payload),
    Failed(PendingRequest),
}

/// The request a payload turns into.
pub open spec fn request_of(p: Payload) -> Request {
    Request { object_id: p.object.id, object_version: p.object.version }
}

/// The pending pair a fresh submission carries.
pub open spec fn pending_of(p: Payload) -> PendingRequest {
    PendingRequest { request: request_of(p), payload: p }
}

/// The successor of a payload after a success: same workload type, with
/// the mutated resource reference and the new gas reference.
pub open spec fn successor_of(p: Payload, new_object: ObjRef, new_gas: ObjRef) -> Payload {
    Payload { workload_type: p.workload_type, object: new_object, gas: new_gas }
}

/// Whether the mutated set holds a reference to the given resource id.
pub open spec fn has_mutated(mutated: Seq<ObjRef>, id: u64) -> bool {
    exists|j: int| 0 <= j < mutated.len() && mutated[j].id == id
}

/// The first mutated reference with the given resource id, searching
/// from index `i`.
pub open spec fn first_mutated_from(mutated: Seq<ObjRef>, id: u64, i: int) -> Option<ObjRef>
    decreases mutated.len() - i,
{
    if i < 0 || i >= mutated.len() {
        None
    } else if mutated[i].id == id {
        Some(mutated[i])
    } else {
        first_mutated_from(mutated, id, i + 1)
    }
}

/// The first mutated reference with the given resource id.
pub open spec fn first_mutated(mutated: Seq<ObjRef>, id: u64) -> Option<ObjRef> {
    first_mutated_from(mutated, id, 0)
}

impl Payload {
    /// Build the request this payload stands for.
    pub fn make_request(&self) -> (r: Request)
        ensures
            r == request_of(*self),
    {
        Request { object_id: self.object.id, object_version: self.object.version }
    }

    /// Build the successor payload after a successful execution.
    pub fn successor(&self, new_object: ObjRef, new_gas: ObjRef) -> (p: Payload)
        ensures
            p == successor_of(*self, new_object, new_gas),
    {
        Payload { workload_type: self.workload_type, object: new_object, gas: new_gas }
    }
}

/// Find the first mutated reference whose id matches.
pub fn find_mutated(mutated: &Vec<ObjRef>, id: u64) -> (r: Option<ObjRef>)
    ensures
        r == first_mutated(mutated@, id),
        r is Some <==> has_mutated(mutated@, id),
{
    let mut i: usize = 0;
    while i < mutated.len()
        invariant
            0 <= i <= mutated@.len(),
            first_mutated(mutated@, id) == first_mutated_from(mutated@, id, i as int),
            forall|j: int| 0 <= j < i ==> mutated@[j].id != id,
        decreases mutated@.len() - i,
    {
        if mutated[i].id == id {
            return Some(mutated[i]);
        }
        i = i + 1;
    }
    None
}

/// Map one backend response to the resolution of the submitted request:
/// a certificate of effects completes the request with the successor
/// payload built from the first mutated reference matching the payload's
/// resource; any other response fails it, retaining the pending pair
/// for retry.
pub fn classify_response(
    pending: PendingRequest,
    result: BackendResult,
    latency_micros: u64,
) -> (out: NextOutcome)
    requires
        (result matches BackendResult::EffectsCert(effects)
            ==> has_mutated(effects.mutated@, pending.payload.object.id)),
    ensures
        (match result {
            BackendResult::EffectsCert(effects) => out == NextOutcome::Completed(
                latency_micros,
                successor_of(
                    pending.payload,
                    first_mutated(effects.mutated@, pending.payload.object.id)->Some_0,
                    effects.gas,
                ),
            ),
            BackendResult::Unexpected => out == NextOutcome::Failed(pending),
            BackendResult::Error => out == NextOutcome::Failed(pending),
        }),
{
    match result {
        BackendResult::EffectsCert(effects) => {
            let new_object = find_mutated(&effects.mutated, pending.payload.object.id).unwrap();
            NextOutcome::Completed(latency_micros, pending.payload.successor(new_object, effects.gas))
        },
        BackendResult::Unexpected => NextOutcome::Failed(pending),
        BackendResult::Error => NextOutcome::Failed(pending),
    }
}

} // verus!
