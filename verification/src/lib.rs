//! A concurrency-bounded orchestrator for bulk requests against a
//! rate-limited remote service.
//!
//! Callers submit units of work and get back an opaque identifier at once;
//! a bounded number of tasks execute concurrently, each retrying transient
//! failures under its own copy of the configured policies; results are
//! retrieved later through the identifier, each exactly once.
//!
//! The submission protocol registers a result slot *before* the task may
//! run, so a retrieval issued immediately after submission can never race a
//! task that has not registered yet. Execution is gated by an admission
//! pool sized to the concurrency limit: a task acquires one permit before
//! performing its work and releases it unconditionally when the work
//! completes. The slot keeps the outcome until it is consumed.

use vstd::prelude::*;

pub mod chat;
pub mod driver;
pub mod embed;
pub mod erased;
pub mod errors;
pub mod gate;
pub mod io;
pub mod keys;
pub mod policies;
pub mod prelude;
pub mod registry;

use crate::erased::ErasedValue;
use crate::errors::OrchError;
use crate::gate::AdmissionGate;
use crate::keys::Keys;
use crate::policies::Policies;
use crate::registry::Registry;
use crate::registry::RegistryEntry;
use crate::registry::Retrieval;
use crate::registry::SlotState;
use crate::registry::map_after_retrieval;
use crate::registry::retrieval_outcome;

verus! {

/// A response kind that the orchestrator can store and retrieve: it has a
/// kind tag and can be wrapped in the type-erased container under that tag.
pub trait ResponseType: Sized {
    /// The tag under which responses of this kind are registered and
    /// retrieved.
    spec fn kind_spec() -> u64;

    /// The tag as a runtime value.
    fn kind_tag() -> (k: u64)
        ensures
            k == Self::kind_spec(),
    ;

    /// Wraps the response in the type-erased container, preserving the tag.
    fn erase(self) -> (e: ErasedValue)
        ensures
            e.kind_spec() == Self::kind_spec(),
    ;
}

/// The capability contract of one unit of remote work. Given the policies,
/// credentials, and its identifier, the executable produces a typed result
/// or a typed failure, driving its own retry and timeout loop internally
/// (see [`crate::driver`]).
pub trait OrchRequest {
    /// The type of response returned by the request.
    type Res: ResponseType;

    /// Business logic of a request: send it and return the response, or
    /// the terminal error once retries are exhausted.
    fn send(&self, policies: Policies, keys: &Keys, id: u64) -> Result<Self::Res, OrchError>;
}

/// A unique identifier for a request, carrying the kind tag of the
/// response it will yield. Retrieval checks this tag against the one
/// recorded at submission.
#[derive(Clone, Copy, Debug, PartialEq, Eq, Structural)]
pub struct RequestID {
    pub id: u64,
    pub kind: u64,
}

/// Relies on `tinyrand_std::thread_rand` and `tinyrand::Rand::next_u64` for
/// identifier entropy. The result is a random value; nothing is assumed of
/// it, and submission handles collisions by regenerating.
#[verifier::external_body]
fn random_u64() -> u64 {
    tinyrand::Rand::next_u64(&mut tinyrand_std::thread_rand())
}

/// How many fresh random identifiers a submission draws before giving up.
const MINT_ATTEMPTS: usize = 16;

/// The central interface: accepts submissions, admits a bounded number of
/// tasks to execute at once, and serves retrieval of their results.
pub struct Orchestrator {
    registry: Registry,
    gate: AdmissionGate,
    policies: Policies,
    keys: Keys,
}

impl Orchestrator {
    /// The identifier-to-slot map.
    pub closed spec fn registry_view(&self) -> Map<u64, RegistryEntry> {
        self.registry@
    }

    /// The policy bundle every task receives a copy of.
    pub closed spec fn policies_spec(&self) -> Policies {
        self.policies
    }

    /// The credentials every task receives.
    pub closed spec fn keys_spec(&self) -> Keys {
        self.keys
    }

    /// The admission gate's capacity.
    pub closed spec fn capacity_spec(&self) -> usize {
        self.gate.capacity_spec()
    }

    /// The number of tasks currently holding an admission permit.
    pub closed spec fn in_flight_spec(&self) -> int {
        self.gate.in_flight()
    }

    /// The admission gate is sized to the concurrency limit.
    pub closed spec fn wf(&self) -> bool {
        &&& self.gate.wf()
        &&& self.gate.capacity_spec() == self.policies.concurrency_policy.max_concurrent_requests
    }

    /// The admission bound: a well-formed orchestrator never has more
    /// executables in flight than its concurrency limit.
    pub proof fn lemma_admission_bound(&self)
        requires
            self.wf(),
        ensures
            0 <= self.in_flight_spec()
                <= self.policies_spec().concurrency_policy.max_concurrent_requests,
    {
        self.gate.lemma_admission_bound();
    }

    /// Creates a new orchestrator with the given policies and keys. Its
    /// admission gate is sized to the concurrency policy and idle, and its
    /// registry is empty.
    pub fn new(policies: Policies, keys: Keys) -> (orch: Self)
        ensures
            orch.wf(),
            orch.registry_view() == Map::<u64, RegistryEntry>::empty(),
            orch.capacity_spec() == policies.concurrency_policy.max_concurrent_requests,
            orch.in_flight_spec() == 0,
            orch.policies_spec() == policies,
            orch.keys_spec() == keys,
    {
        let capacity = policies.concurrency_policy.max_concurrent_requests;
        Orchestrator { registry: Registry::new(), gate: AdmissionGate::new(capacity), policies, keys }
    }

    /// Submits a unit of work that will yield a response of kind `kind`:
    /// mints a fresh identifier and registers its result slot, before any
    /// task for it could possibly run. Never blocks on the work itself.
    /// Fails only if no fresh identifier could be minted, leaving the
    /// orchestrator unchanged.
    pub fn submit(&mut self, kind: u64) -> (r: Result<RequestID, OrchError>)
        requires
            old(self).wf(),
        ensures
            final(self).wf(),
            final(self).capacity_spec() == old(self).capacity_spec(),
            final(self).in_flight_spec() == old(self).in_flight_spec(),
            final(self).policies_spec() == old(self).policies_spec(),
            final(self).keys_spec() == old(self).keys_spec(),
            match r {
                Ok(rid) => {
                    &&& rid.kind == kind
                    &&& !old(self).registry_view().contains_key(rid.id)
                    &&& final(self).registry_view() == old(self).registry_view().insert(
                        rid.id,
                        RegistryEntry { kind, state: SlotState::Pending },
                    )
                },
                Err(e) => e == OrchError::IdCollision && final(self).registry_view() == old(
                    self,
                ).registry_view(),
            },
            old(self).registry_view() == Map::<u64, RegistryEntry>::empty() ==> r is Ok,
    {
        let mut tries: usize = 0;
        while tries < MINT_ATTEMPTS
            invariant
                self.gate == old(self).gate,
                self.policies == old(self).policies,
                self.keys == old(self).keys,
                self.registry@ == old(self).registry@,
                self.wf(),
                old(self).registry@ == Map::<u64, RegistryEntry>::empty() ==> tries == 0,
            decreases MINT_ATTEMPTS - tries,
        {
            let id = random_u64();
            let fresh = self.registry.register(id, kind);
            if fresh {
                return Ok(RequestID { id, kind });
            }
            tries = tries + 1;
        }
        Err(OrchError::IdCollision)
    }

    /// Submits a request whose response kind is given by its executable's
    /// response type. The returned identifier carries that kind's tag; the
    /// work itself is performed by [`Orchestrator::run_task`] or by a
    /// caller driving the task protocol directly.
    pub fn add_request<Req: OrchRequest>(&mut self, request: &Req) -> (r: Result<
        RequestID,
        OrchError,
    >)
        requires
            old(self).wf(),
        ensures
            final(self).wf(),
            final(self).capacity_spec() == old(self).capacity_spec(),
            final(self).in_flight_spec() == old(self).in_flight_spec(),
            final(self).policies_spec() == old(self).policies_spec(),
            final(self).keys_spec() == old(self).keys_spec(),
            match r {
                Ok(rid) => {
                    &&& rid.kind == <Req::Res as ResponseType>::kind_spec()
                    &&& !old(self).registry_view().contains_key(rid.id)
                    &&& final(self).registry_view() == old(self).registry_view().insert(
                        rid.id,
                        RegistryEntry {
                            kind: <Req::Res as ResponseType>::kind_spec(),
                            state: SlotState::Pending,
                        },
                    )
                },
                Err(e) => e == OrchError::IdCollision && final(self).registry_view() == old(
                    self,
                ).registry_view(),
            },
            old(self).registry_view() == Map::<u64, RegistryEntry>::empty() ==> r is Ok,
    {
        let _ = request;
        let kind = <Req::Res as ResponseType>::kind_tag();
        self.submit(kind)
    }

    /// The policy bundle for one task: an independent copy, so the task's
    /// retry counter can never leak into another task.
    pub fn task_policies(&self) -> (p: Policies)
        ensures
            p == self.policies_spec(),
    {
        self.policies
    }

    /// The credentials tasks pass through to the remote service.
    pub fn keys(&self) -> (k: &Keys)
        ensures
            *k == self.keys_spec(),
    {
        &self.keys
    }

    /// The number of tasks currently holding an admission permit.
    pub fn in_flight_count(&self) -> (n: usize)
        requires
            self.wf(),
        ensures
            n == self.in_flight_spec(),
    {
        self.gate.in_flight_count()
    }

    /// Asks for admission of one task: takes a permit if fewer tasks are
    /// in flight than the concurrency limit allows. A task must be
    /// admitted before it performs its remote call.
    pub fn begin_task(&mut self) -> (admitted: bool)
        requires
            old(self).wf(),
        ensures
            final(self).wf(),
            final(self).capacity_spec() == old(self).capacity_spec(),
            final(self).registry_view() == old(self).registry_view(),
            final(self).policies_spec() == old(self).policies_spec(),
            final(self).keys_spec() == old(self).keys_spec(),
            admitted <==> old(self).in_flight_spec() < old(self).capacity_spec(),
            admitted ==> final(self).in_flight_spec() == old(self).in_flight_spec() + 1,
            !admitted ==> final(self).in_flight_spec() == old(self).in_flight_spec(),
    {
        self.gate.try_acquire()
    }

    /// Completes an admitted task: delivers its outcome into the slot for
    /// `id` and releases the permit. The permit is released whether or not
    /// a pending slot was there to receive the outcome.
    pub fn complete_task(&mut self, id: u64, outcome: Result<ErasedValue, OrchError>) -> (delivered:
        bool)
        requires
            old(self).wf(),
            old(self).in_flight_spec() > 0,
        ensures
            final(self).wf(),
            final(self).capacity_spec() == old(self).capacity_spec(),
            final(self).in_flight_spec() == old(self).in_flight_spec() - 1,
            final(self).policies_spec() == old(self).policies_spec(),
            final(self).keys_spec() == old(self).keys_spec(),
            delivered == (old(self).registry_view().contains_key(id) && old(
                self,
            ).registry_view()[id].state is Pending),
            delivered ==> final(self).registry_view() == old(self).registry_view().insert(
                id,
                RegistryEntry {
                    kind: old(self).registry_view()[id].kind,
                    state: SlotState::Ready(outcome),
                },
            ),
            !delivered ==> final(self).registry_view() == old(self).registry_view(),
    {
        let delivered = self.registry.fulfill(id, outcome);
        self.gate.release();
        delivered
    }

    /// Abandons an admitted task that cannot deliver an outcome: marks its
    /// slot closed, so retrieval reports the closed channel, and releases
    /// the permit.
    pub fn abandon_task(&mut self, id: u64) -> (closed: bool)
        requires
            old(self).wf(),
            old(self).in_flight_spec() > 0,
        ensures
            final(self).wf(),
            final(self).capacity_spec() == old(self).capacity_spec(),
            final(self).in_flight_spec() == old(self).in_flight_spec() - 1,
            final(self).policies_spec() == old(self).policies_spec(),
            final(self).keys_spec() == old(self).keys_spec(),
            closed == (old(self).registry_view().contains_key(id) && old(
                self,
            ).registry_view()[id].state is Pending),
            closed ==> final(self).registry_view() == old(self).registry_view().insert(
                id,
                RegistryEntry {
                    kind: old(self).registry_view()[id].kind,
                    state: SlotState::Closed,
                },
            ),
            !closed ==> final(self).registry_view() == old(self).registry_view(),
    {
        let closed = self.registry.close(id);
        self.gate.release();
        closed
    }

    /// The whole task body for a synchronous executable: acquire one
    /// permit, invoke the executable with an independent copy of the
    /// policies, release the permit unconditionally, and deliver the
    /// outcome into the slot. Returns whether the task was admitted; a
    /// task that was not admitted must be run again later.
    pub fn run_task<Req: OrchRequest>(&mut self, request_id: RequestID, request: &Req) -> (admitted:
        bool)
        requires
            old(self).wf(),
        ensures
            final(self).wf(),
            final(self).capacity_spec() == old(self).capacity_spec(),
            final(self).in_flight_spec() == old(self).in_flight_spec(),
            final(self).policies_spec() == old(self).policies_spec(),
            final(self).keys_spec() == old(self).keys_spec(),
            admitted <==> old(self).in_flight_spec() < old(self).capacity_spec(),
            !admitted ==> final(self).registry_view() == old(self).registry_view(),
            admitted && !(old(self).registry_view().contains_key(request_id.id) && old(
                self,
            ).registry_view()[request_id.id].state is Pending) ==> final(self).registry_view() == old(
                self,
            ).registry_view(),
            admitted && old(self).registry_view().contains_key(request_id.id) && old(
                self,
            ).registry_view()[request_id.id].state is Pending ==> {
                &&& final(self).registry_view()[request_id.id].kind == old(
                    self,
                ).registry_view()[request_id.id].kind
                &&& final(self).registry_view()[request_id.id].state matches SlotState::Ready(out) && (
                out matches Ok(v) ==> v.kind_spec() == <Req::Res as ResponseType>::kind_spec())
                &&& final(self).registry_view() == old(self).registry_view().insert(
                    request_id.id,
                    final(self).registry_view()[request_id.id],
                )
            },
    {
        if !self.gate.try_acquire() {
            return false;
        }
        let policies = self.task_policies();
        let result = request.send(policies, &self.keys, request_id.id);
        let outcome = match result {
            Ok(response) => Ok(response.erase()),
            Err(e) => Err(e),
        };
        let _delivered = self.registry.fulfill(request_id.id, outcome);
        self.gate.release();
        true
    }

    /// Retrieves the response for a request identifier, consuming the
    /// entry exactly when an outcome is delivered. An unknown or
    /// already-consumed identifier yields `NotFound`; a kind tag other
    /// than the one recorded at submission yields `TypeMismatch` and
    /// leaves the entry in place; a task that terminated without
    /// delivering yields `ChannelClosed`. A still-pending entry is
    /// reported as not ready and left untouched, so the caller can wait
    /// for the task and ask again.
    pub fn get_response(&mut self, request_id: RequestID) -> (r: Retrieval)
        requires
            old(self).wf(),
        ensures
            final(self).wf(),
            final(self).capacity_spec() == old(self).capacity_spec(),
            final(self).in_flight_spec() == old(self).in_flight_spec(),
            final(self).policies_spec() == old(self).policies_spec(),
            final(self).keys_spec() == old(self).keys_spec(),
            r == retrieval_outcome(old(self).registry_view(), request_id),
            final(self).registry_view() == map_after_retrieval(old(self).registry_view(), request_id),
    {
        self.registry.take(request_id)
    }
}

} // verus!
