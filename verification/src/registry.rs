//! The response registry: a map from request identifiers to single-use
//! result slots.
//!
//! An entry is created at submission, filled exactly once by the task that
//! performs the work, and consumed (removed) at most once by retrieval.
//! Each entry records the kind tag of the response it will yield; retrieval
//! checks the caller's expected tag against the recorded one, so a value can
//! never be handed out under the wrong kind. A slot stays in the registry
//! until it is consumed, so a result is never dropped merely because nobody
//! was listening the moment it was produced.

use std::collections::HashMap;

use vstd::prelude::*;

use crate::RequestID;
use crate::erased::ErasedValue;
use crate::errors::OrchError;

verus! {

broadcast use vstd::std_specs::hash::group_hash_axioms;

/// The lifecycle of one registry entry.
#[derive(Debug)]
pub enum SlotState {
    /// The task has not delivered an outcome yet.
    Pending,
    /// The task delivered this outcome; it waits to be consumed.
    Ready(Result<ErasedValue, OrchError>),
    /// The task terminated without delivering an outcome.
    Closed,
}

/// One registered request: the kind tag it was submitted under and the
/// state of its result slot.
#[derive(Debug)]
pub struct RegistryEntry {
    pub kind: u64,
    pub state: SlotState,
}

/// What one retrieval attempt yielded.
#[derive(Debug)]
pub enum Retrieval {
    /// The entry exists but its task has not delivered yet; ask again once
    /// it has.
    NotReady,
    /// The retrieval finished: the task's own outcome, or the registry's
    /// error for an unknown, mismatched, or abandoned entry.
    Done(Result<ErasedValue, OrchError>),
}

/// What retrieving `request_id` from a registry in state `m` yields:
/// `NotFound` for an unknown or already-consumed identifier, `TypeMismatch`
/// when the expected kind differs from the recorded one, the task's outcome
/// once it is ready, and `ChannelClosed` for a task that died silently.
pub open spec fn retrieval_outcome(m: Map<u64, RegistryEntry>, request_id: RequestID) -> Retrieval {
    if !m.contains_key(request_id.id) {
        Retrieval::Done(Err(OrchError::NotFound))
    } else if m[request_id.id].kind != request_id.kind {
        Retrieval::Done(Err(OrchError::TypeMismatch))
    } else {
        match m[request_id.id].state {
            SlotState::Pending => Retrieval::NotReady,
            SlotState::Ready(outcome) => Retrieval::Done(outcome),
            SlotState::Closed => Retrieval::Done(Err(OrchError::ChannelClosed)),
        }
    }
}

/// The registry state after retrieving `request_id` from state `m`: the
/// entry is consumed exactly when the retrieval delivered a ready or closed
/// slot under the matching kind; every other entry is untouched.
pub open spec fn map_after_retrieval(m: Map<u64, RegistryEntry>, request_id: RequestID) -> Map<
    u64,
    RegistryEntry,
> {
    if m.contains_key(request_id.id) && m[request_id.id].kind == request_id.kind && !(
    m[request_id.id].state is Pending) {
        m.remove(request_id.id)
    } else {
        m
    }
}

/// Exactly-once retrieval: once a retrieval has delivered an outcome from a
/// ready slot, retrieving the same identifier from the resulting registry
/// state finds nothing.
pub proof fn lemma_exactly_once_retrieval(m: Map<u64, RegistryEntry>, request_id: RequestID)
    requires
        m.contains_key(request_id.id),
        m[request_id.id].kind == request_id.kind,
        m[request_id.id].state matches SlotState::Ready(_),
    ensures
        retrieval_outcome(map_after_retrieval(m, request_id), request_id) == Retrieval::Done(
            Err::<ErasedValue, OrchError>(OrchError::NotFound),
        ),
{
}

/// Type-safety at retrieval: asking for an identifier under a kind other
/// than the one recorded at submission yields the mismatch error and never
/// a value, whatever state the slot is in.
pub proof fn lemma_type_safe_retrieval(m: Map<u64, RegistryEntry>, request_id: RequestID)
    requires
        m.contains_key(request_id.id),
        m[request_id.id].kind != request_id.kind,
    ensures
        retrieval_outcome(m, request_id) == Retrieval::Done(
            Err::<ErasedValue, OrchError>(OrchError::TypeMismatch),
        ),
        map_after_retrieval(m, request_id) == m,
{
}

/// The identifier-to-slot map. At most one entry exists per live
/// identifier; an identifier may be reused only after its entry has been
/// consumed.
pub struct Registry {
    entries: HashMap<u64, RegistryEntry>,
}

impl View for Registry {
    type V = Map<u64, RegistryEntry>;

    closed spec fn view(&self) -> Map<u64, RegistryEntry> {
        self.entries@
    }
}

impl Registry {
    /// An empty registry.
    pub fn new() -> (r: Self)
        ensures
            r@ == Map::<u64, RegistryEntry>::empty(),
    {
        Registry { entries: HashMap::new() }
    }

    /// Whether an entry is live for `id`.
    pub fn contains(&self, id: u64) -> (present: bool)
        ensures
            present == self@.contains_key(id),
    {
        self.entries.contains_key(&id)
    }

    /// Registers a pending entry for `id` under the kind tag `kind`.
    /// Succeeds exactly when `id` has no live entry; a collision leaves the
    /// registry unchanged and is reported to the caller.
    pub fn register(&mut self, id: u64, kind: u64) -> (fresh: bool)
        ensures
            fresh == !old(self)@.contains_key(id),
            fresh ==> final(self)@ == old(self)@.insert(
                id,
                RegistryEntry { kind, state: SlotState::Pending },
            ),
            !fresh ==> final(self)@ == old(self)@,
    {
        if self.entries.contains_key(&id) {
            false
        } else {
            self.entries.insert(id, RegistryEntry { kind, state: SlotState::Pending });
            true
        }
    }

    /// Delivers the task's outcome into the slot for `id`. Succeeds exactly
    /// when the entry is live and still pending; the recorded kind tag is
    /// preserved. Delivering to a consumed, absent, or already-filled slot
    /// changes nothing.
    pub fn fulfill(&mut self, id: u64, outcome: Result<ErasedValue, OrchError>) -> (delivered:
        bool)
        ensures
            delivered == (old(self)@.contains_key(id) && old(self)@[id].state is Pending),
            delivered ==> final(self)@ == old(self)@.insert(
                id,
                RegistryEntry { kind: old(self)@[id].kind, state: SlotState::Ready(outcome) },
            ),
            !delivered ==> final(self)@ == old(self)@,
    {
        let kind: u64 = match self.entries.get(&id) {
            Some(entry) => {
                match &entry.state {
                    SlotState::Pending => entry.kind,
                    _ => {
                        return false;
                    },
                }
            },
            None => {
                return false;
            },
        };
        self.entries.insert(id, RegistryEntry { kind, state: SlotState::Ready(outcome) });
        true
    }

    /// Marks the slot for `id` as abandoned: its task terminated without
    /// delivering an outcome. Succeeds exactly when the entry is live and
    /// still pending.
    pub fn close(&mut self, id: u64) -> (closed: bool)
        ensures
            closed == (old(self)@.contains_key(id) && old(self)@[id].state is Pending),
            closed ==> final(self)@ == old(self)@.insert(
                id,
                RegistryEntry { kind: old(self)@[id].kind, state: SlotState::Closed },
            ),
            !closed ==> final(self)@ == old(self)@,
    {
        let kind: u64 = match self.entries.get(&id) {
            Some(entry) => {
                match &entry.state {
                    SlotState::Pending => entry.kind,
                    _ => {
                        return false;
                    },
                }
            },
            None => {
                return false;
            },
        };
        self.entries.insert(id, RegistryEntry { kind, state: SlotState::Closed });
        true
    }

    /// Retrieves the outcome for `request_id`, consuming the entry exactly
    /// when it delivers a ready or closed slot of the matching kind. The
    /// retrieval is governed by [`retrieval_outcome`]; a pending entry is
    /// left in place so the caller can ask again after the task delivers.
    pub fn take(&mut self, request_id: RequestID) -> (r: Retrieval)
        ensures
            r == retrieval_outcome(old(self)@, request_id),
            final(self)@ == map_after_retrieval(old(self)@, request_id),
    {
        let removed = self.entries.remove(&request_id.id);
        match removed {
            None => {
                proof {
                    assert(old(self)@.remove(request_id.id) =~= old(self)@);
                }
                Retrieval::Done(Err(OrchError::NotFound))
            },
            Some(entry) => {
                if entry.kind != request_id.kind {
                    self.entries.insert(request_id.id, entry);
                    proof {
                        assert(old(self)@.remove(request_id.id).insert(
                            request_id.id,
                            old(self)@[request_id.id],
                        ) =~= old(self)@);
                    }
                    Retrieval::Done(Err(OrchError::TypeMismatch))
                } else {
                    match entry.state {
                        SlotState::Pending => {
                            self.entries.insert(
                                request_id.id,
                                RegistryEntry { kind: entry.kind, state: SlotState::Pending },
                            );
                            proof {
                                assert(old(self)@.remove(request_id.id).insert(
                                    request_id.id,
                                    old(self)@[request_id.id],
                                ) =~= old(self)@);
                            }
                            Retrieval::NotReady
                        },
                        SlotState::Ready(outcome) => Retrieval::Done(outcome),
                        SlotState::Closed => Retrieval::Done(Err(OrchError::ChannelClosed)),
                    }
                }
            },
        }
    }
}

} // verus!
