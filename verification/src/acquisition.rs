//! The producer side of the display: the shared state slot that bridges the
//! acquisition thread and the renderer, and the acquisition loop's decision
//! logic.
//!
//! Exactly two threads ever touch the slot: the acquisition loop writes each
//! freshly acquired state, the renderer reads the latest one. Both hold the
//! slot's verified lock only for the one copy, never across a blocking call,
//! so neither side can observe a partially written state. The loop checks
//! the one-shot shutdown signal once per iteration, before blocking on its
//! source, and exits at the first observation of it.

use vstd::prelude::*;
use vstd::rwlock::{RwLock, RwLockPredicate};

use crate::controller_state::ControllerState;

verus! {

/// The slot's lock invariant: every controller state is a legal occupant.
pub struct SlotInv;

impl RwLockPredicate<ControllerState> for SlotInv {
    open spec fn inv(self, v: ControllerState) -> bool {
        true
    }
}

/// The single mutually-exclusive cell holding the latest controller state.
///
/// Ownership of the contained value transfers by copy on each read and each
/// write, under vstd's verified reader-writer lock: a write replaces the
/// whole value, a read copies the whole value, and the lock's mutual
/// exclusion rules out observing a torn mixture of two writes.
pub struct SharedSlot {
    lock: RwLock<ControllerState, SlotInv>,
}

impl SharedSlot {
    /// Creates the slot with its startup occupant, normally the neutral
    /// state.
    pub fn new(initial: ControllerState) -> SharedSlot {
        SharedSlot { lock: RwLock::new(initial, Ghost(SlotInv)) }
    }

    /// The writer's copy-in: replaces the slot's whole contents with the
    /// newly acquired state (a full overwrite, never a merge). The lock is
    /// held only for the exchange.
    pub fn set(&self, state: ControllerState) {
        let (_stale, write_handle) = self.lock.acquire_write();
        write_handle.release_write(state);
    }

    /// The reader's copy-out: the most recently completed write, whole. The
    /// lock is held only for the copy.
    pub fn get(&self) -> ControllerState {
        let read_handle = self.lock.acquire_read();
        let state = *read_handle.borrow();
        read_handle.release_read();
        state
    }
}

/// What one iteration of the acquisition loop does next.
#[derive(Clone, Copy, Debug, PartialEq, Eq)]
pub enum LoopStep {
    /// The shutdown signal has fired: exit without touching the source again.
    Stop,
    /// Poll the source for the next state and publish it into the slot.
    Publish,
}

/// The decision an iteration takes from its shutdown observation.
pub open spec fn step_decision(shutdown_fired: bool) -> LoopStep {
    if shutdown_fired {
        LoopStep::Stop
    } else {
        LoopStep::Publish
    }
}

/// Decides one iteration of the acquisition loop. The check comes before
/// blocking on the source, so the loop stops at its next poll boundary: a
/// signal that fires during an in-flight poll is seen right after it.
pub fn acquisition_step(shutdown_fired: bool) -> (r: LoopStep)
    ensures
        r == step_decision(shutdown_fired),
        r is Stop <==> shutdown_fired,
{
    if shutdown_fired {
        LoopStep::Stop
    } else {
        LoopStep::Publish
    }
}

/// How many times the loop polls its source, given the shutdown
/// observations of its successive iterations: it polls once per iteration
/// decided `Publish` and stops at the first `Stop`.
pub open spec fn polls_made(observations: Seq<bool>) -> nat
    decreases observations.len(),
{
    if observations.len() == 0 {
        0
    } else if step_decision(observations[0]) is Stop {
        0
    } else {
        1 + polls_made(observations.skip(1))
    }
}

/// Law (shutdown latency): once the shutdown signal is up from the `k`-th
/// observation on, the loop makes at most `k` polls in total — so after the
/// signal fires mid-poll, at most that one in-flight poll completes before
/// the loop exits.
pub proof fn lemma_shutdown_latency(observations: Seq<bool>, k: int)
    requires
        0 <= k < observations.len(),
        forall|i: int| k <= i < observations.len() ==> observations[i],
    ensures
        polls_made(observations) <= k,
    decreases k,
{
    if observations.len() > 0 && !observations[0] {
        lemma_shutdown_latency(observations.skip(1), k - 1);
    }
}

} // verus!
