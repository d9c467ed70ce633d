//! Shared, concurrent access to the application state: many concurrent
//! readers, one exclusive writer.
//!
//! The lock's invariant is `AppState::wf`, and every mutation the
//! library performs preserves it, so the exclusive section can always
//! close and a concurrent reader can never observe a torn state: every
//! snapshot it takes carries a complete, valid current network and
//! wallet selection.

use vstd::prelude::*;
use vstd::rwlock::{RwLock, RwLockPredicate};
use crate::rpc::{HandleOutcome, Handler, Request};
use crate::state::AppState;

verus! {

/// The lock invariant: only well-formed states are ever stored.
pub struct StateInv {}

impl RwLockPredicate<AppState> for StateInv {
    open spec fn inv(self, v: AppState) -> bool {
        v.wf()
    }
}

/// The application state behind a reader/writer lock.
pub struct SharedAppState {
    pub lock: RwLock<AppState, StateInv>,
}

impl SharedAppState {
    pub open spec fn wf(&self) -> bool {
        self.lock.pred() == (StateInv {  })
    }

    pub fn new(state: AppState) -> (s: SharedAppState)
        requires
            state.wf(),
        ensures
            s.wf(),
    {
        SharedAppState { lock: RwLock::new(state, Ghost(StateInv {  })) }
    }

    /// A reader's snapshot of the current chain id. The snapshot comes
    /// from a state satisfying the lock invariant — never a torn one —
    /// whatever switches run concurrently.
    pub fn read_current_chain_id(&self) -> (id: u32)
        requires
            self.wf(),
    {
        let handle = self.lock.acquire_read();
        let state = handle.borrow();
        proof {
            assert(state.wf());
        }
        let id = state.networks.current;
        handle.release_read();
        id
    }

    /// Dispatches one request under the exclusive write lock. The
    /// dispatcher's contract restores the invariant, so the lock always
    /// closes well — and the returned task is driven only after the
    /// lock is released, so no registry lock is held across an approval
    /// suspension.
    pub fn dispatch(&self, handler: &Handler, req: Request) -> (out: HandleOutcome)
        requires
            self.wf(),
            handler.wf(),
    {
        let (mut state, write_handle) = self.lock.acquire_write();
        let out = handler.handle(&mut state, req);
        write_handle.release_write(state);
        out
    }
}

} // verus!
