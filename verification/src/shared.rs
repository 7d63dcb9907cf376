//! The cross-thread face of the parameter store.
//!
//! Two independently scheduled roles touch the tunable parameters: the
//! control channel, sole writer, replaces the whole record on operator
//! action; the render loop copies a snapshot once per frame. A
//! reader-writer lock guards the owned [`ParameterStore`], and is held only
//! for the copy or the overwrite — never across a draw call, which could
//! stall the control channel for a frame. Between one call and the next the
//! other role may have replaced the record, so across threads each snapshot
//! promises a well-formed record; within one lock acquisition the exact
//! read-after-replace contract of [`ParameterStore`] applies.

use vstd::prelude::*;
use vstd::rwlock::{RwLock, RwLockPredicate};
use crate::params::{ParameterStore, Params};

verus! {

/// The lock invariant: the guarded store only ever holds well-formed
/// parameter records.
pub struct WellFormedStore {}

impl RwLockPredicate<ParameterStore> for WellFormedStore {
    open spec fn inv(self, store: ParameterStore) -> bool {
        store.wf()
    }
}

/// The shared parameter store, one per process.
pub struct SharedParameterStore {
    lock: RwLock<ParameterStore, WellFormedStore>,
}

impl SharedParameterStore {
    /// Create the store holding `initial`.
    pub fn new(initial: Params) -> (s: SharedParameterStore)
        requires
            initial.wf(),
    {
        SharedParameterStore {
            lock: RwLock::new(ParameterStore::new(initial), Ghost(WellFormedStore {  })),
        }
    }

    /// Overwrite the held record with `new_params`, as one whole value.
    pub fn replace(&self, new_params: Params)
        requires
            new_params.wf(),
    {
        let (mut store, handle) = self.lock.acquire_write();
        store.replace(new_params);
        handle.release_write(store);
    }

    /// Copy the held record out by value; the lock is released before this
    /// returns, so it is never held across a draw.
    pub fn read_snapshot(&self) -> (p: Params)
        ensures
            p.wf(),
    {
        let handle = self.lock.acquire_read();
        let p = handle.borrow().read_snapshot();
        handle.release_read();
        p
    }
}

} // verus!
