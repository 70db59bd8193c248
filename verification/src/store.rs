//! The store of the worker's process handle.

use vstd::prelude::*;

verus! {

/// The single source of truth for "is a worker running": an optional owned
/// handle of the worker process. The handle type `H` is whatever the host's
/// process facility hands out; the store only keeps, replaces and gives it
/// back. At most one handle is held at any time. Only a stop empties the
/// store: a worker that exits on its own leaves its handle behind.
pub struct SidecarState<H> {
    pub child_process: Option<H>,
}

impl<H> SidecarState<H> {
    /// Whether a handle is stored.
    pub open spec fn running(&self) -> bool {
        self.child_process is Some
    }

    /// An empty store: no worker is running.
    pub fn new() -> (state: Self)
        ensures
            state.child_process == None::<H>,
    {
        SidecarState { child_process: None }
    }

    /// Inspects the store without changing it.
    pub fn is_running(&self) -> (running: bool)
        ensures
            running == self.running(),
    {
        self.child_process.is_some()
    }

    /// Puts `handle` into the store and hands back the handle it displaces,
    /// if there was one.
    pub fn replace(&mut self, handle: H) -> (displaced: Option<H>)
        ensures
            final(self).child_process == Some(handle),
            displaced == old(self).child_process,
    {
        let displaced = self.child_process.take();
        self.child_process = Some(handle);
        displaced
    }

    /// Takes the handle out of the store, leaving it empty.
    pub fn take(&mut self) -> (handle: Option<H>)
        ensures
            final(self).child_process == None::<H>,
            handle == old(self).child_process,
    {
        self.child_process.take()
    }
}

impl<H> Default for SidecarState<H> {
    fn default() -> (state: Self)
        ensures
            state.child_process == None::<H>,
    {
        SidecarState { child_process: None }
    }
}

} // verus!
