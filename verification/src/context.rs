//! The ephemeral wrapper that exposes the current waker to a poll attempt.

use vstd::prelude::*;
use crate::waker::{WakeFn, Waker};

verus! {

/// Execution context handed to each poll of a future.
///
/// It carries the one waker of the current run and has no identity beyond
/// that: a future may fire the waker through [`Context::wake`] or take its
/// own handle with [`Context::clone_waker`], and nothing else.
pub struct Context<W> {
    waker: Waker<W>,
}

impl<W> Context<W> {
    /// The waker this context exposes.
    pub closed spec fn waker(&self) -> Waker<W> {
        self.waker
    }

    /// Build a context around a waker.
    pub fn from_waker(waker: Waker<W>) -> (cx: Context<W>)
        ensures
            cx.waker() == waker,
    {
        Context { waker }
    }
}

impl<W: WakeFn> Context<W> {
    /// Invoke the wake operation of the carried waker: its callback fires
    /// exactly once.
    pub fn wake(&mut self)
        ensures
            old(self).waker().cb().counts() ==> final(self).waker().cb().fired()
                == old(self).waker().cb().fired() + 1 && final(self).waker().cb().counts(),
            !old(self).waker().cb().counts() ==> final(self).waker().cb()
                == old(self).waker().cb(),
    {
        self.waker.wake();
    }
}

impl<W: Copy> Context<W> {
    /// Hand out an independent handle on the carried waker, behaviourally
    /// indistinguishable from it.
    pub fn clone_waker(&self) -> (w: Waker<W>)
        ensures
            w == self.waker(),
    {
        self.waker.clone_handle()
    }
}

} // verus!
