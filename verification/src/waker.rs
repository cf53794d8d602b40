//! Fabrication of wakers: copyable, type-erased-in-spirit notification
//! handles that whatever a future waits on can invoke to ask for another
//! poll.
//!
//! The handle is polymorphic over its notification strategy. The no-op
//! strategy is the unit callback [`NoopWake`], which records nothing and does
//! nothing; a custom strategy is any caller-supplied [`WakeFn`], stateless
//! (a fixed operation) or stateful (a callback built around borrowed state).
//! Nothing is allocated: cloning a waker copies the callback value, so a
//! callback that must share state across clones should hold a borrowed
//! reference to that state and be `Copy`.

use vstd::prelude::*;

verus! {

/// A zero-argument wake callback: the operation a fabricated waker fires
/// each time its wake operation is invoked.
///
/// The specification distinguishes callbacks that observably record their
/// invocations from inert ones. While [`WakeFn::counts`] holds, every call
/// raises [`WakeFn::fired`] by exactly one; once it no longer holds (and for
/// callbacks that never record, such as [`NoopWake`]), a call leaves the
/// callback exactly as it was. Either way a call always returns: a wake
/// callback must tolerate being fired any number of times, including after
/// the computation it belongs to has already finished.
pub trait WakeFn: Sized {
    /// How many invocations this callback has recorded. Counting callbacks
    /// override this; the default describes one that records nothing.
    open spec fn fired(&self) -> nat {
        0
    }

    /// Whether this callback still records further invocations. Counting
    /// callbacks override this; the default describes one that never does.
    open spec fn counts(&self) -> bool {
        false
    }

    /// Fire the callback once.
    fn call(&mut self)
        ensures
            old(self).counts() ==> final(self).fired() == old(self).fired() + 1
                && final(self).counts(),
            !old(self).counts() ==> *final(self) == *old(self),
    ;
}

/// The no-op notification strategy: firing it has no effect of any kind.
///
/// Used by the drivers that rely on polling cadence alone and never on an
/// asynchronous notification.
#[derive(Clone, Copy, Debug)]
pub struct NoopWake;

impl WakeFn for NoopWake {
    open spec fn fired(&self) -> nat {
        0
    }

    open spec fn counts(&self) -> bool {
        false
    }

    fn call(&mut self) {
    }
}

/// A copyable notification handle carrying one wake callback.
///
/// The three operations of the handle are [`Waker::wake`],
/// [`Waker::clone_handle`] and [`Waker::discard`]. A clone is
/// indistinguishable from its source, and discarding one handle releases
/// nothing, so the remaining handles are unaffected: ownership of the
/// notification strategy is shared, not exclusive.
pub struct Waker<W> {
    callback: W,
}

impl<W> Waker<W> {
    /// The callback this handle was built around.
    pub closed spec fn cb(&self) -> W {
        self.callback
    }

    /// Fabricate a waker around the given wake callback.
    pub fn new(callback: W) -> (w: Waker<W>)
        ensures
            w.cb() == callback,
    {
        Waker { callback }
    }

    /// Release this handle. Nothing was allocated for it, so there is
    /// nothing to free, and handles cloned from it remain fully usable.
    pub fn discard(self) {
    }
}

impl<W: WakeFn> Waker<W> {
    /// Invoke the wake operation: fire the underlying callback exactly once.
    ///
    /// A counting callback records exactly one more invocation per call; an
    /// inert callback (the no-op strategy in particular) is left exactly as
    /// it was, so waking any number of times has no observable effect.
    pub fn wake(&mut self)
        ensures
            old(self).cb().counts() ==> final(self).cb().fired() == old(self).cb().fired() + 1
                && final(self).cb().counts(),
            !old(self).cb().counts() ==> final(self).cb() == old(self).cb(),
    {
        self.callback.call();
    }
}

impl<W: Copy> Waker<W> {
    /// Produce an independent handle with identical wake behaviour.
    ///
    /// The clone carries the very callback value of its source, so nothing
    /// distinguishes waking through the clone from waking through the
    /// original.
    pub fn clone_handle(&self) -> (w: Waker<W>)
        ensures
            w == *self,
    {
        Waker { callback: self.callback }
    }
}

} // verus!
