//! The future-polling contract, and two elementary futures that satisfy it.

use vstd::prelude::*;
use crate::context::Context;
use crate::poll::Poll;
use crate::waker::WakeFn;

verus! {

/// What one poll must report, given the future's own model: readiness with
/// the outcome exactly when no pending polls remain, and pending otherwise.
///
/// The future's pending count and outcome are the only arguments. Nothing
/// else enters into what a poll reports — not the waker carried by the
/// context, and not any wake that has fired before or during the attempt,
/// from whatever execution context it came.
pub open spec fn poll_report<T>(pending: nat, outcome: T) -> Poll<T> {
    if pending == 0 {
        Poll::Ready(outcome)
    } else {
        Poll::Pending
    }
}

/// A resumable computation that a driver advances by repeated polling.
///
/// The specification models a future by the number of polls it will still
/// answer with [`Poll::Pending`] before it completes, and by the value it
/// completes with. One poll attempt either reports completion — exactly when
/// no pending polls remain — or consumes one pending poll and leaves the
/// eventual outcome unchanged. A poll never touches anything but the future
/// itself: in particular, waking, through the given context or otherwise,
/// cannot alter what a later poll will report.
pub trait Future: Sized {
    /// The type of the value this computation finishes with.
    type Output;

    /// How many more polls will report [`Poll::Pending`] before this future
    /// is ready. Futures meant for verification override this; the default
    /// describes one that is ready at once.
    open spec fn pending_polls(&self) -> nat {
        0
    }

    /// The value this future will be ready with. Futures meant for
    /// verification override this with their actual outcome.
    open spec fn outcome(&self) -> Self::Output {
        arbitrary()
    }

    /// Attempt to advance the computation, given a notification context.
    ///
    /// The context lets the computation arrange its own re-polling signal:
    /// it may fire the waker or take a handle on it, and the contract of
    /// [`Context`] governs what that does.
    fn poll<W: WakeFn>(&mut self, cx: &mut Context<W>) -> (r: Poll<Self::Output>)
        ensures
            r == poll_report(old(self).pending_polls(), old(self).outcome()),
            old(self).pending_polls() > 0 ==> final(self).pending_polls()
                == old(self).pending_polls() - 1
                && final(self).outcome() == old(self).outcome(),
    ;
}

/// A future that is ready on its very first poll, with a fixed value.
pub struct ReadyFuture<T> {
    value: T,
}

impl<T> ReadyFuture<T> {
    /// The value this future is ready with.
    pub closed spec fn value(&self) -> T {
        self.value
    }

    /// A future immediately ready with `value`.
    pub fn new(value: T) -> (f: ReadyFuture<T>)
        ensures
            f.value() == value,
    {
        ReadyFuture { value }
    }
}

impl<T: Copy> Future for ReadyFuture<T> {
    type Output = T;

    open spec fn pending_polls(&self) -> nat {
        0
    }

    open spec fn outcome(&self) -> T {
        self.value()
    }

    fn poll<W: WakeFn>(&mut self, cx: &mut Context<W>) -> (r: Poll<T>) {
        Poll::Ready(self.value)
    }
}

/// A future that answers a fixed number of polls with [`Poll::Pending`] and
/// is then ready with a fixed value, however often it is polled thereafter.
pub struct CountdownFuture<T> {
    remaining: u64,
    value: T,
}

impl<T> CountdownFuture<T> {
    /// How many pending answers are left before readiness.
    pub closed spec fn remaining(&self) -> u64 {
        self.remaining
    }

    /// The value this future becomes ready with.
    pub closed spec fn value(&self) -> T {
        self.value
    }

    /// A future that reports pending `remaining` times, then ready with
    /// `value`.
    pub fn new(remaining: u64, value: T) -> (f: CountdownFuture<T>)
        ensures
            f.remaining() == remaining,
            f.value() == value,
    {
        CountdownFuture { remaining, value }
    }
}

impl<T: Copy> Future for CountdownFuture<T> {
    type Output = T;

    open spec fn pending_polls(&self) -> nat {
        self.remaining() as nat
    }

    open spec fn outcome(&self) -> T {
        self.value()
    }

    fn poll<W: WakeFn>(&mut self, cx: &mut Context<W>) -> (r: Poll<T>) {
        if self.remaining == 0 {
            Poll::Ready(self.value)
        } else {
            self.remaining = self.remaining - 1;
            Poll::Pending
        }
    }
}

} // verus!
