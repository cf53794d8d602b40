//! A direct executor: runs a single future to completion on the current
//! thread by polling it in a loop, with no task queue, no scheduler and no
//! heap allocation.
//!
//! The caller supplies the future, a wait operation invoked between
//! unsuccessful polls, and optionally a wake callback that outside events can
//! fire to ask for another poll.

pub mod context;
pub mod future;
pub mod poll;
pub mod wait;
pub mod waker;

use vstd::prelude::*;
use crate::context::Context;
use crate::future::Future;
use crate::poll::Poll;
use crate::wait::{SpinWait, WaitFn};
use crate::waker::{NoopWake, WakeFn, Waker};

verus! {

/// Runs the provided future by spin-looping until polling succeeds.
///
/// Equivalent to [`run`] with a wait operation that is a bare CPU
/// relaxation hint. The waker handed to every poll is the no-op waker.
pub fn run_spinning<F: Future>(future: F) -> (r: F::Output)
    ensures
        r == future.outcome(),
{
    let mut wait = SpinWait::new();
    run(future, &mut wait)
}

/// Runs the provided future until polling succeeds, invoking `wait` exactly
/// once between each unsuccessful poll and the next attempt.
///
/// The waker handed to every poll is the no-op waker: this entry point is
/// for callers that rely on the polling cadence alone, with `wait` a delay,
/// a blocking sleep, or a wait for the interrupt that is known to drive the
/// future forward.
pub fn run<F: Future, Wt: WaitFn>(future: F, wait: &mut Wt) -> (r: F::Output)
    ensures
        r == future.outcome(),
        final(wait).waited() == old(wait).waited() + future.pending_polls(),
{
    run_with_wake(future, wait, NoopWake)
}

/// Runs the provided future until polling succeeds, invoking `wait` exactly
/// once between each unsuccessful poll and the next attempt.
///
/// The waker handed to every poll is fabricated around the `wake` callback:
/// whenever the future (or whatever it delegates its notification to) fires
/// that waker, `wake` is invoked, which lets the caller provide custom
/// "unpark" behaviour releasing the mechanism `wait` blocks on. A callback
/// built around borrowed state must keep that state alive and in place for
/// the whole call, which the borrow it carries guarantees.
pub fn run_with_wake<F: Future, Wt: WaitFn, Wk: WakeFn>(
    future: F,
    wait: &mut Wt,
    wake: Wk,
) -> (r: F::Output)
    ensures
        r == future.outcome(),
        final(wait).waited() == old(wait).waited() + future.pending_polls(),
{
    // The future lives in this one local slot, never moved again, for the
    // whole polling lifetime: the stable location polling requires.
    let mut pinned = future;
    let ghost start = pinned;
    let mut cx = Context::from_waker(Waker::new(wake));
    #[verifier::loop_isolation(false)]
    loop
        invariant
            pinned.outcome() == start.outcome(),
            pinned.pending_polls() + wait.waited() == start.pending_polls() + old(wait).waited(),
        decreases
            pinned.pending_polls(),
    {
        if let Poll::Ready(result) = pinned.poll(&mut cx) {
            return result;
        }
        wait.wait();
    }
}

} // verus!
