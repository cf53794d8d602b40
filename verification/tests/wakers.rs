//! Behaviour of the fabricated wakers, strategy by strategy.

use direct_executor::context::Context;
use direct_executor::future::{CountdownFuture, Future, ReadyFuture};
use direct_executor::poll::Poll;
use direct_executor::run;
use direct_executor::wait::WaitFn;
use direct_executor::waker::{NoopWake, WakeFn, Waker};
use std::cell::Cell;

/// A wait operation that counts its invocations.
struct CountWait {
    count: usize,
}

impl WaitFn for CountWait {
    fn wait(&mut self) {
        self.count += 1;
    }
}

/// A wake callback that counts its invocations in shared state.
#[derive(Clone, Copy)]
struct CellWake<'a> {
    hits: &'a Cell<usize>,
}

impl<'a> WakeFn for CellWake<'a> {
    fn call(&mut self) {
        self.hits.set(self.hits.get() + 1);
    }
}

#[test]
fn noop_waker_tolerates_any_number_of_wakes() {
    let mut waker = Waker::new(NoopWake);
    waker.wake();
    waker.wake();
    let mut copy = waker.clone_handle();
    copy.wake();
    copy.discard();
    waker.discard();

    // Polling afterwards behaves exactly as if no wake had ever happened.
    let mut wait = CountWait { count: 0 };
    let result = run(CountdownFuture::new(1, 17u16), &mut wait);
    assert_eq!(result, 17);
    assert_eq!(wait.count, 1);
}

#[test]
fn callback_waker_fires_the_supplied_callback_once_per_wake() {
    let hits = Cell::new(0usize);
    let mut waker = Waker::new(CellWake { hits: &hits });
    assert_eq!(hits.get(), 0);
    waker.wake();
    assert_eq!(hits.get(), 1);
    waker.wake();
    waker.wake();
    assert_eq!(hits.get(), 3);
}

#[test]
fn cloned_waker_fires_the_same_callback() {
    let hits = Cell::new(0usize);
    let original = Waker::new(CellWake { hits: &hits });
    let mut first = original.clone_handle();
    first.wake();
    assert_eq!(hits.get(), 1);

    // Discarding the original leaves every surviving clone fully usable.
    original.discard();
    let mut second = first.clone_handle();
    first.wake();
    second.wake();
    assert_eq!(hits.get(), 3);
}

#[test]
fn context_exposes_wake_and_clone_of_its_waker() {
    let hits = Cell::new(0usize);
    let mut cx = Context::from_waker(Waker::new(CellWake { hits: &hits }));
    cx.wake();
    assert_eq!(hits.get(), 1);
    let mut handle = cx.clone_waker();
    handle.wake();
    cx.wake();
    assert_eq!(hits.get(), 3);
}

#[test]
fn ready_future_polls_ready_at_once() {
    let mut cx = Context::from_waker(Waker::new(NoopWake));
    let mut future = ReadyFuture::new(11u32);
    assert_eq!(future.poll(&mut cx), Poll::Ready(11));
    assert_eq!(future.poll(&mut cx), Poll::Ready(11));
}

#[test]
fn countdown_future_polls_pending_then_ready() {
    let mut cx = Context::from_waker(Waker::new(NoopWake));
    let mut future = CountdownFuture::new(2, 42u32);
    assert_eq!(future.poll(&mut cx), Poll::Pending);
    assert_eq!(future.poll(&mut cx), Poll::Pending);
    assert_eq!(future.poll(&mut cx), Poll::Ready(42));
    assert_eq!(future.poll(&mut cx), Poll::Ready(42));
}
