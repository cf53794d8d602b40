//! The wait operation a driver performs between unsuccessful polls.

use vstd::prelude::*;

verus! {

/// A zero-argument, repeatable wait operation: block, sleep, spin, or power
/// down until the next poll is worth attempting. The driver invokes it
/// exactly once per unsuccessful poll.
///
/// Each invocation raises [`WaitFn::waited`] by exactly one, so the driver
/// contracts can count invocations precisely. The count is unbounded; an
/// implementation whose run-time state cannot count that far keeps the tally
/// in a [`Ghost`] field, as [`SpinWait`] does.
pub trait WaitFn: Sized {
    /// How many times this operation has been invoked. Every implementation
    /// meant for verification overrides this with its own tally; the
    /// default, being constant, satisfies no invocation contract.
    open spec fn waited(&self) -> nat {
        0
    }

    /// Perform the wait once.
    fn wait(&mut self)
        ensures
            final(self).waited() == old(self).waited() + 1,
    ;
}

/// The busy-wait strategy: each wait is a bare CPU relaxation hint, so the
/// driver simply spins until the future is ready. Its invocation tally is
/// ghost; at run time it is a zero-sized value.
pub struct SpinWait {
    spins: Ghost<nat>,
}

impl SpinWait {
    /// A fresh spin strategy that has not waited yet.
    pub fn new() -> (w: SpinWait)
        ensures
            w.waited() == 0,
    {
        SpinWait { spins: Ghost(0) }
    }
}

impl WaitFn for SpinWait {
    closed spec fn waited(&self) -> nat {
        self.spins@
    }

    fn wait(&mut self) {
        cpu_relax();
        self.spins = Ghost(self.spins@ + 1);
    }
}

/// Relies on core::hint::spin_loop: a CPU pause hint for spin-wait loops,
/// with no observable effect on program state.
#[verifier::external_body]
fn cpu_relax() {
    core::hint::spin_loop()
}

} // verus!
