//! The overlapped completion bridge: a single-resolution signal between
//! the thread that observes a kernel completion and the suspended caller
//! that waits for it.
//!
//! The signal fires exactly once per operation, either from the
//! completion-port callback or, when the initiating call failed
//! synchronously, from the issuing site itself. A waiter that registers
//! after the signal has already fired observes immediate readiness, so no
//! wakeup is ever missed.

use vstd::prelude::*;

verus! {

/// One pending overlapped operation: the completion flag, the completion's
/// payload (code and transferred bytes), and whether a waiter is
/// registered.
pub struct Completion {
    pub fired: bool,
    pub waiting: bool,
    pub code: u32,
    pub bytes: u32,
}

/// The state after the signal fires with the given payload, and whether a
/// registered waiter must be woken.
pub open spec fn spec_signal(c: Completion, code: u32, bytes: u32) -> (Completion, bool)
    recommends
        !c.fired,
{
    (Completion { fired: true, waiting: c.waiting, code, bytes }, c.waiting)
}

/// The state after a caller registers to wait, and whether the completion
/// is already available: registering re-checks the flag, so a signal that
/// arrived first is observed immediately.
pub open spec fn spec_register(c: Completion) -> (Completion, bool) {
    if c.fired {
        (c, true)
    } else {
        (Completion { fired: false, waiting: true, code: c.code, bytes: c.bytes }, false)
    }
}

impl Completion {
    /// A fresh pending operation: control block zeroed, signal unset, no
    /// waiter.
    pub fn create() -> (c: Completion)
        ensures
            c == (Completion { fired: false, waiting: false, code: 0u32, bytes: 0u32 }),
    {
        Completion { fired: false, waiting: false, code: 0, bytes: 0 }
    }

    /// Fires the completion signal with the operation's terminal code and
    /// byte count. Called exactly once per operation — from the
    /// completion-port callback, or from the issuing site on a synchronous
    /// failure — and reports whether a registered waiter must be woken.
    pub fn signal(&mut self, code: u32, bytes: u32) -> (wake: bool)
        requires
            !old(self).fired,
        ensures
            (*final(self), wake) == spec_signal(*old(self), code, bytes),
    {
        self.code = code;
        self.bytes = bytes;
        self.fired = true;
        self.waiting
    }

    /// Registers the calling task as the waiter and re-checks the flag in
    /// the same step: returns true when the signal already fired, so the
    /// caller proceeds without suspending; otherwise the caller suspends
    /// and is woken by `signal`.
    pub fn register(&mut self) -> (ready: bool)
        ensures
            (*final(self), ready) == spec_register(*old(self)),
    {
        if self.fired {
            true
        } else {
            self.waiting = true;
            false
        }
    }

    /// The payload of a fired completion.
    pub fn payload(&self) -> (p: (u32, u32))
        requires
            self.fired,
        ensures
            p == (self.code, self.bytes),
    {
        (self.code, self.bytes)
    }
}

/// No missed wakeup, in both orders. If the waiter registers first, it
/// suspends and the later signal reports that it must be woken; if the
/// signal fires first, registering observes immediate readiness. Either
/// way the waiter learns of the completion.
pub proof fn lemma_no_missed_wakeup(c: Completion, code: u32, bytes: u32)
    requires
        !c.fired,
    ensures
        ({
            let (c1, ready) = spec_register(c);
            let (c2, wake) = spec_signal(c1, code, bytes);
            !ready && wake
        }),
        ({
            let (c1, wake) = spec_signal(c, code, bytes);
            let (c2, ready) = spec_register(c1);
            ready && c2 == c1
        }),
{
}

/// The signal resolves at most one registration with one payload: after it
/// fires, every registration observes readiness and the stored payload is
/// the one the signal carried.
pub proof fn lemma_single_resolution(c: Completion, code: u32, bytes: u32)
    requires
        !c.fired,
    ensures
        ({
            let (c1, wake) = spec_signal(c, code, bytes);
            &&& c1.fired
            &&& c1.code == code
            &&& c1.bytes == bytes
            &&& spec_register(c1).0 == c1
            &&& spec_register(c1).1
        }),
{
}

} // verus!
