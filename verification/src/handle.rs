//! The shared reference that owns a raw operating-system handle.
//!
//! Every in-flight operation and the owning channel hold one share each;
//! the handle is closed exactly once, when the last share is released.
//! A per-handle cancel flag records that cancellation was requested: the
//! first request issues the operating-system cancel call, later ones do
//! nothing, and no new operation may be issued afterwards.

use vstd::prelude::*;

use crate::codes::ERROR_IO_PENDING;
use crate::codes::ERROR_MORE_DATA;
use crate::codes::ERROR_SUCCESS;

verus! {

/// Reference-counting bookkeeping of one raw handle. `shares` counts the
/// live owners; the handle is closed when it reaches zero.
pub struct HandleRef {
    pub handle: u64,
    pub shares: u64,
    pub cancel_requested: bool,
}

/// What to do right after submitting an operation: fire its completion at
/// the issuing site when the initiating call failed synchronously, and
/// issue an operating-system cancel when cancellation was requested while
/// the submission was in progress.
#[derive(Clone, Copy, PartialEq, Eq, Structural, Debug)]
pub struct CleanupDecision {
    pub fire_now: bool,
    pub cancel_io: bool,
}

/// The state after a cancel request, and whether this request was the
/// first: only the first issues the operating-system cancel call.
pub open spec fn spec_cancel(h: HandleRef) -> (HandleRef, bool) {
    (
        HandleRef { handle: h.handle, shares: h.shares, cancel_requested: true },
        !h.cancel_requested,
    )
}

/// The state after one share is released, and whether the raw handle must
/// now be closed: exactly when the last share went away.
pub open spec fn spec_release(h: HandleRef) -> (HandleRef, bool)
    recommends
        h.shares >= 1,
{
    (
        HandleRef { handle: h.handle, shares: (h.shares - 1) as u64, cancel_requested: h.cancel_requested },
        h.shares == 1,
    )
}

impl HandleRef {
    /// The handle is live while at least one share exists.
    pub open spec fn live(self) -> bool {
        self.shares >= 1
    }

    /// What `cleanup` decides for a given submission code.
    pub open spec fn cleanup_decision(self, submit_code: u32) -> CleanupDecision {
        CleanupDecision {
            fire_now: submit_code != ERROR_SUCCESS && submit_code != ERROR_MORE_DATA
                && submit_code != ERROR_IO_PENDING,
            cancel_io: self.cancel_requested,
        }
    }

    /// Wraps a freshly produced raw handle into a single-share owner with
    /// no cancellation requested.
    pub fn new(handle: u64) -> (h: HandleRef)
        ensures
            h == (HandleRef { handle, shares: 1, cancel_requested: false }),
    {
        HandleRef { handle, shares: 1, cancel_requested: false }
    }

    /// Adds one share: an operation about to be submitted takes a share so
    /// the handle cannot be closed under it.
    pub fn retain(&mut self)
        requires
            old(self).live(),
            old(self).shares < u64::MAX,
        ensures
            *final(self) == (HandleRef {
                handle: old(self).handle,
                shares: (old(self).shares + 1) as u64,
                cancel_requested: old(self).cancel_requested,
            }),
    {
        self.shares = self.shares + 1;
    }

    /// Releases one share and reports whether the caller must now close the
    /// raw handle: true exactly once, when the count reaches zero.
    pub fn release(&mut self) -> (close_now: bool)
        requires
            old(self).live(),
        ensures
            (*final(self), close_now) == spec_release(*old(self)),
            close_now <==> final(self).shares == 0,
    {
        self.shares = self.shares - 1;
        self.shares == 0
    }

    /// Requests cancellation and reports whether this request was the first:
    /// only the first issues the operating-system "cancel all I/O" call.
    /// The flag is a single atomic swap in effect, so two concurrent
    /// requests serialize and exactly one of them is first.
    pub fn cancel(&mut self) -> (issue_cancel: bool)
        ensures
            (*final(self), issue_cancel) == spec_cancel(*old(self)),
    {
        let first = !self.cancel_requested;
        self.cancel_requested = true;
        first
    }

    /// The bookkeeping right after an operation was submitted: a synchronous
    /// failure (any code other than success, "more data" and "pending")
    /// must be settled at the issuing site because no completion will be
    /// delivered for it; and a cancel request that arrived meanwhile is
    /// honored with a best-effort operating-system cancel.
    pub fn cleanup(&self, submit_code: u32) -> (d: CleanupDecision)
        ensures
            d == self.cleanup_decision(submit_code),
            d.fire_now <==> submit_code != ERROR_SUCCESS && submit_code != ERROR_MORE_DATA
                && submit_code != ERROR_IO_PENDING,
            d.cancel_io <==> self.cancel_requested,
    {
        CleanupDecision {
            fire_now: submit_code != ERROR_SUCCESS && submit_code != ERROR_MORE_DATA
                && submit_code != ERROR_IO_PENDING,
            cancel_io: self.cancel_requested,
        }
    }
}

/// Requesting cancellation twice issues the operating-system cancel call
/// exactly once: the first request is the one that issues it, the second
/// never is.
pub proof fn lemma_cancel_exactly_once(h: HandleRef)
    ensures
        ({
            let (h1, first) = spec_cancel(h);
            let (h2, second) = spec_cancel(h1);
            &&& first <==> !h.cancel_requested
            &&& !second
            &&& h2 == h1
        }),
{
}

/// Releasing every share closes the handle exactly once: the release that
/// reports closure leaves no share behind, so no further release is
/// possible, and no earlier release reported closure.
pub proof fn lemma_release_closes_once(h: HandleRef)
    requires
        h.shares >= 1,
    ensures
        ({
            let (h1, close_now) = spec_release(h);
            &&& close_now <==> h1.shares == 0
            &&& close_now ==> !h1.live()
            &&& !close_now ==> h1.live()
        }),
{
}

} // verus!
