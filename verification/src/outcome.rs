//! Normalization of a kernel completion into the one result shape every
//! asynchronous operation hands back: an error code where zero means
//! success, a "more data required" flag, and a transferred-byte count.

use vstd::prelude::*;

use crate::codes::ERROR_HANDLE_EOF;
use crate::codes::ERROR_IO_PENDING;
use crate::codes::ERROR_MORE_DATA;
use crate::codes::ERROR_SUCCESS;

verus! {

/// The completion bookkeeping of one asynchronous operation: `code` is the
/// operating system's error code (zero on success), `more` says the buffer
/// was too small and `size` carries the required capacity, otherwise `size`
/// is the number of bytes transferred.
#[derive(Clone, Copy, PartialEq, Eq, Structural, Debug)]
pub struct OpOutcome {
    pub code: u32,
    pub more: bool,
    pub size: u32,
}

impl OpOutcome {
    /// A "buffer too small" signal is not an error: it never carries a code.
    pub open spec fn wf(self) -> bool {
        self.more ==> self.code == ERROR_SUCCESS
    }
}

/// How the kernel reported the end of one operation: either the initiating
/// call itself failed synchronously with a non-pending code, or the
/// completion port delivered the operation and its status was then queried
/// from the control block (`ok` with `bytes` transferred, or a failure
/// `code`).
pub enum Arrival {
    Sync { code: u32 },
    Queried { ok: bool, code: u32, bytes: u32 },
}

impl Arrival {
    /// A synchronous failure only bypasses the completion port when its code
    /// is neither success, nor "more data", nor "pending": for those three
    /// the port still delivers the operation.
    pub open spec fn wf(self) -> bool {
        self matches Arrival::Sync { code }
            ==> code != ERROR_SUCCESS && code != ERROR_MORE_DATA && code != ERROR_IO_PENDING
    }
}

/// Decides whether an initiating call's own return code means the completion
/// must be fired at the issuing site: the port will deliver the operation
/// only for success, "more data" and "pending" codes.
pub fn settle_at_issue(submit_code: u32) -> (fire_now: bool)
    ensures
        fire_now <==> submit_code != ERROR_SUCCESS && submit_code != ERROR_MORE_DATA
            && submit_code != ERROR_IO_PENDING,
{
    submit_code != ERROR_SUCCESS && submit_code != ERROR_MORE_DATA && submit_code != ERROR_IO_PENDING
}

/// The normalized result of `arrival`, as a single specification:
/// a queried success keeps its byte count; a queried "more data" failure
/// becomes `more == true` with no numeric error and the required size in
/// `size`; every other failure surfaces its code with a zero size.
pub open spec fn spec_resolve(arrival: Arrival) -> OpOutcome {
    match arrival {
        Arrival::Sync { code } => OpOutcome { code, more: false, size: 0 },
        Arrival::Queried { ok, code, bytes } => {
            if ok {
                OpOutcome { code: ERROR_SUCCESS, more: false, size: bytes }
            } else if code == ERROR_MORE_DATA {
                OpOutcome { code: ERROR_SUCCESS, more: true, size: bytes }
            } else {
                OpOutcome { code, more: false, size: 0 }
            }
        },
    }
}

/// Normalizes a completion. "More data" is mapped to a `more == true`
/// result with no numeric error; everything else is surfaced as a numeric
/// operating-system code, passed through for diagnostics.
pub fn resolve(arrival: Arrival) -> (r: OpOutcome)
    requires
        arrival.wf(),
    ensures
        r == spec_resolve(arrival),
        r.wf(),
{
    match arrival {
        Arrival::Sync { code } => OpOutcome { code, more: false, size: 0 },
        Arrival::Queried { ok, code, bytes } => {
            if ok {
                OpOutcome { code: ERROR_SUCCESS, more: false, size: bytes }
            } else if code == ERROR_MORE_DATA {
                OpOutcome { code: ERROR_SUCCESS, more: true, size: bytes }
            } else {
                OpOutcome { code, more: false, size: 0 }
            }
        },
    }
}

/// Whether a body-read outcome is the terminal "end of data" signal: a
/// normal completion surfaced as a flag, never as a fault.
pub fn body_eof(outcome: &OpOutcome) -> (eof: bool)
    ensures
        eof <==> outcome.code == ERROR_HANDLE_EOF,
{
    outcome.code == ERROR_HANDLE_EOF
}

} // verus!
