//! The request channel: a queue handle duplicated from a session (or
//! opened directly by name) and bound to the completion port.
//!
//! Every operation follows one pattern: check the cancellation flag and
//! fail fast if it is set, hand the driver the kernel call to submit,
//! decide from the submission code whether the completion must be fired at
//! the issuing site, and normalize the completion into the one result
//! shape. Closing the channel sets the flag and asks for one
//! operating-system "cancel all I/O" call; operations already in flight
//! still resolve through the completion bridge.

use vstd::prelude::*;

use crate::bridge::Completion;
use crate::bridge::spec_register;
use crate::bridge::spec_signal;
use crate::codes::ERROR_HANDLE_EOF;
use crate::codes::ERROR_OPERATION_ABORTED;
use crate::codes::ERROR_SUCCESS;
use crate::codes::REQUEST_FLAG_HTTP2;
use crate::codes::REQUEST_FLAG_MORE_ENTITY_BODY;
use crate::codes::SEND_FLAG_DISCONNECT;
use crate::codes::SEND_FLAG_MORE_DATA;
use crate::codes::SEND_FLAG_OPAQUE;
use crate::handle::CleanupDecision;
use crate::handle::HandleRef;
use crate::handle::spec_cancel;
use crate::outcome::OpOutcome;
use crate::session::Session;
use crate::session::SetupError;
use crate::session::SetupStep;
use crate::session::Teardown;
use crate::session::spec_session_close;

verus! {

/// A request channel over its own duplicated queue handle. Channels
/// sharing one queue are independent: each has its own handle and its own
/// cancellation flag.
pub struct Request {
    pub handle: HandleRef,
}

/// A header-receive call: read the next queued request's headers (or, with
/// a nonzero id, a specific request's) into a buffer of the given size.
#[derive(Clone, Copy, PartialEq, Eq, Structural, Debug)]
pub struct ReceiveCall {
    pub queue: u64,
    pub id: u64,
    pub size: u32,
}

/// A body-receive call: read the next chunk of a request's entity body
/// into the caller-provided region.
#[derive(Clone, Copy, PartialEq, Eq, Structural, Debug)]
pub struct ReceiveDataCall {
    pub queue: u64,
    pub id: u64,
}

/// A response-send call with its combined flags word.
#[derive(Clone, Copy, PartialEq, Eq, Structural, Debug)]
pub struct SendCall {
    pub queue: u64,
    pub id: u64,
    pub flags: u32,
}

/// A push-promise declaration call.
#[derive(Clone, Copy, PartialEq, Eq, Structural, Debug)]
pub struct PushCall {
    pub queue: u64,
    pub id: u64,
}

/// A request-level cancel call: cancels one pending request by identifier
/// at the queue level, distinct from handle-wide cancellation.
#[derive(Clone, Copy, PartialEq, Eq, Structural, Debug)]
pub struct CancelCall {
    pub queue: u64,
    pub id: u64,
}

/// The raw fields the driver reads out of a fully received header block.
#[derive(Clone, Copy, PartialEq, Eq, Structural, Debug)]
pub struct RequestSummary {
    pub id: u64,
    pub verb: u32,
    pub major: u16,
    pub minor: u16,
    pub flags: u32,
}

/// The protocol fields of a fully received request: verb, version pair,
/// whether entity body follows, and whether the request arrived over
/// HTTP/2.
#[derive(Clone, Copy, PartialEq, Eq, Structural, Debug)]
pub struct RequestInfo {
    pub verb: u32,
    pub major: u16,
    pub minor: u16,
    pub more_body: bool,
    pub http2: bool,
}

/// The caller-visible result of a header receive. A partial block
/// (`more == true`) is unusable: nothing of it may be read except the
/// request id needed for the retry and the required size, so `info` is
/// populated only on a full receive.
#[derive(Clone, Copy, PartialEq, Eq, Structural, Debug)]
pub struct ReceiveResult {
    pub code: u32,
    pub more: bool,
    pub id: u64,
    pub size: u32,
    pub info: Option<RequestInfo>,
}

/// The caller-visible result of a body receive or a send: the numeric
/// code, the bytes transferred, and whether the code is the terminal
/// "end of data" signal.
#[derive(Clone, Copy, PartialEq, Eq, Structural, Debug)]
pub struct TransferResult {
    pub code: u32,
    pub size: u32,
    pub eof: bool,
}

/// The protocol fields read from a raw header block.
pub open spec fn spec_request_info(raw: RequestSummary) -> RequestInfo {
    RequestInfo {
        verb: raw.verb,
        major: raw.major,
        minor: raw.minor,
        more_body: raw.flags & REQUEST_FLAG_MORE_ENTITY_BODY != 0,
        http2: raw.flags & REQUEST_FLAG_HTTP2 != 0,
    }
}

/// The caller-visible result of a header receive, from the normalized
/// completion and the raw block. A failure exposes the code alone; a
/// partial block exposes only the request id and the required size; a
/// full block exposes the protocol fields.
pub open spec fn spec_receive_result(o: OpOutcome, raw: RequestSummary) -> ReceiveResult {
    if o.code != ERROR_SUCCESS {
        ReceiveResult { code: o.code, more: false, id: 0u64, size: 0u32, info: None }
    } else if o.more {
        ReceiveResult { code: ERROR_SUCCESS, more: true, id: raw.id, size: o.size, info: None }
    } else {
        ReceiveResult {
            code: ERROR_SUCCESS,
            more: false,
            id: raw.id,
            size: o.size,
            info: Some(spec_request_info(raw)),
        }
    }
}

/// The combined flags word of a send: the three flags are independent bits.
pub open spec fn spec_send_flags(opaque: bool, more: bool, disconnect: bool) -> u32 {
    ((if opaque {
        SEND_FLAG_OPAQUE
    } else {
        0u32
    }) + (if more {
        SEND_FLAG_MORE_DATA
    } else {
        0u32
    }) + (if disconnect {
        SEND_FLAG_DISCONNECT
    } else {
        0u32
    })) as u32
}

/// Combines the three independent send flags into the kernel's flags word.
pub fn send_flags_word(opaque: bool, more: bool, disconnect: bool) -> (w: u32)
    ensures
        w == spec_send_flags(opaque, more, disconnect),
{
    let mut w: u32 = 0;
    if opaque {
        w = w + SEND_FLAG_OPAQUE;
    }
    if more {
        w = w + SEND_FLAG_MORE_DATA;
    }
    if disconnect {
        w = w + SEND_FLAG_DISCONNECT;
    }
    w
}

/// The result every operation rejected after close resolves to: cancelled,
/// nothing transferred.
pub fn aborted_outcome() -> (o: OpOutcome)
    ensures
        o == (OpOutcome { code: ERROR_OPERATION_ABORTED, more: false, size: 0u32 }),
        o.wf(),
{
    OpOutcome { code: ERROR_OPERATION_ABORTED, more: false, size: 0 }
}

/// How a channel comes out of its setup calls.
pub enum ChannelSetup {
    Ready(Request),
    Failed { error: SetupError, rollback: Vec<Teardown> },
}

impl Request {
    /// Wraps a freshly duplicated (or freshly opened) queue handle that was
    /// bound to the completion port.
    pub fn new(queue: u64) -> (r: Request)
        ensures
            r.handle == (HandleRef { handle: queue, shares: 1, cancel_requested: false }),
    {
        Request { handle: HandleRef::new(queue) }
    }

    /// A new operation may be issued only while the channel is live and no
    /// cancellation was requested.
    pub open spec fn can_submit(self) -> bool {
        self.handle.shares >= 1 && !self.handle.cancel_requested
    }

    fn guard(&self) -> (go: bool)
        ensures
            go == self.can_submit(),
    {
        self.handle.shares >= 1 && !self.handle.cancel_requested
    }

    /// Plans a header receive. After close the operation fails fast with a
    /// cancelled outcome instead of reaching the kernel.
    pub fn receive(&self, id: u64, size: u32) -> (r: Option<(ReceiveExchange, ReceiveCall)>)
        ensures
            r is Some <==> self.can_submit(),
            r matches Some((exchange, call)) ==> !exchange.retried && call == (ReceiveCall {
                queue: self.handle.handle,
                id,
                size,
            }),
    {
        if self.guard() {
            Some(
                (
                    ReceiveExchange { retried: false },
                    ReceiveCall { queue: self.handle.handle, id, size },
                ),
            )
        } else {
            None
        }
    }

    /// Plans a body receive into a caller-provided region.
    pub fn receive_data(&self, id: u64) -> (r: Option<ReceiveDataCall>)
        ensures
            r is Some <==> self.can_submit(),
            r matches Some(call) ==> call == (ReceiveDataCall { queue: self.handle.handle, id }),
    {
        if self.guard() {
            Some(ReceiveDataCall { queue: self.handle.handle, id })
        } else {
            None
        }
    }

    /// Plans a response send. The flags independently control whether more
    /// body data follows, whether the connection is marked opaque for a
    /// protocol upgrade, and whether it is dropped after sending.
    pub fn send(&self, id: u64, opaque: bool, more: bool, disconnect: bool) -> (r: Option<
        SendCall,
    >)
        ensures
            r is Some <==> self.can_submit(),
            r matches Some(call) ==> call == (SendCall {
                queue: self.handle.handle,
                id,
                flags: spec_send_flags(opaque, more, disconnect),
            }),
    {
        if self.guard() {
            Some(
                SendCall {
                    queue: self.handle.handle,
                    id,
                    flags: send_flags_word(opaque, more, disconnect),
                },
            )
        } else {
            None
        }
    }

    /// Plans a send of further entity-body chunks and trailers after an
    /// initial send; the flags are the same as for `send`.
    pub fn send_data(&self, id: u64, opaque: bool, more: bool, disconnect: bool) -> (r: Option<
        SendCall,
    >)
        ensures
            r is Some <==> self.can_submit(),
            r matches Some(call) ==> call == (SendCall {
                queue: self.handle.handle,
                id,
                flags: spec_send_flags(opaque, more, disconnect),
            }),
    {
        self.send(id, opaque, more, disconnect)
    }

    /// Plans a push-promise declaration for an existing request; the kernel
    /// refuses it when the connection does not support push, and that
    /// error is surfaced unchanged by `crate::session::settle`.
    pub fn push(&self, id: u64) -> (r: Option<PushCall>)
        ensures
            r is Some <==> self.can_submit(),
            r matches Some(call) ==> call == (PushCall { queue: self.handle.handle, id }),
    {
        if self.guard() {
            Some(PushCall { queue: self.handle.handle, id })
        } else {
            None
        }
    }

    /// Plans a queue-level cancel of one pending request by identifier.
    pub fn cancel(&self, id: u64) -> (r: Option<CancelCall>)
        ensures
            r is Some <==> self.can_submit(),
            r matches Some(call) ==> call == (CancelCall { queue: self.handle.handle, id }),
    {
        if self.guard() {
            Some(CancelCall { queue: self.handle.handle, id })
        } else {
            None
        }
    }

    /// The bookkeeping right after a submission: fire the completion at
    /// the issuing site on a synchronous failure, and honor a cancel
    /// request that arrived meanwhile.
    pub fn cleanup(&self, submit_code: u32) -> (d: CleanupDecision)
        ensures
            d == self.handle.cleanup_decision(submit_code),
    {
        self.handle.cleanup(submit_code)
    }

    /// Closes the channel: sets the cancellation flag, and asks for the
    /// operating-system "cancel all I/O" call exactly once. Operations
    /// already suspended in the bridge observe a cancellation-flavored
    /// completion on their next wake; new operations fail fast.
    pub fn close(&mut self) -> (issue_cancel: bool)
        ensures
            (final(self).handle, issue_cancel) == spec_cancel(old(self).handle),
            !final(self).can_submit(),
    {
        self.handle.cancel()
    }

    /// Takes one share for an operation about to be submitted, so the
    /// handle outlives the operation.
    pub fn retain(&mut self)
        requires
            old(self).handle.shares >= 1,
            old(self).handle.shares < u64::MAX,
        ensures
            final(self).handle == (HandleRef {
                handle: old(self).handle.handle,
                shares: (old(self).handle.shares + 1) as u64,
                cancel_requested: old(self).handle.cancel_requested,
            }),
    {
        self.handle.retain()
    }

    /// Releases one share; true means the raw handle must now be closed —
    /// exactly once, after the last in-flight operation let go.
    pub fn release(&mut self) -> (close_now: bool)
        requires
            old(self).handle.shares >= 1,
        ensures
            (final(self).handle, close_now) == crate::handle::spec_release(old(self).handle),
    {
        self.handle.release()
    }
}

impl Request {
    /// Settles the setup calls of a channel opened directly by queue name:
    /// initialize, open the existing queue, bind it to the completion port.
    /// A failed bind closes the queue handle that was just opened.
    pub fn create(
        init_code: u32,
        create_code: u32,
        bind_ok: bool,
        bind_err: u32,
        queue: u64,
    ) -> (r: ChannelSetup)
        ensures
            init_code != ERROR_SUCCESS ==> (r matches ChannelSetup::Failed { error, rollback }
                && error == (SetupError { step: SetupStep::Initialize, code: init_code }) && rollback@
                == Seq::<Teardown>::empty()),
            init_code == ERROR_SUCCESS && create_code != ERROR_SUCCESS ==> (r matches
                ChannelSetup::Failed { error, rollback } && error == (SetupError {
                step: SetupStep::CreateQueue,
                code: create_code,
            }) && rollback@ == Seq::<Teardown>::empty()),
            init_code == ERROR_SUCCESS && create_code == ERROR_SUCCESS && !bind_ok ==> (r matches
                ChannelSetup::Failed { error, rollback } && error == (SetupError {
                step: SetupStep::BindIo,
                code: bind_err,
            }) && rollback@ == seq![Teardown::CloseHandle { handle: queue }]),
            init_code == ERROR_SUCCESS && create_code == ERROR_SUCCESS && bind_ok ==> (r matches
                ChannelSetup::Ready(c) && c.handle == (HandleRef {
                handle: queue,
                shares: 1,
                cancel_requested: false,
            })),
    {
        if init_code != ERROR_SUCCESS {
            ChannelSetup::Failed {
                error: SetupError { step: SetupStep::Initialize, code: init_code },
                rollback: Vec::new(),
            }
        } else if create_code != ERROR_SUCCESS {
            ChannelSetup::Failed {
                error: SetupError { step: SetupStep::CreateQueue, code: create_code },
                rollback: Vec::new(),
            }
        } else if !bind_ok {
            let mut rollback: Vec<Teardown> = Vec::new();
            rollback.push(Teardown::CloseHandle { handle: queue });
            ChannelSetup::Failed {
                error: SetupError { step: SetupStep::BindIo, code: bind_err },
                rollback,
            }
        } else {
            ChannelSetup::Ready(Request::new(queue))
        }
    }
}

/// Settles the setup calls of a channel derived from a session: duplicate
/// the queue handle, bind the duplicate to the completion port. A failed
/// bind closes the handle the duplication just produced: a setup error
/// leaves no partially created resource behind.
pub fn request_settle(dup_ok: bool, dup_err: u32, bind_ok: bool, bind_err: u32, queue: u64) -> (r:
    ChannelSetup)
    ensures
        !dup_ok ==> (r matches ChannelSetup::Failed { error, rollback } && error == (SetupError {
            step: SetupStep::DuplicateHandle,
            code: dup_err,
        }) && rollback@ == Seq::<Teardown>::empty()),
        dup_ok && !bind_ok ==> (r matches ChannelSetup::Failed { error, rollback } && error
            == (SetupError { step: SetupStep::BindIo, code: bind_err }) && rollback@
            == seq![Teardown::CloseHandle { handle: queue }]),
        dup_ok && bind_ok ==> (r matches ChannelSetup::Ready(c) && c.handle == (HandleRef {
            handle: queue,
            shares: 1,
            cancel_requested: false,
        })),
{
    if !dup_ok {
        ChannelSetup::Failed {
            error: SetupError { step: SetupStep::DuplicateHandle, code: dup_err },
            rollback: Vec::new(),
        }
    } else if !bind_ok {
        let mut rollback: Vec<Teardown> = Vec::new();
        rollback.push(Teardown::CloseHandle { handle: queue });
        ChannelSetup::Failed {
            error: SetupError { step: SetupStep::BindIo, code: bind_err },
            rollback,
        }
    } else {
        ChannelSetup::Ready(Request::new(queue))
    }
}

/// A header receive in progress: whether the one permitted larger-buffer
/// retry has already been issued.
#[derive(Clone, Copy, PartialEq, Eq, Structural, Debug)]
pub struct ReceiveExchange {
    pub retried: bool,
}

/// The next move of a header receive: retry once with the kernel-reported
/// size, or settle.
#[derive(Clone, Copy, PartialEq, Eq, Structural, Debug)]
pub enum ReceiveStep {
    Retry { exchange: ReceiveExchange, call: ReceiveCall },
    Done { result: ReceiveResult },
}

/// The two-phase rule. A completion that asks for more room on the first
/// phase yields exactly one retry, addressed to the request id the partial
/// block reported and sized to the kernel-reported requirement; any other
/// completion settles into the caller-visible result.
pub open spec fn spec_receive_next(
    exchange: ReceiveExchange,
    o: OpOutcome,
    raw: RequestSummary,
    queue: u64,
) -> ReceiveStep {
    if o.more && !exchange.retried {
        ReceiveStep::Retry {
            exchange: ReceiveExchange { retried: true },
            call: ReceiveCall { queue, id: raw.id, size: o.size },
        }
    } else {
        ReceiveStep::Done { result: spec_receive_result(o, raw) }
    }
}

impl Request {
    /// Advances a header receive by one completion, exactly as
    /// `spec_receive_next` describes. The partial block behind a
    /// `more == true` completion is never exposed: only its request id and
    /// the required size are read, to address the single retry.
    pub fn receive_next(&self, exchange: ReceiveExchange, o: &OpOutcome, raw: &RequestSummary) -> (r:
        ReceiveStep)
        requires
            o.wf(),
        ensures
            r == spec_receive_next(exchange, *o, *raw, self.handle.handle),
    {
        if o.more && !exchange.retried {
            ReceiveStep::Retry {
                exchange: ReceiveExchange { retried: true },
                call: ReceiveCall { queue: self.handle.handle, id: raw.id, size: o.size },
            }
        } else {
            ReceiveStep::Done { result: receive_result(o, raw) }
        }
    }
}

/// Projects a normalized completion and the raw block into the
/// caller-visible receive result, exactly as `spec_receive_result`
/// describes.
pub fn receive_result(o: &OpOutcome, raw: &RequestSummary) -> (r: ReceiveResult)
    requires
        o.wf(),
    ensures
        r == spec_receive_result(*o, *raw),
{
    if o.code != ERROR_SUCCESS {
        ReceiveResult { code: o.code, more: false, id: 0, size: 0, info: None }
    } else if o.more {
        ReceiveResult { code: ERROR_SUCCESS, more: true, id: raw.id, size: o.size, info: None }
    } else {
        ReceiveResult {
            code: ERROR_SUCCESS,
            more: false,
            id: raw.id,
            size: o.size,
            info: Some(
                RequestInfo {
                    verb: raw.verb,
                    major: raw.major,
                    minor: raw.minor,
                    more_body: raw.flags & REQUEST_FLAG_MORE_ENTITY_BODY != 0,
                    http2: raw.flags & REQUEST_FLAG_HTTP2 != 0,
                },
            ),
        }
    }
}

/// The caller-visible result of a body receive or a send.
pub open spec fn spec_transfer_result(o: OpOutcome) -> TransferResult {
    TransferResult { code: o.code, size: o.size, eof: o.code == ERROR_HANDLE_EOF }
}

/// Projects a normalized completion into the body-read and send result
/// shape: code and size pass through, and the terminal "end of data" code
/// is surfaced as a flag, a normal completion rather than a fault.
pub fn transfer_result(o: &OpOutcome) -> (r: TransferResult)
    ensures
        r == spec_transfer_result(*o),
{
    TransferResult { code: o.code, size: o.size, eof: o.code == ERROR_HANDLE_EOF }
}

/// Two-phase receive, end to end: a first completion that reports a header
/// block of `needed` bytes, larger than the hint, yields one retry carrying
/// the partial block's request id and a buffer requirement of exactly
/// `needed`; the completion of that retry settles, and when it succeeds
/// without a further size report the result is the full block — populated
/// protocol fields, `more == false`.
pub proof fn lemma_two_phase_receive(
    queue: u64,
    needed: u32,
    raw1: RequestSummary,
    o2: OpOutcome,
    raw2: RequestSummary,
)
    requires
        o2.wf(),
    ensures
        ({
            let o1 = OpOutcome { code: ERROR_SUCCESS, more: true, size: needed };
            let step1 = spec_receive_next(ReceiveExchange { retried: false }, o1, raw1, queue);
            &&& step1 matches ReceiveStep::Retry { exchange, call } && exchange.retried && call
                == (ReceiveCall { queue, id: raw1.id, size: needed })
        }),
        ({
            let step2 = spec_receive_next(ReceiveExchange { retried: true }, o2, raw2, queue);
            &&& step2 matches ReceiveStep::Done { result } && result == spec_receive_result(
                o2,
                raw2,
            )
            &&& o2.code == ERROR_SUCCESS && !o2.more ==> (step2->result.more == false
                && step2->result.info == Some(spec_request_info(raw2)) && step2->result.id
                == raw2.id)
        }),
{
}

/// A partial header block is never exposed: whenever the completion asks
/// for more room, the settled result carries no protocol fields — only the
/// request id for the retry and the required size.
pub proof fn lemma_partial_block_unusable(o: OpOutcome, raw: RequestSummary)
    requires
        o.wf(),
        o.more,
    ensures
        spec_receive_result(o, raw).info is None,
        spec_receive_result(o, raw).size == o.size,
        spec_receive_result(o, raw).id == raw.id,
{
}

/// The library-side half of cancellation liveness. After close, no new
/// operation reaches the kernel — each is rejected at once with a
/// cancelled outcome — and the close leaves every in-flight operation's
/// completion untouched, so a waiter that registered before its signal is
/// woken by it, and one that registers after it observes readiness
/// immediately. Every suspended caller therefore resolves once the kernel
/// delivers its completion, natural or cancelled; close itself requests
/// those deliveries with the "cancel all I/O" call it issues.
/// Derived channels outlive their session. A channel holds its own
/// duplicated handle — distinct from the session's queue handle — so the
/// session's teardown never names it, and the channel remains operable
/// until its own close; channels sharing one queue close independently,
/// each through its own cancellation flag.
pub proof fn lemma_channels_survive_session_close(s: Session, r: Request, other: Request)
    requires
        r.can_submit(),
        r.handle.handle != s.queue,
    ensures
        ({
            let (s1, td) = spec_session_close(s);
            forall|i: int|
                0 <= i < td.len() ==> (#[trigger] td[i]) != (Teardown::CloseHandle {
                    handle: r.handle.handle,
                })
        }),
        !(Request { handle: spec_cancel(other.handle).0 }).can_submit(),
        r.can_submit(),
{
}

pub proof fn lemma_close_resolves_all(r: Request, c: Completion, code: u32, bytes: u32)
    requires
        !c.fired,
    ensures
        !(Request { handle: spec_cancel(r.handle).0 }).can_submit(),
        ({
            let (c1, ready) = spec_register(c);
            !ready ==> spec_signal(c1, code, bytes).1
        }),
        ({
            let (c1, wake) = spec_signal(c, code, bytes);
            spec_register(c1).1
        }),
{
}

} // verus!
