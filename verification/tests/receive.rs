use http_queue::bridge::Completion;
use http_queue::channel::{
    aborted_outcome, receive_result, transfer_result, ReceiveCall, ReceiveStep, Request,
    RequestSummary,
};
use http_queue::codes::{
    ERROR_HANDLE_EOF, ERROR_IO_PENDING, ERROR_MORE_DATA, ERROR_OPERATION_ABORTED, ERROR_SUCCESS,
};
use http_queue::handle::HandleRef;
use http_queue::outcome::{body_eof, resolve, settle_at_issue, Arrival, OpOutcome};

fn summary(id: u64, verb: u32, flags: u32) -> RequestSummary {
    RequestSummary { id, verb, major: 1, minor: 1, flags }
}

#[test]
fn sync_failure_is_surfaced_with_its_code() {
    let o = resolve(Arrival::Sync { code: 1229 });
    assert_eq!(o, OpOutcome { code: 1229, more: false, size: 0 });
}

#[test]
fn queried_success_keeps_byte_count() {
    let o = resolve(Arrival::Queried { ok: true, code: 0, bytes: 812 });
    assert_eq!(o, OpOutcome { code: ERROR_SUCCESS, more: false, size: 812 });
}

#[test]
fn more_data_is_a_signal_not_an_error() {
    let o = resolve(Arrival::Queried { ok: false, code: ERROR_MORE_DATA, bytes: 8192 });
    assert_eq!(o.code, ERROR_SUCCESS);
    assert!(o.more);
    assert_eq!(o.size, 8192);
}

#[test]
fn queried_failure_drops_byte_count() {
    let o = resolve(Arrival::Queried { ok: false, code: 1236, bytes: 55 });
    assert_eq!(o, OpOutcome { code: 1236, more: false, size: 0 });
}

#[test]
fn end_of_data_is_a_flagged_normal_completion() {
    let o = resolve(Arrival::Queried { ok: false, code: ERROR_HANDLE_EOF, bytes: 0 });
    assert!(body_eof(&o));
    let t = transfer_result(&o);
    assert_eq!(t.code, ERROR_HANDLE_EOF);
    assert!(t.eof);
}

#[test]
fn only_terminal_codes_settle_at_the_issuing_site() {
    assert!(!settle_at_issue(ERROR_SUCCESS));
    assert!(!settle_at_issue(ERROR_MORE_DATA));
    assert!(!settle_at_issue(ERROR_IO_PENDING));
    assert!(settle_at_issue(5));
    assert!(settle_at_issue(ERROR_OPERATION_ABORTED));
}

#[test]
fn receive_scenario_full_block_on_first_try() {
    // A controller listens on svc-a; a second participant opens svc-a and
    // asks for the next request with a 4096-byte hint.
    let chan = Request::new(0x33);
    let (exchange, call) = chan.receive(0, 4096).unwrap();
    assert_eq!(call, ReceiveCall { queue: 0x33, id: 0, size: 4096 });
    let o = resolve(Arrival::Queried { ok: true, code: 0, bytes: 900 });
    let raw = summary(5, 4, 0x1);
    match chan.receive_next(exchange, &o, &raw) {
        ReceiveStep::Done { result } => {
            assert_eq!(result.code, 0);
            assert!(!result.more);
            assert_eq!(result.id, 5);
            let info = result.info.unwrap();
            assert_eq!(info.verb, 4);
            assert_eq!((info.major, info.minor), (1, 1));
            assert!(info.more_body);
            assert!(!info.http2);
        }
        _ => panic!("expected a settled result"),
    }
}

#[test]
fn receive_scenario_two_phase_retry() {
    // The header block exceeds the 4096-byte hint: the first completion
    // reports more=true with the required size, the retry carries the same
    // request id and that size, and its completion is the full block.
    let chan = Request::new(0x33);
    let (exchange, call) = chan.receive(0, 4096).unwrap();
    assert_eq!(call.size, 4096);
    let first = resolve(Arrival::Queried { ok: false, code: ERROR_MORE_DATA, bytes: 8192 });
    let raw = summary(5, 0, 0);
    let (exchange, retry) = match chan.receive_next(exchange, &first, &raw) {
        ReceiveStep::Retry { exchange, call } => (exchange, call),
        _ => panic!("expected a retry"),
    };
    assert_eq!(retry, ReceiveCall { queue: 0x33, id: 5, size: 8192 });
    assert!(exchange.retried);
    let second = resolve(Arrival::Queried { ok: true, code: 0, bytes: 8190 });
    let raw = summary(5, 4, 0x4);
    match chan.receive_next(exchange, &second, &raw) {
        ReceiveStep::Done { result } => {
            assert_eq!(result.code, 0);
            assert!(!result.more);
            assert_eq!(result.id, 5);
            assert!(result.info.unwrap().http2);
        }
        _ => panic!("expected a settled result"),
    }
}

#[test]
fn partial_block_exposes_only_id_and_size() {
    let o = resolve(Arrival::Queried { ok: false, code: ERROR_MORE_DATA, bytes: 10000 });
    let r = receive_result(&o, &summary(7, 4, 0x5));
    assert_eq!(r.code, 0);
    assert!(r.more);
    assert_eq!(r.id, 7);
    assert_eq!(r.size, 10000);
    assert!(r.info.is_none());
}

#[test]
fn failed_receive_exposes_only_the_code() {
    let o = resolve(Arrival::Sync { code: 1229 });
    let r = receive_result(&o, &summary(7, 4, 0));
    assert_eq!(r.code, 1229);
    assert!(!r.more);
    assert!(r.info.is_none());
    assert_eq!(r.id, 0);
}

#[test]
fn closed_channel_fails_fast_with_cancelled_outcome() {
    let mut chan = Request::new(0x33);
    assert!(chan.close());
    assert!(chan.receive(0, 4096).is_none());
    assert!(chan.receive_data(5).is_none());
    assert!(chan.send(5, false, false, false).is_none());
    assert!(chan.push(5).is_none());
    assert!(chan.cancel(5).is_none());
    let o = aborted_outcome();
    assert_eq!(o.code, ERROR_OPERATION_ABORTED);
    assert!(!o.more);
}

#[test]
fn channel_close_issues_cancel_exactly_once() {
    let mut chan = Request::new(0x33);
    assert!(chan.close());
    assert!(!chan.close());
    assert!(!chan.close());
}

#[test]
fn cleanup_fires_sync_failures_and_honors_cancel() {
    let mut chan = Request::new(0x33);
    let d = chan.cleanup(ERROR_SUCCESS);
    assert!(!d.fire_now && !d.cancel_io);
    let d = chan.cleanup(ERROR_MORE_DATA);
    assert!(!d.fire_now);
    let d = chan.cleanup(ERROR_IO_PENDING);
    assert!(!d.fire_now);
    let d = chan.cleanup(5);
    assert!(d.fire_now);
    chan.close();
    let d = chan.cleanup(ERROR_SUCCESS);
    assert!(d.cancel_io);
}

#[test]
fn signal_then_register_observes_immediate_readiness() {
    let mut c = Completion::create();
    let wake = c.signal(0, 812);
    assert!(!wake); // nobody was waiting yet
    assert!(c.register());
    assert_eq!(c.payload(), (0, 812));
}

#[test]
fn register_then_signal_wakes_the_waiter() {
    let mut c = Completion::create();
    assert!(!c.register()); // suspend: the signal has not fired
    let wake = c.signal(ERROR_OPERATION_ABORTED, 0);
    assert!(wake);
    assert_eq!(c.payload(), (ERROR_OPERATION_ABORTED, 0));
}

#[test]
fn handle_closes_exactly_once_when_last_share_drops() {
    let mut h = HandleRef::new(0x77);
    assert_eq!(h.shares, 1);
    h.retain();
    h.retain();
    assert_eq!(h.shares, 3);
    assert!(!h.release());
    assert!(!h.release());
    assert!(h.release());
    assert_eq!(h.shares, 0);
}

#[test]
fn handle_cancel_is_requested_once() {
    let mut h = HandleRef::new(0x77);
    assert!(h.cancel());
    assert!(!h.cancel());
    assert!(h.cancel_requested);
}

#[test]
fn in_flight_operations_resolve_after_close() {
    // Three operations are suspended in the bridge when the channel
    // closes: each still resolves on its completion, with its natural or
    // a cancellation code.
    let mut chan = Request::new(0x33);
    let mut pending = vec![Completion::create(), Completion::create(), Completion::create()];
    for c in pending.iter_mut() {
        assert!(!c.register());
    }
    assert!(chan.close());
    let codes = [ERROR_OPERATION_ABORTED, ERROR_SUCCESS, ERROR_OPERATION_ABORTED];
    for (c, code) in pending.iter_mut().zip(codes.iter()) {
        assert!(c.signal(*code, 0));
        assert_eq!(c.payload().0, *code);
    }
}
