use http_queue::channel::{request_settle, ChannelSetup, Request};
use http_queue::codes::{
    ERROR_SUCCESS, QUEUE_FLAG_CONTROLLER, QUEUE_FLAG_OPEN_EXISTING, URL_FLAG_REMOVE_ALL,
};
use http_queue::session::{
    settle, AuthSettings, ConfigFlag, CreateResult, Session, SetupCall, SetupError, SetupStep,
    Teardown,
};

fn run_controller(name: &str, sid: u64, ug: u64, q: u64) -> Session {
    let c = Session::create(Some(name.as_bytes().to_vec()));
    let c = match c.advance(ERROR_SUCCESS, 0) {
        CreateResult::Continue(c) => c,
        _ => panic!("initialize step"),
    };
    let c = match c.advance(ERROR_SUCCESS, sid) {
        CreateResult::Continue(c) => c,
        _ => panic!("server session step"),
    };
    let c = match c.advance(ERROR_SUCCESS, ug) {
        CreateResult::Continue(c) => c,
        _ => panic!("url group step"),
    };
    let c = match c.advance(ERROR_SUCCESS, q) {
        CreateResult::Continue(c) => c,
        _ => panic!("queue step"),
    };
    match c.advance(ERROR_SUCCESS, 0) {
        CreateResult::Ready(s) => s,
        _ => panic!("bind step"),
    }
}

fn run_worker(name: &str, q: u64) -> Session {
    let c = Session::open(name.as_bytes().to_vec());
    let c = match c.advance(ERROR_SUCCESS, 0) {
        CreateResult::Continue(c) => c,
        _ => panic!("initialize step"),
    };
    match c.advance(ERROR_SUCCESS, q) {
        CreateResult::Ready(s) => s,
        _ => panic!("open step"),
    }
}

#[test]
fn controller_create_succeeds() {
    let s = run_controller("svc-a", 701, 702, 0x40);
    assert!(s.is_controller());
    assert_eq!(s.session_id, 701);
    assert_eq!(s.url_group, 702);
    assert_eq!(s.queue, 0x40);
    assert!(!s.closed);
}

#[test]
fn controller_queue_call_carries_flags_and_name() {
    let c = Session::create(Some(b"svc-a".to_vec()));
    let c = match c.advance(ERROR_SUCCESS, 0) {
        CreateResult::Continue(c) => c,
        _ => panic!(),
    };
    let c = match c.advance(ERROR_SUCCESS, 1) {
        CreateResult::Continue(c) => c,
        _ => panic!(),
    };
    let c = match c.advance(ERROR_SUCCESS, 2) {
        CreateResult::Continue(c) => c,
        _ => panic!(),
    };
    match c.next_call() {
        SetupCall::CreateQueue { flags, name } => {
            assert_eq!(flags, QUEUE_FLAG_CONTROLLER);
            assert_eq!(name, Some(b"svc-a".to_vec()));
        }
        _ => panic!("expected a queue-creation call"),
    }
}

#[test]
fn anonymous_create_skips_session_and_group() {
    let c = Session::create(None);
    let c = match c.advance(ERROR_SUCCESS, 0) {
        CreateResult::Continue(c) => c,
        _ => panic!(),
    };
    match c.next_call() {
        SetupCall::CreateQueue { flags, name } => {
            assert_eq!(flags, 0);
            assert!(name.is_none());
        }
        _ => panic!("expected a queue-creation call"),
    }
    let s = match c.advance(ERROR_SUCCESS, 9) {
        CreateResult::Ready(s) => s,
        _ => panic!(),
    };
    assert!(!s.is_controller());
    assert_eq!(s.queue, 9);
}

#[test]
fn worker_open_uses_open_existing_flag() {
    let c = Session::open(b"svc-a".to_vec());
    let c = match c.advance(ERROR_SUCCESS, 0) {
        CreateResult::Continue(c) => c,
        _ => panic!(),
    };
    match c.next_call() {
        SetupCall::CreateQueue { flags, name } => {
            assert_eq!(flags, QUEUE_FLAG_OPEN_EXISTING);
            assert_eq!(name, Some(b"svc-a".to_vec()));
        }
        _ => panic!("expected a queue-creation call"),
    }
}

#[test]
fn create_fails_tagged_at_server_session() {
    let c = Session::create(Some(b"svc-a".to_vec()));
    let c = match c.advance(ERROR_SUCCESS, 0) {
        CreateResult::Continue(c) => c,
        _ => panic!(),
    };
    match c.advance(5, 0) {
        CreateResult::Failed { error, rollback } => {
            assert_eq!(
                error,
                SetupError { step: SetupStep::CreateSession, code: 5 }
            );
            assert!(rollback.is_empty());
        }
        _ => panic!("expected a failure"),
    }
}

#[test]
fn create_fails_at_url_group_rolls_back_session() {
    let c = Session::create(Some(b"svc-a".to_vec()));
    let c = match c.advance(ERROR_SUCCESS, 0) {
        CreateResult::Continue(c) => c,
        _ => panic!(),
    };
    let c = match c.advance(ERROR_SUCCESS, 31) {
        CreateResult::Continue(c) => c,
        _ => panic!(),
    };
    match c.advance(87, 0) {
        CreateResult::Failed { error, rollback } => {
            assert_eq!(error.step, SetupStep::CreateUrlGroup);
            assert_eq!(error.code, 87);
            assert_eq!(
                rollback,
                vec![Teardown::CloseServerSession { session_id: 31 }]
            );
        }
        _ => panic!("expected a failure"),
    }
}

#[test]
fn create_fails_at_queue_rolls_back_session_then_group() {
    let c = Session::create(Some(b"svc-a".to_vec()));
    let c = match c.advance(ERROR_SUCCESS, 0) {
        CreateResult::Continue(c) => c,
        _ => panic!(),
    };
    let c = match c.advance(ERROR_SUCCESS, 31) {
        CreateResult::Continue(c) => c,
        _ => panic!(),
    };
    let c = match c.advance(ERROR_SUCCESS, 32) {
        CreateResult::Continue(c) => c,
        _ => panic!(),
    };
    match c.advance(6, 0) {
        CreateResult::Failed { error, rollback } => {
            assert_eq!(error.step, SetupStep::CreateQueue);
            assert_eq!(
                rollback,
                vec![
                    Teardown::CloseServerSession { session_id: 31 },
                    Teardown::CloseUrlGroup { url_group: 32 },
                ]
            );
        }
        _ => panic!("expected a failure"),
    }
}

#[test]
fn create_fails_at_bind_rolls_back_everything() {
    let c = Session::create(Some(b"svc-a".to_vec()));
    let c = match c.advance(ERROR_SUCCESS, 0) {
        CreateResult::Continue(c) => c,
        _ => panic!(),
    };
    let c = match c.advance(ERROR_SUCCESS, 31) {
        CreateResult::Continue(c) => c,
        _ => panic!(),
    };
    let c = match c.advance(ERROR_SUCCESS, 32) {
        CreateResult::Continue(c) => c,
        _ => panic!(),
    };
    let c = match c.advance(ERROR_SUCCESS, 33) {
        CreateResult::Continue(c) => c,
        _ => panic!(),
    };
    match c.advance(1150, 0) {
        CreateResult::Failed { error, rollback } => {
            assert_eq!(error.step, SetupStep::BindQueue);
            assert_eq!(
                rollback,
                vec![
                    Teardown::CloseUrlGroup { url_group: 32 },
                    Teardown::CloseServerSession { session_id: 31 },
                    Teardown::CloseHandle { handle: 33 },
                ]
            );
        }
        _ => panic!("expected a failure"),
    }
}

#[test]
fn controller_and_worker_share_queue_name() {
    let controller = run_controller("svc-a", 701, 702, 0x40);
    let worker = run_worker("svc-a", 0x41);
    assert!(controller.is_controller());
    assert!(!worker.is_controller());
    let listen = controller.listen(&b"http://localhost:9480/".to_vec()).unwrap();
    assert_eq!(listen.url_group, 702);
    assert_eq!(listen.url, b"http://localhost:9480/".to_vec());
    assert_eq!(worker.request(), Some(0x41));
}

#[test]
fn close_is_idempotent_controller() {
    let mut s = run_controller("svc-a", 701, 702, 0x40);
    let first = s.close();
    assert_eq!(
        first,
        vec![
            Teardown::CloseUrlGroup { url_group: 702 },
            Teardown::CloseServerSession { session_id: 701 },
            Teardown::CloseHandle { handle: 0x40 },
        ]
    );
    let second = s.close();
    assert!(second.is_empty());
    let third = s.close();
    assert!(third.is_empty());
}

#[test]
fn worker_close_releases_only_its_queue_handle() {
    let mut s = run_worker("svc-a", 0x41);
    let first = s.close();
    assert_eq!(first, vec![Teardown::CloseHandle { handle: 0x41 }]);
    assert!(s.close().is_empty());
}

#[test]
fn closed_session_rejects_operations_before_any_kernel_call() {
    let mut s = run_controller("svc-a", 701, 702, 0x40);
    s.close();
    assert!(s.listen(&b"http://localhost:9480/".to_vec()).is_none());
    assert!(s.release(&b"all".to_vec()).is_none());
    assert!(s.request().is_none());
    assert!(s.config(&vec![ConfigFlag::Auth]).is_none());
}

#[test]
fn release_all_keyword_removes_every_url() {
    let s = run_controller("svc-a", 701, 702, 0x40);
    let call = s.release(&b"all".to_vec()).unwrap();
    assert_eq!(call.flags, URL_FLAG_REMOVE_ALL);
    assert!(call.url.is_none());
    let call = s.release(&b"http://localhost:9480/".to_vec()).unwrap();
    assert_eq!(call.flags, 0);
    assert_eq!(call.url, Some(b"http://localhost:9480/".to_vec()));
}

#[test]
fn settle_passes_codes_through() {
    assert!(settle(SetupStep::AddUrl, 0).is_ok());
    let err = settle(SetupStep::AddUrl, 183).unwrap_err();
    assert_eq!(err, SetupError { step: SetupStep::AddUrl, code: 183 });
}

#[test]
fn config_folds_auth_flags() {
    let s = run_controller("svc-a", 701, 702, 0x40);
    let a = s
        .config(&vec![ConfigFlag::Auth, ConfigFlag::Ntlm, ConfigFlag::Negotiate])
        .unwrap();
    assert_eq!(
        a,
        AuthSettings { schemes: 0xC, ex_flags: 0, set_basic: true, set_extended: false }
    );
}

#[test]
fn config_scheme_bits_are_idempotent() {
    let s = run_controller("svc-a", 701, 702, 0x40);
    let a = s.config(&vec![ConfigFlag::Ntlm, ConfigFlag::Ntlm]).unwrap();
    assert_eq!(a.schemes, 0x4);
    let a = s
        .config(&vec![
            ConfigFlag::AuthExtended,
            ConfigFlag::Kerberos,
            ConfigFlag::CacheCredentials,
            ConfigFlag::CaptureCredentials,
        ])
        .unwrap();
    assert_eq!(a.schemes, 0x10);
    assert_eq!(a.ex_flags, 0x3);
    assert!(!a.set_basic);
    assert!(a.set_extended);
}

#[test]
fn derived_channel_survives_session_close() {
    let mut s = run_controller("svc-a", 701, 702, 0x40);
    let queue = s.request().unwrap();
    assert_eq!(queue, 0x40);
    let chan = match request_settle(true, 0, true, 0, 0x99) {
        ChannelSetup::Ready(c) => c,
        _ => panic!("expected a ready channel"),
    };
    let teardown = s.close();
    // The session's teardown names only its own handles, never the
    // channel's duplicate.
    for action in &teardown {
        assert_ne!(*action, Teardown::CloseHandle { handle: 0x99 });
    }
    assert!(chan.receive(0, 4096).is_some());
}

#[test]
fn request_settle_reports_duplicate_failure() {
    match request_settle(false, 998, true, 0, 0) {
        ChannelSetup::Failed { error, rollback } => {
            assert_eq!(error, SetupError { step: SetupStep::DuplicateHandle, code: 998 });
            assert!(rollback.is_empty());
        }
        _ => panic!("expected a failure"),
    }
    // A failed bind closes the handle the duplication just produced.
    match request_settle(true, 0, false, 87, 0x77) {
        ChannelSetup::Failed { error, rollback } => {
            assert_eq!(error.step, SetupStep::BindIo);
            assert_eq!(error.code, 87);
            assert_eq!(rollback, vec![Teardown::CloseHandle { handle: 0x77 }]);
        }
        _ => panic!("expected a failure"),
    }
}

#[test]
fn channels_on_one_queue_close_independently() {
    let mut a = Request::new(0x51);
    let b = Request::new(0x52);
    assert!(a.close());
    assert!(a.receive(0, 4096).is_none());
    assert!(b.receive(0, 4096).is_some());
}
