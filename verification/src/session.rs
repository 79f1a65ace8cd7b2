//! The server session: a bound server identity made of a server session,
//! one URL group and a request queue.
//!
//! A controller creates and owns all three and binds URLs; an anonymous
//! session owns a queue with no URL group; a worker opens an existing
//! named queue and owns neither session nor URL group. Creation is a step
//! machine: each step is one kernel call, a failed step is tagged with the
//! call that failed, and every resource a finished step produced is torn
//! down before the failure is returned.

use vstd::prelude::*;

use crate::codes::AUTH_ENABLE_KERBEROS;
use crate::codes::AUTH_ENABLE_NEGOTIATE;
use crate::codes::AUTH_ENABLE_NTLM;
use crate::codes::AUTH_EX_CACHE_CREDENTIALS;
use crate::codes::AUTH_EX_CAPTURE_CREDENTIALS;
use crate::codes::ERROR_SUCCESS;
use crate::codes::QUEUE_FLAG_CONTROLLER;
use crate::codes::QUEUE_FLAG_OPEN_EXISTING;
use crate::codes::URL_FLAG_REMOVE_ALL;
use crate::headers::clone_bytes;

verus! {

/// The kernel call a setup step stands for; a setup error is tagged with
/// the step that failed.
#[derive(Clone, Copy, PartialEq, Eq, Structural, Debug)]
pub enum SetupStep {
    Initialize,
    CreateSession,
    CreateUrlGroup,
    CreateQueue,
    BindQueue,
    AddUrl,
    RemoveUrl,
    SetSessionProperty,
    DuplicateHandle,
    BindIo,
    DeclarePush,
}

/// A failed kernel call: which step failed and the numeric code it
/// returned, passed through unchanged for diagnostics.
#[derive(Clone, Copy, PartialEq, Eq, Structural, Debug)]
pub struct SetupError {
    pub step: SetupStep,
    pub code: u32,
}

/// A teardown action the driver must perform, in list order.
#[derive(Clone, Copy, PartialEq, Eq, Structural, Debug)]
pub enum Teardown {
    CloseUrlGroup { url_group: u64 },
    CloseServerSession { session_id: u64 },
    CloseHandle { handle: u64 },
}

/// How a session comes into being: a controller creates the full identity,
/// an anonymous session creates an unnamed queue only, a worker opens an
/// existing named queue.
#[derive(Clone, Copy, PartialEq, Eq, Structural, Debug)]
pub enum CreateMode {
    Controller,
    Anonymous,
    Worker,
}

/// A bound server identity. `closed` is the "already closed" latch that
/// makes teardown happen exactly once.
pub struct Session {
    pub controller: bool,
    pub closed: bool,
    pub session_id: u64,
    pub url_group: u64,
    pub queue: u64,
}

/// A creation in progress: the mode, the step whose kernel call is being
/// made, and the identifiers the finished steps produced.
pub struct Creating {
    pub mode: CreateMode,
    pub step: SetupStep,
    pub name: Option<Vec<u8>>,
    pub session_id: u64,
    pub url_group: u64,
    pub queue: u64,
}

/// What the driver performs next for a creation in progress.
pub enum SetupCall {
    Initialize,
    CreateSession,
    CreateUrlGroup { session_id: u64 },
    CreateQueue { flags: u32, name: Option<Vec<u8>> },
    BindQueue { url_group: u64, queue: u64 },
}

/// The result of one creation step.
pub enum CreateResult {
    Continue(Creating),
    Failed { error: SetupError, rollback: Vec<Teardown> },
    Ready(Session),
}

impl Creating {
    /// The steps a creation runs through: a controller makes the whole
    /// identity; an anonymous session and a worker make only the queue.
    pub open spec fn wf(self) -> bool {
        match self.mode {
            CreateMode::Controller => self.step == SetupStep::Initialize || self.step
                == SetupStep::CreateSession || self.step == SetupStep::CreateUrlGroup || self.step
                == SetupStep::CreateQueue || self.step == SetupStep::BindQueue,
            CreateMode::Anonymous => self.step == SetupStep::Initialize || self.step
                == SetupStep::CreateQueue,
            CreateMode::Worker => self.step == SetupStep::Initialize || self.step
                == SetupStep::CreateQueue,
        }
    }
}

/// The step that follows a finished one, by mode.
pub open spec fn spec_next_step(mode: CreateMode, step: SetupStep) -> SetupStep {
    match mode {
        CreateMode::Controller => match step {
            SetupStep::Initialize => SetupStep::CreateSession,
            SetupStep::CreateSession => SetupStep::CreateUrlGroup,
            SetupStep::CreateUrlGroup => SetupStep::CreateQueue,
            _ => SetupStep::BindQueue,
        },
        _ => SetupStep::CreateQueue,
    }
}

/// Whether a finished step completes the creation.
pub open spec fn spec_is_last_step(mode: CreateMode, step: SetupStep) -> bool {
    match mode {
        CreateMode::Controller => step == SetupStep::BindQueue,
        _ => step == SetupStep::CreateQueue,
    }
}

/// The resources to tear down when the current step fails: everything the
/// finished steps produced. The list is performed front to back.
pub open spec fn spec_rollback(c: Creating) -> Seq<Teardown> {
    match c.step {
        SetupStep::CreateUrlGroup => seq![
            Teardown::CloseServerSession { session_id: c.session_id },
        ],
        SetupStep::CreateQueue => {
            if c.mode is Controller {
                seq![
                    Teardown::CloseServerSession { session_id: c.session_id },
                    Teardown::CloseUrlGroup { url_group: c.url_group },
                ]
            } else {
                Seq::empty()
            }
        },
        SetupStep::BindQueue => seq![
            Teardown::CloseUrlGroup { url_group: c.url_group },
            Teardown::CloseServerSession { session_id: c.session_id },
            Teardown::CloseHandle { handle: c.queue },
        ],
        _ => Seq::empty(),
    }
}

/// Where the identifier a step produced is stored.
pub open spec fn spec_store(c: Creating, value: u64) -> Creating {
    match c.step {
        SetupStep::CreateSession => Creating {
            session_id: value,
            mode: c.mode,
            step: c.step,
            name: c.name,
            url_group: c.url_group,
            queue: c.queue,
        },
        SetupStep::CreateUrlGroup => Creating {
            url_group: value,
            mode: c.mode,
            step: c.step,
            name: c.name,
            session_id: c.session_id,
            queue: c.queue,
        },
        SetupStep::CreateQueue => Creating {
            queue: value,
            mode: c.mode,
            step: c.step,
            name: c.name,
            session_id: c.session_id,
            url_group: c.url_group,
        },
        _ => c,
    }
}

/// The in-progress state after a step succeeded: its identifier stored and
/// the next step selected.
pub open spec fn spec_continue(c: Creating, value: u64) -> Creating {
    let s = spec_store(c, value);
    Creating {
        mode: s.mode,
        step: spec_next_step(c.mode, c.step),
        name: s.name,
        session_id: s.session_id,
        url_group: s.url_group,
        queue: s.queue,
    }
}

/// The queue-creation flags of a mode: a controller creates, a worker
/// opens an existing queue, an anonymous session creates unnamed with no
/// flags.
pub open spec fn spec_queue_flags(mode: CreateMode) -> u32 {
    match mode {
        CreateMode::Controller => QUEUE_FLAG_CONTROLLER,
        CreateMode::Anonymous => 0u32,
        CreateMode::Worker => QUEUE_FLAG_OPEN_EXISTING,
    }
}

/// The name the queue is created or opened under: none for an anonymous
/// queue.
pub open spec fn spec_queue_name(c: Creating) -> Option<Seq<u8>> {
    if c.mode is Anonymous {
        None
    } else {
        match c.name {
            Some(n) => Some(n@),
            None => None,
        }
    }
}

/// The name an optional byte string holds.
pub open spec fn opt_bytes(o: Option<Vec<u8>>) -> Option<Seq<u8>> {
    match o {
        Some(v) => Some(v@),
        None => None,
    }
}

/// The finished session a completed creation yields.
pub open spec fn spec_finish(c: Creating) -> Session {
    Session {
        controller: c.mode is Controller,
        closed: false,
        session_id: c.session_id,
        url_group: c.url_group,
        queue: c.queue,
    }
}

/// The state after closing a session, and the teardown list: on the first
/// close, URL group, server session and queue handle in that order for a
/// controller, the queue handle alone otherwise; on any later close,
/// nothing.
pub open spec fn spec_session_close(s: Session) -> (Session, Seq<Teardown>) {
    let closed = Session {
        controller: s.controller,
        closed: true,
        session_id: s.session_id,
        url_group: s.url_group,
        queue: s.queue,
    };
    if s.closed {
        (closed, Seq::empty())
    } else if s.controller {
        (
            closed,
            seq![
                Teardown::CloseUrlGroup { url_group: s.url_group },
                Teardown::CloseServerSession { session_id: s.session_id },
                Teardown::CloseHandle { handle: s.queue },
            ],
        )
    } else {
        (closed, seq![Teardown::CloseHandle { handle: s.queue }])
    }
}

impl Session {
    /// Begins creating a session. With a name, the session becomes the
    /// controller of that named queue; without one, it owns an anonymous
    /// queue only.
    pub fn create(name: Option<Vec<u8>>) -> (c: Creating)
        ensures
            c.mode == (if name is Some {
                CreateMode::Controller
            } else {
                CreateMode::Anonymous
            }),
            c.step == SetupStep::Initialize,
            c.name == name,
            c.session_id == 0u64 && c.url_group == 0u64 && c.queue == 0u64,
            c.wf(),
    {
        let mode = match &name {
            Some(_) => CreateMode::Controller,
            None => CreateMode::Anonymous,
        };
        Creating { mode, step: SetupStep::Initialize, name, session_id: 0, url_group: 0, queue: 0 }
    }

    /// Begins opening an existing named queue as a worker: no server
    /// session and no URL group are created or owned.
    pub fn open(name: Vec<u8>) -> (c: Creating)
        ensures
            c.mode == CreateMode::Worker,
            c.step == SetupStep::Initialize,
            c.name == Some(name),
            c.session_id == 0u64 && c.url_group == 0u64 && c.queue == 0u64,
            c.wf(),
    {
        Creating {
            mode: CreateMode::Worker,
            step: SetupStep::Initialize,
            name: Some(name),
            session_id: 0,
            url_group: 0,
            queue: 0,
        }
    }
}

impl Creating {
    /// The kernel call of the current step. The queue is created with the
    /// controller flag by a controller, opened with the open-existing flag
    /// by a worker, and created unnamed with no flags otherwise.
    pub fn next_call(&self) -> (k: SetupCall)
        requires
            self.wf(),
        ensures
            self.step == SetupStep::Initialize ==> k is Initialize,
            self.step == SetupStep::CreateSession ==> k is CreateSession,
            self.step == SetupStep::CreateUrlGroup ==> k == (SetupCall::CreateUrlGroup {
                session_id: self.session_id,
            }),
            self.step == SetupStep::CreateQueue ==> (k matches SetupCall::CreateQueue {
                flags,
                name,
            } && flags == spec_queue_flags(self.mode) && opt_bytes(name) == spec_queue_name(
                *self,
            )),
            self.step == SetupStep::BindQueue ==> k == (SetupCall::BindQueue {
                url_group: self.url_group,
                queue: self.queue,
            }),
    {
        match self.step {
            SetupStep::Initialize => SetupCall::Initialize,
            SetupStep::CreateSession => SetupCall::CreateSession,
            SetupStep::CreateUrlGroup => SetupCall::CreateUrlGroup { session_id: self.session_id },
            SetupStep::CreateQueue => {
                let flags = match self.mode {
                    CreateMode::Controller => QUEUE_FLAG_CONTROLLER,
                    CreateMode::Anonymous => 0,
                    CreateMode::Worker => QUEUE_FLAG_OPEN_EXISTING,
                };
                let name = match (&self.name, &self.mode) {
                    (_, CreateMode::Anonymous) => None,
                    (Some(n), _) => Some(clone_bytes(n)),
                    (None, _) => None,
                };
                SetupCall::CreateQueue { flags, name }
            },
            _ => SetupCall::BindQueue { url_group: self.url_group, queue: self.queue },
        }
    }

    /// Feeds back the code the current step's kernel call returned, and the
    /// identifier it produced if any. A nonzero code fails the whole
    /// creation: the error is tagged with the step, and everything the
    /// finished steps produced is handed back for teardown.
    pub fn advance(self, code: u32, value: u64) -> (r: CreateResult)
        requires
            self.wf(),
        ensures
            code != ERROR_SUCCESS ==> (r matches CreateResult::Failed { error, rollback }
                && error == (SetupError { step: self.step, code }) && rollback@ == spec_rollback(
                self,
            )),
            code == ERROR_SUCCESS && !spec_is_last_step(self.mode, self.step) ==> (r matches
                CreateResult::Continue(c2) && c2 == spec_continue(self, value) && c2.wf()),
            code == ERROR_SUCCESS && spec_is_last_step(self.mode, self.step) ==> (r matches
                CreateResult::Ready(s) && s == spec_finish(spec_store(self, value))),
    {
        if code != ERROR_SUCCESS {
            let mut rollback: Vec<Teardown> = Vec::new();
            match self.step {
                SetupStep::CreateUrlGroup => {
                    rollback.push(Teardown::CloseServerSession { session_id: self.session_id });
                },
                SetupStep::CreateQueue => {
                    match self.mode {
                        CreateMode::Controller => {
                            rollback.push(
                                Teardown::CloseServerSession { session_id: self.session_id },
                            );
                            rollback.push(Teardown::CloseUrlGroup { url_group: self.url_group });
                        },
                        _ => {},
                    }
                },
                SetupStep::BindQueue => {
                    rollback.push(Teardown::CloseUrlGroup { url_group: self.url_group });
                    rollback.push(Teardown::CloseServerSession { session_id: self.session_id });
                    rollback.push(Teardown::CloseHandle { handle: self.queue });
                },
                _ => {},
            }
            proof {
                assert(rollback@ =~= spec_rollback(self));
            }
            return CreateResult::Failed { error: SetupError { step: self.step, code }, rollback };
        }
        let session_id = if matches!(self.step, SetupStep::CreateSession) {
            value
        } else {
            self.session_id
        };
        let url_group = if matches!(self.step, SetupStep::CreateUrlGroup) {
            value
        } else {
            self.url_group
        };
        let queue = if matches!(self.step, SetupStep::CreateQueue) {
            value
        } else {
            self.queue
        };
        let last = match self.mode {
            CreateMode::Controller => matches!(self.step, SetupStep::BindQueue),
            _ => matches!(self.step, SetupStep::CreateQueue),
        };
        if last {
            CreateResult::Ready(
                Session {
                    controller: matches!(self.mode, CreateMode::Controller),
                    closed: false,
                    session_id,
                    url_group,
                    queue,
                },
            )
        } else {
            let step = match self.mode {
                CreateMode::Controller => match self.step {
                    SetupStep::Initialize => SetupStep::CreateSession,
                    SetupStep::CreateSession => SetupStep::CreateUrlGroup,
                    SetupStep::CreateUrlGroup => SetupStep::CreateQueue,
                    _ => SetupStep::BindQueue,
                },
                _ => SetupStep::CreateQueue,
            };
            CreateResult::Continue(
                Creating { mode: self.mode, step, name: self.name, session_id, url_group, queue },
            )
        }
    }
}

/// The action of registering one URL pattern against a URL group.
pub struct ListenCall {
    pub url_group: u64,
    pub url: Vec<u8>,
}

/// The action of removing URL patterns from a URL group: one pattern, or
/// all of them at once.
pub struct ReleaseCall {
    pub url_group: u64,
    pub flags: u32,
    pub url: Option<Vec<u8>>,
}

/// Maps the code a tagged kernel call returned: zero is success, anything
/// else surfaces the step and the code unchanged.
pub fn settle(step: SetupStep, code: u32) -> (r: Result<(), SetupError>)
    ensures
        r is Ok <==> code == ERROR_SUCCESS,
        code != ERROR_SUCCESS ==> r == Result::<(), SetupError>::Err(SetupError { step, code }),
{
    if code == ERROR_SUCCESS {
        Ok(())
    } else {
        Err(SetupError { step, code })
    }
}

/// The ASCII bytes of `all`, the URL argument that releases every pattern.
pub open spec fn all_keyword() -> Seq<u8> {
    seq![97u8, 108u8, 108u8]
}

/// Whether a URL argument is the keyword `all`.
pub fn is_all_keyword(url: &Vec<u8>) -> (r: bool)
    ensures
        r <==> url@ == all_keyword(),
{
    if url.len() != 3 {
        proof {
            assert(url@ != all_keyword());
        }
        return false;
    }
    let r = url[0] == 97 && url[1] == 108 && url[2] == 108;
    proof {
        if r {
            assert(url@ =~= all_keyword());
        } else {
            assert(url@ != all_keyword());
        }
    }
    r
}

impl Session {
    /// Registers a URL pattern against the session's URL group. A closed
    /// session is rejected before any kernel call; a non-controller queue
    /// is not rejected here — the kernel refuses it and that error is
    /// surfaced, not masked.
    pub fn listen(&self, url: &Vec<u8>) -> (r: Option<ListenCall>)
        ensures
            r matches Some(call) ==> call.url_group == self.url_group && call.url@ == url@,
            r is Some <==> !self.closed,
    {
        if self.closed {
            None
        } else {
            Some(ListenCall { url_group: self.url_group, url: clone_bytes(url) })
        }
    }

    /// Removes a URL pattern from the session's URL group; the keyword
    /// `all` removes every pattern at once.
    pub fn release(&self, url: &Vec<u8>) -> (r: Option<ReleaseCall>)
        ensures
            r is Some <==> !self.closed,
            r matches Some(call) ==> call.url_group == self.url_group && (if url@ == all_keyword() {
                call.flags == URL_FLAG_REMOVE_ALL && call.url is None
            } else {
                call.flags == 0 && (call.url matches Some(u) && u@ == url@)
            }),
    {
        if self.closed {
            None
        } else if is_all_keyword(url) {
            Some(ReleaseCall { url_group: self.url_group, flags: URL_FLAG_REMOVE_ALL, url: None })
        } else {
            Some(ReleaseCall { url_group: self.url_group, flags: 0, url: Some(clone_bytes(url)) })
        }
    }

    /// Hands out the queue handle to duplicate for a new request channel.
    /// Each channel gets an independent duplicate bound to the completion
    /// port, so channels sharing the queue cancel independently.
    pub fn request(&self) -> (r: Option<u64>)
        ensures
            r is Some <==> !self.closed,
            r matches Some(q) ==> q == self.queue,
    {
        if self.closed {
            None
        } else {
            Some(self.queue)
        }
    }

    /// Closes the session: idempotent, and safe to run concurrently — the
    /// `closed` latch is an atomic swap in effect, so the teardown list is
    /// produced exactly once. A controller tears down URL group, server
    /// session and queue handle in that order; a session that owns no
    /// group tears down only its queue handle. Channels hold their own
    /// duplicated handles and are unaffected.
    pub fn close(&mut self) -> (td: Vec<Teardown>)
        ensures
            (*final(self), td@) == spec_session_close(*old(self)),
    {
        if self.closed {
            proof {
                assert(Seq::<Teardown>::empty() =~= spec_session_close(*old(self)).1);
            }
            Vec::new()
        } else {
            self.closed = true;
            let mut td: Vec<Teardown> = Vec::new();
            if self.controller {
                td.push(Teardown::CloseUrlGroup { url_group: self.url_group });
                td.push(Teardown::CloseServerSession { session_id: self.session_id });
                td.push(Teardown::CloseHandle { handle: self.queue });
            } else {
                td.push(Teardown::CloseHandle { handle: self.queue });
            }
            proof {
                assert(td@ =~= spec_session_close(*old(self)).1);
            }
            td
        }
    }

    /// Whether this session is the controller of its queue.
    pub fn is_controller(&self) -> (r: bool)
        ensures
            r == self.controller,
    {
        self.controller
    }
}

/// One authentication option of a session, as the host supplies them.
#[derive(Clone, Copy, PartialEq, Eq, Structural, Debug)]
pub enum ConfigFlag {
    Auth,
    AuthExtended,
    Ntlm,
    Negotiate,
    Kerberos,
    CacheCredentials,
    CaptureCredentials,
}

/// The authentication settings a session is configured with: the scheme
/// bits, the extended bits, and which of the two session properties must
/// be set.
#[derive(Clone, Copy, PartialEq, Eq, Structural, Debug)]
pub struct AuthSettings {
    pub schemes: u32,
    pub ex_flags: u8,
    pub set_basic: bool,
    pub set_extended: bool,
}

/// One configuration option folded into the settings.
pub open spec fn spec_config_step(a: AuthSettings, f: ConfigFlag) -> AuthSettings {
    match f {
        ConfigFlag::Auth => AuthSettings { set_basic: true, ..a },
        ConfigFlag::AuthExtended => AuthSettings { set_extended: true, ..a },
        ConfigFlag::Ntlm => AuthSettings { schemes: a.schemes | AUTH_ENABLE_NTLM, ..a },
        ConfigFlag::Negotiate => AuthSettings { schemes: a.schemes | AUTH_ENABLE_NEGOTIATE, ..a },
        ConfigFlag::Kerberos => AuthSettings { schemes: a.schemes | AUTH_ENABLE_KERBEROS, ..a },
        ConfigFlag::CacheCredentials => AuthSettings {
            ex_flags: a.ex_flags | AUTH_EX_CACHE_CREDENTIALS,
            ..a
        },
        ConfigFlag::CaptureCredentials => AuthSettings {
            ex_flags: a.ex_flags | AUTH_EX_CAPTURE_CREDENTIALS,
            ..a
        },
    }
}

/// The settings a whole option list produces, folded left to right from
/// all-off defaults.
pub open spec fn spec_config(flags: Seq<ConfigFlag>) -> AuthSettings
    decreases flags.len(),
{
    if flags.len() == 0 {
        AuthSettings { schemes: 0u32, ex_flags: 0u8, set_basic: false, set_extended: false }
    } else {
        spec_config_step(spec_config(flags.drop_last()), flags.last())
    }
}

impl Session {
    /// Folds the supplied options into the session's authentication
    /// settings. A closed session is rejected before any kernel call.
    pub fn config(&self, flags: &Vec<ConfigFlag>) -> (r: Option<AuthSettings>)
        ensures
            r is Some <==> !self.closed,
            r matches Some(a) ==> a == spec_config(flags@),
    {
        if self.closed {
            return None;
        }
        let mut a = AuthSettings { schemes: 0, ex_flags: 0, set_basic: false, set_extended: false };
        let mut i: usize = 0;
        proof {
            assert(flags@.take(0) =~= Seq::<ConfigFlag>::empty());
        }
        while i < flags.len()
            invariant
                i <= flags@.len(),
                a == spec_config(flags@.take(i as int)),
            decreases flags@.len() - i,
        {
            proof {
                assert(flags@.take(i + 1).drop_last() =~= flags@.take(i as int));
                assert(flags@.take(i + 1).last() == flags@[i as int]);
            }
            match flags[i] {
                ConfigFlag::Auth => {
                    a.set_basic = true;
                },
                ConfigFlag::AuthExtended => {
                    a.set_extended = true;
                },
                ConfigFlag::Ntlm => {
                    a.schemes = a.schemes | AUTH_ENABLE_NTLM;
                },
                ConfigFlag::Negotiate => {
                    a.schemes = a.schemes | AUTH_ENABLE_NEGOTIATE;
                },
                ConfigFlag::Kerberos => {
                    a.schemes = a.schemes | AUTH_ENABLE_KERBEROS;
                },
                ConfigFlag::CacheCredentials => {
                    a.ex_flags = a.ex_flags | AUTH_EX_CACHE_CREDENTIALS;
                },
                ConfigFlag::CaptureCredentials => {
                    a.ex_flags = a.ex_flags | AUTH_EX_CAPTURE_CREDENTIALS;
                },
            }
            i = i + 1;
        }
        proof {
            assert(flags@.take(flags@.len() as int) =~= flags@);
        }
        Some(a)
    }
}

/// The whole controller lifecycle under kernel success: initialization,
/// server session, URL group, queue and binding each succeed in turn, and
/// the result is an open controller session holding exactly the
/// identifiers the kernel handed out — ready to register URLs and to mint
/// channels.
pub proof fn lemma_controller_lifecycle(c0: Creating, sid: u64, ug: u64, q: u64)
    requires
        c0.mode == CreateMode::Controller,
        c0.step == SetupStep::Initialize,
    ensures
        ({
            let c1 = spec_continue(c0, 0);
            let c2 = spec_continue(c1, sid);
            let c3 = spec_continue(c2, ug);
            let c4 = spec_continue(c3, q);
            let s = spec_finish(spec_store(c4, 0));
            &&& c1.step == SetupStep::CreateSession && c1.wf()
            &&& c2.step == SetupStep::CreateUrlGroup && c2.session_id == sid
            &&& c3.step == SetupStep::CreateQueue && c3.url_group == ug
            &&& c4.step == SetupStep::BindQueue && c4.queue == q
            &&& spec_is_last_step(c4.mode, c4.step)
            &&& s == (Session {
                controller: true,
                closed: false,
                session_id: sid,
                url_group: ug,
                queue: q,
            })
        }),
{
}

/// The whole worker lifecycle under kernel success: initialization and
/// opening the named queue succeed, and the result is an open
/// non-controller session that owns neither server session nor URL group
/// — its close tears down only its own queue handle.
pub proof fn lemma_worker_lifecycle(c0: Creating, q: u64)
    requires
        c0.mode == CreateMode::Worker,
        c0.step == SetupStep::Initialize,
    ensures
        ({
            let c1 = spec_continue(c0, 0);
            let s = spec_finish(spec_store(c1, q));
            &&& c1.step == SetupStep::CreateQueue && c1.wf()
            &&& spec_is_last_step(c1.mode, c1.step)
            &&& s.controller == false && s.closed == false && s.queue == q
            &&& spec_session_close(s).1 == seq![Teardown::CloseHandle { handle: q }]
        }),
{
}

/// Closing a session twice performs the teardown exactly once: the second
/// close finds the latch set and hands back no action.
pub proof fn lemma_session_close_idempotent(s: Session)
    ensures
        ({
            let (s1, first) = spec_session_close(s);
            let (s2, second) = spec_session_close(s1);
            &&& !s.closed && s.controller ==> first.len() == 3
            &&& !s.closed && !s.controller ==> first.len() == 1
            &&& second == Seq::<Teardown>::empty()
            &&& s2 == s1
        }),
{
}

} // verus!
