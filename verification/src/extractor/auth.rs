//! Who is logged in: the session cookie of a request, the session it names and
//! that session's user. The application performs each read that the flow asks for.
use vstd::prelude::*;
use crate::cookies::{CookieRetrievalError, CookieValue, CookieValueView, view_result};
use crate::db::session::{Session, SessionView};
use crate::db::user::{User, UserView};
use crate::reply::{Reply, ReplyView};
use crate::url::{encode_component, url_encode};

verus! {

/// The user of a request with a valid session.
#[derive(Debug)]
pub struct AuthenticatedUser {
    user: User,
}

impl AuthenticatedUser {
    pub closed spec fn user_spec(&self) -> UserView {
        self.user@
    }

    pub fn inner(self) -> (r: User)
        ensures
            r@ == self.user_spec(),
    {
        self.user
    }
}

/// Why a request has no logged-in user; each carries the percent-encoded
/// path of the request, to come back to after logging in.
#[derive(Debug, PartialEq, Eq)]
pub enum AuthenticatedUserExtractorError {
    MissingSessionIDCookie(String),
    ExtractingCookieJarFailed(String),
    AppStateRetrievalFailed(String),
    ReferencedSessionNotInDB(String),
    ReferencedUserNotInDB(String),
    HowDidThisHappen(String),
}

/// The kind of an [`AuthenticatedUserExtractorError`].
#[derive(Debug, Clone, Copy, PartialEq, Eq)]
pub enum AuthFailure {
    MissingSessionIDCookie,
    ExtractingCookieJarFailed,
    AppStateRetrievalFailed,
    ReferencedSessionNotInDB,
    ReferencedUserNotInDB,
    HowDidThisHappen,
}

/// `/auth/login?forward_to=` followed by `encoded_uri`.
pub open spec fn login_redirect_spec(encoded_uri: Seq<char>) -> Seq<char> {
    "/auth/login?forward_to="@ + encoded_uri
}

impl AuthenticatedUserExtractorError {
    pub open spec fn kind_spec(&self) -> AuthFailure {
        match self {
            AuthenticatedUserExtractorError::MissingSessionIDCookie(_) => AuthFailure::MissingSessionIDCookie,
            AuthenticatedUserExtractorError::ExtractingCookieJarFailed(_) => AuthFailure::ExtractingCookieJarFailed,
            AuthenticatedUserExtractorError::AppStateRetrievalFailed(_) => AuthFailure::AppStateRetrievalFailed,
            AuthenticatedUserExtractorError::ReferencedSessionNotInDB(_) => AuthFailure::ReferencedSessionNotInDB,
            AuthenticatedUserExtractorError::ReferencedUserNotInDB(_) => AuthFailure::ReferencedUserNotInDB,
            AuthenticatedUserExtractorError::HowDidThisHappen(_) => AuthFailure::HowDidThisHappen,
        }
    }

    pub open spec fn uri_spec(&self) -> Seq<char> {
        match self {
            AuthenticatedUserExtractorError::MissingSessionIDCookie(u) => u@,
            AuthenticatedUserExtractorError::ExtractingCookieJarFailed(u) => u@,
            AuthenticatedUserExtractorError::AppStateRetrievalFailed(u) => u@,
            AuthenticatedUserExtractorError::ReferencedSessionNotInDB(u) => u@,
            AuthenticatedUserExtractorError::ReferencedUserNotInDB(u) => u@,
            AuthenticatedUserExtractorError::HowDidThisHappen(u) => u@,
        }
    }

    fn with_kind(kind: AuthFailure, uri: String) -> (r: Self)
        ensures
            r.kind_spec() == kind,
            r.uri_spec() == uri@,
    {
        match kind {
            AuthFailure::MissingSessionIDCookie => AuthenticatedUserExtractorError::MissingSessionIDCookie(uri),
            AuthFailure::ExtractingCookieJarFailed => AuthenticatedUserExtractorError::ExtractingCookieJarFailed(uri),
            AuthFailure::AppStateRetrievalFailed => AuthenticatedUserExtractorError::AppStateRetrievalFailed(uri),
            AuthFailure::ReferencedSessionNotInDB => AuthenticatedUserExtractorError::ReferencedSessionNotInDB(uri),
            AuthFailure::ReferencedUserNotInDB => AuthenticatedUserExtractorError::ReferencedUserNotInDB(uri),
            AuthFailure::HowDidThisHappen => AuthenticatedUserExtractorError::HowDidThisHappen(uri),
        }
    }

    /// The answer to a request without a logged-in user, whatever the reason:
    /// a redirect to the login page that forwards back to the request's path.
    pub fn into_reply(self) -> (r: Reply)
        ensures
            r@ == ReplyView::Redirect(login_redirect_spec(self.uri_spec())),
    {
        let uri = match self {
            AuthenticatedUserExtractorError::MissingSessionIDCookie(uri) => uri,
            AuthenticatedUserExtractorError::ExtractingCookieJarFailed(uri) => uri,
            AuthenticatedUserExtractorError::AppStateRetrievalFailed(uri) => uri,
            AuthenticatedUserExtractorError::ReferencedSessionNotInDB(uri) => uri,
            AuthenticatedUserExtractorError::ReferencedUserNotInDB(uri) => uri,
            AuthenticatedUserExtractorError::HowDidThisHappen(uri) => uri,
        };
        let mut target = String::from_str("/auth/login?forward_to=");
        target.append(uri.as_str());
        Reply::Redirect(target)
    }
}

/// Where the flow stands.
#[derive(Debug, Clone, Copy, PartialEq, Eq)]
pub enum AuthStage {
    AwaitingSessionCookie,
    AwaitingAppState(i32),
    AwaitingSession,
    AwaitingUser,
    Finished,
}

/// Finding the user of one request.
#[derive(Debug)]
pub struct AuthFlow {
    encoded_uri: String,
    stage: AuthStage,
}

pub struct AuthFlowView {
    pub encoded_uri: Seq<char>,
    pub stage: AuthStage,
}

impl View for AuthFlow {
    type V = AuthFlowView;

    closed spec fn view(&self) -> AuthFlowView {
        AuthFlowView { encoded_uri: self.encoded_uri@, stage: self.stage }
    }
}

/// What the application reports back.
#[derive(Debug)]
pub enum AuthEvent {
    /// The session cookie read from the jar, or `None` when there was no jar.
    SessionCookie(Option<Result<CookieValue, CookieRetrievalError>>),
    /// Whether the application state could be had.
    AppState(bool),
    /// The session read by id.
    SessionLoaded(Option<Session>),
    /// The user read by id.
    UserLoaded(Option<User>),
}

pub enum AuthEventView {
    SessionCookie(Option<Result<CookieValueView, CookieRetrievalError>>),
    AppState(bool),
    SessionLoaded(Option<SessionView>),
    UserLoaded(Option<UserView>),
}

impl View for AuthEvent {
    type V = AuthEventView;

    open spec fn view(&self) -> AuthEventView {
        match self {
            AuthEvent::SessionCookie(c) => AuthEventView::SessionCookie(
                match c {
                    Some(r) => Some(view_result(r)),
                    None => None,
                },
            ),
            AuthEvent::AppState(ok) => AuthEventView::AppState(*ok),
            AuthEvent::SessionLoaded(s) => AuthEventView::SessionLoaded(
                match s {
                    Some(s) => Some(s@),
                    None => None,
                },
            ),
            AuthEvent::UserLoaded(u) => AuthEventView::UserLoaded(
                match u {
                    Some(u) => Some(u@),
                    None => None,
                },
            ),
        }
    }
}

/// What the application is asked to do next.
#[derive(Debug)]
pub enum AuthAction {
    ExtractAppState,
    ReadSession(i32),
    ReadUser(i32),
    Accept(AuthenticatedUser),
    Reject(AuthenticatedUserExtractorError),
}

pub enum AuthActionView {
    ExtractAppState,
    ReadSession(i32),
    ReadUser(i32),
    Accept(UserView),
    Reject(AuthFailure, Seq<char>),
}

impl View for AuthAction {
    type V = AuthActionView;

    open spec fn view(&self) -> AuthActionView {
        match self {
            AuthAction::ExtractAppState => AuthActionView::ExtractAppState,
            AuthAction::ReadSession(id) => AuthActionView::ReadSession(*id),
            AuthAction::ReadUser(id) => AuthActionView::ReadUser(*id),
            AuthAction::Accept(u) => AuthActionView::Accept(u.user_spec()),
            AuthAction::Reject(e) => AuthActionView::Reject(e.kind_spec(), e.uri_spec()),
        }
    }
}

/// Whether `event` is what a flow at `stage` waits for.
pub open spec fn auth_expects(stage: AuthStage, event: AuthEventView) -> bool {
    match stage {
        AuthStage::AwaitingSessionCookie => event is SessionCookie,
        AuthStage::AwaitingAppState(_) => event is AppState,
        AuthStage::AwaitingSession => event is SessionLoaded,
        AuthStage::AwaitingUser => event is UserLoaded,
        AuthStage::Finished => false,
    }
}

/// One step of the flow: the next stage and what to do.
pub open spec fn auth_step_spec(flow: AuthFlowView, event: AuthEventView) -> (AuthStage, AuthActionView) {
    let reject = |kind: AuthFailure| (AuthStage::Finished, AuthActionView::Reject(kind, flow.encoded_uri));
    match event {
        AuthEventView::SessionCookie(None) => reject(AuthFailure::ExtractingCookieJarFailed),
        AuthEventView::SessionCookie(Some(Err(_))) => reject(AuthFailure::MissingSessionIDCookie),
        AuthEventView::SessionCookie(Some(Ok(CookieValueView::SessionID(id)))) => (
            AuthStage::AwaitingAppState(id),
            AuthActionView::ExtractAppState,
        ),
        AuthEventView::SessionCookie(Some(Ok(_))) => reject(AuthFailure::HowDidThisHappen),
        AuthEventView::AppState(false) => reject(AuthFailure::AppStateRetrievalFailed),
        AuthEventView::AppState(true) => match flow.stage {
            AuthStage::AwaitingAppState(id) => (AuthStage::AwaitingSession, AuthActionView::ReadSession(id)),
            _ => reject(AuthFailure::HowDidThisHappen),
        },
        AuthEventView::SessionLoaded(None) => reject(AuthFailure::ReferencedSessionNotInDB),
        AuthEventView::SessionLoaded(Some(s)) => (AuthStage::AwaitingUser, AuthActionView::ReadUser(s.user_id)),
        AuthEventView::UserLoaded(None) => reject(AuthFailure::ReferencedUserNotInDB),
        AuthEventView::UserLoaded(Some(u)) => (AuthStage::Finished, AuthActionView::Accept(u)),
    }
}

impl AuthFlow {
    /// The flow for a request to `uri`, waiting for its session cookie.
    pub fn start(uri: &str) -> (r: AuthFlow)
        ensures
            r@.encoded_uri == url_encode(uri@),
            r@.stage == AuthStage::AwaitingSessionCookie,
    {
        AuthFlow { encoded_uri: encode_component(uri), stage: AuthStage::AwaitingSessionCookie }
    }

    pub fn stage(&self) -> (r: AuthStage)
        ensures
            r == self@.stage,
    {
        self.stage
    }

    /// Whether `event` is what this flow waits for.
    pub fn expects(&self, event: &AuthEvent) -> (b: bool)
        ensures
            b == auth_expects(self@.stage, event@),
    {
        match (self.stage, event) {
            (AuthStage::AwaitingSessionCookie, AuthEvent::SessionCookie(_)) => true,
            (AuthStage::AwaitingAppState(_), AuthEvent::AppState(_)) => true,
            (AuthStage::AwaitingSession, AuthEvent::SessionLoaded(_)) => true,
            (AuthStage::AwaitingUser, AuthEvent::UserLoaded(_)) => true,
            _ => false,
        }
    }

    fn reject(self, kind: AuthFailure) -> (r: (AuthFlow, AuthAction))
        ensures
            r.0@ == (AuthFlowView { encoded_uri: self@.encoded_uri, stage: AuthStage::Finished }),
            r.1@ == AuthActionView::Reject(kind, self@.encoded_uri),
    {
        let uri = self.encoded_uri.clone();
        let error = AuthenticatedUserExtractorError::with_kind(kind, uri);
        (AuthFlow { encoded_uri: self.encoded_uri, stage: AuthStage::Finished }, AuthAction::Reject(error))
    }

    /// Takes in what the application reports and says what it must do next.
    pub fn step(self, event: AuthEvent) -> (r: (AuthFlow, AuthAction))
        requires
            auth_expects(self@.stage, event@),
        ensures
            r.0@.encoded_uri == self@.encoded_uri,
            (r.0@.stage, r.1@) == auth_step_spec(self@, event@),
    {
        match event {
            AuthEvent::SessionCookie(None) => self.reject(AuthFailure::ExtractingCookieJarFailed),
            AuthEvent::SessionCookie(Some(Err(_))) => self.reject(AuthFailure::MissingSessionIDCookie),
            AuthEvent::SessionCookie(Some(Ok(CookieValue::SessionID(id)))) => (
                AuthFlow { encoded_uri: self.encoded_uri, stage: AuthStage::AwaitingAppState(id) },
                AuthAction::ExtractAppState,
            ),
            AuthEvent::SessionCookie(Some(Ok(_))) => self.reject(AuthFailure::HowDidThisHappen),
            AuthEvent::AppState(false) => self.reject(AuthFailure::AppStateRetrievalFailed),
            AuthEvent::AppState(true) => match self.stage {
                AuthStage::AwaitingAppState(id) => (
                    AuthFlow { encoded_uri: self.encoded_uri, stage: AuthStage::AwaitingSession },
                    AuthAction::ReadSession(id),
                ),
                _ => self.reject(AuthFailure::HowDidThisHappen),
            },
            AuthEvent::SessionLoaded(None) => self.reject(AuthFailure::ReferencedSessionNotInDB),
            AuthEvent::SessionLoaded(Some(session)) => {
                let user_id = session.user_id();
                (AuthFlow { encoded_uri: self.encoded_uri, stage: AuthStage::AwaitingUser }, AuthAction::ReadUser(user_id))
            },
            AuthEvent::UserLoaded(None) => self.reject(AuthFailure::ReferencedUserNotInDB),
            AuthEvent::UserLoaded(Some(user)) => (
                AuthFlow { encoded_uri: self.encoded_uri, stage: AuthStage::Finished },
                AuthAction::Accept(AuthenticatedUser { user: user }),
            ),
        }
    }
}

/// The actions of a flow that is handed `events` one after the other, up to
/// the first event it does not wait for.
pub open spec fn auth_run(flow: AuthFlowView, events: Seq<AuthEventView>) -> Seq<AuthActionView>
    decreases events.len(),
{
    if events.len() == 0 || !auth_expects(flow.stage, events[0]) {
        Seq::empty()
    } else {
        let (stage, action) = auth_step_spec(flow, events[0]);
        seq![action] + auth_run(
            AuthFlowView { encoded_uri: flow.encoded_uri, stage: stage },
            events.drop_first(),
        )
    }
}

/// Every rejection sends the request back with the path it came with.
pub proof fn lemma_auth_rejections_keep_uri(flow: AuthFlowView, events: Seq<AuthEventView>, k: int)
    requires
        0 <= k < auth_run(flow, events).len(),
        auth_run(flow, events)[k] is Reject,
    ensures
        auth_run(flow, events)[k]->Reject_1 == flow.encoded_uri,
    decreases events.len(),
{
    let (stage, action) = auth_step_spec(flow, events[0]);
    let next = AuthFlowView { encoded_uri: flow.encoded_uri, stage: stage };
    if k > 0 {
        lemma_auth_rejections_keep_uri(next, events.drop_first(), k - 1);
    }
}

/// A request is accepted only as the fourth step of its flow, after a session
/// cookie naming a session, the application state, that session, and the user
/// it names; the flow reads exactly that session and that user, and accepts
/// the user that was read.
pub proof fn lemma_auth_accept_needs_every_read(
    encoded_uri: Seq<char>,
    events: Seq<AuthEventView>,
    k: int,
)
    requires
        0 <= k < auth_run(
            AuthFlowView { encoded_uri, stage: AuthStage::AwaitingSessionCookie },
            events,
        ).len(),
        auth_run(AuthFlowView { encoded_uri, stage: AuthStage::AwaitingSessionCookie }, events)[k] is Accept,
    ensures
        k == 3,
        events.len() >= 4,
        events[0] matches AuthEventView::SessionCookie(Some(Ok(CookieValueView::SessionID(sid)))) && {
            &&& events[1] == AuthEventView::AppState(true)
            &&& events[2] matches AuthEventView::SessionLoaded(Some(session)) && {
                &&& events[3] matches AuthEventView::UserLoaded(Some(user)) && auth_run(
                    AuthFlowView { encoded_uri, stage: AuthStage::AwaitingSessionCookie },
                    events,
                ).take(4) == seq![
                    AuthActionView::ExtractAppState,
                    AuthActionView::ReadSession(sid),
                    AuthActionView::ReadUser(session.user_id),
                    AuthActionView::Accept(user),
                ]
            }
        },
{
    let f0 = AuthFlowView { encoded_uri, stage: AuthStage::AwaitingSessionCookie };
    let run = auth_run(f0, events);
    let e1 = events.drop_first();
    let e2 = e1.drop_first();
    let e3 = e2.drop_first();
    let e4 = e3.drop_first();
    let (s1, a0) = auth_step_spec(f0, events[0]);
    let f1 = AuthFlowView { encoded_uri, stage: s1 };
    let r1 = auth_run(f1, e1);
    assert(run == seq![a0] + r1);
    if s1 == AuthStage::Finished {
        assert(r1 == Seq::<AuthActionView>::empty());
        assert(false);
    }
    let sid = s1->AwaitingAppState_0;
    let (s2, a1) = auth_step_spec(f1, e1[0]);
    let f2 = AuthFlowView { encoded_uri, stage: s2 };
    let r2 = auth_run(f2, e2);
    assert(r1 == seq![a1] + r2);
    if s2 == AuthStage::Finished {
        assert(r2 == Seq::<AuthActionView>::empty());
        assert(false);
    }
    let (s3, a2) = auth_step_spec(f2, e2[0]);
    let f3 = AuthFlowView { encoded_uri, stage: s3 };
    let r3 = auth_run(f3, e3);
    assert(r2 == seq![a2] + r3);
    if s3 == AuthStage::Finished {
        assert(r3 == Seq::<AuthActionView>::empty());
        assert(false);
    }
    let (s4, a3) = auth_step_spec(f3, e3[0]);
    let f4 = AuthFlowView { encoded_uri, stage: s4 };
    let r4 = auth_run(f4, e4);
    assert(r3 == seq![a3] + r4);
    assert(s4 == AuthStage::Finished);
    assert(r4 == Seq::<AuthActionView>::empty());
    assert(run.take(4) =~= seq![a0, a1, a2, a3]);
}

/// Once a successful login has stored its session cookie in a jar (whatever
/// the jar held before), the next request that reads the session cookie from
/// that jar asks for the application state and then reads that very session.
pub proof fn lemma_stored_session_cookie_reads_its_session(
    jar_before: Map<Seq<char>, Seq<char>>,
    session_id: i32,
    encoded_uri: Seq<char>,
)
    ensures
        ({
            let stored = CookieValue::SessionID(session_id);
            let jar_after = jar_before.insert(stored.name_spec(), stored.text_spec());
            let found = crate::cookies::CookieKey::SessionID.decode_spec(
                crate::cookies::jar_value(jar_after, crate::cookies::CookieKey::SessionID.name_spec()),
            );
            let f0 = AuthFlowView { encoded_uri, stage: AuthStage::AwaitingSessionCookie };
            let (s1, a1) = auth_step_spec(f0, AuthEventView::SessionCookie(Some(found)));
            let (s2, a2) = auth_step_spec(
                AuthFlowView { encoded_uri, stage: s1 },
                AuthEventView::AppState(true),
            );
            &&& stored.key_spec() == crate::cookies::CookieKey::SessionID
            &&& a1 == AuthActionView::ExtractAppState
            &&& a2 == AuthActionView::ReadSession(session_id)
            &&& s2 == AuthStage::AwaitingSession
        }),
{
    crate::cookies::lemma_jar_store_then_read(
        jar_before,
        CookieValue::SessionID(session_id),
        crate::cookies::flash_cookie_name(),
    );
}

/// A request whose session cookie names a session, with the application state
/// at hand, and whose session and that session's user are both found, is
/// served for that user, whoever the user is: its flow reads the session the
/// cookie names, then the user the session names, and accepts the user read.
pub proof fn lemma_auth_accepts_the_found_user(
    encoded_uri: Seq<char>,
    session_id: i32,
    session: SessionView,
    user: UserView,
)
    ensures
        auth_run(
            AuthFlowView { encoded_uri, stage: AuthStage::AwaitingSessionCookie },
            seq![
                AuthEventView::SessionCookie(Some(Ok(CookieValueView::SessionID(session_id)))),
                AuthEventView::AppState(true),
                AuthEventView::SessionLoaded(Some(session)),
                AuthEventView::UserLoaded(Some(user)),
            ],
        ) == seq![
            AuthActionView::ExtractAppState,
            AuthActionView::ReadSession(session_id),
            AuthActionView::ReadUser(session.user_id),
            AuthActionView::Accept(user),
        ],
{
    let e0 = seq![
        AuthEventView::SessionCookie(Some(Ok(CookieValueView::SessionID(session_id)))),
        AuthEventView::AppState(true),
        AuthEventView::SessionLoaded(Some(session)),
        AuthEventView::UserLoaded(Some(user)),
    ];
    let f0 = AuthFlowView { encoded_uri, stage: AuthStage::AwaitingSessionCookie };
    let e1 = e0.drop_first();
    let e2 = e1.drop_first();
    let e3 = e2.drop_first();
    let e4 = e3.drop_first();
    assert(e1 =~= seq![
        AuthEventView::AppState(true),
        AuthEventView::SessionLoaded(Some(session)),
        AuthEventView::UserLoaded(Some(user)),
    ]);
    assert(e2 =~= seq![AuthEventView::SessionLoaded(Some(session)), AuthEventView::UserLoaded(Some(user))]);
    assert(e3 =~= seq![AuthEventView::UserLoaded(Some(user))]);
    assert(e4 =~= Seq::<AuthEventView>::empty());
    let f1 = AuthFlowView { encoded_uri, stage: AuthStage::AwaitingAppState(session_id) };
    let f2 = AuthFlowView { encoded_uri, stage: AuthStage::AwaitingSession };
    let f3 = AuthFlowView { encoded_uri, stage: AuthStage::AwaitingUser };
    let f4 = AuthFlowView { encoded_uri, stage: AuthStage::Finished };
    assert(auth_run(f4, e4) == Seq::<AuthActionView>::empty());
    assert(auth_run(f3, e3) == seq![AuthActionView::Accept(user)] + auth_run(f4, e4));
    assert(auth_run(f2, e2) == seq![AuthActionView::ReadUser(session.user_id)] + auth_run(f3, e3));
    assert(auth_run(f1, e1) == seq![AuthActionView::ReadSession(session_id)] + auth_run(f2, e2));
    assert(auth_run(f0, e0) == seq![AuthActionView::ExtractAppState] + auth_run(f1, e1));
    assert(auth_run(f0, e0) =~= seq![
        AuthActionView::ExtractAppState,
        AuthActionView::ReadSession(session_id),
        AuthActionView::ReadUser(session.user_id),
        AuthActionView::Accept(user),
    ]);
}

} // verus!
