//! Logging in and out.
use vstd::prelude::*;
use tera::Tera;
use tower_cookies::{Cookies, Key};
use crate::cookies::{
    CookieModificationError, CookieValue, CookieValueView, private_cookies, remove_cookie,
    removed_from_jar, session_cookie_name, set_cookie, stored_in_jar,
};
use crate::db::session::{Session, SessionView};
use crate::db::user::{User, UserView, argon2_accepts, phc_hash_parses};
use crate::decimal::{parse_i32, parse_i32_spec};
use crate::extractor::auth::login_redirect_spec;
use crate::extractor::flash::Flash;
use crate::reply::Reply;
use crate::template::{LoginPage, LogoutPage, login_page_reply, logout_page_reply};
use crate::url::{encode_component, url_encode};

verus! {

/// The login form as submitted.
#[derive(Debug)]
pub struct LoginForm {
    pub user_id: String,
    pub password: String,
    pub forward_to: String,
}

/// The login page, forwarding to the `forward_to` query parameter (or `/`),
/// with the message of the previous request.
pub fn get_login(templates: &Tera, forward_to: Option<String>, flash: Flash) -> (r: Reply)
    ensures
        login_page_reply(
            *templates,
            match forward_to {
                Some(f) => f@,
                None => "/"@,
            },
            flash.message_spec(),
            r@,
        ),
{
    let flash_message = flash.get();
    LoginPage::new(templates, forward_to.as_ref(), flash_message).render()
}

/// Removes the session cookie (without a key nothing is removed, which is
/// ignored) and shows the goodbye page either way. When the request carried
/// the session cookie, the response tells the browser to drop it, for the
/// service's domain and every path.
pub fn get_logout(templates: &Tera, cookie_jar: &mut Cookies, key: Option<&Key>) -> (r: Reply)
    ensures
        match key {
            Some(k) => private_cookies(*final(cookie_jar), *k) == private_cookies(
                *old(cookie_jar),
                *k,
            ).remove(session_cookie_name()) && removed_from_jar(
                *old(cookie_jar),
                *final(cookie_jar),
                session_cookie_name(),
            ),
            None => *final(cookie_jar) == *old(cookie_jar),
        },
        logout_page_reply(*templates, "You have been logged out. Have a nice day."@, r@),
{
    let _ = remove_cookie(CookieValue::SessionID(0), cookie_jar, key);
    LogoutPage::new(templates, "You have been logged out. Have a nice day.").render()
}

pub open spec fn msg_not_numeric() -> Seq<char> {
    "Please enter a numerical user id to log in."@
}

pub open spec fn msg_unknown_user() -> Seq<char> {
    "The provided user id does not exist."@
}

pub open spec fn msg_wrong_password() -> Seq<char> {
    "The provided password was not correct."@
}

pub open spec fn msg_no_session() -> Seq<char> {
    "Logging in failed because no session id could be created. Please try again or contact the system administrator."@
}

pub open spec fn msg_no_cookie() -> Seq<char> {
    "Please allow cookies for this domain/website to be able to log in."@
}

/// Does what `StoreSessionCookie(value)` asks: stores `value` in the jar's
/// private child for `key`, and gives what to report back to the flow.
/// Without a key nothing is stored and the jar is left as it was.
pub fn store_session_cookie(value: CookieValue, cookie_jar: &mut Cookies, key: Option<&Key>) -> (e:
    LoginEvent)
    ensures
        e@ == LoginEventView::CookieStored(key is Some),
        match key {
            Some(k) => private_cookies(*final(cookie_jar), *k) == private_cookies(
                *old(cookie_jar),
                *k,
            ).insert(value.name_spec(), value.text_spec()) && stored_in_jar(
                *old(cookie_jar),
                *final(cookie_jar),
                value,
            ),
            None => *final(cookie_jar) == *old(cookie_jar),
        },
{
    LoginEvent::CookieStored(set_cookie(value, cookie_jar, key))
}

/// Where a failed login goes back to: the login page, forwarding to the same target.
pub open spec fn login_retry_path(forward_to: Seq<char>) -> Seq<char> {
    login_redirect_spec(url_encode(forward_to))
}

/// Where the flow stands.
#[derive(Debug, Clone, Copy, PartialEq, Eq)]
pub enum LoginStage {
    AwaitingUser,
    AwaitingSession,
    AwaitingCookie,
    Finished,
}

/// One login attempt.
#[derive(Debug)]
pub struct LoginFlow {
    forward_to: String,
    retry_path: String,
    password: String,
    stage: LoginStage,
}

pub struct LoginFlowView {
    pub forward_to: Seq<char>,
    /// Where a failed attempt goes back to.
    pub retry_path: Seq<char>,
    pub password: Seq<char>,
    pub stage: LoginStage,
}

impl View for LoginFlow {
    type V = LoginFlowView;

    closed spec fn view(&self) -> LoginFlowView {
        LoginFlowView {
            forward_to: self.forward_to@,
            retry_path: self.retry_path@,
            password: self.password@,
            stage: self.stage,
        }
    }
}

/// What the application reports back.
#[derive(Debug)]
pub enum LoginEvent {
    /// The user read by id.
    UserLoaded(Option<User>),
    /// The session created for the user.
    SessionCreated(Option<Session>),
    /// The outcome of storing the session cookie.
    CookieStored(Result<(), CookieModificationError>),
}

pub enum LoginEventView {
    UserLoaded(Option<UserView>),
    SessionCreated(Option<SessionView>),
    CookieStored(bool),
}

impl View for LoginEvent {
    type V = LoginEventView;

    open spec fn view(&self) -> LoginEventView {
        match self {
            LoginEvent::UserLoaded(u) => LoginEventView::UserLoaded(
                match u {
                    Some(u) => Some(u@),
                    None => None,
                },
            ),
            LoginEvent::SessionCreated(s) => LoginEventView::SessionCreated(
                match s {
                    Some(s) => Some(s@),
                    None => None,
                },
            ),
            LoginEvent::CookieStored(r) => LoginEventView::CookieStored(r is Ok),
        }
    }
}

/// What the application is asked to do next.
#[derive(Debug)]
pub enum LoginAction {
    /// Read the user with this id.
    ReadUser(i32),
    /// Create a session for the user with this id.
    CreateSession(i32),
    /// Store this value in the session cookie.
    StoreSessionCookie(CookieValue),
    /// Leave the message, when there is one, and redirect.
    Finish { flash: Option<String>, redirect_to: String },
}

pub enum LoginActionView {
    ReadUser(i32),
    CreateSession(i32),
    StoreSessionCookie(CookieValueView),
    Finish { flash: Option<Seq<char>>, redirect_to: Seq<char> },
}

impl View for LoginAction {
    type V = LoginActionView;

    open spec fn view(&self) -> LoginActionView {
        match self {
            LoginAction::ReadUser(id) => LoginActionView::ReadUser(*id),
            LoginAction::CreateSession(id) => LoginActionView::CreateSession(*id),
            LoginAction::StoreSessionCookie(v) => LoginActionView::StoreSessionCookie(v.view_spec()),
            LoginAction::Finish { flash, redirect_to } => LoginActionView::Finish {
                flash: match flash {
                    Some(f) => Some(f@),
                    None => None,
                },
                redirect_to: redirect_to@,
            },
        }
    }
}

/// Going back to the login page with `message`.
pub open spec fn login_failure(forward_to: Seq<char>, message: Seq<char>) -> LoginActionView {
    LoginActionView::Finish { flash: Some(message), redirect_to: login_retry_path(forward_to) }
}

/// The first step: read the user whose id the form names, or go back when it
/// names none.
pub open spec fn login_start_spec(user_id: Seq<char>, forward_to: Seq<char>) -> (LoginStage, LoginActionView) {
    match parse_i32_spec(user_id) {
        Some(id) => (LoginStage::AwaitingUser, LoginActionView::ReadUser(id)),
        None => (LoginStage::Finished, login_failure(forward_to, msg_not_numeric())),
    }
}

/// Whether `event` is what a flow at `stage` waits for.
pub open spec fn login_expects(stage: LoginStage, event: LoginEventView) -> bool {
    match stage {
        LoginStage::AwaitingUser => event is UserLoaded,
        LoginStage::AwaitingSession => event is SessionCreated,
        LoginStage::AwaitingCookie => event is CookieStored,
        LoginStage::Finished => false,
    }
}

/// Whether a password can be checked against the user that `event` brings, if any.
pub open spec fn login_checkable(event: LoginEventView) -> bool {
    event matches LoginEventView::UserLoaded(Some(u)) ==> phc_hash_parses(u.password)
}

/// One step of the flow: the next stage and what to do.
pub open spec fn login_step_spec(flow: LoginFlowView, event: LoginEventView) -> (LoginStage, LoginActionView) {
    let fail = |message: Seq<char>| (LoginStage::Finished, login_failure(flow.forward_to, message));
    match event {
        LoginEventView::UserLoaded(None) => fail(msg_unknown_user()),
        LoginEventView::UserLoaded(Some(user)) => if argon2_accepts(user.password, flow.password) {
            (LoginStage::AwaitingSession, LoginActionView::CreateSession(user.id))
        } else {
            fail(msg_wrong_password())
        },
        LoginEventView::SessionCreated(None) => fail(msg_no_session()),
        LoginEventView::SessionCreated(Some(session)) => (
            LoginStage::AwaitingCookie,
            LoginActionView::StoreSessionCookie(CookieValueView::SessionID(session.id)),
        ),
        LoginEventView::CookieStored(false) => fail(msg_no_cookie()),
        LoginEventView::CookieStored(true) => (
            LoginStage::Finished,
            LoginActionView::Finish { flash: None, redirect_to: flow.forward_to },
        ),
    }
}

impl LoginFlow {
    /// The path a failed attempt goes back to is the one its target gives.
    #[verifier::type_invariant]
    spec fn retry_path_matches(&self) -> bool {
        self.retry_path@ == login_retry_path(self.forward_to@)
    }

    /// Whether `event` is what this flow waits for.
    pub fn expects(&self, event: &LoginEvent) -> (b: bool)
        ensures
            b == login_expects(self@.stage, event@),
    {
        match (self.stage, event) {
            (LoginStage::AwaitingUser, LoginEvent::UserLoaded(_)) => true,
            (LoginStage::AwaitingSession, LoginEvent::SessionCreated(_)) => true,
            (LoginStage::AwaitingCookie, LoginEvent::CookieStored(_)) => true,
            _ => false,
        }
    }

    pub fn stage(&self) -> (r: LoginStage)
        ensures
            r == self@.stage,
    {
        self.stage
    }

    fn fail(self, message: &str) -> (r: (LoginFlow, LoginAction))
        ensures
            r.0@ == (LoginFlowView { stage: LoginStage::Finished, ..self@ }),
            r.1@ == login_failure(self@.forward_to, message@),
    {
        proof { use_type_invariant(&self); }
        let redirect_to = self.retry_path.clone();
        (
            LoginFlow { stage: LoginStage::Finished, ..self },
            LoginAction::Finish { flash: Some(String::from_str(message)), redirect_to: redirect_to },
        )
    }

    /// Starts a login with the submitted form.
    pub fn start(form: LoginForm) -> (r: (LoginFlow, LoginAction))
        ensures
            r.0@.forward_to == form.forward_to@,
            r.0@.retry_path == login_retry_path(form.forward_to@),
            r.0@.password == form.password@,
            (r.0@.stage, r.1@) == login_start_spec(form.user_id@, form.forward_to@),
    {
        let mut retry_path = String::from_str("/auth/login?forward_to=");
        let encoded = encode_component(form.forward_to.as_str());
        retry_path.append(encoded.as_str());
        let flow = LoginFlow {
            forward_to: form.forward_to,
            retry_path: retry_path,
            password: form.password,
            stage: LoginStage::AwaitingUser,
        };
        match parse_i32(form.user_id.as_str()) {
            Some(id) => (flow, LoginAction::ReadUser(id)),
            None => flow.fail("Please enter a numerical user id to log in."),
        }
    }

    /// Takes in what the application reports and says what it must do next.
    pub fn step(self, event: LoginEvent) -> (r: (LoginFlow, LoginAction))
        requires
            login_expects(self@.stage, event@),
            login_checkable(event@),
        ensures
            r.0@.forward_to == self@.forward_to,
            r.0@.retry_path == self@.retry_path,
            r.0@.password == self@.password,
            (r.0@.stage, r.1@) == login_step_spec(self@, event@),
    {
        proof { use_type_invariant(&self); }
        match event {
            LoginEvent::UserLoaded(None) => self.fail("The provided user id does not exist."),
            LoginEvent::UserLoaded(Some(user)) => {
                match user.check_password(&self.password) {
                    crate::db::user::CheckPasswordResult::PasswordCorrect => {
                        let id = user.get_id();
                        (LoginFlow { stage: LoginStage::AwaitingSession, ..self }, LoginAction::CreateSession(id))
                    },
                    crate::db::user::CheckPasswordResult::PasswordWrong => self.fail(
                        "The provided password was not correct.",
                    ),
                }
            },
            LoginEvent::SessionCreated(None) => self.fail(
                "Logging in failed because no session id could be created. Please try again or contact the system administrator.",
            ),
            LoginEvent::SessionCreated(Some(session)) => {
                let value = session.as_cookie_value();
                (LoginFlow { stage: LoginStage::AwaitingCookie, ..self }, LoginAction::StoreSessionCookie(value))
            },
            LoginEvent::CookieStored(Err(_)) => self.fail(
                "Please allow cookies for this domain/website to be able to log in.",
            ),
            LoginEvent::CookieStored(Ok(())) => {
                let redirect_to = self.forward_to.clone();
                (
                    LoginFlow { stage: LoginStage::Finished, ..self },
                    LoginAction::Finish { flash: None, redirect_to: redirect_to },
                )
            },
        }
    }

    /// `step`, for a flow that may be handed a user whose stored hash cannot be
    /// parsed: `None` for such a user, where the password cannot be checked.
    pub fn step_checked(self, event: LoginEvent) -> (r: Option<(LoginFlow, LoginAction)>)
        requires
            login_expects(self@.stage, event@),
        ensures
            !login_checkable(event@) ==> r is None,
            login_checkable(event@) ==> (r matches Some(p) && p.0@.forward_to == self@.forward_to
                && p.0@.retry_path == self@.retry_path && p.0@.password == self@.password
                && (p.0@.stage, p.1@) == login_step_spec(self@, event@)),
    {
        let checkable = match &event {
            LoginEvent::UserLoaded(Some(user)) => user.has_valid_password_hash(),
            _ => true,
        };
        if checkable {
            Some(self.step(event))
        } else {
            None
        }
    }
}

/// The actions of a flow that is handed `events` one after the other, up to
/// the first event it does not wait for.
pub open spec fn login_run(flow: LoginFlowView, events: Seq<LoginEventView>) -> Seq<LoginActionView>
    decreases events.len(),
{
    if events.len() == 0 || !login_expects(flow.stage, events[0]) {
        Seq::empty()
    } else {
        let (stage, action) = login_step_spec(flow, events[0]);
        seq![action] + login_run(LoginFlowView { stage: stage, ..flow }, events.drop_first())
    }
}

/// Every action of a login attempt with the submitted `user_id`, `password`
/// and `forward_to`, when the application reports `events`.
pub open spec fn login_attempt(
    user_id: Seq<char>,
    password: Seq<char>,
    forward_to: Seq<char>,
    events: Seq<LoginEventView>,
) -> Seq<LoginActionView> {
    let (stage, action) = login_start_spec(user_id, forward_to);
    seq![action] + login_run(
        LoginFlowView {
            forward_to: forward_to,
            retry_path: login_retry_path(forward_to),
            password: password,
            stage: stage,
        },
        events,
    )
}

proof fn lemma_login_run_failures(flow: LoginFlowView, events: Seq<LoginEventView>, k: int)
    requires
        0 <= k < login_run(flow, events).len(),
        login_run(flow, events)[k] matches LoginActionView::Finish { flash: Some(_), .. },
    ensures
        login_run(flow, events)[k]->redirect_to == login_retry_path(flow.forward_to),
    decreases events.len(),
{
    let (stage, action) = login_step_spec(flow, events[0]);
    if k > 0 {
        lemma_login_run_failures(LoginFlowView { stage: stage, ..flow }, events.drop_first(), k - 1);
    }
}

/// Every failed login goes back to the login page with a message, forwarding
/// to the same target as the form did.
pub proof fn lemma_login_failures_return_to_login(
    user_id: Seq<char>,
    password: Seq<char>,
    forward_to: Seq<char>,
    events: Seq<LoginEventView>,
    k: int,
)
    requires
        0 <= k < login_attempt(user_id, password, forward_to, events).len(),
        login_attempt(user_id, password, forward_to, events)[k] matches LoginActionView::Finish {
            flash: Some(_),
            ..
        },
    ensures
        login_attempt(user_id, password, forward_to, events)[k]->redirect_to == login_retry_path(forward_to),
{
    let (stage, action) = login_start_spec(user_id, forward_to);
    let flow = LoginFlowView {
            forward_to: forward_to,
            retry_path: login_retry_path(forward_to),
            password: password,
            stage: stage,
        };
    if k > 0 {
        lemma_login_run_failures(flow, events, k - 1);
    }
}

/// A login goes to its target only when the form names a user id, the user
/// with that id is found and accepts the password, a session is created for
/// that user, and the session's cookie is stored; nothing else happens on the way.
pub proof fn lemma_login_success_needs_every_check(
    user_id: Seq<char>,
    password: Seq<char>,
    forward_to: Seq<char>,
    events: Seq<LoginEventView>,
    k: int,
)
    requires
        0 <= k < login_attempt(user_id, password, forward_to, events).len(),
        login_attempt(user_id, password, forward_to, events)[k] matches LoginActionView::Finish {
            flash: None,
            ..
        },
    ensures
        k == 3,
        events.len() >= 3,
        parse_i32_spec(user_id) matches Some(id) && {
            &&& events[0] matches LoginEventView::UserLoaded(Some(user)) && {
                &&& argon2_accepts(user.password, password)
                &&& events[1] matches LoginEventView::SessionCreated(Some(session)) && {
                    &&& events[2] == LoginEventView::CookieStored(true)
                    &&& login_attempt(user_id, password, forward_to, events).take(4) == seq![
                        LoginActionView::ReadUser(id),
                        LoginActionView::CreateSession(user.id),
                        LoginActionView::StoreSessionCookie(CookieValueView::SessionID(session.id)),
                        LoginActionView::Finish { flash: None, redirect_to: forward_to },
                    ]
                }
            }
        },
{
    let attempt = login_attempt(user_id, password, forward_to, events);
    let (s0, a0) = login_start_spec(user_id, forward_to);
    let f0 = LoginFlowView {
        forward_to: forward_to,
        retry_path: login_retry_path(forward_to),
        password: password,
        stage: s0,
    };
    let r0 = login_run(f0, events);
    assert(attempt == seq![a0] + r0);
    if s0 == LoginStage::Finished {
        assert(r0 == Seq::<LoginActionView>::empty());
        assert(false);
    }
    let e1 = events.drop_first();
    let e2 = e1.drop_first();
    let e3 = e2.drop_first();
    let (s1, a1) = login_step_spec(f0, events[0]);
    let f1 = LoginFlowView { stage: s1, ..f0 };
    let r1 = login_run(f1, e1);
    assert(r0 == seq![a1] + r1);
    if s1 == LoginStage::Finished {
        assert(r1 == Seq::<LoginActionView>::empty());
        assert(false);
    }
    let (s2, a2) = login_step_spec(f1, e1[0]);
    let f2 = LoginFlowView { stage: s2, ..f1 };
    let r2 = login_run(f2, e2);
    assert(r1 == seq![a2] + r2);
    if s2 == LoginStage::Finished {
        assert(r2 == Seq::<LoginActionView>::empty());
        assert(false);
    }
    let (s3, a3) = login_step_spec(f2, e2[0]);
    let f3 = LoginFlowView { stage: s3, ..f2 };
    let r3 = login_run(f3, e3);
    assert(r2 == seq![a3] + r3);
    assert(s3 == LoginStage::Finished);
    assert(r3 == Seq::<LoginActionView>::empty());
    assert(attempt.take(4) =~= seq![a0, a1, a2, a3]);
}

/// A login whose form names a user id, whose user is found and accepts the
/// password, whose session is created and whose session cookie is stored goes
/// to the form's target with no message, whoever the user and the session
/// are: the flow waits for each of those reports in turn and asks for nothing
/// else.
pub proof fn lemma_login_succeeds_when_every_check_passes(
    user_id: Seq<char>,
    password: Seq<char>,
    forward_to: Seq<char>,
    user: UserView,
    session: SessionView,
)
    requires
        parse_i32_spec(user_id) is Some,
        argon2_accepts(user.password, password),
    ensures
        login_attempt(
            user_id,
            password,
            forward_to,
            seq![
                LoginEventView::UserLoaded(Some(user)),
                LoginEventView::SessionCreated(Some(session)),
                LoginEventView::CookieStored(true),
            ],
        ) == seq![
            LoginActionView::ReadUser(parse_i32_spec(user_id)->0),
            LoginActionView::CreateSession(user.id),
            LoginActionView::StoreSessionCookie(CookieValueView::SessionID(session.id)),
            LoginActionView::Finish { flash: None, redirect_to: forward_to },
        ],
{
    let e0 = seq![
        LoginEventView::UserLoaded(Some(user)),
        LoginEventView::SessionCreated(Some(session)),
        LoginEventView::CookieStored(true),
    ];
    let e1 = e0.drop_first();
    let e2 = e1.drop_first();
    let e3 = e2.drop_first();
    assert(e1 =~= seq![LoginEventView::SessionCreated(Some(session)), LoginEventView::CookieStored(true)]);
    assert(e2 =~= seq![LoginEventView::CookieStored(true)]);
    assert(e3 =~= Seq::<LoginEventView>::empty());
    let base = LoginFlowView {
        forward_to: forward_to,
        retry_path: login_retry_path(forward_to),
        password: password,
        stage: LoginStage::AwaitingUser,
    };
    let f1 = LoginFlowView { stage: LoginStage::AwaitingSession, ..base };
    let f2 = LoginFlowView { stage: LoginStage::AwaitingCookie, ..base };
    let f3 = LoginFlowView { stage: LoginStage::Finished, ..base };
    let a1 = LoginActionView::CreateSession(user.id);
    let a2 = LoginActionView::StoreSessionCookie(CookieValueView::SessionID(session.id));
    let a3 = LoginActionView::Finish { flash: None, redirect_to: forward_to };
    assert(login_run(f3, e3) == Seq::<LoginActionView>::empty());
    assert(login_run(f2, e2) == seq![a3] + login_run(f3, e3));
    assert(login_run(f1, e1) == seq![a2] + login_run(f2, e2));
    assert(login_run(base, e0) == seq![a1] + login_run(f1, e1));
    assert(login_attempt(user_id, password, forward_to, e0) =~= seq![
        LoginActionView::ReadUser(parse_i32_spec(user_id)->0),
        a1,
        a2,
        a3,
    ]);
}

} // verus!
