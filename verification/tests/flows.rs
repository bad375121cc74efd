use grocery::cookies::{set_cookie, CookieModificationError, CookieRetrievalError, CookieValue};
use grocery::db::session::Session;
use grocery::db::user::{hash_new_password, User};
use grocery::extractor::auth::{
    AuthAction, AuthEvent, AuthFlow, AuthStage, AuthenticatedUserExtractorError,
};
use grocery::extractor::flash::{Flash, FlashExtractorError};
use grocery::flash::{FlashMessage, FlashMessageError};
use grocery::reply::Reply;
use grocery::routing::auth::{LoginAction, LoginEvent, LoginFlow, LoginForm, LoginStage};
use tower_cookies::{Cookies, Key};

fn reject(action: AuthAction) -> AuthenticatedUserExtractorError {
    match action {
        AuthAction::Reject(e) => e,
        other => panic!("expected a rejection, got {other:?}"),
    }
}

#[test]
fn auth_flow_accepts_after_every_read() {
    let flow = AuthFlow::start("/list?list_id=3");
    assert_eq!(flow.stage(), AuthStage::AwaitingSessionCookie);
    let (flow, action) = flow.step(AuthEvent::SessionCookie(Some(Ok(CookieValue::SessionID(12)))));
    assert!(matches!(action, AuthAction::ExtractAppState));
    let (flow, action) = flow.step(AuthEvent::AppState(true));
    assert!(matches!(action, AuthAction::ReadSession(12)));
    let (flow, action) = flow.step(AuthEvent::SessionLoaded(Some(Session::new(12, 4, 0))));
    assert!(matches!(action, AuthAction::ReadUser(4)));
    let (flow, action) = flow.step(AuthEvent::UserLoaded(Some(User::new(4, "eve".into(), "h".into(), 1))));
    assert_eq!(flow.stage(), AuthStage::Finished);
    match action {
        AuthAction::Accept(user) => assert_eq!(user.inner().name(), "eve"),
        other => panic!("{other:?}"),
    }
}

#[test]
fn auth_flow_rejections_redirect_to_login() {
    let encoded = "%2Flist%3Flist_id%3D3".to_string();
    let (_, a) = AuthFlow::start("/list?list_id=3").step(AuthEvent::SessionCookie(None));
    let e = reject(a);
    assert_eq!(e, AuthenticatedUserExtractorError::ExtractingCookieJarFailed(encoded.clone()));
    assert_eq!(e.into_reply(), Reply::Redirect("/auth/login?forward_to=%2Flist%3Flist_id%3D3".into()));

    let (_, a) = AuthFlow::start("/list?list_id=3")
        .step(AuthEvent::SessionCookie(Some(Err(CookieRetrievalError::CookieNotInJar))));
    assert_eq!(reject(a), AuthenticatedUserExtractorError::MissingSessionIDCookie(encoded.clone()));

    let (_, a) = AuthFlow::start("/list?list_id=3")
        .step(AuthEvent::SessionCookie(Some(Ok(CookieValue::FlashMessage("x".into())))));
    assert_eq!(reject(a), AuthenticatedUserExtractorError::HowDidThisHappen(encoded.clone()));

    let (f, _) = AuthFlow::start("/list?list_id=3").step(AuthEvent::SessionCookie(Some(Ok(CookieValue::SessionID(1)))));
    let (_, a) = f.step(AuthEvent::AppState(false));
    assert_eq!(reject(a), AuthenticatedUserExtractorError::AppStateRetrievalFailed(encoded.clone()));

    let (f, _) = AuthFlow::start("/list?list_id=3").step(AuthEvent::SessionCookie(Some(Ok(CookieValue::SessionID(1)))));
    let (f, _) = f.step(AuthEvent::AppState(true));
    let (_, a) = f.step(AuthEvent::SessionLoaded(None));
    assert_eq!(reject(a), AuthenticatedUserExtractorError::ReferencedSessionNotInDB(encoded.clone()));

    let (f, _) = AuthFlow::start("/list?list_id=3").step(AuthEvent::SessionCookie(Some(Ok(CookieValue::SessionID(1)))));
    let (f, _) = f.step(AuthEvent::AppState(true));
    let (f, _) = f.step(AuthEvent::SessionLoaded(Some(Session::new(1, 2, 0))));
    let (_, a) = f.step(AuthEvent::UserLoaded(None));
    assert_eq!(reject(a), AuthenticatedUserExtractorError::ReferencedUserNotInDB(encoded));
}

#[test]
fn unicode_paths_are_percent_encoded() {
    let (_, a) = AuthFlow::start("/ä b").step(AuthEvent::SessionCookie(None));
    assert_eq!(reject(a).into_reply(), Reply::Redirect("/auth/login?forward_to=%2F%C3%A4%20b".into()));
}

fn form(user_id: &str, password: &str, forward_to: &str) -> LoginForm {
    LoginForm { user_id: user_id.into(), password: password.into(), forward_to: forward_to.into() }
}

fn finish(action: LoginAction) -> (Option<String>, String) {
    match action {
        LoginAction::Finish { flash, redirect_to } => (flash, redirect_to),
        other => panic!("expected the end, got {other:?}"),
    }
}

#[test]
fn login_with_a_non_numeric_id() {
    let (flow, action) = LoginFlow::start(form("bob", "pw", "/list?list_id=2"));
    assert_eq!(flow.stage(), LoginStage::Finished);
    assert_eq!(
        finish(action),
        (
            Some("Please enter a numerical user id to log in.".into()),
            "/auth/login?forward_to=%2Flist%3Flist_id%3D2".into()
        )
    );
}

#[test]
fn login_succeeds_and_stores_the_session() {
    let user = User::new(7, "bob".into(), hash_new_password("pw").unwrap(), 1);
    let (flow, action) = LoginFlow::start(form("7", "pw", "/list"));
    assert!(matches!(action, LoginAction::ReadUser(7)));
    let (flow, action) = flow.step(LoginEvent::UserLoaded(Some(user)));
    assert!(matches!(action, LoginAction::CreateSession(7)));
    let (flow, action) = flow.step(LoginEvent::SessionCreated(Some(Session::new(55, 7, 0))));
    match action {
        LoginAction::StoreSessionCookie(v) => assert_eq!(v, CookieValue::SessionID(55)),
        other => panic!("{other:?}"),
    }
    let (flow, action) = flow.step(LoginEvent::CookieStored(Ok(())));
    assert_eq!(flow.stage(), LoginStage::Finished);
    assert_eq!(finish(action), (None, "/list".into()));
}

#[test]
fn login_failures_return_to_login_with_a_message() {
    let back = "/auth/login?forward_to=%2F".to_string();
    let (f, _) = LoginFlow::start(form("7", "pw", "/"));
    let (_, a) = f.step(LoginEvent::UserLoaded(None));
    assert_eq!(finish(a), (Some("The provided user id does not exist.".into()), back.clone()));

    let user = User::new(7, "bob".into(), hash_new_password("right").unwrap(), 1);
    let (f, _) = LoginFlow::start(form("7", "wrong", "/"));
    let (_, a) = f.step(LoginEvent::UserLoaded(Some(user)));
    assert_eq!(finish(a), (Some("The provided password was not correct.".into()), back.clone()));

    let user = User::new(7, "bob".into(), hash_new_password("pw").unwrap(), 1);
    let (f, _) = LoginFlow::start(form("7", "pw", "/"));
    let (f, _) = f.step(LoginEvent::UserLoaded(Some(user)));
    let (_, a) = f.step(LoginEvent::SessionCreated(None));
    assert_eq!(
        finish(a),
        (
            Some("Logging in failed because no session id could be created. Please try again or contact the system administrator.".into()),
            back.clone()
        )
    );

    let user = User::new(7, "bob".into(), hash_new_password("pw").unwrap(), 1);
    let (f, _) = LoginFlow::start(form("7", "pw", "/"));
    let (f, _) = f.step(LoginEvent::UserLoaded(Some(user)));
    let (f, _) = f.step(LoginEvent::SessionCreated(Some(Session::new(1, 7, 0))));
    let (_, a) = f.step(LoginEvent::CookieStored(Err(CookieModificationError::CookieJarPasswordInaccessible)));
    assert_eq!(
        finish(a),
        (Some("Please allow cookies for this domain/website to be able to log in.".into()), back)
    );
}

#[test]
fn login_with_a_broken_stored_hash() {
    let (f, _) = LoginFlow::start(form("7", "pw", "/"));
    let user = User::new(7, "bob".into(), "plain text".into(), 1);
    assert!(f.step_checked(LoginEvent::UserLoaded(Some(user))).is_none());
    let (f, _) = LoginFlow::start(form("7", "pw", "/"));
    let checked = f.step_checked(LoginEvent::UserLoaded(None)).unwrap();
    assert_eq!(finish(checked.1).0, Some("The provided user id does not exist.".into()));
}

#[test]
fn flash_round_trip() {
    let key = Key::generate();
    let jar = Cookies::default();
    let mut flash = Flash::from_jar(Some(jar.clone()), Some(key.clone())).unwrap();
    flash.set("left for later");
    let next = Flash::from_jar(Some(jar.clone()), Some(key.clone())).unwrap();
    assert_eq!(next.get(), Some("left for later".to_string()));
    let message = FlashMessage::from_jar(Some(&jar), Some(&key)).unwrap().unwrap();
    assert_eq!(message.message, "left for later");
}

#[test]
fn flash_without_jar_or_cookie() {
    assert_eq!(
        Flash::from_jar(None, None).unwrap_err(),
        FlashExtractorError::CookieJarExtractorFailed
    );
    let empty = Flash::from_jar(Some(Cookies::default()), Some(Key::generate())).unwrap();
    assert_eq!(empty.get(), None);
    assert!(FlashMessage::from_jar(None, None).unwrap().is_none());
    assert_eq!(
        FlashMessage::from_jar(Some(&Cookies::default()), None).unwrap_err(),
        FlashMessageError::CookieRetrievalError
    );
}

#[test]
fn flash_retrieval_outcomes() {
    let jar = Cookies::default();
    assert_eq!(
        Flash::from_retrieval(Ok(CookieValue::SessionID(1)), jar.clone(), None).unwrap_err(),
        FlashExtractorError::WrongCookieTypeRetrieved
    );
    assert!(FlashMessage::from_retrieval(Ok(CookieValue::SessionID(1))).unwrap().is_none());
    assert!(FlashMessage::from_retrieval(Err(CookieRetrievalError::CookieNotInJar)).unwrap().is_none());
    assert_eq!(
        FlashMessage::from_retrieval(Err(CookieRetrievalError::CookieValueNotParseable)).unwrap_err(),
        FlashMessageError::CookieRetrievalError
    );
}

#[test]
fn flash_message_set_and_errors() {
    let key = Key::generate();
    let mut jar = Cookies::default();
    FlashMessage::new("note".into()).set(&mut jar, Some(&key));
    assert_eq!(
        grocery::cookies::CookieKey::FlashMessage.get(&jar, Some(&key)),
        Ok(CookieValue::FlashMessage("note".into()))
    );
    assert_eq!(FlashMessageError::CookieRetrievalError.message(), "flash message error should never be called in code");
    assert_eq!(
        FlashMessageError::CookieRetrievalError.into_reply(),
        Reply::ServerError("flash messsage error should never be called".into())
    );
    assert_eq!(FlashExtractorError::WrongCookieTypeRetrieved.message(), "could not extract flash");
    assert_eq!(
        FlashExtractorError::CookieJarExtractorFailed.into_reply(),
        Reply::ServerError("flash extraction failed".into())
    );
}

#[test]
fn cookie_set_without_key_is_refused() {
    assert!(set_cookie(CookieValue::SessionID(1), &mut Cookies::default(), None).is_err());
}

#[test]
fn stored_session_cookie_leads_to_its_session() {
    let key = Key::generate();
    let mut jar = Cookies::default();
    set_cookie(Session::new(55, 7, 0).as_cookie_value(), &mut jar, Some(&key)).unwrap();
    let found = grocery::cookies::CookieKey::SessionID.get(&jar, Some(&key));
    let (flow, action) = AuthFlow::start("/").step(AuthEvent::SessionCookie(Some(found)));
    assert!(matches!(action, AuthAction::ExtractAppState));
    let (_, action) = flow.step(AuthEvent::AppState(true));
    assert!(matches!(action, AuthAction::ReadSession(55)));
}

#[test]
fn flows_say_what_they_wait_for() {
    let flow = AuthFlow::start("/");
    assert!(flow.expects(&AuthEvent::SessionCookie(None)));
    assert!(!flow.expects(&AuthEvent::AppState(true)));
    let (flow, _) = flow.step(AuthEvent::SessionCookie(None));
    assert!(!flow.expects(&AuthEvent::UserLoaded(None)));

    let (flow, _) = LoginFlow::start(form("1", "pw", "/"));
    assert!(flow.expects(&LoginEvent::UserLoaded(None)));
    assert!(!flow.expects(&LoginEvent::CookieStored(Ok(()))));
    let (flow, _) = flow.step(LoginEvent::UserLoaded(None));
    assert!(!flow.expects(&LoginEvent::UserLoaded(None)));
}
