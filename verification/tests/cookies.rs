use grocery::cookies::{
    cookie_settings, remove_cookie, set_cookie, CookieKey, CookieModificationError,
    CookieRetrievalError, CookieValue, SameSitePolicy,
};
use tower_cookies::{Cookies, Key};

#[test]
fn session_cookie_settings() {
    let c = cookie_settings(CookieValue::SessionID(42));
    assert_eq!(c.name, "session_id");
    assert_eq!(c.value, "42");
    assert_eq!(c.domain, "grocery.siru.ink");
    assert_eq!(c.path, "/");
    assert!(c.http_only);
    assert!(c.secure);
    assert_eq!(c.max_age_days, 7);
    assert_eq!(c.same_site, SameSitePolicy::Strict);
}

#[test]
fn flash_cookie_settings() {
    let c = cookie_settings(CookieValue::FlashMessage("hello there".to_string()));
    assert_eq!(c.name, "flash_message");
    assert_eq!(c.value, "hello there");
}

#[test]
fn cookie_names() {
    assert_eq!(CookieKey::SessionID.get_cookie_name(), "session_id");
    assert_eq!(CookieKey::FlashMessage.get_cookie_name(), "flash_message");
}

#[test]
fn session_cookie_read_back_after_write() {
    let key = Key::generate();
    let mut jar = Cookies::default();
    assert_eq!(set_cookie(CookieValue::SessionID(-31), &mut jar, Some(&key)), Ok(()));
    assert_eq!(CookieKey::SessionID.get(&jar, Some(&key)), Ok(CookieValue::SessionID(-31)));
}

#[test]
fn flash_cookie_read_back_after_write() {
    let key = Key::generate();
    let mut jar = Cookies::default();
    set_cookie(CookieValue::FlashMessage("see you".to_string()), &mut jar, Some(&key)).unwrap();
    assert_eq!(
        CookieKey::FlashMessage.get(&jar, Some(&key)),
        Ok(CookieValue::FlashMessage("see you".to_string()))
    );
}

#[test]
fn private_cookie_is_encrypted_in_the_jar() {
    let key = Key::generate();
    let mut jar = Cookies::default();
    set_cookie(CookieValue::SessionID(5), &mut jar, Some(&key)).unwrap();
    let raw = jar.get("session_id").unwrap();
    assert_ne!(raw.value(), "5");
    let other = Key::generate();
    assert_eq!(
        CookieKey::SessionID.get(&jar, Some(&other)),
        Err(CookieRetrievalError::CookieNotInJar)
    );
}

#[test]
fn removed_cookie_is_gone() {
    let key = Key::generate();
    let mut jar = Cookies::default();
    set_cookie(CookieValue::SessionID(9), &mut jar, Some(&key)).unwrap();
    assert_eq!(remove_cookie(CookieValue::SessionID(0), &mut jar, Some(&key)), Ok(()));
    assert_eq!(
        CookieKey::SessionID.get(&jar, Some(&key)),
        Err(CookieRetrievalError::CookieNotInJar)
    );
}

#[test]
fn no_key_no_cookie() {
    let mut jar = Cookies::default();
    assert_eq!(
        set_cookie(CookieValue::SessionID(1), &mut jar, None),
        Err(CookieModificationError::CookieJarPasswordInaccessible)
    );
    assert_eq!(
        remove_cookie(CookieValue::SessionID(1), &mut jar, None),
        Err(CookieModificationError::CookieJarPasswordInaccessible)
    );
    assert_eq!(
        CookieKey::SessionID.get(&jar, None),
        Err(CookieRetrievalError::CookieJarPasswordInaccessible)
    );
}

#[test]
fn absent_cookie() {
    let key = Key::generate();
    assert_eq!(
        CookieKey::FlashMessage.get(&Cookies::default(), Some(&key)),
        Err(CookieRetrievalError::CookieNotInJar)
    );
}

#[test]
fn decode_texts() {
    assert_eq!(CookieKey::SessionID.decode(None), Err(CookieRetrievalError::CookieNotInJar));
    assert_eq!(
        CookieKey::SessionID.decode(Some("abc".to_string())),
        Err(CookieRetrievalError::CookieValueNotParseable)
    );
    assert_eq!(CookieKey::SessionID.decode(Some("17".to_string())), Ok(CookieValue::SessionID(17)));
    assert_eq!(
        CookieKey::FlashMessage.decode(Some("17".to_string())),
        Ok(CookieValue::FlashMessage("17".to_string()))
    );
}

#[test]
fn error_messages() {
    assert_eq!(
        CookieModificationError::CookieJarPasswordInaccessible.message(),
        "cookie jar decryption key not accessible"
    );
    assert_eq!(
        CookieRetrievalError::CookieJarPasswordInaccessible.message(),
        "cookie jar decryption key not accessible"
    );
    assert_eq!(
        CookieRetrievalError::CookieNotInJar.message(),
        "requested cookie not found in request/cookie jar"
    );
    assert_eq!(
        CookieRetrievalError::CookieValueNotParseable.message(),
        "cookie value not according to expected data type and content"
    );
}

#[test]
fn storing_one_cookie_keeps_the_other() {
    let key = Key::generate();
    let mut jar = Cookies::default();
    set_cookie(CookieValue::SessionID(12), &mut jar, Some(&key)).unwrap();
    set_cookie(CookieValue::FlashMessage("hi".to_string()), &mut jar, Some(&key)).unwrap();
    assert_eq!(CookieKey::SessionID.get(&jar, Some(&key)), Ok(CookieValue::SessionID(12)));
    remove_cookie(CookieValue::FlashMessage(String::new()), &mut jar, Some(&key)).unwrap();
    assert_eq!(CookieKey::FlashMessage.get(&jar, Some(&key)), Err(CookieRetrievalError::CookieNotInJar));
    assert_eq!(CookieKey::SessionID.get(&jar, Some(&key)), Ok(CookieValue::SessionID(12)));
    set_cookie(CookieValue::SessionID(i32::MIN), &mut jar, Some(&key)).unwrap();
    assert_eq!(CookieKey::SessionID.get(&jar, Some(&key)), Ok(CookieValue::SessionID(i32::MIN)));
}

#[test]
fn failed_store_leaves_the_jar() {
    let key = Key::generate();
    let mut jar = Cookies::default();
    set_cookie(CookieValue::SessionID(4), &mut jar, Some(&key)).unwrap();
    assert!(remove_cookie(CookieValue::SessionID(4), &mut jar, None).is_err());
    assert!(set_cookie(CookieValue::SessionID(8), &mut jar, None).is_err());
    assert_eq!(CookieKey::SessionID.get(&jar, Some(&key)), Ok(CookieValue::SessionID(4)));
}

#[test]
fn stored_cookie_carries_every_attribute() {
    let key = Key::generate();
    let mut jar = Cookies::default();
    set_cookie(CookieValue::SessionID(42), &mut jar, Some(&key)).unwrap();
    let raw = jar.get("session_id").unwrap();
    assert_eq!(raw.domain(), Some("grocery.siru.ink"));
    assert_eq!(raw.path(), Some("/"));
    assert_eq!(raw.http_only(), Some(true));
    assert_eq!(raw.secure(), Some(true));
    assert_eq!(raw.same_site(), Some(tower_cookies::cookie::SameSite::Strict));
    assert_eq!(raw.max_age().map(|d| d.whole_seconds()), Some(7 * 86400));
    assert!(raw.value().len() > "42".len());
    remove_cookie(CookieValue::SessionID(0), &mut jar, Some(&key)).unwrap();
    assert!(jar.get("session_id").is_none());
}
