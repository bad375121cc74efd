//! A one-off message carried to the next page in a cookie.
use vstd::prelude::*;
use tower_cookies::{Cookies, Key};
use crate::cookies::{
    CookieKey, CookieRetrievalError, CookieValue, flash_cookie_name, jar_value, private_cookies,
    set_cookie,
};
use crate::reply::{Reply, ReplyView};

verus! {

/// A message to show on the next page.
#[derive(Debug)]
pub struct FlashMessage {
    pub message: String,
}

/// Reading the message cookie failed for another reason than its absence.
#[derive(Debug, Clone, Copy, PartialEq, Eq)]
pub enum FlashMessageError {
    CookieRetrievalError,
}

impl FlashMessage {
    pub fn new(message: String) -> (r: FlashMessage)
        ensures
            r.message@ == message@,
    {
        FlashMessage { message: message }
    }

    /// Stores the message in the private jar encrypted with `key`; without a
    /// key storing fails, which is ignored, and the jar is left as it was.
    pub fn set(self, cookie_jar: &mut Cookies, key: Option<&Key>)
        ensures
            match key {
                Some(k) => private_cookies(*final(cookie_jar), *k) == private_cookies(
                    *old(cookie_jar),
                    *k,
                ).insert(flash_cookie_name(), self.message@),
                None => *final(cookie_jar) == *old(cookie_jar),
            },
    {
        let cookie_value = CookieValue::FlashMessage(self.message);
        let _ = set_cookie(cookie_value, cookie_jar, key);
    }

    /// The message, from the outcome of reading the message cookie: none when
    /// the cookie is absent, and an error for any other failure.
    pub fn from_retrieval(found: Result<CookieValue, CookieRetrievalError>) -> (r: Result<
        Option<FlashMessage>,
        FlashMessageError,
    >)
        ensures
            match found {
                Ok(CookieValue::FlashMessage(m)) => r matches Ok(Some(f)) && f.message@ == m@,
                Ok(CookieValue::SessionID(_)) => r matches Ok(None),
                Err(CookieRetrievalError::CookieNotInJar) => r matches Ok(None),
                Err(_) => r == Err::<Option<FlashMessage>, FlashMessageError>(
                    FlashMessageError::CookieRetrievalError,
                ),
            },
    {
        match found {
            Ok(CookieValue::FlashMessage(message)) => Ok(Some(FlashMessage { message: message })),
            Ok(_) => Ok(None),
            Err(CookieRetrievalError::CookieNotInJar) => Ok(None),
            Err(_) => Err(FlashMessageError::CookieRetrievalError),
        }
    }

    /// The message of a request, from its cookie jar (`None` when the jar could
    /// not be extracted, which gives no message): the message the jar's private
    /// child holds, if any.
    pub fn from_jar(cookie_jar: Option<&Cookies>, key: Option<&Key>) -> (r: Result<
        Option<FlashMessage>,
        FlashMessageError,
    >)
        ensures
            match cookie_jar {
                None => r matches Ok(None),
                Some(jar) => match key {
                    None => r == Err::<Option<FlashMessage>, FlashMessageError>(
                        FlashMessageError::CookieRetrievalError,
                    ),
                    Some(k) => match jar_value(private_cookies(*jar, *k), flash_cookie_name()) {
                        Some(m) => r matches Ok(Some(f)) && f.message@ == m,
                        None => r matches Ok(None),
                    },
                },
            },
    {
        match cookie_jar {
            None => Ok(None),
            Some(jar) => Self::from_retrieval(CookieKey::FlashMessage.get(jar, key)),
        }
    }
}

impl FlashMessageError {
    /// The text shown for this error.
    pub fn message(&self) -> (m: &'static str)
        ensures
            m@ == "flash message error should never be called in code"@,
    {
        "flash message error should never be called in code"
    }

    /// The answer to a request whose message could not be read.
    pub fn into_reply(self) -> (r: Reply)
        ensures
            r@ == ReplyView::ServerError("flash messsage error should never be called"@),
    {
        Reply::ServerError(String::from_str("flash messsage error should never be called"))
    }
}

} // verus!
