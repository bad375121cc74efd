//! The message of the previous request, and the means to leave one for the next.
use vstd::prelude::*;
use tower_cookies::{Cookies, Key};
use crate::cookies::{
    CookieKey, CookieRetrievalError, CookieValue, flash_cookie_name, jar_value, private_cookies,
    set_cookie,
};
use crate::reply::{Reply, ReplyView};

verus! {

/// The message found in the request, with the jar to store a new one in.
#[derive(Debug)]
pub struct Flash {
    message: Option<String>,
    cookie_jar: Cookies,
    key: Option<Key>,
}

/// Why the message could not be taken from the request.
#[derive(Debug, Clone, Copy, PartialEq, Eq)]
pub enum FlashExtractorError {
    CookieJarExtractorFailed,
    WrongCookieTypeRetrieved,
}

impl Flash {
    pub closed spec fn message_spec(&self) -> Option<Seq<char>> {
        match self.message {
            Some(m) => Some(m@),
            None => None,
        }
    }

    /// The jar a new message is stored in.
    pub closed spec fn jar_spec(&self) -> Cookies {
        self.cookie_jar
    }

    /// The key the jar's private cookies are encrypted with, when there is one.
    pub closed spec fn key_spec(&self) -> Option<Key> {
        self.key
    }

    fn new(message: Option<String>, cookie_jar: Cookies, key: Option<Key>) -> (r: Flash)
        ensures
            r.message_spec() == match message {
                Some(m) => Some(m@),
                None => None::<Seq<char>>,
            },
            r.jar_spec() == cookie_jar,
            r.key_spec() == key,
    {
        Flash { message: message, cookie_jar: cookie_jar, key: key }
    }

    /// Leaves `message` for the next request: with a key, the jar's private
    /// child then holds it under the message cookie's name; without one,
    /// storing fails, which is ignored, and the jar is left as it was.
    pub fn set(&mut self, message: &str)
        ensures
            final(self).message_spec() == old(self).message_spec(),
            final(self).key_spec() == old(self).key_spec(),
            match old(self).key_spec() {
                Some(k) => private_cookies(final(self).jar_spec(), k) == private_cookies(
                    old(self).jar_spec(),
                    k,
                ).insert(flash_cookie_name(), message@),
                None => final(self).jar_spec() == old(self).jar_spec(),
            },
    {
        let _ = set_cookie(
            CookieValue::FlashMessage(String::from_str(message)),
            &mut self.cookie_jar,
            self.key.as_ref(),
        );
    }

    /// The message found in the request.
    pub fn get(self) -> (r: Option<String>)
        ensures
            match r {
                Some(m) => self.message_spec() == Some(m@),
                None => self.message_spec() is None,
            },
    {
        self.message
    }

    /// The flash of a request, from the outcome of reading its message cookie:
    /// no message when reading failed.
    pub fn from_retrieval(
        found: Result<CookieValue, CookieRetrievalError>,
        cookie_jar: Cookies,
        key: Option<Key>,
    ) -> (r: Result<Flash, FlashExtractorError>)
        ensures
            match found {
                Ok(CookieValue::FlashMessage(m)) => r is Ok && r->Ok_0.message_spec() == Some(m@),
                Ok(CookieValue::SessionID(_)) => r == Err::<Flash, FlashExtractorError>(
                    FlashExtractorError::WrongCookieTypeRetrieved,
                ),
                Err(_) => r is Ok && r->Ok_0.message_spec() is None,
            },
            r matches Ok(f) ==> f.jar_spec() == cookie_jar && f.key_spec() == key,
    {
        match found {
            Ok(CookieValue::FlashMessage(message)) => Ok(Flash::new(Some(message), cookie_jar, key)),
            Ok(_) => Err(FlashExtractorError::WrongCookieTypeRetrieved),
            Err(_) => Ok(Flash::new(None, cookie_jar, key)),
        }
    }

    /// The flash of a request, from its cookie jar (`None` when the jar could
    /// not be extracted) and the key its private cookies are encrypted with:
    /// the message the jar's private child holds, which the flash keeps with
    /// the jar and the key.
    pub fn from_jar(cookie_jar: Option<Cookies>, key: Option<Key>) -> (r: Result<
        Flash,
        FlashExtractorError,
    >)
        ensures
            match cookie_jar {
                None => r == Err::<Flash, FlashExtractorError>(
                    FlashExtractorError::CookieJarExtractorFailed,
                ),
                Some(jar) => r matches Ok(f) && f.jar_spec() == jar && f.key_spec() == key
                    && f.message_spec() == match key {
                    Some(k) => jar_value(private_cookies(jar, k), flash_cookie_name()),
                    None => None::<Seq<char>>,
                },
            },
    {
        match cookie_jar {
            None => Err(FlashExtractorError::CookieJarExtractorFailed),
            Some(jar) => {
                let found = CookieKey::FlashMessage.get(&jar, key.as_ref());
                Self::from_retrieval(found, jar, key)
            },
        }
    }
}

impl FlashExtractorError {
    /// The text shown for this error.
    pub fn message(&self) -> (m: &'static str)
        ensures
            m@ == "could not extract flash"@,
    {
        "could not extract flash"
    }

    /// The answer to a request whose flash could not be extracted.
    pub fn into_reply(self) -> (r: Reply)
        ensures
            r@ == ReplyView::ServerError("flash extraction failed"@),
    {
        Reply::ServerError(String::from_str("flash extraction failed"))
    }
}

} // verus!
