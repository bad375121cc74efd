//! The service's private (encrypted) cookies: what each cookie holds, how it is
//! written into the jar, and how it is read back.
use vstd::prelude::*;
use crate::decimal::{i32_text, int_text, parse_i32, parse_i32_spec};
use tower_cookies::{Cookie, Cookies, Key};

verus! {

#[verifier::external_type_specification]
#[verifier::external_body]
pub struct ExCookies(Cookies);

#[verifier::external_type_specification]
#[verifier::external_body]
pub struct ExKey(Key);

#[verifier::external_type_specification]
#[verifier::external_body]
pub struct ExCookie<'c>(Cookie<'c>);

/// A value the service keeps in a cookie.
#[derive(Debug, PartialEq, Eq)]
pub enum CookieValue {
    /// The id of the logged-in session.
    SessionID(i32),
    /// A one-line message shown on the next page.
    FlashMessage(String),
}

/// Why a cookie could not be written.
#[derive(Debug, Clone, Copy, PartialEq, Eq)]
pub enum CookieModificationError {
    CookieJarPasswordInaccessible,
}

enum CookieModificationKind {
    Store,
    Delete,
}

/// The cookies that can be read back.
#[derive(Debug, Clone, Copy, PartialEq, Eq)]
pub enum CookieKey {
    SessionID,
    FlashMessage,
}

/// Why a cookie could not be read back.
#[derive(Debug, Clone, Copy, PartialEq, Eq)]
pub enum CookieRetrievalError {
    CookieJarPasswordInaccessible,
    CookieNotInJar,
    CookieValueNotParseable,
}

/// The `SameSite` attribute of a cookie.
#[derive(Debug, Clone, Copy, PartialEq, Eq)]
pub enum SameSitePolicy {
    Strict,
    Lax,
    Unrestricted,
}

/// Every attribute of a cookie that the service sends.
#[derive(Debug)]
pub struct CookieSettings {
    pub name: String,
    pub value: String,
    pub domain: String,
    pub path: String,
    pub http_only: bool,
    pub max_age_days: i64,
    pub secure: bool,
    pub same_site: SameSitePolicy,
}

pub open spec fn session_cookie_name() -> Seq<char> {
    seq!['s', 'e', 's', 's', 'i', 'o', 'n', '_', 'i', 'd']
}

pub open spec fn flash_cookie_name() -> Seq<char> {
    seq!['f', 'l', 'a', 's', 'h', '_', 'm', 'e', 's', 's', 'a', 'g', 'e']
}

pub open spec fn cookie_domain() -> Seq<char> {
    seq!['g', 'r', 'o', 'c', 'e', 'r', 'y', '.', 's', 'i', 'r', 'u', '.', 'i', 'n', 'k']
}

impl CookieKey {
    /// The name under which the cookie is stored.
    pub open spec fn name_spec(&self) -> Seq<char> {
        match self {
            CookieKey::SessionID => session_cookie_name(),
            CookieKey::FlashMessage => flash_cookie_name(),
        }
    }

    /// What reading the cookie gives, from the decrypted text that the jar
    /// holds under its name (`None` when there is none).
    pub open spec fn decode_spec(&self, raw: Option<Seq<char>>) -> Result<
        CookieValueView,
        CookieRetrievalError,
    > {
        match raw {
            None => Err(CookieRetrievalError::CookieNotInJar),
            Some(text) => match self {
                CookieKey::SessionID => match parse_i32_spec(text) {
                    Some(id) => Ok(CookieValueView::SessionID(id)),
                    None => Err(CookieRetrievalError::CookieValueNotParseable),
                },
                CookieKey::FlashMessage => Ok(CookieValueView::FlashMessage(text)),
            },
        }
    }

    pub fn get_cookie_name(&self) -> (name: &'static str)
        ensures
            name@ == self.name_spec(),
    {
        match self {
            CookieKey::SessionID => {
                proof { reveal_strlit("session_id"); }
                "session_id"
            },
            CookieKey::FlashMessage => {
                proof { reveal_strlit("flash_message"); }
                "flash_message"
            },
        }
    }

    /// Turns the decrypted text found under the cookie's name into its value.
    pub fn decode(&self, raw: Option<String>) -> (r: Result<CookieValue, CookieRetrievalError>)
        ensures
            view_result(&r) == self.decode_spec(opt_string_view(&raw)),
    {
        match raw {
            None => Err(CookieRetrievalError::CookieNotInJar),
            Some(text) => match self {
                CookieKey::SessionID => match parse_i32(text.as_str()) {
                    Some(id) => Ok(CookieValue::SessionID(id)),
                    None => Err(CookieRetrievalError::CookieValueNotParseable),
                },
                CookieKey::FlashMessage => Ok(CookieValue::FlashMessage(text)),
            },
        }
    }

    /// Reads this cookie from the private jar encrypted with `key`; without
    /// a key nothing can be decrypted. The jar is only read.
    pub fn get(&self, cookie_jar: &Cookies, key: Option<&Key>) -> (r: Result<
        CookieValue,
        CookieRetrievalError,
    >)
        ensures
            key is None ==> r is Err && r->Err_0 == CookieRetrievalError::CookieJarPasswordInaccessible,
            key matches Some(k) ==> view_result(&r) == self.decode_spec(
                jar_value(private_cookies(*cookie_jar, *k), self.name_spec()),
            ),
    {
        match key {
            None => Err(CookieRetrievalError::CookieJarPasswordInaccessible),
            Some(key) => {
                let raw = private_cookie_value(cookie_jar, key, self.get_cookie_name());
                self.decode(raw)
            },
        }
    }
}

/// A cookie value, as the contracts speak of it.
pub enum CookieValueView {
    SessionID(i32),
    FlashMessage(Seq<char>),
}

impl CookieValue {
    pub open spec fn view_spec(&self) -> CookieValueView {
        match self {
            CookieValue::SessionID(id) => CookieValueView::SessionID(*id),
            CookieValue::FlashMessage(m) => CookieValueView::FlashMessage(m@),
        }
    }
}

pub open spec fn view_result(r: &Result<CookieValue, CookieRetrievalError>) -> Result<
    CookieValueView,
    CookieRetrievalError,
> {
    match r {
        Ok(v) => Ok(v.view_spec()),
        Err(e) => Err(*e),
    }
}

pub open spec fn opt_string_view(s: &Option<String>) -> Option<Seq<char>> {
    match s {
        Some(t) => Some(t@),
        None => None,
    }
}

/// What `jar.private(&key).get(name)` gives for each cookie name: the text of
/// the cookie stored under that name, decrypted with `key`, for each name whose
/// cookie is there and authenticates under `key`. A `Cookies` is a handle to a
/// jar that its clones share; the contracts below speak of the handle they are
/// given, and hold while no other handle writes to the same jar in between.
pub uninterp spec fn private_cookies(jar: Cookies, key: Key) -> Map<Seq<char>, Seq<char>>;

/// A cookie as the jar holds it and sends it to the client, by what the
/// getters of `Cookie` give: `value`, `domain`, `path`, `http_only`, `secure`,
/// `same_site`, and `max_age` in whole seconds.
pub struct JarCookie {
    pub value: Seq<char>,
    pub domain: Option<Seq<char>>,
    pub path: Option<Seq<char>>,
    pub http_only: Option<bool>,
    pub secure: Option<bool>,
    pub same_site: Option<SameSitePolicy>,
    pub max_age_seconds: Option<int>,
}

/// What `jar.get(name)` gives for each cookie name: the cookie as the jar
/// holds it, with its raw (for a private cookie, encrypted) value. Like
/// `private_cookies`, this speaks of the handle it is given.
pub uninterp spec fn jar_cookies(jar: Cookies) -> Map<Seq<char>, JarCookie>;

/// What the jar will send to the client: the cookies of `CookieJar::delta()`,
/// by name, each of which becomes a `Set-Cookie` header of the response. A
/// cookie added in this request is there as added; a cookie of the request
/// that was removed is there as a removal cookie.
pub uninterp spec fn jar_delta(jar: Cookies) -> Map<Seq<char>, JarCookie>;

/// The names of the cookies that came with the request: the jar's original
/// cookies, parsed from the request's `Cookie` headers.
pub uninterp spec fn request_cookie_names(jar: Cookies) -> Set<Seq<char>>;

/// `Cookie::domain` gives the domain without one leading dot.
pub open spec fn without_leading_dot(domain: Seq<char>) -> Seq<char> {
    if domain.len() > 0 && domain[0] == '.' {
        domain.drop_first()
    } else {
        domain
    }
}

/// The cookie that `settings` describes, as a private child put it in the
/// jar: every attribute as given, and a value longer than the plain text, for
/// it is the Base64 text of a nonce, the encrypted text and a tag.
pub open spec fn sent_as(cookie: JarCookie, settings: CookieSettings) -> bool {
    &&& cookie.domain == Some(without_leading_dot(settings.domain@))
    &&& cookie.path == Some(settings.path@)
    &&& cookie.http_only == Some(settings.http_only)
    &&& cookie.secure == Some(settings.secure)
    &&& cookie.same_site == Some(settings.same_site)
    &&& cookie.max_age_seconds == Some(settings.max_age_days as int * 86400)
    &&& cookie.value.len() > settings.value@.len()
}

/// The removal cookie that `Cookie::make_removal` makes of the cookie that
/// `settings` describes: an empty value and a Max-Age of 0, for the same
/// domain and path (and with the same flags), so that the browser drops the
/// cookie it holds under that name for that domain and path.
pub open spec fn removal_of(cookie: JarCookie, settings: CookieSettings) -> bool {
    &&& cookie.value == Seq::<char>::empty()
    &&& cookie.max_age_seconds == Some(0int)
    &&& cookie.domain == Some(without_leading_dot(settings.domain@))
    &&& cookie.path == Some(settings.path@)
    &&& cookie.http_only == Some(settings.http_only)
    &&& cookie.secure == Some(settings.secure)
    &&& cookie.same_site == Some(settings.same_site)
}

/// The removal cookie the service sends for one of its cookies: empty, with a
/// Max-Age of 0, for the service's domain and every path.
pub open spec fn service_removal_cookie(cookie: JarCookie) -> bool {
    &&& cookie.value == Seq::<char>::empty()
    &&& cookie.max_age_seconds == Some(0int)
    &&& cookie.domain == Some(cookie_domain())
    &&& cookie.path == Some(seq!['/'])
    &&& cookie.http_only == Some(true)
    &&& cookie.secure == Some(true)
    &&& cookie.same_site == Some(SameSitePolicy::Strict)
}

/// The cookie of the service that holds `value`, as the jar sends it: for the
/// service's domain and every path, HTTP-only, secure, strictly same-site,
/// kept 7 days, and with an encrypted value that is not the plain text.
pub open spec fn sent_as_service_cookie(cookie: JarCookie, value: CookieValue) -> bool {
    &&& cookie.domain == Some(cookie_domain())
    &&& cookie.path == Some(seq!['/'])
    &&& cookie.http_only == Some(true)
    &&& cookie.secure == Some(true)
    &&& cookie.same_site == Some(SameSitePolicy::Strict)
    &&& cookie.max_age_seconds == Some(7 * 86400int)
    &&& cookie.value.len() > value.text_spec().len()
}

/// The text stored under `name`, or `None` when there is none.
pub open spec fn jar_value(contents: Map<Seq<char>, Seq<char>>, name: Seq<char>) -> Option<Seq<char>> {
    if contents.dom().contains(name) {
        Some(contents[name])
    } else {
        None
    }
}

/// `PrivateCookies::get` on the jar's private child for `key`, then the value
/// of the cookie found: the decrypted text stored under `name`, or `None` when
/// there is none or it fails to authenticate.
#[verifier::external_body]
fn private_cookie_value(jar: &Cookies, key: &Key, name: &str) -> (r: Option<String>)
    ensures
        opt_string_view(&r) == jar_value(private_cookies(*jar, *key), name@),
{
    jar.private(key).get(name).map(|c| c.value().to_string())
}

impl CookieValue {
    /// The name of the cookie that holds this value.
    pub open spec fn name_spec(&self) -> Seq<char> {
        match self {
            CookieValue::SessionID(_) => session_cookie_name(),
            CookieValue::FlashMessage(_) => flash_cookie_name(),
        }
    }

    /// The text stored in the cookie: a session id in decimal, a message as it is.
    pub open spec fn text_spec(&self) -> Seq<char> {
        match self {
            CookieValue::SessionID(id) => int_text(*id as int),
            CookieValue::FlashMessage(m) => m@,
        }
    }

    /// The key under which this value is read back.
    pub open spec fn key_spec(&self) -> CookieKey {
        match self {
            CookieValue::SessionID(_) => CookieKey::SessionID,
            CookieValue::FlashMessage(_) => CookieKey::FlashMessage,
        }
    }
}

impl CookieSettings {
    /// The attributes every cookie of the service carries, around a name and a value.
    pub open spec fn is_service_cookie(&self, name: Seq<char>, value: Seq<char>) -> bool {
        &&& self.name@ == name
        &&& self.value@ == value
        &&& self.domain@ == cookie_domain()
        &&& self.path@ == seq!['/']
        &&& self.http_only
        &&& self.max_age_days == 7
        &&& self.secure
        &&& self.same_site == SameSitePolicy::Strict
    }
}

/// The cookie that stores `value`: named after its kind, for the service's
/// domain and every path, HTTP-only, secure, strictly same-site, kept 7 days.
pub fn cookie_settings(value: CookieValue) -> (c: CookieSettings)
    ensures
        c.is_service_cookie(value.name_spec(), value.text_spec()),
{
    let (name, text) = match value {
        CookieValue::SessionID(id) => {
            proof { reveal_strlit("session_id"); }
            (String::from_str("session_id"), i32_text(id))
        },
        CookieValue::FlashMessage(m) => {
            proof { reveal_strlit("flash_message"); }
            (String::from_str("flash_message"), m)
        },
    };
    proof {
        reveal_strlit("grocery.siru.ink");
        reveal_strlit("/");
    }
    let c = CookieSettings {
        name,
        value: text,
        domain: String::from_str("grocery.siru.ink"),
        path: String::from_str("/"),
        http_only: true,
        max_age_days: 7,
        secure: true,
        same_site: SameSitePolicy::Strict,
    };
    assert(c.domain@ =~= cookie_domain());
    assert(c.path@ =~= seq!['/']);
    assert(c.name@ =~= value.name_spec());
    c
}

/// Stores `cookie_type` in the private jar encrypted with `key`: afterwards
/// the jar's private child for `key` holds the value's text under its name.
/// Without a key it fails and the jar is left as it was.
pub fn set_cookie(cookie_type: CookieValue, cookie_jar: &mut Cookies, key: Option<&Key>) -> (r:
    Result<(), CookieModificationError>)
    ensures
        r is Err <==> key is None,
        key is None ==> *final(cookie_jar) == *old(cookie_jar),
        key matches Some(k) ==> private_cookies(*final(cookie_jar), *k) == private_cookies(
            *old(cookie_jar),
            *k,
        ).insert(cookie_type.name_spec(), cookie_type.text_spec()),
        key is Some ==> stored_in_jar(*old(cookie_jar), *final(cookie_jar), cookie_type),
{
    modify_cookie(cookie_type, CookieModificationKind::Store, cookie_jar, key)
}

/// Removes the cookie of `cookie_type`'s kind from the jar, whatever value
/// `cookie_type` carries; when the request carried it, the jar will send the
/// removal cookie for the service's domain and every path. Without a key it
/// fails and the jar is left as it was.
pub fn remove_cookie(cookie_type: CookieValue, cookie_jar: &mut Cookies, key: Option<&Key>) -> (r:
    Result<(), CookieModificationError>)
    ensures
        r is Err <==> key is None,
        key is None ==> *final(cookie_jar) == *old(cookie_jar),
        key matches Some(k) ==> private_cookies(*final(cookie_jar), *k) == private_cookies(
            *old(cookie_jar),
            *k,
        ).remove(cookie_type.name_spec()),
        key is Some ==> removed_from_jar(*old(cookie_jar), *final(cookie_jar), cookie_type.name_spec()),
{
    modify_cookie(cookie_type, CookieModificationKind::Delete, cookie_jar, key)
}

/// The jar `after` is `before` with the service's cookie for `value` put in
/// under its name, as `sent_as_service_cookie` says it is sent; every other
/// cookie is kept.
pub open spec fn stored_in_jar(before: Cookies, after: Cookies, value: CookieValue) -> bool {
    &&& jar_cookies(after) == jar_cookies(before).insert(
        value.name_spec(),
        jar_cookies(after)[value.name_spec()],
    )
    &&& sent_as_service_cookie(jar_cookies(after)[value.name_spec()], value)
    &&& jar_delta(after) == jar_delta(before).insert(value.name_spec(), jar_cookies(after)[value.name_spec()])
    &&& request_cookie_names(after) == request_cookie_names(before)
}

/// The jar `after` is `before` with the cookie named `name` removed: it holds
/// no cookie of that name and keeps every other one; when the request carried
/// such a cookie, the jar will send the service's removal cookie for it (for
/// the service's domain and every path), and otherwise nothing under that name.
pub open spec fn removed_from_jar(before: Cookies, after: Cookies, name: Seq<char>) -> bool {
    &&& jar_cookies(after) == jar_cookies(before).remove(name)
    &&& request_cookie_names(after) == request_cookie_names(before)
    &&& if request_cookie_names(before).contains(name) {
        &&& jar_delta(after) == jar_delta(before).insert(name, jar_delta(after)[name])
        &&& service_removal_cookie(jar_delta(after)[name])
    } else {
        jar_delta(after) == jar_delta(before).remove(name)
    }
}

fn modify_cookie(
    cookie_type: CookieValue,
    modification: CookieModificationKind,
    cookie_jar: &mut Cookies,
    key: Option<&Key>,
) -> (r: Result<(), CookieModificationError>)
    ensures
        r is Err <==> key is None,
        key is None ==> *final(cookie_jar) == *old(cookie_jar),
        key matches Some(k) ==> private_cookies(*final(cookie_jar), *k) == match modification {
            CookieModificationKind::Store => private_cookies(*old(cookie_jar), *k).insert(
                cookie_type.name_spec(),
                cookie_type.text_spec(),
            ),
            CookieModificationKind::Delete => private_cookies(*old(cookie_jar), *k).remove(
                cookie_type.name_spec(),
            ),
        },
        key is Some ==> match modification {
            CookieModificationKind::Store => stored_in_jar(*old(cookie_jar), *final(cookie_jar), cookie_type),
            CookieModificationKind::Delete => removed_from_jar(
                *old(cookie_jar),
                *final(cookie_jar),
                cookie_type.name_spec(),
            ),
        },
{
    let key = match key {
        Some(k) => k,
        None => return Err(CookieModificationError::CookieJarPasswordInaccessible),
    };
    let settings = cookie_settings(cookie_type);
    assert(without_leading_dot(settings.domain@) == cookie_domain());
    match modification {
        CookieModificationKind::Store => add_private_cookie(cookie_jar, key, settings),
        CookieModificationKind::Delete => remove_private_cookie(cookie_jar, key, settings),
    }
    Ok(())
}

/// `Cookie::build` with the builder's `domain`, `path`, `http_only`, `max_age`
/// (`Duration::days`), `secure` and `same_site`: the cookie that `settings`
/// describes. `Duration::days` panics when the days do not fit in an `i64` of
/// seconds, which `requires` leaves out. A cookie is opaque here; the wrappers
/// that put it in a jar say what the jar holds afterwards.
#[verifier::external_body]
fn build_cookie(settings: CookieSettings) -> Cookie<'static>
    requires
        -106751991167300 <= settings.max_age_days <= 106751991167300,
{
    let same_site = match settings.same_site {
        SameSitePolicy::Strict => tower_cookies::cookie::SameSite::Strict,
        SameSitePolicy::Lax => tower_cookies::cookie::SameSite::Lax,
        SameSitePolicy::Unrestricted => tower_cookies::cookie::SameSite::None,
    };
    Cookie::build((settings.name, settings.value)).domain(settings.domain).path(settings.path)
        .http_only(settings.http_only).max_age(
        tower_cookies::cookie::time::Duration::days(settings.max_age_days),
    ).secure(settings.secure).same_site(same_site).build()
}

/// `PrivateCookies::add` on the jar's private child for `key`, of the cookie
/// that `settings` describes: it encrypts the value with `key` and puts the
/// cookie in the jar, replacing one of the same name, so that the private
/// child then decrypts the value under that name and every other name is kept.
/// The cookie in the jar keeps every attribute the builder was given; its
/// value is replaced by the Base64 text of [nonce | encrypted value | tag]
/// (12 and 16 bytes around the value), longer than the plain text.
#[verifier::external_body]
fn add_private_cookie(jar: &mut Cookies, key: &Key, settings: CookieSettings)
    requires
        -106751991167300 <= settings.max_age_days <= 106751991167300,
    ensures
        private_cookies(*final(jar), *key) == private_cookies(*old(jar), *key).insert(
            settings.name@,
            settings.value@,
        ),
        jar_cookies(*final(jar)) == jar_cookies(*old(jar)).insert(
            settings.name@,
            jar_cookies(*final(jar))[settings.name@],
        ),
        sent_as(jar_cookies(*final(jar))[settings.name@], settings),
        jar_delta(*final(jar)) == jar_delta(*old(jar)).insert(
            settings.name@,
            jar_cookies(*final(jar))[settings.name@],
        ),
        request_cookie_names(*final(jar)) == request_cookie_names(*old(jar)),
{
    jar.private(key).add(build_cookie(settings))
}

/// `PrivateCookies::remove` on the jar's private child for `key`, of the
/// cookie that `settings` describes: `CookieJar::remove` drops the cookie of
/// that name (or marks it removed), so no value is found under the name
/// afterwards and every other name is kept. When the request carried a cookie
/// of that name, the jar will send the removal cookie made of the given one
/// (`make_removal`: empty, Max-Age 0, the given domain and path); otherwise it
/// sends nothing under that name.
#[verifier::external_body]
fn remove_private_cookie(jar: &mut Cookies, key: &Key, settings: CookieSettings)
    requires
        -106751991167300 <= settings.max_age_days <= 106751991167300,
    ensures
        private_cookies(*final(jar), *key) == private_cookies(*old(jar), *key).remove(
            settings.name@,
        ),
        jar_cookies(*final(jar)) == jar_cookies(*old(jar)).remove(settings.name@),
        request_cookie_names(*final(jar)) == request_cookie_names(*old(jar)),
        if request_cookie_names(*old(jar)).contains(settings.name@) {
            &&& jar_delta(*final(jar)) == jar_delta(*old(jar)).insert(
                settings.name@,
                jar_delta(*final(jar))[settings.name@],
            )
            &&& removal_of(jar_delta(*final(jar))[settings.name@], settings)
        } else {
            jar_delta(*final(jar)) == jar_delta(*old(jar)).remove(settings.name@)
        },
{
    jar.private(key).remove(build_cookie(settings))
}

impl CookieModificationError {
    /// The text shown for this error.
    pub fn message(&self) -> (m: &'static str)
        ensures
            m@ == "cookie jar decryption key not accessible"@,
    {
        "cookie jar decryption key not accessible"
    }
}

impl CookieRetrievalError {
    /// The text shown for this error.
    pub fn message(&self) -> (m: &'static str)
        ensures
            m@ == match self {
                CookieRetrievalError::CookieJarPasswordInaccessible => "cookie jar decryption key not accessible"@,
                CookieRetrievalError::CookieNotInJar => "requested cookie not found in request/cookie jar"@,
                CookieRetrievalError::CookieValueNotParseable => "cookie value not according to expected data type and content"@,
            },
    {
        match self {
            CookieRetrievalError::CookieJarPasswordInaccessible => "cookie jar decryption key not accessible",
            CookieRetrievalError::CookieNotInJar => "requested cookie not found in request/cookie jar",
            CookieRetrievalError::CookieValueNotParseable => "cookie value not according to expected data type and content",
        }
    }
}

/// Reading back the text that a cookie stores, under the key of its kind,
/// gives the value that was stored.
pub proof fn lemma_cookie_round_trip(value: CookieValue)
    ensures
        value.key_spec().name_spec() == value.name_spec(),
        value.key_spec().decode_spec(Some(value.text_spec())) == Ok::<CookieValueView, CookieRetrievalError>(value.view_spec()),
{
    match value {
        CookieValue::SessionID(id) => {
            crate::decimal::lemma_parse_int_text(id);
        },
        CookieValue::FlashMessage(m) => {},
    }
}

/// A cookie stored in a jar is read back as the value stored, under the key
/// of its kind; storing it leaves what is read under any other name as it was.
pub proof fn lemma_jar_store_then_read(
    contents: Map<Seq<char>, Seq<char>>,
    value: CookieValue,
    other: Seq<char>,
)
    requires
        other != value.name_spec(),
    ensures
        value.key_spec().decode_spec(
            jar_value(contents.insert(value.name_spec(), value.text_spec()), value.key_spec().name_spec()),
        ) == Ok::<CookieValueView, CookieRetrievalError>(value.view_spec()),
        jar_value(contents.insert(value.name_spec(), value.text_spec()), other) == jar_value(contents, other),
{
    lemma_cookie_round_trip(value);
}

/// After a cookie is removed, reading it finds nothing; what is read under any
/// other name is as it was.
pub proof fn lemma_jar_remove_then_read(
    contents: Map<Seq<char>, Seq<char>>,
    removed: CookieValue,
    other: Seq<char>,
)
    requires
        other != removed.name_spec(),
    ensures
        removed.key_spec().decode_spec(
            jar_value(contents.remove(removed.name_spec()), removed.key_spec().name_spec()),
        ) == Err::<CookieValueView, CookieRetrievalError>(CookieRetrievalError::CookieNotInJar),
        jar_value(contents.remove(removed.name_spec()), other) == jar_value(contents, other),
{
    lemma_cookie_round_trip(removed);
}

} // verus!
