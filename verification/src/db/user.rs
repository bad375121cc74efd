use vstd::prelude::*;
use argon2::password_hash::{PasswordHash, PasswordHasher, PasswordVerifier, SaltString};
use argon2::password_hash::rand_core::OsRng;
use argon2::Argon2;

verus! {

/// A registered user. `password` holds the Argon2 hash of the password as a PHC string.
#[derive(Debug)]
pub struct User {
    id: i32,
    name: String,
    password: String,
    default_list_id: i32,
}

pub struct UserView {
    pub id: i32,
    pub name: Seq<char>,
    pub password: Seq<char>,
    pub default_list_id: i32,
}

impl View for User {
    type V = UserView;

    closed spec fn view(&self) -> UserView {
        UserView {
            id: self.id,
            name: self.name@,
            password: self.password@,
            default_list_id: self.default_list_id,
        }
    }
}

/// Whether a password matched the stored hash.
#[derive(Debug, Clone, Copy, PartialEq, Eq)]
pub enum CheckPasswordResult {
    PasswordCorrect,
    PasswordWrong,
}

/// Whether `PasswordHash::new` accepts `hash` as a PHC string.
pub uninterp spec fn phc_hash_parses(hash: Seq<char>) -> bool;

/// Whether `Argon2::default().verify_password` accepts the UTF-8 bytes of
/// `password` against the parsed PHC string `hash`.
pub uninterp spec fn argon2_accepts(hash: Seq<char>, password: Seq<char>) -> bool;

/// How an Argon2id hash of version 19 begins as a PHC string.
pub open spec fn argon2id_phc_prefix() -> Seq<char> {
    "$argon2id$v=19$"@
}

pub open spec fn has_argon2id_prefix(text: Seq<char>) -> bool {
    argon2id_phc_prefix().is_prefix_of(text)
}

/// A stored hash is never the password it was made from, unless that password
/// itself begins as such a hash does.
pub proof fn lemma_hash_is_not_the_password(hash: Seq<char>, password: Seq<char>)
    requires
        has_argon2id_prefix(hash),
        !has_argon2id_prefix(password),
    ensures
        hash != password,
{
}

/// `PasswordHash::new(hash)`: whether the text parses as a PHC string.
#[verifier::external_body]
fn parse_password_hash(hash: &str) -> (b: bool)
    ensures
        b == phc_hash_parses(hash@),
{
    PasswordHash::new(hash).is_ok()
}

/// `Argon2::default().verify_password` of the password's UTF-8 bytes against
/// the parsed hash: whether it returns `Ok`.
#[verifier::external_body]
fn argon2_verify(hash: &str, password: &str) -> (b: bool)
    requires
        phc_hash_parses(hash@),
    ensures
        b == argon2_accepts(hash@, password@),
{
    match PasswordHash::new(hash) {
        Ok(parsed) => Argon2::default().verify_password(password.as_bytes(), &parsed).is_ok(),
        Err(_) => false,
    }
}

/// `Argon2::default().hash_password` of the password's UTF-8 bytes with a salt
/// from `SaltString::generate(&mut OsRng)`, as a PHC string. The salt is random,
/// so the text is not determined by the password; the crate's documentation
/// shows that such a string parses and verifies the password it was made from.
/// With the default parameters and a generated salt of 16 bytes, the crate's
/// source refuses only a password of more than `MAX_PWD_LEN` (0xFFFF_FFFF) bytes.
/// The default algorithm is Argon2id and the default version 19, which the
/// `Display` of `PasswordHash` writes first: the text begins `$argon2id$v=19$`.
#[verifier::external_body]
fn argon2_hash(password: &str) -> (r: Option<String>)
    ensures
        r matches Some(h) ==> phc_hash_parses(h@) && argon2_accepts(h@, password@)
            && has_argon2id_prefix(h@),
        password.len() <= 0xFFFF_FFFF ==> r is Some,
{
    let salt = SaltString::generate(&mut OsRng);
    Argon2::default().hash_password(password.as_bytes(), &salt).ok().map(|h| h.to_string())
}

/// A fresh Argon2 hash of `password`, to be stored as a user's password:
/// `None` only for a password longer than Argon2 allows (0xFFFF_FFFF bytes).
pub fn hash_new_password(password: &str) -> (r: Option<String>)
    ensures
        r matches Some(h) ==> phc_hash_parses(h@) && argon2_accepts(h@, password@)
            && has_argon2id_prefix(h@),
        password.len() <= 0xFFFF_FFFF ==> r is Some,
{
    argon2_hash(password)
}

impl User {
    pub fn new(id: i32, name: String, password: String, default_list_id: i32) -> (r: Self)
        ensures
            r@ == (UserView { id, name: name@, password: password@, default_list_id }),
    {
        User { id, name, password, default_list_id }
    }

    pub fn get_id(&self) -> (r: i32)
        ensures
            r == self@.id,
    {
        self.id
    }

    pub fn name(&self) -> (r: &str)
        ensures
            r@ == self@.name,
    {
        self.name.as_str()
    }

    pub fn password_hash(&self) -> (r: &str)
        ensures
            r@ == self@.password,
    {
        self.password.as_str()
    }

    pub fn default_list(&self) -> (r: i32)
        ensures
            r == self@.default_list_id,
    {
        self.default_list_id
    }

    /// Whether the stored hash is a PHC string that a password can be checked against.
    pub fn has_valid_password_hash(&self) -> (b: bool)
        ensures
            b == phc_hash_parses(self@.password),
    {
        parse_password_hash(self.password.as_str())
    }

    /// Checks `comparison_password` against the stored hash.
    pub fn check_password(&self, comparison_password: &String) -> (r: CheckPasswordResult)
        requires
            phc_hash_parses(self@.password),
        ensures
            r == (if argon2_accepts(self@.password, comparison_password@) {
                CheckPasswordResult::PasswordCorrect
            } else {
                CheckPasswordResult::PasswordWrong
            }),
    {
        if argon2_verify(self.password.as_str(), comparison_password.as_str()) {
            CheckPasswordResult::PasswordCorrect
        } else {
            CheckPasswordResult::PasswordWrong
        }
    }

    /// Checks `comparison_password` when the stored hash can be parsed, and
    /// gives `None` when it cannot (where `check_password` must not be called).
    pub fn try_check_password(&self, comparison_password: &String) -> (r: Option<
        CheckPasswordResult,
    >)
        ensures
            !phc_hash_parses(self@.password) ==> r is None,
            phc_hash_parses(self@.password) ==> r == Some(
                if argon2_accepts(self@.password, comparison_password@) {
                    CheckPasswordResult::PasswordCorrect
                } else {
                    CheckPasswordResult::PasswordWrong
                },
            ),
    {
        if self.has_valid_password_hash() {
            Some(self.check_password(comparison_password))
        } else {
            None
        }
    }
}

} // verus!
