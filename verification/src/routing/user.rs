//! Registering a new user.
use vstd::prelude::*;
use tera::Tera;
use crate::decimal::{int_text, push_i32_text};
use crate::cookies::{flash_cookie_name, private_cookies};
use crate::extractor::flash::Flash;
use crate::reply::{Reply, ReplyView};
use crate::template::{InternalServerErrorPage, SignUpPage, error_page_reply, signup_page_reply};

verus! {

/// The registration page.
pub fn get_signup(templates: &Tera) -> (r: Reply)
    ensures
        signup_page_reply(*templates, r@),
{
    SignUpPage::new(templates).render()
}

/// The registration form as submitted.
#[derive(Debug)]
pub struct SignUpForm {
    pub username: String,
    pub password: String,
}

/// The message that tells a new user their id.
pub open spec fn signup_message_spec(user_id: i32) -> Seq<char> {
    "Your user id is: "@ + int_text(user_id as int) + ". Use this id to log in."@
}

pub fn signup_message(user_id: i32) -> (r: String)
    ensures
        r@ == signup_message_spec(user_id),
{
    let mut message = String::from_str("Your user id is: ");
    push_i32_text(&mut message, user_id);
    message.append(". Use this id to log in.");
    message
}

/// The answer once the user was created (`None` when creating failed): their
/// id is left in `flash` as the message of the login page, which is where this
/// goes; when creating failed, the error page, and `flash` is left as it was.
pub fn signed_up_reply(templates: &Tera, created: Option<i32>, flash: &mut Flash) -> (r: Reply)
    ensures
        match created {
            Some(user_id) => {
                &&& r@ == ReplyView::Redirect("/auth/login"@)
                &&& final(flash).message_spec() == old(flash).message_spec()
                &&& final(flash).key_spec() == old(flash).key_spec()
                &&& match old(flash).key_spec() {
                    Some(k) => private_cookies(final(flash).jar_spec(), k) == private_cookies(
                        old(flash).jar_spec(),
                        k,
                    ).insert(flash_cookie_name(), signup_message_spec(user_id)),
                    None => final(flash).jar_spec() == old(flash).jar_spec(),
                }
            },
            None => error_page_reply(*templates, r@) && *final(flash) == *old(flash),
        },
{
    match created {
        Some(user_id) => {
            flash.set(signup_message(user_id).as_str());
            Reply::Redirect(String::from_str("/auth/login"))
        },
        None => InternalServerErrorPage::new(templates).render(),
    }
}

} // verus!
