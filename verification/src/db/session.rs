use vstd::prelude::*;
use crate::cookies::CookieValue;

verus! {

/// A login session. Its start is kept as microseconds since the Unix epoch,
/// the precision of the database's timestamps.
#[derive(Debug)]
pub struct Session {
    id: i32,
    user_id: i32,
    start_micros: i64,
}

pub struct SessionView {
    pub id: i32,
    pub user_id: i32,
    pub start_micros: i64,
}

impl View for Session {
    type V = SessionView;

    closed spec fn view(&self) -> SessionView {
        SessionView { id: self.id, user_id: self.user_id, start_micros: self.start_micros }
    }
}

impl Session {
    pub fn new(id: i32, user_id: i32, start_micros: i64) -> (r: Self)
        ensures
            r@ == (SessionView { id, user_id, start_micros }),
    {
        Session { id, user_id, start_micros }
    }

    /// The cookie value that refers to this session.
    pub fn as_cookie_value(&self) -> (r: CookieValue)
        ensures
            r == CookieValue::SessionID(self@.id),
    {
        CookieValue::SessionID(self.id)
    }

    pub fn id(&self) -> (r: i32)
        ensures
            r == self@.id,
    {
        self.id
    }

    pub fn user_id(&self) -> (r: i32)
        ensures
            r == self@.user_id,
    {
        self.user_id
    }

    pub fn start_micros(&self) -> (r: i64)
        ensures
            r == self@.start_micros,
    {
        self.start_micros
    }
}

} // verus!
