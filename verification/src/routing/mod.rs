//! What each request handler decides; the application routes the requests and
//! performs the reads and writes that the decisions ask for.
pub mod auth;
pub mod html_error;
pub mod index;
pub mod item;
pub mod list;
pub mod user;
