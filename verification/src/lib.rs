//! Verified core of a small grocery-list web service: cookies, sessions,
//! configuration, the login flow and the decisions behind every page.
pub mod cookies;
pub mod db;
pub mod decimal;
pub mod env;
pub mod extractor;
pub mod flash;
pub mod json;
pub mod reply;
pub mod row_values;
pub mod routing;
pub mod template;
pub mod url;
