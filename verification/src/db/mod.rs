//! The rows the service keeps in its database, and what the service computes
//! from them. Reading and writing the rows is the application's part.
pub mod item;
pub mod list;
pub mod list_user_map;
pub mod prefill_item;
pub mod roles;
pub mod session;
pub mod user;
pub mod user_creation;
