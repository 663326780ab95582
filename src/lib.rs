//! A link-shortening service's core: the link record, its validity rules,
//! and the decisions taken when a link is resolved, created, updated,
//! inspected or deleted.
//!
//! Storage, HTTP and JSON are left to the caller: the functions here take
//! what was read (a stored record, the current time, a request's fields) and
//! say what to write back and what to answer.

pub mod auth;
pub mod lifecycle;
pub mod link;
pub mod messages;
pub mod path;
pub mod requests;
pub mod responses;
pub mod target;
