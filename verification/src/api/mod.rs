//! The operations behind the protected calls.

pub mod auth;
pub mod user;
