//! Authentication core of the Elysium backend: signed session credentials,
//! one-time email verification challenges, and the guard that ties a call's
//! metadata to an identity.

pub mod api;
mod clock;
pub mod config;
pub mod email;
pub mod error;
pub mod id;
pub mod named;
pub mod settings;
pub mod templates;
pub mod text;
