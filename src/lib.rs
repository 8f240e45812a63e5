//! Resource services for scheduled events, media items and participation links:
//! key parsing, payload validation, field-mask updates and the call pipeline
//! that logs and authorizes every call.

pub mod text;
pub mod error;
pub mod keys;
pub mod mask;
pub mod repository;
pub mod concert;
pub mod song;
pub mod participation;
pub mod middleware;
pub mod claims;
