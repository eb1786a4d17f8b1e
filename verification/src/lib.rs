//! Authentication and authorization core for a web service: a signed,
//! time-bounded session-token codec, identity resolution against a pluggable
//! user store, and composable request guards that gate access by role.
//!
//! The pipeline for one protected request runs extraction (bearer header
//! first, cookie fallback), token verification, identity resolution and an
//! optional role policy check, and either attaches the resolved identity or
//! short-circuits with a typed denial. The mapping from denials to HTTP
//! statuses and response bodies is a separate pure function in `errors`.

pub mod auth;
pub mod config;
pub mod dtos;
pub mod errors;
pub mod models;
pub mod token;
