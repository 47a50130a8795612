//! Identity and access management for the shine authentication service.
pub mod text;
pub mod azure_utils;
pub mod backoff;
pub mod idsequence;
pub mod auth;
pub mod clock;
pub mod encoding;
pub mod authheader;
pub mod bearerauth;
pub mod config;

pub use auth::AuthConfig;
