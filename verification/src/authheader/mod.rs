//! Errors of reading an `Authorization` header.
pub mod error;

pub use self::error::Error;
