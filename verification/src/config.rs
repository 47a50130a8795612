//! The service configuration.
use vstd::prelude::*;
use crate::auth::AuthConfig;
use crate::text::{push_decimal, push_str, spec_decimal, string_from_chars};

verus! {

/// Configuration of the service: where it listens and the authentication
/// settings.
#[derive(Clone, Debug)]
pub struct Config {
    pub bind_host: String,
    pub bind_port: u16,
    pub worker_count: usize,
    pub auth: AuthConfig,
}

impl Config {
    /// The `host:port` address the service binds to.
    pub fn get_bind_address(&self) -> (r: String)
        ensures
            r@ == self.bind_host@ + ":"@ + spec_decimal(self.bind_port as nat),
    {
        let mut v: Vec<char> = Vec::new();
        push_str(&mut v, self.bind_host.as_str());
        push_str(&mut v, ":");
        push_decimal(&mut v, self.bind_port as u64);
        string_from_chars(&v)
    }
}

} // verus!
