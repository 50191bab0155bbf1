//! Process configuration values.
//!
//! The values themselves; reading them from the environment happens at
//! the process edge.

use vstd::prelude::*;
use vstd::string::StringExecFns;
use crate::text::{dec_digits, u64_to_string};

verus! {

/// Where the HTTP listener binds.
#[derive(Debug)]
pub struct HttpConfig {
    pub host: String,
    pub port: u16,
}

impl HttpConfig {
    /// The bind address: `host:port`.
    pub fn url(&self) -> (r: String)
        ensures
            r@ == self.host@ + ":"@ + dec_digits(self.port as nat),
    {
        let mut s = self.host.clone();
        s.append(":");
        let digits = u64_to_string(self.port as u64);
        s.append(digits.as_str());
        s
    }
}

/// The whole process configuration.
#[derive(Debug)]
pub struct AppConfig {
    pub http: HttpConfig,
}

} // verus!
