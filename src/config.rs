//! The gateway's settings snapshot, loaded once at startup.
use vstd::prelude::*;
use vstd::string::*;

verus! {

pub struct DaemonConfig {
    pub server: ServerConfig,
    pub providers: Vec<OpenAICompatible>,
    pub proxy: ProxyConfig,
}

pub struct ServerConfig {
    pub bind_addr: String,
    pub cors_origins: Option<Vec<String>>,
}

/// A backend: its base URL and the models it serves.
pub struct OpenAICompatible {
    pub base_url: String,
    pub models: Vec<String>,
}

/// Limits applied to every call; an absent limit is not enforced.
pub struct ProxyConfig {
    pub timeout_seconds: Option<u64>,
    pub max_request_size: Option<u64>,
    pub rate_limit: Option<u32>,
}

pub const DEFAULT_TIMEOUT_SECONDS: u64 = 30;

pub const DEFAULT_MAX_REQUEST_SIZE: u64 = 1048576;

pub const DEFAULT_RATE_LIMIT: u32 = 100;

impl Default for DaemonConfig {
    /// Listens on the loopback interface, allows every origin, has no
    /// providers, a 30 s deadline, a 1 MiB body ceiling and 100 calls per
    /// window.
    fn default() -> (r: Self)
        ensures
            r.server.bind_addr@ == "127.0.0.1:3000"@,
            r.server.cors_origins is Some,
            r.server.cors_origins->Some_0@.len() == 1,
            r.server.cors_origins->Some_0@[0]@ == "*"@,
            r.providers@.len() == 0,
            r.proxy.timeout_seconds == Some(DEFAULT_TIMEOUT_SECONDS),
            r.proxy.max_request_size == Some(DEFAULT_MAX_REQUEST_SIZE),
            r.proxy.rate_limit == Some(DEFAULT_RATE_LIMIT),
    {
        let mut origins = Vec::new();
        origins.push(String::from_str("*"));
        DaemonConfig {
            server: ServerConfig {
                bind_addr: String::from_str("127.0.0.1:3000"),
                cors_origins: Some(origins),
            },
            providers: Vec::new(),
            proxy: ProxyConfig {
                timeout_seconds: Some(DEFAULT_TIMEOUT_SECONDS),
                max_request_size: Some(DEFAULT_MAX_REQUEST_SIZE),
                rate_limit: Some(DEFAULT_RATE_LIMIT),
            },
        }
    }
}

} // verus!
