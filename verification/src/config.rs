//! The proxy's configuration: loaded once when the process starts and never
//! changed afterwards.

use vstd::prelude::*;
use vstd::string::StringExecFns;

verus! {

/// The address of the upstream text-to-speech service.
pub const API_URL: &'static str = "https://mumble.stream/speak";

/// The upper bound on the length of a cleaned message, in characters.
pub const MAX_TTS_MESSAGE_LENGTH: usize = 500;

/// What the proxy is started with.
#[derive(Debug, Clone)]
pub struct Config {
    /// The port to run the proxy on.
    pub port: u16,
    /// The address that requests are forwarded to.
    pub api_url: String,
    /// How many requests one client address may make per minute; at least 1.
    pub request_limit_per_minute_per_ip: u32,
    /// How many requests may be forwarded at the same time; at least 1.
    pub max_concurrent_requests: usize,
    /// How often a request is tried before the proxy gives up; at least 1.
    pub retry_attempts: u8,
    /// The longest that one upstream call may take, in seconds.
    pub api_timeout_seconds: u8,
    /// The directory to keep the logs in, if any.
    pub log_directory: Option<String>,
}

impl Config {
    /// A configuration is usable when each of its three quotas is at least 1.
    pub open spec fn wf(&self) -> bool {
        &&& self.request_limit_per_minute_per_ip >= 1
        &&& self.max_concurrent_requests >= 1
        &&& self.retry_attempts >= 1
    }

    /// Tells whether the configuration is usable.
    pub fn is_valid(&self) -> (valid: bool)
        ensures
            valid == self.wf(),
    {
        self.request_limit_per_minute_per_ip >= 1 && self.max_concurrent_requests >= 1
            && self.retry_attempts >= 1
    }
}

impl Default for Config {
    /// Port 3031, the public upstream address, five requests per minute and
    /// client, three concurrent requests, three attempts of at most 180
    /// seconds each, and no log directory.
    fn default() -> (config: Self)
        ensures
            config.port == 3031,
            config.api_url@ == API_URL@,
            config.request_limit_per_minute_per_ip == 5,
            config.max_concurrent_requests == 3,
            config.retry_attempts == 3,
            config.api_timeout_seconds == 180,
            config.log_directory is None,
            config.wf(),
    {
        Config {
            port: 3031,
            api_url: String::from_str(API_URL),
            request_limit_per_minute_per_ip: 5,
            max_concurrent_requests: 3,
            retry_attempts: 3,
            api_timeout_seconds: 180,
            log_directory: None,
        }
    }
}

} // verus!
