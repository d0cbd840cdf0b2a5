//! Client configuration.
//!
//! Intervals and timeouts are carried as whole milliseconds, so that the
//! contracts can speak about them as plain integers; the runtime that owns
//! the timers turns them into durations at its edge.

use vstd::prelude::*;

use crate::error::Error;

verus! {

/// Default API host.
pub const DEFAULT_API_HOST: &'static str = "https://app.outlit.ai";

/// Default flush interval, in milliseconds.
pub const DEFAULT_FLUSH_INTERVAL_MS: u64 = 10000;

/// Default max batch size.
pub const DEFAULT_MAX_BATCH_SIZE: usize = 100;

/// Default request timeout, in milliseconds.
pub const DEFAULT_TIMEOUT_MS: u64 = 10000;

/// Outlit client configuration.
#[derive(Debug, Clone)]
pub struct Config {
    pub(crate) public_key: String,
    pub(crate) api_host: String,
    pub(crate) flush_interval_ms: u64,
    pub(crate) max_batch_size: usize,
    pub(crate) timeout_ms: u64,
}

impl Config {
    /// The configured public key.
    pub closed spec fn spec_public_key(&self) -> Seq<char> {
        self.public_key@
    }

    /// The configured API host.
    pub closed spec fn spec_api_host(&self) -> Seq<char> {
        self.api_host@
    }

    /// The configured flush interval in milliseconds.
    pub closed spec fn spec_flush_interval_ms(&self) -> u64 {
        self.flush_interval_ms
    }

    /// The configured max batch size.
    pub closed spec fn spec_max_batch_size(&self) -> usize {
        self.max_batch_size
    }

    /// The configured request timeout in milliseconds.
    pub closed spec fn spec_timeout_ms(&self) -> u64 {
        self.timeout_ms
    }

    /// Get the public key.
    pub fn public_key(&self) -> (r: &str)
        ensures
            r@ == self.spec_public_key(),
    {
        self.public_key.as_str()
    }

    /// Get the API host.
    pub fn api_host(&self) -> (r: &str)
        ensures
            r@ == self.spec_api_host(),
    {
        self.api_host.as_str()
    }

    /// Get the flush interval in milliseconds.
    pub fn flush_interval(&self) -> (r: u64)
        ensures
            r == self.spec_flush_interval_ms(),
    {
        self.flush_interval_ms
    }

    /// Get the max batch size.
    pub fn max_batch_size(&self) -> (r: usize)
        ensures
            r == self.spec_max_batch_size(),
    {
        self.max_batch_size
    }

    /// Get the request timeout in milliseconds.
    pub fn timeout(&self) -> (r: u64)
        ensures
            r == self.spec_timeout_ms(),
    {
        self.timeout_ms
    }
}

/// Builder for the Outlit client configuration.
#[derive(Debug)]
pub struct OutlitBuilder {
    public_key: String,
    api_host: Option<String>,
    flush_interval_ms: Option<u64>,
    max_batch_size: Option<usize>,
    timeout_ms: Option<u64>,
}

impl OutlitBuilder {
    /// The public key handed to `new`.
    pub closed spec fn spec_public_key(&self) -> Seq<char> {
        self.public_key@
    }

    /// The API host set so far, if any.
    pub closed spec fn spec_api_host(&self) -> Option<Seq<char>> {
        match self.api_host {
            Some(h) => Some(h@),
            None => None,
        }
    }

    /// The flush interval set so far, if any, in milliseconds.
    pub closed spec fn spec_flush_interval_ms(&self) -> Option<u64> {
        self.flush_interval_ms
    }

    /// The max batch size set so far, if any.
    pub closed spec fn spec_max_batch_size(&self) -> Option<usize> {
        self.max_batch_size
    }

    /// The request timeout set so far, if any, in milliseconds.
    pub closed spec fn spec_timeout_ms(&self) -> Option<u64> {
        self.timeout_ms
    }

    /// Create a new builder with the given public key and nothing else set.
    pub fn new(public_key: String) -> (r: OutlitBuilder)
        ensures
            r.spec_public_key() == public_key@,
            r.spec_api_host() is None,
            r.spec_flush_interval_ms() is None,
            r.spec_max_batch_size() is None,
            r.spec_timeout_ms() is None,
    {
        OutlitBuilder {
            public_key,
            api_host: None,
            flush_interval_ms: None,
            max_batch_size: None,
            timeout_ms: None,
        }
    }

    /// Set the API host.
    pub fn api_host(self, host: String) -> (r: OutlitBuilder)
        ensures
            r.spec_public_key() == self.spec_public_key(),
            r.spec_api_host() == Some(host@),
            r.spec_flush_interval_ms() == self.spec_flush_interval_ms(),
            r.spec_max_batch_size() == self.spec_max_batch_size(),
            r.spec_timeout_ms() == self.spec_timeout_ms(),
    {
        OutlitBuilder { api_host: Some(host), ..self }
    }

    /// Set the flush interval in milliseconds.
    pub fn flush_interval(self, interval_ms: u64) -> (r: OutlitBuilder)
        ensures
            r.spec_public_key() == self.spec_public_key(),
            r.spec_api_host() == self.spec_api_host(),
            r.spec_flush_interval_ms() == Some(interval_ms),
            r.spec_max_batch_size() == self.spec_max_batch_size(),
            r.spec_timeout_ms() == self.spec_timeout_ms(),
    {
        OutlitBuilder { flush_interval_ms: Some(interval_ms), ..self }
    }

    /// Set the max batch size.
    pub fn max_batch_size(self, size: usize) -> (r: OutlitBuilder)
        ensures
            r.spec_public_key() == self.spec_public_key(),
            r.spec_api_host() == self.spec_api_host(),
            r.spec_flush_interval_ms() == self.spec_flush_interval_ms(),
            r.spec_max_batch_size() == Some(size),
            r.spec_timeout_ms() == self.spec_timeout_ms(),
    {
        OutlitBuilder { max_batch_size: Some(size), ..self }
    }

    /// Set the request timeout in milliseconds.
    pub fn timeout(self, timeout_ms: u64) -> (r: OutlitBuilder)
        ensures
            r.spec_public_key() == self.spec_public_key(),
            r.spec_api_host() == self.spec_api_host(),
            r.spec_flush_interval_ms() == self.spec_flush_interval_ms(),
            r.spec_max_batch_size() == self.spec_max_batch_size(),
            r.spec_timeout_ms() == Some(timeout_ms),
    {
        OutlitBuilder { timeout_ms: Some(timeout_ms), ..self }
    }

    /// Build the configuration: rejected iff the public key is empty; every
    /// unset value falls back to its default.
    pub fn build_config(self) -> (r: Result<Config, Error>)
        ensures
            r is Ok <==> self.spec_public_key().len() > 0,
            match r {
                Ok(c) => {
                    &&& c.spec_public_key() == self.spec_public_key()
                    &&& c.spec_api_host() == match self.spec_api_host() {
                        Some(h) => h,
                        None => DEFAULT_API_HOST@,
                    }
                    &&& c.spec_flush_interval_ms() == match self.spec_flush_interval_ms() {
                        Some(i) => i,
                        None => DEFAULT_FLUSH_INTERVAL_MS,
                    }
                    &&& c.spec_max_batch_size() == match self.spec_max_batch_size() {
                        Some(s) => s,
                        None => DEFAULT_MAX_BATCH_SIZE,
                    }
                    &&& c.spec_timeout_ms() == match self.spec_timeout_ms() {
                        Some(t) => t,
                        None => DEFAULT_TIMEOUT_MS,
                    }
                },
                Err(e) => match e {
                    Error::Config(m) => m@ == "public_key cannot be empty"@,
                    _ => false,
                },
            },
    {
        if self.public_key.as_str().is_empty() {
            return Err(Error::Config("public_key cannot be empty".to_owned()));
        }
        let api_host = match self.api_host {
            Some(h) => h,
            None => DEFAULT_API_HOST.to_owned(),
        };
        let flush_interval_ms = match self.flush_interval_ms {
            Some(i) => i,
            None => DEFAULT_FLUSH_INTERVAL_MS,
        };
        let max_batch_size = match self.max_batch_size {
            Some(s) => s,
            None => DEFAULT_MAX_BATCH_SIZE,
        };
        let timeout_ms = match self.timeout_ms {
            Some(t) => t,
            None => DEFAULT_TIMEOUT_MS,
        };
        Ok(Config { public_key: self.public_key, api_host, flush_interval_ms, max_batch_size, timeout_ms })
    }
}

} // verus!
