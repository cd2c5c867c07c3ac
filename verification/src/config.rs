use vstd::prelude::*;
use std::time::Duration;
use crate::error::SmuxError;

verus! {

/// Total length of a `Duration` in nanoseconds, as `Duration::as_nanos` gives it.
pub uninterp spec fn duration_nanos(d: Duration) -> u128;

/// Calls `Duration::as_nanos`.
/// Trusted: the result is `duration_nanos` of the duration.
#[verifier::external_body]
pub fn duration_as_nanos(d: &Duration) -> (n: u128)
    ensures
        n == duration_nanos(*d),
{
    d.as_nanos()
}

/// Calls `Duration::from_secs`.
/// Trusted: the duration made from `secs` whole seconds is `secs` times
/// one billion nanoseconds long, as the standard documentation states.
#[verifier::external_body]
pub fn duration_from_secs(secs: u64) -> (d: Duration)
    ensures
        duration_nanos(d) == secs * 1_000_000_000,
{
    Duration::from_secs(secs)
}

/// The largest frame size a configuration may ask for: 16 MiB.
pub const MAX_FRAME_SIZE_LIMIT: usize = 16777216;

/// Tunable parameters of a session.
#[derive(Debug, Clone, Copy)]
pub struct Config {
    pub version: u8,
    pub keep_alive_interval: Duration,
    pub keep_alive_timeout: Duration,
    pub max_frame_size: usize,
    pub max_receive_buffer: usize,
    pub max_receive_channel_buffer_size: usize,
    pub max_stream_buffer: usize,
    pub enable_keep_alive: bool,
}

/// The default parameters: version 1, keep-alive every 10 s with a 30 s
/// timeout, 32 KiB frames, a 4 MiB receive buffer, a channel of 512, a
/// 64 KiB stream buffer, keep-alive on.
pub open spec fn is_default_config(c: Config) -> bool {
    &&& c.version == 1
    &&& duration_nanos(c.keep_alive_interval) == 10_000_000_000
    &&& duration_nanos(c.keep_alive_timeout) == 30_000_000_000
    &&& c.max_frame_size == 32768
    &&& c.max_receive_buffer == 4194304
    &&& c.max_receive_channel_buffer_size == 512
    &&& c.max_stream_buffer == 65536
    &&& c.enable_keep_alive
}

/// The message of the first rule that a configuration breaks, or `None`
/// when it keeps them all. The rules are checked in this order.
pub open spec fn config_violation(c: Config) -> Option<Seq<char>> {
    if c.version == 0 {
        Some("Version cannot be 0"@)
    } else if c.enable_keep_alive
        && duration_nanos(c.keep_alive_timeout) < duration_nanos(c.keep_alive_interval) {
        Some("Keep-alive timeout must not be less than keep-alive interval"@)
    } else if c.max_frame_size == 0 {
        Some("Max frame size cannot be 0"@)
    } else if c.max_frame_size > MAX_FRAME_SIZE_LIMIT {
        Some("Max frame size cannot exceed 16MB"@)
    } else if c.max_receive_buffer < c.max_frame_size {
        Some("Max receive buffer must be at least as large as max frame size"@)
    } else if c.max_stream_buffer == 0 {
        Some("Max stream buffer cannot be 0"@)
    } else {
        None
    }
}

/// A configuration that keeps every rule.
pub open spec fn config_valid(c: Config) -> bool {
    config_violation(c) is None
}

/// The outcome `validate` owes for a configuration.
pub open spec fn validate_outcome(c: Config, r: Result<(), SmuxError>) -> bool {
    match config_violation(c) {
        None => r is Ok,
        Some(msg) => r matches Err(e) && e matches SmuxError::Config(m) && m@ == msg,
    }
}

fn config_error(msg: &str) -> (e: SmuxError)
    ensures
        e matches SmuxError::Config(m) && m@ == msg@,
{
    SmuxError::Config(msg.to_owned())
}

impl Default for Config {
    fn default() -> (c: Config)
        ensures
            is_default_config(c),
    {
        Config {
            version: 1,
            keep_alive_interval: duration_from_secs(10),
            keep_alive_timeout: duration_from_secs(30),
            max_frame_size: 32 * 1024,
            max_receive_buffer: 4 * 1024 * 1024,
            max_receive_channel_buffer_size: 512,
            max_stream_buffer: 64 * 1024,
            enable_keep_alive: true,
        }
    }
}

impl Config {
    /// Checks the configuration against the rules of `config_violation`,
    /// reporting the first rule broken.
    pub fn validate(&self) -> (r: Result<(), SmuxError>)
        ensures
            validate_outcome(*self, r),
    {
        if self.version == 0 {
            return Err(config_error("Version cannot be 0"));
        }
        if self.enable_keep_alive
            && duration_as_nanos(&self.keep_alive_timeout) < duration_as_nanos(
            &self.keep_alive_interval,
        ) {
            return Err(
                config_error("Keep-alive timeout must not be less than keep-alive interval"),
            );
        }
        if self.max_frame_size == 0 {
            return Err(config_error("Max frame size cannot be 0"));
        }
        if self.max_frame_size > 16 * 1024 * 1024 {
            return Err(config_error("Max frame size cannot exceed 16MB"));
        }
        if self.max_receive_buffer < self.max_frame_size {
            return Err(
                config_error("Max receive buffer must be at least as large as max frame size"),
            );
        }
        if self.max_stream_buffer == 0 {
            return Err(config_error("Max stream buffer cannot be 0"));
        }
        Ok(())
    }
}

/// The default configuration keeps every rule.
pub proof fn lemma_default_config_valid(c: Config)
    requires
        is_default_config(c),
    ensures
        config_valid(c),
{
}

/// Builds a `Config` from the defaults, one setting at a time.
pub struct ConfigBuilder {
    config: Config,
}

impl View for ConfigBuilder {
    type V = Config;

    closed spec fn view(&self) -> Config {
        self.config
    }
}

impl ConfigBuilder {
    /// A builder holding the default configuration.
    pub fn new() -> (b: ConfigBuilder)
        ensures
            is_default_config(b@),
    {
        ConfigBuilder { config: Config::default() }
    }

    /// Sets the protocol version, leaving every other setting as it is.
    pub fn version(self, version: u8) -> (b: ConfigBuilder)
        ensures
            b@ == (Config { version, ..self@ }),
    {
        let mut s = self;
        s.config.version = version;
        s
    }

    /// Sets the interval between keep-alive frames, leaving every other setting as it is.
    pub fn keep_alive_interval(self, interval: Duration) -> (b: ConfigBuilder)
        ensures
            b@ == (Config { keep_alive_interval: interval, ..self@ }),
    {
        let mut s = self;
        s.config.keep_alive_interval = interval;
        s
    }

    /// Sets how long without frames before the session is dropped, leaving every other setting as it is.
    pub fn keep_alive_timeout(self, timeout: Duration) -> (b: ConfigBuilder)
        ensures
            b@ == (Config { keep_alive_timeout: timeout, ..self@ }),
    {
        let mut s = self;
        s.config.keep_alive_timeout = timeout;
        s
    }

    /// Sets the largest frame, header included, leaving every other setting as it is.
    pub fn max_frame_size(self, size: usize) -> (b: ConfigBuilder)
        ensures
            b@ == (Config { max_frame_size: size, ..self@ }),
    {
        let mut s = self;
        s.config.max_frame_size = size;
        s
    }

    /// Sets the session receive buffer, leaving every other setting as it is.
    pub fn max_receive_buffer(self, size: usize) -> (b: ConfigBuilder)
        ensures
            b@ == (Config { max_receive_buffer: size, ..self@ }),
    {
        let mut s = self;
        s.config.max_receive_buffer = size;
        s
    }

    /// Sets the capacity of the receive channel, leaving every other setting as it is.
    pub fn max_receive_channel_buffer_size(self, size: usize) -> (b: ConfigBuilder)
        ensures
            b@ == (Config { max_receive_channel_buffer_size: size, ..self@ }),
    {
        let mut s = self;
        s.config.max_receive_channel_buffer_size = size;
        s
    }

    /// Sets the per-stream buffer, leaving every other setting as it is.
    pub fn max_stream_buffer(self, size: usize) -> (b: ConfigBuilder)
        ensures
            b@ == (Config { max_stream_buffer: size, ..self@ }),
    {
        let mut s = self;
        s.config.max_stream_buffer = size;
        s
    }

    /// Sets whether keep-alive frames are sent, leaving every other setting as it is.
    pub fn enable_keep_alive(self, enable: bool) -> (b: ConfigBuilder)
        ensures
            b@ == (Config { enable_keep_alive: enable, ..self@ }),
    {
        let mut s = self;
        s.config.enable_keep_alive = enable;
        s
    }

    /// The configuration built, when it keeps every rule; otherwise the
    /// error of the first rule broken.
    pub fn build(self) -> (r: Result<Config, SmuxError>)
        ensures
            match config_violation(self@) {
                None => r matches Ok(c) && c == self@,
                Some(msg) => r matches Err(e) && e matches SmuxError::Config(m) && m@ == msg,
            },
    {
        match self.config.validate() {
            Ok(()) => Ok(self.config),
            Err(e) => Err(e),
        }
    }
}

impl Default for ConfigBuilder {
    fn default() -> (b: ConfigBuilder)
        ensures
            is_default_config(b@),
    {
        ConfigBuilder::new()
    }
}

} // verus!
