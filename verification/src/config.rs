//! Per-connection configuration: concurrency, keep-alive and cancellation
//! tunables, built in a validated builder style.

use vstd::prelude::*;

verus! {

/// Declares `tokio_util::sync::CancellationToken` so the configuration can
/// carry the externally owned cancellation signal; the value is opaque here
/// and only the runtime glue waits on it.
#[verifier::external_type_specification]
#[verifier::external_body]
pub struct ExCancellationToken(tokio_util::sync::CancellationToken);

/// The cancellation signal a token belongs to. Tokens are handles: a token
/// and its clones observe one shared signal, and this name is how the
/// contracts say that two handles are tied to the same signal.
pub uninterp spec fn signal_of(t: tokio_util::sync::CancellationToken) -> int;

/// Relies on `CancellationToken::clone`: the clone shares the token's
/// cancellation state with the original, so cancelling either is observed
/// through both.
pub assume_specification[ <tokio_util::sync::CancellationToken as Clone>::clone ](
    t: &tokio_util::sync::CancellationToken,
) -> (r: tokio_util::sync::CancellationToken)
    ensures
        signal_of(r) == signal_of(*t),
;

/// The duration of a whole number of seconds: the result of
/// `Duration::from_secs`, which depends on its argument alone.
pub uninterp spec fn duration_of_secs(secs: u64) -> core::time::Duration;

/// Relies on `Duration::from_secs`: builds the duration of a whole number of
/// seconds, a pure function of its argument.
pub assume_specification[ core::time::Duration::from_secs ](secs: u64) -> (r: core::time::Duration)
    ensures
        r == duration_of_secs(secs),
;

/// Tunables of one connection's serve loop.
///
/// - `channel_size`: capacity of the session's bounded push queue; at least 1.
/// - `pipeline_size`: how many inbound requests may be dispatched
///   concurrently; at least 1, where 1 means strict sequential processing.
/// - `keep_alive`: whether the idle deadline and the ping probes are active.
/// - `keep_alive_duration`: how long the connection may stay without inbound
///   traffic before it is closed, when `keep_alive` is on.
/// - `ping_interval`: the period of the outbound ping probes, when
///   `keep_alive` is on.
/// - `exit_signal`: an externally owned cooperative cancellation signal; when
///   it fires, the loop ends promptly and successfully.
pub struct StreamServerConfig {
    pub channel_size: usize,
    pub pipeline_size: usize,
    pub keep_alive: bool,
    pub keep_alive_duration: std::time::Duration,
    pub ping_interval: std::time::Duration,
    pub exit_signal: Option<tokio_util::sync::CancellationToken>,
}

/// The resource-safety assumptions the serve loop depends on: a push queue
/// that can hold at least one message, and at least one dispatch slot.
pub open spec fn valid_config(c: StreamServerConfig) -> bool {
    c.channel_size >= 1 && c.pipeline_size >= 1
}

impl Default for StreamServerConfig {
    /// The defaults: a push queue of 8, no pipelining, keep-alive off, a
    /// 60 second idle window, pings every 19 seconds and no external
    /// cancellation signal.
    fn default() -> (c: Self)
        ensures
            c.channel_size == 8,
            c.pipeline_size == 1,
            !c.keep_alive,
            c.keep_alive_duration == duration_of_secs(60),
            c.ping_interval == duration_of_secs(19),
            c.exit_signal is None,
            valid_config(c),
    {
        Self {
            channel_size: 8,
            pipeline_size: 1,
            keep_alive: false,
            keep_alive_duration: std::time::Duration::from_secs(60),
            ping_interval: std::time::Duration::from_secs(19),
            exit_signal: None,
        }
    }
}

impl StreamServerConfig {
    /// Set the capacity of the session's push queue.
    ///
    /// Default is 8. A queue of capacity 0 could never deliver a push
    /// message, so 0 is rejected outright rather than silently accepted.
    pub fn with_channel_size(self, channel_size: usize) -> (c: Self)
        requires
            channel_size >= 1,
        ensures
            c == (StreamServerConfig { channel_size, ..self }),
    {
        Self { channel_size, ..self }
    }

    /// Set the cancellation signal that ends the serve loop cooperatively.
    ///
    /// Default is none, so the loop is never cancelled from outside.
    pub fn with_exit_signal(self, exit_signal: tokio_util::sync::CancellationToken) -> (c: Self)
        ensures
            c == (StreamServerConfig { exit_signal: Some(exit_signal), ..self }),
    {
        Self { exit_signal: Some(exit_signal), ..self }
    }

    /// Set the maximum request pipelining.
    ///
    /// Up to `pipeline_size` inbound requests are dispatched concurrently.
    /// Default is 1, i.e. no pipelining. A limit of 0 could never dispatch
    /// anything, so 0 is rejected outright rather than silently accepted.
    pub fn with_pipeline_size(self, pipeline_size: usize) -> (c: Self)
        requires
            pipeline_size >= 1,
        ensures
            c == (StreamServerConfig { pipeline_size, ..self }),
    {
        Self { pipeline_size, ..self }
    }

    /// Set whether keep-alive (the idle deadline and the ping probes) is
    /// active.
    ///
    /// Default is off.
    pub fn with_keep_alive(self, keep_alive: bool) -> (c: Self)
        ensures
            c == (StreamServerConfig { keep_alive, ..self }),
    {
        Self { keep_alive, ..self }
    }

    /// Set how long after the last received message the connection is
    /// closed, when keep-alive is on.
    ///
    /// Default is 60 seconds.
    pub fn with_keep_alive_duration(self, keep_alive_duration: std::time::Duration) -> (c: Self)
        ensures
            c == (StreamServerConfig { keep_alive_duration, ..self }),
    {
        Self { keep_alive_duration, ..self }
    }

    /// Set the period of the outbound ping probes, when keep-alive is on.
    ///
    /// Default is 19 seconds.
    pub fn with_ping_interval(self, ping_interval: std::time::Duration) -> (c: Self)
        ensures
            c == (StreamServerConfig { ping_interval, ..self }),
    {
        Self { ping_interval, ..self }
    }
}

impl Clone for StreamServerConfig {
    /// The clone carries the same tunables; a cloned cancellation signal
    /// shares its state with the original, so either copy observes the same
    /// cancellation.
    fn clone(&self) -> (c: Self)
        ensures
            c.channel_size == self.channel_size,
            c.pipeline_size == self.pipeline_size,
            c.keep_alive == self.keep_alive,
            c.keep_alive_duration == self.keep_alive_duration,
            c.ping_interval == self.ping_interval,
            self.exit_signal matches Some(t) ==> (c.exit_signal matches Some(u) && signal_of(u)
                == signal_of(t)),
            self.exit_signal is None ==> c.exit_signal is None,
    {
        Self {
            channel_size: self.channel_size,
            pipeline_size: self.pipeline_size,
            keep_alive: self.keep_alive,
            keep_alive_duration: self.keep_alive_duration,
            ping_interval: self.ping_interval,
            exit_signal: match &self.exit_signal {
                Some(t) => Some(t.clone()),
                None => None,
            },
        }
    }
}

} // verus!
