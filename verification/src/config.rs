//! Validated configuration for the broker adapters, together with its
//! builder.
//!
//! Every field carries the meaning given to it by the connection builder
//! (see [`crate::builder`]): timeouts are in milliseconds, the maximum
//! message size is in bytes, and the reconnect budget counts the *extra*
//! connection attempts beyond the first.
use vstd::prelude::*;

verus! {

/// Default single-message byte cap: 30 MiB.
pub const DEFAULT_KAFKA_MESSAGE_SIZE: u32 = 30 * 1048576;

/// Strategy applied when no valid consumer offset exists.
#[derive(Debug, Clone, Copy, PartialEq, Eq, Structural)]
pub enum AutoOffsetReset {
    /// No specific reset strategy is defined.
    Unset,
    /// Always start from the latest message.
    Latest,
    /// Always start from the earliest available message.
    Earliest,
}

impl Default for AutoOffsetReset {
    fn default() -> (r: Self)
        ensures
            r is Earliest,
    {
        AutoOffsetReset::Earliest
    }
}

/// Verbosity passed through to the underlying broker client, ordered from
/// most severe to most verbose.
#[derive(Debug, Clone, Copy, PartialEq, Eq, Structural)]
pub enum KafkaLogLevel {
    /// Critical log level.
    Critical,
    /// Error log level.
    Error,
    /// Warning log level.
    Warning,
    /// Info log level.
    Info,
    /// Debug log level.
    Debug,
}

impl Default for KafkaLogLevel {
    fn default() -> (r: Self)
        ensures
            r is Error,
    {
        KafkaLogLevel::Error
    }
}

/// A validated configuration.  Optional timeouts are positive when present
/// (see [`Config::wf`]); an absent optional field leaves the underlying
/// client's own default in force.
#[derive(Debug, Clone)]
pub struct Config {
    /// Broker addresses (`host:port`), joined comma-separated for the client.
    pub brokers: Vec<String>,
    /// Consumer group id, passed through verbatim.
    pub group_id: String,
    /// Optional topic name recorded alongside the configuration.
    pub topic: Option<String>,
    /// When set, signals end-of-partition as a distinct event.
    pub partition_eof: Option<bool>,
    /// Consumer liveness timeout in milliseconds; positive when present.
    pub session_timeout: Option<u32>,
    /// Producer delivery timeout in milliseconds; positive when present.
    pub message_timeout_ms: Option<u32>,
    /// Single-message byte cap; also derives the buffering budget in KB.
    pub max_message_size: Option<u32>,
    /// Consumer offset auto-commit.
    pub auto_commit: Option<bool>,
    /// Behavior when no valid offset exists.
    pub auto_offset_reset: AutoOffsetReset,
    /// Reconnect budget: number of extra attempts beyond the first.
    pub reconnect_count: u32,
    /// Verbosity passed through to the underlying client.
    pub log_level: KafkaLogLevel,
    /// Delay between reconnect attempts in milliseconds; advisory, not
    /// enforced by the state machine itself.
    pub reconnect_sleep_ms: u32,
}

impl Config {
    /// Well-formedness: optional timeouts are positive when present.
    pub open spec fn wf(&self) -> bool {
        &&& (self.session_timeout matches Some(t) ==> t > 0)
        &&& (self.message_timeout_ms matches Some(t) ==> t > 0)
    }

    /// Default delay between reconnect attempts: 500 ms.
    pub fn default_reconnect_sleep_ms() -> (r: u32)
        ensures
            r == 500,
    {
        500
    }

    /// By default no session timeout is set: the client default governs.
    pub fn default_session_timeout_ms() -> (r: Option<u32>)
        ensures
            r is None,
    {
        None
    }

    /// Default producer delivery timeout: 500 ms.
    pub fn default_message_timeout_ms() -> (r: Option<u32>)
        ensures
            r == Some(500u32),
    {
        Some(500)
    }

    /// By default auto-commit is not set: the client default governs.
    pub fn default_auto_commit() -> (r: Option<bool>)
        ensures
            r is None,
    {
        None
    }

    /// Default single-message byte cap: 30 MiB.
    pub fn default_max_message_size() -> (r: Option<u32>)
        ensures
            r == Some(DEFAULT_KAFKA_MESSAGE_SIZE),
    {
        Some(DEFAULT_KAFKA_MESSAGE_SIZE)
    }

    /// Default reconnect budget: 100 extra attempts beyond the first.
    pub fn default_reconnect_try_count() -> (r: u32)
        ensures
            r == 100,
    {
        100
    }

    /// Default verbosity: errors only.
    pub fn default_log_level() -> (r: KafkaLogLevel)
        ensures
            r is Error,
    {
        KafkaLogLevel::Error
    }

    /// A fresh builder holding the defaults.
    pub fn builder() -> (r: ConfigBuilder)
        ensures
            r.is_init(),
    {
        ConfigBuilder::new()
    }
}

impl Default for Config {
    fn default() -> (r: Self)
        ensures
            r.brokers@ == Seq::<String>::empty(),
            r.group_id@ == Seq::<char>::empty(),
            r.topic is None,
            r.partition_eof is None,
            r.session_timeout is None,
            r.message_timeout_ms == Some(500u32),
            r.max_message_size == Some(DEFAULT_KAFKA_MESSAGE_SIZE),
            r.auto_commit is None,
            r.auto_offset_reset is Earliest,
            r.reconnect_count == 100,
            r.log_level is Error,
            r.reconnect_sleep_ms == 500,
            r.wf(),
    {
        Config {
            brokers: Vec::new(),
            group_id: String::new(),
            topic: None,
            partition_eof: None,
            session_timeout: Config::default_session_timeout_ms(),
            message_timeout_ms: Config::default_message_timeout_ms(),
            max_message_size: Config::default_max_message_size(),
            auto_commit: Config::default_auto_commit(),
            auto_offset_reset: AutoOffsetReset::Earliest,
            reconnect_count: Config::default_reconnect_try_count(),
            log_level: Config::default_log_level(),
            reconnect_sleep_ms: Config::default_reconnect_sleep_ms(),
        }
    }
}

/// Step-by-step construction of a [`Config`]; starts from the defaults.
#[derive(Debug, Clone)]
pub struct ConfigBuilder {
    pub brokers: Vec<String>,
    pub group_id: Option<String>,
    pub topic: Option<String>,
    pub partition_eof: Option<bool>,
    pub session_timeout: Option<u32>,
    pub message_timeout_ms: Option<u32>,
    pub max_message_size: Option<u32>,
    pub auto_commit: Option<bool>,
    pub auto_offset_reset: AutoOffsetReset,
    pub reconnect_count: u32,
    pub reconnect_sleep_ms: u32,
    pub log_level: KafkaLogLevel,
}

impl ConfigBuilder {
    /// The builder state holding every default.
    pub open spec fn is_init(&self) -> bool {
        &&& self.brokers@ == Seq::<String>::empty()
        &&& self.group_id is None
        &&& self.topic is None
        &&& self.partition_eof is None
        &&& self.session_timeout is None
        &&& self.message_timeout_ms == Some(500u32)
        &&& self.max_message_size == Some(DEFAULT_KAFKA_MESSAGE_SIZE)
        &&& self.auto_commit is None
        &&& self.auto_offset_reset is Earliest
        &&& self.reconnect_count == 100u32
        &&& self.reconnect_sleep_ms == 500u32
        &&& self.log_level is Error
    }

    /// Well-formedness: optional timeouts are positive when present.
    pub open spec fn wf(&self) -> bool {
        &&& (self.session_timeout matches Some(t) ==> t > 0)
        &&& (self.message_timeout_ms matches Some(t) ==> t > 0)
    }

    pub fn new() -> (r: Self)
        ensures
            r.is_init(),
    {
        ConfigBuilder {
            brokers: Vec::new(),
            group_id: None,
            topic: None,
            partition_eof: None,
            session_timeout: Config::default_session_timeout_ms(),
            message_timeout_ms: Config::default_message_timeout_ms(),
            max_message_size: Config::default_max_message_size(),
            auto_commit: Config::default_auto_commit(),
            auto_offset_reset: AutoOffsetReset::Earliest,
            reconnect_count: Config::default_reconnect_try_count(),
            log_level: Config::default_log_level(),
            reconnect_sleep_ms: Config::default_reconnect_sleep_ms(),
        }
    }

    /// Replaces the list of broker addresses.
    pub fn brokers(self, brokers: Vec<String>) -> (r: Self)
        ensures
            r == (ConfigBuilder { brokers, ..self }),
    {
        ConfigBuilder { brokers, ..self }
    }

    /// Appends one broker address to the list.
    pub fn add_broker(self, broker: String) -> (r: Self)
        ensures
            r.brokers@ == self.brokers@.push(broker),
            r == (ConfigBuilder { brokers: r.brokers, ..self }),
    {
        let mut brokers = self.brokers;
        brokers.push(broker);
        ConfigBuilder { brokers, ..self }
    }

    /// Sets the consumer group id.
    pub fn group_id(self, group_id: String) -> (r: Self)
        ensures
            r == (ConfigBuilder { group_id: Some(group_id), ..self }),
    {
        ConfigBuilder { group_id: Some(group_id), ..self }
    }

    /// Sets the topic name.
    pub fn topic(self, topic: String) -> (r: Self)
        ensures
            r == (ConfigBuilder { topic: Some(topic), ..self }),
    {
        ConfigBuilder { topic: Some(topic), ..self }
    }

    /// Sets the end-of-partition signalling flag.
    pub fn partition_eof(self, partition_eof: bool) -> (r: Self)
        ensures
            r == (ConfigBuilder { partition_eof: Some(partition_eof), ..self }),
    {
        ConfigBuilder { partition_eof: Some(partition_eof), ..self }
    }

    /// Sets the session timeout in milliseconds; zero is rejected before the
    /// call.
    pub fn session_timeout(self, session_timeout: u32) -> (r: Self)
        requires
            session_timeout > 0,
        ensures
            r == (ConfigBuilder { session_timeout: Some(session_timeout), ..self }),
    {
        ConfigBuilder { session_timeout: Some(session_timeout), ..self }
    }

    /// Sets the producer delivery timeout in milliseconds; zero is rejected
    /// before the call.
    pub fn message_timeout_ms(self, message_timeout_ms: u32) -> (r: Self)
        requires
            message_timeout_ms > 0,
        ensures
            r == (ConfigBuilder { message_timeout_ms: Some(message_timeout_ms), ..self }),
    {
        ConfigBuilder { message_timeout_ms: Some(message_timeout_ms), ..self }
    }

    /// Sets the single-message byte cap.
    pub fn max_message_size(self, max_message_size: u32) -> (r: Self)
        ensures
            r == (ConfigBuilder { max_message_size: Some(max_message_size), ..self }),
    {
        ConfigBuilder { max_message_size: Some(max_message_size), ..self }
    }

    /// Sets consumer offset auto-commit.
    pub fn auto_commit(self, auto_commit: bool) -> (r: Self)
        ensures
            r == (ConfigBuilder { auto_commit: Some(auto_commit), ..self }),
    {
        ConfigBuilder { auto_commit: Some(auto_commit), ..self }
    }

    /// Sets the strategy applied when no valid offset exists.
    pub fn auto_offset_reset(self, auto_offset_reset: AutoOffsetReset) -> (r: Self)
        ensures
            r == (ConfigBuilder { auto_offset_reset, ..self }),
    {
        ConfigBuilder { auto_offset_reset, ..self }
    }

    /// Sets the reconnect budget: the number of extra connection attempts
    /// beyond the first.
    pub fn reconnect_count(self, reconnect_count: u32) -> (r: Self)
        ensures
            r == (ConfigBuilder { reconnect_count, ..self }),
    {
        ConfigBuilder { reconnect_count, ..self }
    }

    /// Sets the delay between reconnect attempts in milliseconds.
    pub fn reconnect_sleep_ms(self, reconnect_sleep_ms: u32) -> (r: Self)
        ensures
            r == (ConfigBuilder { reconnect_sleep_ms, ..self }),
    {
        ConfigBuilder { reconnect_sleep_ms, ..self }
    }

    /// Sets the verbosity passed through to the underlying client.
    pub fn log_level(self, log_level: KafkaLogLevel) -> (r: Self)
        ensures
            r == (ConfigBuilder { log_level, ..self }),
    {
        ConfigBuilder { log_level, ..self }
    }

    /// Finishes the construction.  An unset group id becomes the empty
    /// string; every other field is taken over unchanged.
    pub fn build(self) -> (r: Config)
        ensures
            r.brokers == self.brokers,
            r.group_id@ == (match self.group_id {
                Some(g) => g@,
                None => Seq::<char>::empty(),
            }),
            r.topic == self.topic,
            r.partition_eof == self.partition_eof,
            r.session_timeout == self.session_timeout,
            r.message_timeout_ms == self.message_timeout_ms,
            r.max_message_size == self.max_message_size,
            r.auto_commit == self.auto_commit,
            r.auto_offset_reset == self.auto_offset_reset,
            r.reconnect_count == self.reconnect_count,
            r.log_level == self.log_level,
            r.reconnect_sleep_ms == self.reconnect_sleep_ms,
            self.wf() ==> r.wf(),
    {
        let group_id = match self.group_id {
            Some(g) => g,
            None => String::new(),
        };
        Config {
            brokers: self.brokers,
            group_id,
            topic: self.topic,
            partition_eof: self.partition_eof,
            session_timeout: self.session_timeout,
            message_timeout_ms: self.message_timeout_ms,
            max_message_size: self.max_message_size,
            auto_commit: self.auto_commit,
            auto_offset_reset: self.auto_offset_reset,
            reconnect_count: self.reconnect_count,
            log_level: self.log_level,
            reconnect_sleep_ms: self.reconnect_sleep_ms,
        }
    }
}

impl Default for ConfigBuilder {
    fn default() -> (r: Self)
        ensures
            r.is_init(),
    {
        Self::new()
    }
}

} // verus!
