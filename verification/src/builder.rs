//! The connection builder: a deterministic, side-effect-free mapping from a
//! validated configuration to the options the underlying broker client is
//! constructed from.
//!
//! The rules: the broker list is joined with `,` in its configured order;
//! the group id passes through verbatim; tri-state flags and
//! optional timeouts are mapped when set and omitted when unset; the maximum
//! message size sets both the hard per-message byte cap and the derived
//! buffering budget (`size / 1024`, integer division, in KB), so the two can
//! never disagree; the log verbosity maps one-to-one.
use vstd::prelude::*;

use crate::config::{Config, KafkaLogLevel};

verus! {

/// The comma-separated join of a list of strings, in order.
pub open spec fn join_commas(parts: Seq<Seq<char>>) -> Seq<char>
    decreases parts.len(),
{
    if parts.len() == 0 {
        Seq::empty()
    } else if parts.len() == 1 {
        parts[0]
    } else {
        join_commas(parts.drop_last()) + seq![','] + parts.last()
    }
}

/// The options a consumer or producer handle is constructed from.  An unset
/// option is omitted: the underlying client's own default governs.
#[derive(Debug, Clone, PartialEq)]
pub struct ClientOptions {
    /// The broker list, comma-separated in its configured order.
    pub bootstrap_servers: String,
    /// The consumer group id, verbatim.
    pub group_id: String,
    /// Whether end-of-partition is signalled as a distinct event.
    pub enable_partition_eof: Option<bool>,
    /// Consumer liveness timeout, in milliseconds.
    pub session_timeout_ms: Option<u32>,
    /// Producer delivery timeout, in milliseconds.
    pub message_timeout_ms: Option<u32>,
    /// Hard single-message byte cap.
    pub message_max_bytes: Option<u32>,
    /// Derived buffering budget in KB: the byte cap divided by 1024.
    pub queue_buffering_max_kbytes: Option<u32>,
    /// Consumer offset auto-commit.
    pub enable_auto_commit: Option<bool>,
    /// Verbosity for the underlying client.
    pub log_level: KafkaLogLevel,
}

/// The exact mapping the builder performs from a configuration to options.
pub open spec fn options_match(o: ClientOptions, c: Config) -> bool {
    &&& o.bootstrap_servers@ == join_commas(c.brokers.deep_view())
    &&& o.group_id@ == c.group_id@
    &&& o.enable_partition_eof == c.partition_eof
    &&& o.session_timeout_ms == c.session_timeout
    &&& o.message_timeout_ms == c.message_timeout_ms
    &&& o.message_max_bytes == c.max_message_size
    &&& o.queue_buffering_max_kbytes == (match c.max_message_size {
        Some(size) => Some((size / 1024) as u32),
        None => None::<u32>,
    })
    &&& o.enable_auto_commit == c.auto_commit
    &&& o.log_level == c.log_level
}

/// Appending one more part extends the join by a comma and that part (or is
/// that part alone, when it is the first).
proof fn lemma_join_commas_push(parts: Seq<Seq<char>>, part: Seq<char>)
    ensures
        parts.len() == 0 ==> join_commas(parts.push(part)) == part,
        parts.len() > 0 ==> join_commas(parts.push(part)) == join_commas(parts) + seq![',']
            + part,
{
    let whole = parts.push(part);
    assert(whole.drop_last() =~= parts);
    assert(whole.last() == part);
    if parts.len() == 0 {
        assert(whole.len() == 1);
        assert(whole[0] == part);
    }
}

/// Holds the options computed from a configuration; handles are constructed
/// from them by the unverified broker I/O shell.
#[derive(Debug, Clone)]
pub struct KafkaBuilder {
    /// The computed options.
    pub options: ClientOptions,
}

impl KafkaBuilder {
    /// Maps the configuration to client options, exactly as
    /// [`options_match`] states.  Deterministic; no retries; broker
    /// addresses are never validated ahead of time — a malformed one
    /// surfaces as a connection failure when a handle is constructed.
    pub fn new(config: Config) -> (r: Self)
        ensures
            options_match(r.options, config),
    {
        let ghost views = config.brokers.deep_view();
        let mut servers = String::new();
        let mut i: usize = 0;
        proof {
            assert(views.take(0) =~= Seq::<Seq<char>>::empty());
        }
        while i < config.brokers.len()
            invariant
                i <= config.brokers.len(),
                views == config.brokers.deep_view(),
                servers@ == join_commas(views.take(i as int)),
            decreases config.brokers.len() - i,
        {
            if i != 0 {
                servers.append(",");
                proof {
                    reveal_strlit(",");
                }
            }
            servers.append(config.brokers[i].as_str());
            proof {
                assert(views.take(i + 1) =~= views.take(i as int).push(views[i as int]));
                lemma_join_commas_push(views.take(i as int), views[i as int]);
                assert(views[i as int] == config.brokers@[i as int]@);
            }
            i = i + 1;
        }
        proof {
            assert(views.take(config.brokers.len() as int) =~= views);
        }
        let queue_buffering_max_kbytes = match config.max_message_size {
            Some(size) => Some(size / 1024),
            None => None,
        };
        KafkaBuilder {
            options: ClientOptions {
                bootstrap_servers: servers,
                group_id: config.group_id,
                enable_partition_eof: config.partition_eof,
                session_timeout_ms: config.session_timeout,
                message_timeout_ms: config.message_timeout_ms,
                message_max_bytes: config.max_message_size,
                queue_buffering_max_kbytes,
                enable_auto_commit: config.auto_commit,
                log_level: config.log_level,
            },
        }
    }
}

} // verus!
