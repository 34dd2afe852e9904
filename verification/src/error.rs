//! Error taxonomy of the adapters.
//!
//! A transport failure is classified as *fatal* (the session cannot continue
//! and a fresh connection is required; it consumes one unit of the reconnect
//! budget) or *transient* (surfaced to the caller immediately, never
//! retried).  Codec failures are opaque, caller-defined, and always
//! transient-class.
use vstd::prelude::*;

verus! {

/// A failure reported by the underlying broker client, reduced to what the
/// retry policy reads: its fatality class and a numeric code identifying it.
#[derive(Debug, Clone, Copy, PartialEq, Eq, Structural)]
pub struct TransportError {
    /// True for an unrecoverable transaction/session failure: the connection
    /// must be torn down and rebuilt, consuming one unit of retry budget.
    pub fatal: bool,
    /// A code identifying the underlying failure.
    pub code: i32,
}

/// What an adapter operation can fail with.
#[derive(Debug)]
pub enum Error<E> {
    /// An operation was attempted without an established connection.
    /// Defensive only: the state machine drives connect-before-operate.
    NoConnection,
    /// A failure of the underlying broker client or of connecting to it.
    KafkaError(TransportError),
    /// An opaque encode/decode failure; never retried, never reconnects.
    MessageCodecError(E),
}

impl<E> Error<E> {
    /// The fatal transport class: exactly these failures consume reconnect
    /// budget and tear the connection down.
    pub open spec fn is_fatal_transport(&self) -> bool {
        self matches Error::KafkaError(te) && te.fatal
    }

    /// Classifies this error, mirroring [`Self::is_fatal_transport`].
    pub fn is_fatal(&self) -> (r: bool)
        ensures
            r == self.is_fatal_transport(),
    {
        match self {
            Error::KafkaError(te) => te.fatal,
            _ => false,
        }
    }
}

} // verus!
