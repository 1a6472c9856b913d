//! The error taxonomy of the protocol layer.
use vstd::prelude::*;

verus! {

/// Every way a protocol-layer operation can fail.
#[derive(Debug, Clone, Copy, PartialEq, Eq, Structural)]
pub enum Error {
    /// A binary payload ended before a field it declared.
    TruncatedData,
    /// A text field did not decode as UTF-8.
    EncodingError,
    /// An app-inventory record's declared length disagrees with its name length.
    InvalidRecord,
    /// A command payload longer than the frame format can carry.
    InvalidCommand,
    /// A command frame whose hex text or length structure is wrong.
    MalformedCommand,
    /// A relay envelope whose payload variant does not fit its query kind.
    ProtocolViolation,
    /// A relay envelope with a query kind this client does not know.
    UnsupportedQuery,
    /// A channel frame that is not a JSON envelope this client accepts.
    UnsupportedFrame,
    /// The device transport failed to complete an exchange.
    TransportError,
    /// The relay channel itself failed.
    ChannelError,
}

} // verus!
