use vstd::prelude::*;

verus! {

/// Error taxonomy of the library.
///
/// Each variant marks one failure kind of the session, signalling, RPC or
/// input-synthesis paths; functions state in their contracts exactly on
/// which inputs each variant is produced.
#[derive(Clone, Copy, Debug, PartialEq, Eq, Structural)]
pub enum KvmError {
    /// Caller error: empty host, malformed layout data, more keys in a
    /// chord than a HID report can carry.
    ConfigInvalid,
    /// HTTP login answered with a non-2xx status (carried here).
    AuthFailed(u16),
    /// Unexpected message shape, bad base64 or a missing field during
    /// signalling.
    SignallingProtocol,
    /// Transport-level signalling failure; eligible for fallback before
    /// the primary stream opens.
    SignallingTransport,
    /// An RPC was issued before the primary stream opened.
    ChannelNotOpen,
    /// The primary stream closed while calls were pending.
    ChannelClosed,
    /// A layout has no mapping for this code point.
    UnsupportedCharacter(char),
    /// The appliance answered an RPC with an error payload.
    RemoteError,
    /// No video frame was decoded within the capture timeout.
    NoFrame,
}

} // verus!
