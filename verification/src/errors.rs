//! The error taxonomy: local failures of the client and the status codes
//! a gateway error reply can carry.
use vstd::prelude::*;

verus! {

/// The status codes a gateway places in an in-band error reply.
///
/// Every byte decodes to some status: bytes outside the table decode to
/// `Unknown` rather than failing.
#[derive(Clone, Copy, Debug, PartialEq, Eq, Structural)]
pub enum GatewayStatus {
    /// Status byte 0: the gateway reported no error.
    NoError,
    /// Status byte 1: processing error.
    Processing,
    /// Status byte 2: the frame carried no device identifier item.
    MissingDeviceIdentifier,
    /// Status byte 3: the frame carried no payload item.
    MissingPayload,
    /// Status byte 4: the payload item had an invalid size.
    InvalidPayloadSize,
    /// Status byte 5: the device identifier was rejected.
    InvalidIdentifier,
    /// Status byte 6: invalid topic.
    InvalidTopic,
    /// Status byte 7: the payload was rejected.
    InvalidPayload,
    /// Status byte 8: the device identifier item had an invalid size.
    InvalidIdentifierSize,
    /// Status byte 9: the expiration item was rejected.
    InvalidExpiration,
    /// Status byte 10: the priority item was rejected.
    InvalidPriority,
    /// Status byte 128: reserved range, no particular error.
    Reserved,
    /// Status byte 255: the gateway is shutting down.
    Shutdown,
    /// Any other status byte.
    Unknown,
}

/// The status that a given reply byte denotes.
pub open spec fn spec_status_of(b: u8) -> GatewayStatus {
    match b {
        0u8 => GatewayStatus::NoError,
        1u8 => GatewayStatus::Processing,
        2u8 => GatewayStatus::MissingDeviceIdentifier,
        3u8 => GatewayStatus::MissingPayload,
        4u8 => GatewayStatus::InvalidPayloadSize,
        5u8 => GatewayStatus::InvalidIdentifier,
        6u8 => GatewayStatus::InvalidTopic,
        7u8 => GatewayStatus::InvalidPayload,
        8u8 => GatewayStatus::InvalidIdentifierSize,
        9u8 => GatewayStatus::InvalidExpiration,
        10u8 => GatewayStatus::InvalidPriority,
        128u8 => GatewayStatus::Reserved,
        255u8 => GatewayStatus::Shutdown,
        _ => GatewayStatus::Unknown,
    }
}

/// Decodes a reply status byte.
pub fn status_of(b: u8) -> (r: GatewayStatus)
    ensures
        r == spec_status_of(b),
{
    match b {
        0u8 => GatewayStatus::NoError,
        1u8 => GatewayStatus::Processing,
        2u8 => GatewayStatus::MissingDeviceIdentifier,
        3u8 => GatewayStatus::MissingPayload,
        4u8 => GatewayStatus::InvalidPayloadSize,
        5u8 => GatewayStatus::InvalidIdentifier,
        6u8 => GatewayStatus::InvalidTopic,
        7u8 => GatewayStatus::InvalidPayload,
        8u8 => GatewayStatus::InvalidIdentifierSize,
        9u8 => GatewayStatus::InvalidExpiration,
        10u8 => GatewayStatus::InvalidPriority,
        128u8 => GatewayStatus::Reserved,
        255u8 => GatewayStatus::Shutdown,
        _ => GatewayStatus::Unknown,
    }
}

/// A failure of the client, at the transport, the input or the protocol
/// level.
///
/// `GatewayRejected` carries a status reported by the remote gateway in an
/// error reply; `InvalidIdentifier` by contrast is the local rejection of a
/// malformed identifier text, before any byte is sent.
#[derive(Clone, Copy, Debug, PartialEq, Eq, Structural)]
pub enum Error {
    /// The TCP connection to the gateway could not be opened.
    ConnectFailed,
    /// The TLS handshake with the gateway failed.
    HandshakeFailed,
    /// The identifier text is not 64 hexadecimal characters.
    InvalidIdentifier,
    /// The payload exceeds the 2048-byte ceiling.
    PayloadTooLarge,
    /// A read or write failed outside the expected short-read termination.
    IoFailure,
    /// The gateway answered the frame with an error reply.
    GatewayRejected(GatewayStatus),
}

} // verus!
