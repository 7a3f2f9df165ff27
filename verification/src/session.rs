//! The push delivery session: one connection, one frame, one probe for an
//! in-band error reply, then the connection is done.
//!
//! The session itself is a state machine over the outcomes that the I/O
//! shell observes; opening the TLS connection, writing the frame and
//! probing for pending bytes happen outside and feed their results in.
use vstd::prelude::*;

use crate::errors::{Error, GatewayStatus, spec_status_of, status_of};
use crate::wire::{be32_val, spec_be32_val};
use vstd::slice::slice_subrange;

verus! {

/// A decoded six-byte error reply: the status byte and the echoed
/// notification id of the frame that was rejected.
#[derive(Clone, Copy, Debug, PartialEq, Eq, Structural)]
pub struct ErrorResponse {
    /// The reply's status byte, before decoding.
    pub status: u8,
    /// The notification id of the rejected frame, echoed by the gateway.
    pub identifier: u32,
}

/// True of the byte sequences that form an error reply: exactly six
/// bytes opened by the command byte 8.
pub open spec fn spec_is_error_reply(b: Seq<u8>) -> bool {
    b.len() == 6 && b[0] == 8
}

/// Parses a six-byte error reply: command byte 8, one status byte, and
/// the four-byte big-endian notification id it echoes. Anything else is
/// no reply.
pub fn parse_error_reply(data: &[u8]) -> (r: Option<ErrorResponse>)
    ensures
        match r {
            Some(er) => spec_is_error_reply(data@) && er.status == data@[1] && er.identifier
                == spec_be32_val(data@.subrange(2, 6)),
            None => !spec_is_error_reply(data@),
        },
{
    if data.len() != 6 {
        return None;
    }
    if data[0] != 8 {
        return None;
    }
    let id_slice = slice_subrange(data, 2, 6);
    let identifier = be32_val(id_slice);
    Some(ErrorResponse { status: data[1], identifier })
}

/// The state of a delivery session: not yet connected, connected and
/// ready for its one send, or done.
#[derive(Clone, Copy, Debug, PartialEq, Eq, Structural)]
pub enum SessionState {
    /// No connection stands; connecting may be attempted.
    Disconnected,
    /// The TLS connection stands and the frame has not been sent.
    Connected,
    /// The session has spent its one send; the connection is terminated.
    Closed,
}

/// The result a finished send reports, given what the probe for an error
/// reply observed: nothing pending means the send counts as successful
/// and the notification id comes back; a six-byte reply with command 8
/// is the gateway's rejection, decoded by its status byte; pending bytes
/// of any other shape are a transport fault.
pub open spec fn spec_send_outcome(probe: Option<Seq<u8>>, id: u32) -> Result<u32, Error> {
    match probe {
        Option::None => Ok(id),
        Option::Some(b) => if spec_is_error_reply(b) {
            Err(Error::GatewayRejected(spec_status_of(b[1])))
        } else {
            Err(Error::IoFailure)
        },
    }
}

/// A push delivery session. It owns no socket itself: the I/O shell
/// drives it with the outcomes it observes, and the machine decides the
/// transitions and the reported result.
pub struct DeliverySession {
    state: SessionState,
}

impl DeliverySession {
    /// The session's current state.
    pub closed spec fn spec_state(&self) -> SessionState {
        self.state
    }

    /// A fresh session: disconnected.
    pub fn new() -> (r: DeliverySession)
        ensures
            r.spec_state() == SessionState::Disconnected,
    {
        DeliverySession { state: SessionState::Disconnected }
    }

    /// The session's current state, for the I/O shell to branch on.
    pub fn state(&self) -> (r: SessionState)
        ensures
            r == self.spec_state(),
    {
        self.state
    }

    /// The TCP connect and TLS handshake succeeded: the session is
    /// connected.
    pub fn on_connect_success(&mut self)
        requires
            old(self).spec_state() == SessionState::Disconnected,
        ensures
            final(self).spec_state() == SessionState::Connected,
    {
        self.state = SessionState::Connected;
    }

    /// Connecting failed. The session stays disconnected, and the error
    /// names the phase: the TLS handshake where the TCP connection
    /// already stood, else the connect itself.
    pub fn on_connect_failure(&mut self, during_handshake: bool) -> (e: Error)
        requires
            old(self).spec_state() == SessionState::Disconnected,
        ensures
            final(self).spec_state() == SessionState::Disconnected,
            e == if during_handshake {
                Error::HandshakeFailed
            } else {
                Error::ConnectFailed
            },
    {
        if during_handshake {
            Error::HandshakeFailed
        } else {
            Error::ConnectFailed
        }
    }

    /// The frame was written and flushed, and the probe for pending input
    /// observed `probe`: either nothing, or the bytes that were pending.
    /// The session closes whatever the outcome, and the result is decided
    /// by `spec_send_outcome`: the notification id on silence, the decoded
    /// rejection on a six-byte reply, a transport fault on anything else.
    pub fn finish_send(&mut self, probe: Option<&[u8]>, id: u32) -> (r: Result<u32, Error>)
        requires
            old(self).spec_state() == SessionState::Connected,
        ensures
            final(self).spec_state() == SessionState::Closed,
            match probe {
                Option::Some(b) => r == spec_send_outcome(Option::Some(b@), id),
                Option::None => r == spec_send_outcome(Option::None, id),
            },
    {
        self.state = SessionState::Closed;
        match probe {
            None => Ok(id),
            Some(b) => {
                match parse_error_reply(b) {
                    Some(er) => Err(Error::GatewayRejected(status_of(er.status))),
                    None => Err(Error::IoFailure),
                }
            },
        }
    }

    /// The frame could not be written: the session closes and the fault
    /// is reported as such.
    pub fn on_write_failure(&mut self) -> (e: Error)
        requires
            old(self).spec_state() == SessionState::Connected,
        ensures
            final(self).spec_state() == SessionState::Closed,
            e == Error::IoFailure,
    {
        self.state = SessionState::Closed;
        Error::IoFailure
    }
}

/// A reply whose status byte is 5 decodes to the gateway's own
/// invalid-identifier rejection — a remote judgement, distinct from the
/// local `Error::InvalidIdentifier` that the identifier codec raises
/// before anything is sent.
pub proof fn lemma_status_five_is_gateway_rejection(b: Seq<u8>, id: u32)
    requires
        spec_is_error_reply(b),
        b[1] == 5,
    ensures
        spec_send_outcome(Option::Some(b), id) == Result::<u32, Error>::Err(
            Error::GatewayRejected(GatewayStatus::InvalidIdentifier),
        ),
        spec_send_outcome(Option::Some(b), id) != Result::<u32, Error>::Err(
            Error::InvalidIdentifier,
        ),
{
}

} // verus!
