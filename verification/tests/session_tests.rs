use apns::errors::{status_of, Error, GatewayStatus};
use apns::session::{parse_error_reply, DeliverySession, SessionState};

#[test]
fn silence_counts_as_success_and_returns_the_id() {
    let mut session = DeliverySession::new();
    assert_eq!(session.state(), SessionState::Disconnected);
    session.on_connect_success();
    assert_eq!(session.state(), SessionState::Connected);
    let r = session.finish_send(None, 0xDEADBEEF);
    assert_eq!(r.unwrap(), 0xDEADBEEF);
    assert_eq!(session.state(), SessionState::Closed);
}

#[test]
fn status_five_reply_is_a_gateway_rejection() {
    let mut session = DeliverySession::new();
    session.on_connect_success();
    let reply = [0x08, 0x05, 0x00, 0x00, 0x00, 0x07];
    let r = session.finish_send(Some(&reply), 7);
    assert_eq!(r.unwrap_err(), Error::GatewayRejected(GatewayStatus::InvalidIdentifier));
    assert_ne!(r.unwrap_err(), Error::InvalidIdentifier);
}

#[test]
fn zero_status_reply_still_reports_the_gateway() {
    let mut session = DeliverySession::new();
    session.on_connect_success();
    let reply = [0x08, 0x00, 0x00, 0x00, 0x00, 0x07];
    let r = session.finish_send(Some(&reply), 7);
    assert_eq!(r.unwrap_err(), Error::GatewayRejected(GatewayStatus::NoError));
}

#[test]
fn malformed_pending_bytes_are_a_transport_fault() {
    let mut session = DeliverySession::new();
    session.on_connect_success();
    let garbage = [0x01, 0x02, 0x03];
    let r = session.finish_send(Some(&garbage), 7);
    assert_eq!(r.unwrap_err(), Error::IoFailure);
    let mut other = DeliverySession::new();
    other.on_connect_success();
    let wrong_command = [0x07, 0x05, 0x00, 0x00, 0x00, 0x07];
    let r = other.finish_send(Some(&wrong_command), 7);
    assert_eq!(r.unwrap_err(), Error::IoFailure);
}

#[test]
fn connect_failures_name_their_phase() {
    let mut session = DeliverySession::new();
    assert_eq!(session.on_connect_failure(false), Error::ConnectFailed);
    assert_eq!(session.state(), SessionState::Disconnected);
    assert_eq!(session.on_connect_failure(true), Error::HandshakeFailed);
    assert_eq!(session.state(), SessionState::Disconnected);
}

#[test]
fn write_failure_closes_the_session() {
    let mut session = DeliverySession::new();
    session.on_connect_success();
    assert_eq!(session.on_write_failure(), Error::IoFailure);
    assert_eq!(session.state(), SessionState::Closed);
}

#[test]
fn error_reply_fields_decode_exactly() {
    let reply = [0x08, 0x0A, 0x01, 0x02, 0x03, 0x04];
    let er = parse_error_reply(&reply).unwrap();
    assert_eq!(er.status, 10);
    assert_eq!(er.identifier, 0x01020304);
    assert!(parse_error_reply(&reply[..5]).is_none());
    assert!(parse_error_reply(&[0x09, 0x0A, 0x01, 0x02, 0x03, 0x04]).is_none());
}

#[test]
fn status_bytes_decode_per_the_table() {
    assert_eq!(status_of(0), GatewayStatus::NoError);
    assert_eq!(status_of(1), GatewayStatus::Processing);
    assert_eq!(status_of(2), GatewayStatus::MissingDeviceIdentifier);
    assert_eq!(status_of(3), GatewayStatus::MissingPayload);
    assert_eq!(status_of(4), GatewayStatus::InvalidPayloadSize);
    assert_eq!(status_of(5), GatewayStatus::InvalidIdentifier);
    assert_eq!(status_of(6), GatewayStatus::InvalidTopic);
    assert_eq!(status_of(7), GatewayStatus::InvalidPayload);
    assert_eq!(status_of(8), GatewayStatus::InvalidIdentifierSize);
    assert_eq!(status_of(9), GatewayStatus::InvalidExpiration);
    assert_eq!(status_of(10), GatewayStatus::InvalidPriority);
    assert_eq!(status_of(128), GatewayStatus::Reserved);
    assert_eq!(status_of(255), GatewayStatus::Shutdown);
    assert_eq!(status_of(11), GatewayStatus::Unknown);
    assert_eq!(status_of(200), GatewayStatus::Unknown);
}
