use apns::errors::Error;
use apns::frame::{get_notification_bytes, prepare_delivery, prepare_notification, priority_byte, Priority};
use apns::identifier::DeviceToken;

fn sample_token() -> DeviceToken {
    let mut bytes = vec![0u8; 32];
    bytes[31] = 0x01;
    DeviceToken::from_bytes(bytes)
}

#[test]
fn priority_bytes_match_wire_values() {
    assert_eq!(priority_byte(Priority::High), 10);
    assert_eq!(priority_byte(Priority::Low), 5);
}

#[test]
fn payload_of_2048_bytes_encodes() {
    let payload = vec![0x41u8; 2048];
    let r = get_notification_bytes(&sample_token(), &payload, 7, 1700000000, Priority::High);
    assert!(r.is_ok());
}

#[test]
fn payload_of_2049_bytes_is_rejected() {
    let payload = vec![0x41u8; 2049];
    let r = get_notification_bytes(&sample_token(), &payload, 7, 1700000000, Priority::High);
    assert_eq!(r.unwrap_err(), Error::PayloadTooLarge);
}

#[test]
fn encoding_is_deterministic() {
    let payload = vec![0x7B, 0x22, 0x61, 0x22, 0x3A, 0x31, 0x7D];
    let a = get_notification_bytes(&sample_token(), &payload, 42, 1700000000, Priority::Low)
        .unwrap();
    let b = get_notification_bytes(&sample_token(), &payload, 42, 1700000000, Priority::Low)
        .unwrap();
    assert_eq!(a, b);
}

#[test]
fn frame_bytes_match_expected_layout() {
    let token = sample_token();
    let payload = vec![0x7B, 0x7D];
    let id: u32 = 0x01020304;
    let expiration: u32 = 1700000000;
    let frame = get_notification_bytes(&token, &payload, id, expiration, Priority::High).unwrap();

    let mut items: Vec<u8> = Vec::new();
    // identifier item: tag 1, length 32, the 32 identifier bytes
    items.extend_from_slice(&[0x01, 0x00, 0x20]);
    items.extend_from_slice(token.as_bytes());
    // payload item: tag 2, length 2, "{}"
    items.extend_from_slice(&[0x02, 0x00, 0x02, 0x7B, 0x7D]);
    // notification id item: tag 3, length 4, big-endian id
    items.extend_from_slice(&[0x03, 0x00, 0x04]);
    items.extend_from_slice(&id.to_be_bytes());
    // expiration item: tag 4, length 4, big-endian seconds
    items.extend_from_slice(&[0x04, 0x00, 0x04]);
    items.extend_from_slice(&expiration.to_be_bytes());
    // priority item: tag 5, length 1, the single priority byte
    items.extend_from_slice(&[0x05, 0x00, 0x01, 0x0A]);

    let mut expected: Vec<u8> = Vec::new();
    expected.push(0x02);
    expected.extend_from_slice(&(items.len() as u32).to_be_bytes());
    expected.extend_from_slice(&items);

    assert_eq!(frame, expected);
}

#[test]
fn prepared_frame_carries_given_expiration_and_id() {
    let token = sample_token();
    let payload = vec![0x7B, 0x7D];
    let (frame, id) =
        prepare_notification(&token, &payload, Some(Priority::Low), Some(123456789)).unwrap();
    let rebuilt =
        get_notification_bytes(&token, &payload, id, 123456789, Priority::Low).unwrap();
    assert_eq!(frame, rebuilt);
}

#[test]
fn prepare_notification_rejects_oversized_payload() {
    let payload = vec![0u8; 2049];
    let r = prepare_notification(&sample_token(), &payload, None, None);
    assert_eq!(r.unwrap_err(), Error::PayloadTooLarge);
}

#[test]
fn prepare_delivery_rejects_bad_identifier_first() {
    let payload = vec![0u8; 2049];
    let r = prepare_delivery("not hex", &payload, None, None);
    assert_eq!(r.unwrap_err(), Error::InvalidIdentifier);
}

#[test]
fn prepare_delivery_builds_frame_for_valid_input() {
    let text = "0000000000000000000000000000000000000000000000000000000000000001";
    let payload = vec![0x7B, 0x7D];
    let (frame, id) = prepare_delivery(text, &payload, Some(Priority::High), Some(1700000000))
        .unwrap();
    let token = DeviceToken::from_str(text).unwrap();
    let rebuilt =
        get_notification_bytes(&token, &payload, id, 1700000000, Priority::High).unwrap();
    assert_eq!(frame, rebuilt);
}
