use apns::apns::{APNS, Auth};
use apns::feedback::{convert_to_timestamp, decode_feedback};

fn record(timestamp: u32, token_fill: u8) -> Vec<u8> {
    let mut r: Vec<u8> = Vec::new();
    r.extend_from_slice(&timestamp.to_be_bytes());
    r.extend_from_slice(&32u16.to_be_bytes());
    r.extend_from_slice(&[token_fill; 32]);
    assert_eq!(r.len(), 38);
    r
}

#[test]
fn convert_to_timestamp_reads_big_endian() {
    assert_eq!(convert_to_timestamp(&[0x65, 0x53, 0xF1, 0x00]), 0x6553F100);
    assert_eq!(convert_to_timestamp(&[0x00, 0x00, 0x00, 0x01, 0xFF]), 1);
}

#[test]
fn three_whole_records_decode_in_stream_order() {
    let mut data: Vec<u8> = Vec::new();
    data.extend_from_slice(&record(1700000000, 0xAA));
    data.extend_from_slice(&record(1700000001, 0xBB));
    data.extend_from_slice(&record(1700000002, 0xCC));
    let records = decode_feedback(&data);
    assert_eq!(records.len(), 3);
    assert_eq!(records[0].0, 1700000000);
    assert_eq!(records[0].1, "aa".repeat(32));
    assert_eq!(records[1].0, 1700000001);
    assert_eq!(records[1].1, "bb".repeat(32));
    assert_eq!(records[2].0, 1700000002);
    assert_eq!(records[2].1, "cc".repeat(32));
}

#[test]
fn stream_cut_mid_record_yields_records_before_it() {
    let mut data: Vec<u8> = Vec::new();
    data.extend_from_slice(&record(1000, 0x11));
    data.extend_from_slice(&record(2000, 0x22));
    data.extend_from_slice(&record(3000, 0x33)[..20]);
    let records = decode_feedback(&data);
    assert_eq!(records.len(), 2);
    assert_eq!(records[0].0, 1000);
    assert_eq!(records[1].0, 2000);
}

#[test]
fn empty_stream_yields_no_records() {
    let records = decode_feedback(&[]);
    assert!(records.is_empty());
}

#[test]
fn short_lone_fragment_yields_no_records() {
    let records = decode_feedback(&[0x00, 0x01, 0x02]);
    assert!(records.is_empty());
}

#[test]
fn get_feedback_decodes_like_the_decoder() {
    let client = APNS::new(true, String::new(), String::new(), String::new());
    let mut data: Vec<u8> = Vec::new();
    data.extend_from_slice(&record(42, 0x0F));
    data.extend_from_slice(&[0u8; 10]);
    let records = client.get_feedback(&data);
    assert_eq!(records.len(), 1);
    assert_eq!(records[0].0, 42);
    assert_eq!(records[0].1, "0f".repeat(32));
}

#[test]
fn auth_keeps_the_credential_paths() {
    let auth = Auth::new("c.pem".to_string(), "k.key".to_string(), "ca.pem".to_string());
    assert_eq!(auth.cert, "c.pem");
    assert_eq!(auth.key, "k.key");
    assert_eq!(auth.ca, "ca.pem");
}

#[test]
fn endpoints_follow_the_environment() {
    let sandbox = APNS::new(true, String::new(), String::new(), String::new());
    let production = APNS::new(false, String::new(), String::new(), String::new());
    assert_eq!(sandbox.gateway_endpoint(), ("gateway.sandbox.push.apple.com".to_string(), 2195));
    assert_eq!(production.gateway_endpoint(), ("gateway.push.apple.com".to_string(), 2195));
    assert_eq!(sandbox.feedback_endpoint(), ("feedback.sandbox.push.apple.com".to_string(), 2196));
    assert_eq!(production.feedback_endpoint(), ("feedback.push.apple.com".to_string(), 2196));
}
