use noop_wrapper::codec::{decode_event, encode_event};
use noop_wrapper::events::{
    wrap_application_data, AccountCompressionEvent, ApplicationDataEvent, ApplicationDataEventV1,
};

fn app_data_event(payload: Vec<u8>) -> AccountCompressionEvent {
    AccountCompressionEvent::ApplicationData(ApplicationDataEvent::V1(ApplicationDataEventV1 {
        application_data: payload,
    }))
}

#[test]
fn round_trip_empty_payload() {
    let event = app_data_event(vec![]);
    let bytes = encode_event(&event).unwrap();
    assert_eq!(decode_event(&bytes), Some(event));
}

#[test]
fn round_trip_single_byte_payload() {
    let event = app_data_event(vec![0xAB]);
    let bytes = encode_event(&event).unwrap();
    assert_eq!(decode_event(&bytes), Some(event));
}

#[test]
fn round_trip_payload_far_beyond_log_quota() {
    // 100x the host's 10 KiB text-log quota.
    let payload: Vec<u8> = (0..1_024_000u32).map(|i| (i % 251) as u8).collect();
    let event = app_data_event(payload);
    let bytes = encode_event(&event).unwrap();
    assert_eq!(bytes.len(), 6 + 1_024_000);
    assert_eq!(decode_event(&bytes), Some(event));
}

#[test]
fn round_trip_all_zero_payload() {
    let event = app_data_event(vec![0u8; 64]);
    let bytes = encode_event(&event).unwrap();
    assert_eq!(decode_event(&bytes), Some(event));
}

#[test]
fn round_trip_all_ff_payload() {
    let event = app_data_event(vec![0xFFu8; 64]);
    let bytes = encode_event(&event).unwrap();
    assert_eq!(decode_event(&bytes), Some(event));
}

#[test]
fn round_trip_change_log_event() {
    let event = AccountCompressionEvent::ChangeLog(vec![9, 8, 7, 6, 5]);
    let bytes = encode_event(&event).unwrap();
    assert_eq!(decode_event(&bytes), Some(event));
}

#[test]
fn round_trip_empty_change_log_event() {
    let event = AccountCompressionEvent::ChangeLog(vec![]);
    let bytes = encode_event(&event).unwrap();
    assert_eq!(bytes, vec![0u8]);
    assert_eq!(decode_event(&bytes), Some(event));
}

#[test]
fn wrap_application_data_builds_v1_variant() {
    let event = wrap_application_data(vec![1, 2, 3]);
    assert_eq!(event, app_data_event(vec![1, 2, 3]));
}

#[test]
fn payload_passes_through_byte_identical() {
    let payload = vec![0x00, 0xFF, 0x7F, 0x80, 0x0A, 0x00];
    let event = wrap_application_data(payload.clone());
    let bytes = encode_event(&event).unwrap();
    match decode_event(&bytes) {
        Some(AccountCompressionEvent::ApplicationData(ApplicationDataEvent::V1(v))) => {
            assert_eq!(v.application_data, payload);
        }
        other => panic!("expected an application-data event, got {:?}", other),
    }
}

#[test]
fn hello_literal_encoding() {
    // tag(ApplicationData) . tag(V1) . length-prefix(5) . the bytes of "hello"
    let event = wrap_application_data(b"hello".to_vec());
    let bytes = encode_event(&event).unwrap();
    assert_eq!(bytes, vec![1, 0, 5, 0, 0, 0, b'h', b'e', b'l', b'l', b'o']);
    assert_eq!(decode_event(&bytes), Some(event));
}

#[test]
fn change_log_tag_is_stable() {
    let event = AccountCompressionEvent::ChangeLog(vec![0xAA, 0xBB]);
    let bytes = encode_event(&event).unwrap();
    assert_eq!(bytes, vec![0, 0xAA, 0xBB]);
}

#[test]
fn application_data_length_prefix_is_little_endian() {
    let event = app_data_event(vec![0x55; 258]);
    let bytes = encode_event(&event).unwrap();
    assert_eq!(&bytes[..6], &[1, 0, 2, 1, 0, 0]);
    assert_eq!(bytes.len(), 6 + 258);
}

#[test]
fn decode_rejects_empty_input() {
    assert_eq!(decode_event(&vec![]), None);
}

#[test]
fn decode_rejects_unknown_tag() {
    assert_eq!(decode_event(&vec![2, 0, 0, 0, 0, 0]), None);
}

#[test]
fn decode_rejects_truncated_application_data() {
    assert_eq!(decode_event(&vec![1, 0, 5, 0, 0]), None);
}

#[test]
fn decode_rejects_unknown_version_tag() {
    assert_eq!(decode_event(&vec![1, 1, 0, 0, 0, 0]), None);
}

#[test]
fn decode_rejects_length_prefix_longer_than_payload() {
    assert_eq!(decode_event(&vec![1, 0, 6, 0, 0, 0, b'h', b'e', b'l', b'l', b'o']), None);
}

#[test]
fn decode_rejects_trailing_bytes_after_payload() {
    assert_eq!(decode_event(&vec![1, 0, 4, 0, 0, 0, b'h', b'e', b'l', b'l', b'o']), None);
}
