use ancs_bridge::codec::{build_action_ack_response, build_app_attributes_response,
    build_control_point_response, build_notification_attributes_response,
    build_notification_source_payload, dummy_app_attribute, dummy_notification_attribute,
    extract_app_identifier, parse_attribute_ids, truncate_bytes};

const TITLE: &[u8] = b"Phantom Alert";
const SUBTITLE: &[u8] = b"Faint Signal";
const BODY: &[u8] = b"Spectral notification with no real content.";
const APP_ID: &[u8] = b"com.astrobox.ghost";
const DISPLAY_NAME: &[u8] = b"AstroBox Phantom";

#[test]
fn notification_source_payload_layout() {
    let p = build_notification_source_payload(0);
    assert_eq!(p, [0x00, 0x01, 0x00, 0x01, 0, 0, 0, 0]);
    let p = build_notification_source_payload(0x0403_0201);
    assert_eq!(p, [0x00, 0x01, 0x00, 0x01, 0x01, 0x02, 0x03, 0x04]);
    let p = build_notification_source_payload(u32::MAX);
    assert_eq!(p, [0x00, 0x01, 0x00, 0x01, 0xFF, 0xFF, 0xFF, 0xFF]);
}

#[test]
fn truncate_keeps_short_and_cuts_long() {
    assert_eq!(truncate_bytes(b"abcdef", 0), b"abcdef");
    assert_eq!(truncate_bytes(b"abcdef", 10), b"abcdef");
    assert_eq!(truncate_bytes(b"abcdef", 3), b"abc");
    assert_eq!(truncate_bytes(b"", 3), b"");
}

#[test]
fn requested_length_truncates_variable_attributes() {
    // title/subtitle/body with a nonzero requested length L come back with
    // min(L, canned length) bytes
    assert_eq!(dummy_notification_attribute(1, 5), TITLE[..5].to_vec());
    assert_eq!(dummy_notification_attribute(1, 100), TITLE.to_vec());
    assert_eq!(dummy_notification_attribute(2, 12), SUBTITLE.to_vec());
    assert_eq!(dummy_notification_attribute(3, 1), BODY[..1].to_vec());
    // a requested length of zero means the whole value
    assert_eq!(dummy_notification_attribute(3, 0), BODY.to_vec());
    // fixed attributes ignore the length argument the builder passes (0)
    assert_eq!(dummy_notification_attribute(4, 0), b"0".to_vec());
    assert_eq!(dummy_notification_attribute(6, 0), b"Open".to_vec());
    assert_eq!(dummy_notification_attribute(7, 0), b"Ignore".to_vec());
    assert_eq!(dummy_notification_attribute(5, 0), b"19700101T000000".to_vec());
    assert_eq!(dummy_notification_attribute(99, 0), Vec::<u8>::new());
}

#[test]
fn header_echoed_for_long_requests() {
    let request = [0x00, 0xAA, 0xBB, 0xCC, 0xDD, 0x04];
    let response = build_notification_attributes_response(&request);
    assert_eq!(&response[..5], &request[..5]);
}

#[test]
fn short_request_gets_zero_header() {
    let response = build_notification_attributes_response(&[0x00, 0x01]);
    assert_eq!(&response[..5], &[0x00, 0, 0, 0, 0]);
}

#[test]
fn empty_attribute_list_yields_exactly_one_entry() {
    // a request with the 5-byte header and no attribute entries still
    // answers with one TLV record: the default attribute 0
    let request = [0x00, 0x01, 0x02, 0x03, 0x04];
    let response = build_notification_attributes_response(&request);
    assert_eq!(&response[..5], &request[..]);
    let mut expected = vec![0x00, APP_ID.len() as u8, 0x00];
    expected.extend_from_slice(APP_ID);
    assert_eq!(&response[5..], &expected[..]);
    assert_eq!(parse_attribute_ids(&response[5..]), vec![0x00]);
}

#[test]
fn end_to_end_title_request() {
    // GetNotificationAttributes, UID 0x04030201, attribute 1 with requested
    // length 0
    let request = [0x00, 0x01, 0x02, 0x03, 0x04, 0x01, 0x00, 0x00];
    let response = build_notification_attributes_response(&request);
    assert_eq!(&response[..5], &[0x00, 0x01, 0x02, 0x03, 0x04]);
    assert_eq!(response[5], 0x01);
    assert_eq!(response[6], TITLE.len() as u8);
    assert_eq!(response[7], 0x00);
    assert_eq!(&response[8..], TITLE);
}

#[test]
fn round_trip_preserves_attribute_order() {
    // attribute 1 (needs a length), then 5 (no length), then 2 (needs one)
    let request = [0x00, 0, 0, 0, 0, 0x01, 0x04, 0x00, 0x05, 0x02, 0x02, 0x00];
    let response = build_notification_attributes_response(&request);
    assert_eq!(parse_attribute_ids(&response[5..]), vec![0x01, 0x05, 0x02]);
    // and the values honor the requested lengths
    assert_eq!(&response[5..8], &[0x01, 4, 0]);
    assert_eq!(&response[8..12], &TITLE[..4]);
}

#[test]
fn truncated_length_field_stops_the_walk() {
    // attribute 1 announces a length field but only one of its two bytes is
    // present: the walk stops, leaving the entries already built
    let request = [0x00, 0, 0, 0, 0, 0x05, 0x01, 0x04];
    let response = build_notification_attributes_response(&request);
    assert_eq!(parse_attribute_ids(&response[5..]), vec![0x05]);
}

#[test]
fn extract_app_identifier_cases() {
    assert_eq!(extract_app_identifier(&[]), (&[][..], 0));
    assert_eq!(extract_app_identifier(&[0x01]), (&[][..], 1));
    assert_eq!(extract_app_identifier(&[0x01, b'c', b'o', b'm', 0, 9]), (&b"com"[..], 5));
    assert_eq!(extract_app_identifier(&[0x01, b'a', b'b']), (&b"ab"[..], 3));
    assert_eq!(extract_app_identifier(&[0x01, 0, 7]), (&[][..], 2));
}

#[test]
fn app_attributes_default_entry() {
    // no attribute list after the identifier: one default display-name entry
    let request = [0x01, b'a', b'p', b'p', 0x00];
    let response = build_app_attributes_response(&request);
    let mut expected = vec![0x01, b'a', b'p', b'p', 0x00, 0x00, DISPLAY_NAME.len() as u8, 0x00];
    expected.extend_from_slice(DISPLAY_NAME);
    assert_eq!(response, expected);
}

#[test]
fn app_attributes_requested_length() {
    // app attribute 0 with requested length 5 comes back truncated
    let request = [0x01, b'a', 0x00, 0x00, 0x05, 0x00];
    let response = build_app_attributes_response(&request);
    let mut expected = vec![0x01, b'a', 0x00, 0x00, 5, 0x00];
    expected.extend_from_slice(&DISPLAY_NAME[..5]);
    assert_eq!(response, expected);
}

#[test]
fn app_attributes_unknown_attribute_is_empty() {
    let request = [0x01, b'a', 0x00, 0x07, 0x00, 0x00];
    let response = build_app_attributes_response(&request);
    assert_eq!(response, vec![0x01, b'a', 0x00, 0x07, 0x00, 0x00]);
}

#[test]
fn action_ack_echoes_uid_and_action() {
    let response = build_action_ack_response(&[0x02, 1, 2, 3, 4, 7]);
    assert_eq!(response, vec![0x02, 1, 2, 3, 4, 7]);
    // absent action byte defaults to zero
    let response = build_action_ack_response(&[0x02, 1, 2, 3, 4]);
    assert_eq!(response, vec![0x02, 1, 2, 3, 4, 0]);
    // short request gets a zero UID
    let response = build_action_ack_response(&[0x02]);
    assert_eq!(response, vec![0x02, 0, 0, 0, 0, 0]);
}

#[test]
fn control_point_dispatch() {
    assert!(build_control_point_response(&[]).is_none());
    let r = build_control_point_response(&[0x00, 1, 2, 3, 4]).unwrap();
    assert_eq!(&r[..5], &[0x00, 1, 2, 3, 4]);
    let r = build_control_point_response(&[0x01, b'x', 0x00]).unwrap();
    assert_eq!(r[0], 0x01);
    let r = build_control_point_response(&[0x02, 1, 2, 3, 4, 9]).unwrap();
    assert_eq!(r, vec![0x02, 1, 2, 3, 4, 9]);
    // unknown commands are echoed with a zero status byte
    let r = build_control_point_response(&[0x77, 1, 2]).unwrap();
    assert_eq!(r, vec![0x77, 0x00]);
}

#[test]
fn dummy_app_attribute_values() {
    assert_eq!(dummy_app_attribute(0, 0), DISPLAY_NAME.to_vec());
    assert_eq!(dummy_app_attribute(0, 3), DISPLAY_NAME[..3].to_vec());
    assert_eq!(dummy_app_attribute(1, 10), Vec::<u8>::new());
}

#[test]
fn parser_stops_at_truncated_records() {
    assert_eq!(parse_attribute_ids(&[]), Vec::<u8>::new());
    assert_eq!(parse_attribute_ids(&[1, 2]), Vec::<u8>::new());
    // a record announcing more bytes than remain is ignored
    assert_eq!(parse_attribute_ids(&[1, 5, 0, 0xAA]), Vec::<u8>::new());
    assert_eq!(parse_attribute_ids(&[1, 1, 0, 0xAA, 2, 0, 0]), vec![1, 2]);
}
