use rustdesk_sdk::strings::{c_str_to_string, to_c_string, HostString};

fn bridge_bytes(text: &str) -> Option<Vec<u8>> {
    to_c_string(text.to_string()).map(|buffer| buffer.into_bytes())
}

fn round_trip(text: &str) -> String {
    let buffer = to_c_string(text.to_string()).expect("text without terminator");
    let read_back = c_str_to_string(&buffer.as_host());
    read_back
}

#[test]
fn decode_of_null_is_empty() {
    let host = HostString::null();
    assert!(host.is_null());
    assert_eq!(c_str_to_string(&host), "");
}

#[test]
fn decode_of_empty_buffer_is_empty() {
    let host = HostString::new(b"");
    assert!(!host.is_null());
    assert_eq!(c_str_to_string(&host), "");
    assert_eq!(c_str_to_string(&HostString::new(b"\0")), "");
}

#[test]
fn decode_copies_the_text() {
    assert_eq!(c_str_to_string(&HostString::new(b"stop-service")), "stop-service");
}

#[test]
fn decode_stops_at_the_first_terminator() {
    assert_eq!(c_str_to_string(&HostString::new(b"key\0value\0")), "key");
    assert_eq!(c_str_to_string(&HostString::new(b"\0key")), "");
}

#[test]
fn decode_reads_multi_byte_text() {
    let bytes = "d\u{e9}j\u{e0} \u{2713} \u{1f600}".as_bytes();
    assert_eq!(c_str_to_string(&HostString::new(bytes)), "d\u{e9}j\u{e0} \u{2713} \u{1f600}");
}

#[test]
fn decode_replaces_invalid_bytes() {
    assert_eq!(c_str_to_string(&HostString::new(&[0x66, 0xff, 0x6f])), "f\u{fffd}o");
    assert_eq!(c_str_to_string(&HostString::new(&[0xc3])), "\u{fffd}");
    assert_eq!(c_str_to_string(&HostString::new(&[0xe2, 0x9c, 0x41])), "\u{fffd}A");
}

#[test]
fn encode_appends_one_terminator() {
    assert_eq!(bridge_bytes("value"), Some(b"value\0".to_vec()));
    assert_eq!(bridge_bytes("{}"), Some(b"{}\0".to_vec()));
}

#[test]
fn encode_of_empty_text_is_a_lone_terminator() {
    assert_eq!(bridge_bytes(""), Some(vec![0u8]));
}

#[test]
fn encode_writes_utf8() {
    assert_eq!(bridge_bytes("\u{e9}"), Some(vec![0xc3, 0xa9, 0x00]));
    assert_eq!(bridge_bytes("\u{1f600}"), Some(vec![0xf0, 0x9f, 0x98, 0x80, 0x00]));
}

#[test]
fn encode_refuses_an_embedded_terminator() {
    assert!(to_c_string("a\0b".to_string()).is_none());
    assert!(to_c_string("\0".to_string()).is_none());
    assert!(to_c_string("tail\0".to_string()).is_none());
}

#[test]
fn bridge_string_views_agree() {
    let buffer = to_c_string("id-123".to_string()).unwrap();
    assert_eq!(buffer.as_bytes(), b"id-123\0");
    assert!(!buffer.as_host().is_null());
    assert_eq!(c_str_to_string(&buffer.as_host()), "id-123");
    assert_eq!(buffer.into_bytes(), b"id-123\0".to_vec());
}

#[test]
fn decode_after_encode_is_identity() {
    for text in ["", "value", "with space", "d\u{e9}j\u{e0}", "\u{2713}\u{1f600}", "{\"a\":\"b\"}"] {
        assert_eq!(round_trip(text), text);
    }
}

#[test]
fn host_reads_a_bridge_string_up_to_its_terminator() {
    let buffer = to_c_string("abc".to_string()).unwrap();
    let bytes = buffer.into_bytes();
    assert_eq!(c_str_to_string(&HostString::new(&bytes)), "abc");
}
