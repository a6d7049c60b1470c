use serial_telemetry::decoder::decode;
use serial_telemetry::decoder::Parser;

#[test]
fn decode_splits_at_first_delimiter() {
    let r = decode(b"bus_voltage:24.0\n").unwrap();
    assert_eq!(r.0, b"bus_voltage".to_vec());
    assert_eq!(r.1, b"24.0\n".to_vec());
}

#[test]
fn decode_keeps_later_delimiters_in_payload() {
    let r = decode(b"dbg_msg:a:b:c\n").unwrap();
    assert_eq!(r.0, b"dbg_msg".to_vec());
    assert_eq!(r.1, b"a:b:c\n".to_vec());
}

#[test]
fn decode_without_delimiter_drops_message() {
    assert_eq!(decode(b"garbage_no_colon\n"), None);
    assert_eq!(decode(b""), None);
}

#[test]
fn decode_empty_header_or_payload() {
    let r = decode(b":payload").unwrap();
    assert_eq!(r.0, b"".to_vec());
    assert_eq!(r.1, b"payload".to_vec());
    let r = decode(b"header:").unwrap();
    assert_eq!(r.0, b"header".to_vec());
    assert_eq!(r.1, b"".to_vec());
}

#[test]
fn parse_int_plain_values() {
    assert_eq!(Parser::parse_int(b"42"), Some(42));
    assert_eq!(Parser::parse_int(b"-17"), Some(-17));
    assert_eq!(Parser::parse_int(b"+5"), Some(5));
    assert_eq!(Parser::parse_int(b"0"), Some(0));
}

#[test]
fn parse_int_trims_ascii_whitespace() {
    assert_eq!(Parser::parse_int(b" 42 \n"), Some(42));
    assert_eq!(Parser::parse_int(b"\t-7\r\n"), Some(-7));
}

#[test]
fn parse_int_rejects_malformed() {
    assert_eq!(Parser::parse_int(b""), None);
    assert_eq!(Parser::parse_int(b"   "), None);
    assert_eq!(Parser::parse_int(b"abc"), None);
    assert_eq!(Parser::parse_int(b"4 2"), None);
    assert_eq!(Parser::parse_int(b"12.5"), None);
    assert_eq!(Parser::parse_int(b"-"), None);
    assert_eq!(Parser::parse_int(b"+"), None);
    assert_eq!(Parser::parse_int(b"--3"), None);
}

#[test]
fn parse_int_bounds() {
    assert_eq!(Parser::parse_int(b"2147483647"), Some(i32::MAX));
    assert_eq!(Parser::parse_int(b"2147483648"), None);
    assert_eq!(Parser::parse_int(b"-2147483648"), Some(i32::MIN));
    assert_eq!(Parser::parse_int(b"-2147483649"), None);
    assert_eq!(Parser::parse_int(b"99999999999999999999"), None);
    assert_eq!(Parser::parse_int(b"0000000000000000000042"), Some(42));
}

#[test]
fn parse_string_keeps_ascii() {
    assert_eq!(Parser::parse_string(b"hello world\n"), "hello world\n");
    assert_eq!(Parser::parse_string(b""), "");
}

#[test]
fn parse_string_replaces_invalid_utf8() {
    assert_eq!(Parser::parse_string(&[0xff, b'a']), "\u{FFFD}a");
    assert_eq!(Parser::parse_string(&[b'q', 0xc3]), "q\u{FFFD}");
}

#[test]
fn parse_string_keeps_valid_utf8() {
    let text = "grad\u{00B0} ok";
    assert_eq!(Parser::parse_string(text.as_bytes()), text);
}
