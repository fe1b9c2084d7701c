//! Tests of the standard response grammar.

use memcache_client::proto::{ErrorKind, Response, Status, Value};
use memcache_client::response::parse_ascii_response;

#[test]
fn parse_stored_line() {
    let r = parse_ascii_response(b"STORED\r\n");
    assert_eq!(r, Ok(Some((8, Response::Status(Status::Stored)))));
}

#[test]
fn parse_bare_status_lines() {
    assert_eq!(
        parse_ascii_response(b"NOT_STORED\r\n"),
        Ok(Some((12, Response::Status(Status::NotStored))))
    );
    assert_eq!(
        parse_ascii_response(b"EXISTS\r\n"),
        Ok(Some((8, Response::Status(Status::Exists))))
    );
    assert_eq!(
        parse_ascii_response(b"DELETED\r\n"),
        Ok(Some((9, Response::Status(Status::Deleted))))
    );
    assert_eq!(
        parse_ascii_response(b"NOT_FOUND\r\n"),
        Ok(Some((11, Response::Status(Status::NotFound))))
    );
    assert_eq!(
        parse_ascii_response(b"TOUCHED\r\n"),
        Ok(Some((9, Response::Status(Status::Touched))))
    );
}

#[test]
fn parse_generic_error_line() {
    let r = parse_ascii_response(b"ERROR\r\n");
    assert_eq!(r, Ok(Some((7, Response::Status(Status::Error(ErrorKind::Generic))))));
}

#[test]
fn parse_client_error_line() {
    let r = parse_ascii_response(b"CLIENT_ERROR bad data chunk\r\n");
    assert_eq!(
        r,
        Ok(Some((29, Response::Status(Status::Error(ErrorKind::Client(
            "bad data chunk".to_string()
        ))))))
    );
}

#[test]
fn parse_server_error_line() {
    let r = parse_ascii_response(b"SERVER_ERROR out of memory\r\n");
    assert_eq!(
        r,
        Ok(Some((28, Response::Status(Status::Error(ErrorKind::Server(
            "out of memory".to_string()
        ))))))
    );
}

#[test]
fn parse_incomplete_line_asks_for_more() {
    assert_eq!(parse_ascii_response(b""), Ok(None));
    assert_eq!(parse_ascii_response(b"STOR"), Ok(None));
    assert_eq!(parse_ascii_response(b"STORED\r"), Ok(None));
}

#[test]
fn parse_numeric_line() {
    assert_eq!(parse_ascii_response(b"42\r\n"), Ok(Some((4, Response::IncrDecr(42)))));
    assert_eq!(parse_ascii_response(b"0\r\n"), Ok(Some((3, Response::IncrDecr(0)))));
}

#[test]
fn parse_numeric_line_at_max() {
    let r = parse_ascii_response(b"18446744073709551615\r\n");
    assert_eq!(r, Ok(Some((22, Response::IncrDecr(u64::MAX)))));
}

#[test]
fn parse_numeric_overflow_is_malformed() {
    let r = parse_ascii_response(b"18446744073709551616\r\n");
    assert_eq!(r, Err(ErrorKind::Protocol(None)));
}

#[test]
fn parse_bare_end_is_absent_data() {
    assert_eq!(parse_ascii_response(b"END\r\n"), Ok(Some((5, Response::Data(None)))));
}

#[test]
fn parse_single_value_block() {
    let buf = b"VALUE foo 0 3\r\nbar\r\nEND\r\n";
    let r = parse_ascii_response(buf);
    let expected = Value { key: b"foo".to_vec(), cas: None, flags: 0, data: b"bar".to_vec() };
    assert_eq!(r, Ok(Some((buf.len(), Response::Data(Some(vec![expected]))))));
}

#[test]
fn parse_value_block_with_flags_and_cas() {
    let buf = b"VALUE k 123 2 99\r\nhi\r\nEND\r\n";
    let r = parse_ascii_response(buf);
    let expected = Value { key: b"k".to_vec(), cas: Some(99), flags: 123, data: b"hi".to_vec() };
    assert_eq!(r, Ok(Some((buf.len(), Response::Data(Some(vec![expected]))))));
}

#[test]
fn parse_two_value_blocks() {
    let buf = b"VALUE a 0 1\r\nx\r\nVALUE b 0 2\r\nyz\r\nEND\r\n";
    let r = parse_ascii_response(buf);
    let a = Value { key: b"a".to_vec(), cas: None, flags: 0, data: b"x".to_vec() };
    let b = Value { key: b"b".to_vec(), cas: None, flags: 0, data: b"yz".to_vec() };
    assert_eq!(r, Ok(Some((buf.len(), Response::Data(Some(vec![a, b]))))));
}

#[test]
fn parse_binary_payload_may_hold_line_breaks() {
    let buf = b"VALUE k 0 4\r\nab\r\n\r\nEND\r\n";
    let r = parse_ascii_response(buf);
    let expected = Value { key: b"k".to_vec(), cas: None, flags: 0, data: b"ab\r\n".to_vec() };
    assert_eq!(r, Ok(Some((buf.len(), Response::Data(Some(vec![expected]))))));
}

#[test]
fn parse_value_incomplete_payload_asks_for_more() {
    assert_eq!(parse_ascii_response(b"VALUE foo 0 10\r\nbar"), Ok(None));
    assert_eq!(parse_ascii_response(b"VALUE foo 0 3\r\nbar"), Ok(None));
    assert_eq!(parse_ascii_response(b"VALUE foo 0 3\r\nbar\r\n"), Ok(None));
    assert_eq!(parse_ascii_response(b"VALUE foo 0 3\r\nbar\r\nEND"), Ok(None));
}

#[test]
fn parse_value_bad_length_is_malformed() {
    assert_eq!(parse_ascii_response(b"VALUE foo 0 xx\r\n"), Err(ErrorKind::Protocol(None)));
}

#[test]
fn parse_value_bad_flags_is_malformed() {
    assert_eq!(
        parse_ascii_response(b"VALUE foo 4294967296 3\r\nbar\r\nEND\r\n"),
        Err(ErrorKind::Protocol(None))
    );
}

#[test]
fn parse_value_unterminated_payload_is_malformed() {
    let r = parse_ascii_response(b"VALUE foo 0 3\r\nbarxxEND\r\n");
    assert_eq!(r, Err(ErrorKind::Protocol(None)));
}

#[test]
fn parse_unknown_line_is_malformed() {
    assert_eq!(parse_ascii_response(b"HELLO\r\n"), Err(ErrorKind::Protocol(None)));
}

#[test]
fn chunked_delivery_parses_identically() {
    let buf: &[u8] = b"VALUE foo 7 3\r\nbar\r\nEND\r\n";
    let whole = parse_ascii_response(buf);
    // Offering the buffer as it grows one byte at a time: every proper
    // prefix asks for more data, and the first complete buffer yields
    // exactly the whole-buffer outcome.
    for cut in 0..buf.len() {
        assert_eq!(parse_ascii_response(&buf[..cut]), Ok(None));
    }
    assert_eq!(parse_ascii_response(buf), whole);
    // The outcome also survives further bytes arriving behind it.
    let mut extended = buf.to_vec();
    extended.extend_from_slice(b"STORED\r\n");
    assert_eq!(parse_ascii_response(&extended), whole);
}

#[test]
fn chunked_delivery_of_status_line_parses_identically() {
    let buf: &[u8] = b"NOT_STORED\r\n";
    for cut in 0..buf.len() {
        assert_eq!(parse_ascii_response(&buf[..cut]), Ok(None));
    }
    let whole = parse_ascii_response(buf);
    assert_eq!(whole, Ok(Some((12, Response::Status(Status::NotStored)))));
    let mut extended = buf.to_vec();
    extended.extend_from_slice(b"ERROR\r\n");
    assert_eq!(parse_ascii_response(&extended), whole);
}
