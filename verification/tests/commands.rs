//! Tests of per-command response interpretation, multi-key store
//! correlation, the version line, and the receive buffer's driving cycle.

use memcache_client::buffer::{ParseStep, ReceiveBuffer};
use memcache_client::command::{
    arithmetic_result, correlate_store_failures, delete_result, get_many_result, get_result,
    store_failure, store_result, version_result,
};
use memcache_client::proto::{Error, ErrorKind, Response, Status, Value};
use memcache_client::response::parse_ascii_response;

fn protocol_none() -> Error {
    Error::Protocol(Status::Error(ErrorKind::Protocol(None)))
}

#[test]
fn get_missing_key_is_absent_not_error() {
    assert_eq!(get_result(Response::Data(None)), Ok(None));
    assert_eq!(get_result(Response::Status(Status::NotFound)), Ok(None));
}

#[test]
fn get_single_item_is_returned() {
    let v = Value { key: b"k".to_vec(), cas: None, flags: 0, data: b"hello".to_vec() };
    assert_eq!(get_result(Response::Data(Some(vec![v.clone()]))), Ok(Some(v)));
}

#[test]
fn get_more_items_than_asked_is_protocol_error() {
    let a = Value { key: b"a".to_vec(), cas: None, flags: 0, data: b"x".to_vec() };
    let b = Value { key: b"b".to_vec(), cas: None, flags: 0, data: b"y".to_vec() };
    assert_eq!(get_result(Response::Data(Some(vec![a, b]))), Err(protocol_none()));
}

#[test]
fn get_error_status_is_surfaced() {
    assert_eq!(
        get_result(Response::Status(Status::NotStored)),
        Err(Error::Protocol(Status::NotStored))
    );
}

#[test]
fn get_many_partial_result_is_not_an_error() {
    // The server was asked for `a` and `b` and answered with `b` alone.
    let (n, resp) = parse_ascii_response(b"VALUE b 0 3\r\nfoo\r\nEND\r\n").unwrap().unwrap();
    assert_eq!(n, 23);
    let items = get_many_result(resp).unwrap();
    assert_eq!(items.len(), 1);
    assert_eq!(items[0].key, b"b".to_vec());
    assert_eq!(items[0].data, b"foo".to_vec());
}

#[test]
fn get_many_absent_data_is_empty() {
    let (_, resp) = parse_ascii_response(b"END\r\n").unwrap().unwrap();
    assert_eq!(get_many_result(resp), Ok(vec![]));
}

#[test]
fn set_stored_is_success_not_stored_is_error() {
    let (_, stored) = parse_ascii_response(b"STORED\r\n").unwrap().unwrap();
    assert_eq!(store_result(stored), Ok(()));
    let (_, not_stored) = parse_ascii_response(b"NOT_STORED\r\n").unwrap().unwrap();
    assert_eq!(store_result(not_stored), Err(Error::Protocol(Status::NotStored)));
}

#[test]
fn delete_deleted_is_success_others_error() {
    assert_eq!(delete_result(Response::Status(Status::Deleted)), Ok(()));
    assert_eq!(
        delete_result(Response::Status(Status::NotFound)),
        Err(Error::Protocol(Status::NotFound))
    );
    assert_eq!(delete_result(Response::IncrDecr(1)), Err(protocol_none()));
}

#[test]
fn multi_store_correlation_keeps_only_failures() {
    // Two pairs written in order; the server answers STORED then NOT_STORED:
    // only the second key appears in the correlation, as its error.
    let responses = vec![
        Response::Status(Status::Stored),
        Response::Status(Status::NotStored),
    ];
    let failures = correlate_store_failures(responses);
    assert_eq!(failures, vec![(1, Error::Protocol(Status::NotStored))]);
}

#[test]
fn multi_store_correlation_all_stored_is_empty() {
    let responses = vec![
        Response::Status(Status::Stored),
        Response::Status(Status::Stored),
    ];
    assert_eq!(correlate_store_failures(responses), vec![]);
}

#[test]
fn multi_store_unexpected_response_is_protocol_error() {
    assert_eq!(store_failure(Response::Status(Status::Stored)), None);
    assert_eq!(store_failure(Response::IncrDecr(7)), Some(protocol_none()));
}

#[test]
fn arithmetic_reply_is_returned_verbatim() {
    // The counter sat at 18446744073709551615 and was incremented by 1; the
    // server wraps modulo 2^64 and replies `0`, which is returned as-is.
    let (_, resp) = parse_ascii_response(b"0\r\n").unwrap().unwrap();
    assert_eq!(arithmetic_result(resp), Ok(0));
    let (_, resp2) = parse_ascii_response(b"18446744073709551615\r\n").unwrap().unwrap();
    assert_eq!(arithmetic_result(resp2), Ok(u64::MAX));
}

#[test]
fn arithmetic_status_is_error() {
    assert_eq!(
        arithmetic_result(Response::Status(Status::NotFound)),
        Err(Error::Protocol(Status::NotFound))
    );
}

#[test]
fn version_line_is_stripped_and_trimmed() {
    assert_eq!(version_result(b"VERSION 1.6.7\r\n"), Ok("1.6.7".to_string()));
}

#[test]
fn version_short_line_is_protocol_error_with_raw_text() {
    assert_eq!(
        version_result(b"VER\r\n"),
        Err(Error::Protocol(Status::Error(ErrorKind::Protocol(Some("VER\r\n".to_string())))))
    );
}

#[test]
fn zero_byte_read_is_fatal_stream_closed() {
    // A transport read that returns zero bytes mid-response must surface a
    // fatal stream-closed failure, not be retried as an incomplete parse.
    let mut rb = ReceiveBuffer::new();
    rb.begin_cycle();
    assert_eq!(rb.feed(b"VALUE foo 0 3\r\nba"), Ok(()));
    assert_eq!(rb.feed(b""), Err(Error::Closed));
}

#[test]
fn driving_cycle_consumes_one_response_per_cycle() {
    // One physical read may hold many logical responses; each driving cycle
    // takes exactly one and the next cycle starts at the boundary.
    let mut rb = ReceiveBuffer::new();
    rb.begin_cycle();
    rb.feed(b"STORED\r\nDELETED\r\n42\r\n").unwrap();
    match rb.try_response() {
        ParseStep::Ready(resp) => assert_eq!(resp, Response::Status(Status::Stored)),
        _ => panic!("first response should be ready"),
    }
    rb.begin_cycle();
    match rb.try_response() {
        ParseStep::Ready(resp) => assert_eq!(resp, Response::Status(Status::Deleted)),
        _ => panic!("second response should be ready"),
    }
    rb.begin_cycle();
    match rb.try_response() {
        ParseStep::Ready(resp) => assert_eq!(resp, Response::IncrDecr(42)),
        _ => panic!("third response should be ready"),
    }
    rb.begin_cycle();
    assert!(rb.is_empty());
}

#[test]
fn driving_cycle_resumes_after_incomplete() {
    let mut rb = ReceiveBuffer::new();
    rb.begin_cycle();
    rb.feed(b"VALUE foo 0 3\r\nba").unwrap();
    assert!(matches!(rb.try_response(), ParseStep::Incomplete));
    rb.feed(b"r\r\nEND\r\n").unwrap();
    match rb.try_response() {
        ParseStep::Ready(Response::Data(Some(items))) => {
            assert_eq!(items.len(), 1);
            assert_eq!(items[0].data, b"bar".to_vec());
        }
        _ => panic!("response should be ready after the rest arrived"),
    }
}

#[test]
fn driving_cycle_surfaces_malformed_bytes() {
    let mut rb = ReceiveBuffer::new();
    rb.begin_cycle();
    rb.feed(b"BOGUS\r\n").unwrap();
    match rb.try_response() {
        ParseStep::Failed(e) => assert_eq!(e, protocol_none()),
        _ => panic!("malformed bytes should fail the cycle"),
    }
}
