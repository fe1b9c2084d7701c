//! Tests of the statistics and metadump grammars and their driving-loop
//! decision tables.

use memcache_client::command::{stats_absorb, MetadumpCursor, MetadumpStep};
use memcache_client::metadump::parse_ascii_metadump_response;
use memcache_client::proto::{
    Error, ErrorKind, KeyMetadata, MetadumpResponse, StatsResponse, Status,
};
use memcache_client::stats::parse_ascii_stats_response;

#[test]
fn parse_stat_entry_line() {
    let r = parse_ascii_stats_response(b"STAT pid 123\r\n");
    assert_eq!(
        r,
        Ok(Some((14, StatsResponse::Entry("pid".to_string(), "123".to_string()))))
    );
}

#[test]
fn parse_stats_end_line() {
    assert_eq!(parse_ascii_stats_response(b"END\r\n"), Ok(Some((5, StatsResponse::End))));
}

#[test]
fn parse_stat_value_may_hold_spaces() {
    let r = parse_ascii_stats_response(b"STAT version 1.6.7 ubuntu\r\n");
    assert_eq!(
        r,
        Ok(Some((27, StatsResponse::Entry("version".to_string(), "1.6.7 ubuntu".to_string()))))
    );
}

#[test]
fn parse_stat_without_value_is_malformed() {
    assert_eq!(parse_ascii_stats_response(b"STAT pid\r\n"), Err(ErrorKind::Protocol(None)));
}

#[test]
fn parse_stat_incomplete_asks_for_more() {
    assert_eq!(parse_ascii_stats_response(b"STAT pid 12"), Ok(None));
}

#[test]
fn stats_collection_maps_names_to_text() {
    let mut buf: Vec<u8> = b"STAT pid 123\r\nSTAT uptime 456\r\nEND\r\n".to_vec();
    let mut entries: Vec<(String, String)> = Vec::new();
    loop {
        let (n, resp) = parse_ascii_stats_response(&buf).unwrap().unwrap();
        buf.drain(..n);
        if stats_absorb(&mut entries, resp) {
            break;
        }
    }
    assert_eq!(
        entries,
        vec![
            ("pid".to_string(), "123".to_string()),
            ("uptime".to_string(), "456".to_string()),
        ]
    );
    assert!(buf.is_empty());
}

#[test]
fn parse_metadump_entry_line() {
    let buf = b"key=foo exp=-1 la=0 cas=1 fetch=no cls=1 size=10\r\n";
    let r = parse_ascii_metadump_response(buf);
    let expected = KeyMetadata {
        key: "foo".to_string(),
        expiration: -1,
        last_accessed: 0,
        cas: 1,
        fetched: false,
        class_id: 1,
        size: 10,
    };
    assert_eq!(r, Ok(Some((buf.len(), MetadumpResponse::Entry(expected)))));
}

#[test]
fn parse_metadump_fetched_entry() {
    let buf = b"key=bar exp=3600 la=170000 cas=42 fetch=yes cls=5 size=333\r\n";
    let r = parse_ascii_metadump_response(buf);
    let expected = KeyMetadata {
        key: "bar".to_string(),
        expiration: 3600,
        last_accessed: 170000,
        cas: 42,
        fetched: true,
        class_id: 5,
        size: 333,
    };
    assert_eq!(r, Ok(Some((buf.len(), MetadumpResponse::Entry(expected)))));
}

#[test]
fn parse_metadump_end_busy_badclass() {
    assert_eq!(parse_ascii_metadump_response(b"END\r\n"), Ok(Some((5, MetadumpResponse::End))));
    assert_eq!(
        parse_ascii_metadump_response(b"BUSY crawler is busy\r\n"),
        Ok(Some((22, MetadumpResponse::Busy("crawler is busy".to_string()))))
    );
    assert_eq!(
        parse_ascii_metadump_response(b"BADCLASS invalid class id\r\n"),
        Ok(Some((27, MetadumpResponse::BadClass("invalid class id".to_string()))))
    );
}

#[test]
fn parse_metadump_bad_field_is_malformed() {
    let buf = b"key=foo exp=abc la=0 cas=1 fetch=no cls=1 size=10\r\n";
    assert_eq!(parse_ascii_metadump_response(buf), Err(ErrorKind::Protocol(None)));
    let buf2 = b"key=foo exp=-1 la=0 cas=1 fetch=maybe cls=1 size=10\r\n";
    assert_eq!(parse_ascii_metadump_response(buf2), Err(ErrorKind::Protocol(None)));
}

#[test]
fn parse_metadump_missing_field_is_malformed() {
    let buf = b"key=foo exp=-1 la=0 cas=1 fetch=no cls=1\r\n";
    assert_eq!(parse_ascii_metadump_response(buf), Err(ErrorKind::Protocol(None)));
}

#[test]
fn metadump_iteration_yields_entry_then_terminates() {
    let mut buf: Vec<u8> = b"key=foo exp=-1 la=0 cas=1 fetch=no cls=1 size=10\r\nEND\r\n".to_vec();
    let mut cursor = MetadumpCursor::new();
    let mut items: Vec<KeyMetadata> = Vec::new();
    while !cursor.done() {
        let (n, resp) = parse_ascii_metadump_response(&buf).unwrap().unwrap();
        buf.drain(..n);
        match cursor.apply(resp) {
            MetadumpStep::Item(km) => items.push(km),
            MetadumpStep::Fault(e) => panic!("unexpected fault: {:?}", e),
            MetadumpStep::Finished => {}
        }
    }
    assert_eq!(items.len(), 1);
    assert_eq!(items[0].key, "foo".to_string());
    // Once finished, further pulls keep reporting so, without an error.
    assert!(cursor.done());
    assert!(matches!(cursor.apply(MetadumpResponse::End), MetadumpStep::Finished));
    assert!(matches!(
        cursor.apply(MetadumpResponse::Busy("late".to_string())),
        MetadumpStep::Finished
    ));
}

#[test]
fn metadump_busy_surfaces_error_but_stays_open() {
    let mut cursor = MetadumpCursor::new();
    let step = cursor.apply(MetadumpResponse::Busy("crawler is busy".to_string()));
    match step {
        MetadumpStep::Fault(Error::Protocol(Status::Error(ErrorKind::Protocol(Some(m))))) => {
            assert_eq!(m, "crawler is busy".to_string());
        }
        other => panic!("unexpected step: {:?}", to_debug(&other)),
    }
    assert!(!cursor.done());
}

#[test]
fn metadump_badclass_surfaces_error_and_finishes() {
    let mut cursor = MetadumpCursor::new();
    let step = cursor.apply(MetadumpResponse::BadClass("invalid class id".to_string()));
    match step {
        MetadumpStep::Fault(Error::Protocol(Status::Error(ErrorKind::Protocol(Some(m))))) => {
            assert_eq!(m, "invalid class id".to_string());
        }
        other => panic!("unexpected step: {:?}", to_debug(&other)),
    }
    assert!(cursor.done());
}

fn to_debug(step: &MetadumpStep) -> String {
    match step {
        MetadumpStep::Item(km) => format!("Item({})", km.key),
        MetadumpStep::Fault(_) => "Fault".to_string(),
        MetadumpStep::Finished => "Finished".to_string(),
    }
}
