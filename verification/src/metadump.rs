//! The metadump response grammar: one crawled key's metadata line, a `BUSY`
//! or `BADCLASS` rejection, or the terminating `END` line per parse cycle.
//! A metadata line carries exactly seven `name=value` fields in fixed order:
//! `key= exp= la= cas= fetch= cls= size=`; a field that fails to decode as
//! its declared type makes the line malformed, never a silent default.

use vstd::prelude::*;
use crate::kw::{
    kw_badclass_sp, kw_busy_sp, kw_cas_eq, kw_cls_eq, kw_end, kw_exp_eq, kw_fetch_eq, kw_key_eq,
    kw_la_eq, kw_no, kw_size_eq, kw_yes, line_is_end, line_starts_badclass, line_starts_busy,
    starts_with, tok_is_no, tok_is_yes, tok_starts_cas, tok_starts_cls, tok_starts_exp,
    tok_starts_fetch, tok_starts_key, tok_starts_la, tok_starts_size,
};
use crate::proto::{
    ErrorKind, ErrorKindModel, KeyMetadata, KeyMetadataModel, MetadumpModel, MetadumpResponse,
    SpecParse,
};
use crate::text::{
    SPACE, all_digits, bytes_to_string, chars_of, digits_val, find_byte, find_byte_at, find_crlf,
    find_crlf_at, int_literal_shape, int_literal_val, lemma_find_crlf_at_extend,
    lemma_find_crlf_at_some, parse_i64, parse_u32, parse_u64,
};

verus! {

/// Decodes a `key=<text>` field; the key must be non-empty.
pub open spec fn spec_field_key(t: Seq<u8>) -> Option<Seq<char>> {
    if starts_with(t, kw_key_eq()) && t.len() > kw_key_eq().len() {
        Some(chars_of(t.skip(kw_key_eq().len() as int)))
    } else {
        None
    }
}

/// Decodes an `exp=<signed number>` field fitting an `i64`.
pub open spec fn spec_field_exp(t: Seq<u8>) -> Option<i64> {
    if starts_with(t, kw_exp_eq()) {
        let v = t.skip(kw_exp_eq().len() as int);
        if int_literal_shape(v) && i64::MIN as int <= int_literal_val(v) <= i64::MAX as int {
            Some(int_literal_val(v) as i64)
        } else {
            None
        }
    } else {
        None
    }
}

/// Decodes a `<name>=<unsigned number>` field fitting a `u64`.
pub open spec fn spec_field_u64(t: Seq<u8>, prefix: Seq<u8>) -> Option<u64> {
    if starts_with(t, prefix) {
        let v = t.skip(prefix.len() as int);
        if v.len() > 0 && all_digits(v) && digits_val(v) <= u64::MAX as int {
            Some(digits_val(v) as u64)
        } else {
            None
        }
    } else {
        None
    }
}

/// Decodes a `<name>=<unsigned number>` field fitting a `u32`.
pub open spec fn spec_field_u32(t: Seq<u8>, prefix: Seq<u8>) -> Option<u32> {
    if starts_with(t, prefix) {
        let v = t.skip(prefix.len() as int);
        if v.len() > 0 && all_digits(v) && digits_val(v) <= u32::MAX as int {
            Some(digits_val(v) as u32)
        } else {
            None
        }
    } else {
        None
    }
}

/// Decodes a `fetch=yes` or `fetch=no` field.
pub open spec fn spec_field_fetch(t: Seq<u8>) -> Option<bool> {
    if starts_with(t, kw_fetch_eq()) {
        let v = t.skip(kw_fetch_eq().len() as int);
        if v == kw_yes() {
            Some(true)
        } else if v == kw_no() {
            Some(false)
        } else {
            None
        }
    } else {
        None
    }
}

/// Assembles the seven decoded fields of a metadata line, in their fixed
/// order; any field that fails to decode fails the whole line.
pub open spec fn spec_fields(
    t1: Seq<u8>,
    t2: Seq<u8>,
    t3: Seq<u8>,
    t4: Seq<u8>,
    t5: Seq<u8>,
    t6: Seq<u8>,
    t7: Seq<u8>,
) -> Option<KeyMetadataModel> {
    match (
        spec_field_key(t1),
        spec_field_exp(t2),
        spec_field_u64(t3, kw_la_eq()),
        spec_field_u64(t4, kw_cas_eq()),
        spec_field_fetch(t5),
        spec_field_u32(t6, kw_cls_eq()),
        spec_field_u32(t7, kw_size_eq()),
    ) {
        (
            Some(key),
            Some(expiration),
            Some(last_accessed),
            Some(cas),
            Some(fetched),
            Some(class_id),
            Some(size),
        ) => Some(
            KeyMetadataModel { key, expiration, last_accessed, cas, fetched, class_id, size },
        ),
        _ => None,
    }
}

/// Splits a metadata line into its seven space-separated tokens and decodes
/// them; a line with fewer or more tokens is not part of the protocol.
pub open spec fn spec_parse_metadata(line: Seq<u8>) -> Option<KeyMetadataModel> {
    match find_byte_at(line, SPACE, 0) {
        None => None,
        Some(p1) => {
            let t1 = line.subrange(0, p1);
            let l2 = line.skip(p1 + 1);
            match find_byte_at(l2, SPACE, 0) {
                None => None,
                Some(p2) => {
                    let t2 = l2.subrange(0, p2);
                    let l3 = l2.skip(p2 + 1);
                    match find_byte_at(l3, SPACE, 0) {
                        None => None,
                        Some(p3) => {
                            let t3 = l3.subrange(0, p3);
                            let l4 = l3.skip(p3 + 1);
                            match find_byte_at(l4, SPACE, 0) {
                                None => None,
                                Some(p4) => {
                                    let t4 = l4.subrange(0, p4);
                                    let l5 = l4.skip(p4 + 1);
                                    match find_byte_at(l5, SPACE, 0) {
                                        None => None,
                                        Some(p5) => {
                                            let t5 = l5.subrange(0, p5);
                                            let l6 = l5.skip(p5 + 1);
                                            match find_byte_at(l6, SPACE, 0) {
                                                None => None,
                                                Some(p6) => {
                                                    let t6 = l6.subrange(0, p6);
                                                    let t7 = l6.skip(p6 + 1);
                                                    if find_byte_at(t7, SPACE, 0) is Some {
                                                        None
                                                    } else {
                                                        spec_fields(t1, t2, t3, t4, t5, t6, t7)
                                                    }
                                                },
                                            }
                                        },
                                    }
                                },
                            }
                        },
                    }
                },
            }
        },
    }
}

/// The metadump grammar, one line per cycle: `END` terminates the crawl,
/// `BUSY <msg>` and `BADCLASS <msg>` reject it with the message verbatim, and
/// any other line must be a seven-field metadata entry.
pub open spec fn spec_parse_metadump(s: Seq<u8>) -> SpecParse<MetadumpModel> {
    match find_crlf_at(s, 0) {
        None => SpecParse::Incomplete,
        Some(i) => {
            let line = s.subrange(0, i);
            let n = i + 2;
            if line == kw_end() {
                SpecParse::Done(n, MetadumpModel::End)
            } else if starts_with(line, kw_busy_sp()) {
                SpecParse::Done(
                    n,
                    MetadumpModel::Busy(chars_of(line.skip(kw_busy_sp().len() as int))),
                )
            } else if starts_with(line, kw_badclass_sp()) {
                SpecParse::Done(
                    n,
                    MetadumpModel::BadClass(chars_of(line.skip(kw_badclass_sp().len() as int))),
                )
            } else {
                match spec_parse_metadata(line) {
                    None => SpecParse::Malformed(ErrorKindModel::Protocol(None)),
                    Some(m) => SpecParse::Done(n, MetadumpModel::Entry(m)),
                }
            }
        },
    }
}

/// Streaming invariance of the metadump grammar: once a buffer holds a
/// complete or malformed metadump line, reading more bytes changes neither
/// the outcome nor the consumed-byte count, so feeding a byte stream in
/// arbitrary chunk sizes always yields the same entries.
pub proof fn lemma_parse_metadump_extend(s: Seq<u8>, t: Seq<u8>)
    requires
        s.is_prefix_of(t),
        !(spec_parse_metadump(s) is Incomplete),
    ensures
        spec_parse_metadump(t) == spec_parse_metadump(s),
{
    let fs = find_crlf_at(s, 0);
    assert(fs is Some);
    let i = fs->Some_0;
    lemma_find_crlf_at_some(s, 0, i);
    lemma_find_crlf_at_extend(s, t, 0);
    assert(t.subrange(0, i) =~= s.subrange(0, i));
}

/// How an executable metadump parse result corresponds to the grammar.
pub open spec fn metadump_outcome_matches(
    s: Seq<u8>,
    r: Result<Option<(usize, MetadumpResponse)>, ErrorKind>,
) -> bool {
    match r {
        Ok(None) => spec_parse_metadump(s) is Incomplete,
        Ok(Some((n, resp))) => spec_parse_metadump(s) == SpecParse::Done(n as int, resp@) && n
            <= s.len(),
        Err(k) => spec_parse_metadump(s) == SpecParse::<MetadumpModel>::Malformed(k@),
    }
}

/// Decodes the seven fields of a metadata line, already split into tokens.
fn parse_fields(
    t1: &[u8],
    t2: &[u8],
    t3: &[u8],
    t4: &[u8],
    t5: &[u8],
    t6: &[u8],
    t7: &[u8],
) -> (r: Option<KeyMetadata>)
    ensures
        match r {
            Some(m) => spec_fields(t1@, t2@, t3@, t4@, t5@, t6@, t7@) == Some(m@),
            None => spec_fields(t1@, t2@, t3@, t4@, t5@, t6@, t7@) is None,
        },
{
    if !(t1.len() > 4 && tok_starts_key(t1)) {
        return None;
    }
    let key = bytes_to_string(vstd::slice::slice_subrange(t1, 4, t1.len()));
    proof {
        assert(t1@.subrange(4, t1@.len() as int) =~= t1@.skip(kw_key_eq().len() as int));
    }
    if !tok_starts_exp(t2) {
        return None;
    }
    let exp_tok = vstd::slice::slice_subrange(t2, 4, t2.len());
    proof {
        assert(exp_tok@ =~= t2@.skip(kw_exp_eq().len() as int));
    }
    let expiration = match parse_i64(exp_tok) {
        None => {
            return None;
        },
        Some(v) => v,
    };
    if !tok_starts_la(t3) {
        return None;
    }
    let la_tok = vstd::slice::slice_subrange(t3, 3, t3.len());
    proof {
        assert(la_tok@ =~= t3@.skip(kw_la_eq().len() as int));
    }
    let last_accessed = match parse_u64(la_tok) {
        None => {
            return None;
        },
        Some(v) => v,
    };
    if !tok_starts_cas(t4) {
        return None;
    }
    let cas_tok = vstd::slice::slice_subrange(t4, 4, t4.len());
    proof {
        assert(cas_tok@ =~= t4@.skip(kw_cas_eq().len() as int));
    }
    let cas = match parse_u64(cas_tok) {
        None => {
            return None;
        },
        Some(v) => v,
    };
    if !tok_starts_fetch(t5) {
        return None;
    }
    let fetch_tok = vstd::slice::slice_subrange(t5, 6, t5.len());
    proof {
        assert(fetch_tok@ =~= t5@.skip(kw_fetch_eq().len() as int));
    }
    let fetched = if tok_is_yes(fetch_tok) {
        true
    } else if tok_is_no(fetch_tok) {
        false
    } else {
        return None;
    };
    if !tok_starts_cls(t6) {
        return None;
    }
    let cls_tok = vstd::slice::slice_subrange(t6, 4, t6.len());
    proof {
        assert(cls_tok@ =~= t6@.skip(kw_cls_eq().len() as int));
    }
    let class_id = match parse_u32(cls_tok) {
        None => {
            return None;
        },
        Some(v) => v,
    };
    if !tok_starts_size(t7) {
        return None;
    }
    let size_tok = vstd::slice::slice_subrange(t7, 5, t7.len());
    proof {
        assert(size_tok@ =~= t7@.skip(kw_size_eq().len() as int));
    }
    let size = match parse_u32(size_tok) {
        None => {
            return None;
        },
        Some(v) => v,
    };
    Some(KeyMetadata { key, expiration, last_accessed, cas, fetched, class_id, size })
}

/// Splits a metadata line into its seven tokens and decodes them.
fn parse_metadata(line: &[u8]) -> (r: Option<KeyMetadata>)
    ensures
        match r {
            Some(m) => spec_parse_metadata(line@) == Some(m@),
            None => spec_parse_metadata(line@) is None,
        },
{
    let p1 = match find_byte(line, SPACE, 0) {
        None => {
            return None;
        },
        Some(p) => p,
    };
    let t1 = vstd::slice::slice_subrange(line, 0, p1);
    let l2 = vstd::slice::slice_subrange(line, p1 + 1, line.len());
    proof {
        assert(l2@ =~= line@.skip(p1 + 1));
    }
    let p2 = match find_byte(l2, SPACE, 0) {
        None => {
            return None;
        },
        Some(p) => p,
    };
    let t2 = vstd::slice::slice_subrange(l2, 0, p2);
    let l3 = vstd::slice::slice_subrange(l2, p2 + 1, l2.len());
    proof {
        assert(l3@ =~= l2@.skip(p2 + 1));
    }
    let p3 = match find_byte(l3, SPACE, 0) {
        None => {
            return None;
        },
        Some(p) => p,
    };
    let t3 = vstd::slice::slice_subrange(l3, 0, p3);
    let l4 = vstd::slice::slice_subrange(l3, p3 + 1, l3.len());
    proof {
        assert(l4@ =~= l3@.skip(p3 + 1));
    }
    let p4 = match find_byte(l4, SPACE, 0) {
        None => {
            return None;
        },
        Some(p) => p,
    };
    let t4 = vstd::slice::slice_subrange(l4, 0, p4);
    let l5 = vstd::slice::slice_subrange(l4, p4 + 1, l4.len());
    proof {
        assert(l5@ =~= l4@.skip(p4 + 1));
    }
    let p5 = match find_byte(l5, SPACE, 0) {
        None => {
            return None;
        },
        Some(p) => p,
    };
    let t5 = vstd::slice::slice_subrange(l5, 0, p5);
    let l6 = vstd::slice::slice_subrange(l5, p5 + 1, l5.len());
    proof {
        assert(l6@ =~= l5@.skip(p5 + 1));
    }
    let p6 = match find_byte(l6, SPACE, 0) {
        None => {
            return None;
        },
        Some(p) => p,
    };
    let t6 = vstd::slice::slice_subrange(l6, 0, p6);
    let t7 = vstd::slice::slice_subrange(l6, p6 + 1, l6.len());
    proof {
        assert(t7@ =~= l6@.skip(p6 + 1));
    }
    if find_byte(t7, SPACE, 0).is_some() {
        return None;
    }
    parse_fields(t1, t2, t3, t4, t5, t6, t7)
}

/// Parses at most one metadump response from the front of `buf`.
///
/// Returns `Ok(None)` when the buffer does not yet hold a complete line,
/// `Ok(Some((n, resp)))` when its first `n` bytes form exactly one crawl
/// entry, rejection, or the terminator, and `Err(kind)` when the line cannot
/// be part of the protocol.
pub fn parse_ascii_metadump_response(buf: &[u8]) -> (r: Result<
    Option<(usize, MetadumpResponse)>,
    ErrorKind,
>)
    ensures
        metadump_outcome_matches(buf@, r),
{
    let i = match find_crlf(buf, 0) {
        None => {
            return Ok(None);
        },
        Some(i) => i,
    };
    let line = vstd::slice::slice_subrange(buf, 0, i);
    if line_is_end(line) {
        Ok(Some((i + 2, MetadumpResponse::End)))
    } else if line_starts_busy(line) {
        let msg = bytes_to_string(vstd::slice::slice_subrange(line, 5, line.len()));
        proof {
            assert(line@.subrange(5, line@.len() as int) =~= line@.skip(
                kw_busy_sp().len() as int,
            ));
        }
        Ok(Some((i + 2, MetadumpResponse::Busy(msg))))
    } else if line_starts_badclass(line) {
        let msg = bytes_to_string(vstd::slice::slice_subrange(line, 9, line.len()));
        proof {
            assert(line@.subrange(9, line@.len() as int) =~= line@.skip(
                kw_badclass_sp().len() as int,
            ));
        }
        Ok(Some((i + 2, MetadumpResponse::BadClass(msg))))
    } else {
        match parse_metadata(line) {
            Some(m) => Ok(Some((i + 2, MetadumpResponse::Entry(m)))),
            None => Err(ErrorKind::Protocol(None)),
        }
    }
}

} // verus!
