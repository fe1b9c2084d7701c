//! The standard response grammar: status lines, numeric arithmetic replies,
//! and data responses made of `VALUE` header/payload blocks terminated by
//! `END`. The spec-level parser defines the grammar; the executable parser is
//! proved to return exactly what the spec parser denotes.

use vstd::prelude::*;
use crate::kw::{
    starts_with, kw_stored, kw_not_stored, kw_exists, kw_deleted, kw_not_found, kw_touched,
    kw_error, kw_end, kw_client_error_sp, kw_server_error_sp, kw_value_sp, line_is_stored,
    line_is_not_stored, line_is_exists, line_is_deleted, line_is_not_found, line_is_touched,
    line_is_error, line_is_end, line_starts_client_error, line_starts_server_error,
    line_starts_value,
};
use crate::proto::{
    ErrorKind, ErrorKindModel, Response, ResponseModel, SpecParse, Status, StatusModel, Value,
    ValueModel, value_models,
};
use crate::text::{
    CR, LF, SPACE, all_digits, bytes_to_string, chars_of, check_all_digits, copy_range,
    digits_val, find_byte, find_byte_at, find_crlf, find_crlf_at, lemma_digits_val_nonneg,
    lemma_find_crlf_at_extend, lemma_find_crlf_at_some, parse_u32, parse_u64,
};

verus! {

/// The fields declared by one `VALUE` header line: `<key> <flags> <bytes>
/// [<cas>]`.
pub struct HeaderModel {
    pub key: Seq<u8>,
    pub flags: u32,
    pub len: int,
    pub cas: Option<u64>,
}

/// Parses the token text after `VALUE `. Tokens are separated by single
/// spaces; the key must be non-empty; flags must fit 32 bits; the declared
/// payload length and the optional CAS token must fit 64 bits. Any other
/// shape is not part of the protocol.
pub open spec fn spec_parse_header(rest: Seq<u8>) -> Option<HeaderModel> {
    match find_byte_at(rest, SPACE, 0) {
        None => None,
        Some(sp1) => if sp1 == 0 {
            None
        } else {
            let key = rest.subrange(0, sp1);
            let r2 = rest.skip(sp1 + 1);
            match find_byte_at(r2, SPACE, 0) {
                None => None,
                Some(sp2) => {
                    let flags_tok = r2.subrange(0, sp2);
                    let r3 = r2.skip(sp2 + 1);
                    if !(flags_tok.len() > 0 && all_digits(flags_tok) && digits_val(flags_tok)
                        <= u32::MAX as int) {
                        None
                    } else {
                        match find_byte_at(r3, SPACE, 0) {
                            None => if r3.len() > 0 && all_digits(r3) && digits_val(r3)
                                <= u64::MAX as int {
                                Some(
                                    HeaderModel {
                                        key,
                                        flags: digits_val(flags_tok) as u32,
                                        len: digits_val(r3),
                                        cas: None,
                                    },
                                )
                            } else {
                                None
                            },
                            Some(sp3) => {
                                let len_tok = r3.subrange(0, sp3);
                                let cas_tok = r3.skip(sp3 + 1);
                                if len_tok.len() > 0 && all_digits(len_tok) && digits_val(len_tok)
                                    <= u64::MAX as int && cas_tok.len() > 0 && all_digits(cas_tok)
                                    && digits_val(cas_tok) <= u64::MAX as int {
                                    Some(
                                        HeaderModel {
                                            key,
                                            flags: digits_val(flags_tok) as u32,
                                            len: digits_val(len_tok),
                                            cas: Some(digits_val(cas_tok) as u64),
                                        },
                                    )
                                } else {
                                    None
                                }
                            },
                        }
                    }
                },
            }
        },
    }
}

/// A parsed header declares a non-negative payload length.
pub proof fn lemma_header_len_nonneg(rest: Seq<u8>)
    requires
        spec_parse_header(rest) is Some,
    ensures
        spec_parse_header(rest)->Some_0.len >= 0,
{
    let sp1 = find_byte_at(rest, SPACE, 0)->Some_0;
    let r2 = rest.skip(sp1 + 1);
    let sp2 = find_byte_at(r2, SPACE, 0)->Some_0;
    let r3 = r2.skip(sp2 + 1);
    match find_byte_at(r3, SPACE, 0) {
        None => {
            lemma_digits_val_nonneg(r3);
        },
        Some(sp3) => {
            lemma_digits_val_nonneg(r3.subrange(0, sp3));
        },
    }
}

/// Parses `VALUE` blocks from `pos` onward, with `acc` holding the values of
/// the blocks already consumed, until the terminating `END` line. A block
/// whose declared payload has not fully arrived keeps the whole response
/// incomplete; a header or payload terminator that cannot be part of the
/// protocol makes it malformed.
pub open spec fn spec_parse_data(s: Seq<u8>, pos: int, acc: Seq<ValueModel>) -> SpecParse<
    ResponseModel,
>
    decreases s.len() - pos,
        via spec_parse_data_dec
{
    match find_crlf_at(s, pos) {
        None => SpecParse::Incomplete,
        Some(i) => {
            let line = s.subrange(pos, i);
            if line == kw_end() {
                SpecParse::Done(i + 2, ResponseModel::Data(Some(acc)))
            } else if starts_with(line, kw_value_sp()) {
                match spec_parse_header(line.skip(kw_value_sp().len() as int)) {
                    None => SpecParse::Malformed(ErrorKindModel::Protocol(None)),
                    Some(h) => {
                        let data_start = i + 2;
                        let data_end = data_start + h.len;
                        if data_end + 2 > s.len() {
                            SpecParse::Incomplete
                        } else if s[data_end] == CR && s[data_end + 1] == LF {
                            spec_parse_data(
                                s,
                                data_end + 2,
                                acc.push(
                                    ValueModel {
                                        key: h.key,
                                        cas: h.cas,
                                        flags: h.flags,
                                        data: s.subrange(data_start, data_end),
                                    },
                                ),
                            )
                        } else {
                            SpecParse::Malformed(ErrorKindModel::Protocol(None))
                        }
                    },
                }
            } else {
                SpecParse::Malformed(ErrorKindModel::Protocol(None))
            }
        },
    }
}

#[via_fn]
proof fn spec_parse_data_dec(s: Seq<u8>, pos: int, acc: Seq<ValueModel>) {
    match find_crlf_at(s, pos) {
        None => {},
        Some(i) => {
            lemma_find_crlf_at_some(s, pos, i);
            let line = s.subrange(pos, i);
            if line != kw_end() && starts_with(line, kw_value_sp()) {
                if spec_parse_header(line.skip(kw_value_sp().len() as int)) is Some {
                    lemma_header_len_nonneg(line.skip(kw_value_sp().len() as int));
                }
            }
        },
    }
}

/// The standard grammar, dispatched on the first complete line: a bare status
/// keyword, an error line, a purely numeric arithmetic reply, a bare `END`
/// (a data response with no items), or one or more `VALUE` blocks.
pub open spec fn spec_parse_response(s: Seq<u8>) -> SpecParse<ResponseModel> {
    match find_crlf_at(s, 0) {
        None => SpecParse::Incomplete,
        Some(i) => {
            let line = s.subrange(0, i);
            let n = i + 2;
            if line == kw_stored() {
                SpecParse::Done(n, ResponseModel::Status(StatusModel::Stored))
            } else if line == kw_not_stored() {
                SpecParse::Done(n, ResponseModel::Status(StatusModel::NotStored))
            } else if line == kw_exists() {
                SpecParse::Done(n, ResponseModel::Status(StatusModel::Exists))
            } else if line == kw_deleted() {
                SpecParse::Done(n, ResponseModel::Status(StatusModel::Deleted))
            } else if line == kw_not_found() {
                SpecParse::Done(n, ResponseModel::Status(StatusModel::NotFound))
            } else if line == kw_touched() {
                SpecParse::Done(n, ResponseModel::Status(StatusModel::Touched))
            } else if line == kw_error() {
                SpecParse::Done(
                    n,
                    ResponseModel::Status(StatusModel::Error(ErrorKindModel::Generic)),
                )
            } else if starts_with(line, kw_client_error_sp()) {
                SpecParse::Done(
                    n,
                    ResponseModel::Status(
                        StatusModel::Error(
                            ErrorKindModel::Client(
                                chars_of(line.skip(kw_client_error_sp().len() as int)),
                            ),
                        ),
                    ),
                )
            } else if starts_with(line, kw_server_error_sp()) {
                SpecParse::Done(
                    n,
                    ResponseModel::Status(
                        StatusModel::Error(
                            ErrorKindModel::Server(
                                chars_of(line.skip(kw_server_error_sp().len() as int)),
                            ),
                        ),
                    ),
                )
            } else if line.len() > 0 && all_digits(line) {
                if digits_val(line) <= u64::MAX as int {
                    SpecParse::Done(n, ResponseModel::IncrDecr(digits_val(line) as u64))
                } else {
                    SpecParse::Malformed(ErrorKindModel::Protocol(None))
                }
            } else if line == kw_end() {
                SpecParse::Done(n, ResponseModel::Data(None))
            } else if starts_with(line, kw_value_sp()) {
                spec_parse_data(s, 0, Seq::empty())
            } else {
                SpecParse::Malformed(ErrorKindModel::Protocol(None))
            }
        },
    }
}

/// Reading more bytes never changes an already-recognized block sequence:
/// once `VALUE` block parsing from `pos` is complete or malformed on `s`,
/// it denotes the same outcome on any extension of `s`.
pub proof fn lemma_parse_data_extend(s: Seq<u8>, t: Seq<u8>, pos: int, acc: Seq<ValueModel>)
    requires
        0 <= pos,
        s.is_prefix_of(t),
        !(spec_parse_data(s, pos, acc) is Incomplete),
    ensures
        spec_parse_data(t, pos, acc) == spec_parse_data(s, pos, acc),
    decreases s.len() - pos,
{
    let fs = find_crlf_at(s, pos);
    assert(fs is Some);
    let i = fs->Some_0;
    lemma_find_crlf_at_some(s, pos, i);
    lemma_find_crlf_at_extend(s, t, pos);
    assert(t.subrange(pos, i) =~= s.subrange(pos, i));
    let line = s.subrange(pos, i);
    if line == kw_end() {
    } else if starts_with(line, kw_value_sp()) {
        match spec_parse_header(line.skip(kw_value_sp().len() as int)) {
            None => {},
            Some(h) => {
                lemma_header_len_nonneg(line.skip(kw_value_sp().len() as int));
                let data_start = i + 2;
                let data_end = data_start + h.len;
                assert(data_end + 2 <= s.len());
                if s[data_end] == CR && s[data_end + 1] == LF {
                    assert(t.subrange(data_start, data_end) =~= s.subrange(data_start, data_end));
                    lemma_parse_data_extend(
                        s,
                        t,
                        data_end + 2,
                        acc.push(
                            ValueModel {
                                key: h.key,
                                cas: h.cas,
                                flags: h.flags,
                                data: s.subrange(data_start, data_end),
                            },
                        ),
                    );
                }
            },
        }
    } else {
    }
}

/// Streaming invariance of the standard grammar: once a buffer holds a
/// complete or malformed response, reading more bytes changes neither the
/// outcome nor the consumed-byte count. Together with the parser being a
/// function of the buffer alone, this means feeding a byte stream in
/// arbitrary chunk sizes always yields the same typed response.
pub proof fn lemma_parse_response_extend(s: Seq<u8>, t: Seq<u8>)
    requires
        s.is_prefix_of(t),
        !(spec_parse_response(s) is Incomplete),
    ensures
        spec_parse_response(t) == spec_parse_response(s),
{
    let fs = find_crlf_at(s, 0);
    assert(fs is Some);
    let i = fs->Some_0;
    lemma_find_crlf_at_some(s, 0, i);
    lemma_find_crlf_at_extend(s, t, 0);
    assert(t.subrange(0, i) =~= s.subrange(0, i));
    let line = s.subrange(0, i);
    if line == kw_stored() || line == kw_not_stored() || line == kw_exists() || line
        == kw_deleted() || line == kw_not_found() || line == kw_touched() || line == kw_error()
        || starts_with(line, kw_client_error_sp()) || starts_with(line, kw_server_error_sp()) || (
    line.len() > 0 && all_digits(line)) || line == kw_end() {
    } else if starts_with(line, kw_value_sp()) {
        lemma_parse_data_extend(s, t, 0, Seq::empty());
    } else {
    }
}

/// How an executable parse result corresponds to the grammar: `Ok(None)`
/// means incomplete, `Ok(Some((n, resp)))` means the first `n` buffer bytes
/// form exactly the response `resp`, and `Err(k)` means the bytes cannot be
/// part of the protocol.
pub open spec fn response_outcome_matches(
    s: Seq<u8>,
    r: Result<Option<(usize, Response)>, ErrorKind>,
) -> bool {
    match r {
        Ok(None) => spec_parse_response(s) is Incomplete,
        Ok(Some((n, resp))) => spec_parse_response(s) == SpecParse::Done(n as int, resp@) && n
            <= s.len(),
        Err(k) => spec_parse_response(s) == SpecParse::<ResponseModel>::Malformed(k@),
    }
}

/// Parses one `VALUE` header's token text.
fn parse_header(rest: &[u8]) -> (r: Option<(Vec<u8>, u32, u64, Option<u64>)>)
    ensures
        match r {
            Some(h) => spec_parse_header(rest@) == Some(
                HeaderModel { key: h.0@, flags: h.1, len: h.2 as int, cas: h.3 },
            ),
            None => spec_parse_header(rest@) is None,
        },
{
    let sp1 = match find_byte(rest, SPACE, 0) {
        None => {
            return None;
        },
        Some(sp1) => sp1,
    };
    if sp1 == 0 {
        return None;
    }
    let key = copy_range(rest, 0, sp1);
    let r2 = vstd::slice::slice_subrange(rest, sp1 + 1, rest.len());
    proof {
        assert(r2@ =~= rest@.skip(sp1 + 1));
    }
    let sp2 = match find_byte(r2, SPACE, 0) {
        None => {
            return None;
        },
        Some(sp2) => sp2,
    };
    let flags_tok = vstd::slice::slice_subrange(r2, 0, sp2);
    let r3 = vstd::slice::slice_subrange(r2, sp2 + 1, r2.len());
    proof {
        assert(r3@ =~= r2@.skip(sp2 + 1));
    }
    let flags = match parse_u32(flags_tok) {
        None => {
            return None;
        },
        Some(f) => f,
    };
    match find_byte(r3, SPACE, 0) {
        None => {
            let len = match parse_u64(r3) {
                None => {
                    return None;
                },
                Some(v) => v,
            };
            Some((key, flags, len, None))
        },
        Some(sp3) => {
            let len_tok = vstd::slice::slice_subrange(r3, 0, sp3);
            let cas_tok = vstd::slice::slice_subrange(r3, sp3 + 1, r3.len());
            proof {
                assert(cas_tok@ =~= r3@.skip(sp3 + 1));
            }
            let len = match parse_u64(len_tok) {
                None => {
                    return None;
                },
                Some(v) => v,
            };
            let cas = match parse_u64(cas_tok) {
                None => {
                    return None;
                },
                Some(v) => v,
            };
            Some((key, flags, len, Some(cas)))
        },
    }
}

/// Parses the `VALUE` blocks of a data response, starting at the first
/// header line, up to and including the terminating `END` line.
fn parse_data_blocks(buf: &[u8]) -> (r: Result<Option<(usize, Response)>, ErrorKind>)
    ensures
        match r {
            Ok(None) => spec_parse_data(buf@, 0, Seq::empty()) is Incomplete,
            Ok(Some((n, resp))) => spec_parse_data(buf@, 0, Seq::empty()) == SpecParse::Done(
                n as int,
                resp@,
            ) && n <= buf@.len(),
            Err(k) => spec_parse_data(buf@, 0, Seq::empty()) == SpecParse::<ResponseModel>::Malformed(k@),
        },
{
    let mut pos: usize = 0;
    let mut values: Vec<Value> = Vec::new();
    proof {
        assert(value_models(values@) =~= Seq::<ValueModel>::empty());
    }
    loop
        invariant
            pos <= buf@.len(),
            spec_parse_data(buf@, pos as int, value_models(values@)) == spec_parse_data(
                buf@,
                0,
                Seq::empty(),
            ),
        decreases buf@.len() - pos,
    {
        let ghost acc = value_models(values@);
        let i = match find_crlf(buf, pos) {
            None => {
                return Ok(None);
            },
            Some(i) => i,
        };
        let line = vstd::slice::slice_subrange(buf, pos, i);
        if line_is_end(line) {
            return Ok(Some((i + 2, Response::Data(Some(values)))));
        } else if line_starts_value(line) {
            let rest = vstd::slice::slice_subrange(line, 6, line.len());
            proof {
                assert(rest@ =~= line@.skip(kw_value_sp().len() as int));
            }
            let h = match parse_header(rest) {
                None => {
                    return Err(ErrorKind::Protocol(None));
                },
                Some(h) => h,
            };
            let (key, flags, len, cas) = h;
            let data_start = i + 2;
            let avail: u64 = (buf.len() - data_start) as u64;
            if avail < len || avail - len < 2 {
                return Ok(None);
            }
            let data_end = data_start + (len as usize);
            if buf[data_end] == CR && buf[data_end + 1] == LF {
                let data = copy_range(buf, data_start, data_end);
                let value = Value { key, cas, flags, data };
                proof {
                    let h_model = spec_parse_header(line@.skip(kw_value_sp().len() as int))->Some_0;
                    assert(value@ == ValueModel {
                        key: h_model.key,
                        cas: h_model.cas,
                        flags: h_model.flags,
                        data: buf@.subrange(data_start as int, data_end as int),
                    });
                    assert(value_models(values@.push(value)) =~= acc.push(value@));
                }
                values.push(value);
                pos = data_end + 2;
            } else {
                return Err(ErrorKind::Protocol(None));
            }
        } else {
            return Err(ErrorKind::Protocol(None));
        }
    }
}

/// Parses at most one standard response from the front of `buf`.
///
/// Returns `Ok(None)` when the buffer does not yet hold a complete response,
/// `Ok(Some((n, resp)))` when its first `n` bytes form exactly the response
/// `resp`, and `Err(kind)` when the bytes cannot be part of the protocol.
pub fn parse_ascii_response(buf: &[u8]) -> (r: Result<Option<(usize, Response)>, ErrorKind>)
    ensures
        response_outcome_matches(buf@, r),
{
    let i = match find_crlf(buf, 0) {
        None => {
            return Ok(None);
        },
        Some(i) => i,
    };
    let line = vstd::slice::slice_subrange(buf, 0, i);
    if line_is_stored(line) {
        Ok(Some((i + 2, Response::Status(Status::Stored))))
    } else if line_is_not_stored(line) {
        Ok(Some((i + 2, Response::Status(Status::NotStored))))
    } else if line_is_exists(line) {
        Ok(Some((i + 2, Response::Status(Status::Exists))))
    } else if line_is_deleted(line) {
        Ok(Some((i + 2, Response::Status(Status::Deleted))))
    } else if line_is_not_found(line) {
        Ok(Some((i + 2, Response::Status(Status::NotFound))))
    } else if line_is_touched(line) {
        Ok(Some((i + 2, Response::Status(Status::Touched))))
    } else if line_is_error(line) {
        Ok(Some((i + 2, Response::Status(Status::Error(ErrorKind::Generic)))))
    } else if line_starts_client_error(line) {
        let msg = bytes_to_string(vstd::slice::slice_subrange(line, 13, line.len()));
        proof {
            assert(line@.subrange(13, line@.len() as int) =~= line@.skip(
                kw_client_error_sp().len() as int,
            ));
        }
        Ok(Some((i + 2, Response::Status(Status::Error(ErrorKind::Client(msg))))))
    } else if line_starts_server_error(line) {
        let msg = bytes_to_string(vstd::slice::slice_subrange(line, 13, line.len()));
        proof {
            assert(line@.subrange(13, line@.len() as int) =~= line@.skip(
                kw_server_error_sp().len() as int,
            ));
        }
        Ok(Some((i + 2, Response::Status(Status::Error(ErrorKind::Server(msg))))))
    } else if line.len() > 0 && check_all_digits(line) {
        match parse_u64(line) {
            Some(v) => Ok(Some((i + 2, Response::IncrDecr(v)))),
            None => Err(ErrorKind::Protocol(None)),
        }
    } else if line_is_end(line) {
        Ok(Some((i + 2, Response::Data(None))))
    } else if line_starts_value(line) {
        parse_data_blocks(buf)
    } else {
        Err(ErrorKind::Protocol(None))
    }
}

} // verus!
