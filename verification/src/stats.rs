//! The statistics response grammar: one `STAT <key> <value>` entry or the
//! terminating `END` line per parse cycle.

use vstd::prelude::*;
use crate::kw::{kw_end, kw_stat_sp, line_is_end, line_starts_stat, starts_with};
use crate::proto::{ErrorKind, ErrorKindModel, SpecParse, StatsModel, StatsResponse};
use crate::text::{
    SPACE, bytes_to_string, chars_of, find_byte, find_byte_at, find_crlf, find_crlf_at,
    lemma_find_crlf_at_extend, lemma_find_crlf_at_some,
};

verus! {

/// The statistics grammar, one line per cycle: `END` terminates the
/// collection; `STAT <key> <value>` yields one entry whose key is the text up
/// to the first space and whose value is the rest of the line, verbatim. Any
/// other line cannot be part of the protocol.
pub open spec fn spec_parse_stats(s: Seq<u8>) -> SpecParse<StatsModel> {
    match find_crlf_at(s, 0) {
        None => SpecParse::Incomplete,
        Some(i) => {
            let line = s.subrange(0, i);
            let n = i + 2;
            if line == kw_end() {
                SpecParse::Done(n, StatsModel::End)
            } else if starts_with(line, kw_stat_sp()) {
                let rest = line.skip(kw_stat_sp().len() as int);
                match find_byte_at(rest, SPACE, 0) {
                    None => SpecParse::Malformed(ErrorKindModel::Protocol(None)),
                    Some(sp) => if sp == 0 {
                        SpecParse::Malformed(ErrorKindModel::Protocol(None))
                    } else {
                        SpecParse::Done(
                            n,
                            StatsModel::Entry(
                                chars_of(rest.subrange(0, sp)),
                                chars_of(rest.skip(sp + 1)),
                            ),
                        )
                    },
                }
            } else {
                SpecParse::Malformed(ErrorKindModel::Protocol(None))
            }
        },
    }
}

/// Streaming invariance of the statistics grammar: once a buffer holds a
/// complete or malformed statistics line, reading more bytes changes neither
/// the outcome nor the consumed-byte count, so feeding a byte stream in
/// arbitrary chunk sizes always yields the same entries.
pub proof fn lemma_parse_stats_extend(s: Seq<u8>, t: Seq<u8>)
    requires
        s.is_prefix_of(t),
        !(spec_parse_stats(s) is Incomplete),
    ensures
        spec_parse_stats(t) == spec_parse_stats(s),
{
    let fs = find_crlf_at(s, 0);
    assert(fs is Some);
    let i = fs->Some_0;
    lemma_find_crlf_at_some(s, 0, i);
    lemma_find_crlf_at_extend(s, t, 0);
    assert(t.subrange(0, i) =~= s.subrange(0, i));
}

/// How an executable statistics parse result corresponds to the grammar.
pub open spec fn stats_outcome_matches(
    s: Seq<u8>,
    r: Result<Option<(usize, StatsResponse)>, ErrorKind>,
) -> bool {
    match r {
        Ok(None) => spec_parse_stats(s) is Incomplete,
        Ok(Some((n, resp))) => spec_parse_stats(s) == SpecParse::Done(n as int, resp@) && n
            <= s.len(),
        Err(k) => spec_parse_stats(s) == SpecParse::<StatsModel>::Malformed(k@),
    }
}

/// Parses at most one statistics response from the front of `buf`.
///
/// Returns `Ok(None)` when the buffer does not yet hold a complete line,
/// `Ok(Some((n, resp)))` when its first `n` bytes form exactly one entry or
/// the terminator, and `Err(kind)` when the line cannot be part of the
/// protocol.
pub fn parse_ascii_stats_response(buf: &[u8]) -> (r: Result<
    Option<(usize, StatsResponse)>,
    ErrorKind,
>)
    ensures
        stats_outcome_matches(buf@, r),
{
    let i = match find_crlf(buf, 0) {
        None => {
            return Ok(None);
        },
        Some(i) => i,
    };
    let line = vstd::slice::slice_subrange(buf, 0, i);
    if line_is_end(line) {
        Ok(Some((i + 2, StatsResponse::End)))
    } else if line_starts_stat(line) {
        let rest = vstd::slice::slice_subrange(line, 5, line.len());
        proof {
            assert(rest@ =~= line@.skip(kw_stat_sp().len() as int));
        }
        let sp = match find_byte(rest, SPACE, 0) {
            None => {
                return Err(ErrorKind::Protocol(None));
            },
            Some(sp) => sp,
        };
        if sp == 0 {
            return Err(ErrorKind::Protocol(None));
        }
        let key = bytes_to_string(vstd::slice::slice_subrange(rest, 0, sp));
        let value = bytes_to_string(vstd::slice::slice_subrange(rest, sp + 1, rest.len()));
        proof {
            assert(rest@.subrange(sp + 1, rest@.len() as int) =~= rest@.skip(sp + 1));
        }
        Ok(Some((i + 2, StatsResponse::Entry(key, value))))
    } else {
        Err(ErrorKind::Protocol(None))
    }
}

} // verus!
