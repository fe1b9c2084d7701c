//! Per-command interpretation of typed responses: which status is success
//! for each verb, how pipelined multi-key store acknowledgements correlate
//! with their keys, how the version line is stripped, and the decision
//! tables of the statistics and metadump driving loops.

use vstd::prelude::*;
use crate::proto::{
    Error, ErrorKind, ErrorKindModel, ErrorModel, KeyMetadata, MetadumpModel, MetadumpResponse,
    Response, ResponseModel, StatsModel, StatsResponse, Status, StatusModel, Value, value_models,
};
use crate::text::{CR, LF, bytes_to_string, chars_of};

verus! {

/// The error model of a parser-raised protocol violation with no message.
pub open spec fn protocol_none_error() -> ErrorModel {
    ErrorModel::Protocol(StatusModel::Error(ErrorKindModel::Protocol(None)))
}

/// Maps a standard response to the result of a single-key retrieval. Zero
/// items — an absent data response or a `NotFound` status — means the key is
/// absent, never an error; more than one item means the server answered more
/// than was asked, a protocol violation; any other status is that status's
/// failure.
pub fn get_result(resp: Response) -> (r: Result<Option<Value>, Error>)
    ensures
        match resp@ {
            ResponseModel::Status(s) => if s is NotFound {
                r matches Ok(v) && v is None
            } else {
                r matches Err(e) && e@ == ErrorModel::Protocol(s)
            },
            ResponseModel::Data(d) => match d {
                None => r matches Ok(v) && v is None,
                Some(items) => if items.len() == 1 {
                    r matches Ok(v) && (v matches Some(item) && item@ == items[0])
                } else {
                    r matches Err(e) && e@ == protocol_none_error()
                },
            },
            ResponseModel::IncrDecr(_) => r matches Err(e) && e@ == protocol_none_error(),
        },
{
    match resp {
        Response::Status(Status::NotFound) => Ok(None),
        Response::Status(s) => Err(Error::Protocol(s)),
        Response::Data(None) => Ok(None),
        Response::Data(Some(mut items)) => {
            if items.len() == 1 {
                let item = items.remove(0);
                Ok(Some(item))
            } else {
                Err(Error::Protocol(Status::Error(ErrorKind::Protocol(None))))
            }
        },
        Response::IncrDecr(_) => Err(Error::Protocol(Status::Error(ErrorKind::Protocol(None)))),
    }
}

/// Maps a standard response to the result of a multi-key retrieval: the data
/// items are the full result set, and an absent data response means no keys
/// were found — an empty result, not an error. A status is that status's
/// failure; a numeric reply is a protocol violation.
pub fn get_many_result(resp: Response) -> (r: Result<Vec<Value>, Error>)
    ensures
        match resp@ {
            ResponseModel::Status(s) => r matches Err(e) && e@ == ErrorModel::Protocol(s),
            ResponseModel::Data(d) => match d {
                None => r matches Ok(items) && items@.len() == 0,
                Some(models) => r matches Ok(items) && value_models(items@) == models,
            },
            ResponseModel::IncrDecr(_) => r matches Err(e) && e@ == protocol_none_error(),
        },
{
    match resp {
        Response::Status(s) => Err(Error::Protocol(s)),
        Response::Data(None) => {
            let items: Vec<Value> = Vec::new();
            Ok(items)
        },
        Response::Data(Some(items)) => Ok(items),
        Response::IncrDecr(_) => Err(Error::Protocol(Status::Error(ErrorKind::Protocol(None)))),
    }
}

/// Maps a standard response to the result of a single-key store: `Stored` is
/// the only success; any other status is that status's failure; anything
/// else is a protocol violation.
pub fn store_result(resp: Response) -> (r: Result<(), Error>)
    ensures
        match resp@ {
            ResponseModel::Status(s) => if s is Stored {
                r is Ok
            } else {
                r matches Err(e) && e@ == ErrorModel::Protocol(s)
            },
            _ => r matches Err(e) && e@ == protocol_none_error(),
        },
{
    match resp {
        Response::Status(Status::Stored) => Ok(()),
        Response::Status(s) => Err(Error::Protocol(s)),
        _ => Err(Error::Protocol(Status::Error(ErrorKind::Protocol(None)))),
    }
}

/// Maps a standard response to the result of a delete: `Deleted` is the only
/// success.
pub fn delete_result(resp: Response) -> (r: Result<(), Error>)
    ensures
        match resp@ {
            ResponseModel::Status(s) => if s is Deleted {
                r is Ok
            } else {
                r matches Err(e) && e@ == ErrorModel::Protocol(s)
            },
            _ => r matches Err(e) && e@ == protocol_none_error(),
        },
{
    match resp {
        Response::Status(Status::Deleted) => Ok(()),
        Response::Status(s) => Err(Error::Protocol(s)),
        _ => Err(Error::Protocol(Status::Error(ErrorKind::Protocol(None)))),
    }
}

/// Maps a standard response to the result of an arithmetic command: the
/// numeric reply is the counter's new value, returned verbatim — the server
/// owns the wrap-around and floor semantics; any status is that status's
/// failure.
pub fn arithmetic_result(resp: Response) -> (r: Result<u64, Error>)
    ensures
        match resp@ {
            ResponseModel::IncrDecr(v) => r matches Ok(n) && n == v,
            ResponseModel::Status(s) => r matches Err(e) && e@ == ErrorModel::Protocol(s),
            _ => r matches Err(e) && e@ == protocol_none_error(),
        },
{
    match resp {
        Response::IncrDecr(v) => Ok(v),
        Response::Status(s) => Err(Error::Protocol(s)),
        _ => Err(Error::Protocol(Status::Error(ErrorKind::Protocol(None)))),
    }
}

/// The error a pipelined store acknowledgement maps to. `Stored` is the
/// implicit success case and maps to none: callers treat absence from the
/// correlation result as success.
pub open spec fn spec_store_failure(m: ResponseModel) -> Option<ErrorModel> {
    match m {
        ResponseModel::Status(s) => if s is Stored {
            None
        } else {
            Some(ErrorModel::Protocol(s))
        },
        _ => Some(protocol_none_error()),
    }
}

/// The position-error pairs of every acknowledgement that is not `Stored`,
/// in request order.
pub open spec fn spec_store_failures(rs: Seq<ResponseModel>) -> Seq<(int, ErrorModel)>
    decreases rs.len(),
{
    if rs.len() == 0 {
        Seq::empty()
    } else {
        let init = spec_store_failures(rs.drop_last());
        match spec_store_failure(rs.last()) {
            None => init,
            Some(e) => init.push(((rs.len() - 1) as int, e)),
        }
    }
}

/// Classifies one pipelined store acknowledgement.
pub fn store_failure(resp: Response) -> (r: Option<Error>)
    ensures
        match r {
            Some(e) => spec_store_failure(resp@) == Some(e@),
            None => spec_store_failure(resp@) is None,
        },
{
    match resp {
        Response::Status(Status::Stored) => None,
        Response::Status(s) => Some(Error::Protocol(s)),
        _ => Some(Error::Protocol(Status::Error(ErrorKind::Protocol(None)))),
    }
}

/// Correlates the pipelined acknowledgements of a multi-key store with the
/// request order they answer: position `i` holds the reply to the `i`-th
/// key-value pair written. A `Stored` reply produces no entry — a key absent
/// from the result succeeded, a deliberate, non-obvious contract kept for
/// compatibility; every other reply contributes its position and error.
pub fn correlate_store_failures(responses: Vec<Response>) -> (r: Vec<(usize, Error)>)
    ensures
        r@.map(|_i: int, p: (usize, Error)| (p.0 as int, p.1@)) == spec_store_failures(
            responses@.map(|_i: int, x: Response| x@),
        ),
{
    let ghost models = responses@.map(|_i: int, x: Response| x@);
    let mut rs = responses;
    let total: usize = rs.len();
    let mut out: Vec<(usize, Error)> = Vec::new();
    let mut i: usize = 0;
    proof {
        assert(out@.map(|_i: int, p: (usize, Error)| (p.0 as int, p.1@)) =~= spec_store_failures(
            models.take(0),
        ));
    }
    while rs.len() > 0
        invariant
            0 <= i <= models.len(),
            rs@ == responses@.skip(i as int),
            models == responses@.map(|_i: int, x: Response| x@),
            total == models.len(),
            i + rs@.len() == models.len(),
            out@.map(|_i: int, p: (usize, Error)| (p.0 as int, p.1@)) == spec_store_failures(
                models.take(i as int),
            ),
        decreases rs@.len(),
    {
        let resp = rs.remove(0);
        proof {
            assert(resp@ == models[i as int]);
            assert(models.take(i + 1).drop_last() =~= models.take(i as int));
            assert(models.take(i + 1).last() == models[i as int]);
            assert(rs@ =~= responses@.skip(i + 1));
        }
        match store_failure(resp) {
            None => {
                proof {
                    assert(out@.map(|_i: int, p: (usize, Error)| (p.0 as int, p.1@))
                        =~= spec_store_failures(models.take(i + 1)));
                }
            },
            Some(e) => {
                out.push((i, e));
                proof {
                    assert(out@.map(|_i: int, p: (usize, Error)| (p.0 as int, p.1@))
                        =~= spec_store_failures(models.take(i + 1)));
                }
            },
        }
        i = i + 1;
    }
    proof {
        assert(models.take(models.len() as int) =~= models);
    }
    out
}

/// A trailing line break removed: CRLF when present, else a lone line feed,
/// else nothing.
pub open spec fn trim_line_end(s: Seq<u8>) -> Seq<u8> {
    if s.len() >= 2 && s[s.len() - 2] == CR && s[s.len() - 1] == LF {
        s.take(s.len() - 2)
    } else if s.len() >= 1 && s[s.len() - 1] == LF {
        s.take(s.len() - 1)
    } else {
        s
    }
}

/// Interprets the raw reply line of the version command: the mandatory
/// 8-byte `VERSION ` prefix is stripped and the trailing line break removed;
/// a line shorter than the prefix is a protocol error carrying the raw text.
pub fn version_result(line: &[u8]) -> (r: Result<String, Error>)
    ensures
        line@.len() >= 8 ==> (r matches Ok(s) && s@ == chars_of(trim_line_end(line@.skip(8)))),
        line@.len() < 8 ==> (r matches Err(e) && e@ == ErrorModel::Protocol(
            StatusModel::Error(ErrorKindModel::Protocol(Some(chars_of(line@)))),
        )),
{
    if line.len() < 8 {
        let raw = bytes_to_string(line);
        return Err(Error::Protocol(Status::Error(ErrorKind::Protocol(Some(raw)))));
    }
    let rest = vstd::slice::slice_subrange(line, 8, line.len());
    proof {
        assert(rest@ =~= line@.skip(8));
    }
    let end: usize = if rest.len() >= 2 && rest[rest.len() - 2] == CR && rest[rest.len() - 1]
        == LF {
        rest.len() - 2
    } else if rest.len() >= 1 && rest[rest.len() - 1] == LF {
        rest.len() - 1
    } else {
        rest.len()
    };
    let s = bytes_to_string(vstd::slice::slice_subrange(rest, 0, end));
    proof {
        assert(rest@.subrange(0, end as int) =~= trim_line_end(rest@));
    }
    Ok(s)
}

/// The character views of collected statistics pairs.
pub open spec fn stat_pair_views(ps: Seq<(String, String)>) -> Seq<(Seq<char>, Seq<char>)> {
    ps.map(|_i: int, p: (String, String)| (p.0@, p.1@))
}

/// Applies one statistics response to the collection being built: an entry
/// is appended under its name, the terminator marks the collection done.
pub fn stats_absorb(entries: &mut Vec<(String, String)>, resp: StatsResponse) -> (done: bool)
    ensures
        resp@ matches StatsModel::Entry(k, v) ==> !done && stat_pair_views(final(entries)@)
            == stat_pair_views(old(entries)@).push((k, v)),
        resp@ is End ==> done && final(entries)@ == old(entries)@,
{
    match resp {
        StatsResponse::Entry(k, v) => {
            entries.push((k, v));
            proof {
                assert(stat_pair_views(entries@) =~= stat_pair_views(old(entries)@).push(
                    (entries@.last().0@, entries@.last().1@),
                ));
            }
            false
        },
        StatsResponse::End => true,
    }
}

/// One pull's outcome from a metadump cursor.
pub enum MetadumpStep {
    /// One crawled key's metadata; the crawl stays open.
    Item(KeyMetadata),
    /// A failure to surface; whether the crawl stays open depends on it.
    Fault(Error),
    /// The crawl has terminated; every further pull says so again.
    Finished,
}

/// The pull cursor of a metadump crawl: holds only the done flag. The
/// connection itself must be borrowed exclusively by the caller driving the
/// crawl, so no other command can interleave.
pub struct MetadumpCursor {
    done: bool,
}

impl MetadumpCursor {
    /// Whether the crawl has terminated.
    pub closed spec fn spec_done(&self) -> bool {
        self.done
    }

    /// Creates the cursor of a crawl that was just requested.
    pub fn new() -> (r: Self)
        ensures
            !r.spec_done(),
    {
        MetadumpCursor { done: false }
    }

    /// Whether the crawl has terminated; a terminated cursor needs no
    /// further responses driven.
    pub fn done(&self) -> (r: bool)
        ensures
            r == self.spec_done(),
    {
        self.done
    }

    /// Applies one metadump response: the terminator finishes the crawl; a
    /// `BadClass` rejection finishes it and surfaces an error; a `Busy`
    /// rejection surfaces an error but leaves the crawl open, since the
    /// server did not terminate it; an entry is handed out. Once finished,
    /// every pull reports so again without consuming anything.
    pub fn apply(&mut self, resp: MetadumpResponse) -> (r: MetadumpStep)
        ensures
            old(self).spec_done() ==> final(self).spec_done() && r is Finished,
            !old(self).spec_done() ==> match resp@ {
                MetadumpModel::End => final(self).spec_done() && r is Finished,
                MetadumpModel::BadClass(s) => final(self).spec_done() && (r matches MetadumpStep::Fault(e)
                    && e@ == ErrorModel::Protocol(
                    StatusModel::Error(ErrorKindModel::Protocol(Some(s))),
                )),
                MetadumpModel::Busy(s) => !final(self).spec_done() && (r matches MetadumpStep::Fault(e) && e@
                    == ErrorModel::Protocol(
                    StatusModel::Error(ErrorKindModel::Protocol(Some(s))),
                )),
                MetadumpModel::Entry(m) => !final(self).spec_done() && (r matches MetadumpStep::Item(km) && km@
                    == m),
            },
    {
        if self.done {
            return MetadumpStep::Finished;
        }
        match resp {
            MetadumpResponse::End => {
                self.done = true;
                MetadumpStep::Finished
            },
            MetadumpResponse::BadClass(s) => {
                self.done = true;
                MetadumpStep::Fault(Error::Protocol(Status::Error(ErrorKind::Protocol(Some(s)))))
            },
            MetadumpResponse::Busy(s) => MetadumpStep::Fault(
                Error::Protocol(Status::Error(ErrorKind::Protocol(Some(s)))),
            ),
            MetadumpResponse::Entry(km) => MetadumpStep::Item(km),
        }
    }
}

} // verus!
