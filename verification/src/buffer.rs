//! The receive buffer of the driving loop: all transport bytes not yet
//! logically consumed, plus the byte count consumed by the last successful
//! parse. The count is applied — bytes dropped from the front — at the start
//! of the next driving cycle, never mid-cycle, so a parser always sees a
//! buffer that starts at a response boundary.
//!
//! The backing store is `bytes::BytesMut`; the handful of operations the
//! buffer needs from it stand behind trusted wrappers whose contracts name
//! its contents.

use vstd::prelude::*;
use crate::metadump::spec_parse_metadump;
use crate::proto::{
    Error, ErrorModel, MetadumpResponse, Response, SpecParse, StatsResponse, Status, StatusModel,
};
use crate::response::{parse_ascii_response, spec_parse_response};
use crate::stats::spec_parse_stats;

verus! {

#[verifier::external_type_specification]
#[verifier::external_body]
pub struct ExBytesMut(bytes::BytesMut);

/// The bytes a `bytes::BytesMut` holds, front to back.
pub uninterp spec fn bytes_mut_content(b: bytes::BytesMut) -> Seq<u8>;

/// Relies on `BytesMut::new`: creates a buffer holding no bytes.
#[verifier::external_body]
fn bytes_mut_new() -> (r: bytes::BytesMut)
    ensures
        bytes_mut_content(r) == Seq::<u8>::empty(),
{
    bytes::BytesMut::new()
}

/// Relies on `BytesMut::len`: the number of bytes held.
#[verifier::external_body]
fn bytes_mut_len(b: &bytes::BytesMut) -> (r: usize)
    ensures
        r == bytes_mut_content(*b).len(),
{
    b.len()
}

/// Relies on `BytesMut::split_to`: afterwards the buffer holds the bytes
/// from `at` to the end; the split-off front is dropped here. Panics only
/// when `at` exceeds the length, which the precondition rules out.
#[verifier::external_body]
fn bytes_mut_advance(b: &mut bytes::BytesMut, at: usize)
    requires
        at <= bytes_mut_content(*old(b)).len(),
    ensures
        bytes_mut_content(*final(b)) == bytes_mut_content(*old(b)).skip(at as int),
{
    let _ = b.split_to(at);
}

/// Relies on `BytesMut::extend_from_slice`: appends the bytes of `chunk`,
/// reserving capacity as needed.
#[verifier::external_body]
fn bytes_mut_extend(b: &mut bytes::BytesMut, chunk: &[u8])
    ensures
        bytes_mut_content(*final(b)) == bytes_mut_content(*old(b)) + chunk@,
{
    b.extend_from_slice(chunk);
}

/// Relies on `<BytesMut as AsRef<[u8]>>::as_ref`: a view of all held bytes.
#[verifier::external_body]
fn bytes_mut_slice(b: &bytes::BytesMut) -> (r: &[u8])
    ensures
        r@ == bytes_mut_content(*b),
{
    b.as_ref()
}

/// The outcome of offering the buffered bytes to a parser: read more, a
/// complete typed response, or a failure to surface to the caller.
pub enum ParseStep<R> {
    /// The buffer does not yet hold a complete response; read more bytes.
    Incomplete,
    /// A complete response; its byte count is recorded for the next cycle.
    Ready(R),
    /// The bytes cannot be part of the protocol.
    Failed(Error),
}

/// The receive buffer, owned by the driving loop for a connection's lifetime.
pub struct ReceiveBuffer {
    buf: bytes::BytesMut,
    consumed: Option<usize>,
}

impl ReceiveBuffer {
    /// The unconsumed bytes currently held.
    pub closed spec fn contents(&self) -> Seq<u8> {
        bytes_mut_content(self.buf)
    }

    /// The byte count recorded by the last successful parse, if any.
    pub closed spec fn pending(&self) -> Option<usize> {
        self.consumed
    }

    /// A recorded count never exceeds the held byte count.
    pub open spec fn wf(&self) -> bool {
        match self.pending() {
            Some(n) => n <= self.contents().len(),
            None => true,
        }
    }

    /// Creates the empty buffer of a fresh connection.
    pub fn new() -> (r: Self)
        ensures
            r.wf(),
            r.contents() == Seq::<u8>::empty(),
            r.pending() is None,
    {
        ReceiveBuffer { buf: bytes_mut_new(), consumed: None }
    }

    /// Starts a driving cycle: drops the bytes consumed by the previous
    /// cycle's parse, if any, from the front of the buffer.
    pub fn begin_cycle(&mut self)
        requires
            old(self).wf(),
        ensures
            final(self).wf(),
            final(self).pending() is None,
            final(self).contents() == (match old(self).pending() {
                None => old(self).contents(),
                Some(n) => old(self).contents().skip(n as int),
            }),
    {
        match self.consumed {
            None => {},
            Some(n) => {
                bytes_mut_advance(&mut self.buf, n);
                self.consumed = None;
            },
        }
    }

    /// Whether no unconsumed bytes are held.
    pub fn is_empty(&self) -> (r: bool)
        ensures
            r == (self.contents().len() == 0),
    {
        bytes_mut_len(&self.buf) == 0
    }

    /// Accepts the bytes of one transport read. A read that returned zero
    /// bytes means the peer closed the stream: that is a fatal failure of
    /// the connection, never a reason to retry, and the buffer is unchanged.
    pub fn feed(&mut self, chunk: &[u8]) -> (r: Result<(), Error>)
        requires
            old(self).wf(),
        ensures
            final(self).wf(),
            final(self).pending() == old(self).pending(),
            chunk@.len() == 0 ==> r == Err::<(), Error>(Error::Closed) && final(self).contents()
                == old(self).contents(),
            chunk@.len() > 0 ==> r == Ok::<(), Error>(()) && final(self).contents() == old(
                self,
            ).contents() + chunk@,
    {
        if chunk.len() == 0 {
            Err(Error::Closed)
        } else {
            bytes_mut_extend(&mut self.buf, chunk);
            Ok(())
        }
    }

    /// Offers the buffered bytes to the standard response parser. On a
    /// complete response, records its byte count for the next cycle; on a
    /// malformed buffer, surfaces the parser's error and records nothing.
    pub fn try_response(&mut self) -> (r: ParseStep<Response>)
        requires
            old(self).wf(),
            old(self).pending() is None,
        ensures
            final(self).wf(),
            final(self).contents() == old(self).contents(),
            match r {
                ParseStep::Incomplete => spec_parse_response(old(self).contents())
                    is Incomplete && final(self).pending() is None,
                ParseStep::Ready(resp) => final(self).pending() matches Some(n)
                    && spec_parse_response(old(self).contents()) == SpecParse::Done(
                    n as int,
                    resp@,
                ),
                ParseStep::Failed(e) => final(self).pending() is None && (spec_parse_response(
                    old(self).contents(),
                ) matches SpecParse::Malformed(k) && e@ == ErrorModel::Protocol(
                    StatusModel::Error(k),
                )),
            },
    {
        let outcome = parse_ascii_response(bytes_mut_slice(&self.buf));
        match outcome {
            Ok(None) => ParseStep::Incomplete,
            Ok(Some((n, resp))) => {
                self.consumed = Some(n);
                ParseStep::Ready(resp)
            },
            Err(kind) => ParseStep::Failed(Error::Protocol(Status::Error(kind))),
        }
    }

    /// Offers the buffered bytes to the statistics parser, as
    /// [`Self::try_response`] does for the standard grammar.
    pub fn try_stats(&mut self) -> (r: ParseStep<StatsResponse>)
        requires
            old(self).wf(),
            old(self).pending() is None,
        ensures
            final(self).wf(),
            final(self).contents() == old(self).contents(),
            match r {
                ParseStep::Incomplete => spec_parse_stats(old(self).contents()) is Incomplete
                    && final(self).pending() is None,
                ParseStep::Ready(resp) => final(self).pending() matches Some(n)
                    && spec_parse_stats(old(self).contents()) == SpecParse::Done(n as int, resp@),
                ParseStep::Failed(e) => final(self).pending() is None && (spec_parse_stats(
                    old(self).contents(),
                ) matches SpecParse::Malformed(k) && e@ == ErrorModel::Protocol(
                    StatusModel::Error(k),
                )),
            },
    {
        let outcome = crate::stats::parse_ascii_stats_response(bytes_mut_slice(&self.buf));
        match outcome {
            Ok(None) => ParseStep::Incomplete,
            Ok(Some((n, resp))) => {
                self.consumed = Some(n);
                ParseStep::Ready(resp)
            },
            Err(kind) => ParseStep::Failed(Error::Protocol(Status::Error(kind))),
        }
    }

    /// Offers the buffered bytes to the metadump parser, as
    /// [`Self::try_response`] does for the standard grammar.
    pub fn try_metadump(&mut self) -> (r: ParseStep<MetadumpResponse>)
        requires
            old(self).wf(),
            old(self).pending() is None,
        ensures
            final(self).wf(),
            final(self).contents() == old(self).contents(),
            match r {
                ParseStep::Incomplete => spec_parse_metadump(old(self).contents()) is Incomplete
                    && final(self).pending() is None,
                ParseStep::Ready(resp) => final(self).pending() matches Some(n)
                    && spec_parse_metadump(old(self).contents()) == SpecParse::Done(
                    n as int,
                    resp@,
                ),
                ParseStep::Failed(e) => final(self).pending() is None && (spec_parse_metadump(
                    old(self).contents(),
                ) matches SpecParse::Malformed(k) && e@ == ErrorModel::Protocol(
                    StatusModel::Error(k),
                )),
            },
    {
        let outcome = crate::metadump::parse_ascii_metadump_response(bytes_mut_slice(&self.buf));
        match outcome {
            Ok(None) => ParseStep::Incomplete,
            Ok(Some((n, resp))) => {
                self.consumed = Some(n);
                ParseStep::Ready(resp)
            },
            Err(kind) => ParseStep::Failed(Error::Protocol(Status::Error(kind))),
        }
    }
}

} // verus!
