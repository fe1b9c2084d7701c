//! The protocol data model: outcome codes, retrieved values, and the typed
//! responses of each response grammar, together with their mathematical models.

use vstd::prelude::*;

verus! {

/// Mathematical model of an [`ErrorKind`].
#[verifier::ext_equal]
pub enum ErrorKindModel {
    Generic,
    Client(Seq<char>),
    Server(Seq<char>),
    Protocol(Option<Seq<char>>),
}

/// Mathematical model of a [`Status`].
#[verifier::ext_equal]
pub enum StatusModel {
    Stored,
    NotStored,
    Exists,
    Deleted,
    NotFound,
    Touched,
    Error(ErrorKindModel),
}

/// Mathematical model of a [`Value`].
#[verifier::ext_equal]
pub struct ValueModel {
    pub key: Seq<u8>,
    pub cas: Option<u64>,
    pub flags: u32,
    pub data: Seq<u8>,
}

/// Mathematical model of a [`Response`].
#[verifier::ext_equal]
pub enum ResponseModel {
    Status(StatusModel),
    Data(Option<Seq<ValueModel>>),
    IncrDecr(u64),
}

/// Mathematical model of a [`StatsResponse`].
#[verifier::ext_equal]
pub enum StatsModel {
    Entry(Seq<char>, Seq<char>),
    End,
}

/// Mathematical model of a [`KeyMetadata`].
#[verifier::ext_equal]
pub struct KeyMetadataModel {
    pub key: Seq<char>,
    pub expiration: i64,
    pub last_accessed: u64,
    pub cas: u64,
    pub fetched: bool,
    pub class_id: u32,
    pub size: u32,
}

/// Mathematical model of a [`MetadumpResponse`].
#[verifier::ext_equal]
pub enum MetadumpModel {
    Entry(KeyMetadataModel),
    BadClass(Seq<char>),
    Busy(Seq<char>),
    End,
}

/// Mathematical model of an [`Error`].
#[verifier::ext_equal]
pub enum ErrorModel {
    Closed,
    Io(Seq<char>),
    Protocol(StatusModel),
}

/// The models of a sequence of retrieved values.
pub open spec fn value_models(vs: Seq<Value>) -> Seq<ValueModel> {
    vs.map(|_i: int, v: Value| v@)
}

/// One of the three outcomes of offering a buffer to a parser: not enough
/// bytes yet, a complete response together with the exact count of bytes it
/// occupies, or input that cannot be part of the protocol.
pub enum SpecParse<R> {
    Incomplete,
    Done(int, R),
    Malformed(ErrorKindModel),
}

/// A client-observable failure kind raised by the parser or reported by the
/// server on an error line.
#[derive(Clone, Debug, PartialEq, Eq)]
pub enum ErrorKind {
    /// A bare `ERROR` line.
    Generic,
    /// A `CLIENT_ERROR` line; carries the trailing message verbatim.
    Client(String),
    /// A `SERVER_ERROR` line; carries the trailing message verbatim.
    Server(String),
    /// Input that cannot be part of the protocol, raised by the parser itself.
    Protocol(Option<String>),
}

/// A protocol outcome code, constructed once per parsed status line.
#[derive(Clone, Debug, PartialEq, Eq)]
pub enum Status {
    /// The item was stored.
    Stored,
    /// The item was not stored, e.g. `add` on an existing key.
    NotStored,
    /// A CAS-conditional store found a changed item.
    Exists,
    /// The item was deleted.
    Deleted,
    /// No item matched the key.
    NotFound,
    /// The item was touched.
    Touched,
    /// A server-reported or parser-raised error.
    Error(ErrorKind),
}

/// One retrieved item: key, flags, payload, and an optional CAS token.
#[derive(Clone, Debug, PartialEq, Eq)]
pub struct Value {
    /// The item's key.
    pub key: Vec<u8>,
    /// CAS token, present only when the retrieval variant requested it.
    pub cas: Option<u64>,
    /// The 32-bit opaque flags stored with the item.
    pub flags: u32,
    /// The payload, exactly as long as the header line declared.
    pub data: Vec<u8>,
}

/// The typed result of one completed parse cycle of the primary grammar.
#[derive(Clone, Debug, PartialEq, Eq)]
pub enum Response {
    /// A status line.
    Status(Status),
    /// Zero or more `VALUE` blocks terminated by `END`; `None` when the
    /// terminator arrived with no preceding block.
    Data(Option<Vec<Value>>),
    /// The numeric reply to an arithmetic command.
    IncrDecr(u64),
}

/// One parse cycle of the statistics grammar.
#[derive(Clone, Debug, PartialEq, Eq)]
pub enum StatsResponse {
    /// A single `STAT <key> <value>` line.
    Entry(String, String),
    /// The terminating `END` line.
    End,
}

/// One crawled item of a key metadata dump.
#[derive(Clone, Debug, PartialEq, Eq)]
pub struct KeyMetadata {
    /// The item's key.
    pub key: String,
    /// Expiration timestamp; `-1` means the item never expires.
    pub expiration: i64,
    /// Last access timestamp.
    pub last_accessed: u64,
    /// The item's CAS token.
    pub cas: u64,
    /// Whether the item has been fetched since it was stored.
    pub fetched: bool,
    /// Slab class of the item.
    pub class_id: u32,
    /// Size of the item in bytes.
    pub size: u32,
}

/// One parse cycle of the metadump grammar.
#[derive(Clone, Debug, PartialEq, Eq)]
pub enum MetadumpResponse {
    /// One crawled item.
    Entry(KeyMetadata),
    /// The crawl was rejected for an invalid slab class; terminates the crawl.
    BadClass(String),
    /// A crawler is already running; the crawl stays open.
    Busy(String),
    /// The terminating `END` line.
    End,
}

/// A client-observable failure.
#[derive(Clone, Debug, PartialEq, Eq)]
pub enum Error {
    /// The transport reported end of stream where more bytes were owed.
    Closed,
    /// A transport read or write failed; carries the reported message.
    Io(String),
    /// A protocol-level outcome the issuing command treats as failure.
    Protocol(Status),
}

impl View for ErrorKind {
    type V = ErrorKindModel;

    open spec fn view(&self) -> ErrorKindModel {
        match self {
            ErrorKind::Generic => ErrorKindModel::Generic,
            ErrorKind::Client(s) => ErrorKindModel::Client(s@),
            ErrorKind::Server(s) => ErrorKindModel::Server(s@),
            ErrorKind::Protocol(o) => ErrorKindModel::Protocol(
                match o {
                    Some(s) => Some(s@),
                    None => None,
                },
            ),
        }
    }
}

impl View for Status {
    type V = StatusModel;

    open spec fn view(&self) -> StatusModel {
        match self {
            Status::Stored => StatusModel::Stored,
            Status::NotStored => StatusModel::NotStored,
            Status::Exists => StatusModel::Exists,
            Status::Deleted => StatusModel::Deleted,
            Status::NotFound => StatusModel::NotFound,
            Status::Touched => StatusModel::Touched,
            Status::Error(k) => StatusModel::Error(k@),
        }
    }
}

impl View for Value {
    type V = ValueModel;

    open spec fn view(&self) -> ValueModel {
        ValueModel { key: self.key@, cas: self.cas, flags: self.flags, data: self.data@ }
    }
}

impl View for Response {
    type V = ResponseModel;

    open spec fn view(&self) -> ResponseModel {
        match self {
            Response::Status(s) => ResponseModel::Status(s@),
            Response::Data(d) => ResponseModel::Data(
                match d {
                    Some(items) => Some(value_models(items@)),
                    None => None,
                },
            ),
            Response::IncrDecr(v) => ResponseModel::IncrDecr(*v),
        }
    }
}

impl View for StatsResponse {
    type V = StatsModel;

    open spec fn view(&self) -> StatsModel {
        match self {
            StatsResponse::Entry(k, v) => StatsModel::Entry(k@, v@),
            StatsResponse::End => StatsModel::End,
        }
    }
}

impl View for KeyMetadata {
    type V = KeyMetadataModel;

    open spec fn view(&self) -> KeyMetadataModel {
        KeyMetadataModel {
            key: self.key@,
            expiration: self.expiration,
            last_accessed: self.last_accessed,
            cas: self.cas,
            fetched: self.fetched,
            class_id: self.class_id,
            size: self.size,
        }
    }
}

impl View for MetadumpResponse {
    type V = MetadumpModel;

    open spec fn view(&self) -> MetadumpModel {
        match self {
            MetadumpResponse::Entry(m) => MetadumpModel::Entry(m@),
            MetadumpResponse::BadClass(s) => MetadumpModel::BadClass(s@),
            MetadumpResponse::Busy(s) => MetadumpModel::Busy(s@),
            MetadumpResponse::End => MetadumpModel::End,
        }
    }
}

impl View for Error {
    type V = ErrorModel;

    open spec fn view(&self) -> ErrorModel {
        match self {
            Error::Closed => ErrorModel::Closed,
            Error::Io(s) => ErrorModel::Io(s@),
            Error::Protocol(s) => ErrorModel::Protocol(s@),
        }
    }
}

} // verus!
