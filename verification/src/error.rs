//! The service's error taxonomy: what a store failure is, which kind of
//! service error it becomes, and the status that a caller finally sees.

use vstd::prelude::*;

verus! {

/// The kinds of failure that the service reports.
#[derive(Clone, Copy, Debug, PartialEq, Eq, Structural)]
pub enum ErrorKind {
    /// The caller left out or malformed required data; found before the store is touched.
    InvalidInput,
    /// A lookup that expects a row matched none.
    NotFound,
    /// The store driver hit an index or decode bound.
    OutOfRange,
    /// A failure that the caller cannot remedy.
    Internal,
    /// A store failure that fits no other kind.
    Unknown,
}

/// The categories of failure that a store reports.
#[derive(Clone, Copy, Debug, PartialEq, Eq, Structural)]
pub enum StoreErrorKind {
    Configuration,
    /// The database refused the statement, for instance for a broken constraint.
    Database,
    Io,
    Tls,
    Protocol,
    RowNotFound,
    TypeNotFound,
    ColumnIndexOutOfBounds,
    ColumnNotFound,
    ColumnDecode,
    Decode,
    PoolTimedOut,
    PoolClosed,
    WorkerCrashed,
    Migrate,
    /// Anything that the categories above do not name.
    Other,
}

/// A store failure: its category and the store's own description of it.
#[derive(Debug)]
pub struct StoreError {
    pub kind: StoreErrorKind,
    pub message: String,
}

/// The status codes of the wire protocol that the service uses.
#[derive(Clone, Copy, Debug, PartialEq, Eq, Structural)]
pub enum Code {
    InvalidArgument,
    NotFound,
    OutOfRange,
    PermissionDenied,
    Internal,
}

/// What a failed call hands to its caller: a code and a message for people.
#[derive(Debug)]
pub struct Status {
    pub code: Code,
    pub message: String,
}

/// The kind of service error that each category of store failure becomes.
pub open spec fn translate_spec(kind: StoreErrorKind) -> ErrorKind {
    match kind {
        StoreErrorKind::RowNotFound => ErrorKind::NotFound,
        StoreErrorKind::TypeNotFound => ErrorKind::NotFound,
        StoreErrorKind::ColumnNotFound => ErrorKind::NotFound,
        StoreErrorKind::ColumnIndexOutOfBounds => ErrorKind::OutOfRange,
        StoreErrorKind::Other => ErrorKind::Unknown,
        _ => ErrorKind::Internal,
    }
}

/// The status code under which each kind of service error travels.
pub open spec fn status_code_spec(kind: ErrorKind) -> Code {
    match kind {
        ErrorKind::InvalidInput => Code::InvalidArgument,
        ErrorKind::NotFound => Code::NotFound,
        ErrorKind::OutOfRange => Code::OutOfRange,
        ErrorKind::Internal => Code::Internal,
        ErrorKind::Unknown => Code::Internal,
    }
}

/// The message of the status that a store failure becomes: a missing row is
/// reported in fixed words, everything else in the store's own.
pub open spec fn failure_message(kind: StoreErrorKind, message: Seq<char>) -> Seq<char> {
    if kind == StoreErrorKind::RowNotFound {
        "not found"@
    } else {
        message
    }
}

/// Whether the status is what a caller sees of a store failure of the given
/// category and description.
pub open spec fn answers(status: Status, kind: StoreErrorKind, message: Seq<char>) -> bool {
    &&& status.code == status_code_spec(translate_spec(kind))
    &&& status.message@ == failure_message(kind, message)
}

/// Whether the status rejects a request for what it lacks, in the given words.
pub open spec fn rejects(status: Status, message: Seq<char>) -> bool {
    &&& status.code == Code::InvalidArgument
    &&& status.message@ == message
}

/// Whether the status, if there is one, rejects the request for the fault,
/// if there is one.
pub open spec fn faults(fault: Option<Seq<char>>, status: Option<Status>) -> bool {
    match fault {
        Some(message) => status matches Some(rejected) && rejects(rejected, message),
        None => status is None,
    }
}

/// Maps a category of store failure to a kind of service error. Total, and
/// never `InvalidInput`: that kind is kept for what the handlers reject.
pub fn translate(kind: StoreErrorKind) -> (out: ErrorKind)
    ensures
        out == translate_spec(kind),
        out != ErrorKind::InvalidInput,
{
    match kind {
        StoreErrorKind::RowNotFound => ErrorKind::NotFound,
        StoreErrorKind::TypeNotFound => ErrorKind::NotFound,
        StoreErrorKind::ColumnNotFound => ErrorKind::NotFound,
        StoreErrorKind::ColumnIndexOutOfBounds => ErrorKind::OutOfRange,
        StoreErrorKind::Configuration => ErrorKind::Internal,
        StoreErrorKind::Database => ErrorKind::Internal,
        StoreErrorKind::Io => ErrorKind::Internal,
        StoreErrorKind::Tls => ErrorKind::Internal,
        StoreErrorKind::Protocol => ErrorKind::Internal,
        StoreErrorKind::ColumnDecode => ErrorKind::Internal,
        StoreErrorKind::Decode => ErrorKind::Internal,
        StoreErrorKind::PoolTimedOut => ErrorKind::Internal,
        StoreErrorKind::PoolClosed => ErrorKind::Internal,
        StoreErrorKind::WorkerCrashed => ErrorKind::Internal,
        StoreErrorKind::Migrate => ErrorKind::Internal,
        StoreErrorKind::Other => ErrorKind::Unknown,
    }
}

/// The status code of a kind of service error.
pub fn status_code(kind: ErrorKind) -> (code: Code)
    ensures
        code == status_code_spec(kind),
{
    match kind {
        ErrorKind::InvalidInput => Code::InvalidArgument,
        ErrorKind::NotFound => Code::NotFound,
        ErrorKind::OutOfRange => Code::OutOfRange,
        ErrorKind::Internal => Code::Internal,
        ErrorKind::Unknown => Code::Internal,
    }
}

impl StoreError {
    /// A store failure of the given category with the given description.
    pub fn new(kind: StoreErrorKind, message: &str) -> (error: StoreError)
        ensures
            error.kind == kind,
            error.message@ == message@,
    {
        StoreError { kind, message: message.to_owned() }
    }
}

impl Status {
    /// A status with the given code and message.
    pub fn new(code: Code, message: &str) -> (status: Status)
        ensures
            status.code == code,
            status.message@ == message@,
    {
        Status { code, message: message.to_owned() }
    }

    /// The status of a request that lacks required data.
    pub fn invalid_argument(message: &str) -> (status: Status)
        ensures
            rejects(status, message@),
    {
        Status::new(Code::InvalidArgument, message)
    }

    /// The status code.
    pub fn code(&self) -> (code: Code)
        ensures
            code == self.code,
    {
        self.code
    }

    /// The message, as the caller will read it.
    pub fn message(&self) -> (message: &str)
        ensures
            message@ == self.message@,
    {
        self.message.as_str()
    }
}

/// The status that rejects an update which names no field.
pub fn nothing_to_update() -> (status: Status)
    ensures
        rejects(status, "nothing to update"@),
{
    Status::invalid_argument("nothing to update")
}

/// The status that rejects an update of a permission which gives neither a
/// name nor a description.
pub fn name_or_description_required() -> (status: Status)
    ensures
        rejects(status, "name and/or description required"@),
{
    Status::invalid_argument("name and/or description required")
}

/// The status of a store failure of the given category, in the store's own
/// words: the code is that of the failure's kind of service error.
pub fn status_with(kind: StoreErrorKind, message: String) -> (status: Status)
    ensures
        status.code == status_code_spec(translate_spec(kind)),
        status.message@ == message@,
        status.code != Code::InvalidArgument,
        status.code != Code::PermissionDenied,
{
    Status { code: status_code(translate(kind)), message }
}

/// Turns a failure of the store into the status that crosses the service
/// boundary: the code is that of the failure's kind of service error, so it
/// is never `InvalidArgument`, and nothing of the store but its message is
/// passed on. A missing row is reported in fixed words.
pub fn store_err_to_grpc_error(error: StoreError) -> (status: Status)
    ensures
        answers(status, error.kind, error.message@),
        status.code != Code::InvalidArgument,
        status.code != Code::PermissionDenied,
{
    match error.kind {
        StoreErrorKind::RowNotFound => Status::new(Code::NotFound, "not found"),
        _ => status_with(error.kind, error.message),
    }
}

} // verus!
