//! The error translator for a store that is reached through `sqlx`.

use vstd::prelude::*;
use crate::error::{
    status_code_spec, status_with, translate_spec, Code, Status, StoreErrorKind,
};

verus! {

/// `sqlx::Error`, carried through as it is: nothing inside it is seen here.
#[verifier::external_type_specification]
#[verifier::external_body]
pub struct ExSqlxError(sqlx::Error);

/// What `data_failure` finds in an error: the category of the variant where
/// the variant says what the data lacked, else `Other`. It stands for the
/// variant that the error is, and nothing else is said of it.
pub uninterp spec fn data_kind(error: sqlx::Error) -> StoreErrorKind;

/// What `service_failure` finds in an error: the category of the variant
/// where the variant says what failed between the service and the database,
/// else `Other`. It stands for the variant that the error is, and nothing
/// else is said of it.
pub uninterp spec fn service_kind(error: sqlx::Error) -> StoreErrorKind;

/// The text that an error gives through `to_string`: the driver's own
/// description of it. Nothing is said of what the text holds.
pub uninterp spec fn description_of(error: sqlx::Error) -> Seq<char>;

/// Tells the variants of `sqlx::Error` apart that say what the data lacked:
/// a row, a type, a column, or a value that could be decoded. Every other
/// variant comes back as `Other`. The contract only gives the finding its
/// name: Verus does not see into the error.
#[verifier::external_body]
fn data_failure(error: &sqlx::Error) -> (kind: StoreErrorKind)
    ensures
        kind == data_kind(*error),
{
    match error {
        sqlx::Error::RowNotFound => StoreErrorKind::RowNotFound,
        sqlx::Error::TypeNotFound { .. } => StoreErrorKind::TypeNotFound,
        sqlx::Error::ColumnIndexOutOfBounds { .. } => StoreErrorKind::ColumnIndexOutOfBounds,
        sqlx::Error::ColumnNotFound(_) => StoreErrorKind::ColumnNotFound,
        sqlx::Error::ColumnDecode { .. } => StoreErrorKind::ColumnDecode,
        sqlx::Error::Decode(_) => StoreErrorKind::Decode,
        _ => StoreErrorKind::Other,
    }
}

/// Tells the variants of `sqlx::Error` apart that say what failed between
/// the service and the database: configuration, the database itself, the
/// connection, the pool, a worker or a migration. Every other variant comes
/// back as `Other`. The contract only gives the finding its name.
#[verifier::external_body]
fn service_failure(error: &sqlx::Error) -> (kind: StoreErrorKind)
    ensures
        kind == service_kind(*error),
{
    match error {
        sqlx::Error::Configuration(_) => StoreErrorKind::Configuration,
        sqlx::Error::Database(_) => StoreErrorKind::Database,
        sqlx::Error::Io(_) => StoreErrorKind::Io,
        sqlx::Error::Tls(_) => StoreErrorKind::Tls,
        sqlx::Error::Protocol(_) => StoreErrorKind::Protocol,
        sqlx::Error::PoolTimedOut => StoreErrorKind::PoolTimedOut,
        sqlx::Error::PoolClosed => StoreErrorKind::PoolClosed,
        sqlx::Error::WorkerCrashed => StoreErrorKind::WorkerCrashed,
        sqlx::Error::Migrate(_) => StoreErrorKind::Migrate,
        _ => StoreErrorKind::Other,
    }
}

/// The text that `sqlx::Error` gives through `to_string`. The contract only
/// gives the text its name: it is the driver's own description.
#[verifier::external_body]
fn describe(error: &sqlx::Error) -> (text: String)
    ensures
        text@ == description_of(*error),
{
    error.to_string()
}

/// The one category of two findings: what the data lacked, or else what
/// failed between the service and the database.
pub open spec fn category_spec(data: StoreErrorKind, service: StoreErrorKind) -> StoreErrorKind {
    if data != StoreErrorKind::Other {
        data
    } else {
        service
    }
}

/// The category of a failure of the driver.
pub open spec fn kind_of(error: sqlx::Error) -> StoreErrorKind {
    category_spec(data_kind(error), service_kind(error))
}

/// The one category of two findings: what the data lacked, or else what
/// failed between the service and the database.
pub fn category(data: StoreErrorKind, service: StoreErrorKind) -> (kind: StoreErrorKind)
    ensures
        kind == category_spec(data, service),
{
    match data {
        StoreErrorKind::Other => service,
        _ => data,
    }
}

/// Turns a failure of the driver into the status that crosses the service
/// boundary: the code is that of the kind of service error which the
/// failure's category becomes, and the message is the driver's own
/// description. Whatever the failure, the caller is never blamed for it: the
/// code is "not found", "out of range" or "internal".
pub fn sql_err_to_grpc_error(error: sqlx::Error) -> (status: Status)
    ensures
        status.code == status_code_spec(translate_spec(kind_of(error))),
        status.message@ == description_of(error),
        status.code == Code::NotFound || status.code == Code::OutOfRange || status.code
            == Code::Internal,
{
    let kind = category(data_failure(&error), service_failure(&error));
    status_with(kind, describe(&error))
}

} // verus!
