use tunnel_manager::error::{
    status_code, status_with, store_err_to_grpc_error, translate, Code, ErrorKind, Status,
    StoreError, StoreErrorKind,
};
use tunnel_manager::helpers::db;
use tunnel_manager::storage::helpers::{
    bcrypt_err_to_grpc_error, hashing_status, query_status, sql_err_to_grpc_error,
};
use tunnel_manager::store::{refuse, Refusal};

#[test]
fn translate_maps_every_category() {
    assert_eq!(translate(StoreErrorKind::RowNotFound), ErrorKind::NotFound);
    assert_eq!(translate(StoreErrorKind::TypeNotFound), ErrorKind::NotFound);
    assert_eq!(translate(StoreErrorKind::ColumnNotFound), ErrorKind::NotFound);
    assert_eq!(translate(StoreErrorKind::ColumnIndexOutOfBounds), ErrorKind::OutOfRange);
    assert_eq!(translate(StoreErrorKind::Configuration), ErrorKind::Internal);
    assert_eq!(translate(StoreErrorKind::Database), ErrorKind::Internal);
    assert_eq!(translate(StoreErrorKind::Io), ErrorKind::Internal);
    assert_eq!(translate(StoreErrorKind::Tls), ErrorKind::Internal);
    assert_eq!(translate(StoreErrorKind::Protocol), ErrorKind::Internal);
    assert_eq!(translate(StoreErrorKind::ColumnDecode), ErrorKind::Internal);
    assert_eq!(translate(StoreErrorKind::Decode), ErrorKind::Internal);
    assert_eq!(translate(StoreErrorKind::PoolTimedOut), ErrorKind::Internal);
    assert_eq!(translate(StoreErrorKind::PoolClosed), ErrorKind::Internal);
    assert_eq!(translate(StoreErrorKind::WorkerCrashed), ErrorKind::Internal);
    assert_eq!(translate(StoreErrorKind::Migrate), ErrorKind::Internal);
    assert_eq!(translate(StoreErrorKind::Other), ErrorKind::Unknown);
}

#[test]
fn status_code_of_every_kind() {
    assert_eq!(status_code(ErrorKind::InvalidInput), Code::InvalidArgument);
    assert_eq!(status_code(ErrorKind::NotFound), Code::NotFound);
    assert_eq!(status_code(ErrorKind::OutOfRange), Code::OutOfRange);
    assert_eq!(status_code(ErrorKind::Internal), Code::Internal);
    assert_eq!(status_code(ErrorKind::Unknown), Code::Internal);
}

#[test]
fn store_failure_becomes_status() {
    let status = store_err_to_grpc_error(StoreError::new(StoreErrorKind::PoolTimedOut, "timed out"));
    assert_eq!(status.code(), Code::Internal);
    assert_eq!(status.message(), "timed out");
    let status = store_err_to_grpc_error(StoreError::new(StoreErrorKind::RowNotFound, "no rows"));
    assert_eq!(status.code, Code::NotFound);
    assert_eq!(status.message, "not found");
    let status =
        store_err_to_grpc_error(StoreError::new(StoreErrorKind::ColumnIndexOutOfBounds, "index 3"));
    assert_eq!(status.code, Code::OutOfRange);
    assert_eq!(status.message, "index 3");
    let status = status_with(StoreErrorKind::Other, "odd".to_string());
    assert_eq!(status.code, Code::Internal);
    assert_eq!(status.message, "odd");
    let status = Status::invalid_argument("uuid is required");
    assert_eq!(status.code, Code::InvalidArgument);
    assert_eq!(status.message, "uuid is required");
}

#[test]
fn refusals_are_reported_as_database_failures() {
    let missing = refuse(Refusal::Missing);
    assert_eq!(missing.kind, StoreErrorKind::RowNotFound);
    for refusal in [Refusal::Exhausted, Refusal::Duplicate, Refusal::Dangling, Refusal::Restricted] {
        assert_eq!(refuse(refusal).kind, StoreErrorKind::Database);
    }
    assert_eq!(
        refuse(Refusal::Dangling).message,
        "insert or update violates foreign key constraint"
    );
    assert_eq!(
        refuse(Refusal::Restricted).message,
        "update or delete violates foreign key constraint"
    );
    assert_eq!(refuse(Refusal::Exhausted).message, "reached maximum value of sequence");
}

#[test]
fn query_failure_through_diesel() {
    let status = sql_err_to_grpc_error(diesel::result::Error::NotFound);
    assert_eq!(status.code, Code::NotFound);
    assert_eq!(status.message, "not found");
    let status = sql_err_to_grpc_error(diesel::result::Error::RollbackTransaction);
    assert_eq!(status.code, Code::Internal);
    assert_eq!(status.message, "You have asked diesel to rollback the transaction");
    let status = sql_err_to_grpc_error(diesel::result::Error::BrokenTransactionManager);
    assert_eq!(status.code, Code::Internal);
    assert_eq!(status.message, "The transaction manager is broken");
}

#[test]
fn query_status_of_both_cases() {
    let status = query_status(true, "ignored".to_string());
    assert_eq!((status.code, status.message.as_str()), (Code::NotFound, "not found"));
    let status = query_status(false, "connection reset".to_string());
    assert_eq!((status.code, status.message.as_str()), (Code::Internal, "connection reset"));
}

#[test]
fn driver_failure_through_sqlx() {
    let status = db::sql_err_to_grpc_error(sqlx::Error::RowNotFound);
    assert_eq!(status.code, Code::NotFound);
    assert_eq!(
        status.message,
        "no rows returned by a query that expected to return at least one row"
    );
    let status = db::sql_err_to_grpc_error(sqlx::Error::ColumnIndexOutOfBounds { index: 3, len: 2 });
    assert_eq!(status.code, Code::OutOfRange);
    assert_eq!(status.message, "column index out of bounds: the len is 2, but the index is 3");
    let status = db::sql_err_to_grpc_error(sqlx::Error::ColumnNotFound("email".to_string()));
    assert_eq!(status.code, Code::NotFound);
    assert_eq!(status.message, "no column found for name: email");
    let status = db::sql_err_to_grpc_error(sqlx::Error::PoolTimedOut);
    assert_eq!(status.code, Code::Internal);
    assert_eq!(status.message, "pool timed out while waiting for an open connection");
    let status = db::sql_err_to_grpc_error(sqlx::Error::PoolClosed);
    assert_eq!(status.code, Code::Internal);
    let status = db::sql_err_to_grpc_error(sqlx::Error::WorkerCrashed);
    assert_eq!(status.code, Code::Internal);
    let status = db::sql_err_to_grpc_error(sqlx::Error::Protocol("bad frame".to_string()));
    assert_eq!(status.code, Code::Internal);
    assert_eq!(status.message, "encountered unexpected or invalid data: bad frame");
    let status = db::sql_err_to_grpc_error(sqlx::Error::InvalidArgument("odd".to_string()));
    assert_eq!(status.code, Code::Internal);
    assert_eq!(status.message, "odd");
}

#[test]
fn category_prefers_what_the_data_lacked() {
    assert_eq!(
        db::category(StoreErrorKind::RowNotFound, StoreErrorKind::Other),
        StoreErrorKind::RowNotFound
    );
    assert_eq!(db::category(StoreErrorKind::Other, StoreErrorKind::Io), StoreErrorKind::Io);
    assert_eq!(db::category(StoreErrorKind::Other, StoreErrorKind::Other), StoreErrorKind::Other);
}

#[test]
fn hashing_failure_through_bcrypt() {
    let status = bcrypt_err_to_grpc_error(bcrypt::BcryptError::InvalidHash("no dollar sign"));
    assert_eq!(status.code, Code::PermissionDenied);
    assert_eq!(status.message, "invalid password");
    let status = bcrypt_err_to_grpc_error(bcrypt::BcryptError::CostNotAllowed(99));
    assert_eq!(status.code, Code::Internal);
    assert_eq!(status.message, "Cost needs to be between 4 and 31, got 99");
    let status = hashing_status(false, "salt".to_string());
    assert_eq!((status.code, status.message.as_str()), (Code::Internal, "salt"));
    let status = hashing_status(true, "salt".to_string());
    assert_eq!((status.code, status.message.as_str()), (Code::PermissionDenied, "invalid password"));
}

#[test]
fn client_token() {
    assert_eq!(tunnel_manager::client::get_token(), "Fake Token");
}
