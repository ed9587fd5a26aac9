//! The error translators for a store that is reached through `diesel`, and
//! for password hashing with `bcrypt`.

use vstd::prelude::*;
use crate::error::{Code, Status};

verus! {

/// `diesel::result::Error`, carried through as it is: nothing inside it is
/// seen here.
#[verifier::external_type_specification]
#[verifier::external_body]
pub struct ExDieselError(diesel::result::Error);

/// `bcrypt::BcryptError`, carried through as it is: nothing inside it is
/// seen here.
#[verifier::external_type_specification]
#[verifier::external_body]
pub struct ExBcryptError(bcrypt::BcryptError);

/// What `is_not_found` finds in an error: whether the error is the variant
/// `NotFound`. Nothing else is said of it.
pub uninterp spec fn not_found_of(error: diesel::result::Error) -> bool;

/// The text that a query's error gives through `to_string`: the driver's
/// own description of it. Nothing is said of what the text holds.
pub uninterp spec fn query_description(error: diesel::result::Error) -> Seq<char>;

/// What `is_invalid_hash` finds in an error: whether the error is the
/// variant `InvalidHash`. Nothing else is said of it.
pub uninterp spec fn invalid_hash_of(error: bcrypt::BcryptError) -> bool;

/// The text that a hashing error gives through `to_string`: the library's
/// own description of it. Nothing is said of what the text holds.
pub uninterp spec fn hashing_description(error: bcrypt::BcryptError) -> Seq<char>;

/// Whether a `diesel::result::Error` is its variant `NotFound`. The contract
/// only gives the finding its name: Verus does not see into the error.
#[verifier::external_body]
fn is_not_found(error: &diesel::result::Error) -> (found: bool)
    ensures
        found == not_found_of(*error),
{
    match error {
        diesel::result::Error::NotFound => true,
        _ => false,
    }
}

/// The text that `diesel::result::Error` gives through `to_string`. The
/// contract only gives the text its name: it is the driver's own description.
#[verifier::external_body]
fn describe(error: &diesel::result::Error) -> (text: String)
    ensures
        text@ == query_description(*error),
{
    error.to_string()
}

/// Whether a `bcrypt::BcryptError` is its variant `InvalidHash`. The
/// contract only gives the finding its name.
#[verifier::external_body]
fn is_invalid_hash(error: &bcrypt::BcryptError) -> (found: bool)
    ensures
        found == invalid_hash_of(*error),
{
    match error {
        bcrypt::BcryptError::InvalidHash(_) => true,
        _ => false,
    }
}

/// The text that `bcrypt::BcryptError` gives through `to_string`. The
/// contract only gives the text its name.
#[verifier::external_body]
fn describe_hashing(error: &bcrypt::BcryptError) -> (text: String)
    ensures
        text@ == hashing_description(*error),
{
    error.to_string()
}

/// The status of a query that failed: "not found" in fixed words where no
/// row was found, else an internal error in the driver's words.
pub fn query_status(not_found: bool, description: String) -> (status: Status)
    ensures
        status.code == if not_found {
            Code::NotFound
        } else {
            Code::Internal
        },
        status.message@ == if not_found {
            "not found"@
        } else {
            description@
        },
{
    if not_found {
        Status::new(Code::NotFound, "not found")
    } else {
        Status { code: Code::Internal, message: description }
    }
}

/// The status of a password check that failed: "permission denied" in fixed
/// words where the stored hash is malformed, else an internal error in the
/// library's words.
pub fn hashing_status(invalid_hash: bool, description: String) -> (status: Status)
    ensures
        status.code == if invalid_hash {
            Code::PermissionDenied
        } else {
            Code::Internal
        },
        status.message@ == if invalid_hash {
            "invalid password"@
        } else {
            description@
        },
{
    if invalid_hash {
        Status::new(Code::PermissionDenied, "invalid password")
    } else {
        Status { code: Code::Internal, message: description }
    }
}

/// Turns a failure of a query into the status that crosses the service
/// boundary: "not found" in fixed words where no row was found, else an
/// internal error in the driver's own words.
pub fn sql_err_to_grpc_error(error: diesel::result::Error) -> (status: Status)
    ensures
        status.code == if not_found_of(error) {
            Code::NotFound
        } else {
            Code::Internal
        },
        status.message@ == if not_found_of(error) {
            "not found"@
        } else {
            query_description(error)
        },
{
    query_status(is_not_found(&error), describe(&error))
}

/// Turns a failure of a password check into the status that crosses the
/// service boundary: "permission denied" in fixed words where the stored
/// hash is malformed, else an internal error in the library's own words.
pub fn bcrypt_err_to_grpc_error(error: bcrypt::BcryptError) -> (status: Status)
    ensures
        status.code == if invalid_hash_of(error) {
            Code::PermissionDenied
        } else {
            Code::Internal
        },
        status.message@ == if invalid_hash_of(error) {
            "invalid password"@
        } else {
            hashing_description(error)
        },
{
    hashing_status(is_invalid_hash(&error), describe_hashing(&error))
}

} // verus!
