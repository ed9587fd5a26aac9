//! The handlers for users: what is checked of a request before the store
//! is touched, and what the caller gets back.

use vstd::prelude::*;
use crate::api::{
    IdOrEmail, UserAddRequest, UserRequest, UserResponse, UserUpdateRequest, UsersResponse,
};
use crate::error::{faults, rejects, Status};
use crate::response::{added, failure_of, got_one, removed, show_all, updated};
use crate::storage::users::{new_user, user_patch, User};
use crate::store::Store;
use crate::text::is_blank;

verus! {

/// What an add request lacks, if it lacks anything: the first of the required
/// fields that is empty or zero.
pub open spec fn add_fault(request: UserAddRequest) -> Option<Seq<char>> {
    if request.email@.len() == 0 {
        Some("email is required"@)
    } else {
        None
    }
}

/// What an update request lacks, if it lacks anything.
pub open spec fn update_fault(request: UserUpdateRequest) -> Option<Seq<char>> {
    if request.id == 0 {
        Some("User id required"@)
    } else {
        None
    }
}

/// Checks an add request: the status that rejects it, if it lacks a
/// required field.
pub fn check_add(request: &UserAddRequest) -> (status: Option<Status>)
    ensures
        faults(add_fault(*request), status),
{
    if is_blank(&request.email) {
        Some(Status::invalid_argument("email is required"))
    } else {
        None
    }
}

/// Checks an update request: the status that rejects it, if it lacks the id.
pub fn check_update(request: &UserUpdateRequest) -> (status: Option<Status>)
    ensures
        faults(update_fault(*request), status),
{
    if request.id == 0 {
        Some(Status::invalid_argument("User id required"))
    } else {
        None
    }
}

/// The key of a lookup request, or the status that rejects a request
/// without one.
pub fn lookup_key(request: UserRequest) -> (key: Result<IdOrEmail, Status>)
    ensures
        match request.id_or_email {
            Some(given) => key == Ok::<IdOrEmail, Status>(given),
            None => key matches Err(status) && rejects(status, "User id or email required"@),
        },
{
    match request.id_or_email {
        Some(given) => Ok(given),
        None => Err(Status::invalid_argument("User id or email required")),
    }
}

/// The key of a delete request, or the status that rejects a request
/// without one.
pub fn delete_key(request: UserRequest) -> (key: Result<IdOrEmail, Status>)
    ensures
        match request.id_or_email {
            Some(given) => key == Ok::<IdOrEmail, Status>(given),
            None => key matches Err(status) && rejects(status, "User id or email required"@),
        },
{
    match request.id_or_email {
        Some(given) => Ok(given),
        None => Err(Status::invalid_argument("User id or email required")),
    }
}

/// Lists every row of the table, in ascending order of id.
pub fn list(store: &Store) -> (out: Result<UsersResponse, Status>)
    ensures
        out matches Ok(answer) && show_all::<User, UserResponse>(answer.users@, store.users@),
{
    match User::all(store) {
        Ok(result) => Ok(UsersResponse { users: result }),
        Err(status) => Err(status),
    }
}

/// Looks up by the key that the request carries. A request without a key
/// is rejected and the store is not touched.
pub fn get(store: &Store, request: UserRequest) -> (out: Result<UserResponse, Status>)
    ensures
        match request.id_or_email {
            Some(key) => got_one::<User, UserResponse>(*store, key, out),
            None => out matches Err(status) && rejects(status, "User id or email required"@),
        },
{
    match lookup_key(request) {
        Ok(key) => match User::get(store, &key) {
            Ok(result) => Ok(result),
            Err(status) => Err(status),
        },
        Err(status) => Err(status),
    }
}

/// Adds a row. A request that lacks a required field is rejected and the
/// store is not touched.
pub fn add(store: &mut Store, request: UserAddRequest) -> (out: Result<UserResponse, Status>)
    requires
        old(store).wf(),
    ensures
        final(store).wf(),
        match add_fault(request) {
            Some(message) => {
                &&& out matches Err(status) && rejects(status, message)
                &&& *final(store) == *old(store)
            },
            None => added::<User, UserResponse>(*old(store), new_user(request), *final(store), out),
        },
{
    match check_add(&request) {
        Some(status) => Err(status),
        None => User::add(store, request),
    }
}

/// Deletes by the key that the request carries and answers with an empty
/// message. A request without a key is rejected and the store is not touched.
pub fn delete(store: &mut Store, request: UserRequest) -> (out: Result<UserResponse, Status>)
    requires
        old(store).wf(),
    ensures
        final(store).wf(),
        match request.id_or_email {
            Some(key) => {
                &&& removed::<User>(*old(store), key, *final(store), failure_of(out))
                &&& out matches Ok(blank) ==> blank.is_default()
            },
            None => {
                &&& out matches Err(status) && rejects(status, "User id or email required"@)
                &&& *final(store) == *old(store)
            },
        },
{
    match delete_key(request) {
        Ok(key) => match User::delete(store, key) {
            Ok(_) => Ok(UserResponse::default()),
            Err(status) => Err(status),
        },
        Err(status) => Err(status),
    }
}

/// Changes the fields that the request names. A request that lacks the id
/// or names no field is rejected and the store is not touched.
pub fn update(store: &mut Store, request: UserUpdateRequest) -> (out: Result<UserResponse, Status>)
    requires
        old(store).wf(),
    ensures
        final(store).wf(),
        match update_fault(request) {
            Some(message) => {
                &&& out matches Err(status) && rejects(status, message)
                &&& *final(store) == *old(store)
            },
            None => updated::<User, UserResponse>(
                *old(store),
                request.id,
                user_patch(request),
                *final(store),
                out,
            ),
        },
{
    match check_update(&request) {
        Some(status) => Err(status),
        None => User::update(store, request),
    }
}

} // verus!
