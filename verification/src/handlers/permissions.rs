//! The handlers for permissions: what is checked of a request before the store
//! is touched, and what the caller gets back.

use vstd::prelude::*;
use crate::api::{IdOrName, PermissionData, PermissionRequest, PermissionsData};
use crate::error::{faults, rejects, Status};
use crate::response::{added, failure_of, got_one, removed, show_all, updated};
use crate::storage::permissions::{permission_patch, NewPermission, Permission};
use crate::store::Store;
use crate::text::is_blank;

verus! {

/// What an add request lacks, if it lacks anything: the first of the required
/// fields that is empty or zero.
pub open spec fn add_fault(request: PermissionData) -> Option<Seq<char>> {
    if request.name@.len() == 0 {
        Some("Permission name is required"@)
    } else if request.description@.len() == 0 {
        Some("Permission description is required"@)
    } else {
        None
    }
}

/// The insert that an add request asks for.
pub open spec fn new_permission(request: PermissionData) -> NewPermission {
    NewPermission { name: request.name, description: request.description }
}

/// The row that stands for an update request: the id names the permission,
/// and an empty name or description means "leave alone".
pub open spec fn as_row(request: PermissionData) -> Permission {
    Permission { id: request.id, name: request.name, description: request.description }
}

/// The row that stands for an update request.
pub fn row_of(request: PermissionData) -> (row: Permission)
    ensures
        row == as_row(request),
{
    Permission { id: request.id, name: request.name, description: request.description }
}

/// Checks an add request: the status that rejects it, if it lacks a
/// required field.
pub fn check_add(request: &PermissionData) -> (status: Option<Status>)
    ensures
        faults(add_fault(*request), status),
{
    if is_blank(&request.name) {
        Some(Status::invalid_argument("Permission name is required"))
    } else if is_blank(&request.description) {
        Some(Status::invalid_argument("Permission description is required"))
    } else {
        None
    }
}

/// The key of a lookup request, or the status that rejects a request
/// without one.
pub fn lookup_key(request: PermissionRequest) -> (key: Result<IdOrName, Status>)
    ensures
        match request.id_or_name {
            Some(given) => key == Ok::<IdOrName, Status>(given),
            None => key matches Err(status) && rejects(status, "Permission id or name required"@),
        },
{
    match request.id_or_name {
        Some(given) => Ok(given),
        None => Err(Status::invalid_argument("Permission id or name required")),
    }
}

/// The key of a delete request, or the status that rejects a request
/// without one.
pub fn delete_key(request: PermissionRequest) -> (key: Result<IdOrName, Status>)
    ensures
        match request.id_or_name {
            Some(given) => key == Ok::<IdOrName, Status>(given),
            None => key matches Err(status) && rejects(status, "Permission id or name required"@),
        },
{
    match request.id_or_name {
        Some(given) => Ok(given),
        None => Err(Status::invalid_argument("Permission id or name required")),
    }
}

/// Lists every row of the table, in ascending order of id.
pub fn list(store: &Store) -> (out: Result<PermissionsData, Status>)
    ensures
        out matches Ok(answer) && show_all::<Permission, PermissionData>(
            answer.permissions@,
            store.permissions@,
        ),
{
    match Permission::all(store) {
        Ok(result) => Ok(PermissionsData { permissions: result }),
        Err(status) => Err(status),
    }
}

/// Looks up by the key that the request carries. A request without a key
/// is rejected and the store is not touched.
pub fn get(store: &Store, request: PermissionRequest) -> (out: Result<PermissionData, Status>)
    ensures
        match request.id_or_name {
            Some(key) => got_one::<Permission, PermissionData>(*store, key, out),
            None => out matches Err(status) && rejects(status, "Permission id or name required"@),
        },
{
    match lookup_key(request) {
        Ok(key) => match Permission::get(store, &key) {
            Ok(result) => Ok(result),
            Err(status) => Err(status),
        },
        Err(status) => Err(status),
    }
}

/// Adds a row. A request that lacks a required field is rejected and the
/// store is not touched.
pub fn add(store: &mut Store, request: PermissionData) -> (out: Result<PermissionData, Status>)
    requires
        old(store).wf(),
    ensures
        final(store).wf(),
        match add_fault(request) {
            Some(message) => {
                &&& out matches Err(status) && rejects(status, message)
                &&& *final(store) == *old(store)
            },
            None => added::<Permission, PermissionData>(
                *old(store),
                new_permission(request),
                *final(store),
                out,
            ),
        },
{
    match check_add(&request) {
        Some(status) => Err(status),
        None => Permission::add(store, request.name.as_str(), request.description.as_str()),
    }
}

/// Deletes by the key that the request carries and answers with an empty
/// message. A request without a key is rejected and the store is not touched.
pub fn delete(store: &mut Store, request: PermissionRequest) -> (out: Result<
    PermissionData,
    Status,
>)
    requires
        old(store).wf(),
    ensures
        final(store).wf(),
        match request.id_or_name {
            Some(key) => {
                &&& removed::<Permission>(*old(store), key, *final(store), failure_of(out))
                &&& out matches Ok(blank) ==> blank.is_default()
            },
            None => {
                &&& out matches Err(status) && rejects(status, "Permission id or name required"@)
                &&& *final(store) == *old(store)
            },
        },
{
    match delete_key(request) {
        Ok(key) => match Permission::delete(store, key) {
            Ok(_) => Ok(PermissionData::default()),
            Err(status) => Err(status),
        },
        Err(status) => Err(status),
    }
}

/// Changes the fields that the request names. A request that names no
/// field is rejected and the store is not touched.
pub fn update(store: &mut Store, request: PermissionData) -> (out: Result<PermissionData, Status>)
    requires
        old(store).wf(),
    ensures
        final(store).wf(),
        updated::<Permission, PermissionData>(
            *old(store),
            request.id,
            permission_patch(as_row(request)),
            *final(store),
            out,
        ),
{
    Permission::update(store, row_of(request))
}

} // verus!
