//! The handlers for permission memberships: what is checked of a request before the store
//! is touched, and what the caller gets back.

use vstd::prelude::*;
use crate::api::{IdPermissionOrUserid, PermissionMembershipData, PermissionMembershipRequest,
    PermissionMembershipsData};
use crate::error::{faults, rejects, Status};
use crate::response::{added, failure_of, refused, removed, show_all, updated};
use crate::storage::permission_membership::{membership_patch, new_membership, PermissionMembership};
use crate::store::{Refusal, Store};
use crate::table::select_spec;

verus! {

/// What an add request lacks, if it lacks anything: the first of the required
/// fields that is empty or zero.
pub open spec fn add_fault(request: PermissionMembershipData) -> Option<Seq<char>> {
    if request.permission == 0 {
        Some("permission is required"@)
    } else if request.user_id == 0 {
        Some("user id is required"@)
    } else {
        None
    }
}

/// What an update request lacks, if it lacks anything.
pub open spec fn update_fault(request: PermissionMembershipData) -> Option<Seq<char>> {
    if request.id is None {
        Some("PermissionMembership id required"@)
    } else {
        None
    }
}

/// Checks an add request: the status that rejects it, if it lacks a
/// required field.
pub fn check_add(request: &PermissionMembershipData) -> (status: Option<Status>)
    ensures
        faults(add_fault(*request), status),
{
    if request.permission == 0 {
        Some(Status::invalid_argument("permission is required"))
    } else if request.user_id == 0 {
        Some(Status::invalid_argument("user id is required"))
    } else {
        None
    }
}

/// Checks an update request: the status that rejects it, if it lacks the id.
pub fn check_update(request: &PermissionMembershipData) -> (status: Option<Status>)
    ensures
        faults(update_fault(*request), status),
{
    if request.id.is_none() {
        Some(Status::invalid_argument("PermissionMembership id required"))
    } else {
        None
    }
}

/// The key of a lookup request, or the status that rejects a request
/// without one.
pub fn lookup_key(request: PermissionMembershipRequest) -> (key: Result<
    IdPermissionOrUserid,
    Status,
>)
    ensures
        match request.id_permission_or_userid {
            Some(given) => key == Ok::<IdPermissionOrUserid, Status>(given),
            None => key matches Err(status) && rejects(
                status,
                "PermissionMembership id, uuid or owner required"@,
            ),
        },
{
    match request.id_permission_or_userid {
        Some(given) => Ok(given),
        None => Err(Status::invalid_argument("PermissionMembership id, uuid or owner required")),
    }
}

/// The key of a delete request, or the status that rejects a request
/// without one.
pub fn delete_key(request: PermissionMembershipRequest) -> (key: Result<
    IdPermissionOrUserid,
    Status,
>)
    ensures
        match request.id_permission_or_userid {
            Some(given) => key == Ok::<IdPermissionOrUserid, Status>(given),
            None => key matches Err(status) && rejects(
                status,
                "PermissionMembership id or email required"@,
            ),
        },
{
    match request.id_permission_or_userid {
        Some(given) => Ok(given),
        None => Err(Status::invalid_argument("PermissionMembership id or email required")),
    }
}

/// Lists every row of the table, in ascending order of id.
pub fn list(store: &Store) -> (out: Result<PermissionMembershipsData, Status>)
    ensures
        out matches Ok(answer) && show_all::<PermissionMembership, PermissionMembershipData>(
            answer.memberships@,
            store.memberships@,
        ),
{
    match PermissionMembership::all(store) {
        Ok(result) => Ok(PermissionMembershipsData { memberships: result }),
        Err(status) => Err(status),
    }
}

/// Looks up by the key that the request carries. A lookup by id that finds
/// no row is "not found"; a lookup by another key that finds none answers
/// with an empty list. A request without a key is rejected and the store is
/// not touched.
pub fn get_permission_members(store: &Store, request: PermissionMembershipRequest) -> (out: Result<
    PermissionMembershipsData,
    Status,
>)
    ensures
        match request.id_permission_or_userid {
            Some(key) => {
                let rows = select_spec::<PermissionMembership>(store.memberships@, key);
                if key is Id && rows.len() == 0 {
                    out matches Err(status) && refused(status, Refusal::Missing)
                } else {
                    out matches Ok(answer) && show_all::<
                        PermissionMembership,
                        PermissionMembershipData,
                    >(answer.memberships@, rows)
                }
            },
            None => out matches Err(status) && rejects(
                status,
                "PermissionMembership id, uuid or owner required"@,
            ),
        },
{
    match lookup_key(request) {
        Ok(key) => match PermissionMembership::get(store, &key) {
            Ok(result) => Ok(PermissionMembershipsData { memberships: result }),
            Err(status) => Err(status),
        },
        Err(status) => Err(status),
    }
}

/// Looks up by the key that the request carries. A lookup by id that finds
/// no row is "not found"; a lookup by another key that finds none answers
/// with an empty list. A request without a key is rejected and the store is
/// not touched.
pub fn get_user_permissions(store: &Store, request: PermissionMembershipRequest) -> (out: Result<
    PermissionMembershipsData,
    Status,
>)
    ensures
        match request.id_permission_or_userid {
            Some(key) => {
                let rows = select_spec::<PermissionMembership>(store.memberships@, key);
                if key is Id && rows.len() == 0 {
                    out matches Err(status) && refused(status, Refusal::Missing)
                } else {
                    out matches Ok(answer) && show_all::<
                        PermissionMembership,
                        PermissionMembershipData,
                    >(answer.memberships@, rows)
                }
            },
            None => out matches Err(status) && rejects(
                status,
                "PermissionMembership id, uuid or owner required"@,
            ),
        },
{
    match lookup_key(request) {
        Ok(key) => match PermissionMembership::get(store, &key) {
            Ok(result) => Ok(PermissionMembershipsData { memberships: result }),
            Err(status) => Err(status),
        },
        Err(status) => Err(status),
    }
}

/// Adds a row. A request that lacks a required field is rejected and the
/// store is not touched.
pub fn add(store: &mut Store, request: PermissionMembershipData) -> (out: Result<
    PermissionMembershipData,
    Status,
>)
    requires
        old(store).wf(),
    ensures
        final(store).wf(),
        match add_fault(request) {
            Some(message) => {
                &&& out matches Err(status) && rejects(status, message)
                &&& *final(store) == *old(store)
            },
            None => added::<PermissionMembership, PermissionMembershipData>(
                *old(store),
                new_membership(request),
                *final(store),
                out,
            ),
        },
{
    match check_add(&request) {
        Some(status) => Err(status),
        None => PermissionMembership::add(store, request),
    }
}

/// Deletes by the key that the request carries and answers with an empty
/// message. A request without a key is rejected and the store is not touched.
pub fn delete(store: &mut Store, request: PermissionMembershipRequest) -> (out: Result<
    PermissionMembershipData,
    Status,
>)
    requires
        old(store).wf(),
    ensures
        final(store).wf(),
        match request.id_permission_or_userid {
            Some(key) => {
                &&& removed::<PermissionMembership>(
                    *old(store),
                    key,
                    *final(store),
                    failure_of(out),
                )
                &&& out matches Ok(blank) ==> blank.is_default()
            },
            None => {
                &&& out matches Err(status) && rejects(
                    status,
                    "PermissionMembership id or email required"@,
                )
                &&& *final(store) == *old(store)
            },
        },
{
    match delete_key(request) {
        Ok(key) => match PermissionMembership::delete(store, key) {
            Ok(_) => Ok(PermissionMembershipData::default()),
            Err(status) => Err(status),
        },
        Err(status) => Err(status),
    }
}

/// Changes the fields that the request names. A request that lacks the id
/// or names no field is rejected and the store is not touched.
pub fn update(store: &mut Store, request: PermissionMembershipData) -> (out: Result<
    PermissionMembershipData,
    Status,
>)
    requires
        old(store).wf(),
    ensures
        final(store).wf(),
        match update_fault(request) {
            Some(message) => {
                &&& out matches Err(status) && rejects(status, message)
                &&& *final(store) == *old(store)
            },
            None => updated::<PermissionMembership, PermissionMembershipData>(
                *old(store),
                request.id.unwrap(),
                membership_patch(request),
                *final(store),
                out,
            ),
        },
{
    match check_update(&request) {
        Some(status) => Err(status),
        None => PermissionMembership::update(store, request),
    }
}

} // verus!
