//! The handlers for routers: what is checked of a request before the store
//! is touched, and what the caller gets back.

use vstd::prelude::*;
use crate::api::{IdOrAgent, RouterAddRequest, RouterRequest, RouterResponse, RouterUpdateRequest,
    RoutersResponse};
use crate::error::{faults, rejects, Status};
use crate::response::{added, failure_of, got_one, removed, show_all, updated};
use crate::storage::routers::{new_router, router_patch, Router};
use crate::store::Store;

verus! {

/// What an add request lacks, if it lacks anything: the first of the required
/// fields that is empty or zero.
pub open spec fn add_fault(request: RouterAddRequest) -> Option<Seq<char>> {
    if request.agent == 0 {
        Some("agent is required"@)
    } else {
        None
    }
}

/// What an update request lacks, if it lacks anything.
pub open spec fn update_fault(request: RouterUpdateRequest) -> Option<Seq<char>> {
    if request.id == 0 {
        Some("Router id required"@)
    } else {
        None
    }
}

/// Checks an add request: the status that rejects it, if it lacks a
/// required field.
pub fn check_add(request: &RouterAddRequest) -> (status: Option<Status>)
    ensures
        faults(add_fault(*request), status),
{
    if request.agent == 0 {
        Some(Status::invalid_argument("agent is required"))
    } else {
        None
    }
}

/// Checks an update request: the status that rejects it, if it lacks the id.
pub fn check_update(request: &RouterUpdateRequest) -> (status: Option<Status>)
    ensures
        faults(update_fault(*request), status),
{
    if request.id == 0 {
        Some(Status::invalid_argument("Router id required"))
    } else {
        None
    }
}

/// The key of a lookup request, or the status that rejects a request
/// without one.
pub fn lookup_key(request: RouterRequest) -> (key: Result<IdOrAgent, Status>)
    ensures
        match request.id_or_agent {
            Some(given) => key == Ok::<IdOrAgent, Status>(given),
            None => key matches Err(status) && rejects(status, "Router id or agent required"@),
        },
{
    match request.id_or_agent {
        Some(given) => Ok(given),
        None => Err(Status::invalid_argument("Router id or agent required")),
    }
}

/// The key of a delete request, or the status that rejects a request
/// without one.
pub fn delete_key(request: RouterRequest) -> (key: Result<IdOrAgent, Status>)
    ensures
        match request.id_or_agent {
            Some(given) => key == Ok::<IdOrAgent, Status>(given),
            None => key matches Err(status) && rejects(status, "Router id or agent required"@),
        },
{
    match request.id_or_agent {
        Some(given) => Ok(given),
        None => Err(Status::invalid_argument("Router id or agent required")),
    }
}

/// Lists every row of the table, in ascending order of id.
pub fn list(store: &Store) -> (out: Result<RoutersResponse, Status>)
    ensures
        out matches Ok(answer) && show_all::<Router, RouterResponse>(
            answer.routers@,
            store.routers@,
        ),
{
    match Router::all(store) {
        Ok(result) => Ok(RoutersResponse { routers: result }),
        Err(status) => Err(status),
    }
}

/// Looks up by the key that the request carries. A request without a key
/// is rejected and the store is not touched.
pub fn get(store: &Store, request: RouterRequest) -> (out: Result<RouterResponse, Status>)
    ensures
        match request.id_or_agent {
            Some(key) => got_one::<Router, RouterResponse>(*store, key, out),
            None => out matches Err(status) && rejects(status, "Router id or agent required"@),
        },
{
    match lookup_key(request) {
        Ok(key) => match Router::get(store, &key) {
            Ok(result) => Ok(result),
            Err(status) => Err(status),
        },
        Err(status) => Err(status),
    }
}

/// Adds a row. A request that lacks a required field is rejected and the
/// store is not touched.
pub fn add(store: &mut Store, request: RouterAddRequest) -> (out: Result<RouterResponse, Status>)
    requires
        old(store).wf(),
    ensures
        final(store).wf(),
        match add_fault(request) {
            Some(message) => {
                &&& out matches Err(status) && rejects(status, message)
                &&& *final(store) == *old(store)
            },
            None => added::<Router, RouterResponse>(
                *old(store),
                new_router(request),
                *final(store),
                out,
            ),
        },
{
    match check_add(&request) {
        Some(status) => Err(status),
        None => Router::add(store, request),
    }
}

/// Deletes by the key that the request carries and answers with an empty
/// message. A request without a key is rejected and the store is not touched.
pub fn delete(store: &mut Store, request: RouterRequest) -> (out: Result<RouterResponse, Status>)
    requires
        old(store).wf(),
    ensures
        final(store).wf(),
        match request.id_or_agent {
            Some(key) => {
                &&& removed::<Router>(*old(store), key, *final(store), failure_of(out))
                &&& out matches Ok(blank) ==> blank.is_default()
            },
            None => {
                &&& out matches Err(status) && rejects(status, "Router id or agent required"@)
                &&& *final(store) == *old(store)
            },
        },
{
    match delete_key(request) {
        Ok(key) => match Router::delete(store, key) {
            Ok(_) => Ok(RouterResponse::default()),
            Err(status) => Err(status),
        },
        Err(status) => Err(status),
    }
}

/// Changes the fields that the request names. A request that lacks the id
/// or names no field is rejected and the store is not touched.
pub fn update(store: &mut Store, request: RouterUpdateRequest) -> (out: Result<
    RouterResponse,
    Status,
>)
    requires
        old(store).wf(),
    ensures
        final(store).wf(),
        match update_fault(request) {
            Some(message) => {
                &&& out matches Err(status) && rejects(status, message)
                &&& *final(store) == *old(store)
            },
            None => updated::<Router, RouterResponse>(
                *old(store),
                request.id,
                router_patch(request),
                *final(store),
                out,
            ),
        },
{
    match check_update(&request) {
        Some(status) => Err(status),
        None => Router::update(store, request),
    }
}

} // verus!
