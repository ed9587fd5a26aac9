//! The handlers for tunnels: what is checked of a request before the store
//! is touched, and what the caller gets back.

use vstd::prelude::*;
use crate::api::{IdOrRouter, TunnelAddRequest, TunnelRequest, TunnelResponse, TunnelUpdateRequest,
    TunnelsResponse};
use crate::error::{faults, rejects, Status};
use crate::response::{added, failure_of, got_one, removed, show_all, updated};
use crate::storage::tunnels::{new_tunnel, tunnel_patch, Tunnel};
use crate::store::Store;
use crate::text::is_blank;

verus! {

/// What an add request lacks, if it lacks anything: the first of the required
/// fields that is empty or zero.
pub open spec fn add_fault(request: TunnelAddRequest) -> Option<Seq<char>> {
    if request.router == 0 {
        Some("router is required"@)
    } else if request.ip@.len() == 0 {
        Some("ip is required"@)
    } else if request.hostname@.len() == 0 {
        Some("hostname is required"@)
    } else if request.description@.len() == 0 {
        Some("description is required"@)
    } else if request.source@.len() == 0 {
        Some("source is required"@)
    } else {
        None
    }
}

/// Checks an add request: the status that rejects it, if it lacks a
/// required field.
pub fn check_add(request: &TunnelAddRequest) -> (status: Option<Status>)
    ensures
        faults(add_fault(*request), status),
{
    if request.router == 0 {
        Some(Status::invalid_argument("router is required"))
    } else if is_blank(&request.ip) {
        Some(Status::invalid_argument("ip is required"))
    } else if is_blank(&request.hostname) {
        Some(Status::invalid_argument("hostname is required"))
    } else if is_blank(&request.description) {
        Some(Status::invalid_argument("description is required"))
    } else if is_blank(&request.source) {
        Some(Status::invalid_argument("source is required"))
    } else {
        None
    }
}

/// The key of a lookup request, or the status that rejects a request
/// without one.
pub fn lookup_key(request: TunnelRequest) -> (key: Result<IdOrRouter, Status>)
    ensures
        match request.id_or_router {
            Some(given) => key == Ok::<IdOrRouter, Status>(given),
            None => key matches Err(status) && rejects(
                status,
                "Tunnel id, uuid or owner required"@,
            ),
        },
{
    match request.id_or_router {
        Some(given) => Ok(given),
        None => Err(Status::invalid_argument("Tunnel id, uuid or owner required")),
    }
}

/// The key of a delete request, or the status that rejects a request
/// without one.
pub fn delete_key(request: TunnelRequest) -> (key: Result<IdOrRouter, Status>)
    ensures
        match request.id_or_router {
            Some(given) => key == Ok::<IdOrRouter, Status>(given),
            None => key matches Err(status) && rejects(status, "Tunnel id or email required"@),
        },
{
    match request.id_or_router {
        Some(given) => Ok(given),
        None => Err(Status::invalid_argument("Tunnel id or email required")),
    }
}

/// Lists every row of the table, in ascending order of id.
pub fn list(store: &Store) -> (out: Result<TunnelsResponse, Status>)
    ensures
        out matches Ok(answer) && show_all::<Tunnel, TunnelResponse>(
            answer.tunnels@,
            store.tunnels@,
        ),
{
    match Tunnel::all(store) {
        Ok(result) => Ok(TunnelsResponse { tunnels: result }),
        Err(status) => Err(status),
    }
}

/// Looks up by the key that the request carries. A request without a key
/// is rejected and the store is not touched.
pub fn get(store: &Store, request: TunnelRequest) -> (out: Result<TunnelResponse, Status>)
    ensures
        match request.id_or_router {
            Some(key) => got_one::<Tunnel, TunnelResponse>(*store, key, out),
            None => out matches Err(status) && rejects(
                status,
                "Tunnel id, uuid or owner required"@,
            ),
        },
{
    match lookup_key(request) {
        Ok(key) => match Tunnel::get(store, &key) {
            Ok(result) => Ok(result),
            Err(status) => Err(status),
        },
        Err(status) => Err(status),
    }
}

/// Adds a row. A request that lacks a required field is rejected and the
/// store is not touched.
pub fn add(store: &mut Store, request: TunnelAddRequest) -> (out: Result<TunnelResponse, Status>)
    requires
        old(store).wf(),
    ensures
        final(store).wf(),
        match add_fault(request) {
            Some(message) => {
                &&& out matches Err(status) && rejects(status, message)
                &&& *final(store) == *old(store)
            },
            None => added::<Tunnel, TunnelResponse>(
                *old(store),
                new_tunnel(request),
                *final(store),
                out,
            ),
        },
{
    match check_add(&request) {
        Some(status) => Err(status),
        None => Tunnel::add(store, request),
    }
}

/// Deletes by the key that the request carries and answers with an empty
/// message. A request without a key is rejected and the store is not touched.
pub fn delete(store: &mut Store, request: TunnelRequest) -> (out: Result<TunnelResponse, Status>)
    requires
        old(store).wf(),
    ensures
        final(store).wf(),
        match request.id_or_router {
            Some(key) => {
                &&& removed::<Tunnel>(*old(store), key, *final(store), failure_of(out))
                &&& out matches Ok(blank) ==> blank.is_default()
            },
            None => {
                &&& out matches Err(status) && rejects(status, "Tunnel id or email required"@)
                &&& *final(store) == *old(store)
            },
        },
{
    match delete_key(request) {
        Ok(key) => match Tunnel::delete(store, key) {
            Ok(_) => Ok(TunnelResponse::default()),
            Err(status) => Err(status),
        },
        Err(status) => Err(status),
    }
}

/// Changes the fields that the request names. A request that names no
/// field is rejected and the store is not touched.
pub fn update(store: &mut Store, request: TunnelUpdateRequest) -> (out: Result<
    TunnelResponse,
    Status,
>)
    requires
        old(store).wf(),
    ensures
        final(store).wf(),
        updated::<Tunnel, TunnelResponse>(
            *old(store),
            request.id,
            tunnel_patch(request),
            *final(store),
            out,
        ),
{
    Tunnel::update(store, request)
}

} // verus!
