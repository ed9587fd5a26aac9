//! The handlers for agents: what is checked of a request before the store
//! is touched, and what the caller gets back.

use vstd::prelude::*;
use crate::api::{AgentData, AgentRequest, AgentsData, IdUuidOrOwner};
use crate::error::{faults, rejects, Status};
use crate::response::{added, failure_of, refused, removed, show_all, updated};
use crate::storage::agents::{agent_patch, new_agent, Agent};
use crate::store::{Refusal, Store};
use crate::table::select_spec;
use crate::text::is_blank;

verus! {

/// What an add request lacks, if it lacks anything: the first of the required
/// fields that is empty or zero.
pub open spec fn add_fault(request: AgentData) -> Option<Seq<char>> {
    if request.uuid@.len() == 0 {
        Some("uuid is required"@)
    } else if request.owner == 0 {
        Some("owner is required"@)
    } else {
        None
    }
}

/// What an update request lacks, if it lacks anything.
pub open spec fn update_fault(request: AgentData) -> Option<Seq<char>> {
    if request.id is None {
        Some("Agent id required"@)
    } else {
        None
    }
}

/// Checks an add request: the status that rejects it, if it lacks a
/// required field.
pub fn check_add(request: &AgentData) -> (status: Option<Status>)
    ensures
        faults(add_fault(*request), status),
{
    if is_blank(&request.uuid) {
        Some(Status::invalid_argument("uuid is required"))
    } else if request.owner == 0 {
        Some(Status::invalid_argument("owner is required"))
    } else {
        None
    }
}

/// Checks an update request: the status that rejects it, if it lacks the id.
pub fn check_update(request: &AgentData) -> (status: Option<Status>)
    ensures
        faults(update_fault(*request), status),
{
    if request.id.is_none() {
        Some(Status::invalid_argument("Agent id required"))
    } else {
        None
    }
}

/// The key of a lookup request, or the status that rejects a request
/// without one.
pub fn lookup_key(request: AgentRequest) -> (key: Result<IdUuidOrOwner, Status>)
    ensures
        match request.id_uuid_or_owner {
            Some(given) => key == Ok::<IdUuidOrOwner, Status>(given),
            None => key matches Err(status) && rejects(status, "Agent id, uuid or owner required"@),
        },
{
    match request.id_uuid_or_owner {
        Some(given) => Ok(given),
        None => Err(Status::invalid_argument("Agent id, uuid or owner required")),
    }
}

/// The key of a delete request, or the status that rejects a request
/// without one.
pub fn delete_key(request: AgentRequest) -> (key: Result<IdUuidOrOwner, Status>)
    ensures
        match request.id_uuid_or_owner {
            Some(given) => key == Ok::<IdUuidOrOwner, Status>(given),
            None => key matches Err(status) && rejects(status, "Agent id or email required"@),
        },
{
    match request.id_uuid_or_owner {
        Some(given) => Ok(given),
        None => Err(Status::invalid_argument("Agent id or email required")),
    }
}

/// Lists every row of the table, in ascending order of id.
pub fn list(store: &Store) -> (out: Result<AgentsData, Status>)
    ensures
        out matches Ok(answer) && show_all::<Agent, AgentData>(answer.agents@, store.agents@),
{
    match Agent::all(store) {
        Ok(result) => Ok(AgentsData { agents: result }),
        Err(status) => Err(status),
    }
}

/// Looks up by the key that the request carries. A lookup by id that finds
/// no row is "not found"; a lookup by another key that finds none answers
/// with an empty list. A request without a key is rejected and the store is
/// not touched.
pub fn get(store: &Store, request: AgentRequest) -> (out: Result<AgentsData, Status>)
    ensures
        match request.id_uuid_or_owner {
            Some(key) => {
                let rows = select_spec::<Agent>(store.agents@, key);
                if key is Id && rows.len() == 0 {
                    out matches Err(status) && refused(status, Refusal::Missing)
                } else {
                    out matches Ok(answer) && show_all::<Agent, AgentData>(answer.agents@, rows)
                }
            },
            None => out matches Err(status) && rejects(status, "Agent id, uuid or owner required"@),
        },
{
    match lookup_key(request) {
        Ok(key) => match Agent::get(store, &key) {
            Ok(result) => Ok(AgentsData { agents: result }),
            Err(status) => Err(status),
        },
        Err(status) => Err(status),
    }
}

/// Adds a row. A request that lacks a required field is rejected and the
/// store is not touched.
pub fn add(store: &mut Store, request: AgentData) -> (out: Result<AgentData, Status>)
    requires
        old(store).wf(),
    ensures
        final(store).wf(),
        match add_fault(request) {
            Some(message) => {
                &&& out matches Err(status) && rejects(status, message)
                &&& *final(store) == *old(store)
            },
            None => added::<Agent, AgentData>(*old(store), new_agent(request), *final(store), out),
        },
{
    match check_add(&request) {
        Some(status) => Err(status),
        None => Agent::add(store, request),
    }
}

/// Deletes by the key that the request carries and answers with an empty
/// message. A request without a key is rejected and the store is not touched.
pub fn delete(store: &mut Store, request: AgentRequest) -> (out: Result<AgentData, Status>)
    requires
        old(store).wf(),
    ensures
        final(store).wf(),
        match request.id_uuid_or_owner {
            Some(key) => {
                &&& removed::<Agent>(*old(store), key, *final(store), failure_of(out))
                &&& out matches Ok(blank) ==> blank.is_default()
            },
            None => {
                &&& out matches Err(status) && rejects(status, "Agent id or email required"@)
                &&& *final(store) == *old(store)
            },
        },
{
    match delete_key(request) {
        Ok(key) => match Agent::delete(store, key) {
            Ok(_) => Ok(AgentData::default()),
            Err(status) => Err(status),
        },
        Err(status) => Err(status),
    }
}

/// Changes the fields that the request names. A request that lacks the id
/// or names no field is rejected and the store is not touched.
pub fn update(store: &mut Store, request: AgentData) -> (out: Result<AgentData, Status>)
    requires
        old(store).wf(),
    ensures
        final(store).wf(),
        match update_fault(request) {
            Some(message) => {
                &&& out matches Err(status) && rejects(status, message)
                &&& *final(store) == *old(store)
            },
            None => updated::<Agent, AgentData>(
                *old(store),
                request.id.unwrap(),
                agent_patch(request),
                *final(store),
                out,
            ),
        },
{
    match check_update(&request) {
        Some(status) => Err(status),
        None => Agent::update(store, request),
    }
}

} // verus!
