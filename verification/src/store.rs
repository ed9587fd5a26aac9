//! The store: the six tables, and the rules that it enforces on every
//! change. A change that breaks a rule is refused as a whole.

use vstd::prelude::*;
use crate::constraints::{
    all_refer, distinct, held_by_other, holds, lemma_distinct_push, lemma_distinct_reject,
    lemma_distinct_update, lemma_refer_child_push, lemma_refer_child_reject,
    lemma_refer_child_update, lemma_refer_parent_push, lemma_refer_parent_reject,
    lemma_refer_parent_update, referenced, restricted,
};
use crate::error::{StoreError, StoreErrorKind};
use crate::api::{IdOrAgent, IdOrEmail, IdOrName, IdOrRouter, IdPermissionOrUserid, IdUuidOrOwner};
use crate::storage::agents::{Agent, NewAgent, UpdateAgent};
use crate::storage::permission_membership::{
    NewPermissionMembership, PermissionMembership, UpdatePermissionMembership,
};
use crate::storage::permissions::{NewPermission, Permission, UpdatePermission};
use crate::storage::routers::{NewRouter, Router, UpdateRouter};
use crate::storage::tunnels::{NewTunnel, Tunnel, UpdateTunnel};
use crate::storage::users::{NewUser, UpdateUser, User};
use crate::table::{find_spec, has_id, reject_spec, select_spec, update_spec, Record, Table};

verus! {

/// Why the store refuses a change.
#[derive(Clone, Copy, Debug, PartialEq, Eq, Structural)]
pub enum Refusal {
    /// No row has the id that the change names.
    Missing,
    /// The table has given out its last id.
    Exhausted,
    /// Another row already holds the text that must be unique.
    Duplicate,
    /// The row would refer to a row that does not exist.
    Dangling,
    /// Another row still refers to a row that would be deleted.
    Restricted,
}

/// The category under which the store reports a refusal.
pub open spec fn refusal_kind(refusal: Refusal) -> StoreErrorKind {
    match refusal {
        Refusal::Missing => StoreErrorKind::RowNotFound,
        _ => StoreErrorKind::Database,
    }
}

/// The words in which the store reports a refusal.
pub open spec fn refusal_message(refusal: Refusal) -> Seq<char> {
    match refusal {
        Refusal::Missing => "no rows returned by a query that expected to return at least one row"@,
        Refusal::Exhausted => "reached maximum value of sequence"@,
        Refusal::Duplicate => "duplicate key value violates unique constraint"@,
        Refusal::Dangling => "insert or update violates foreign key constraint"@,
        Refusal::Restricted => "update or delete violates foreign key constraint"@,
    }
}

/// Whether the error reports the refusal.
pub open spec fn reports(error: StoreError, refusal: Refusal) -> bool {
    &&& error.kind == refusal_kind(refusal)
    &&& error.message@ == refusal_message(refusal)
}

/// The error that reports a refusal.
pub fn refuse(refusal: Refusal) -> (error: StoreError)
    ensures
        reports(error, refusal),
{
    match refusal {
        Refusal::Missing => StoreError::new(
            StoreErrorKind::RowNotFound,
            "no rows returned by a query that expected to return at least one row",
        ),
        Refusal::Exhausted => StoreError::new(
            StoreErrorKind::Database,
            "reached maximum value of sequence",
        ),
        Refusal::Duplicate => StoreError::new(
            StoreErrorKind::Database,
            "duplicate key value violates unique constraint",
        ),
        Refusal::Dangling => StoreError::new(
            StoreErrorKind::Database,
            "insert or update violates foreign key constraint",
        ),
        Refusal::Restricted => StoreError::new(
            StoreErrorKind::Database,
            "update or delete violates foreign key constraint",
        ),
    }
}

/// Why an insert into a table is refused, if it is: the checks in the order in
/// which the store makes them.
pub open spec fn insert_refusal(last_id: i32, duplicate: bool, dangling: bool) -> Option<Refusal> {
    if last_id == i32::MAX {
        Some(Refusal::Exhausted)
    } else if duplicate {
        Some(Refusal::Duplicate)
    } else if dangling {
        Some(Refusal::Dangling)
    } else {
        None
    }
}

/// Why a partial update is refused, if it is.
pub open spec fn update_refusal(found: bool, duplicate: bool, dangling: bool) -> Option<Refusal> {
    if !found {
        Some(Refusal::Missing)
    } else if duplicate {
        Some(Refusal::Duplicate)
    } else if dangling {
        Some(Refusal::Dangling)
    } else {
        None
    }
}

/// Why a delete is refused, if it is.
pub open spec fn delete_refusal(restricted: bool) -> Option<Refusal> {
    if restricted {
        Some(Refusal::Restricted)
    } else {
        None
    }
}

/// Inserts into one table unless one of the checks, made by the caller, says
/// no.
fn guarded_insert<R: Record>(
    table: &mut Table<R>,
    new: R::New,
    duplicate: bool,
    dangling: bool,
) -> (out: Result<R, StoreError>)
    requires
        old(table).wf(),
    ensures
        final(table).wf(),
        match out {
            Ok(row) => {
                &&& insert_refusal(old(table).last_id, duplicate, dangling) is None
                &&& row@ == R::created((old(table).last_id + 1) as i32, new)
                &&& final(table)@ == old(table)@.push(row@)
                &&& final(table).last_id == old(table).last_id + 1
            },
            Err(error) => {
                &&& insert_refusal(old(table).last_id, duplicate, dangling) matches Some(refusal)
                    && reports(error, refusal)
                &&& *final(table) == *old(table)
            },
        },
{
    if table.last_id == i32::MAX {
        return Err(refuse(Refusal::Exhausted));
    }
    if duplicate {
        return Err(refuse(Refusal::Duplicate));
    }
    if dangling {
        return Err(refuse(Refusal::Dangling));
    }
    match table.insert(new) {
        Some(row) => Ok(row),
        None => Err(refuse(Refusal::Exhausted)),
    }
}

/// Updates one row of a table unless one of the checks, made by the caller,
/// says no.
fn guarded_update<R: Record>(
    table: &mut Table<R>,
    id: i32,
    patch: &R::Patch,
    duplicate: bool,
    dangling: bool,
) -> (out: Result<R, StoreError>)
    requires
        old(table).wf(),
    ensures
        final(table).wf(),
        final(table).last_id == old(table).last_id,
        match out {
            Ok(row) => {
                &&& update_refusal(has_id::<R>(old(table)@, id), duplicate, dangling) is None
                &&& find_spec::<R>(old(table)@, id) matches Some(before) && row@ == R::patched(
                    before,
                    *patch,
                )
                &&& final(table)@ == update_spec::<R>(old(table)@, id, *patch)
            },
            Err(error) => {
                &&& update_refusal(has_id::<R>(old(table)@, id), duplicate, dangling) matches Some(
                    refusal,
                ) && reports(error, refusal)
                &&& *final(table) == *old(table)
            },
        },
{
    if !table.contains_id(id) {
        return Err(refuse(Refusal::Missing));
    }
    if duplicate {
        return Err(refuse(Refusal::Duplicate));
    }
    if dangling {
        return Err(refuse(Refusal::Dangling));
    }
    match table.update(id, patch) {
        Some(row) => Ok(row),
        None => Err(refuse(Refusal::Missing)),
    }
}

/// Deletes from one table unless the check, made by the caller, says no.
fn guarded_delete<R: Record>(table: &mut Table<R>, key: &R::Key, restricted: bool) -> (out: Result<
    usize,
    StoreError,
>)
    requires
        old(table).wf(),
    ensures
        final(table).wf(),
        final(table).last_id == old(table).last_id,
        match out {
            Ok(removed) => {
                &&& !restricted
                &&& removed == select_spec::<R>(old(table)@, *key).len()
                &&& final(table)@ == reject_spec::<R>(old(table)@, *key)
            },
            Err(error) => {
                &&& restricted
                &&& reports(error, Refusal::Restricted)
                &&& *final(table) == *old(table)
            },
        },
{
    if restricted {
        return Err(refuse(Refusal::Restricted));
    }
    Ok(table.delete(key))
}

/// The six tables.
pub struct Store {
    pub users: Table<User>,
    pub agents: Table<Agent>,
    pub routers: Table<Router>,
    pub tunnels: Table<Tunnel>,
    pub permissions: Table<Permission>,
    pub memberships: Table<PermissionMembership>,
}

impl Store {
    /// The store's invariant: every table is in order, emails and permission names
    /// are unique, and every reference leads to a row that exists.
    pub open spec fn wf(&self) -> bool {
        &&& self.users.wf()
        &&& self.agents.wf()
        &&& self.routers.wf()
        &&& self.tunnels.wf()
        &&& self.permissions.wf()
        &&& self.memberships.wf()
        &&& distinct::<User>(self.users@)
        &&& distinct::<Permission>(self.permissions@)
        &&& all_refer::<Agent, User>(self.agents@, 0, self.users@)
        &&& all_refer::<Router, Agent>(self.routers@, 0, self.agents@)
        &&& all_refer::<Tunnel, Router>(self.tunnels@, 0, self.routers@)
        &&& all_refer::<PermissionMembership, Permission>(self.memberships@, 0, self.permissions@)
        &&& all_refer::<PermissionMembership, User>(self.memberships@, 1, self.users@)
    }

    /// A store whose tables are all empty.
    pub fn new() -> (store: Store)
        ensures
            store.wf(),
            store.users@.len() == 0 && store.users.last_id == 0,
            store.agents@.len() == 0 && store.agents.last_id == 0,
            store.routers@.len() == 0 && store.routers.last_id == 0,
            store.tunnels@.len() == 0 && store.tunnels.last_id == 0,
            store.permissions@.len() == 0 && store.permissions.last_id == 0,
            store.memberships@.len() == 0 && store.memberships.last_id == 0,
    {
        Store {
            users: Table::new(),
            agents: Table::new(),
            routers: Table::new(),
            tunnels: Table::new(),
            permissions: Table::new(),
            memberships: Table::new(),
        }
    }

    /// Why an insert of the user is refused, if it is.
    pub open spec fn user_insert_refusal(&self, new: NewUser) -> Option<Refusal> {
        insert_refusal(self.users.last_id, holds::<User>(self.users@, new.email@), false)
    }

    /// Why the partial update of a user is refused, if it is.
    pub open spec fn user_update_refusal(&self, id: i32, patch: UpdateUser) -> Option<Refusal> {
        update_refusal(
            has_id::<User>(self.users@, id),
            patch.email matches Some(email) && held_by_other::<User>(self.users@, email@, id),
            false,
        )
    }

    /// Why a delete of users is refused, if it is.
    pub open spec fn user_delete_refusal(&self, key: IdOrEmail) -> Option<Refusal> {
        delete_refusal(
            referenced::<Agent, User>(self.agents@, 0, self.users@, key) || referenced::<
                PermissionMembership,
                User,
            >(self.memberships@, 1, self.users@, key),
        )
    }

    /// Adds a user under the next id. Refused when the ids are used up or another
    /// user has the email; then nothing changes.
    pub fn insert_user(&mut self, new: NewUser) -> (out: Result<User, StoreError>)
        requires
            old(self).wf(),
        ensures
            final(self).wf(),
            match out {
                Ok(row) => {
                    &&& old(self).user_insert_refusal(new) is None
                    &&& row@ == User::created((old(self).users.last_id + 1) as i32, new)
                    &&& final(self).users@ == old(self).users@.push(row@)
                    &&& final(self).users.last_id == old(self).users.last_id + 1
                    &&& *final(self) == (Store { users: final(self).users, ..*old(self) })
                },
                Err(error) => {
                    &&& old(self).user_insert_refusal(new) matches Some(refusal)
                        && reports(error, refusal)
                    &&& *final(self) == *old(self)
                },
            },
    {
        let duplicate = self.users.holds(&new.email);
        let out = guarded_insert(&mut self.users, new, duplicate, false);
        proof {
            if out is Ok {
                let row = out.unwrap();
                lemma_distinct_push::<User>(old(self).users@, row@);
                lemma_refer_parent_push::<Agent, User>(self.agents@, 0, old(self).users@, row@);
                lemma_refer_parent_push::<PermissionMembership, User>(
                    self.memberships@,
                    1,
                    old(self).users@,
                    row@,
                );
            }
        }
        out
    }

    /// Applies a partial update to the user with the given id. Refused when there
    /// is no such user or another user has the new email; then nothing changes.
    pub fn update_user(&mut self, id: i32, patch: &UpdateUser) -> (out: Result<User, StoreError>)
        requires
            old(self).wf(),
        ensures
            final(self).wf(),
            match out {
                Ok(row) => {
                    &&& old(self).user_update_refusal(id, *patch) is None
                    &&& find_spec::<User>(old(self).users@, id) matches Some(before) && row@
                        == User::patched(before, *patch)
                    &&& final(self).users@ == update_spec::<User>(old(self).users@, id, *patch)
                    &&& final(self).users.last_id == old(self).users.last_id
                    &&& *final(self) == (Store { users: final(self).users, ..*old(self) })
                },
                Err(error) => {
                    &&& old(self).user_update_refusal(id, *patch) matches Some(refusal)
                        && reports(error, refusal)
                    &&& *final(self) == *old(self)
                },
            },
    {
        let duplicate = match &patch.email {
            Some(email) => self.users.other_holds(email, id),
            None => false,
        };
        let out = guarded_update(&mut self.users, id, patch, duplicate, false);
        proof {
            if out is Ok {
                lemma_distinct_update::<User>(old(self).users@, id, *patch);
                lemma_refer_parent_update::<Agent, User>(
                    self.agents@,
                    0,
                    old(self).users@,
                    id,
                    *patch,
                );
                lemma_refer_parent_update::<PermissionMembership, User>(
                    self.memberships@,
                    1,
                    old(self).users@,
                    id,
                    *patch,
                );
            }
        }
        out
    }

    /// Deletes the users that the key selects and returns how many they were.
    /// Refused when an agent or a permission membership still refers to one of
    /// them; then nothing changes.
    pub fn delete_users(&mut self, key: &IdOrEmail) -> (out: Result<usize, StoreError>)
        requires
            old(self).wf(),
        ensures
            final(self).wf(),
            match out {
                Ok(removed) => {
                    &&& old(self).user_delete_refusal(*key) is None
                    &&& removed == select_spec::<User>(old(self).users@, *key).len()
                    &&& final(self).users@ == reject_spec::<User>(old(self).users@, *key)
                    &&& final(self).users.last_id == old(self).users.last_id
                    &&& *final(self) == (Store { users: final(self).users, ..*old(self) })
                },
                Err(error) => {
                    &&& old(self).user_delete_refusal(*key) == Some(Refusal::Restricted)
                    &&& reports(error, Refusal::Restricted)
                    &&& *final(self) == *old(self)
                },
            },
    {
        let held = restricted::<Agent, User>(&self.agents, 0, &self.users, key) || restricted::<
            PermissionMembership,
            User,
        >(&self.memberships, 1, &self.users, key);
        let out = guarded_delete(&mut self.users, key, held);
        proof {
            if out is Ok {
                lemma_distinct_reject::<User>(old(self).users@, *key);
                lemma_refer_parent_reject::<Agent, User>(self.agents@, 0, old(self).users@, *key);
                lemma_refer_parent_reject::<PermissionMembership, User>(
                    self.memberships@,
                    1,
                    old(self).users@,
                    *key,
                );
            }
        }
        out
    }

    /// Why an insert of the agent is refused, if it is.
    pub open spec fn agent_insert_refusal(&self, new: NewAgent) -> Option<Refusal> {
        insert_refusal(self.agents.last_id, false, !has_id::<User>(self.users@, new.owner))
    }

    /// Why the partial update of an agent is refused, if it is.
    pub open spec fn agent_update_refusal(&self, id: i32, patch: UpdateAgent) -> Option<Refusal> {
        update_refusal(
            has_id::<Agent>(self.agents@, id),
            false,
            (patch.owner matches Some(to) && !has_id::<User>(self.users@, to)),
        )
    }

    /// Why a delete of agents is refused, if it is.
    pub open spec fn agent_delete_refusal(&self, key: IdUuidOrOwner) -> Option<Refusal> {
        delete_refusal(referenced::<Router, Agent>(self.routers@, 0, self.agents@, key))
    }

    /// Adds an agent under the next id. Refused when the ids are used up or the
    /// owner does not exist; then nothing changes.
    pub fn insert_agent(&mut self, new: NewAgent) -> (out: Result<Agent, StoreError>)
        requires
            old(self).wf(),
        ensures
            final(self).wf(),
            match out {
                Ok(row) => {
                    &&& old(self).agent_insert_refusal(new) is None
                    &&& row@ == Agent::created((old(self).agents.last_id + 1) as i32, new)
                    &&& final(self).agents@ == old(self).agents@.push(row@)
                    &&& final(self).agents.last_id == old(self).agents.last_id + 1
                    &&& *final(self) == (Store { agents: final(self).agents, ..*old(self) })
                },
                Err(error) => {
                    &&& old(self).agent_insert_refusal(new) matches Some(refusal)
                        && reports(error, refusal)
                    &&& *final(self) == *old(self)
                },
            },
    {
        let dangling = !self.users.contains_id(new.owner);
        let out = guarded_insert(&mut self.agents, new, false, dangling);
        proof {
            if out is Ok {
                let row = out.unwrap();
                lemma_refer_parent_push::<Router, Agent>(self.routers@, 0, old(self).agents@, row@);
                lemma_refer_child_push::<Agent, User>(old(self).agents@, 0, self.users@, row@);
            }
        }
        out
    }

    /// Applies a partial update to the agent with the given id. Refused when there
    /// is no such agent or the new owner does not exist; then nothing changes.
    pub fn update_agent(&mut self, id: i32, patch: &UpdateAgent) -> (out: Result<Agent, StoreError>)
        requires
            old(self).wf(),
        ensures
            final(self).wf(),
            match out {
                Ok(row) => {
                    &&& old(self).agent_update_refusal(id, *patch) is None
                    &&& find_spec::<Agent>(old(self).agents@, id) matches Some(before) && row@
                        == Agent::patched(before, *patch)
                    &&& final(self).agents@ == update_spec::<Agent>(old(self).agents@, id, *patch)
                    &&& final(self).agents.last_id == old(self).agents.last_id
                    &&& *final(self) == (Store { agents: final(self).agents, ..*old(self) })
                },
                Err(error) => {
                    &&& old(self).agent_update_refusal(id, *patch) matches Some(refusal)
                        && reports(error, refusal)
                    &&& *final(self) == *old(self)
                },
            },
    {
        let dangling = match patch.owner {
            Some(to) => !self.users.contains_id(to),
            None => false,
        };
        let out = guarded_update(&mut self.agents, id, patch, false, dangling);
        proof {
            if out is Ok {
                lemma_refer_parent_update::<Router, Agent>(
                    self.routers@,
                    0,
                    old(self).agents@,
                    id,
                    *patch,
                );
                lemma_refer_child_update::<Agent, User>(
                    old(self).agents@,
                    0,
                    self.users@,
                    id,
                    *patch,
                );
            }
        }
        out
    }

    /// Deletes the agents that the key selects and returns how many they were.
    /// Refused when a router still refers to one of them; then nothing changes.
    pub fn delete_agents(&mut self, key: &IdUuidOrOwner) -> (out: Result<usize, StoreError>)
        requires
            old(self).wf(),
        ensures
            final(self).wf(),
            match out {
                Ok(removed) => {
                    &&& old(self).agent_delete_refusal(*key) is None
                    &&& removed == select_spec::<Agent>(old(self).agents@, *key).len()
                    &&& final(self).agents@ == reject_spec::<Agent>(old(self).agents@, *key)
                    &&& final(self).agents.last_id == old(self).agents.last_id
                    &&& *final(self) == (Store { agents: final(self).agents, ..*old(self) })
                },
                Err(error) => {
                    &&& old(self).agent_delete_refusal(*key) == Some(Refusal::Restricted)
                    &&& reports(error, Refusal::Restricted)
                    &&& *final(self) == *old(self)
                },
            },
    {
        let held = restricted::<Router, Agent>(&self.routers, 0, &self.agents, key);
        let out = guarded_delete(&mut self.agents, key, held);
        proof {
            if out is Ok {
                lemma_refer_parent_reject::<Router, Agent>(
                    self.routers@,
                    0,
                    old(self).agents@,
                    *key,
                );
                lemma_refer_child_reject::<Agent, User>(old(self).agents@, 0, self.users@, *key);
            }
        }
        out
    }

    /// Why an insert of the router is refused, if it is.
    pub open spec fn router_insert_refusal(&self, new: NewRouter) -> Option<Refusal> {
        insert_refusal(self.routers.last_id, false, !has_id::<Agent>(self.agents@, new.agent))
    }

    /// Why the partial update of a router is refused, if it is.
    pub open spec fn router_update_refusal(&self, id: i32, patch: UpdateRouter) -> Option<Refusal> {
        update_refusal(
            has_id::<Router>(self.routers@, id),
            false,
            (patch.agent matches Some(to) && !has_id::<Agent>(self.agents@, to)),
        )
    }

    /// Why a delete of routers is refused, if it is.
    pub open spec fn router_delete_refusal(&self, key: IdOrAgent) -> Option<Refusal> {
        delete_refusal(referenced::<Tunnel, Router>(self.tunnels@, 0, self.routers@, key))
    }

    /// Adds a router under the next id. Refused when the ids are used up or the
    /// agent does not exist; then nothing changes.
    pub fn insert_router(&mut self, new: NewRouter) -> (out: Result<Router, StoreError>)
        requires
            old(self).wf(),
        ensures
            final(self).wf(),
            match out {
                Ok(row) => {
                    &&& old(self).router_insert_refusal(new) is None
                    &&& row@ == Router::created((old(self).routers.last_id + 1) as i32, new)
                    &&& final(self).routers@ == old(self).routers@.push(row@)
                    &&& final(self).routers.last_id == old(self).routers.last_id + 1
                    &&& *final(self) == (Store { routers: final(self).routers, ..*old(self) })
                },
                Err(error) => {
                    &&& old(self).router_insert_refusal(new) matches Some(refusal)
                        && reports(error, refusal)
                    &&& *final(self) == *old(self)
                },
            },
    {
        let dangling = !self.agents.contains_id(new.agent);
        let out = guarded_insert(&mut self.routers, new, false, dangling);
        proof {
            if out is Ok {
                let row = out.unwrap();
                lemma_refer_parent_push::<Tunnel, Router>(
                    self.tunnels@,
                    0,
                    old(self).routers@,
                    row@,
                );
                lemma_refer_child_push::<Router, Agent>(old(self).routers@, 0, self.agents@, row@);
            }
        }
        out
    }

    /// Applies a partial update to the router with the given id. Refused when there
    /// is no such router or the new agent does not exist; then nothing changes.
    pub fn update_router(&mut self, id: i32, patch: &UpdateRouter) -> (out: Result<
        Router,
        StoreError,
    >)
        requires
            old(self).wf(),
        ensures
            final(self).wf(),
            match out {
                Ok(row) => {
                    &&& old(self).router_update_refusal(id, *patch) is None
                    &&& find_spec::<Router>(old(self).routers@, id) matches Some(before) && row@
                        == Router::patched(before, *patch)
                    &&& final(self).routers@ == update_spec::<Router>(
                        old(self).routers@,
                        id,
                        *patch,
                    )
                    &&& final(self).routers.last_id == old(self).routers.last_id
                    &&& *final(self) == (Store { routers: final(self).routers, ..*old(self) })
                },
                Err(error) => {
                    &&& old(self).router_update_refusal(id, *patch) matches Some(refusal)
                        && reports(error, refusal)
                    &&& *final(self) == *old(self)
                },
            },
    {
        let dangling = match patch.agent {
            Some(to) => !self.agents.contains_id(to),
            None => false,
        };
        let out = guarded_update(&mut self.routers, id, patch, false, dangling);
        proof {
            if out is Ok {
                lemma_refer_parent_update::<Tunnel, Router>(
                    self.tunnels@,
                    0,
                    old(self).routers@,
                    id,
                    *patch,
                );
                lemma_refer_child_update::<Router, Agent>(
                    old(self).routers@,
                    0,
                    self.agents@,
                    id,
                    *patch,
                );
            }
        }
        out
    }

    /// Deletes the routers that the key selects and returns how many they were.
    /// Refused when a tunnel still refers to one of them; then nothing changes.
    pub fn delete_routers(&mut self, key: &IdOrAgent) -> (out: Result<usize, StoreError>)
        requires
            old(self).wf(),
        ensures
            final(self).wf(),
            match out {
                Ok(removed) => {
                    &&& old(self).router_delete_refusal(*key) is None
                    &&& removed == select_spec::<Router>(old(self).routers@, *key).len()
                    &&& final(self).routers@ == reject_spec::<Router>(old(self).routers@, *key)
                    &&& final(self).routers.last_id == old(self).routers.last_id
                    &&& *final(self) == (Store { routers: final(self).routers, ..*old(self) })
                },
                Err(error) => {
                    &&& old(self).router_delete_refusal(*key) == Some(Refusal::Restricted)
                    &&& reports(error, Refusal::Restricted)
                    &&& *final(self) == *old(self)
                },
            },
    {
        let held = restricted::<Tunnel, Router>(&self.tunnels, 0, &self.routers, key);
        let out = guarded_delete(&mut self.routers, key, held);
        proof {
            if out is Ok {
                lemma_refer_parent_reject::<Tunnel, Router>(
                    self.tunnels@,
                    0,
                    old(self).routers@,
                    *key,
                );
                lemma_refer_child_reject::<Router, Agent>(
                    old(self).routers@,
                    0,
                    self.agents@,
                    *key,
                );
            }
        }
        out
    }

    /// Why an insert of the tunnel is refused, if it is.
    pub open spec fn tunnel_insert_refusal(&self, new: NewTunnel) -> Option<Refusal> {
        insert_refusal(self.tunnels.last_id, false, !has_id::<Router>(self.routers@, new.router))
    }

    /// Why the partial update of a tunnel is refused, if it is.
    pub open spec fn tunnel_update_refusal(&self, id: i32, patch: UpdateTunnel) -> Option<Refusal> {
        update_refusal(
            has_id::<Tunnel>(self.tunnels@, id),
            false,
            (patch.router matches Some(to) && !has_id::<Router>(self.routers@, to)),
        )
    }

    /// Why a delete of tunnels is refused, if it is.
    pub open spec fn tunnel_delete_refusal(&self, key: IdOrRouter) -> Option<Refusal> {
        delete_refusal(false)
    }

    /// Adds a tunnel under the next id. Refused when the ids are used up or the
    /// router does not exist; then nothing changes.
    pub fn insert_tunnel(&mut self, new: NewTunnel) -> (out: Result<Tunnel, StoreError>)
        requires
            old(self).wf(),
        ensures
            final(self).wf(),
            match out {
                Ok(row) => {
                    &&& old(self).tunnel_insert_refusal(new) is None
                    &&& row@ == Tunnel::created((old(self).tunnels.last_id + 1) as i32, new)
                    &&& final(self).tunnels@ == old(self).tunnels@.push(row@)
                    &&& final(self).tunnels.last_id == old(self).tunnels.last_id + 1
                    &&& *final(self) == (Store { tunnels: final(self).tunnels, ..*old(self) })
                },
                Err(error) => {
                    &&& old(self).tunnel_insert_refusal(new) matches Some(refusal)
                        && reports(error, refusal)
                    &&& *final(self) == *old(self)
                },
            },
    {
        let dangling = !self.routers.contains_id(new.router);
        let out = guarded_insert(&mut self.tunnels, new, false, dangling);
        proof {
            if out is Ok {
                let row = out.unwrap();
                lemma_refer_child_push::<Tunnel, Router>(
                    old(self).tunnels@,
                    0,
                    self.routers@,
                    row@,
                );
            }
        }
        out
    }

    /// Applies a partial update to the tunnel with the given id. Refused when there
    /// is no such tunnel or the new router does not exist; then nothing changes.
    pub fn update_tunnel(&mut self, id: i32, patch: &UpdateTunnel) -> (out: Result<
        Tunnel,
        StoreError,
    >)
        requires
            old(self).wf(),
        ensures
            final(self).wf(),
            match out {
                Ok(row) => {
                    &&& old(self).tunnel_update_refusal(id, *patch) is None
                    &&& find_spec::<Tunnel>(old(self).tunnels@, id) matches Some(before) && row@
                        == Tunnel::patched(before, *patch)
                    &&& final(self).tunnels@ == update_spec::<Tunnel>(
                        old(self).tunnels@,
                        id,
                        *patch,
                    )
                    &&& final(self).tunnels.last_id == old(self).tunnels.last_id
                    &&& *final(self) == (Store { tunnels: final(self).tunnels, ..*old(self) })
                },
                Err(error) => {
                    &&& old(self).tunnel_update_refusal(id, *patch) matches Some(refusal)
                        && reports(error, refusal)
                    &&& *final(self) == *old(self)
                },
            },
    {
        let dangling = match patch.router {
            Some(to) => !self.routers.contains_id(to),
            None => false,
        };
        let out = guarded_update(&mut self.tunnels, id, patch, false, dangling);
        proof {
            if out is Ok {
                lemma_refer_child_update::<Tunnel, Router>(
                    old(self).tunnels@,
                    0,
                    self.routers@,
                    id,
                    *patch,
                );
            }
        }
        out
    }

    /// Deletes the tunnels that the key selects and returns how many they were.
    /// Never refused: nothing refers to them.
    pub fn delete_tunnels(&mut self, key: &IdOrRouter) -> (out: Result<usize, StoreError>)
        requires
            old(self).wf(),
        ensures
            final(self).wf(),
            match out {
                Ok(removed) => {
                    &&& old(self).tunnel_delete_refusal(*key) is None
                    &&& removed == select_spec::<Tunnel>(old(self).tunnels@, *key).len()
                    &&& final(self).tunnels@ == reject_spec::<Tunnel>(old(self).tunnels@, *key)
                    &&& final(self).tunnels.last_id == old(self).tunnels.last_id
                    &&& *final(self) == (Store { tunnels: final(self).tunnels, ..*old(self) })
                },
                Err(_) => false,
            },
    {
        let out = guarded_delete(&mut self.tunnels, key, false);
        proof {
            if out is Ok {
                lemma_refer_child_reject::<Tunnel, Router>(
                    old(self).tunnels@,
                    0,
                    self.routers@,
                    *key,
                );
            }
        }
        out
    }

    /// Why an insert of the permission is refused, if it is.
    pub open spec fn permission_insert_refusal(&self, new: NewPermission) -> Option<Refusal> {
        insert_refusal(
            self.permissions.last_id,
            holds::<Permission>(self.permissions@, new.name@),
            false,
        )
    }

    /// Why the partial update of a permission is refused, if it is.
    pub open spec fn permission_update_refusal(
        &self,
        id: i32,
        patch: UpdatePermission,
    ) -> Option<Refusal> {
        update_refusal(
            has_id::<Permission>(self.permissions@, id),
            patch.name matches Some(text) && held_by_other::<Permission>(
                self.permissions@,
                text@,
                id,
            ),
            false,
        )
    }

    /// Why a delete of permissions is refused, if it is.
    pub open spec fn permission_delete_refusal(&self, key: IdOrName) -> Option<Refusal> {
        delete_refusal(
            referenced::<PermissionMembership, Permission>(
                self.memberships@,
                0,
                self.permissions@,
                key,
            ),
        )
    }

    /// Adds a permission under the next id. Refused when the ids are used up or
    /// another permission has the name; then nothing changes.
    pub fn insert_permission(&mut self, new: NewPermission) -> (out: Result<Permission, StoreError>)
        requires
            old(self).wf(),
        ensures
            final(self).wf(),
            match out {
                Ok(row) => {
                    &&& old(self).permission_insert_refusal(new) is None
                    &&& row@ == Permission::created((old(self).permissions.last_id + 1) as i32, new)
                    &&& final(self).permissions@ == old(self).permissions@.push(row@)
                    &&& final(self).permissions.last_id == old(self).permissions.last_id + 1
                    &&& *final(self) == (Store {
                        permissions: final(self).permissions,
                        ..*old(self)
                    })
                },
                Err(error) => {
                    &&& old(self).permission_insert_refusal(new) matches Some(refusal)
                        && reports(error, refusal)
                    &&& *final(self) == *old(self)
                },
            },
    {
        let duplicate = self.permissions.holds(&new.name);
        let out = guarded_insert(&mut self.permissions, new, duplicate, false);
        proof {
            if out is Ok {
                let row = out.unwrap();
                lemma_distinct_push::<Permission>(old(self).permissions@, row@);
                lemma_refer_parent_push::<PermissionMembership, Permission>(
                    self.memberships@,
                    0,
                    old(self).permissions@,
                    row@,
                );
            }
        }
        out
    }

    /// Applies a partial update to the permission with the given id. Refused when
    /// there is no such permission or another permission has the new name; then
    /// nothing changes.
    pub fn update_permission(&mut self, id: i32, patch: &UpdatePermission) -> (out: Result<
        Permission,
        StoreError,
    >)
        requires
            old(self).wf(),
        ensures
            final(self).wf(),
            match out {
                Ok(row) => {
                    &&& old(self).permission_update_refusal(id, *patch) is None
                    &&& find_spec::<Permission>(old(self).permissions@, id) matches Some(before)
                        && row@
                        == Permission::patched(before, *patch)
                    &&& final(self).permissions@ == update_spec::<Permission>(
                        old(self).permissions@,
                        id,
                        *patch,
                    )
                    &&& final(self).permissions.last_id == old(self).permissions.last_id
                    &&& *final(self) == (Store {
                        permissions: final(self).permissions,
                        ..*old(self)
                    })
                },
                Err(error) => {
                    &&& old(self).permission_update_refusal(id, *patch) matches Some(refusal)
                        && reports(error, refusal)
                    &&& *final(self) == *old(self)
                },
            },
    {
        let duplicate = match &patch.name {
            Some(text) => self.permissions.other_holds(text, id),
            None => false,
        };
        let out = guarded_update(&mut self.permissions, id, patch, duplicate, false);
        proof {
            if out is Ok {
                lemma_distinct_update::<Permission>(old(self).permissions@, id, *patch);
                lemma_refer_parent_update::<PermissionMembership, Permission>(
                    self.memberships@,
                    0,
                    old(self).permissions@,
                    id,
                    *patch,
                );
            }
        }
        out
    }

    /// Deletes the permissions that the key selects and returns how many they were.
    /// Refused when a permission membership still refers to one of them; then
    /// nothing changes.
    pub fn delete_permissions(&mut self, key: &IdOrName) -> (out: Result<usize, StoreError>)
        requires
            old(self).wf(),
        ensures
            final(self).wf(),
            match out {
                Ok(removed) => {
                    &&& old(self).permission_delete_refusal(*key) is None
                    &&& removed == select_spec::<Permission>(old(self).permissions@, *key).len()
                    &&& final(self).permissions@ == reject_spec::<Permission>(
                        old(self).permissions@,
                        *key,
                    )
                    &&& final(self).permissions.last_id == old(self).permissions.last_id
                    &&& *final(self) == (Store {
                        permissions: final(self).permissions,
                        ..*old(self)
                    })
                },
                Err(error) => {
                    &&& old(self).permission_delete_refusal(*key) == Some(Refusal::Restricted)
                    &&& reports(error, Refusal::Restricted)
                    &&& *final(self) == *old(self)
                },
            },
    {
        let held = restricted::<PermissionMembership, Permission>(
            &self.memberships,
            0,
            &self.permissions,
            key,
        );
        let out = guarded_delete(&mut self.permissions, key, held);
        proof {
            if out is Ok {
                lemma_distinct_reject::<Permission>(old(self).permissions@, *key);
                lemma_refer_parent_reject::<PermissionMembership, Permission>(
                    self.memberships@,
                    0,
                    old(self).permissions@,
                    *key,
                );
            }
        }
        out
    }

    /// Why an insert of the permission membership is refused, if it is.
    pub open spec fn membership_insert_refusal(
        &self,
        new: NewPermissionMembership,
    ) -> Option<Refusal> {
        insert_refusal(
            self.memberships.last_id,
            false,
            !has_id::<Permission>(self.permissions@, new.permission) || !has_id::<User>(
                self.users@,
                new.user_id,
            ),
        )
    }

    /// Why the partial update of a permission membership is refused, if it is.
    pub open spec fn membership_update_refusal(
        &self,
        id: i32,
        patch: UpdatePermissionMembership,
    ) -> Option<Refusal> {
        update_refusal(
            has_id::<PermissionMembership>(self.memberships@, id),
            false,
            (patch.permission matches Some(to) && !has_id::<Permission>(self.permissions@, to))
                || (patch.user_id matches Some(to) && !has_id::<User>(self.users@, to)),
        )
    }

    /// Why a delete of permission memberships is refused, if it is.
    pub open spec fn membership_delete_refusal(
        &self,
        key: IdPermissionOrUserid,
    ) -> Option<Refusal> {
        delete_refusal(false)
    }

    /// Adds a permission membership under the next id. Refused when the ids are
    /// used up, the permission does not exist or the user does not exist; then
    /// nothing changes.
    pub fn insert_membership(&mut self, new: NewPermissionMembership) -> (out: Result<
        PermissionMembership,
        StoreError,
    >)
        requires
            old(self).wf(),
        ensures
            final(self).wf(),
            match out {
                Ok(row) => {
                    &&& old(self).membership_insert_refusal(new) is None
                    &&& row@ == PermissionMembership::created(
                        (old(self).memberships.last_id + 1) as i32,
                        new,
                    )
                    &&& final(self).memberships@ == old(self).memberships@.push(row@)
                    &&& final(self).memberships.last_id == old(self).memberships.last_id + 1
                    &&& *final(self) == (Store {
                        memberships: final(self).memberships,
                        ..*old(self)
                    })
                },
                Err(error) => {
                    &&& old(self).membership_insert_refusal(new) matches Some(refusal)
                        && reports(error, refusal)
                    &&& *final(self) == *old(self)
                },
            },
    {
        let dangling = !self.permissions.contains_id(new.permission) || !self.users.contains_id(
            new.user_id,
        );
        let out = guarded_insert(&mut self.memberships, new, false, dangling);
        proof {
            if out is Ok {
                let row = out.unwrap();
                lemma_refer_child_push::<PermissionMembership, Permission>(
                    old(self).memberships@,
                    0,
                    self.permissions@,
                    row@,
                );
                lemma_refer_child_push::<PermissionMembership, User>(
                    old(self).memberships@,
                    1,
                    self.users@,
                    row@,
                );
            }
        }
        out
    }

    /// Applies a partial update to the permission membership with the given id.
    /// Refused when there is no such permission membership, the new permission does
    /// not exist or the new user does not exist; then nothing changes.
    pub fn update_membership(&mut self, id: i32, patch: &UpdatePermissionMembership) -> (out: Result<
        PermissionMembership,
        StoreError,
    >)
        requires
            old(self).wf(),
        ensures
            final(self).wf(),
            match out {
                Ok(row) => {
                    &&& old(self).membership_update_refusal(id, *patch) is None
                    &&& find_spec::<PermissionMembership>(old(self).memberships@, id) matches Some(before)
                        && row@
                        == PermissionMembership::patched(before, *patch)
                    &&& final(self).memberships@ == update_spec::<PermissionMembership>(
                        old(self).memberships@,
                        id,
                        *patch,
                    )
                    &&& final(self).memberships.last_id == old(self).memberships.last_id
                    &&& *final(self) == (Store {
                        memberships: final(self).memberships,
                        ..*old(self)
                    })
                },
                Err(error) => {
                    &&& old(self).membership_update_refusal(id, *patch) matches Some(refusal)
                        && reports(error, refusal)
                    &&& *final(self) == *old(self)
                },
            },
    {
        let no_permission = match patch.permission {
            Some(to) => !self.permissions.contains_id(to),
            None => false,
        };
        let no_user_id = match patch.user_id {
            Some(to) => !self.users.contains_id(to),
            None => false,
        };
        let dangling = no_permission || no_user_id;
        let out = guarded_update(&mut self.memberships, id, patch, false, dangling);
        proof {
            if out is Ok {
                lemma_refer_child_update::<PermissionMembership, Permission>(
                    old(self).memberships@,
                    0,
                    self.permissions@,
                    id,
                    *patch,
                );
                lemma_refer_child_update::<PermissionMembership, User>(
                    old(self).memberships@,
                    1,
                    self.users@,
                    id,
                    *patch,
                );
            }
        }
        out
    }

    /// Deletes the permission memberships that the key selects and returns how many
    /// they were. Never refused: nothing refers to them.
    pub fn delete_memberships(&mut self, key: &IdPermissionOrUserid) -> (out: Result<
        usize,
        StoreError,
    >)
        requires
            old(self).wf(),
        ensures
            final(self).wf(),
            match out {
                Ok(removed) => {
                    &&& old(self).membership_delete_refusal(*key) is None
                    &&& removed == select_spec::<PermissionMembership>(old(self).memberships@, *key).len()
                    &&& final(self).memberships@ == reject_spec::<PermissionMembership>(
                        old(self).memberships@,
                        *key,
                    )
                    &&& final(self).memberships.last_id == old(self).memberships.last_id
                    &&& *final(self) == (Store {
                        memberships: final(self).memberships,
                        ..*old(self)
                    })
                },
                Err(_) => false,
            },
    {
        let out = guarded_delete(&mut self.memberships, key, false);
        proof {
            if out is Ok {
                lemma_refer_child_reject::<PermissionMembership, Permission>(
                    old(self).memberships@,
                    0,
                    self.permissions@,
                    *key,
                );
                lemma_refer_child_reject::<PermissionMembership, User>(
                    old(self).memberships@,
                    1,
                    self.users@,
                    *key,
                );
            }
        }
        out
    }
}

/// An entity of the store: a kind of row together with its table and the rules
/// that the store holds it to.
pub trait Entity: Record {
    /// The entity's table.
    spec fn table_of(store: Store) -> Table<Self>;

    /// Whether the two stores agree on every table but the entity's.
    spec fn others_same(before: Store, after: Store) -> bool;

    /// Why an insert is refused, if it is.
    spec fn insert_refusal(store: Store, new: Self::New) -> Option<Refusal>;

    /// Why a partial update is refused, if it is.
    spec fn update_refusal(store: Store, id: i32, patch: Self::Patch) -> Option<Refusal>;

    /// Why a delete is refused, if it is.
    spec fn delete_refusal(store: Store, key: Self::Key) -> Option<Refusal>;

    /// The key that names a row by its id.
    spec fn by_id(id: i32) -> Self::Key;

    /// Whether a partial update names no field at all.
    spec fn names_nothing(patch: Self::Patch) -> bool;

    /// The words in which an update that names no field is rejected.
    spec fn no_change_text() -> Seq<char>;

    /// The key by id selects exactly the rows with that id.
    proof fn by_id_selects(id: i32, row: Self::V)
        ensures
            Self::selects(Self::by_id(id), row) == (Self::id_of(row) == id),
    ;

    /// In a store that is in order, so is the entity's table.
    proof fn table_in_order(store: Store)
        requires
            store.wf(),
        ensures
            Self::table_of(store).wf(),
    ;

    /// An insert is never refused for a missing row or for a reference to the new
    /// row, and a row whose unique text is taken is always refused.
    proof fn insert_rules(store: Store, new: Self::New)
        ensures
            Self::insert_refusal(store, new) != Some(Refusal::Missing),
            Self::insert_refusal(store, new) != Some(Refusal::Restricted),
            Self::table_of(store).last_id == i32::MAX ==> Self::insert_refusal(store, new) == Some(
                Refusal::Exhausted,
            ),
            Self::unique_of(Self::created(0, new)) matches Some(text) && holds::<Self>(
                Self::table_of(store)@,
                text,
            ) ==> Self::insert_refusal(store, new) is Some,
    ;

    /// An update of a row that does not exist is refused as missing, and no update
    /// is refused for used-up ids or for a reference to the row.
    proof fn update_rules(store: Store, id: i32, patch: Self::Patch)
        ensures
            Self::update_refusal(store, id, patch) == Some(Refusal::Missing) <==> !has_id::<Self>(
                Self::table_of(store)@,
                id,
            ),
            Self::update_refusal(store, id, patch) != Some(Refusal::Exhausted),
            Self::update_refusal(store, id, patch) != Some(Refusal::Restricted),
    ;

    /// A delete is refused only because a row still refers to what would go.
    proof fn delete_rules(store: Store, key: Self::Key)
        ensures
            Self::delete_refusal(store, key) is None || Self::delete_refusal(store, key) == Some(
                Refusal::Restricted,
            ),
    ;

    /// A partial update that names no field leaves the row as it is.
    proof fn nothing_named(row: Self::V, patch: Self::Patch)
        requires
            Self::names_nothing(patch),
        ensures
            Self::patched(row, patch) == row,
    ;

    /// The unique text of a new row does not depend on the id it gets.
    proof fn unique_ignores_id(one: i32, other: i32, new: Self::New)
        ensures
            Self::unique_of(Self::created(one, new)) == Self::unique_of(Self::created(other, new)),
    ;
}

impl Entity for User {
    open spec fn table_of(store: Store) -> Table<User> {
        store.users
    }

    open spec fn others_same(before: Store, after: Store) -> bool {
        after == (Store { users: after.users, ..before })
    }

    open spec fn insert_refusal(store: Store, new: NewUser) -> Option<Refusal> {
        store.user_insert_refusal(new)
    }

    open spec fn update_refusal(store: Store, id: i32, patch: UpdateUser) -> Option<Refusal> {
        store.user_update_refusal(id, patch)
    }

    open spec fn delete_refusal(store: Store, key: IdOrEmail) -> Option<Refusal> {
        store.user_delete_refusal(key)
    }

    open spec fn by_id(id: i32) -> IdOrEmail {
        IdOrEmail::Id(id)
    }

    open spec fn names_nothing(patch: UpdateUser) -> bool {
        patch.is_empty_spec()
    }

    open spec fn no_change_text() -> Seq<char> {
        "nothing to update"@
    }

    proof fn by_id_selects(id: i32, row: <User as View>::V) {
    }

    proof fn table_in_order(store: Store) {
    }

    proof fn insert_rules(store: Store, new: NewUser) {
    }

    proof fn update_rules(store: Store, id: i32, patch: UpdateUser) {
    }

    proof fn delete_rules(store: Store, key: IdOrEmail) {
    }

    proof fn nothing_named(row: <User as View>::V, patch: UpdateUser) {
    }

    proof fn unique_ignores_id(one: i32, other: i32, new: NewUser) {
    }
}

impl Entity for Agent {
    open spec fn table_of(store: Store) -> Table<Agent> {
        store.agents
    }

    open spec fn others_same(before: Store, after: Store) -> bool {
        after == (Store { agents: after.agents, ..before })
    }

    open spec fn insert_refusal(store: Store, new: NewAgent) -> Option<Refusal> {
        store.agent_insert_refusal(new)
    }

    open spec fn update_refusal(store: Store, id: i32, patch: UpdateAgent) -> Option<Refusal> {
        store.agent_update_refusal(id, patch)
    }

    open spec fn delete_refusal(store: Store, key: IdUuidOrOwner) -> Option<Refusal> {
        store.agent_delete_refusal(key)
    }

    open spec fn by_id(id: i32) -> IdUuidOrOwner {
        IdUuidOrOwner::Id(id)
    }

    open spec fn names_nothing(patch: UpdateAgent) -> bool {
        patch.is_empty_spec()
    }

    open spec fn no_change_text() -> Seq<char> {
        "nothing to update"@
    }

    proof fn by_id_selects(id: i32, row: <Agent as View>::V) {
    }

    proof fn table_in_order(store: Store) {
    }

    proof fn insert_rules(store: Store, new: NewAgent) {
    }

    proof fn update_rules(store: Store, id: i32, patch: UpdateAgent) {
    }

    proof fn delete_rules(store: Store, key: IdUuidOrOwner) {
    }

    proof fn nothing_named(row: <Agent as View>::V, patch: UpdateAgent) {
    }

    proof fn unique_ignores_id(one: i32, other: i32, new: NewAgent) {
    }
}

impl Entity for Router {
    open spec fn table_of(store: Store) -> Table<Router> {
        store.routers
    }

    open spec fn others_same(before: Store, after: Store) -> bool {
        after == (Store { routers: after.routers, ..before })
    }

    open spec fn insert_refusal(store: Store, new: NewRouter) -> Option<Refusal> {
        store.router_insert_refusal(new)
    }

    open spec fn update_refusal(store: Store, id: i32, patch: UpdateRouter) -> Option<Refusal> {
        store.router_update_refusal(id, patch)
    }

    open spec fn delete_refusal(store: Store, key: IdOrAgent) -> Option<Refusal> {
        store.router_delete_refusal(key)
    }

    open spec fn by_id(id: i32) -> IdOrAgent {
        IdOrAgent::Id(id)
    }

    open spec fn names_nothing(patch: UpdateRouter) -> bool {
        patch.is_empty_spec()
    }

    open spec fn no_change_text() -> Seq<char> {
        "nothing to update"@
    }

    proof fn by_id_selects(id: i32, row: <Router as View>::V) {
    }

    proof fn table_in_order(store: Store) {
    }

    proof fn insert_rules(store: Store, new: NewRouter) {
    }

    proof fn update_rules(store: Store, id: i32, patch: UpdateRouter) {
    }

    proof fn delete_rules(store: Store, key: IdOrAgent) {
    }

    proof fn nothing_named(row: <Router as View>::V, patch: UpdateRouter) {
    }

    proof fn unique_ignores_id(one: i32, other: i32, new: NewRouter) {
    }
}

impl Entity for Tunnel {
    open spec fn table_of(store: Store) -> Table<Tunnel> {
        store.tunnels
    }

    open spec fn others_same(before: Store, after: Store) -> bool {
        after == (Store { tunnels: after.tunnels, ..before })
    }

    open spec fn insert_refusal(store: Store, new: NewTunnel) -> Option<Refusal> {
        store.tunnel_insert_refusal(new)
    }

    open spec fn update_refusal(store: Store, id: i32, patch: UpdateTunnel) -> Option<Refusal> {
        store.tunnel_update_refusal(id, patch)
    }

    open spec fn delete_refusal(store: Store, key: IdOrRouter) -> Option<Refusal> {
        store.tunnel_delete_refusal(key)
    }

    open spec fn by_id(id: i32) -> IdOrRouter {
        IdOrRouter::Id(id)
    }

    open spec fn names_nothing(patch: UpdateTunnel) -> bool {
        patch.is_empty_spec()
    }

    open spec fn no_change_text() -> Seq<char> {
        "nothing to update"@
    }

    proof fn by_id_selects(id: i32, row: <Tunnel as View>::V) {
    }

    proof fn table_in_order(store: Store) {
    }

    proof fn insert_rules(store: Store, new: NewTunnel) {
    }

    proof fn update_rules(store: Store, id: i32, patch: UpdateTunnel) {
    }

    proof fn delete_rules(store: Store, key: IdOrRouter) {
    }

    proof fn nothing_named(row: <Tunnel as View>::V, patch: UpdateTunnel) {
    }

    proof fn unique_ignores_id(one: i32, other: i32, new: NewTunnel) {
    }
}

impl Entity for Permission {
    open spec fn table_of(store: Store) -> Table<Permission> {
        store.permissions
    }

    open spec fn others_same(before: Store, after: Store) -> bool {
        after == (Store { permissions: after.permissions, ..before })
    }

    open spec fn insert_refusal(store: Store, new: NewPermission) -> Option<Refusal> {
        store.permission_insert_refusal(new)
    }

    open spec fn update_refusal(store: Store, id: i32, patch: UpdatePermission) -> Option<Refusal> {
        store.permission_update_refusal(id, patch)
    }

    open spec fn delete_refusal(store: Store, key: IdOrName) -> Option<Refusal> {
        store.permission_delete_refusal(key)
    }

    open spec fn by_id(id: i32) -> IdOrName {
        IdOrName::Id(id)
    }

    open spec fn names_nothing(patch: UpdatePermission) -> bool {
        patch.is_empty_spec()
    }

    open spec fn no_change_text() -> Seq<char> {
        "name and/or description required"@
    }

    proof fn by_id_selects(id: i32, row: <Permission as View>::V) {
    }

    proof fn table_in_order(store: Store) {
    }

    proof fn insert_rules(store: Store, new: NewPermission) {
    }

    proof fn update_rules(store: Store, id: i32, patch: UpdatePermission) {
    }

    proof fn delete_rules(store: Store, key: IdOrName) {
    }

    proof fn nothing_named(row: <Permission as View>::V, patch: UpdatePermission) {
    }

    proof fn unique_ignores_id(one: i32, other: i32, new: NewPermission) {
    }
}

impl Entity for PermissionMembership {
    open spec fn table_of(store: Store) -> Table<PermissionMembership> {
        store.memberships
    }

    open spec fn others_same(before: Store, after: Store) -> bool {
        after == (Store { memberships: after.memberships, ..before })
    }

    open spec fn insert_refusal(store: Store, new: NewPermissionMembership) -> Option<Refusal> {
        store.membership_insert_refusal(new)
    }

    open spec fn update_refusal(
        store: Store,
        id: i32,
        patch: UpdatePermissionMembership,
    ) -> Option<Refusal> {
        store.membership_update_refusal(id, patch)
    }

    open spec fn delete_refusal(store: Store, key: IdPermissionOrUserid) -> Option<Refusal> {
        store.membership_delete_refusal(key)
    }

    open spec fn by_id(id: i32) -> IdPermissionOrUserid {
        IdPermissionOrUserid::Id(id)
    }

    open spec fn names_nothing(patch: UpdatePermissionMembership) -> bool {
        patch.is_empty_spec()
    }

    open spec fn no_change_text() -> Seq<char> {
        "nothing to update"@
    }

    proof fn by_id_selects(id: i32, row: <PermissionMembership as View>::V) {
    }

    proof fn table_in_order(store: Store) {
    }

    proof fn insert_rules(store: Store, new: NewPermissionMembership) {
    }

    proof fn update_rules(store: Store, id: i32, patch: UpdatePermissionMembership) {
    }

    proof fn delete_rules(store: Store, key: IdPermissionOrUserid) {
    }

    proof fn nothing_named(
        row: <PermissionMembership as View>::V,
        patch: UpdatePermissionMembership,
    ) {
    }

    proof fn unique_ignores_id(one: i32, other: i32, new: NewPermissionMembership) {
    }
}

} // verus!
