//! What holds of every entity, whatever the store holds: the laws that tie
//! the five operations together.

use vstd::prelude::*;
use crate::api::{
    AgentData, PermissionData, PermissionMembershipData, RouterUpdateRequest,
    TunnelUpdateRequest, UserAddRequest, UserResponse, UserUpdateRequest,
};
use crate::constraints::{holds, lemma_reject_from};
use crate::error::{Code, Status};
use crate::handlers::permissions::new_permission;
use crate::response::{added, got_listed, got_one, listed, removed, updated, Shows};
use crate::storage::agents::{agent_patch, Agent, AgentView, UpdateAgent};
use crate::storage::permission_membership::{
    membership_patch, PermissionMembership, UpdatePermissionMembership,
};
use crate::storage::permissions::{
    permission_patch, Permission, PermissionView, UpdatePermission,
};
use crate::storage::routers::{router_patch, Router, RouterView, UpdateRouter};
use crate::storage::tunnels::{tunnel_patch, Tunnel, TunnelView, UpdateTunnel};
use crate::storage::users::{new_user, user_patch, UpdateUser, User, UserView};
use crate::store::{Entity, Store};
use crate::mapping::Mapped;
use crate::statement::{columns_in, update_text, Statement};
use crate::table::{has_id, lemma_select_push, reject_spec, select_spec, Record};

verus! {

/// A key that selects no row gives an empty selection.
pub proof fn lemma_select_none<R: Record>(rows: Seq<R::V>, key: R::Key)
    requires
        forall|i: int| 0 <= i < rows.len() ==> !R::selects(key, #[trigger] rows[i]),
    ensures
        select_spec::<R>(rows, key) == Seq::<R::V>::empty(),
    decreases rows.len(),
{
    reveal(Seq::filter);
    if rows.len() > 0 {
        let front = rows.drop_last();
        assert forall|i: int| 0 <= i < front.len() implies
            !R::selects(key, #[trigger] front[i]) by {
            assert(front[i] == rows[i]);
        }
        lemma_select_none::<R>(front, key);
        assert(!R::selects(key, rows[rows.len() - 1]));
    }
}

/// Every id in the store is positive: the store gives ids out from one upwards.
pub proof fn ids_are_positive<E: Entity>(store: Store, i: int)
    requires
        store.wf(),
        0 <= i < E::table_of(store)@.len(),
    ensures
        E::id_of(E::table_of(store)@[i]) > 0,
{
    E::table_in_order(store);
}

/// A table lists its rows in ascending order of id, and no two rows share an id.
pub proof fn rows_are_in_id_order<E: Entity>(store: Store, i: int, j: int)
    requires
        store.wf(),
        0 <= i < j < E::table_of(store)@.len(),
    ensures
        E::id_of(E::table_of(store)@[i]) < E::id_of(E::table_of(store)@[j]),
{
    E::table_in_order(store);
}

/// No two users share an email.
pub proof fn emails_are_unique(store: Store, i: int, j: int)
    requires
        store.wf(),
        0 <= i < store.users@.len(),
        0 <= j < store.users@.len(),
        i != j,
    ensures
        store.users@[i].email != store.users@[j].email,
{
    if i < j {
        assert(User::unique_of(store.users@[i]) != User::unique_of(store.users@[j]));
    } else {
        assert(User::unique_of(store.users@[j]) != User::unique_of(store.users@[i]));
    }
}

/// No two permissions share a name.
pub proof fn permission_names_are_unique(store: Store, i: int, j: int)
    requires
        store.wf(),
        0 <= i < store.permissions@.len(),
        0 <= j < store.permissions@.len(),
        i != j,
    ensures
        store.permissions@[i].name != store.permissions@[j].name,
{
    if i < j {
        assert(Permission::unique_of(store.permissions@[i]) != Permission::unique_of(
            store.permissions@[j],
        ));
    } else {
        assert(Permission::unique_of(store.permissions@[j]) != Permission::unique_of(
            store.permissions@[i],
        ));
    }
}

/// Every reference leads to a row that exists: an agent's owner is a user,
/// a router's agent is an agent, a tunnel's router is a router, and a
/// permission membership joins a permission and a user.
pub proof fn references_lead_to_rows(store: Store)
    requires
        store.wf(),
    ensures
        forall|i: int|
            0 <= i < store.agents@.len() ==> has_id::<User>(
                store.users@,
                (#[trigger] store.agents@[i]).owner,
            ),
        forall|i: int|
            0 <= i < store.routers@.len() ==> has_id::<Agent>(
                store.agents@,
                (#[trigger] store.routers@[i]).agent,
            ),
        forall|i: int|
            0 <= i < store.tunnels@.len() ==> has_id::<Router>(
                store.routers@,
                (#[trigger] store.tunnels@[i]).router,
            ),
        forall|i: int|
            0 <= i < store.memberships@.len() ==> has_id::<Permission>(
                store.permissions@,
                (#[trigger] store.memberships@[i]).permission,
            ),
        forall|i: int|
            0 <= i < store.memberships@.len() ==> has_id::<User>(
                store.users@,
                (#[trigger] store.memberships@[i]).user_id,
            ),
{
    assert forall|i: int| 0 <= i < store.agents@.len() implies has_id::<User>(
        store.users@,
        (#[trigger] store.agents@[i]).owner,
    ) by {
        assert(Agent::link_of(store.agents@[i], 0) == store.agents@[i].owner);
    }
    assert forall|i: int| 0 <= i < store.routers@.len() implies has_id::<Agent>(
        store.agents@,
        (#[trigger] store.routers@[i]).agent,
    ) by {
        assert(Router::link_of(store.routers@[i], 0) == store.routers@[i].agent);
    }
    assert forall|i: int| 0 <= i < store.tunnels@.len() implies has_id::<Router>(
        store.routers@,
        (#[trigger] store.tunnels@[i]).router,
    ) by {
        assert(Tunnel::link_of(store.tunnels@[i], 0) == store.tunnels@[i].router);
    }
    assert forall|i: int| 0 <= i < store.memberships@.len() implies has_id::<Permission>(
        store.permissions@,
        (#[trigger] store.memberships@[i]).permission,
    ) by {
        assert(PermissionMembership::link_of(store.memberships@[i], 0)
            == store.memberships@[i].permission);
    }
    assert forall|i: int| 0 <= i < store.memberships@.len() implies has_id::<User>(
        store.users@,
        (#[trigger] store.memberships@[i]).user_id,
    ) by {
        assert(PermissionMembership::link_of(store.memberships@[i], 1)
            == store.memberships@[i].user_id);
    }
}

/// The text of an update depends on the table and on which fields the update
/// names, never on the values it gives or on the id: values are only bound.
pub proof fn values_never_reach_the_text<E: Mapped>(
    id: i32,
    patch: E::Patch,
    made: Statement,
    other_id: i32,
    other_patch: E::Patch,
    other_made: Statement,
)
    requires
        columns_in(E::changes_of(patch)) == columns_in(E::changes_of(other_patch)),
        made.sql@ == update_text(E::table_name(), columns_in(E::changes_of(patch))),
        other_made.sql@ == update_text(E::table_name(), columns_in(E::changes_of(other_patch))),
    ensures
        made.sql@ == other_made.sql@,
{
}

/// An add that succeeds gives the new row a positive id that no row had,
/// and a lookup by that id then returns the row with the fields that were
/// added: one row where one is expected, a list of that one row where the
/// lookup returns a list.
pub proof fn add_then_get<E: Entity, D: Shows<E>>(
    before: Store,
    new: E::New,
    after: Store,
    out: Result<D, Status>,
)
    requires
        before.wf(),
        added::<E, D>(before, new, after, out),
        out is Ok,
    ensures
        ({
            let id = (E::table_of(before).last_id + 1) as i32;
            let row = E::created(id, new);
            &&& id > 0
            &&& E::id_of(row) == id
            &&& out.unwrap().shows(row)
            &&& select_spec::<E>(E::table_of(after)@, E::by_id(id)) == seq![row]
            &&& forall|got: Result<D, Status>| #[trigger]
                got_one::<E, D>(after, E::by_id(id), got) ==> (got matches Ok(shown) && shown.shows(
                    row,
                ))
            &&& forall|by_id: bool, got: Result<Vec<D>, Status>| #[trigger]
                got_listed::<E, D>(after, E::by_id(id), by_id, got) ==> (got matches Ok(list)
                    && list@.len() == 1 && list@[0].shows(row))
        }),
{
    let id = (E::table_of(before).last_id + 1) as i32;
    let row = E::created(id, new);
    let rows = E::table_of(before)@;
    E::table_in_order(before);
    E::insert_rules(before, new);
    E::created_id(id, new);
    assert forall|i: int| 0 <= i < rows.len() implies
        !E::selects(E::by_id(id), #[trigger] rows[i]) by {
        E::by_id_selects(id, rows[i]);
    }
    lemma_select_none::<E>(rows, E::by_id(id));
    lemma_select_push::<E>(rows, row, E::by_id(id));
    E::by_id_selects(id, row);
    assert(select_spec::<E>(rows.push(row), E::by_id(id)) =~= seq![row]);
}

/// Where an entity has a text that must be unique, an add of a row whose
/// text an earlier add has taken fails as an internal error and changes
/// nothing: the earlier row stays as it was.
pub proof fn duplicate_is_refused<E: Entity, D: Shows<E>>(
    before: Store,
    first: E::New,
    between: Store,
    first_out: Result<D, Status>,
    second: E::New,
    after: Store,
    second_out: Result<D, Status>,
)
    requires
        before.wf(),
        added::<E, D>(before, first, between, first_out),
        first_out is Ok,
        E::unique_of(E::created(0, first)) is Some,
        E::unique_of(E::created(0, second)) == E::unique_of(E::created(0, first)),
        added::<E, D>(between, second, after, second_out),
    ensures
        second_out matches Err(status) && status.code == Code::Internal,
        after == between,
{
    let id = (E::table_of(before).last_id + 1) as i32;
    let row = E::created(id, first);
    let text = E::unique_of(E::created(0, first)).unwrap();
    E::unique_ignores_id(0, id, first);
    let rows = E::table_of(between)@;
    assert(rows[rows.len() - 1] == row);
    assert(holds::<E>(rows, text));
    E::insert_rules(between, second);
}

/// A second user with the email of a user just added is refused as an
/// internal error, and the store stays as the first add left it.
pub proof fn duplicate_email_is_refused(
    before: Store,
    first: UserAddRequest,
    between: Store,
    first_out: Result<UserResponse, Status>,
    second: UserAddRequest,
    after: Store,
    second_out: Result<UserResponse, Status>,
)
    requires
        before.wf(),
        added::<User, UserResponse>(before, new_user(first), between, first_out),
        first_out is Ok,
        second.email@ == first.email@,
        added::<User, UserResponse>(between, new_user(second), after, second_out),
    ensures
        second_out matches Err(status) && status.code == Code::Internal,
        after == between,
{
    duplicate_is_refused::<User, UserResponse>(
        before,
        new_user(first),
        between,
        first_out,
        new_user(second),
        after,
        second_out,
    );
}

/// A second permission with the name of a permission just added is refused
/// as an internal error, and the store stays as the first add left it.
pub proof fn duplicate_name_is_refused(
    before: Store,
    first: PermissionData,
    between: Store,
    first_out: Result<PermissionData, Status>,
    second: PermissionData,
    after: Store,
    second_out: Result<PermissionData, Status>,
)
    requires
        before.wf(),
        added::<Permission, PermissionData>(before, new_permission(first), between, first_out),
        first_out is Ok,
        second.name@ == first.name@,
        added::<Permission, PermissionData>(between, new_permission(second), after, second_out),
    ensures
        second_out matches Err(status) && status.code == Code::Internal,
        after == between,
{
    duplicate_is_refused::<Permission, PermissionData>(
        before,
        new_permission(first),
        between,
        first_out,
        new_permission(second),
        after,
        second_out,
    );
}

/// An update that names no field is rejected as invalid input and changes
/// nothing in the store.
pub proof fn empty_update_is_rejected<E: Entity, D: Shows<E>>(
    before: Store,
    id: i32,
    patch: E::Patch,
    after: Store,
    out: Result<D, Status>,
)
    requires
        updated::<E, D>(before, id, patch, after, out),
        E::names_nothing(patch),
    ensures
        out matches Err(status) && status.code == Code::InvalidArgument,
        after == before,
{
}

/// An update that succeeds changes the row with the given id as the update
/// says and nothing else: every other row of the table and every other
/// table is as it was, and the table has given out no id.
pub proof fn update_touches_one_row<E: Entity, D: Shows<E>>(
    before: Store,
    id: i32,
    patch: E::Patch,
    after: Store,
    out: Result<D, Status>,
)
    requires
        before.wf(),
        updated::<E, D>(before, id, patch, after, out),
        out is Ok,
    ensures
        E::table_of(after)@.len() == E::table_of(before)@.len(),
        forall|i: int|
            0 <= i < E::table_of(before)@.len() ==> #[trigger] E::table_of(after)@[i] == if E::id_of(
                E::table_of(before)@[i],
            ) == id {
                E::patched(E::table_of(before)@[i], patch)
            } else {
                E::table_of(before)@[i]
            },
        E::table_of(after).last_id == E::table_of(before).last_id,
        E::others_same(before, after),
{
}

/// A delete that succeeds leaves no row that the key selects: a lookup by
/// the same key then finds nothing, "not found" where the key names one row
/// (one row is expected, or the lookup is by id) and an empty list where
/// the key may select several rows.
pub proof fn delete_then_get<E: Entity, D: Shows<E>>(
    before: Store,
    key: E::Key,
    after: Store,
    failure: Option<Status>,
)
    requires
        removed::<E>(before, key, after, failure),
        failure is None,
    ensures
        select_spec::<E>(E::table_of(after)@, key).len() == 0,
        forall|got: Result<D, Status>| #[trigger]
            got_one::<E, D>(after, key, got) ==> (got matches Err(status) && status.code
                == Code::NotFound),
        forall|got: Result<Vec<D>, Status>| #[trigger]
            got_listed::<E, D>(after, key, true, got) ==> (got matches Err(status) && status.code
                == Code::NotFound),
        forall|got: Result<Vec<D>, Status>| #[trigger]
            got_listed::<E, D>(after, key, false, got) ==> (got matches Ok(list) && list@.len()
                == 0),
{
    E::delete_rules(before, key);
    let rows = E::table_of(before)@;
    let kept = reject_spec::<E>(rows, key);
    assert forall|k: int| 0 <= k < kept.len() implies !E::selects(key, #[trigger] kept[k]) by {
        lemma_reject_from::<E>(rows, key, k);
    }
    lemma_select_none::<E>(kept, key);
}

/// A list of an empty table is an empty list, not a failure.
pub proof fn empty_table_lists_nothing<E: Entity, D: Shows<E>>(
    store: Store,
    out: Result<Vec<D>, Status>,
)
    requires
        listed::<E, D>(store, out),
        E::table_of(store)@.len() == 0,
    ensures
        out matches Ok(list) && list@.len() == 0,
{
}

/// A partial update of an user changes the fields that it names to the
/// values that it gives, and leaves every other field as it was.
pub proof fn user_update_changes_named_fields(row: UserView, patch: UpdateUser)
    ensures
        ({
            let after = User::patched(row, patch);
            &&& after.id == row.id
            &&& after.password == row.password
            &&& after.email == match patch.email {
                Some(given) => given@,
                None => row.email,
            }
        }),
{
}

/// A partial update of an agent changes the fields that it names to the
/// values that it gives, and leaves every other field as it was.
pub proof fn agent_update_changes_named_fields(row: AgentView, patch: UpdateAgent)
    ensures
        ({
            let after = Agent::patched(row, patch);
            &&& after.id == row.id
            &&& after.uuid == match patch.uuid {
                Some(given) => given@,
                None => row.uuid,
            }
            &&& after.description == match patch.description {
                Some(given) => given@,
                None => row.description,
            }
            &&& after.owner == match patch.owner {
                Some(given) => given,
                None => row.owner,
            }
        }),
{
}

/// A partial update of a router changes the fields that it names to the
/// values that it gives, and leaves every other field as it was.
pub proof fn router_update_changes_named_fields(row: RouterView, patch: UpdateRouter)
    ensures
        ({
            let after = Router::patched(row, patch);
            &&& after.id == row.id
            &&& after.agent == match patch.agent {
                Some(given) => given,
                None => row.agent,
            }
            &&& after.snmp_community == match patch.snmp_community {
                Some(given) => Some(given@),
                None => row.snmp_community,
            }
            &&& after.ssh_username == match patch.ssh_username {
                Some(given) => Some(given@),
                None => row.ssh_username,
            }
            &&& after.ssh_password == match patch.ssh_password {
                Some(given) => Some(given@),
                None => row.ssh_password,
            }
            &&& after.conn_type == match patch.conn_type {
                Some(given) => Some(given@),
                None => row.conn_type,
            }
            &&& after.router_type == match patch.router_type {
                Some(given) => Some(given@),
                None => row.router_type,
            }
        }),
{
}

/// A partial update of a tunnel changes the fields that it names to the
/// values that it gives, and leaves every other field as it was.
pub proof fn tunnel_update_changes_named_fields(row: TunnelView, patch: UpdateTunnel)
    ensures
        ({
            let after = Tunnel::patched(row, patch);
            &&& after.id == row.id
            &&& after.version == match patch.version {
                Some(given) => given,
                None => row.version,
            }
            &&& after.router == match patch.router {
                Some(given) => given,
                None => row.router,
            }
            &&& after.ip == match patch.ip {
                Some(given) => given@,
                None => row.ip,
            }
            &&& after.dynamic_ip == match patch.dynamic_ip {
                Some(given) => given,
                None => row.dynamic_ip,
            }
            &&& after.ip_class == match patch.ip_class {
                Some(given) => given,
                None => row.ip_class,
            }
            &&& after.hostname == match patch.hostname {
                Some(given) => given@,
                None => row.hostname,
            }
            &&& after.description == match patch.description {
                Some(given) => given@,
                None => row.description,
            }
            &&& after.source == match patch.source {
                Some(given) => given@,
                None => row.source,
            }
            &&& after.cost == match patch.cost {
                Some(given) => given,
                None => row.cost,
            }
            &&& after.tunnel_type == match patch.tunnel_type {
                Some(given) => given@,
                None => row.tunnel_type,
            }
            &&& after.topology_type == match patch.topology_type {
                Some(given) => given@,
                None => row.topology_type,
            }
        }),
{
}

/// A partial update of a permission changes the fields that it names to the
/// values that it gives, and leaves every other field as it was.
pub proof fn permission_update_changes_named_fields(row: PermissionView, patch: UpdatePermission)
    ensures
        ({
            let after = Permission::patched(row, patch);
            &&& after.id == row.id
            &&& after.name == match patch.name {
                Some(given) => given@,
                None => row.name,
            }
            &&& after.description == match patch.description {
                Some(given) => given@,
                None => row.description,
            }
        }),
{
}

/// A partial update of a permission membership changes the fields that it names to the
/// values that it gives, and leaves every other field as it was.
pub proof fn membership_update_changes_named_fields(
    row: PermissionMembership,
    patch: UpdatePermissionMembership,
)
    ensures
        ({
            let after = PermissionMembership::patched(row, patch);
            &&& after.id == row.id
            &&& after.permission == match patch.permission {
                Some(given) => given,
                None => row.permission,
            }
            &&& after.user_id == match patch.user_id {
                Some(given) => given,
                None => row.user_id,
            }
        }),
{
}

/// What an update request makes of an user: a field that the request
/// gives as zero or as the empty text, or does not give, stays as it was;
/// every other field takes the value given.
pub proof fn user_request_leaves_zero_and_empty_alone(row: UserView, data: UserUpdateRequest)
    ensures
        ({
            let after = User::patched(row, user_patch(data));
            &&& after.id == row.id
            &&& after.password == row.password
            &&& after.email == match data.email {
                Some(given) => if given@.len() > 0 {
                    given@
                } else {
                    row.email
                },
                None => row.email,
            }
        }),
{
}

/// What an update request makes of an agent: a field that the request
/// gives as zero or as the empty text, or does not give, stays as it was;
/// every other field takes the value given.
pub proof fn agent_request_leaves_zero_and_empty_alone(row: AgentView, data: AgentData)
    ensures
        ({
            let after = Agent::patched(row, agent_patch(data));
            &&& after.id == row.id
            &&& after.uuid == if data.uuid@.len() > 0 {
                data.uuid@
            } else {
                row.uuid
            }
            &&& after.description == match data.description {
                Some(given) => if given@.len() > 0 {
                    given@
                } else {
                    row.description
                },
                None => row.description,
            }
            &&& after.owner == if data.owner != 0 {
                data.owner
            } else {
                row.owner
            }
        }),
{
}

/// What an update request makes of a router: a field that the request
/// gives as zero or as the empty text, or does not give, stays as it was;
/// every other field takes the value given.
pub proof fn router_request_leaves_zero_and_empty_alone(row: RouterView, data: RouterUpdateRequest)
    ensures
        ({
            let after = Router::patched(row, router_patch(data));
            &&& after.id == row.id
            &&& after.agent == match data.agent {
                Some(given) => if given != 0 {
                    given
                } else {
                    row.agent
                },
                None => row.agent,
            }
            &&& after.snmp_community == match data.snmp_community {
                Some(given) => if given@.len() > 0 {
                    Some(given@)
                } else {
                    row.snmp_community
                },
                None => row.snmp_community,
            }
            &&& after.ssh_username == match data.ssh_username {
                Some(given) => if given@.len() > 0 {
                    Some(given@)
                } else {
                    row.ssh_username
                },
                None => row.ssh_username,
            }
            &&& after.ssh_password == match data.ssh_password {
                Some(given) => if given@.len() > 0 {
                    Some(given@)
                } else {
                    row.ssh_password
                },
                None => row.ssh_password,
            }
            &&& after.conn_type == match data.conn_type {
                Some(given) => if given@.len() > 0 {
                    Some(given@)
                } else {
                    row.conn_type
                },
                None => row.conn_type,
            }
            &&& after.router_type == match data.router_type {
                Some(given) => if given@.len() > 0 {
                    Some(given@)
                } else {
                    row.router_type
                },
                None => row.router_type,
            }
        }),
{
}

/// What an update request makes of a tunnel: a field that the request
/// gives as zero or as the empty text, or does not give, stays as it was;
/// every other field takes the value given. A flag is set as it is given.
pub proof fn tunnel_request_leaves_zero_and_empty_alone(row: TunnelView, data: TunnelUpdateRequest)
    ensures
        ({
            let after = Tunnel::patched(row, tunnel_patch(data));
            &&& after.id == row.id
            &&& after.version == match data.version {
                Some(given) => if given != 0 {
                    given
                } else {
                    row.version
                },
                None => row.version,
            }
            &&& after.router == match data.router {
                Some(given) => if given != 0 {
                    given
                } else {
                    row.router
                },
                None => row.router,
            }
            &&& after.ip == match data.ip {
                Some(given) => if given@.len() > 0 {
                    given@
                } else {
                    row.ip
                },
                None => row.ip,
            }
            &&& after.dynamic_ip == match data.dynamic_ip {
                Some(given) => given,
                None => row.dynamic_ip,
            }
            &&& after.ip_class == match data.ip_class {
                Some(given) => if given != 0 {
                    given
                } else {
                    row.ip_class
                },
                None => row.ip_class,
            }
            &&& after.hostname == match data.hostname {
                Some(given) => if given@.len() > 0 {
                    given@
                } else {
                    row.hostname
                },
                None => row.hostname,
            }
            &&& after.description == match data.description {
                Some(given) => if given@.len() > 0 {
                    given@
                } else {
                    row.description
                },
                None => row.description,
            }
            &&& after.source == match data.source {
                Some(given) => if given@.len() > 0 {
                    given@
                } else {
                    row.source
                },
                None => row.source,
            }
            &&& after.cost == match data.cost {
                Some(given) => if given != 0 {
                    given
                } else {
                    row.cost
                },
                None => row.cost,
            }
            &&& after.tunnel_type == match data.tunnel_type {
                Some(given) => if given@.len() > 0 {
                    given@
                } else {
                    row.tunnel_type
                },
                None => row.tunnel_type,
            }
            &&& after.topology_type == match data.topology_type {
                Some(given) => if given@.len() > 0 {
                    given@
                } else {
                    row.topology_type
                },
                None => row.topology_type,
            }
        }),
{
}

/// What an update request makes of a permission: a field that the request
/// gives as zero or as the empty text, or does not give, stays as it was;
/// every other field takes the value given.
pub proof fn permission_request_leaves_zero_and_empty_alone(row: PermissionView, data: Permission)
    ensures
        ({
            let after = Permission::patched(row, permission_patch(data));
            &&& after.id == row.id
            &&& after.name == if data.name@.len() > 0 {
                data.name@
            } else {
                row.name
            }
            &&& after.description == if data.description@.len() > 0 {
                data.description@
            } else {
                row.description
            }
        }),
{
}

/// What an update request makes of a permission membership: a field that the request
/// gives as zero or as the empty text, or does not give, stays as it was;
/// every other field takes the value given.
pub proof fn membership_request_leaves_zero_and_empty_alone(
    row: PermissionMembership,
    data: PermissionMembershipData,
)
    ensures
        ({
            let after = PermissionMembership::patched(row, membership_patch(data));
            &&& after.id == row.id
            &&& after.permission == if data.permission != 0 {
                data.permission
            } else {
                row.permission
            }
            &&& after.user_id == if data.user_id != 0 {
                data.user_id
            } else {
                row.user_id
            }
        }),
{
}

} // verus!
