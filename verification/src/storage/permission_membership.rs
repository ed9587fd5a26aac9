//! Permission memberships: which user holds which permission.

use vstd::prelude::*;
use crate::api::{IdPermissionOrUserid, PermissionMembershipData};
use crate::error::{nothing_to_update, Status};
use crate::mapping::{bind_given_int, bind_int, given_int, one, Mapped};
use crate::statement::{pairs, Assignment, Column, TableName, Value, ValueView};
use crate::response::{
    added, answers_rows, count_response, deleted, got_listed, listed, listed_response,
    row_response, rows_response, updated, Shows,
};
use crate::store::Store;
use crate::table::{views, Record};

verus! {

/// A row of the permission membership table. A row is its own view: it
/// holds numbers only.
#[derive(Debug, Clone, Copy)]
pub struct PermissionMembership {
    pub id: i32,
    pub permission: i32,
    pub user_id: i32,
}

/// The fields that an insert of a permission membership supplies.
#[derive(Debug, Clone, Copy)]
pub struct NewPermissionMembership {
    pub permission: i32,
    pub user_id: i32,
}

/// A partial update of a permission membership: a field that is `None` is
/// left alone.
#[derive(Debug, Clone, Copy)]
pub struct UpdatePermissionMembership {
    pub permission: Option<i32>,
    pub user_id: Option<i32>,
}

impl View for PermissionMembership {
    type V = PermissionMembership;

    open spec fn view(&self) -> PermissionMembership {
        *self
    }
}

impl Record for PermissionMembership {
    type Key = IdPermissionOrUserid;

    type New = NewPermissionMembership;

    type Patch = UpdatePermissionMembership;

    open spec fn id_of(row: PermissionMembership) -> i32 {
        row.id
    }

    open spec fn selects(key: IdPermissionOrUserid, row: PermissionMembership) -> bool {
        match key {
            IdPermissionOrUserid::Id(id) => row.id == id,
            IdPermissionOrUserid::Permission(permission) => row.permission == permission,
            IdPermissionOrUserid::UserId(user_id) => row.user_id == user_id,
        }
    }

    open spec fn created(id: i32, new: NewPermissionMembership) -> PermissionMembership {
        PermissionMembership { id, permission: new.permission, user_id: new.user_id }
    }

    open spec fn patched(
        row: PermissionMembership,
        patch: UpdatePermissionMembership,
    ) -> PermissionMembership {
        PermissionMembership {
            id: row.id,
            permission: match patch.permission {
                Some(permission) => permission,
                None => row.permission,
            },
            user_id: match patch.user_id {
                Some(user_id) => user_id,
                None => row.user_id,
            },
        }
    }

    open spec fn unique_of(row: PermissionMembership) -> Option<Seq<char>> {
        None
    }

    open spec fn link_of(row: PermissionMembership, slot: int) -> i32 {
        if slot == 0 {
            row.permission
        } else {
            row.user_id
        }
    }

    proof fn created_id(id: i32, new: NewPermissionMembership) {
    }

    proof fn patched_id(row: PermissionMembership, patch: UpdatePermissionMembership) {
    }

    fn id(&self) -> (id: i32) {
        self.id
    }

    fn matches(&self, key: &IdPermissionOrUserid) -> (hit: bool) {
        match key {
            IdPermissionOrUserid::Id(id) => self.id == *id,
            IdPermissionOrUserid::Permission(permission) => self.permission == *permission,
            IdPermissionOrUserid::UserId(user_id) => self.user_id == *user_id,
        }
    }

    fn holds_unique(&self, text: &String) -> (hit: bool) {
        false
    }

    fn link(&self, slot: u8) -> (id: i32) {
        if slot == 0 {
            self.permission
        } else {
            self.user_id
        }
    }

    fn copy(&self) -> (row: PermissionMembership) {
        PermissionMembership { id: self.id, permission: self.permission, user_id: self.user_id }
    }

    fn create(id: i32, new: NewPermissionMembership) -> (row: PermissionMembership) {
        PermissionMembership { id, permission: new.permission, user_id: new.user_id }
    }

    fn patch(&self, patch: &UpdatePermissionMembership) -> (row: PermissionMembership) {
        let permission = match patch.permission {
            Some(permission) => permission,
            None => self.permission,
        };
        let user_id = match patch.user_id {
            Some(user_id) => user_id,
            None => self.user_id,
        };
        PermissionMembership { id: self.id, permission, user_id }
    }
}

impl Mapped for PermissionMembership {
    open spec fn table_name() -> TableName {
        TableName::PermissionMembership
    }

    open spec fn condition_of(key: IdPermissionOrUserid) -> (Column, ValueView) {
        match key {
            IdPermissionOrUserid::Id(id) => (Column::Id, ValueView::Int(id)),
            IdPermissionOrUserid::Permission(permission) => (
                Column::Permission,
                ValueView::Int(permission),
            ),
            IdPermissionOrUserid::UserId(user_id) => (Column::UserId, ValueView::Int(user_id)),
        }
    }

    open spec fn fields_of(new: NewPermissionMembership) -> Seq<(Column, ValueView)> {
        one(Column::Permission, ValueView::Int(new.permission))
            + one(Column::UserId, ValueView::Int(new.user_id))
    }

    open spec fn changes_of(patch: UpdatePermissionMembership) -> Seq<(Column, ValueView)> {
        given_int(Column::Permission, patch.permission)
            + given_int(Column::UserId, patch.user_id)
    }

    proof fn changes_are_named(patch: UpdatePermissionMembership) {
    }

    fn no_change() -> (status: Status) {
        nothing_to_update()
    }

    fn table() -> (table: TableName) {
        TableName::PermissionMembership
    }

    fn condition(key: &IdPermissionOrUserid) -> (condition: Assignment) {
        match key {
            IdPermissionOrUserid::Id(id) => Assignment {
                column: Column::Id,
                value: Value::Int(*id),
            },
            IdPermissionOrUserid::Permission(permission) => Assignment {
                column: Column::Permission,
                value: Value::Int(*permission),
            },
            IdPermissionOrUserid::UserId(user_id) => Assignment {
                column: Column::UserId,
                value: Value::Int(*user_id),
            },
        }
    }

    fn fields(new: &NewPermissionMembership) -> (fields: Vec<Assignment>) {
        let mut fields: Vec<Assignment> = Vec::new();
        bind_int(&mut fields, Column::Permission, new.permission);
        bind_int(&mut fields, Column::UserId, new.user_id);
        proof {
            assert(pairs(fields@) =~= Self::fields_of(*new));
        }
        fields
    }

    fn changes(patch: &UpdatePermissionMembership) -> (changes: Vec<Assignment>) {
        let mut changes: Vec<Assignment> = Vec::new();
        bind_given_int(&mut changes, Column::Permission, patch.permission);
        bind_given_int(&mut changes, Column::UserId, patch.user_id);
        proof {
            assert(pairs(changes@) =~= Self::changes_of(*patch));
        }
        changes
    }
}

impl UpdatePermissionMembership {
    /// Whether the update names no field at all.
    pub open spec fn is_empty_spec(&self) -> bool {
        self.permission is None && self.user_id is None
    }

    /// Whether the update names no field at all.
    pub fn is_empty(&self) -> (empty: bool)
        ensures
            empty == self.is_empty_spec(),
    {
        self.permission.is_none() && self.user_id.is_none()
    }
}

impl From<PermissionMembership> for PermissionMembershipData {
    /// The message that shows the row, made of the row's own fields.
    fn from(p: PermissionMembership) -> (shown: PermissionMembershipData) {
        PermissionMembershipData {
            id: Some(p.id),
            permission: p.permission,
            user_id: p.user_id,
        }
    }
}

impl vstd::std_specs::convert::FromSpecImpl<PermissionMembership> for PermissionMembershipData {
    open spec fn obeys_from_spec() -> bool {
        true
    }

    open spec fn from_spec(p: PermissionMembership) -> PermissionMembershipData {
        PermissionMembershipData {
            id: Some(p.id),
            permission: p.permission,
            user_id: p.user_id,
        }
    }
}

impl Shows<PermissionMembership> for PermissionMembershipData {
    /// Whether the message shows the row: every field of it.
    open spec fn shows(&self, row: PermissionMembership) -> bool {
        &&& self.id == Some(row.id)
        &&& self.permission == row.permission
        &&& self.user_id == row.user_id
    }

    fn of(row: &PermissionMembership) -> (shown: PermissionMembershipData) {
        PermissionMembershipData {
            id: Some(row.id),
            permission: row.permission,
            user_id: row.user_id,
        }
    }
}

/// The insert that an add request asks for.
pub open spec fn new_membership(data: PermissionMembershipData) -> NewPermissionMembership {
    NewPermissionMembership { permission: data.permission, user_id: data.user_id }
}

/// The partial update that an update request asks for: a permission or a
/// user of zero means "leave alone".
pub open spec fn membership_patch(data: PermissionMembershipData) -> UpdatePermissionMembership {
    UpdatePermissionMembership {
        permission: if data.permission != 0 {
            Some(data.permission)
        } else {
            None
        },
        user_id: if data.user_id != 0 {
            Some(data.user_id)
        } else {
            None
        },
    }
}

impl NewPermissionMembership {
    /// The insert that an add request asks for.
    pub fn of(pm_data: &PermissionMembershipData) -> (new: NewPermissionMembership)
        ensures
            new == new_membership(*pm_data),
    {
        NewPermissionMembership { permission: pm_data.permission, user_id: pm_data.user_id }
    }
}

impl UpdatePermissionMembership {
    /// The partial update that an update request asks for.
    pub fn of(pm_data: &PermissionMembershipData) -> (update: UpdatePermissionMembership)
        ensures
            update == membership_patch(*pm_data),
    {
        let permission = if pm_data.permission != 0 {
            Some(pm_data.permission)
        } else {
            None
        };
        let user_id = if pm_data.user_id != 0 {
            Some(pm_data.user_id)
        } else {
            None
        };
        UpdatePermissionMembership { permission, user_id }
    }
}

impl PermissionMembership {
    /// Every permission membership, in ascending order of id.
    pub fn all(store: &Store) -> (out: Result<Vec<PermissionMembershipData>, Status>)
        ensures
            listed::<PermissionMembership, PermissionMembershipData>(*store, out),
    {
        rows_response(Ok(store.memberships.all()))
    }

    /// The answer to a lookup, from the rows that the key selected: the rows
    /// shown, or "not found" where a lookup by id selected none.
    pub fn found(
        id_permission_or_userid: &IdPermissionOrUserid,
        rows: Vec<PermissionMembership>,
    ) -> (out: Result<Vec<PermissionMembershipData>, Status>)
        ensures
            answers_rows::<PermissionMembership, PermissionMembershipData>(
                *id_permission_or_userid is Id,
                views(rows@),
                out,
            ),
    {
        listed_response(matches!(id_permission_or_userid, IdPermissionOrUserid::Id(_)), rows)
    }

    /// The permission memberships that the key selects, in ascending order
    /// of id. A lookup by id that finds no membership is "not found"; a
    /// lookup by permission or user that finds none answers with an empty
    /// list.
    pub fn get(store: &Store, id_permission_or_userid: &IdPermissionOrUserid) -> (out: Result<
        Vec<PermissionMembershipData>,
        Status,
    >)
        ensures
            got_listed::<PermissionMembership, PermissionMembershipData>(
                *store,
                *id_permission_or_userid,
                *id_permission_or_userid is Id,
                out,
            ),
    {
        PermissionMembership::found(
            id_permission_or_userid,
            store.memberships.select(id_permission_or_userid),
        )
    }

    /// Adds a permission membership and returns it with its new id.
    pub fn add(store: &mut Store, pm_data: PermissionMembershipData) -> (out: Result<
        PermissionMembershipData,
        Status,
    >)
        requires
            old(store).wf(),
        ensures
            final(store).wf(),
            added::<PermissionMembership, PermissionMembershipData>(
                *old(store),
                new_membership(pm_data),
                *final(store),
                out,
            ),
    {
        row_response(store.insert_membership(NewPermissionMembership::of(&pm_data)))
    }

    /// Changes the fields of a permission membership that the request names
    /// and returns it as it then stands. The request must carry the id.
    pub fn update(store: &mut Store, pm_data: PermissionMembershipData) -> (out: Result<
        PermissionMembershipData,
        Status,
    >)
        requires
            old(store).wf(),
            pm_data.id is Some,
        ensures
            final(store).wf(),
            updated::<PermissionMembership, PermissionMembershipData>(
                *old(store),
                pm_data.id.unwrap(),
                membership_patch(pm_data),
                *final(store),
                out,
            ),
    {
        let update = UpdatePermissionMembership::of(&pm_data);
        if update.is_empty() {
            return Err(nothing_to_update());
        }
        row_response(store.update_membership(pm_data.id.unwrap(), &update))
    }

    /// Deletes the permission memberships that the key selects and returns
    /// how many they were.
    pub fn delete(store: &mut Store, id_permission_or_userid: IdPermissionOrUserid) -> (out: Result<
        usize,
        Status,
    >)
        requires
            old(store).wf(),
        ensures
            final(store).wf(),
            deleted::<PermissionMembership>(
                *old(store),
                id_permission_or_userid,
                *final(store),
                out,
            ),
    {
        count_response(store.delete_memberships(&id_permission_or_userid))
    }
}

} // verus!
