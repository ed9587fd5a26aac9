//! Permissions: named rights, each with a unique name.

use vstd::prelude::*;
use crate::api::{IdOrName, PermissionData};
use crate::error::{name_or_description_required, Status};
use crate::mapping::{bind_given_text, bind_text, given_text, one, Mapped};
use crate::statement::{pairs, Assignment, Column, TableName, Value, ValueView};
use crate::response::{
    added, count_response, deleted, first_response, got_one, listed, row_response, rows_response,
    updated, Shows,
};
use crate::store::Store;
use crate::text::is_blank;
use crate::table::Record;

verus! {

/// A row of the permissions table.
#[derive(Debug)]
pub struct Permission {
    pub id: i32,
    pub name: String,
    pub description: String,
}

/// A permission row as the contracts see it.
pub struct PermissionView {
    pub id: i32,
    pub name: Seq<char>,
    pub description: Seq<char>,
}

/// The fields that an insert of a permission supplies.
#[derive(Debug)]
pub struct NewPermission {
    pub name: String,
    pub description: String,
}

/// A partial update of a permission: a field that is `None` is left alone.
#[derive(Debug)]
pub struct UpdatePermission {
    pub name: Option<String>,
    pub description: Option<String>,
}

impl View for Permission {
    type V = PermissionView;

    open spec fn view(&self) -> PermissionView {
        PermissionView { id: self.id, name: self.name@, description: self.description@ }
    }
}

impl Record for Permission {
    type Key = IdOrName;

    type New = NewPermission;

    type Patch = UpdatePermission;

    open spec fn id_of(row: PermissionView) -> i32 {
        row.id
    }

    open spec fn selects(key: IdOrName, row: PermissionView) -> bool {
        match key {
            IdOrName::Id(id) => row.id == id,
            IdOrName::Name(name) => row.name == name@,
        }
    }

    open spec fn created(id: i32, new: NewPermission) -> PermissionView {
        PermissionView { id, name: new.name@, description: new.description@ }
    }

    open spec fn patched(row: PermissionView, patch: UpdatePermission) -> PermissionView {
        PermissionView {
            id: row.id,
            name: match patch.name {
                Some(name) => name@,
                None => row.name,
            },
            description: match patch.description {
                Some(description) => description@,
                None => row.description,
            },
        }
    }

    open spec fn unique_of(row: PermissionView) -> Option<Seq<char>> {
        Some(row.name)
    }

    open spec fn link_of(row: PermissionView, slot: int) -> i32 {
        0
    }

    proof fn created_id(id: i32, new: NewPermission) {
    }

    proof fn patched_id(row: PermissionView, patch: UpdatePermission) {
    }

    fn id(&self) -> (id: i32) {
        self.id
    }

    fn matches(&self, key: &IdOrName) -> (hit: bool) {
        match key {
            IdOrName::Id(id) => self.id == *id,
            IdOrName::Name(name) => self.name == *name,
        }
    }

    fn holds_unique(&self, text: &String) -> (hit: bool) {
        self.name == *text
    }

    fn link(&self, slot: u8) -> (id: i32) {
        0
    }

    fn copy(&self) -> (row: Permission) {
        Permission {
            id: self.id,
            name: self.name.clone(),
            description: self.description.clone(),
        }
    }

    fn create(id: i32, new: NewPermission) -> (row: Permission) {
        Permission { id, name: new.name, description: new.description }
    }

    fn patch(&self, patch: &UpdatePermission) -> (row: Permission) {
        let name = match &patch.name {
            Some(name) => name.clone(),
            None => self.name.clone(),
        };
        let description = match &patch.description {
            Some(description) => description.clone(),
            None => self.description.clone(),
        };
        Permission { id: self.id, name, description }
    }
}

impl Default for Permission {
    /// The row that stands for "no permission": id zero and empty texts.
    fn default() -> (row: Permission)
        ensures
            row.id == 0,
            row.name@.len() == 0,
            row.description@.len() == 0,
    {
        Permission { id: 0, name: String::new(), description: String::new() }
    }
}

impl Mapped for Permission {
    open spec fn table_name() -> TableName {
        TableName::Permissions
    }

    open spec fn condition_of(key: IdOrName) -> (Column, ValueView) {
        match key {
            IdOrName::Id(id) => (Column::Id, ValueView::Int(id)),
            IdOrName::Name(name) => (Column::Name, ValueView::Text(name@)),
        }
    }

    open spec fn fields_of(new: NewPermission) -> Seq<(Column, ValueView)> {
        one(Column::Name, ValueView::Text(new.name@))
            + one(Column::Description, ValueView::Text(new.description@))
    }

    open spec fn changes_of(patch: UpdatePermission) -> Seq<(Column, ValueView)> {
        given_text(Column::Name, patch.name)
            + given_text(Column::Description, patch.description)
    }

    proof fn changes_are_named(patch: UpdatePermission) {
    }

    fn no_change() -> (status: Status) {
        name_or_description_required()
    }

    fn table() -> (table: TableName) {
        TableName::Permissions
    }

    fn condition(key: &IdOrName) -> (condition: Assignment) {
        match key {
            IdOrName::Id(id) => Assignment { column: Column::Id, value: Value::Int(*id) },
            IdOrName::Name(name) => Assignment {
                column: Column::Name,
                value: Value::Text(name.clone()),
            },
        }
    }

    fn fields(new: &NewPermission) -> (fields: Vec<Assignment>) {
        let mut fields: Vec<Assignment> = Vec::new();
        bind_text(&mut fields, Column::Name, &new.name);
        bind_text(&mut fields, Column::Description, &new.description);
        proof {
            assert(pairs(fields@) =~= Self::fields_of(*new));
        }
        fields
    }

    fn changes(patch: &UpdatePermission) -> (changes: Vec<Assignment>) {
        let mut changes: Vec<Assignment> = Vec::new();
        bind_given_text(&mut changes, Column::Name, &patch.name);
        bind_given_text(&mut changes, Column::Description, &patch.description);
        proof {
            assert(pairs(changes@) =~= Self::changes_of(*patch));
        }
        changes
    }
}

impl UpdatePermission {
    /// Whether the update names no field at all.
    pub open spec fn is_empty_spec(&self) -> bool {
        self.name is None && self.description is None
    }

    /// Whether the update names no field at all.
    pub fn is_empty(&self) -> (empty: bool)
        ensures
            empty == self.is_empty_spec(),
    {
        self.name.is_none() && self.description.is_none()
    }
}

impl From<Permission> for PermissionData {
    /// The message that shows the row, made of the row's own fields.
    fn from(p: Permission) -> (shown: PermissionData) {
        PermissionData { id: p.id, name: p.name, description: p.description }
    }
}

impl vstd::std_specs::convert::FromSpecImpl<Permission> for PermissionData {
    open spec fn obeys_from_spec() -> bool {
        true
    }

    open spec fn from_spec(p: Permission) -> PermissionData {
        PermissionData { id: p.id, name: p.name, description: p.description }
    }
}

impl Shows<Permission> for PermissionData {
    /// Whether the message shows the row: every field of it.
    open spec fn shows(&self, row: PermissionView) -> bool {
        &&& self.id == row.id
        &&& self.name@ == row.name
        &&& self.description@ == row.description
    }

    fn of(row: &Permission) -> (shown: PermissionData) {
        PermissionData {
            id: row.id,
            name: row.name.clone(),
            description: row.description.clone(),
        }
    }
}

/// The partial update that an update request asks for: an empty name or
/// description means "leave alone".
pub open spec fn permission_patch(data: Permission) -> UpdatePermission {
    UpdatePermission {
        name: if data.name@.len() > 0 {
            Some(data.name)
        } else {
            None
        },
        description: if data.description@.len() > 0 {
            Some(data.description)
        } else {
            None
        },
    }
}

impl UpdatePermission {
    /// The partial update that an update request asks for.
    pub fn of(permission_data: Permission) -> (update: UpdatePermission)
        ensures
            update == permission_patch(permission_data),
    {
        let name = if is_blank(&permission_data.name) {
            None
        } else {
            Some(permission_data.name)
        };
        let description = if is_blank(&permission_data.description) {
            None
        } else {
            Some(permission_data.description)
        };
        UpdatePermission { name, description }
    }
}

impl Permission {
    /// Every permission, in ascending order of id.
    pub fn all(store: &Store) -> (out: Result<Vec<PermissionData>, Status>)
        ensures
            listed::<Permission, PermissionData>(*store, out),
    {
        rows_response(Ok(store.permissions.all()))
    }

    /// The first permission that the key selects, or "not found".
    pub fn get(store: &Store, id_or_name: &IdOrName) -> (out: Result<PermissionData, Status>)
        ensures
            got_one::<Permission, PermissionData>(*store, *id_or_name, out),
    {
        first_response(store.permissions.first(id_or_name))
    }

    /// Adds a permission and returns it with its new id.
    pub fn add(store: &mut Store, permission_name: &str, permission_description: &str) -> (out:
        Result<PermissionData, Status>)
        requires
            old(store).wf(),
        ensures
            final(store).wf(),
            forall|new: NewPermission|
                new.name@ == permission_name@ && new.description@ == permission_description@
                    ==> #[trigger] added::<Permission, PermissionData>(
                    *old(store),
                    new,
                    *final(store),
                    out,
                ),
    {
        let new_permission = NewPermission {
            name: permission_name.to_owned(),
            description: permission_description.to_owned(),
        };
        row_response(store.insert_permission(new_permission))
    }

    /// Changes the fields of a permission that the request names and returns
    /// the permission as it then stands.
    pub fn update(store: &mut Store, permission_data: Permission) -> (out: Result<
        PermissionData,
        Status,
    >)
        requires
            old(store).wf(),
        ensures
            final(store).wf(),
            updated::<Permission, PermissionData>(
                *old(store),
                permission_data.id,
                permission_patch(permission_data),
                *final(store),
                out,
            ),
    {
        let id = permission_data.id;
        let update = UpdatePermission::of(permission_data);
        if update.is_empty() {
            return Err(name_or_description_required());
        }
        row_response(store.update_permission(id, &update))
    }

    /// Deletes the permissions that the key selects and returns how many
    /// they were.
    pub fn delete(store: &mut Store, id_or_name: IdOrName) -> (out: Result<usize, Status>)
        requires
            old(store).wf(),
        ensures
            final(store).wf(),
            deleted::<Permission>(*old(store), id_or_name, *final(store), out),
    {
        count_response(store.delete_permissions(&id_or_name))
    }
}

} // verus!
