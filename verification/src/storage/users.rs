//! Users: accounts, each with a unique email.

use vstd::prelude::*;
use crate::api::{IdOrEmail, UserAddRequest, UserResponse, UserUpdateRequest};
use crate::error::{nothing_to_update, rejects, Status};
use crate::mapping::{bind_given_text, bind_text, given_text, one, Mapped};
use crate::statement::{pairs, Assignment, Column, TableName, Value, ValueView};
use crate::response::{
    added, count_response, deleted, first_response, got_one, listed, row_response, rows_response,
    updated, Shows,
};
use crate::store::Store;
use crate::table::Record;
use crate::text::{keep_text, meant_text};

verus! {

/// A row of the users table.
#[derive(Debug)]
pub struct User {
    pub id: i32,
    pub email: String,
    pub password: String,
}

/// A user row as the contracts see it.
pub struct UserView {
    pub id: i32,
    pub email: Seq<char>,
    pub password: Seq<char>,
}

/// The fields that an insert of a user supplies.
#[derive(Debug)]
pub struct NewUser {
    pub email: String,
}

/// A partial update of a user: a field that is `None` is left alone.
#[derive(Debug)]
pub struct UpdateUser {
    pub email: Option<String>,
}

impl View for User {
    type V = UserView;

    open spec fn view(&self) -> UserView {
        UserView { id: self.id, email: self.email@, password: self.password@ }
    }
}

impl Record for User {
    type Key = IdOrEmail;

    type New = NewUser;

    type Patch = UpdateUser;

    open spec fn id_of(row: UserView) -> i32 {
        row.id
    }

    open spec fn selects(key: IdOrEmail, row: UserView) -> bool {
        match key {
            IdOrEmail::Id(id) => row.id == id,
            IdOrEmail::Email(email) => row.email == email@,
        }
    }

    open spec fn created(id: i32, new: NewUser) -> UserView {
        UserView { id, email: new.email@, password: Seq::empty() }
    }

    open spec fn patched(row: UserView, patch: UpdateUser) -> UserView {
        UserView {
            email: match patch.email {
                Some(email) => email@,
                None => row.email,
            },
            ..row
        }
    }

    open spec fn unique_of(row: UserView) -> Option<Seq<char>> {
        Some(row.email)
    }

    open spec fn link_of(row: UserView, slot: int) -> i32 {
        0
    }

    proof fn created_id(id: i32, new: NewUser) {
    }

    proof fn patched_id(row: UserView, patch: UpdateUser) {
    }

    fn id(&self) -> (id: i32) {
        self.id
    }

    fn matches(&self, key: &IdOrEmail) -> (hit: bool) {
        match key {
            IdOrEmail::Id(id) => self.id == *id,
            IdOrEmail::Email(email) => self.email == *email,
        }
    }

    fn holds_unique(&self, text: &String) -> (hit: bool) {
        self.email == *text
    }

    fn link(&self, slot: u8) -> (id: i32) {
        0
    }

    fn copy(&self) -> (row: User) {
        User { id: self.id, email: self.email.clone(), password: self.password.clone() }
    }

    fn create(id: i32, new: NewUser) -> (row: User) {
        User { id, email: new.email, password: String::new() }
    }

    fn patch(&self, patch: &UpdateUser) -> (row: User) {
        let email = match &patch.email {
            Some(email) => email.clone(),
            None => self.email.clone(),
        };
        User { id: self.id, email, password: self.password.clone() }
    }
}

impl Mapped for User {
    open spec fn table_name() -> TableName {
        TableName::Users
    }

    open spec fn condition_of(key: IdOrEmail) -> (Column, ValueView) {
        match key {
            IdOrEmail::Id(id) => (Column::Id, ValueView::Int(id)),
            IdOrEmail::Email(email) => (Column::Email, ValueView::Text(email@)),
        }
    }

    open spec fn fields_of(new: NewUser) -> Seq<(Column, ValueView)> {
        one(Column::Email, ValueView::Text(new.email@))
    }

    open spec fn changes_of(patch: UpdateUser) -> Seq<(Column, ValueView)> {
        given_text(Column::Email, patch.email)
    }

    proof fn changes_are_named(patch: UpdateUser) {
    }

    fn no_change() -> (status: Status) {
        nothing_to_update()
    }

    fn table() -> (table: TableName) {
        TableName::Users
    }

    fn condition(key: &IdOrEmail) -> (condition: Assignment) {
        match key {
            IdOrEmail::Id(id) => Assignment { column: Column::Id, value: Value::Int(*id) },
            IdOrEmail::Email(email) => Assignment {
                column: Column::Email,
                value: Value::Text(email.clone()),
            },
        }
    }

    fn fields(new: &NewUser) -> (fields: Vec<Assignment>) {
        let mut fields: Vec<Assignment> = Vec::new();
        bind_text(&mut fields, Column::Email, &new.email);
        proof {
            assert(pairs(fields@) =~= Self::fields_of(*new));
        }
        fields
    }

    fn changes(patch: &UpdateUser) -> (changes: Vec<Assignment>) {
        let mut changes: Vec<Assignment> = Vec::new();
        bind_given_text(&mut changes, Column::Email, &patch.email);
        proof {
            assert(pairs(changes@) =~= Self::changes_of(*patch));
        }
        changes
    }
}

impl UpdateUser {
    /// Whether the update names no field at all.
    pub open spec fn is_empty_spec(&self) -> bool {
        self.email is None
    }

    /// Whether the update names no field at all.
    pub fn is_empty(&self) -> (empty: bool)
        ensures
            empty == self.is_empty_spec(),
    {
        self.email.is_none()
    }
}

impl From<User> for UserResponse {
    /// The message that shows the row, made of the row's own fields.
    fn from(u: User) -> (shown: UserResponse) {
        UserResponse { id: u.id, email: u.email }
    }
}

impl vstd::std_specs::convert::FromSpecImpl<User> for UserResponse {
    open spec fn obeys_from_spec() -> bool {
        true
    }

    open spec fn from_spec(u: User) -> UserResponse {
        UserResponse { id: u.id, email: u.email }
    }
}

impl Shows<User> for UserResponse {
    /// Whether the response shows the row: the same id and email, and
    /// nothing of the password.
    open spec fn shows(&self, row: UserView) -> bool {
        &&& self.id == row.id
        &&& self.email@ == row.email
    }

    fn of(row: &User) -> (shown: UserResponse) {
        UserResponse { id: row.id, email: row.email.clone() }
    }
}

/// The columns of a user that a listing reads: the row without its password.
#[derive(Debug)]
pub struct Users {
    pub id: i32,
    pub email: String,
}

impl Default for Users {
    /// The listing row that stands for "no user": id zero and no email.
    fn default() -> (row: Users)
        ensures
            row.id == 0,
            row.email@.len() == 0,
    {
        Users { id: 0, email: String::new() }
    }
}

impl From<Users> for UserResponse {
    fn from(u: Users) -> (shown: UserResponse) {
        UserResponse { id: u.id, email: u.email }
    }
}

impl vstd::std_specs::convert::FromSpecImpl<Users> for UserResponse {
    open spec fn obeys_from_spec() -> bool {
        true
    }

    open spec fn from_spec(u: Users) -> UserResponse {
        UserResponse { id: u.id, email: u.email }
    }
}

impl User {
    /// The row as a listing reads it.
    pub fn listed(&self) -> (row: Users)
        ensures
            row.id == self.id,
            row.email@ == self.email@,
    {
        Users { id: self.id, email: self.email.clone() }
    }
}

/// The insert that an add request asks for.
pub open spec fn new_user(data: UserAddRequest) -> NewUser {
    NewUser { email: data.email }
}

/// The partial update that an update request asks for: an email that is
/// not given, or is given empty, means "leave alone".
pub open spec fn user_patch(data: UserUpdateRequest) -> UpdateUser {
    UpdateUser { email: meant_text(data.email) }
}

impl NewUser {
    /// The insert that an add request asks for.
    pub fn of(user_data: UserAddRequest) -> (new: NewUser)
        ensures
            new == new_user(user_data),
    {
        NewUser { email: user_data.email }
    }
}

impl UpdateUser {
    /// The partial update that an update request asks for.
    pub fn of(user_data: UserUpdateRequest) -> (update: UpdateUser)
        ensures
            update == user_patch(user_data),
    {
        UpdateUser { email: keep_text(user_data.email) }
    }
}

impl User {
    /// Every user, in ascending order of id.
    pub fn all(store: &Store) -> (out: Result<Vec<UserResponse>, Status>)
        ensures
            listed::<User, UserResponse>(*store, out),
    {
        rows_response(Ok(store.users.all()))
    }

    /// The first user that the key selects, or "not found".
    pub fn get(store: &Store, id_or_email: &IdOrEmail) -> (out: Result<UserResponse, Status>)
        ensures
            got_one::<User, UserResponse>(*store, *id_or_email, out),
    {
        first_response(store.users.first(id_or_email))
    }

    /// Adds a user and returns it with its new id.
    pub fn add(store: &mut Store, user_data: UserAddRequest) -> (out: Result<UserResponse, Status>)
        requires
            old(store).wf(),
        ensures
            final(store).wf(),
            added::<User, UserResponse>(*old(store), new_user(user_data), *final(store), out),
    {
        row_response(store.insert_user(NewUser::of(user_data)))
    }

    /// Changes the fields of a user that the request names and returns the
    /// user as it then stands. A request with the id zero is rejected.
    pub fn update(store: &mut Store, user_data: UserUpdateRequest) -> (out: Result<
        UserResponse,
        Status,
    >)
        requires
            old(store).wf(),
        ensures
            final(store).wf(),
            if user_data.id == 0 {
                &&& out matches Err(status) && rejects(status, "User id is required"@)
                &&& *final(store) == *old(store)
            } else {
                updated::<User, UserResponse>(
                    *old(store),
                    user_data.id,
                    user_patch(user_data),
                    *final(store),
                    out,
                )
            },
    {
        if user_data.id == 0 {
            return Err(Status::invalid_argument("User id is required"));
        }
        let id = user_data.id;
        let update = UpdateUser::of(user_data);
        if update.is_empty() {
            return Err(nothing_to_update());
        }
        row_response(store.update_user(id, &update))
    }

    /// Deletes the users that the key selects and returns how many they were.
    pub fn delete(store: &mut Store, id_or_email: IdOrEmail) -> (out: Result<usize, Status>)
        requires
            old(store).wf(),
        ensures
            final(store).wf(),
            deleted::<User>(*old(store), id_or_email, *final(store), out),
    {
        count_response(store.delete_users(&id_or_email))
    }
}

} // verus!
