//! Routers: network devices, each managed by an agent.

use vstd::prelude::*;
use crate::api::{IdOrAgent, RouterAddRequest, RouterResponse, RouterUpdateRequest};
use crate::error::{nothing_to_update, rejects, Status};
use crate::mapping::{
    bind_given_int, bind_given_text, bind_int, bind_text, given_int, given_text, one, Mapped,
};
use crate::statement::{pairs, Assignment, Column, TableName, Value, ValueView};
use crate::response::{
    added, count_response, deleted, first_response, got_one, listed, row_response, rows_response,
    updated, Shows,
};
use crate::store::Store;
use crate::table::Record;
use crate::text::{
    copy_opt, keep_number, keep_text, meant_number, meant_text, opt_view, or_empty,
    unwrap_or_empty,
};

verus! {

/// A row of the routers table. The texts are nullable columns.
#[derive(Debug)]
pub struct Router {
    pub id: i32,
    pub agent: i32,
    pub snmp_community: Option<String>,
    pub ssh_username: Option<String>,
    pub ssh_password: Option<String>,
    pub conn_type: Option<String>,
    pub router_type: Option<String>,
}

/// A router row as the contracts see it.
pub struct RouterView {
    pub id: i32,
    pub agent: i32,
    pub snmp_community: Option<Seq<char>>,
    pub ssh_username: Option<Seq<char>>,
    pub ssh_password: Option<Seq<char>>,
    pub conn_type: Option<Seq<char>>,
    pub router_type: Option<Seq<char>>,
}

/// The fields that an insert of a router supplies. A text that is not given
/// is stored as the empty text, not as null.
#[derive(Debug)]
pub struct NewRouter {
    pub agent: i32,
    pub snmp_community: Option<String>,
    pub ssh_username: Option<String>,
    pub ssh_password: Option<String>,
    pub conn_type: Option<String>,
    pub router_type: Option<String>,
}

/// A partial update of a router: a field that is `None` is left alone.
#[derive(Debug)]
pub struct UpdateRouter {
    pub agent: Option<i32>,
    pub snmp_community: Option<String>,
    pub ssh_username: Option<String>,
    pub ssh_password: Option<String>,
    pub conn_type: Option<String>,
    pub router_type: Option<String>,
}

/// A nullable text after a partial update: the given text, or what was there.
pub open spec fn replaced(current: Option<Seq<char>>, given: Option<String>) -> Option<Seq<char>> {
    match given {
        Some(text) => Some(text@),
        None => current,
    }
}

fn replace(current: &Option<String>, given: &Option<String>) -> (out: Option<String>)
    ensures
        opt_view(out) == replaced(opt_view(*current), *given),
{
    match given {
        Some(text) => Some(text.clone()),
        None => copy_opt(current),
    }
}

impl View for Router {
    type V = RouterView;

    open spec fn view(&self) -> RouterView {
        RouterView {
            id: self.id,
            agent: self.agent,
            snmp_community: opt_view(self.snmp_community),
            ssh_username: opt_view(self.ssh_username),
            ssh_password: opt_view(self.ssh_password),
            conn_type: opt_view(self.conn_type),
            router_type: opt_view(self.router_type),
        }
    }
}

impl Record for Router {
    type Key = IdOrAgent;

    type New = NewRouter;

    type Patch = UpdateRouter;

    open spec fn id_of(row: RouterView) -> i32 {
        row.id
    }

    open spec fn selects(key: IdOrAgent, row: RouterView) -> bool {
        match key {
            IdOrAgent::Id(id) => row.id == id,
            IdOrAgent::Agent(agent) => row.agent == agent,
        }
    }

    open spec fn created(id: i32, new: NewRouter) -> RouterView {
        RouterView {
            id,
            agent: new.agent,
            snmp_community: Some(or_empty(new.snmp_community)),
            ssh_username: Some(or_empty(new.ssh_username)),
            ssh_password: Some(or_empty(new.ssh_password)),
            conn_type: Some(or_empty(new.conn_type)),
            router_type: Some(or_empty(new.router_type)),
        }
    }

    open spec fn patched(row: RouterView, patch: UpdateRouter) -> RouterView {
        RouterView {
            id: row.id,
            agent: match patch.agent {
                Some(agent) => agent,
                None => row.agent,
            },
            snmp_community: replaced(row.snmp_community, patch.snmp_community),
            ssh_username: replaced(row.ssh_username, patch.ssh_username),
            ssh_password: replaced(row.ssh_password, patch.ssh_password),
            conn_type: replaced(row.conn_type, patch.conn_type),
            router_type: replaced(row.router_type, patch.router_type),
        }
    }

    open spec fn unique_of(row: RouterView) -> Option<Seq<char>> {
        None
    }

    open spec fn link_of(row: RouterView, slot: int) -> i32 {
        row.agent
    }

    proof fn created_id(id: i32, new: NewRouter) {
    }

    proof fn patched_id(row: RouterView, patch: UpdateRouter) {
    }

    fn id(&self) -> (id: i32) {
        self.id
    }

    fn matches(&self, key: &IdOrAgent) -> (hit: bool) {
        match key {
            IdOrAgent::Id(id) => self.id == *id,
            IdOrAgent::Agent(agent) => self.agent == *agent,
        }
    }

    fn holds_unique(&self, text: &String) -> (hit: bool) {
        false
    }

    fn link(&self, slot: u8) -> (id: i32) {
        self.agent
    }

    fn copy(&self) -> (row: Router) {
        Router {
            id: self.id,
            agent: self.agent,
            snmp_community: copy_opt(&self.snmp_community),
            ssh_username: copy_opt(&self.ssh_username),
            ssh_password: copy_opt(&self.ssh_password),
            conn_type: copy_opt(&self.conn_type),
            router_type: copy_opt(&self.router_type),
        }
    }

    fn create(id: i32, new: NewRouter) -> (row: Router) {
        Router {
            id,
            agent: new.agent,
            snmp_community: Some(unwrap_or_empty(new.snmp_community)),
            ssh_username: Some(unwrap_or_empty(new.ssh_username)),
            ssh_password: Some(unwrap_or_empty(new.ssh_password)),
            conn_type: Some(unwrap_or_empty(new.conn_type)),
            router_type: Some(unwrap_or_empty(new.router_type)),
        }
    }

    fn patch(&self, patch: &UpdateRouter) -> (row: Router) {
        let agent = match patch.agent {
            Some(agent) => agent,
            None => self.agent,
        };
        Router {
            id: self.id,
            agent,
            snmp_community: replace(&self.snmp_community, &patch.snmp_community),
            ssh_username: replace(&self.ssh_username, &patch.ssh_username),
            ssh_password: replace(&self.ssh_password, &patch.ssh_password),
            conn_type: replace(&self.conn_type, &patch.conn_type),
            router_type: replace(&self.router_type, &patch.router_type),
        }
    }
}

impl Mapped for Router {
    open spec fn table_name() -> TableName {
        TableName::Routers
    }

    open spec fn condition_of(key: IdOrAgent) -> (Column, ValueView) {
        match key {
            IdOrAgent::Id(id) => (Column::Id, ValueView::Int(id)),
            IdOrAgent::Agent(agent) => (Column::Agent, ValueView::Int(agent)),
        }
    }

    open spec fn fields_of(new: NewRouter) -> Seq<(Column, ValueView)> {
        one(Column::Agent, ValueView::Int(new.agent))
            + one(Column::SnmpCommunity, ValueView::Text(or_empty(new.snmp_community)))
            + one(Column::SshUsername, ValueView::Text(or_empty(new.ssh_username)))
            + one(Column::SshPassword, ValueView::Text(or_empty(new.ssh_password)))
            + one(Column::ConnType, ValueView::Text(or_empty(new.conn_type)))
            + one(Column::RouterType, ValueView::Text(or_empty(new.router_type)))
    }

    open spec fn changes_of(patch: UpdateRouter) -> Seq<(Column, ValueView)> {
        given_int(Column::Agent, patch.agent)
            + given_text(Column::SnmpCommunity, patch.snmp_community)
            + given_text(Column::SshUsername, patch.ssh_username)
            + given_text(Column::SshPassword, patch.ssh_password)
            + given_text(Column::ConnType, patch.conn_type)
            + given_text(Column::RouterType, patch.router_type)
    }

    proof fn changes_are_named(patch: UpdateRouter) {
    }

    fn no_change() -> (status: Status) {
        nothing_to_update()
    }

    fn table() -> (table: TableName) {
        TableName::Routers
    }

    fn condition(key: &IdOrAgent) -> (condition: Assignment) {
        match key {
            IdOrAgent::Id(id) => Assignment { column: Column::Id, value: Value::Int(*id) },
            IdOrAgent::Agent(agent) => Assignment {
                column: Column::Agent,
                value: Value::Int(*agent),
            },
        }
    }

    fn fields(new: &NewRouter) -> (fields: Vec<Assignment>) {
        let mut fields: Vec<Assignment> = Vec::new();
        bind_int(&mut fields, Column::Agent, new.agent);
        bind_text(
            &mut fields,
            Column::SnmpCommunity,
            &unwrap_or_empty(copy_opt(&new.snmp_community)),
        );
        bind_text(&mut fields, Column::SshUsername, &unwrap_or_empty(copy_opt(&new.ssh_username)));
        bind_text(&mut fields, Column::SshPassword, &unwrap_or_empty(copy_opt(&new.ssh_password)));
        bind_text(&mut fields, Column::ConnType, &unwrap_or_empty(copy_opt(&new.conn_type)));
        bind_text(&mut fields, Column::RouterType, &unwrap_or_empty(copy_opt(&new.router_type)));
        proof {
            assert(pairs(fields@) =~= Self::fields_of(*new));
        }
        fields
    }

    fn changes(patch: &UpdateRouter) -> (changes: Vec<Assignment>) {
        let mut changes: Vec<Assignment> = Vec::new();
        bind_given_int(&mut changes, Column::Agent, patch.agent);
        bind_given_text(&mut changes, Column::SnmpCommunity, &patch.snmp_community);
        bind_given_text(&mut changes, Column::SshUsername, &patch.ssh_username);
        bind_given_text(&mut changes, Column::SshPassword, &patch.ssh_password);
        bind_given_text(&mut changes, Column::ConnType, &patch.conn_type);
        bind_given_text(&mut changes, Column::RouterType, &patch.router_type);
        proof {
            assert(pairs(changes@) =~= Self::changes_of(*patch));
        }
        changes
    }
}

impl UpdateRouter {
    /// Whether the update names no field at all.
    pub open spec fn is_empty_spec(&self) -> bool {
        &&& self.agent is None
        &&& self.snmp_community is None
        &&& self.ssh_username is None
        &&& self.ssh_password is None
        &&& self.conn_type is None
        &&& self.router_type is None
    }

    /// Whether the update names no field at all.
    pub fn is_empty(&self) -> (empty: bool)
        ensures
            empty == self.is_empty_spec(),
    {
        self.agent.is_none() && self.snmp_community.is_none() && self.ssh_username.is_none()
            && self.ssh_password.is_none() && self.conn_type.is_none()
            && self.router_type.is_none()
    }
}

impl From<Router> for RouterResponse {
    /// The message that shows the row, made of the row's own fields.
    fn from(r: Router) -> (shown: RouterResponse) {
        RouterResponse {
            id: Some(r.id),
            agent: Some(r.agent),
            snmp_community: r.snmp_community,
            ssh_username: r.ssh_username,
            ssh_password: r.ssh_password,
            conn_type: r.conn_type,
            router_type: r.router_type,
        }
    }
}

impl vstd::std_specs::convert::FromSpecImpl<Router> for RouterResponse {
    open spec fn obeys_from_spec() -> bool {
        true
    }

    open spec fn from_spec(r: Router) -> RouterResponse {
        RouterResponse {
            id: Some(r.id),
            agent: Some(r.agent),
            snmp_community: r.snmp_community,
            ssh_username: r.ssh_username,
            ssh_password: r.ssh_password,
            conn_type: r.conn_type,
            router_type: r.router_type,
        }
    }
}

impl Shows<Router> for RouterResponse {
    /// Whether the response shows the row: every field of it.
    open spec fn shows(&self, row: RouterView) -> bool {
        &&& self.id == Some(row.id)
        &&& self.agent == Some(row.agent)
        &&& opt_view(self.snmp_community) == row.snmp_community
        &&& opt_view(self.ssh_username) == row.ssh_username
        &&& opt_view(self.ssh_password) == row.ssh_password
        &&& opt_view(self.conn_type) == row.conn_type
        &&& opt_view(self.router_type) == row.router_type
    }

    fn of(row: &Router) -> (shown: RouterResponse) {
        RouterResponse {
            id: Some(row.id),
            agent: Some(row.agent),
            snmp_community: copy_opt(&row.snmp_community),
            ssh_username: copy_opt(&row.ssh_username),
            ssh_password: copy_opt(&row.ssh_password),
            conn_type: copy_opt(&row.conn_type),
            router_type: copy_opt(&row.router_type),
        }
    }
}

/// The insert that an add request asks for.
pub open spec fn new_router(data: RouterAddRequest) -> NewRouter {
    NewRouter {
        agent: data.agent,
        snmp_community: data.snmp_community,
        ssh_username: data.ssh_username,
        ssh_password: data.ssh_password,
        conn_type: data.conn_type,
        router_type: data.router_type,
    }
}

/// The partial update that an update request asks for: a field that is not
/// given, or is given as zero or as the empty text, means "leave alone".
pub open spec fn router_patch(data: RouterUpdateRequest) -> UpdateRouter {
    UpdateRouter {
        agent: meant_number(data.agent),
        snmp_community: meant_text(data.snmp_community),
        ssh_username: meant_text(data.ssh_username),
        ssh_password: meant_text(data.ssh_password),
        conn_type: meant_text(data.conn_type),
        router_type: meant_text(data.router_type),
    }
}

impl NewRouter {
    /// The insert that an add request asks for.
    pub fn of(router_data: RouterAddRequest) -> (new: NewRouter)
        ensures
            new == new_router(router_data),
    {
        NewRouter {
            agent: router_data.agent,
            snmp_community: router_data.snmp_community,
            ssh_username: router_data.ssh_username,
            ssh_password: router_data.ssh_password,
            conn_type: router_data.conn_type,
            router_type: router_data.router_type,
        }
    }
}

impl UpdateRouter {
    /// The partial update that an update request asks for.
    pub fn of(router_data: RouterUpdateRequest) -> (update: UpdateRouter)
        ensures
            update == router_patch(router_data),
    {
        UpdateRouter {
            agent: keep_number(router_data.agent),
            snmp_community: keep_text(router_data.snmp_community),
            ssh_username: keep_text(router_data.ssh_username),
            ssh_password: keep_text(router_data.ssh_password),
            conn_type: keep_text(router_data.conn_type),
            router_type: keep_text(router_data.router_type),
        }
    }
}

impl Router {
    /// Every router, in ascending order of id.
    pub fn all(store: &Store) -> (out: Result<Vec<RouterResponse>, Status>)
        ensures
            listed::<Router, RouterResponse>(*store, out),
    {
        rows_response(Ok(store.routers.all()))
    }

    /// The first router that the key selects, or "not found".
    pub fn get(store: &Store, id_or_agent: &IdOrAgent) -> (out: Result<RouterResponse, Status>)
        ensures
            got_one::<Router, RouterResponse>(*store, *id_or_agent, out),
    {
        first_response(store.routers.first(id_or_agent))
    }

    /// Adds a router and returns it with its new id.
    pub fn add(store: &mut Store, router_data: RouterAddRequest) -> (out: Result<
        RouterResponse,
        Status,
    >)
        requires
            old(store).wf(),
        ensures
            final(store).wf(),
            added::<Router, RouterResponse>(
                *old(store),
                new_router(router_data),
                *final(store),
                out,
            ),
    {
        row_response(store.insert_router(NewRouter::of(router_data)))
    }

    /// Changes the fields of a router that the request names and returns the
    /// router as it then stands. A request with the id zero is rejected.
    pub fn update(store: &mut Store, router_data: RouterUpdateRequest) -> (out: Result<
        RouterResponse,
        Status,
    >)
        requires
            old(store).wf(),
        ensures
            final(store).wf(),
            if router_data.id == 0 {
                &&& out matches Err(status) && rejects(status, "Router id is required"@)
                &&& *final(store) == *old(store)
            } else {
                updated::<Router, RouterResponse>(
                    *old(store),
                    router_data.id,
                    router_patch(router_data),
                    *final(store),
                    out,
                )
            },
    {
        if router_data.id == 0 {
            return Err(Status::invalid_argument("Router id is required"));
        }
        let id = router_data.id;
        let update = UpdateRouter::of(router_data);
        if update.is_empty() {
            return Err(nothing_to_update());
        }
        row_response(store.update_router(id, &update))
    }

    /// Deletes the routers that the key selects and returns how many they were.
    pub fn delete(store: &mut Store, id_or_agent: IdOrAgent) -> (out: Result<usize, Status>)
        requires
            old(store).wf(),
        ensures
            final(store).wf(),
            deleted::<Router>(*old(store), id_or_agent, *final(store), out),
    {
        count_response(store.delete_routers(&id_or_agent))
    }
}

} // verus!
