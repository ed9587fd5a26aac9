//! Tunnels: links between routers, each belonging to one router.

use vstd::prelude::*;
use crate::api::{IdOrRouter, TunnelAddRequest, TunnelResponse, TunnelUpdateRequest};
use crate::error::{nothing_to_update, Status};
use crate::mapping::{
    bind_bool, bind_given_bool, bind_given_int, bind_given_text, bind_int, bind_text, given_bool,
    given_int, given_text, one, Mapped,
};
use crate::statement::{pairs, Assignment, Column, TableName, Value, ValueView};
use crate::response::{
    added, count_response, deleted, first_response, got_one, listed, row_response, rows_response,
    updated, Shows,
};
use crate::store::Store;
use crate::table::Record;
use crate::text::{
    copy_opt, keep_number, keep_text, meant_number, meant_text, or_empty, unwrap_or_empty,
};

verus! {

/// A row of the tunnels table.
#[derive(Debug)]
pub struct Tunnel {
    pub id: i32,
    pub version: i32,
    pub router: i32,
    pub ip: String,
    pub dynamic_ip: bool,
    pub ip_class: i32,
    pub hostname: String,
    pub description: String,
    pub source: String,
    pub cost: i32,
    pub tunnel_type: String,
    pub topology_type: String,
}

/// A tunnel row as the contracts see it.
pub struct TunnelView {
    pub id: i32,
    pub version: i32,
    pub router: i32,
    pub ip: Seq<char>,
    pub dynamic_ip: bool,
    pub ip_class: i32,
    pub hostname: Seq<char>,
    pub description: Seq<char>,
    pub source: Seq<char>,
    pub cost: i32,
    pub tunnel_type: Seq<char>,
    pub topology_type: Seq<char>,
}

/// The fields that an insert of a tunnel supplies. An optional field that
/// is not given is stored as zero, `false` or the empty text.
#[derive(Debug)]
pub struct NewTunnel {
    pub version: Option<i32>,
    pub router: i32,
    pub ip: String,
    pub dynamic_ip: Option<bool>,
    pub ip_class: Option<i32>,
    pub hostname: String,
    pub description: String,
    pub source: String,
    pub cost: Option<i32>,
    pub tunnel_type: Option<String>,
    pub topology_type: Option<String>,
}

/// A partial update of a tunnel: a field that is `None` is left alone.
#[derive(Debug)]
pub struct UpdateTunnel {
    pub version: Option<i32>,
    pub router: Option<i32>,
    pub ip: Option<String>,
    pub dynamic_ip: Option<bool>,
    pub ip_class: Option<i32>,
    pub hostname: Option<String>,
    pub description: Option<String>,
    pub source: Option<String>,
    pub cost: Option<i32>,
    pub tunnel_type: Option<String>,
    pub topology_type: Option<String>,
}

/// A text after a partial update: the given text, or what was there.
pub open spec fn text_after(current: Seq<char>, given: Option<String>) -> Seq<char> {
    match given {
        Some(text) => text@,
        None => current,
    }
}

/// A number after a partial update: the given number, or what was there.
pub open spec fn number_after(current: i32, given: Option<i32>) -> i32 {
    match given {
        Some(number) => number,
        None => current,
    }
}

/// A flag after a partial update: the given flag, or what was there.
pub open spec fn flag_after(current: bool, given: Option<bool>) -> bool {
    match given {
        Some(flag) => flag,
        None => current,
    }
}

fn text_or(current: &String, given: &Option<String>) -> (out: String)
    ensures
        out@ == text_after(current@, *given),
{
    match given {
        Some(text) => text.clone(),
        None => current.clone(),
    }
}

fn number_or(current: i32, given: Option<i32>) -> (out: i32)
    ensures
        out == number_after(current, given),
{
    match given {
        Some(number) => number,
        None => current,
    }
}

fn flag_or(current: bool, given: Option<bool>) -> (out: bool)
    ensures
        out == flag_after(current, given),
{
    match given {
        Some(flag) => flag,
        None => current,
    }
}

impl View for Tunnel {
    type V = TunnelView;

    open spec fn view(&self) -> TunnelView {
        TunnelView {
            id: self.id,
            version: self.version,
            router: self.router,
            ip: self.ip@,
            dynamic_ip: self.dynamic_ip,
            ip_class: self.ip_class,
            hostname: self.hostname@,
            description: self.description@,
            source: self.source@,
            cost: self.cost,
            tunnel_type: self.tunnel_type@,
            topology_type: self.topology_type@,
        }
    }
}

impl Record for Tunnel {
    type Key = IdOrRouter;

    type New = NewTunnel;

    type Patch = UpdateTunnel;

    open spec fn id_of(row: TunnelView) -> i32 {
        row.id
    }

    open spec fn selects(key: IdOrRouter, row: TunnelView) -> bool {
        match key {
            IdOrRouter::Id(id) => row.id == id,
            IdOrRouter::Router(router) => row.router == router,
        }
    }

    open spec fn created(id: i32, new: NewTunnel) -> TunnelView {
        TunnelView {
            id,
            version: number_after(0, new.version),
            router: new.router,
            ip: new.ip@,
            dynamic_ip: flag_after(false, new.dynamic_ip),
            ip_class: number_after(0, new.ip_class),
            hostname: new.hostname@,
            description: new.description@,
            source: new.source@,
            cost: number_after(0, new.cost),
            tunnel_type: or_empty(new.tunnel_type),
            topology_type: or_empty(new.topology_type),
        }
    }

    open spec fn patched(row: TunnelView, patch: UpdateTunnel) -> TunnelView {
        TunnelView {
            id: row.id,
            version: number_after(row.version, patch.version),
            router: number_after(row.router, patch.router),
            ip: text_after(row.ip, patch.ip),
            dynamic_ip: flag_after(row.dynamic_ip, patch.dynamic_ip),
            ip_class: number_after(row.ip_class, patch.ip_class),
            hostname: text_after(row.hostname, patch.hostname),
            description: text_after(row.description, patch.description),
            source: text_after(row.source, patch.source),
            cost: number_after(row.cost, patch.cost),
            tunnel_type: text_after(row.tunnel_type, patch.tunnel_type),
            topology_type: text_after(row.topology_type, patch.topology_type),
        }
    }

    open spec fn unique_of(row: TunnelView) -> Option<Seq<char>> {
        None
    }

    open spec fn link_of(row: TunnelView, slot: int) -> i32 {
        row.router
    }

    proof fn created_id(id: i32, new: NewTunnel) {
    }

    proof fn patched_id(row: TunnelView, patch: UpdateTunnel) {
    }

    fn id(&self) -> (id: i32) {
        self.id
    }

    fn matches(&self, key: &IdOrRouter) -> (hit: bool) {
        match key {
            IdOrRouter::Id(id) => self.id == *id,
            IdOrRouter::Router(router) => self.router == *router,
        }
    }

    fn holds_unique(&self, text: &String) -> (hit: bool) {
        false
    }

    fn link(&self, slot: u8) -> (id: i32) {
        self.router
    }

    fn copy(&self) -> (row: Tunnel) {
        Tunnel {
            id: self.id,
            version: self.version,
            router: self.router,
            ip: self.ip.clone(),
            dynamic_ip: self.dynamic_ip,
            ip_class: self.ip_class,
            hostname: self.hostname.clone(),
            description: self.description.clone(),
            source: self.source.clone(),
            cost: self.cost,
            tunnel_type: self.tunnel_type.clone(),
            topology_type: self.topology_type.clone(),
        }
    }

    fn create(id: i32, new: NewTunnel) -> (row: Tunnel) {
        Tunnel {
            id,
            version: number_or(0, new.version),
            router: new.router,
            ip: new.ip,
            dynamic_ip: flag_or(false, new.dynamic_ip),
            ip_class: number_or(0, new.ip_class),
            hostname: new.hostname,
            description: new.description,
            source: new.source,
            cost: number_or(0, new.cost),
            tunnel_type: unwrap_or_empty(new.tunnel_type),
            topology_type: unwrap_or_empty(new.topology_type),
        }
    }

    fn patch(&self, patch: &UpdateTunnel) -> (row: Tunnel) {
        Tunnel {
            id: self.id,
            version: number_or(self.version, patch.version),
            router: number_or(self.router, patch.router),
            ip: text_or(&self.ip, &patch.ip),
            dynamic_ip: flag_or(self.dynamic_ip, patch.dynamic_ip),
            ip_class: number_or(self.ip_class, patch.ip_class),
            hostname: text_or(&self.hostname, &patch.hostname),
            description: text_or(&self.description, &patch.description),
            source: text_or(&self.source, &patch.source),
            cost: number_or(self.cost, patch.cost),
            tunnel_type: text_or(&self.tunnel_type, &patch.tunnel_type),
            topology_type: text_or(&self.topology_type, &patch.topology_type),
        }
    }
}

impl Mapped for Tunnel {
    open spec fn table_name() -> TableName {
        TableName::Tunnels
    }

    open spec fn condition_of(key: IdOrRouter) -> (Column, ValueView) {
        match key {
            IdOrRouter::Id(id) => (Column::Id, ValueView::Int(id)),
            IdOrRouter::Router(router) => (Column::Router, ValueView::Int(router)),
        }
    }

    open spec fn fields_of(new: NewTunnel) -> Seq<(Column, ValueView)> {
        one(Column::Version, ValueView::Int(number_after(0, new.version)))
            + one(Column::Router, ValueView::Int(new.router))
            + one(Column::Ip, ValueView::Text(new.ip@))
            + one(Column::DynamicIp, ValueView::Bool(flag_after(false, new.dynamic_ip)))
            + one(Column::IpClass, ValueView::Int(number_after(0, new.ip_class)))
            + one(Column::Hostname, ValueView::Text(new.hostname@))
            + one(Column::Description, ValueView::Text(new.description@))
            + one(Column::Source, ValueView::Text(new.source@))
            + one(Column::Cost, ValueView::Int(number_after(0, new.cost)))
            + one(Column::TunnelType, ValueView::Text(or_empty(new.tunnel_type)))
            + one(Column::TopologyType, ValueView::Text(or_empty(new.topology_type)))
    }

    open spec fn changes_of(patch: UpdateTunnel) -> Seq<(Column, ValueView)> {
        given_int(Column::Version, patch.version)
            + given_int(Column::Router, patch.router)
            + given_text(Column::Ip, patch.ip)
            + given_bool(Column::DynamicIp, patch.dynamic_ip)
            + given_int(Column::IpClass, patch.ip_class)
            + given_text(Column::Hostname, patch.hostname)
            + given_text(Column::Description, patch.description)
            + given_text(Column::Source, patch.source)
            + given_int(Column::Cost, patch.cost)
            + given_text(Column::TunnelType, patch.tunnel_type)
            + given_text(Column::TopologyType, patch.topology_type)
    }

    proof fn changes_are_named(patch: UpdateTunnel) {
    }

    fn no_change() -> (status: Status) {
        nothing_to_update()
    }

    fn table() -> (table: TableName) {
        TableName::Tunnels
    }

    fn condition(key: &IdOrRouter) -> (condition: Assignment) {
        match key {
            IdOrRouter::Id(id) => Assignment { column: Column::Id, value: Value::Int(*id) },
            IdOrRouter::Router(router) => Assignment {
                column: Column::Router,
                value: Value::Int(*router),
            },
        }
    }

    fn fields(new: &NewTunnel) -> (fields: Vec<Assignment>) {
        let mut fields: Vec<Assignment> = Vec::new();
        bind_int(&mut fields, Column::Version, number_or(0, new.version));
        bind_int(&mut fields, Column::Router, new.router);
        bind_text(&mut fields, Column::Ip, &new.ip);
        bind_bool(&mut fields, Column::DynamicIp, flag_or(false, new.dynamic_ip));
        bind_int(&mut fields, Column::IpClass, number_or(0, new.ip_class));
        bind_text(&mut fields, Column::Hostname, &new.hostname);
        bind_text(&mut fields, Column::Description, &new.description);
        bind_text(&mut fields, Column::Source, &new.source);
        bind_int(&mut fields, Column::Cost, number_or(0, new.cost));
        bind_text(&mut fields, Column::TunnelType, &unwrap_or_empty(copy_opt(&new.tunnel_type)));
        bind_text(
            &mut fields,
            Column::TopologyType,
            &unwrap_or_empty(copy_opt(&new.topology_type)),
        );
        proof {
            assert(pairs(fields@) =~= Self::fields_of(*new));
        }
        fields
    }

    fn changes(patch: &UpdateTunnel) -> (changes: Vec<Assignment>) {
        let mut changes: Vec<Assignment> = Vec::new();
        bind_given_int(&mut changes, Column::Version, patch.version);
        bind_given_int(&mut changes, Column::Router, patch.router);
        bind_given_text(&mut changes, Column::Ip, &patch.ip);
        bind_given_bool(&mut changes, Column::DynamicIp, patch.dynamic_ip);
        bind_given_int(&mut changes, Column::IpClass, patch.ip_class);
        bind_given_text(&mut changes, Column::Hostname, &patch.hostname);
        bind_given_text(&mut changes, Column::Description, &patch.description);
        bind_given_text(&mut changes, Column::Source, &patch.source);
        bind_given_int(&mut changes, Column::Cost, patch.cost);
        bind_given_text(&mut changes, Column::TunnelType, &patch.tunnel_type);
        bind_given_text(&mut changes, Column::TopologyType, &patch.topology_type);
        proof {
            assert(pairs(changes@) =~= Self::changes_of(*patch));
        }
        changes
    }
}

impl UpdateTunnel {
    /// Whether the update names no field at all.
    pub open spec fn is_empty_spec(&self) -> bool {
        &&& self.version is None
        &&& self.router is None
        &&& self.ip is None
        &&& self.dynamic_ip is None
        &&& self.ip_class is None
        &&& self.hostname is None
        &&& self.description is None
        &&& self.source is None
        &&& self.cost is None
        &&& self.tunnel_type is None
        &&& self.topology_type is None
    }

    /// Whether the update names no field at all.
    pub fn is_empty(&self) -> (empty: bool)
        ensures
            empty == self.is_empty_spec(),
    {
        self.version.is_none() && self.router.is_none() && self.ip.is_none()
            && self.dynamic_ip.is_none() && self.ip_class.is_none() && self.hostname.is_none()
            && self.description.is_none() && self.source.is_none() && self.cost.is_none()
            && self.tunnel_type.is_none() && self.topology_type.is_none()
    }
}

impl From<Tunnel> for TunnelResponse {
    /// The message that shows the row, made of the row's own fields.
    fn from(t: Tunnel) -> (shown: TunnelResponse) {
        TunnelResponse {
            id: t.id,
            version: t.version,
            router: t.router,
            ip: t.ip,
            dynamic_ip: t.dynamic_ip,
            ip_class: t.ip_class,
            hostname: t.hostname,
            description: t.description,
            source: t.source,
            cost: t.cost,
            tunnel_type: t.tunnel_type,
            topology_type: t.topology_type,
        }
    }
}

impl vstd::std_specs::convert::FromSpecImpl<Tunnel> for TunnelResponse {
    open spec fn obeys_from_spec() -> bool {
        true
    }

    open spec fn from_spec(t: Tunnel) -> TunnelResponse {
        TunnelResponse {
            id: t.id,
            version: t.version,
            router: t.router,
            ip: t.ip,
            dynamic_ip: t.dynamic_ip,
            ip_class: t.ip_class,
            hostname: t.hostname,
            description: t.description,
            source: t.source,
            cost: t.cost,
            tunnel_type: t.tunnel_type,
            topology_type: t.topology_type,
        }
    }
}

impl Shows<Tunnel> for TunnelResponse {
    /// Whether the response shows the row: every field of it.
    open spec fn shows(&self, row: TunnelView) -> bool {
        &&& self.id == row.id
        &&& self.version == row.version
        &&& self.router == row.router
        &&& self.ip@ == row.ip
        &&& self.dynamic_ip == row.dynamic_ip
        &&& self.ip_class == row.ip_class
        &&& self.hostname@ == row.hostname
        &&& self.description@ == row.description
        &&& self.source@ == row.source
        &&& self.cost == row.cost
        &&& self.tunnel_type@ == row.tunnel_type
        &&& self.topology_type@ == row.topology_type
    }

    fn of(row: &Tunnel) -> (shown: TunnelResponse) {
        TunnelResponse {
            id: row.id,
            version: row.version,
            router: row.router,
            ip: row.ip.clone(),
            dynamic_ip: row.dynamic_ip,
            ip_class: row.ip_class,
            hostname: row.hostname.clone(),
            description: row.description.clone(),
            source: row.source.clone(),
            cost: row.cost,
            tunnel_type: row.tunnel_type.clone(),
            topology_type: row.topology_type.clone(),
        }
    }
}

/// The insert that an add request asks for.
pub open spec fn new_tunnel(data: TunnelAddRequest) -> NewTunnel {
    NewTunnel {
        version: data.version,
        router: data.router,
        ip: data.ip,
        dynamic_ip: data.dynamic_ip,
        ip_class: data.ip_class,
        hostname: data.hostname,
        description: data.description,
        source: data.source,
        cost: data.cost,
        tunnel_type: data.tunnel_type,
        topology_type: data.topology_type,
    }
}

/// The partial update that an update request asks for: a number or text
/// that is not given, or is given as zero or as the empty text, means
/// "leave alone"; a flag is set as it is given.
pub open spec fn tunnel_patch(data: TunnelUpdateRequest) -> UpdateTunnel {
    UpdateTunnel {
        version: meant_number(data.version),
        router: meant_number(data.router),
        ip: meant_text(data.ip),
        dynamic_ip: data.dynamic_ip,
        ip_class: meant_number(data.ip_class),
        hostname: meant_text(data.hostname),
        description: meant_text(data.description),
        source: meant_text(data.source),
        cost: meant_number(data.cost),
        tunnel_type: meant_text(data.tunnel_type),
        topology_type: meant_text(data.topology_type),
    }
}

impl NewTunnel {
    /// The insert that an add request asks for.
    pub fn of(tunnel_data: TunnelAddRequest) -> (new: NewTunnel)
        ensures
            new == new_tunnel(tunnel_data),
    {
        NewTunnel {
            version: tunnel_data.version,
            router: tunnel_data.router,
            ip: tunnel_data.ip,
            dynamic_ip: tunnel_data.dynamic_ip,
            ip_class: tunnel_data.ip_class,
            hostname: tunnel_data.hostname,
            description: tunnel_data.description,
            source: tunnel_data.source,
            cost: tunnel_data.cost,
            tunnel_type: tunnel_data.tunnel_type,
            topology_type: tunnel_data.topology_type,
        }
    }
}

impl UpdateTunnel {
    /// The partial update that an update request asks for.
    pub fn of(tunnel_data: TunnelUpdateRequest) -> (update: UpdateTunnel)
        ensures
            update == tunnel_patch(tunnel_data),
    {
        UpdateTunnel {
            version: keep_number(tunnel_data.version),
            router: keep_number(tunnel_data.router),
            ip: keep_text(tunnel_data.ip),
            dynamic_ip: tunnel_data.dynamic_ip,
            ip_class: keep_number(tunnel_data.ip_class),
            hostname: keep_text(tunnel_data.hostname),
            description: keep_text(tunnel_data.description),
            source: keep_text(tunnel_data.source),
            cost: keep_number(tunnel_data.cost),
            tunnel_type: keep_text(tunnel_data.tunnel_type),
            topology_type: keep_text(tunnel_data.topology_type),
        }
    }
}

impl Tunnel {
    /// Every tunnel, in ascending order of id.
    pub fn all(store: &Store) -> (out: Result<Vec<TunnelResponse>, Status>)
        ensures
            listed::<Tunnel, TunnelResponse>(*store, out),
    {
        rows_response(Ok(store.tunnels.all()))
    }

    /// The first tunnel that the key selects, or "not found".
    pub fn get(store: &Store, id_or_router: &IdOrRouter) -> (out: Result<TunnelResponse, Status>)
        ensures
            got_one::<Tunnel, TunnelResponse>(*store, *id_or_router, out),
    {
        first_response(store.tunnels.first(id_or_router))
    }

    /// Adds a tunnel and returns it with its new id.
    pub fn add(store: &mut Store, tunnel_data: TunnelAddRequest) -> (out: Result<
        TunnelResponse,
        Status,
    >)
        requires
            old(store).wf(),
        ensures
            final(store).wf(),
            added::<Tunnel, TunnelResponse>(
                *old(store),
                new_tunnel(tunnel_data),
                *final(store),
                out,
            ),
    {
        row_response(store.insert_tunnel(NewTunnel::of(tunnel_data)))
    }

    /// Changes the fields of a tunnel that the request names and returns the
    /// tunnel as it then stands.
    pub fn update(store: &mut Store, tunnel_data: TunnelUpdateRequest) -> (out: Result<
        TunnelResponse,
        Status,
    >)
        requires
            old(store).wf(),
        ensures
            final(store).wf(),
            updated::<Tunnel, TunnelResponse>(
                *old(store),
                tunnel_data.id,
                tunnel_patch(tunnel_data),
                *final(store),
                out,
            ),
    {
        let id = tunnel_data.id;
        let update = UpdateTunnel::of(tunnel_data);
        if update.is_empty() {
            return Err(nothing_to_update());
        }
        row_response(store.update_tunnel(id, &update))
    }

    /// Deletes the tunnels that the key selects and returns how many they were.
    pub fn delete(store: &mut Store, id_or_router: IdOrRouter) -> (out: Result<usize, Status>)
        requires
            old(store).wf(),
        ensures
            final(store).wf(),
            deleted::<Tunnel>(*old(store), id_or_router, *final(store), out),
    {
        count_response(store.delete_tunnels(&id_or_router))
    }
}

} // verus!
