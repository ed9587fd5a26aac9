//! The messages of the service: what a caller sends and what it gets back.
//! A lookup names a row by exactly one of the entity's alternate keys.

use vstd::prelude::*;

verus! {

/// Names users by id or by email.
#[derive(Debug)]
pub enum IdOrEmail {
    Id(i32),
    Email(String),
}

/// A lookup or delete request for users. A request without a key is invalid.
#[derive(Debug)]
pub struct UserRequest {
    pub id_or_email: Option<IdOrEmail>,
}

/// The fields of a user to add.
#[derive(Debug)]
pub struct UserAddRequest {
    pub email: String,
}

/// A partial update of the user with the given id: a field that is not
/// given, or is given as zero or as the empty text, means "leave alone".
#[derive(Debug)]
pub struct UserUpdateRequest {
    pub id: i32,
    pub email: Option<String>,
}

/// A user as callers see it.
#[derive(Debug)]
pub struct UserResponse {
    pub id: i32,
    pub email: String,
}

/// The answer to a list request for users.
#[derive(Debug)]
pub struct UsersResponse {
    pub users: Vec<UserResponse>,
}

/// Names agents by id, by uuid or by owner.
#[derive(Debug)]
pub enum IdUuidOrOwner {
    Id(i32),
    Uuid(String),
    Owner(i32),
}

/// A lookup or delete request for agents. A request without a key is invalid.
#[derive(Debug)]
pub struct AgentRequest {
    pub id_uuid_or_owner: Option<IdUuidOrOwner>,
}

/// An agent as callers send and see it. In an add request the id is not
/// read; in an update request an empty uuid and an owner of zero mean "leave
/// alone", and so does a description that is not given or is given empty.
#[derive(Debug)]
pub struct AgentData {
    pub id: Option<i32>,
    pub uuid: String,
    pub description: Option<String>,
    pub owner: i32,
}

/// The answer to a list or get request for agents.
#[derive(Debug)]
pub struct AgentsData {
    pub agents: Vec<AgentData>,
}

/// Names routers by id or by agent.
#[derive(Debug)]
pub enum IdOrAgent {
    Id(i32),
    Agent(i32),
}

/// A lookup or delete request for routers. A request without a key is invalid.
#[derive(Debug)]
pub struct RouterRequest {
    pub id_or_agent: Option<IdOrAgent>,
}

/// The fields of a router to add; a text that is not given is stored empty.
#[derive(Debug)]
pub struct RouterAddRequest {
    pub agent: i32,
    pub snmp_community: Option<String>,
    pub ssh_username: Option<String>,
    pub ssh_password: Option<String>,
    pub conn_type: Option<String>,
    pub router_type: Option<String>,
}

/// A partial update of the router with the given id: a field that is not
/// given, or is given as zero or as the empty text, means "leave alone".
#[derive(Debug)]
pub struct RouterUpdateRequest {
    pub id: i32,
    pub agent: Option<i32>,
    pub snmp_community: Option<String>,
    pub ssh_username: Option<String>,
    pub ssh_password: Option<String>,
    pub conn_type: Option<String>,
    pub router_type: Option<String>,
}

/// A router as callers see it.
#[derive(Debug)]
pub struct RouterResponse {
    pub id: Option<i32>,
    pub agent: Option<i32>,
    pub snmp_community: Option<String>,
    pub ssh_username: Option<String>,
    pub ssh_password: Option<String>,
    pub conn_type: Option<String>,
    pub router_type: Option<String>,
}

/// The answer to a list request for routers.
#[derive(Debug)]
pub struct RoutersResponse {
    pub routers: Vec<RouterResponse>,
}

/// Names tunnels by id or by router.
#[derive(Debug)]
pub enum IdOrRouter {
    Id(i32),
    Router(i32),
}

/// A lookup or delete request for tunnels. A request without a key is invalid.
#[derive(Debug)]
pub struct TunnelRequest {
    pub id_or_router: Option<IdOrRouter>,
}

/// The fields of a tunnel to add; an optional field that is not given is
/// stored as zero, `false` or the empty text.
#[derive(Debug)]
pub struct TunnelAddRequest {
    pub version: Option<i32>,
    pub router: i32,
    pub ip: String,
    pub dynamic_ip: Option<bool>,
    pub ip_class: Option<i32>,
    pub hostname: String,
    pub description: String,
    pub source: String,
    pub cost: Option<i32>,
    pub tunnel_type: Option<String>,
    pub topology_type: Option<String>,
}

/// A partial update of the tunnel with the given id: a field that is not
/// given, or is given as zero or as the empty text, means "leave alone". A
/// flag is set as it is given.
#[derive(Debug)]
pub struct TunnelUpdateRequest {
    pub id: i32,
    pub version: Option<i32>,
    pub router: Option<i32>,
    pub ip: Option<String>,
    pub dynamic_ip: Option<bool>,
    pub ip_class: Option<i32>,
    pub hostname: Option<String>,
    pub description: Option<String>,
    pub source: Option<String>,
    pub cost: Option<i32>,
    pub tunnel_type: Option<String>,
    pub topology_type: Option<String>,
}

/// A tunnel as callers see it.
#[derive(Debug)]
pub struct TunnelResponse {
    pub id: i32,
    pub version: i32,
    pub router: i32,
    pub ip: String,
    pub dynamic_ip: bool,
    pub ip_class: i32,
    pub hostname: String,
    pub description: String,
    pub source: String,
    pub cost: i32,
    pub tunnel_type: String,
    pub topology_type: String,
}

/// The answer to a list request for tunnels.
#[derive(Debug)]
pub struct TunnelsResponse {
    pub tunnels: Vec<TunnelResponse>,
}

/// Names permissions by id or by name.
#[derive(Debug)]
pub enum IdOrName {
    Id(i32),
    Name(String),
}

/// A lookup or delete request for permissions. A request without a key is invalid.
#[derive(Debug)]
pub struct PermissionRequest {
    pub id_or_name: Option<IdOrName>,
}

/// A permission as callers send and see it. In an add request the id is not
/// read; in an update request an empty name or description means "leave alone".
#[derive(Debug)]
pub struct PermissionData {
    pub id: i32,
    pub name: String,
    pub description: String,
}

/// The answer to a list request for permissions.
#[derive(Debug)]
pub struct PermissionsData {
    pub permissions: Vec<PermissionData>,
}

/// Names permission memberships by id, by permission or by user.
#[derive(Debug)]
pub enum IdPermissionOrUserid {
    Id(i32),
    Permission(i32),
    UserId(i32),
}

/// A lookup or delete request for permission memberships. A request without
/// a key is invalid.
#[derive(Debug)]
pub struct PermissionMembershipRequest {
    pub id_permission_or_userid: Option<IdPermissionOrUserid>,
}

/// A permission membership as callers send and see it. In an add request the
/// id is not read; in an update request a permission or user of zero means
/// "leave alone".
#[derive(Debug)]
pub struct PermissionMembershipData {
    pub id: Option<i32>,
    pub permission: i32,
    pub user_id: i32,
}

/// The answer to a list or get request for permission memberships.
#[derive(Debug)]
pub struct PermissionMembershipsData {
    pub memberships: Vec<PermissionMembershipData>,
}

impl UserResponse {
    /// Whether every field is zero, `false`, empty or absent: the message
    /// that answers a delete.
    pub open spec fn is_default(&self) -> bool {
        &&& self.id == 0
        &&& self.email@.len() == 0
    }
}

impl Default for UserResponse {
    fn default() -> (blank: UserResponse)
        ensures
            blank.is_default(),
    {
        UserResponse { id: 0, email: String::new() }
    }
}

impl AgentData {
    /// Whether every field is zero, `false`, empty or absent: the message
    /// that answers a delete.
    pub open spec fn is_default(&self) -> bool {
        &&& self.id is None
        &&& self.uuid@.len() == 0
        &&& self.description is None
        &&& self.owner == 0
    }
}

impl Default for AgentData {
    fn default() -> (blank: AgentData)
        ensures
            blank.is_default(),
    {
        AgentData { id: None, uuid: String::new(), description: None, owner: 0 }
    }
}

impl RouterResponse {
    /// Whether every field is zero, `false`, empty or absent: the message
    /// that answers a delete.
    pub open spec fn is_default(&self) -> bool {
        &&& self.id is None
        &&& self.agent is None
        &&& self.snmp_community is None
        &&& self.ssh_username is None
        &&& self.ssh_password is None
        &&& self.conn_type is None
        &&& self.router_type is None
    }
}

impl Default for RouterResponse {
    fn default() -> (blank: RouterResponse)
        ensures
            blank.is_default(),
    {
        RouterResponse {
            id: None,
            agent: None,
            snmp_community: None,
            ssh_username: None,
            ssh_password: None,
            conn_type: None,
            router_type: None,
        }
    }
}

impl TunnelResponse {
    /// Whether every field is zero, `false`, empty or absent: the message
    /// that answers a delete.
    pub open spec fn is_default(&self) -> bool {
        &&& self.id == 0
        &&& self.version == 0
        &&& self.router == 0
        &&& self.ip@.len() == 0
        &&& !self.dynamic_ip
        &&& self.ip_class == 0
        &&& self.hostname@.len() == 0
        &&& self.description@.len() == 0
        &&& self.source@.len() == 0
        &&& self.cost == 0
        &&& self.tunnel_type@.len() == 0
        &&& self.topology_type@.len() == 0
    }
}

impl Default for TunnelResponse {
    fn default() -> (blank: TunnelResponse)
        ensures
            blank.is_default(),
    {
        TunnelResponse {
            id: 0,
            version: 0,
            router: 0,
            ip: String::new(),
            dynamic_ip: false,
            ip_class: 0,
            hostname: String::new(),
            description: String::new(),
            source: String::new(),
            cost: 0,
            tunnel_type: String::new(),
            topology_type: String::new(),
        }
    }
}

impl PermissionData {
    /// Whether every field is zero, `false`, empty or absent: the message
    /// that answers a delete.
    pub open spec fn is_default(&self) -> bool {
        &&& self.id == 0
        &&& self.name@.len() == 0
        &&& self.description@.len() == 0
    }
}

impl Default for PermissionData {
    fn default() -> (blank: PermissionData)
        ensures
            blank.is_default(),
    {
        PermissionData { id: 0, name: String::new(), description: String::new() }
    }
}

impl PermissionMembershipData {
    /// Whether every field is zero, `false`, empty or absent: the message
    /// that answers a delete.
    pub open spec fn is_default(&self) -> bool {
        &&& self.id is None
        &&& self.permission == 0
        &&& self.user_id == 0
    }
}

impl Default for PermissionMembershipData {
    fn default() -> (blank: PermissionMembershipData)
        ensures
            blank.is_default(),
    {
        PermissionMembershipData { id: None, permission: 0, user_id: 0 }
    }
}

} // verus!
