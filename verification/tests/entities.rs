use tunnel_manager::api::{
    AgentData, AgentRequest, IdOrAgent, IdOrName, IdOrRouter, IdPermissionOrUserid, IdUuidOrOwner,
    PermissionData, PermissionMembershipData, PermissionMembershipRequest, PermissionRequest,
    RouterAddRequest, RouterRequest, RouterResponse, RouterUpdateRequest, TunnelAddRequest,
    TunnelRequest, TunnelResponse, TunnelUpdateRequest, UserAddRequest,
};
use tunnel_manager::error::Code;
use tunnel_manager::handlers::{
    agents, permission_membership, permissions, routers, tunnels, users,
};
use tunnel_manager::storage::agents::Agent;
use tunnel_manager::storage::permission_membership::PermissionMembership;
use tunnel_manager::storage::permissions::Permission;
use tunnel_manager::storage::routers::Router;
use tunnel_manager::storage::tunnels::Tunnel;
use tunnel_manager::store::Store;

fn agent(uuid: &str, owner: i32) -> AgentData {
    AgentData { id: None, uuid: uuid.to_string(), description: None, owner }
}

fn router(agent: i32) -> RouterAddRequest {
    RouterAddRequest {
        agent,
        snmp_community: Some("public".to_string()),
        ssh_username: None,
        ssh_password: None,
        conn_type: Some("ssh".to_string()),
        router_type: None,
    }
}

fn tunnel(router: i32) -> TunnelAddRequest {
    TunnelAddRequest {
        version: Some(2),
        router,
        ip: "10.0.0.1".to_string(),
        dynamic_ip: None,
        ip_class: Some(24),
        hostname: "edge".to_string(),
        description: "to the edge".to_string(),
        source: "eth0".to_string(),
        cost: None,
        tunnel_type: Some("gre".to_string()),
        topology_type: None,
    }
}

fn no_tunnel_changes(id: i32) -> TunnelUpdateRequest {
    TunnelUpdateRequest {
        id,
        version: None,
        router: None,
        ip: None,
        dynamic_ip: None,
        ip_class: None,
        hostname: None,
        description: None,
        source: None,
        cost: None,
        tunnel_type: None,
        topology_type: None,
    }
}

fn permission(name: &str, description: &str) -> PermissionData {
    PermissionData { id: 0, name: name.to_string(), description: description.to_string() }
}

fn membership(permission: i32, user_id: i32) -> PermissionMembershipData {
    PermissionMembershipData { id: None, permission, user_id }
}

/// A store with one user, one agent, one router and one tunnel, each with id 1.
fn chain() -> Store {
    let mut store = Store::new();
    users::add(&mut store, UserAddRequest { email: "a@example.com".to_string() }).unwrap();
    agents::add(&mut store, agent("u1", 1)).unwrap();
    routers::add(&mut store, router(1)).unwrap();
    tunnels::add(&mut store, tunnel(1)).unwrap();
    store
}

#[test]
fn agent_add_checks_required_fields() {
    let mut store = chain();
    let status = agents::add(&mut store, agent("", 1)).unwrap_err();
    assert_eq!((status.code, status.message.as_str()), (Code::InvalidArgument, "uuid is required"));
    let status = agents::add(&mut store, agent("u2", 0)).unwrap_err();
    assert_eq!((status.code, status.message.as_str()), (Code::InvalidArgument, "owner is required"));
    assert_eq!(store.agents.rows.len(), 1);
}

#[test]
fn agent_add_stores_empty_description_when_none_is_given() {
    let store = chain();
    assert_eq!(store.agents.rows[0].description, "");
    let found = Agent::get(&store, &IdUuidOrOwner::Id(1)).unwrap();
    assert_eq!(found.len(), 1);
    assert_eq!(found[0].description, Some(String::new()));
}

#[test]
fn agent_add_with_unknown_owner_is_refused() {
    let mut store = chain();
    let status = agents::add(&mut store, agent("u2", 9)).unwrap_err();
    assert_eq!(status.code, Code::Internal);
    assert_eq!(status.message, "insert or update violates foreign key constraint");
    assert_eq!(store.agents.rows.len(), 1);
    assert_eq!(store.agents.last_id, 1);
}

#[test]
fn agent_get_returns_every_match_in_order() {
    let mut store = chain();
    agents::add(&mut store, agent("u2", 1)).unwrap();
    agents::add(&mut store, agent("u3", 1)).unwrap();
    let owned =
        agents::get(&store, AgentRequest { id_uuid_or_owner: Some(IdUuidOrOwner::Owner(1)) })
            .unwrap();
    let ids: Vec<Option<i32>> = owned.agents.iter().map(|a| a.id).collect();
    assert_eq!(ids, vec![Some(1), Some(2), Some(3)]);
    let one = agents::get(
        &store,
        AgentRequest { id_uuid_or_owner: Some(IdUuidOrOwner::Uuid("u2".to_string())) },
    )
    .unwrap();
    assert_eq!(one.agents.len(), 1);
    assert_eq!(one.agents[0].id, Some(2));
    let none = agents::get(
        &store,
        AgentRequest { id_uuid_or_owner: Some(IdUuidOrOwner::Uuid("u9".to_string())) },
    )
    .unwrap();
    assert!(none.agents.is_empty());
    let none =
        agents::get(&store, AgentRequest { id_uuid_or_owner: Some(IdUuidOrOwner::Owner(9)) })
            .unwrap();
    assert!(none.agents.is_empty());
    let by_id =
        agents::get(&store, AgentRequest { id_uuid_or_owner: Some(IdUuidOrOwner::Id(3)) }).unwrap();
    assert_eq!(by_id.agents.len(), 1);
    assert_eq!(by_id.agents[0].uuid, "u3");
    let status = agents::get(&store, AgentRequest { id_uuid_or_owner: Some(IdUuidOrOwner::Id(9)) })
        .unwrap_err();
    assert_eq!((status.code, status.message.as_str()), (Code::NotFound, "not found"));
    let status = Agent::get(&store, &IdUuidOrOwner::Id(9)).unwrap_err();
    assert_eq!(status.code, Code::NotFound);
    assert_eq!(Agent::found(&IdUuidOrOwner::Id(9), Vec::new()).unwrap_err().code, Code::NotFound);
    assert!(Agent::found(&IdUuidOrOwner::Owner(9), Vec::new()).unwrap().is_empty());
    let status = agents::get(&store, AgentRequest { id_uuid_or_owner: None }).unwrap_err();
    assert_eq!(status.message, "Agent id, uuid or owner required");
}

#[test]
fn agent_update_treats_empty_and_zero_as_unchanged() {
    let mut store = chain();
    let request = AgentData {
        id: Some(1),
        uuid: String::new(),
        description: Some("rack 4".to_string()),
        owner: 0,
    };
    let changed = agents::update(&mut store, request).unwrap();
    assert_eq!(changed.uuid, "u1");
    assert_eq!(changed.description, Some("rack 4".to_string()));
    assert_eq!(changed.owner, 1);

    let request = AgentData { id: Some(1), uuid: String::new(), description: None, owner: 0 };
    let status = agents::update(&mut store, request).unwrap_err();
    assert_eq!((status.code, status.message.as_str()), (Code::InvalidArgument, "nothing to update"));

    let request = AgentData { id: None, uuid: "u9".to_string(), description: None, owner: 0 };
    let status = agents::update(&mut store, request).unwrap_err();
    assert_eq!((status.code, status.message.as_str()), (Code::InvalidArgument, "Agent id required"));

    let request = AgentData { id: Some(1), uuid: String::new(), description: None, owner: 5 };
    let status = agents::update(&mut store, request).unwrap_err();
    assert_eq!(status.code, Code::Internal);
    assert_eq!(store.agents.rows[0].owner, 1);
    assert_eq!(store.agents.rows[0].description, "rack 4");
}

#[test]
fn delete_of_referenced_rows_is_refused() {
    let mut store = chain();
    let status = users::delete(
        &mut store,
        tunnel_manager::api::UserRequest {
            id_or_email: Some(tunnel_manager::api::IdOrEmail::Id(1)),
        },
    )
    .unwrap_err();
    assert_eq!(status.code, Code::Internal);
    assert_eq!(status.message, "update or delete violates foreign key constraint");
    assert_eq!(store.users.rows.len(), 1);

    let status = Agent::delete(&mut store, IdUuidOrOwner::Owner(1)).unwrap_err();
    assert_eq!(status.code, Code::Internal);
    let status = Router::delete(&mut store, IdOrAgent::Agent(1)).unwrap_err();
    assert_eq!(status.code, Code::Internal);

    assert_eq!(Tunnel::delete(&mut store, IdOrRouter::Router(1)).unwrap(), 1);
    assert_eq!(Router::delete(&mut store, IdOrAgent::Agent(1)).unwrap(), 1);
    assert_eq!(Agent::delete(&mut store, IdUuidOrOwner::Owner(1)).unwrap(), 1);
    assert_eq!(
        tunnel_manager::storage::users::User::delete(
            &mut store,
            tunnel_manager::api::IdOrEmail::Id(1)
        )
        .unwrap(),
        1
    );
    assert!(store.users.rows.is_empty());
}

#[test]
fn router_add_get_update_delete() {
    let mut store = chain();
    let status = routers::add(&mut store, router(0)).unwrap_err();
    assert_eq!((status.code, status.message.as_str()), (Code::InvalidArgument, "agent is required"));
    let status = routers::add(&mut store, router(4)).unwrap_err();
    assert_eq!(status.code, Code::Internal);

    let second = routers::add(&mut store, router(1)).unwrap();
    assert_eq!(second.id, Some(2));
    assert_eq!(second.agent, Some(1));
    assert_eq!(second.snmp_community, Some("public".to_string()));
    assert_eq!(second.ssh_username, Some(String::new()));
    assert_eq!(second.conn_type, Some("ssh".to_string()));

    let first =
        routers::get(&store, RouterRequest { id_or_agent: Some(IdOrAgent::Agent(1)) }).unwrap();
    assert_eq!(first.id, Some(1));
    let status =
        routers::get(&store, RouterRequest { id_or_agent: Some(IdOrAgent::Id(8)) }).unwrap_err();
    assert_eq!(status.code, Code::NotFound);
    let status = routers::get(&store, RouterRequest { id_or_agent: None }).unwrap_err();
    assert_eq!(status.message, "Router id or agent required");

    let request = RouterUpdateRequest {
        id: 2,
        agent: None,
        snmp_community: None,
        ssh_username: Some("admin".to_string()),
        ssh_password: None,
        conn_type: None,
        router_type: None,
    };
    let changed = routers::update(&mut store, request).unwrap();
    assert_eq!(changed.ssh_username, Some("admin".to_string()));
    assert_eq!(changed.snmp_community, Some("public".to_string()));
    assert_eq!(changed.ssh_password, Some(String::new()));
    assert_eq!(store.routers.rows[0].ssh_username, Some(String::new()));

    let request = RouterUpdateRequest {
        id: 0,
        agent: Some(1),
        snmp_community: None,
        ssh_username: None,
        ssh_password: None,
        conn_type: None,
        router_type: None,
    };
    assert_eq!(routers::update(&mut store, request).unwrap_err().message, "Router id required");
    let request = RouterUpdateRequest {
        id: 0,
        agent: Some(1),
        snmp_community: None,
        ssh_username: None,
        ssh_password: None,
        conn_type: None,
        router_type: None,
    };
    assert_eq!(Router::update(&mut store, request).unwrap_err().message, "Router id is required");

    let blank =
        routers::delete(&mut store, RouterRequest { id_or_agent: Some(IdOrAgent::Id(2)) }).unwrap();
    assert_eq!(blank.id, None);
    assert_eq!(store.routers.rows.len(), 1);
    assert!(routers::list(&store).unwrap().routers.len() == 1);
}

#[test]
fn tunnel_add_checks_required_fields_in_order() {
    let mut store = chain();
    let mut request = tunnel(0);
    request.ip = String::new();
    assert_eq!(tunnels::add(&mut store, request).unwrap_err().message, "router is required");
    let mut request = tunnel(1);
    request.ip = String::new();
    request.hostname = String::new();
    assert_eq!(tunnels::add(&mut store, request).unwrap_err().message, "ip is required");
    let mut request = tunnel(1);
    request.hostname = String::new();
    assert_eq!(tunnels::add(&mut store, request).unwrap_err().message, "hostname is required");
    let mut request = tunnel(1);
    request.description = String::new();
    assert_eq!(tunnels::add(&mut store, request).unwrap_err().message, "description is required");
    let mut request = tunnel(1);
    request.source = String::new();
    let status = tunnels::add(&mut store, request).unwrap_err();
    assert_eq!((status.code, status.message.as_str()), (Code::InvalidArgument, "source is required"));
    assert_eq!(store.tunnels.rows.len(), 1);
}

#[test]
fn tunnel_add_fills_defaults_and_update_changes_named_fields() {
    let mut store = chain();
    let made = tunnels::get(&store, TunnelRequest { id_or_router: Some(IdOrRouter::Id(1)) }).unwrap();
    assert_eq!(made.version, 2);
    assert_eq!(made.router, 1);
    assert_eq!(made.ip, "10.0.0.1");
    assert!(!made.dynamic_ip);
    assert_eq!(made.ip_class, 24);
    assert_eq!(made.hostname, "edge");
    assert_eq!(made.description, "to the edge");
    assert_eq!(made.source, "eth0");
    assert_eq!(made.cost, 0);
    assert_eq!(made.tunnel_type, "gre");
    assert_eq!(made.topology_type, "");

    let mut request = no_tunnel_changes(1);
    request.cost = Some(10);
    request.dynamic_ip = Some(true);
    request.topology_type = Some("mesh".to_string());
    let changed = tunnels::update(&mut store, request).unwrap();
    assert_eq!(changed.cost, 10);
    assert!(changed.dynamic_ip);
    assert_eq!(changed.topology_type, "mesh");
    assert_eq!(changed.version, 2);
    assert_eq!(changed.ip, "10.0.0.1");
    assert_eq!(changed.hostname, "edge");
    assert_eq!(changed.tunnel_type, "gre");

    let status = tunnels::update(&mut store, no_tunnel_changes(1)).unwrap_err();
    assert_eq!((status.code, status.message.as_str()), (Code::InvalidArgument, "nothing to update"));
    let mut request = no_tunnel_changes(1);
    request.router = Some(3);
    assert_eq!(tunnels::update(&mut store, request).unwrap_err().code, Code::Internal);
    let mut request = no_tunnel_changes(5);
    request.cost = Some(1);
    assert_eq!(tunnels::update(&mut store, request).unwrap_err().code, Code::NotFound);

    let status = tunnels::get(&store, TunnelRequest { id_or_router: None }).unwrap_err();
    assert_eq!(status.message, "Tunnel id, uuid or owner required");
    let status = tunnels::delete(&mut store, TunnelRequest { id_or_router: None }).unwrap_err();
    assert_eq!(status.message, "Tunnel id or email required");
    tunnels::delete(&mut store, TunnelRequest { id_or_router: Some(IdOrRouter::Router(1)) }).unwrap();
    let status =
        tunnels::get(&store, TunnelRequest { id_or_router: Some(IdOrRouter::Router(1)) }).unwrap_err();
    assert_eq!(status.code, Code::NotFound);
    assert!(tunnels::list(&store).unwrap().tunnels.is_empty());
}

#[test]
fn permission_add_get_update_delete() {
    let mut store = Store::new();
    assert!(permissions::list(&store).unwrap().permissions.is_empty());
    let status = permissions::add(&mut store, permission("", "reads")).unwrap_err();
    assert_eq!(status.message, "Permission name is required");
    let status = permissions::add(&mut store, permission("read", "")).unwrap_err();
    assert_eq!(status.message, "Permission description is required");

    let made = permissions::add(&mut store, permission("read", "may read")).unwrap();
    assert_eq!((made.id, made.name.as_str(), made.description.as_str()), (1, "read", "may read"));
    let status = permissions::add(&mut store, permission("read", "again")).unwrap_err();
    assert_eq!(status.code, Code::Internal);
    assert_eq!(store.permissions.rows.len(), 1);
    assert_eq!(store.permissions.rows[0].description, "may read");

    let found = permissions::get(
        &store,
        PermissionRequest { id_or_name: Some(IdOrName::Name("read".to_string())) },
    )
    .unwrap();
    assert_eq!(found.id, 1);
    let status = permissions::get(&store, PermissionRequest { id_or_name: None }).unwrap_err();
    assert_eq!(status.message, "Permission id or name required");

    let request = PermissionData { id: 1, name: String::new(), description: "reads all".to_string() };
    let changed = permissions::update(&mut store, request).unwrap();
    assert_eq!((changed.name.as_str(), changed.description.as_str()), ("read", "reads all"));
    let request = PermissionData { id: 1, name: String::new(), description: String::new() };
    let status = permissions::update(&mut store, request).unwrap_err();
    assert_eq!((status.code, status.message.as_str()), (Code::InvalidArgument, "name and/or description required"));

    let blank = Permission::default();
    assert_eq!((blank.id, blank.name.as_str(), blank.description.as_str()), (0, "", ""));
    assert_eq!(Permission::delete(&mut store, IdOrName::Id(1)).unwrap(), 1);
    let status = Permission::get(&store, &IdOrName::Id(1)).unwrap_err();
    assert_eq!(status.code, Code::NotFound);
}

#[test]
fn membership_add_get_update_delete() {
    let mut store = chain();
    permissions::add(&mut store, permission("read", "may read")).unwrap();
    permissions::add(&mut store, permission("write", "may write")).unwrap();

    let status = permission_membership::add(&mut store, membership(0, 1)).unwrap_err();
    assert_eq!(status.message, "permission is required");
    let status = permission_membership::add(&mut store, membership(1, 0)).unwrap_err();
    assert_eq!(status.message, "user id is required");
    let status = permission_membership::add(&mut store, membership(3, 1)).unwrap_err();
    assert_eq!(status.code, Code::Internal);
    let status = permission_membership::add(&mut store, membership(1, 2)).unwrap_err();
    assert_eq!(status.code, Code::Internal);

    let first = permission_membership::add(&mut store, membership(1, 1)).unwrap();
    let second = permission_membership::add(&mut store, membership(2, 1)).unwrap();
    assert_eq!((first.id, second.id), (Some(1), Some(2)));

    let held = permission_membership::get_user_permissions(
        &store,
        PermissionMembershipRequest {
            id_permission_or_userid: Some(IdPermissionOrUserid::UserId(1)),
        },
    )
    .unwrap();
    assert_eq!(held.memberships.len(), 2);
    let members = permission_membership::get_permission_members(
        &store,
        PermissionMembershipRequest {
            id_permission_or_userid: Some(IdPermissionOrUserid::Permission(2)),
        },
    )
    .unwrap();
    assert_eq!(members.memberships.len(), 1);
    assert_eq!(members.memberships[0].id, Some(2));
    let status = permission_membership::get_permission_members(
        &store,
        PermissionMembershipRequest { id_permission_or_userid: None },
    )
    .unwrap_err();
    assert_eq!(status.message, "PermissionMembership id, uuid or owner required");

    let status = Permission::delete(&mut store, IdOrName::Id(2)).unwrap_err();
    assert_eq!(status.code, Code::Internal);

    let request = PermissionMembershipData { id: Some(2), permission: 1, user_id: 0 };
    let changed = permission_membership::update(&mut store, request).unwrap();
    assert_eq!((changed.permission, changed.user_id), (1, 1));
    let request = PermissionMembershipData { id: Some(2), permission: 0, user_id: 0 };
    let status = permission_membership::update(&mut store, request).unwrap_err();
    assert_eq!(status.message, "nothing to update");
    let request = PermissionMembershipData { id: None, permission: 1, user_id: 1 };
    let status = permission_membership::update(&mut store, request).unwrap_err();
    assert_eq!(status.message, "PermissionMembership id required");

    assert_eq!(
        PermissionMembership::delete(&mut store, IdPermissionOrUserid::Permission(1)).unwrap(),
        2
    );
    let left = PermissionMembership::get(&store, &IdPermissionOrUserid::Permission(1)).unwrap();
    assert!(left.is_empty());
    assert!(permission_membership::list(&store).unwrap().memberships.is_empty());
    assert_eq!(Permission::delete(&mut store, IdOrName::Id(2)).unwrap(), 1);
}

#[test]
fn ids_run_out_at_the_largest_number() {
    let mut store = Store::new();
    store.users.last_id = i32::MAX - 1;
    let last = users::add(&mut store, UserAddRequest { email: "a@example.com".to_string() }).unwrap();
    assert_eq!(last.id, i32::MAX);
    let status =
        users::add(&mut store, UserAddRequest { email: "b@example.com".to_string() }).unwrap_err();
    assert_eq!(status.code, Code::Internal);
    assert_eq!(status.message, "reached maximum value of sequence");
    assert_eq!(store.users.rows.len(), 1);
}

#[test]
fn checks_and_keys_stand_alone() {
    assert!(users::check_add(&UserAddRequest { email: "a@example.com".to_string() }).is_none());
    let status = users::check_add(&UserAddRequest { email: String::new() }).unwrap();
    assert_eq!((status.code, status.message.as_str()), (Code::InvalidArgument, "email is required"));
    let status = agents::check_update(&agent("u1", 1)).unwrap();
    assert_eq!(status.message, "Agent id required");
    assert!(tunnels::check_add(&tunnel(1)).is_none());
    assert_eq!(tunnels::check_add(&tunnel(0)).unwrap().message, "router is required");
    let key = routers::lookup_key(RouterRequest { id_or_agent: Some(IdOrAgent::Agent(3)) }).unwrap();
    assert!(matches!(key, IdOrAgent::Agent(3)));
    let status = agents::delete_key(AgentRequest { id_uuid_or_owner: None }).unwrap_err();
    assert_eq!(status.message, "Agent id or email required");
    let status = permissions::delete_key(PermissionRequest { id_or_name: None }).unwrap_err();
    assert_eq!(status.message, "Permission id or name required");
    let status = permission_membership::delete_key(PermissionMembershipRequest {
        id_permission_or_userid: None,
    })
    .unwrap_err();
    assert_eq!(status.message, "PermissionMembership id or email required");
    let row = permissions::row_of(permission("read", "may read"));
    assert_eq!((row.id, row.name.as_str()), (0, "read"));
}

#[test]
fn requests_become_inserts_and_updates() {
    let update = tunnel_manager::storage::agents::UpdateAgent::of(AgentData {
        id: Some(4),
        uuid: String::new(),
        description: Some(String::new()),
        owner: 7,
    });
    assert_eq!(update.uuid, None);
    assert_eq!(update.description, None);
    assert_eq!(update.owner, Some(7));
    assert!(!update.is_empty());

    let update = tunnel_manager::storage::permissions::UpdatePermission::of(Permission {
        id: 1,
        name: "read".to_string(),
        description: String::new(),
    });
    assert_eq!(update.name, Some("read".to_string()));
    assert_eq!(update.description, None);

    let update = tunnel_manager::storage::permission_membership::UpdatePermissionMembership::of(
        &membership(0, 3),
    );
    assert_eq!((update.permission, update.user_id), (None, Some(3)));

    let new = tunnel_manager::storage::tunnels::NewTunnel::of(tunnel(2));
    assert_eq!((new.version, new.router, new.cost), (Some(2), 2, None));
    let new = tunnel_manager::storage::routers::NewRouter::of(router(5));
    assert_eq!((new.agent, new.ssh_username), (5, None));
}

#[test]
fn listing_follows_the_ids() {
    let mut store = chain();
    agents::add(&mut store, agent("u2", 1)).unwrap();
    agents::add(&mut store, agent("u3", 1)).unwrap();
    assert_eq!(Agent::delete(&mut store, IdUuidOrOwner::Uuid("u2".to_string())).unwrap(), 1);
    agents::add(&mut store, agent("u4", 1)).unwrap();
    let listed = agents::list(&store).unwrap();
    let ids: Vec<Option<i32>> = listed.agents.iter().map(|a| a.id).collect();
    assert_eq!(ids, vec![Some(1), Some(3), Some(4)]);
}

#[test]
fn rows_convert_to_messages() {
    let shown = AgentData::from(Agent {
        id: 3,
        uuid: "u3".to_string(),
        description: "rack".to_string(),
        owner: 2,
    });
    assert_eq!(shown.id, Some(3));
    assert_eq!(shown.uuid, "u3");
    assert_eq!(shown.description, Some("rack".to_string()));
    assert_eq!(shown.owner, 2);

    let shown = RouterResponse::from(Router {
        id: 4,
        agent: 3,
        snmp_community: None,
        ssh_username: Some("admin".to_string()),
        ssh_password: None,
        conn_type: None,
        router_type: None,
    });
    assert_eq!((shown.id, shown.agent), (Some(4), Some(3)));
    assert_eq!(shown.snmp_community, None);
    assert_eq!(shown.ssh_username, Some("admin".to_string()));

    let shown = PermissionData::from(Permission {
        id: 5,
        name: "read".to_string(),
        description: "may read".to_string(),
    });
    assert_eq!((shown.id, shown.name.as_str(), shown.description.as_str()), (5, "read", "may read"));

    let shown =
        PermissionMembershipData::from(PermissionMembership { id: 6, permission: 5, user_id: 1 });
    assert_eq!((shown.id, shown.permission, shown.user_id), (Some(6), 5, 1));

    let shown = TunnelResponse::from(Tunnel {
        id: 7,
        version: 1,
        router: 4,
        ip: "10.0.0.9".to_string(),
        dynamic_ip: true,
        ip_class: 8,
        hostname: "h".to_string(),
        description: "d".to_string(),
        source: "s".to_string(),
        cost: 3,
        tunnel_type: "gre".to_string(),
        topology_type: "hub".to_string(),
    });
    assert_eq!((shown.id, shown.version, shown.router, shown.ip_class, shown.cost), (7, 1, 4, 8, 3));
    assert!(shown.dynamic_ip);
    assert_eq!(shown.ip, "10.0.0.9");
    assert_eq!(shown.topology_type, "hub");
}

#[test]
fn membership_lookup_by_id_of_no_row_is_not_found() {
    let mut store = chain();
    permissions::add(&mut store, permission("read", "may read")).unwrap();
    permission_membership::add(&mut store, membership(1, 1)).unwrap();

    let found = permission_membership::get_permission_members(
        &store,
        PermissionMembershipRequest { id_permission_or_userid: Some(IdPermissionOrUserid::Id(1)) },
    )
    .unwrap();
    assert_eq!(found.memberships.len(), 1);
    assert_eq!(found.memberships[0].id, Some(1));

    let status = permission_membership::get_permission_members(
        &store,
        PermissionMembershipRequest { id_permission_or_userid: Some(IdPermissionOrUserid::Id(4)) },
    )
    .unwrap_err();
    assert_eq!((status.code, status.message.as_str()), (Code::NotFound, "not found"));
    let status = permission_membership::get_user_permissions(
        &store,
        PermissionMembershipRequest { id_permission_or_userid: Some(IdPermissionOrUserid::Id(4)) },
    )
    .unwrap_err();
    assert_eq!(status.code, Code::NotFound);
    let status = PermissionMembership::get(&store, &IdPermissionOrUserid::Id(4)).unwrap_err();
    assert_eq!(status.code, Code::NotFound);

    let none = permission_membership::get_user_permissions(
        &store,
        PermissionMembershipRequest {
            id_permission_or_userid: Some(IdPermissionOrUserid::UserId(4)),
        },
    )
    .unwrap();
    assert!(none.memberships.is_empty());
    let none = PermissionMembership::get(&store, &IdPermissionOrUserid::Permission(4)).unwrap();
    assert!(none.is_empty());
    let status =
        PermissionMembership::found(&IdPermissionOrUserid::Id(4), Vec::new()).unwrap_err();
    assert_eq!(status.code, Code::NotFound);
}

#[test]
fn zero_and_empty_in_an_update_mean_leave_alone() {
    let mut store = chain();
    let mut request = no_tunnel_changes(1);
    request.cost = Some(5);
    tunnels::update(&mut store, request).unwrap();

    let mut request = no_tunnel_changes(1);
    request.version = Some(7);
    request.cost = Some(0);
    request.hostname = Some(String::new());
    request.dynamic_ip = Some(true);
    let changed = tunnels::update(&mut store, request).unwrap();
    assert_eq!(changed.version, 7);
    assert_eq!(changed.cost, 5);
    assert_eq!(changed.hostname, "edge");
    assert!(changed.dynamic_ip);
    assert_eq!(changed.router, 1);
    assert_eq!(changed.ip, "10.0.0.1");

    let mut request = no_tunnel_changes(1);
    request.dynamic_ip = Some(false);
    assert!(!tunnels::update(&mut store, request).unwrap().dynamic_ip);

    let mut request = no_tunnel_changes(1);
    request.cost = Some(0);
    request.ip = Some(String::new());
    request.router = Some(0);
    let status = tunnels::update(&mut store, request).unwrap_err();
    assert_eq!((status.code, status.message.as_str()), (Code::InvalidArgument, "nothing to update"));
    assert_eq!(store.tunnels.rows[0].cost, 5);
    assert_eq!(store.tunnels.rows[0].ip, "10.0.0.1");

    let request = RouterUpdateRequest {
        id: 1,
        agent: Some(0),
        snmp_community: Some(String::new()),
        ssh_username: Some("admin".to_string()),
        ssh_password: None,
        conn_type: Some(String::new()),
        router_type: None,
    };
    let changed = routers::update(&mut store, request).unwrap();
    assert_eq!(changed.agent, Some(1));
    assert_eq!(changed.snmp_community, Some("public".to_string()));
    assert_eq!(changed.ssh_username, Some("admin".to_string()));
    assert_eq!(changed.conn_type, Some("ssh".to_string()));
    let request = RouterUpdateRequest {
        id: 1,
        agent: Some(0),
        snmp_community: Some(String::new()),
        ssh_username: None,
        ssh_password: None,
        conn_type: None,
        router_type: None,
    };
    let status = routers::update(&mut store, request).unwrap_err();
    assert_eq!((status.code, status.message.as_str()), (Code::InvalidArgument, "nothing to update"));

    let request = AgentData {
        id: Some(1),
        uuid: "u1b".to_string(),
        description: Some(String::new()),
        owner: 0,
    };
    agents::update(&mut store, AgentData {
        id: Some(1),
        uuid: String::new(),
        description: Some("rack 4".to_string()),
        owner: 0,
    })
    .unwrap();
    let changed = agents::update(&mut store, request).unwrap();
    assert_eq!(changed.uuid, "u1b");
    assert_eq!(changed.description, Some("rack 4".to_string()));
    let request =
        AgentData { id: Some(1), uuid: String::new(), description: Some(String::new()), owner: 0 };
    let status = agents::update(&mut store, request).unwrap_err();
    assert_eq!(status.message, "nothing to update");

    let request = tunnel_manager::api::UserUpdateRequest { id: 1, email: Some(String::new()) };
    let status = users::update(&mut store, request).unwrap_err();
    assert_eq!((status.code, status.message.as_str()), (Code::InvalidArgument, "nothing to update"));
    assert_eq!(store.users.rows[0].email, "a@example.com");
}
