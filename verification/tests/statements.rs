use tunnel_manager::api::{IdOrEmail, IdPermissionOrUserid, IdUuidOrOwner};
use tunnel_manager::mapping::{
    delete_statement, insert_statement, list_statement, select_statement, update_statement, Mapped,
};
use tunnel_manager::statement::{
    decimal, placeholder, Assignment, Column, Statement, TableName, Value,
};
use tunnel_manager::storage::agents::{Agent, NewAgent, UpdateAgent};
use tunnel_manager::storage::permission_membership::PermissionMembership;
use tunnel_manager::storage::permissions::{Permission, UpdatePermission};
use tunnel_manager::storage::routers::{NewRouter, Router};
use tunnel_manager::storage::tunnels::{NewTunnel, Tunnel, UpdateTunnel};
use tunnel_manager::storage::users::{NewUser, UpdateUser, User};

fn shown(values: &[Value]) -> Vec<String> {
    values
        .iter()
        .map(|value| match value {
            Value::Int(number) => format!("int {}", number),
            Value::Bool(flag) => format!("bool {}", flag),
            Value::Text(text) => format!("text {}", text),
        })
        .collect()
}

#[test]
fn decimal_and_placeholder_texts() {
    assert_eq!(decimal(0), "0");
    assert_eq!(decimal(7), "7");
    assert_eq!(decimal(10), "10");
    assert_eq!(decimal(12), "12");
    assert_eq!(decimal(1905), "1905");
    assert_eq!(placeholder(1), "$1");
    assert_eq!(placeholder(23), "$23");
}

#[test]
fn table_and_column_names() {
    assert_eq!(TableName::PermissionMembership.name(), "permission_membership");
    assert_eq!(TableName::Agents.name(), "agents");
    assert_eq!(Column::SnmpCommunity.name(), "snmp_community");
    assert_eq!(Column::UserId.name(), "user_id");
}

#[test]
fn list_statement_orders_by_id() {
    let statement = list_statement::<User>();
    assert_eq!(statement.sql, "SELECT * FROM users ORDER BY id");
    assert!(statement.params.is_empty());
    assert_eq!(list_statement::<PermissionMembership>().sql, "SELECT * FROM permission_membership ORDER BY id");
}

#[test]
fn select_statement_binds_the_key() {
    let statement = select_statement::<Agent>(&IdUuidOrOwner::Uuid("u1'; DROP TABLE agents".to_string()));
    assert_eq!(statement.sql, "SELECT * FROM agents WHERE uuid = $1 ORDER BY id");
    assert_eq!(shown(&statement.params), vec!["text u1'; DROP TABLE agents"]);
    let statement = select_statement::<Agent>(&IdUuidOrOwner::Owner(4));
    assert_eq!(statement.sql, "SELECT * FROM agents WHERE owner = $1 ORDER BY id");
    assert_eq!(shown(&statement.params), vec!["int 4"]);
    let statement = select_statement::<User>(&IdOrEmail::Id(2));
    assert_eq!(statement.sql, "SELECT * FROM users WHERE id = $1 ORDER BY id");
}

#[test]
fn delete_statement_binds_the_key() {
    let statement = delete_statement::<PermissionMembership>(&IdPermissionOrUserid::UserId(3));
    assert_eq!(statement.sql, "DELETE FROM permission_membership WHERE user_id = $1");
    assert_eq!(shown(&statement.params), vec!["int 3"]);
    let statement = delete_statement::<User>(&IdOrEmail::Email("a@example.com".to_string()));
    assert_eq!(statement.sql, "DELETE FROM users WHERE email = $1");
    assert_eq!(shown(&statement.params), vec!["text a@example.com"]);
}

#[test]
fn insert_statement_names_every_column_but_the_id() {
    let statement = insert_statement::<User>(&NewUser { email: "a@example.com".to_string() });
    assert_eq!(statement.sql, "INSERT INTO users (email) VALUES ($1) RETURNING *");
    assert_eq!(shown(&statement.params), vec!["text a@example.com"]);

    let new = NewAgent { uuid: "u1".to_string(), description: None, owner: 1 };
    let statement = insert_statement::<Agent>(&new);
    assert_eq!(
        statement.sql,
        "INSERT INTO agents (uuid, description, owner) VALUES ($1, $2, $3) RETURNING *"
    );
    assert_eq!(shown(&statement.params), vec!["text u1", "text ", "int 1"]);

    let new = NewRouter {
        agent: 2,
        snmp_community: Some("public".to_string()),
        ssh_username: None,
        ssh_password: None,
        conn_type: None,
        router_type: Some("edge".to_string()),
    };
    let statement = insert_statement::<Router>(&new);
    assert_eq!(
        statement.sql,
        "INSERT INTO routers (agent, snmp_community, ssh_username, ssh_password, conn_type, \
         router_type) VALUES ($1, $2, $3, $4, $5, $6) RETURNING *"
    );
    assert_eq!(
        shown(&statement.params),
        vec!["int 2", "text public", "text ", "text ", "text ", "text edge"]
    );
}

#[test]
fn insert_statement_of_a_tunnel_counts_past_nine() {
    let new = NewTunnel {
        version: None,
        router: 1,
        ip: "10.0.0.1".to_string(),
        dynamic_ip: Some(true),
        ip_class: None,
        hostname: "edge".to_string(),
        description: "d".to_string(),
        source: "eth0".to_string(),
        cost: Some(5),
        tunnel_type: None,
        topology_type: Some("mesh".to_string()),
    };
    let statement = insert_statement::<Tunnel>(&new);
    assert_eq!(
        statement.sql,
        "INSERT INTO tunnels (version, router, ip, dynamic_ip, ip_class, hostname, description, \
         source, cost, tunnel_type, topology_type) VALUES ($1, $2, $3, $4, $5, $6, $7, $8, $9, \
         $10, $11) RETURNING *"
    );
    assert_eq!(
        shown(&statement.params),
        vec![
            "int 0", "int 1", "text 10.0.0.1", "bool true", "int 0", "text edge", "text d",
            "text eth0", "int 5", "text ", "text mesh"
        ]
    );
}

#[test]
fn update_statement_sets_only_what_is_named() {
    let patch = UpdatePermission { name: None, description: Some("reads all".to_string()) };
    let statement = update_statement::<Permission>(3, &patch).expect("a field is named");
    assert_eq!(statement.sql, "UPDATE permissions SET description = $1 WHERE id = $2 RETURNING *");
    assert_eq!(shown(&statement.params), vec!["text reads all", "int 3"]);

    let patch = UpdatePermission { name: Some("read".to_string()), description: Some("x".to_string()) };
    let statement = update_statement::<Permission>(3, &patch).expect("fields are named");
    assert_eq!(
        statement.sql,
        "UPDATE permissions SET name = $1, description = $2 WHERE id = $3 RETURNING *"
    );
    assert_eq!(shown(&statement.params), vec!["text read", "text x", "int 3"]);

    let patch = UpdateAgent { uuid: None, description: None, owner: Some(2) };
    let statement = update_statement::<Agent>(1, &patch).expect("a field is named");
    assert_eq!(statement.sql, "UPDATE agents SET owner = $1 WHERE id = $2 RETURNING *");
    assert_eq!(shown(&statement.params), vec!["int 2", "int 1"]);
}

#[test]
fn update_statement_without_fields_is_none() {
    assert!(update_statement::<User>(1, &UpdateUser { email: None }).is_none());
    let patch = UpdatePermission { name: None, description: None };
    assert!(update_statement::<Permission>(1, &patch).is_none());
    assert!(Statement::update(TableName::Users, Vec::new(), 1).is_none());
}

#[test]
fn update_statement_of_every_tunnel_field() {
    let patch = UpdateTunnel {
        version: Some(3),
        router: Some(2),
        ip: Some("10.0.0.2".to_string()),
        dynamic_ip: Some(false),
        ip_class: Some(16),
        hostname: Some("core".to_string()),
        description: Some("d".to_string()),
        source: Some("eth1".to_string()),
        cost: Some(7),
        tunnel_type: Some("gre".to_string()),
        topology_type: Some("hub".to_string()),
    };
    let statement = update_statement::<Tunnel>(9, &patch).expect("fields are named");
    assert_eq!(
        statement.sql,
        "UPDATE tunnels SET version = $1, router = $2, ip = $3, dynamic_ip = $4, ip_class = $5, \
         hostname = $6, description = $7, source = $8, cost = $9, tunnel_type = $10, \
         topology_type = $11 WHERE id = $12 RETURNING *"
    );
    assert_eq!(statement.params.len(), 12);
    assert_eq!(shown(&statement.params)[11], "int 9");
}

#[test]
fn statement_builders_take_any_columns() {
    let fields = vec![
        Assignment { column: Column::Email, value: Value::Text("a".to_string()) },
        Assignment { column: Column::Id, value: Value::Int(4) },
    ];
    let statement = Statement::insert(TableName::Users, fields);
    assert_eq!(statement.sql, "INSERT INTO users (email, id) VALUES ($1, $2) RETURNING *");
    let condition = Assignment { column: Column::Email, value: Value::Text("a".to_string()) };
    let statement = Statement::select(TableName::Users, condition);
    assert_eq!(statement.sql, "SELECT * FROM users WHERE email = $1 ORDER BY id");
    let condition = Assignment { column: Column::Id, value: Value::Bool(true) };
    let statement = Statement::delete(TableName::Tunnels, condition);
    assert_eq!(statement.sql, "DELETE FROM tunnels WHERE id = $1");
    assert_eq!(shown(&statement.params), vec!["bool true"]);
    assert_eq!(Statement::list(TableName::Routers).sql, "SELECT * FROM routers ORDER BY id");
    assert_eq!(User::table(), TableName::Users);
}

#[test]
fn update_request_rejects_an_update_that_names_nothing() {
    let status = tunnel_manager::mapping::update_request::<User>(1, &UpdateUser { email: None })
        .unwrap_err();
    assert_eq!(status.code, tunnel_manager::error::Code::InvalidArgument);
    assert_eq!(status.message, "nothing to update");
    let patch = UpdateUser { email: Some("b@example.com".to_string()) };
    let statement = tunnel_manager::mapping::update_request::<User>(1, &patch).unwrap();
    assert_eq!(statement.sql, "UPDATE users SET email = $1 WHERE id = $2 RETURNING *");
    assert_eq!(shown(&statement.params), vec!["text b@example.com", "int 1"]);
    assert_eq!(tunnel_manager::error::nothing_to_update().message, "nothing to update");
    let patch = UpdatePermission { name: None, description: None };
    let status = tunnel_manager::mapping::update_request::<Permission>(1, &patch).unwrap_err();
    assert_eq!(status.code, tunnel_manager::error::Code::InvalidArgument);
    assert_eq!(status.message, "name and/or description required");
}
