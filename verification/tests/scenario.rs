use tunnel_manager::api::{
    AgentData, AgentRequest, IdOrEmail, IdUuidOrOwner, UserAddRequest, UserRequest,
};
use tunnel_manager::error::Code;
use tunnel_manager::handlers::{agents, users};
use tunnel_manager::storage::agents::Agent;
use tunnel_manager::storage::users::User;
use tunnel_manager::store::Store;

fn agent(uuid: &str, owner: i32) -> AgentData {
    AgentData { id: None, uuid: uuid.to_string(), description: None, owner }
}

#[test]
fn user_then_agent_scenario() {
    let mut store = Store::new();

    let first = users::add(&mut store, UserAddRequest { email: "a@example.com".to_string() })
        .expect("the first user is added");
    assert_eq!(first.id, 1);
    assert_eq!(first.email, "a@example.com");

    let again = users::add(&mut store, UserAddRequest { email: "a@example.com".to_string() });
    let status = again.expect_err("a second user with the same email is refused");
    assert_eq!(status.code, Code::Internal);
    assert_eq!(User::all(&store).unwrap().len(), 1);

    let made = agents::add(&mut store, agent("u1", 1)).expect("the agent is added");
    assert_eq!(made.id, Some(1));
    assert_eq!(made.uuid, "u1");
    assert_eq!(made.owner, 1);

    let owned = agents::get(
        &store,
        AgentRequest { id_uuid_or_owner: Some(IdUuidOrOwner::Owner(1)) },
    )
    .expect("a lookup by owner succeeds");
    assert_eq!(owned.agents.len(), 1);
    assert_eq!(owned.agents[0].id, Some(1));
    assert_eq!(owned.agents[0].uuid, "u1");
    assert_eq!(owned.agents[0].owner, 1);

    let removed = Agent::delete(&mut store, IdUuidOrOwner::Uuid("u1".to_string()))
        .expect("the delete succeeds");
    assert_eq!(removed, 1);

    let gone = agents::get(
        &store,
        AgentRequest { id_uuid_or_owner: Some(IdUuidOrOwner::Uuid("u1".to_string())) },
    )
    .expect("a lookup by uuid succeeds");
    assert!(gone.agents.is_empty());
}

#[test]
fn lookup_without_key_is_rejected() {
    let store = Store::new();
    let status = users::get(&store, UserRequest { id_or_email: None })
        .expect_err("a request without a key is rejected");
    assert_eq!(status.code, Code::InvalidArgument);
    assert_eq!(status.message, "User id or email required");
    let found = users::get(&store, UserRequest { id_or_email: Some(IdOrEmail::Id(1)) });
    assert_eq!(found.expect_err("the table is empty").code, Code::NotFound);
}
