use tunnel_manager::api::{
    IdOrEmail, UserAddRequest, UserRequest, UserResponse, UserUpdateRequest,
};
use tunnel_manager::error::Code;
use tunnel_manager::handlers::users;
use tunnel_manager::storage::users::{User, Users};
use tunnel_manager::store::Store;

fn add_user(store: &mut Store, email: &str) -> UserResponse {
    users::add(store, UserAddRequest { email: email.to_string() }).expect("the user is added")
}

#[test]
fn test_api() {
    let mut store = Store::new();
    let add_response = users::add(&mut store, UserAddRequest { email: "test@example.com".to_string() });
    assert!(!add_response.is_err());
    let add_response = users::add(&mut store, UserAddRequest { email: "test@example.com".to_string() });
    assert!(add_response.is_err());
}

#[test]
fn user_list_of_empty_table_is_empty() {
    let store = Store::new();
    let listed = users::list(&store).expect("a list never fails");
    assert!(listed.users.is_empty());
}

#[test]
fn user_add_then_get_by_id_and_email() {
    let mut store = Store::new();
    let first = add_user(&mut store, "a@example.com");
    let second = add_user(&mut store, "b@example.com");
    assert_eq!((first.id, second.id), (1, 2));

    let by_id = users::get(&store, UserRequest { id_or_email: Some(IdOrEmail::Id(2)) }).unwrap();
    assert_eq!(by_id.id, 2);
    assert_eq!(by_id.email, "b@example.com");

    let by_email = users::get(
        &store,
        UserRequest { id_or_email: Some(IdOrEmail::Email("a@example.com".to_string())) },
    )
    .unwrap();
    assert_eq!(by_email.id, 1);

    let listed = users::list(&store).unwrap();
    assert_eq!(listed.users.len(), 2);
    assert_eq!(listed.users[0].id, 1);
    assert_eq!(listed.users[1].id, 2);
}

#[test]
fn user_add_without_email_is_rejected() {
    let mut store = Store::new();
    let status = users::add(&mut store, UserAddRequest { email: String::new() }).unwrap_err();
    assert_eq!(status.code, Code::InvalidArgument);
    assert_eq!(status.message, "email is required");
    assert!(store.users.rows.is_empty());
    assert_eq!(store.users.last_id, 0);
}

#[test]
fn user_duplicate_email_is_internal_and_changes_nothing() {
    let mut store = Store::new();
    add_user(&mut store, "a@example.com");
    let status =
        users::add(&mut store, UserAddRequest { email: "a@example.com".to_string() }).unwrap_err();
    assert_eq!(status.code, Code::Internal);
    assert_eq!(status.message, "duplicate key value violates unique constraint");
    assert_eq!(store.users.rows.len(), 1);
    assert_eq!(store.users.last_id, 1);
    assert_eq!(store.users.rows[0].email, "a@example.com");
}

#[test]
fn user_update_changes_the_email_only() {
    let mut store = Store::new();
    add_user(&mut store, "a@example.com");
    add_user(&mut store, "b@example.com");
    let changed = users::update(
        &mut store,
        UserUpdateRequest { id: 2, email: Some("c@example.com".to_string()) },
    )
    .unwrap();
    assert_eq!(changed.id, 2);
    assert_eq!(changed.email, "c@example.com");
    assert_eq!(store.users.rows[0].email, "a@example.com");
    assert_eq!(store.users.rows[1].email, "c@example.com");
    assert_eq!(store.users.rows[1].password, "");
    assert_eq!(store.users.last_id, 2);
}

#[test]
fn user_update_without_fields_is_rejected() {
    let mut store = Store::new();
    add_user(&mut store, "a@example.com");
    let status =
        users::update(&mut store, UserUpdateRequest { id: 1, email: None }).unwrap_err();
    assert_eq!(status.code, Code::InvalidArgument);
    assert_eq!(status.message, "nothing to update");
    assert_eq!(store.users.rows[0].email, "a@example.com");
}

#[test]
fn user_update_without_id_is_rejected() {
    let mut store = Store::new();
    let request = UserUpdateRequest { id: 0, email: Some("a@example.com".to_string()) };
    let status = users::update(&mut store, request).unwrap_err();
    assert_eq!(status.code, Code::InvalidArgument);
    assert_eq!(status.message, "User id required");
    let request = UserUpdateRequest { id: 0, email: Some("a@example.com".to_string()) };
    let status = User::update(&mut store, request).unwrap_err();
    assert_eq!(status.message, "User id is required");
}

#[test]
fn user_update_of_missing_row_is_not_found() {
    let mut store = Store::new();
    let request = UserUpdateRequest { id: 7, email: Some("a@example.com".to_string()) };
    let status = users::update(&mut store, request).unwrap_err();
    assert_eq!(status.code, Code::NotFound);
    assert_eq!(status.message, "not found");
}

#[test]
fn user_update_to_taken_email_is_refused() {
    let mut store = Store::new();
    add_user(&mut store, "a@example.com");
    add_user(&mut store, "b@example.com");
    let request = UserUpdateRequest { id: 2, email: Some("a@example.com".to_string()) };
    let status = users::update(&mut store, request).unwrap_err();
    assert_eq!(status.code, Code::Internal);
    assert_eq!(store.users.rows[1].email, "b@example.com");
    let request = UserUpdateRequest { id: 2, email: Some("b@example.com".to_string()) };
    assert!(users::update(&mut store, request).is_ok());
}

#[test]
fn user_delete_then_get_is_not_found() {
    let mut store = Store::new();
    add_user(&mut store, "a@example.com");
    add_user(&mut store, "b@example.com");
    let blank = users::delete(
        &mut store,
        UserRequest { id_or_email: Some(IdOrEmail::Email("a@example.com".to_string())) },
    )
    .unwrap();
    assert_eq!(blank.id, 0);
    assert_eq!(blank.email, "");
    let status = users::get(
        &store,
        UserRequest { id_or_email: Some(IdOrEmail::Email("a@example.com".to_string())) },
    )
    .unwrap_err();
    assert_eq!(status.code, Code::NotFound);
    assert_eq!(store.users.rows.len(), 1);
    assert_eq!(store.users.rows[0].id, 2);
    let third = add_user(&mut store, "c@example.com");
    assert_eq!(third.id, 3);
}

#[test]
fn user_delete_of_nothing_counts_zero() {
    let mut store = Store::new();
    assert_eq!(User::delete(&mut store, IdOrEmail::Id(5)).unwrap(), 0);
}

#[test]
fn user_delete_without_key_is_rejected() {
    let mut store = Store::new();
    add_user(&mut store, "a@example.com");
    let status = users::delete(&mut store, UserRequest { id_or_email: None }).unwrap_err();
    assert_eq!(status.code, Code::InvalidArgument);
    assert_eq!(status.message, "User id or email required");
    assert_eq!(store.users.rows.len(), 1);
}

#[test]
fn user_listing_row_converts_to_response() {
    let blank = Users::default();
    assert_eq!(blank.id, 0);
    assert_eq!(blank.email, "");
    let row = User { id: 4, email: "d@example.com".to_string(), password: "secret".to_string() };
    let listed = row.listed();
    assert_eq!(listed.id, 4);
    let shown = UserResponse::from(listed);
    assert_eq!(shown.id, 4);
    assert_eq!(shown.email, "d@example.com");
}
