use secure_share::keys::User;
use secure_share::routes::{get_file_list_handler, Endpoint, Method};
use secure_share::error::{ErrorKind, HttpError};
use secure_share::state::{AppState, Config, DBClient};
use secure_share::user::{get_me, update_user_name, user_response, FilterUserDto, NameUpdateDto};

const ID_TEXT: &str = "00000000-0000-0000-0000-00000000002a";

fn state() -> AppState {
    let mut state = AppState::new(Config {
        database_url: "postgres://localhost/files".to_string(),
        jwt_secret: "secret".to_string(),
        jwt_maxage: 60,
        port: 8000,
        max_file_size: 1024,
        single_retrieval: false,
    });
    state.db_client.users.add(User {
        id: 42,
        name: "Old Name".to_string(),
        email: "a@example.com".to_string(),
        public_key: Some("AQID".to_string()),
        private_key_material: Some(vec![1, 2, 3]),
    });
    state
}

#[test]
fn new_state_is_empty() {
    let state = state();
    assert_eq!(state.db_client.files.len(), 0);
    assert_eq!(state.db_client.users.users.len(), 1);
    assert_eq!(state.env.port, 8000);
    let client = DBClient::new();
    assert_eq!(client.users.users.len(), 0);
    assert_eq!(client.files.len(), 0);
}

#[test]
fn profile_leaves_out_the_private_key() {
    let state = state();
    let user = state.db_client.users.get_user_by_id(42).unwrap();
    let response = get_me(user);
    assert_eq!(response.status, "success");
    assert_eq!(response.data.user.id, 42);
    assert_eq!(response.data.user.name, "Old Name");
    assert_eq!(response.data.user.email, "a@example.com");
    assert_eq!(response.data.user.public_key.as_deref(), Some("AQID"));
    let filtered = FilterUserDto::filter_user(user);
    assert_eq!(filtered.name, "Old Name");
    assert_eq!(user_response(filtered).status, "success");
}

#[test]
fn name_is_changed() {
    let mut state = state();
    let body = NameUpdateDto { name: "New Name".to_string() };
    let response = update_user_name(&mut state, ID_TEXT, &body).unwrap();
    assert_eq!(response.status, "success");
    assert_eq!(response.data.user.name, "New Name");
    assert_eq!(response.data.user.id, 42);
    assert_eq!(state.db_client.users.get_user_by_id(42).unwrap().name, "New Name");
    assert_eq!(state.db_client.users.get_user_by_id(42).unwrap().email, "a@example.com");
}

#[test]
fn empty_name_is_refused() {
    let mut state = state();
    let err = update_user_name(&mut state, ID_TEXT, &NameUpdateDto { name: String::new() })
        .unwrap_err();
    assert_eq!(err.status, 400);
    assert_eq!(err.message, "Name must not be empty");
    assert_eq!(state.db_client.users.get_user_by_id(42).unwrap().name, "Old Name");
}

#[test]
fn identifier_that_is_no_uuid_is_refused() {
    let mut state = state();
    let err = update_user_name(&mut state, "42", &NameUpdateDto { name: "N".to_string() })
        .unwrap_err();
    assert_eq!(err.status, 400);
    assert_eq!(err.message, "Invalid user id");
}

#[test]
fn unknown_user_is_a_server_error() {
    let mut state = state();
    let other = "00000000-0000-0000-0000-00000000002b";
    let err = update_user_name(&mut state, other, &NameUpdateDto { name: "N".to_string() })
        .unwrap_err();
    assert_eq!(err.status, 500);
    assert_eq!(err.message, "User not found");
    assert_eq!(state.db_client.users.get_user_by_id(42).unwrap().name, "Old Name");
}

#[test]
fn directory_renames_the_first_user_with_the_id() {
    let mut state = state();
    assert!(state.db_client.users.update_user_name(42, "X"));
    assert!(!state.db_client.users.update_user_name(43, "Y"));
    assert_eq!(state.db_client.users.get_user_by_id(42).unwrap().name, "X");
}

#[test]
fn file_list_route() {
    let router = get_file_list_handler();
    assert_eq!(router.routes.len(), 1);
    assert_eq!(router.routes[0].method, Method::Get);
    assert_eq!(router.routes[0].path, "/files");
    assert_eq!(router.routes[0].endpoint, Endpoint::ListFiles);
    assert!(router.routes[0].authenticated);
}

#[test]
fn kinds_have_their_status() {
    assert_eq!(ErrorKind::Validation.status(), 400);
    assert_eq!(ErrorKind::NotFound.status(), 404);
    assert_eq!(ErrorKind::Authorization.status(), 403);
    assert_eq!(ErrorKind::Crypto.status(), 500);
    assert_eq!(ErrorKind::Expired.status(), 410);
    assert_eq!(ErrorKind::Storage.status(), 500);
}

#[test]
fn http_errors_carry_message_and_status() {
    let e = HttpError::bad_request("bad".to_string());
    assert_eq!((e.message.as_str(), e.status), ("bad", 400));
    let e = HttpError::unauthorized("who".to_string());
    assert_eq!((e.message.as_str(), e.status), ("who", 401));
    let e = HttpError::server_error("oops".to_string());
    assert_eq!((e.message.as_str(), e.status), ("oops", 500));
}
