//! The connection-authorization handlers: role assignment, rejection paths,
//! and the credential-push callbacks.

use honey_id_client::endpoints::{ReceiveTokenRequest, ReceiveUserInfoRequest};
use honey_id_client::error::EnumErrorCode;
use honey_id_client::handlers::auth_to_app::{
    MethodApiKeyConnect, MethodReceiveToken, MethodReceiveUserInfo,
};
use honey_id_client::handlers::connection::Connection;
use honey_id_client::handlers::generic_auth_handler::GenericAuthorizedConnect;
use honey_id_client::handlers::user_management::FixedRoleStorage;
use honey_id_client::handlers::user_to_app::{MethodAuthorizedConnect, MethodPublicConnect};
use honey_id_client::ids::{AppPublicId, UserPublicId};
use honey_id_client::store::{TokenStorage, TokenWorkTableStorage};
use honey_id_client::{HoneyIdClient, HoneyIdConfig};

const TOKEN_TEXT: &str = "550e8400-e29b-41d4-a716-446655440000";
const USER_TEXT: &str = "550e8400-e29b-41d4-a716-446655440001";

fn roles() -> FixedRoleStorage {
    FixedRoleStorage { api_roles: vec![4, 5], public_roles: vec![0], auth_role: 6 }
}

fn store_with_token() -> TokenWorkTableStorage {
    let mut store = TokenWorkTableStorage::new();
    let token = uuid::Uuid::parse_str(TOKEN_TEXT).unwrap().as_u128();
    let owner = UserPublicId { value: uuid::Uuid::parse_str(USER_TEXT).unwrap().as_u128() };
    store.store_token(owner, token).unwrap();
    store
}

#[test]
fn known_token_connect_assigns_owner_roles() {
    let handler =
        MethodAuthorizedConnect { token_storage: store_with_token(), user_storage: roles() };
    let mut conn = Connection::new();
    let param = format!("{{\"accessToken\":\"{TOKEN_TEXT}\"}}");
    handler.auth(param.as_str(), &mut conn).expect("token is known");
    assert_eq!(conn.roles().as_ref().expect("roles were assigned"), &vec![4, 5]);
}

#[test]
fn unknown_token_connect_rejects_without_role_assignment() {
    // A well-formed payload with an unknown access token is rejected with a
    // wrong-access-token error and the connection's role list stays unset.
    let handler = MethodAuthorizedConnect {
        token_storage: TokenWorkTableStorage::new(),
        user_storage: roles(),
    };
    let mut conn = Connection::new();
    let param = format!("{{\"accessToken\":\"{TOKEN_TEXT}\"}}");
    let err = handler.auth(param.as_str(), &mut conn).expect_err("token is unknown");
    assert_eq!(err.code, EnumErrorCode::BadRequest.code());
    assert_eq!(err.msg, "Wrong `accessToken`");
    assert!(conn.roles().is_none());
}

#[test]
fn malformed_connect_payload_is_a_bad_request() {
    let handler = MethodAuthorizedConnect {
        token_storage: TokenWorkTableStorage::new(),
        user_storage: roles(),
    };
    let mut conn = Connection::new();
    let err = handler.auth("{\"nonsense\":true}", &mut conn).expect_err("payload shape is wrong");
    assert_eq!(err.code, EnumErrorCode::BadRequest.code());
    assert!(conn.roles().is_none());
}

#[test]
fn token_text_that_is_no_uuid_is_a_bad_request() {
    let handler =
        MethodAuthorizedConnect { token_storage: store_with_token(), user_storage: roles() };
    let mut conn = Connection::new();
    let err = handler
        .auth("{\"accessToken\":\"not-a-uuid\"}", &mut conn)
        .expect_err("token text does not parse");
    assert_eq!(err.code, EnumErrorCode::BadRequest.code());
    assert!(conn.roles().is_none());
}

#[test]
fn generic_authorized_connect_resolves_the_owner() {
    let handler = GenericAuthorizedConnect::new(store_with_token(), roles());
    let req = honey_id_client::endpoints::AccessTokenConnectRequest {
        accessToken: TOKEN_TEXT.to_string(),
    };
    let mut conn = Connection::new();
    let ctx = handler.auth(&req, &mut conn).expect("token is known");
    assert_eq!(
        ctx.user_pub_id,
        UserPublicId { value: uuid::Uuid::parse_str(USER_TEXT).unwrap().as_u128() }
    );
    assert_eq!(ctx.user_api_roles, vec![4, 5]);
    assert_eq!(conn.roles().as_ref().unwrap(), &vec![4, 5]);
}

#[test]
fn public_connect_assigns_public_roles() {
    let handler = MethodPublicConnect { user_storage: roles() };
    let mut conn = Connection::new();
    handler.auth("{}", &mut conn).expect("empty payload is the public connect");
    assert_eq!(conn.roles().as_ref().unwrap(), &vec![0]);
}

fn api_key_client(key: Option<&str>) -> HoneyIdClient {
    HoneyIdClient::new(HoneyIdConfig {
        addr: "wss://api.honey.id:443/".to_string(),
        app_public_id: AppPublicId { text: USER_TEXT.to_string() },
        app_api_key: None,
        auth_api_key: key.map(|k| k.to_string()),
    })
}

#[test]
fn api_key_connect_assigns_the_callback_role() {
    // Scenario: key "secret" configured as "secret" -> success, the service
    // role is assigned.
    let handler =
        MethodApiKeyConnect { honey_id_client: api_key_client(Some("secret")), user_storage: roles() };
    let mut conn = Connection::new();
    handler.auth("{\"appApiKey\":\"secret\"}", &mut conn).expect("keys match");
    assert_eq!(conn.roles().as_ref().unwrap(), &vec![6]);
}

#[test]
fn api_key_connect_rejects_a_wrong_key() {
    let handler =
        MethodApiKeyConnect { honey_id_client: api_key_client(Some("secret")), user_storage: roles() };
    let mut conn = Connection::new();
    let err = handler.auth("{\"appApiKey\":\"wrong\"}", &mut conn).expect_err("keys differ");
    assert_eq!(err.code, EnumErrorCode::BadRequest.code());
    assert_eq!(err.msg, "Wrong `authApiKey`");
    assert!(conn.roles().is_none());
}

#[test]
fn api_key_connect_reports_a_missing_key_differently() {
    let handler =
        MethodApiKeyConnect { honey_id_client: api_key_client(None), user_storage: roles() };
    let mut conn = Connection::new();
    let err = handler.auth("{\"appApiKey\":\"secret\"}", &mut conn).expect_err("no key configured");
    assert_eq!(err.code, EnumErrorCode::InternalError.code());
    assert!(conn.roles().is_none());
}

#[test]
fn receive_token_records_the_credential() {
    let mut handler = MethodReceiveToken {
        token_storage: TokenWorkTableStorage::new(),
        user_storage: roles(),
    };
    let req = ReceiveTokenRequest {
        token: TOKEN_TEXT.to_string(),
        username: "alice".to_string(),
        userPubId: USER_TEXT.to_string(),
    };
    handler.handle(req).expect("both identifiers parse");
    let token = uuid::Uuid::parse_str(TOKEN_TEXT).unwrap().as_u128();
    let owner = handler.token_storage.validate_token(token).expect("token was recorded");
    assert_eq!(owner.value, uuid::Uuid::parse_str(USER_TEXT).unwrap().as_u128());
}

#[test]
fn receive_token_with_unparsable_token_fails_whole() {
    // Scenario: a receive-token callback with an unparsable token string
    // fails as a whole; nothing is recorded.
    let mut handler = MethodReceiveToken {
        token_storage: TokenWorkTableStorage::new(),
        user_storage: roles(),
    };
    let req = ReceiveTokenRequest {
        token: "not-a-uuid".to_string(),
        username: "alice".to_string(),
        userPubId: USER_TEXT.to_string(),
    };
    let err = handler.handle(req).expect_err("token text does not parse");
    assert_eq!(err.code, EnumErrorCode::BadRequest.code());
    assert_eq!(handler.token_storage.len(), 0);
}

#[test]
fn receive_user_info_without_token_only_upserts() {
    let mut handler = MethodReceiveUserInfo {
        token_storage: TokenWorkTableStorage::new(),
        user_storage: roles(),
    };
    let req = ReceiveUserInfoRequest {
        userPubId: USER_TEXT.to_string(),
        username: "alice".to_string(),
        token: None,
    };
    handler.handle(req).expect("nothing to record");
    assert_eq!(handler.token_storage.len(), 0);
}

#[test]
fn receive_user_info_with_token_records_it() {
    let mut handler = MethodReceiveUserInfo {
        token_storage: TokenWorkTableStorage::new(),
        user_storage: roles(),
    };
    let req = ReceiveUserInfoRequest {
        userPubId: USER_TEXT.to_string(),
        username: "alice".to_string(),
        token: Some(TOKEN_TEXT.to_string()),
    };
    handler.handle(req).expect("token parses");
    assert_eq!(handler.token_storage.len(), 1);
}

#[test]
fn end_to_end_token_push_then_connect() {
    // The identity service pushes a token; a user then connects with it and
    // gets the owner's roles.
    let mut receive = MethodReceiveToken {
        token_storage: TokenWorkTableStorage::new(),
        user_storage: roles(),
    };
    let req = ReceiveTokenRequest {
        token: TOKEN_TEXT.to_string(),
        username: "alice".to_string(),
        userPubId: USER_TEXT.to_string(),
    };
    receive.handle(req).expect("callback succeeds");
    let connect =
        MethodAuthorizedConnect { token_storage: receive.token_storage, user_storage: roles() };
    let mut conn = Connection::new();
    let param = format!("{{\"accessToken\":\"{TOKEN_TEXT}\"}}");
    connect.auth(param.as_str(), &mut conn).expect("pushed token is accepted");
    assert_eq!(conn.roles().as_ref().unwrap(), &vec![4, 5]);
}
