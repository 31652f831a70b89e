//! The fixed enumerations: method codes, schema metadata, and error codes.

use honey_id_client::enums::{EnumEndpoint, EnumUserRole, EnumUserStatus};
use honey_id_client::error::EnumErrorCode;

#[test]
fn method_codes_match_the_wire_protocol() {
    assert_eq!(EnumEndpoint::PublicConnect.code(), 0);
    assert_eq!(EnumEndpoint::Signup.code(), 10);
    assert_eq!(EnumEndpoint::SubmitUsername.code(), 12);
    assert_eq!(EnumEndpoint::SubmitPassword.code(), 13);
    assert_eq!(EnumEndpoint::PlatformConnect.code(), 100);
    assert_eq!(EnumEndpoint::ApiKeyConnect.code(), 200);
    assert_eq!(EnumEndpoint::AccessTokenConnect.code(), 201);
    assert_eq!(EnumEndpoint::ReceiveToken.code(), 210);
    assert_eq!(EnumEndpoint::ReceiveUserInfo.code(), 211);
}

#[test]
fn schema_carries_name_code_and_roles() {
    let schema = EnumEndpoint::SubmitUsername.schema();
    assert_eq!(schema.name, "SubmitUsername");
    assert_eq!(schema.code, 12);
    assert_eq!(schema.roles, vec![0]);

    let schema = EnumEndpoint::ReceiveToken.schema();
    assert_eq!(schema.name, "ReceiveToken");
    assert_eq!(schema.code, 210);
    assert_eq!(schema.roles, vec![6]);

    let schema = EnumEndpoint::BanUser.schema();
    assert_eq!(schema.name, "BanUser");
    assert_eq!(schema.code, 112);
    assert_eq!(schema.roles, vec![7]);
}

#[test]
fn lowercase_names_feed_the_connect_header() {
    assert_eq!(EnumEndpoint::PublicConnect.lowercase_name(), "publicconnect");
    assert_eq!(EnumEndpoint::AccessTokenConnect.lowercase_name(), "accesstokenconnect");
}

#[test]
fn role_and_status_codes_match_the_wire_protocol() {
    assert_eq!(EnumUserRole::Public.code(), 0);
    assert_eq!(EnumUserRole::AppApiKey.code(), 6);
    assert_eq!(EnumUserRole::Platform.code(), 7);
    assert_eq!(EnumUserStatus::Enabled.code(), 1);
    assert_eq!(EnumUserStatus::Banned.code(), 3);
}

#[test]
fn error_codes_match_the_wire_protocol() {
    assert_eq!(EnumErrorCode::BadRequest.code(), 100400);
    assert_eq!(EnumErrorCode::NotFound.code(), 100404);
    assert_eq!(EnumErrorCode::UserInvalidAuthToken.code(), 101605);
    assert_eq!(EnumErrorCode::UserInvalidPassword.code(), 101606);
    assert_eq!(EnumErrorCode::DuplicateRequest.code(), 103001);
    assert_eq!(EnumErrorCode::InternalError.code(), 45349684);
}
