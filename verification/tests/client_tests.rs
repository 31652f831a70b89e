//! The client: API-key validation outcomes and connect-time headers.

use honey_id_client::ids::AppPublicId;
use honey_id_client::{ApiKeyError, HoneyIdClient, HoneyIdConfig};

fn config(auth_api_key: Option<&str>) -> HoneyIdConfig {
    HoneyIdConfig {
        addr: "wss://api.honey.id:443/".to_string(),
        app_public_id: AppPublicId { text: "550e8400-e29b-41d4-a716-446655440000".to_string() },
        app_api_key: None,
        auth_api_key: auth_api_key.map(|k| k.to_string()),
    }
}

#[test]
fn matching_api_key_is_accepted() {
    // Scenario: key "secret" configured as "secret" -> success.
    let client = HoneyIdClient::new(config(Some("secret")));
    assert!(client.validate_auth_api_key("secret").is_ok());
}

#[test]
fn mismatched_api_key_is_incorrect_key() {
    // Scenario: configured "secret", presented "wrong" -> IncorrectKey.
    let client = HoneyIdClient::new(config(Some("secret")));
    let err = client.validate_auth_api_key("wrong").expect_err("keys differ");
    assert_eq!(err, ApiKeyError::IncorrectKey);
}

#[test]
fn missing_api_key_is_not_configured() {
    let client = HoneyIdClient::new(config(None));
    let err = client.validate_auth_api_key("secret").expect_err("no key configured");
    assert_eq!(err, ApiKeyError::NotConfigured);
}

#[test]
fn the_two_rejections_are_distinguishable() {
    let with_key = HoneyIdClient::new(config(Some("secret")));
    let without_key = HoneyIdClient::new(config(None));
    let wrong = with_key.validate_auth_api_key("wrong").unwrap_err();
    let unset = without_key.validate_auth_api_key("wrong").unwrap_err();
    assert_ne!(wrong, unset);
    assert_ne!(wrong.message(), unset.message());
}

#[test]
fn public_connect_header_selects_the_public_endpoint() {
    let client = HoneyIdClient::new(config(None));
    assert_eq!(client.public_connect_header(), "0publicconnect");
}

#[test]
fn app_public_id_is_returned_as_configured() {
    let client = HoneyIdClient::new(config(None));
    assert_eq!(
        client.get_app_pub_id().text,
        "550e8400-e29b-41d4-a716-446655440000"
    );
}

#[test]
fn client_store_token_validates_afterwards() {
    let mut client = HoneyIdClient::new(config(None));
    let user = honey_id_client::ids::UserPublicId { value: 7 };
    assert!(client.store_token(42, user).is_ok());
    assert_eq!(client.validate_token(42).expect("just stored"), user);
    assert!(client.store_token(42, user).is_err());
}
