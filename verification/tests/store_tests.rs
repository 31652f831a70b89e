//! The credential store: insert/validate behaviour and both uniqueness
//! invariants.

use honey_id_client::error::EnumErrorCode;
use honey_id_client::ids::UserPublicId;
use honey_id_client::store::{TokenStorage, TokenWorkTableStorage};

const T1: u128 = 0x550e8400e29b41d4a716446655440000;
const T2: u128 = 0x550e8400e29b41d4a716446655440001;

#[test]
fn insert_then_validate_returns_owner() {
    let mut store = TokenWorkTableStorage::new();
    let u1 = UserPublicId { value: 1 };
    assert!(store.store_token(u1, T1).is_ok());
    let owner = store.validate_token(T1).expect("token was inserted");
    assert_eq!(owner, u1);
}

#[test]
fn reinserting_same_token_fails_with_duplicate_key() {
    // Scenario: insert token T1 for owner U1; validate(T1) -> U1; insert T1
    // again for owner U2 -> duplicate key.
    let mut store = TokenWorkTableStorage::new();
    let u1 = UserPublicId { value: 1 };
    let u2 = UserPublicId { value: 2 };
    assert!(store.store_token(u1, T1).is_ok());
    assert_eq!(store.validate_token(T1).expect("token was inserted"), u1);
    let err = store.store_token(u2, T1).expect_err("token value is taken");
    assert_eq!(err.code, EnumErrorCode::DuplicateRequest.code());
    // the failed insert left the store unchanged
    assert_eq!(store.len(), 1);
    assert_eq!(store.validate_token(T1).expect("still there"), u1);
}

#[test]
fn reinserting_same_owner_fails_with_duplicate_key() {
    let mut store = TokenWorkTableStorage::new();
    let u1 = UserPublicId { value: 1 };
    assert!(store.store_token(u1, T1).is_ok());
    let err = store.store_token(u1, T2).expect_err("owner already has a token");
    assert_eq!(err.code, EnumErrorCode::DuplicateRequest.code());
    assert_eq!(store.len(), 1);
}

#[test]
fn validate_unknown_token_fails_with_not_found() {
    let store = TokenWorkTableStorage::new();
    let err = store.validate_token(T1).expect_err("nothing was inserted");
    assert_eq!(err.code, EnumErrorCode::NotFound.code());
}

#[test]
fn distinct_owners_and_tokens_coexist() {
    let mut store = TokenWorkTableStorage::new();
    let u1 = UserPublicId { value: 1 };
    let u2 = UserPublicId { value: 2 };
    assert!(store.store_token(u1, T1).is_ok());
    assert!(store.store_token(u2, T2).is_ok());
    assert_eq!(store.len(), 2);
    assert_eq!(store.validate_token(T1).unwrap(), u1);
    assert_eq!(store.validate_token(T2).unwrap(), u2);
}
