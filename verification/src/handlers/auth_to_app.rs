//! Handlers for connections made by the identity service to the App: the
//! API-key connect and the two credential-push callbacks.

use vstd::prelude::*;

use crate::client::{ApiKeyError, HoneyIdClient};
use crate::endpoints::{
    ApiKeyConnectRequest, ApiKeyConnectResponse, ReceiveTokenRequest, ReceiveTokenResponse,
    ReceiveUserInfoRequest, ReceiveUserInfoResponse,
};
use crate::error::{EnumErrorCode, HoneyIdError};
use crate::handlers::connection::Connection;
use crate::handlers::user_management::{CreateUserInfo, UserStorage};
use crate::ids::{parse_uuid_text, parsed_uuid, UserPublicId};
use crate::store::TokenStorage;

verus! {

/// Authorizes the identity service's own callback connection by its
/// pre-shared API key.
pub struct MethodApiKeyConnect<U: UserStorage> {
    /// The client holding the configured key the presented one is compared
    /// against.
    pub honey_id_client: HoneyIdClient,
    /// Storage the callback role is taken from.
    pub user_storage: U,
}

impl<U: UserStorage> MethodApiKeyConnect<U> {
    /// Handles one API-key connect from its raw params text: a payload that
    /// does not parse is rejected as a bad request; with no key configured
    /// the connect fails as an internal error (misconfiguration, not an
    /// attack); a mismatched key is rejected as a wrong key; on a match the
    /// callback role is assigned. On every failure the connection is left
    /// untouched.
    pub fn auth(&self, param: &str, conn: &mut Connection) -> (r: Result<
        ApiKeyConnectResponse,
        HoneyIdError,
    >)
        ensures
            ApiKeyConnectRequest::spec_parse(param@) is None ==> (r matches Err(e) && e.code
                == EnumErrorCode::BadRequest.spec_code()),
            ApiKeyConnectRequest::spec_parse(param@) matches Some(key) ==> (match self
                .honey_id_client
                .spec_config()
                .auth_api_key {
                Option::None => r matches Err(e) && e.code
                    == EnumErrorCode::InternalError.spec_code(),
                Option::Some(k) => {
                    if k@ == key {
                        r is Ok && final(conn).spec_roles() == Some(
                            seq![self.user_storage.spec_auth_role()],
                        )
                    } else {
                        r matches Err(e) && e.code == EnumErrorCode::BadRequest.spec_code()
                            && e.msg@ == "Wrong `authApiKey`"@
                    }
                },
            }),
            r is Err ==> *final(conn) == *old(conn),
    {
        let req = match ApiKeyConnectRequest::parse_params(param) {
            Some(rq) => rq,
            None => {
                return Err(
                    HoneyIdError::from_enum(
                        EnumErrorCode::BadRequest,
                        "Invalid request: malformed connect payload".to_owned(),
                    ),
                );
            },
        };
        match self.honey_id_client.validate_auth_api_key(req.appApiKey.as_str()) {
            Ok(()) => {
                let auth_role = self.user_storage.get_honey_auth_role();
                let mut roles: Vec<u32> = Vec::new();
                roles.push(auth_role);
                proof {
                    assert(roles@ =~= seq![self.user_storage.spec_auth_role()]);
                }
                conn.set_roles(roles);
                Ok(ApiKeyConnectResponse {  })
            },
            Err(ApiKeyError::IncorrectKey) => Err(
                HoneyIdError::from_enum(EnumErrorCode::BadRequest, "Wrong `authApiKey`".to_owned()),
            ),
            Err(ApiKeyError::NotConfigured) => Err(
                HoneyIdError::from_enum(
                    EnumErrorCode::InternalError,
                    "authApiKey has not been configured within Honey API app. App needs to be configured and restarted".to_owned(),
                ),
            ),
        }
    }
}

/// Receives a freshly issued token from the identity service: upserts the
/// owner into the application's user storage and records the token.
pub struct MethodReceiveToken<T: TokenStorage, U: UserStorage> {
    /// The store the token is recorded in.
    pub token_storage: T,
    /// The application's user storage the owner is upserted into.
    pub user_storage: U,
}

impl<T: TokenStorage, U: UserStorage> MethodReceiveToken<T, U> {
    /// Handles one receive-token callback. Either of the two identifiers
    /// failing to parse fails the operation as a whole before any write; a
    /// failing upsert or a duplicate key fails it afterwards, and the token
    /// store is never left half-written.
    pub fn handle(&mut self, req: ReceiveTokenRequest) -> (r: Result<
        ReceiveTokenResponse,
        HoneyIdError,
    >)
        requires
            old(self).token_storage.inv(),
        ensures
            final(self).token_storage.inv(),
            (parsed_uuid(req.token@) is None || parsed_uuid(req.userPubId@) is None) ==> (
            r matches Err(e) && e.code == EnumErrorCode::BadRequest.spec_code() && final(self).token_storage == old(self).token_storage),
            r is Ok ==> (parsed_uuid(req.token@) matches Some(t) && parsed_uuid(
                req.userPubId@,
            ) matches Some(u) && final(self).token_storage.contains_token(t) && final(self).token_storage.owner_of(t) == (UserPublicId { value: u })),
            (parsed_uuid(req.token@) matches Some(t) && parsed_uuid(req.userPubId@) is Some && old(self).token_storage.contains_token(t)) ==> r is Err,
            r is Err ==> final(self).token_storage == old(self).token_storage,
    {
        let token = match parse_uuid_text(req.token.as_str()) {
            Some(t) => t,
            None => {
                return Err(
                    HoneyIdError::from_enum(
                        EnumErrorCode::BadRequest,
                        "Error parsing given token as UUID".to_owned(),
                    ),
                );
            },
        };
        let user_value = match parse_uuid_text(req.userPubId.as_str()) {
            Some(u) => u,
            None => {
                return Err(
                    HoneyIdError::from_enum(
                        EnumErrorCode::BadRequest,
                        "Error parsing given user id as UUID".to_owned(),
                    ),
                );
            },
        };
        let user_pub_id = UserPublicId { value: user_value };
        let info = CreateUserInfo { username: req.username, user_pub_id, app_pub_id: None };
        match self.user_storage.create_or_update_user(info) {
            Ok(()) => {
            },
            Err(e) => {
                return Err(e);
            },
        }
        match self.token_storage.store_token(user_pub_id, token) {
            Ok(()) => Ok(ReceiveTokenResponse {  }),
            Err(e) => Err(e),
        }
    }
}

/// Receives a user's info from the identity service: upserts the user into
/// the application's user storage and, when a token came along, records it.
pub struct MethodReceiveUserInfo<T: TokenStorage, U: UserStorage> {
    /// The store a carried token is recorded in.
    pub token_storage: T,
    /// The application's user storage the user is upserted into.
    pub user_storage: U,
}

impl<T: TokenStorage, U: UserStorage> MethodReceiveUserInfo<T, U> {
    /// Handles one receive-user-info callback. A malformed user id or a
    /// malformed carried token fails the operation as a whole before any
    /// write. Then the upsert runs; a token whose insert fails afterwards (a
    /// duplicate) fails the operation as a whole, with no compensating
    /// rollback of the upsert (the identity service retries the whole
    /// callback).
    pub fn handle(&mut self, req: ReceiveUserInfoRequest) -> (r: Result<
        ReceiveUserInfoResponse,
        HoneyIdError,
    >)
        requires
            old(self).token_storage.inv(),
        ensures
            final(self).token_storage.inv(),
            parsed_uuid(req.userPubId@) is None ==> (r matches Err(e) && e.code
                == EnumErrorCode::BadRequest.spec_code() && final(self).token_storage == old(self).token_storage),
            (match req.token {
                Option::Some(ref ts) => (parsed_uuid(ts@) is None && parsed_uuid(
                    req.userPubId@,
                ) is Some) ==> (r matches Err(e) && e.code == EnumErrorCode::BadRequest.spec_code()
                    && final(self).token_storage == old(self).token_storage),
                Option::None => true,
            }),
            (match req.token {
                Option::Some(ref ts) => (parsed_uuid(ts@) matches Some(t) && old(self).token_storage.contains_token(t) && parsed_uuid(req.userPubId@) is Some) ==> r is Err,
                Option::None => true,
            }),
            r is Ok ==> (parsed_uuid(req.userPubId@) matches Some(u) && (match req.token {
                Option::None => final(self).token_storage == old(self).token_storage,
                Option::Some(ref ts) => parsed_uuid(ts@) matches Some(t) && final(self).token_storage.contains_token(t) && final(self).token_storage.owner_of(t) == (
                UserPublicId { value: u }),
            })),
            r is Err ==> final(self).token_storage == old(self).token_storage,
    {
        let user_value = match parse_uuid_text(req.userPubId.as_str()) {
            Some(u) => u,
            None => {
                return Err(
                    HoneyIdError::from_enum(
                        EnumErrorCode::BadRequest,
                        "Error parsing given user id as UUID".to_owned(),
                    ),
                );
            },
        };
        let user_pub_id = UserPublicId { value: user_value };
        let token = match &req.token {
            None => None,
            Some(token_text) => {
                match parse_uuid_text(token_text.as_str()) {
                    Some(t) => Some(t),
                    None => {
                        return Err(
                            HoneyIdError::from_enum(
                                EnumErrorCode::BadRequest,
                                "Error parsing given token as UUID".to_owned(),
                            ),
                        );
                    },
                }
            },
        };
        let info = CreateUserInfo { username: req.username, user_pub_id, app_pub_id: None };
        match self.user_storage.create_or_update_user(info) {
            Ok(()) => {
            },
            Err(e) => {
                return Err(e);
            },
        }
        match token {
            None => Ok(ReceiveUserInfoResponse {  }),
            Some(token) => {
                match self.token_storage.store_token(user_pub_id, token) {
                    Ok(()) => Ok(ReceiveUserInfoResponse {  }),
                    Err(e) => Err(e),
                }
            },
        }
    }
}

} // verus!
