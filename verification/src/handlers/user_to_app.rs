//! Handlers for connections made by end users to the App: the public connect
//! and the access-token connect.

use vstd::prelude::*;

use crate::endpoints::{
    AccessTokenConnectRequest, AccessTokenConnectResponse, PublicConnectRequest,
    PublicConnectResponse,
};
use crate::error::{EnumErrorCode, HoneyIdError};
use crate::handlers::connection::Connection;
use crate::handlers::generic_auth_handler::authorize_token;
use crate::handlers::user_management::UserStorage;
use crate::ids::parsed_uuid;
use crate::store::TokenStorage;

verus! {

/// Authorizes a connection that presents an access token: the token is
/// validated against the store and the owner's roles are assigned.
pub struct MethodAuthorizedConnect<T: TokenStorage, U: UserStorage> {
    /// Storage the presented tokens are validated against.
    pub token_storage: T,
    /// Storage the owners' roles are looked up in.
    pub user_storage: U,
}

impl<T: TokenStorage, U: UserStorage> MethodAuthorizedConnect<T, U> {
    /// Handles one access-token connect from its raw params text: a payload
    /// that does not parse is rejected as a bad request; an unknown token is
    /// rejected as a wrong access token; on success the owner's roles are
    /// assigned. On every failure the connection is left untouched.
    pub fn auth(&self, param: &str, conn: &mut Connection) -> (r: Result<
        AccessTokenConnectResponse,
        HoneyIdError,
    >)
        requires
            self.token_storage.inv(),
        ensures
            AccessTokenConnectRequest::spec_parse(param@) is None ==> (r matches Err(e) && e.code
                == EnumErrorCode::BadRequest.spec_code()),
            AccessTokenConnectRequest::spec_parse(param@) matches Some(tt) ==> {
                &&& (r is Ok <==> (parsed_uuid(tt) matches Some(t)
                    && self.token_storage.contains_token(t) && self.user_storage.spec_api_roles(
                    self.token_storage.owner_of(t),
                ) is Some))
                &&& (r is Ok ==> (parsed_uuid(tt) matches Some(t)
                    && self.user_storage.spec_api_roles(self.token_storage.owner_of(t)) matches Some(
                    roles,
                ) && final(conn).spec_roles() == Some(roles)))
                &&& (parsed_uuid(tt) is None ==> (r matches Err(e) && e.code
                    == EnumErrorCode::BadRequest.spec_code()))
                &&& ((parsed_uuid(tt) matches Some(t) && !self.token_storage.contains_token(t))
                    ==> (r matches Err(e) && e.code == EnumErrorCode::BadRequest.spec_code()
                    && e.msg@ == "Wrong `accessToken`"@))
            },
            r is Err ==> *final(conn) == *old(conn),
    {
        let req = match AccessTokenConnectRequest::parse_params(param) {
            Some(rq) => rq,
            None => {
                return Err(
                    HoneyIdError::from_enum(
                        EnumErrorCode::BadRequest,
                        "Invalid request: malformed connect payload".to_owned(),
                    ),
                );
            },
        };
        match authorize_token(&self.token_storage, &self.user_storage, req.accessToken.as_str(), conn) {
            Ok(_ctx) => Ok(AccessTokenConnectResponse {  }),
            Err(e) => Err(e),
        }
    }
}

/// Authorizes a connection that presents no credential: the public roles are
/// always assigned.
pub struct MethodPublicConnect<U: UserStorage> {
    /// Storage the public roles are taken from.
    pub user_storage: U,
}

impl<U: UserStorage> MethodPublicConnect<U> {
    /// Handles one public connect from its raw params text: a payload that
    /// is not the empty object is rejected as a bad request; otherwise the
    /// public roles are assigned.
    pub fn auth(&self, param: &str, conn: &mut Connection) -> (r: Result<
        PublicConnectResponse,
        HoneyIdError,
    >)
        ensures
            r is Ok <==> crate::endpoints::spec_empty_object(param@),
            param@ == "{}"@ ==> r is Ok,
            r is Ok ==> final(conn).spec_roles() == Some(self.user_storage.spec_public_roles()),
            r matches Err(e) ==> e.code == EnumErrorCode::BadRequest.spec_code() && *final(conn)
                == *old(conn),
    {
        match PublicConnectRequest::parse_params(param) {
            Some(_req) => {
                let roles = self.user_storage.get_public_roles();
                conn.set_roles(roles);
                Ok(PublicConnectResponse {  })
            },
            None => Err(
                HoneyIdError::from_enum(
                    EnumErrorCode::BadRequest,
                    "Invalid request: malformed connect payload".to_owned(),
                ),
            ),
        }
    }
}

/// Authorizes a connection that presents an access token; the older
/// single-purpose shape of [`MethodAuthorizedConnect`], kept for callers
/// wired to it.
pub struct MethodAccessTokenConnect<T: TokenStorage, U: UserStorage> {
    /// Storage the presented tokens are validated against.
    pub token_storage: T,
    /// Storage the owners' roles are looked up in.
    pub user_storage: U,
}

impl<T: TokenStorage, U: UserStorage> MethodAccessTokenConnect<T, U> {
    /// Handles one access-token connect from its raw params text, exactly as
    /// [`MethodAuthorizedConnect::auth`] does.
    pub fn auth(&self, param: &str, conn: &mut Connection) -> (r: Result<
        AccessTokenConnectResponse,
        HoneyIdError,
    >)
        requires
            self.token_storage.inv(),
        ensures
            AccessTokenConnectRequest::spec_parse(param@) is None ==> (r matches Err(e) && e.code
                == EnumErrorCode::BadRequest.spec_code()),
            AccessTokenConnectRequest::spec_parse(param@) matches Some(tt) ==> {
                &&& (r is Ok <==> (parsed_uuid(tt) matches Some(t)
                    && self.token_storage.contains_token(t) && self.user_storage.spec_api_roles(
                    self.token_storage.owner_of(t),
                ) is Some))
                &&& (r is Ok ==> (parsed_uuid(tt) matches Some(t)
                    && self.user_storage.spec_api_roles(self.token_storage.owner_of(t)) matches Some(
                    roles,
                ) && final(conn).spec_roles() == Some(roles)))
                &&& (parsed_uuid(tt) is None ==> (r matches Err(e) && e.code
                    == EnumErrorCode::BadRequest.spec_code()))
                &&& ((parsed_uuid(tt) matches Some(t) && !self.token_storage.contains_token(t))
                    ==> (r matches Err(e) && e.code == EnumErrorCode::BadRequest.spec_code()
                    && e.msg@ == "Wrong `accessToken`"@))
            },
            r is Err ==> *final(conn) == *old(conn),
    {
        let req = match AccessTokenConnectRequest::parse_params(param) {
            Some(rq) => rq,
            None => {
                return Err(
                    HoneyIdError::from_enum(
                        EnumErrorCode::BadRequest,
                        "Invalid request: malformed connect payload".to_owned(),
                    ),
                );
            },
        };
        match authorize_token(&self.token_storage, &self.user_storage, req.accessToken.as_str(), conn) {
            Ok(_ctx) => Ok(AccessTokenConnectResponse {  }),
            Err(e) => Err(e),
        }
    }
}

} // verus!
