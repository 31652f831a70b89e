//! The reusable authorization shapes: "validate the credential, assign the
//! roles, hand a context to the application's own completion logic", generic
//! over the concrete request type, so that an integrating application never
//! re-implements the validation plumbing per endpoint.
//!
//! The application's completion callback itself runs outside this crate; the
//! functions here decide, assign the roles, and return the context the
//! callback receives.

use vstd::prelude::*;

use crate::error::{EnumErrorCode, HoneyIdError};
use crate::handlers::connection::Connection;
use crate::handlers::user_management::UserStorage;
use crate::ids::{parse_uuid_text, parsed_uuid, UserPublicId};
use crate::store::TokenStorage;

verus! {

/// What app request types implement to work with [`GenericAuthorizedConnect`]:
/// the handler extracts the access token without knowing the concrete type.
pub trait AuthorizedConnectRequest: Sized {
    /// The access-token text this request carries.
    spec fn spec_access_token(&self) -> Seq<char>;

    /// Returns the access-token text this request carries.
    fn get_access_token(&self) -> (r: &str)
        ensures
            r@ == self.spec_access_token(),
    ;
}

/// Marker for app request types that work with [`GenericPublicConnect`]: a
/// public connect needs nothing from its payload.
pub trait PublicConnectRequest {

}

impl AuthorizedConnectRequest for crate::endpoints::AccessTokenConnectRequest {
    open spec fn spec_access_token(&self) -> Seq<char> {
        self.accessToken@
    }

    fn get_access_token(&self) -> (r: &str) {
        self.accessToken.as_str()
    }
}

impl PublicConnectRequest for crate::endpoints::PublicConnectRequest {

}

/// Context handed to the application's completion logic for authorized
/// connections: the resolved identity and the roles that were assigned.
#[derive(Debug)]
pub struct AuthorizedConnectContext {
    /// The identity the presented token resolved to.
    pub user_pub_id: UserPublicId,
    /// The roles assigned to the connection.
    pub user_api_roles: Vec<u32>,
}

/// Context handed to the application's completion logic for public
/// connections. It carries nothing yet; fields can be added without changing
/// the completion logic's shape.
#[derive(Debug)]
pub struct PublicConnectContext {

}

/// Copies a role list.
pub(crate) fn copy_roles(v: &Vec<u32>) -> (r: Vec<u32>)
    ensures
        r@ == v@,
{
    let mut out: Vec<u32> = Vec::new();
    let mut i: usize = 0;
    while i < v.len()
        invariant
            0 <= i <= v.len(),
            out@ == v@.take(i as int),
        decreases v.len() - i,
    {
        out.push(v[i]);
        proof {
            assert(v@.take(i as int).push(v@[i as int]) =~= v@.take(i as int + 1));
        }
        i += 1;
    }
    proof {
        assert(v@.take(v@.len() as int) =~= v@);
    }
    out
}

/// The core of every token-authorized connect: reads the token text, resolves
/// it in the store, looks the owner's roles up, and assigns them to the
/// connection. On every failure the connection is left untouched, and an
/// unknown token is reported only as a wrong access token.
pub fn authorize_token<T: TokenStorage, U: UserStorage>(
    token_storage: &T,
    user_storage: &U,
    token_text: &str,
    conn: &mut Connection,
) -> (r: Result<AuthorizedConnectContext, HoneyIdError>)
    requires
        token_storage.inv(),
    ensures
        r is Ok <==> (parsed_uuid(token_text@) matches Some(t) && token_storage.contains_token(t)
            && user_storage.spec_api_roles(token_storage.owner_of(t)) is Some),
        r matches Ok(ctx) ==> (parsed_uuid(token_text@) matches Some(t) && ctx.user_pub_id
            == token_storage.owner_of(t) && user_storage.spec_api_roles(ctx.user_pub_id) == Some(
            ctx.user_api_roles@,
        ) && final(conn).spec_roles() == Some(ctx.user_api_roles@)),
        r is Err ==> *final(conn) == *old(conn),
        parsed_uuid(token_text@) is None ==> (r matches Err(e) && e.code
            == EnumErrorCode::BadRequest.spec_code()),
        (parsed_uuid(token_text@) matches Some(t) && !token_storage.contains_token(t)) ==> (
        r matches Err(e) && e.code == EnumErrorCode::BadRequest.spec_code() && e.msg@
            == "Wrong `accessToken`"@),
{
    let token = match parse_uuid_text(token_text) {
        Some(t) => t,
        None => {
            return Err(
                HoneyIdError::from_enum(
                    EnumErrorCode::BadRequest,
                    "Invalid request: malformed access token".to_owned(),
                ),
            );
        },
    };
    let user_pub_id = match token_storage.validate_token(token) {
        Ok(u) => u,
        Err(_) => {
            return Err(
                HoneyIdError::from_enum(EnumErrorCode::BadRequest, "Wrong `accessToken`".to_owned()),
            );
        },
    };
    let roles = match user_storage.get_api_roles_by_pub_id(user_pub_id) {
        Ok(r) => r,
        Err(e) => {
            return Err(e);
        },
    };
    let assigned = copy_roles(&roles);
    conn.set_roles(assigned);
    Ok(AuthorizedConnectContext { user_pub_id, user_api_roles: roles })
}

/// The generic handler for authorized connections: validates the request's
/// access token against the token storage, assigns the owner's roles, and
/// returns the context for the application's completion logic.
pub struct GenericAuthorizedConnect<T: TokenStorage, U: UserStorage> {
    /// Storage the presented tokens are validated against.
    pub token_storage: T,
    /// Storage the owners' roles are looked up in.
    pub user_storage: U,
}

impl<T: TokenStorage, U: UserStorage> GenericAuthorizedConnect<T, U> {
    /// Creates a new authorized-connect handler over the two storages.
    pub fn new(token_storage: T, user_storage: U) -> (r: Self)
        ensures
            r.token_storage == token_storage,
            r.user_storage == user_storage,
    {
        GenericAuthorizedConnect { token_storage, user_storage }
    }

    /// Authorizes one connection from a typed request: validates its access
    /// token, assigns the owner's roles, and returns the completion context.
    /// On every failure the connection is left untouched.
    pub fn auth<Req: AuthorizedConnectRequest>(&self, req: &Req, conn: &mut Connection) -> (r:
        Result<AuthorizedConnectContext, HoneyIdError>)
        requires
            self.token_storage.inv(),
        ensures
            r is Ok <==> (parsed_uuid(req.spec_access_token()) matches Some(t)
                && self.token_storage.contains_token(t) && self.user_storage.spec_api_roles(
                self.token_storage.owner_of(t),
            ) is Some),
            r matches Ok(ctx) ==> (parsed_uuid(req.spec_access_token()) matches Some(t)
                && ctx.user_pub_id == self.token_storage.owner_of(t)
                && self.user_storage.spec_api_roles(ctx.user_pub_id) == Some(ctx.user_api_roles@)
                && final(conn).spec_roles() == Some(ctx.user_api_roles@)),
            r is Err ==> *final(conn) == *old(conn),
            parsed_uuid(req.spec_access_token()) is None ==> (r matches Err(e) && e.code
                == EnumErrorCode::BadRequest.spec_code()),
            (parsed_uuid(req.spec_access_token()) matches Some(t)
                && !self.token_storage.contains_token(t)) ==> (r matches Err(e) && e.code
                == EnumErrorCode::BadRequest.spec_code() && e.msg@ == "Wrong `accessToken`"@),
    {
        let token_text = req.get_access_token();
        authorize_token(&self.token_storage, &self.user_storage, token_text, conn)
    }
}

/// The generic handler for public connections: assigns the public roles and
/// returns the context for the application's completion logic.
pub struct GenericPublicConnect<U: UserStorage> {
    /// Storage the public roles are taken from.
    pub user_storage: U,
}

impl<U: UserStorage> GenericPublicConnect<U> {
    /// Creates a new public-connect handler over the role storage.
    pub fn new(user_storage: U) -> (r: Self)
        ensures
            r.user_storage == user_storage,
    {
        GenericPublicConnect { user_storage }
    }

    /// Authorizes one public connection: assigns the public roles. Never
    /// fails; the payload carries nothing to validate.
    pub fn auth<Req: PublicConnectRequest>(&self, _req: &Req, conn: &mut Connection) -> (r:
        PublicConnectContext)
        ensures
            final(conn).spec_roles() == Some(self.user_storage.spec_public_roles()),
    {
        let roles = self.user_storage.get_public_roles();
        conn.set_roles(roles);
        PublicConnectContext {  }
    }
}

} // verus!
