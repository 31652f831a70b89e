//! The application-side storage of users and their roles, as the
//! authorization handlers need it: role lookups for authorized and public
//! connections, and the upsert the credential callbacks perform.

use vstd::prelude::*;

use crate::error::HoneyIdError;
use crate::ids::UserPublicId;

verus! {

/// The user fields a credential callback upserts into the application's own
/// user storage.
#[derive(Debug, Clone)]
pub struct CreateUserInfo {
    /// The user's username.
    pub username: String,
    /// The user's public identifier.
    pub user_pub_id: UserPublicId,
    /// The application the user belongs to; carried only by the platform
    /// application, which tracks users of other applications.
    pub app_pub_id: Option<u128>,
}

/// The basic API the authorization handlers need from the application for
/// role assignment: which roles a known user gets, which roles a public
/// connection gets, and under which role the identity service's callbacks
/// run. The application supplies the implementation.
pub trait UserStorage: Sized {
    /// The roles this storage assigns to a known user, or nothing when the
    /// lookup fails.
    spec fn spec_api_roles(&self, user_pub_id: UserPublicId) -> Option<Seq<u32>>;

    /// The roles granted to unauthenticated (public) connections.
    spec fn spec_public_roles(&self) -> Seq<u32>;

    /// The role under which the identity service's callback connections run.
    spec fn spec_auth_role(&self) -> u32;

    /// Returns the roles of the user with `user_pub_id`, failing exactly
    /// when the storage does not resolve the user.
    fn get_api_roles_by_pub_id(&self, user_pub_id: UserPublicId) -> (r: Result<
        Vec<u32>,
        HoneyIdError,
    >)
        ensures
            r matches Ok(v) ==> self.spec_api_roles(user_pub_id) == Some(v@),
            r is Ok <==> self.spec_api_roles(user_pub_id) is Some,
    ;

    /// Returns the roles granted to public connections.
    fn get_public_roles(&self) -> (r: Vec<u32>)
        ensures
            r@ == self.spec_public_roles(),
    ;

    /// Returns the role under which the identity service's callbacks run.
    fn get_honey_auth_role(&self) -> (r: u32)
        ensures
            r == self.spec_auth_role(),
    ;

    /// Creates or updates the user in the application's own storage. What
    /// the upsert does is the application's business; the handlers only
    /// propagate its failure.
    fn create_or_update_user(&mut self, user_info_request: CreateUserInfo) -> Result<
        (),
        HoneyIdError,
    >;
}

/// A ready-made [`UserStorage`] for applications whose users all share one
/// role list: every resolved user gets `api_roles`, public connections get
/// `public_roles`, and the identity service's callbacks run under
/// `auth_role`. The upsert keeps nothing: an application that tracks its
/// users supplies its own implementation.
#[derive(Debug)]
pub struct FixedRoleStorage {
    /// The roles every authorized user gets.
    pub api_roles: Vec<u32>,
    /// The roles every public connection gets.
    pub public_roles: Vec<u32>,
    /// The role the identity service's callbacks run under.
    pub auth_role: u32,
}

impl UserStorage for FixedRoleStorage {
    open spec fn spec_api_roles(&self, user_pub_id: UserPublicId) -> Option<Seq<u32>> {
        Option::Some(self.api_roles@)
    }

    open spec fn spec_public_roles(&self) -> Seq<u32> {
        self.public_roles@
    }

    open spec fn spec_auth_role(&self) -> u32 {
        self.auth_role
    }

    fn get_api_roles_by_pub_id(&self, user_pub_id: UserPublicId) -> (r: Result<
        Vec<u32>,
        HoneyIdError,
    >) {
        Ok(crate::handlers::generic_auth_handler::copy_roles(&self.api_roles))
    }

    fn get_public_roles(&self) -> (r: Vec<u32>) {
        crate::handlers::generic_auth_handler::copy_roles(&self.public_roles)
    }

    fn get_honey_auth_role(&self) -> (r: u32) {
        self.auth_role
    }

    fn create_or_update_user(&mut self, user_info_request: CreateUserInfo) -> Result<
        (),
        HoneyIdError,
    > {
        Ok(())
    }
}

} // verus!
