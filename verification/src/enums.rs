//! The protocol's fixed enumerations: user roles, user statuses, and the
//! endpoint method codes with their schema metadata.

use vstd::prelude::*;

verus! {

/// The permission classes a connection or user can hold.
#[derive(Debug, Clone, Copy, PartialEq, Eq, Structural, Hash)]
pub enum EnumUserRole {
    /// Public can only view some data.
    Public,
    /// Platform admin can do literally everything. Very dangerous role.
    PlatformAdmin,
    /// Platform support can view and manage some staff.
    PlatformSupport,
    /// New user in application, can only create new app or be invited to an app.
    AppNewUser,
    /// App admin can manage the application, but not the platform.
    AppAdmin,
    /// App support can see the application info, but not the platform.
    AppSupport,
    /// The role used for external users only.
    AppApiKey,
    /// The role used for the platform only.
    Platform,
}

impl EnumUserRole {
    /// The numeric wire value of this role.
    pub open spec fn spec_code(self) -> u32 {
        match self {
            EnumUserRole::Public => 0,
            EnumUserRole::PlatformAdmin => 1,
            EnumUserRole::PlatformSupport => 2,
            EnumUserRole::AppNewUser => 3,
            EnumUserRole::AppAdmin => 4,
            EnumUserRole::AppSupport => 5,
            EnumUserRole::AppApiKey => 6,
            EnumUserRole::Platform => 7,
        }
    }

    /// Returns the numeric wire value of this role.
    pub fn code(self) -> (r: u32)
        ensures
            r == self.spec_code(),
    {
        match self {
            EnumUserRole::Public => 0,
            EnumUserRole::PlatformAdmin => 1,
            EnumUserRole::PlatformSupport => 2,
            EnumUserRole::AppNewUser => 3,
            EnumUserRole::AppAdmin => 4,
            EnumUserRole::AppSupport => 5,
            EnumUserRole::AppApiKey => 6,
            EnumUserRole::Platform => 7,
        }
    }
}

/// The lifecycle states of a user account.
#[derive(Debug, Clone, Copy, PartialEq, Eq, Structural, Hash)]
pub enum EnumUserStatus {
    /// Active user.
    Enabled,
    /// Inactive user.
    Disabled,
    /// Banned user.
    Banned,
}

impl EnumUserStatus {
    /// The numeric wire value of this status.
    pub open spec fn spec_code(self) -> u32 {
        match self {
            EnumUserStatus::Enabled => 1,
            EnumUserStatus::Disabled => 2,
            EnumUserStatus::Banned => 3,
        }
    }

    /// Returns the numeric wire value of this status.
    pub fn code(self) -> (r: u32)
        ensures
            r == self.spec_code(),
    {
        match self {
            EnumUserStatus::Enabled => 1,
            EnumUserStatus::Disabled => 2,
            EnumUserStatus::Banned => 3,
        }
    }
}

/// Read-only metadata of one RPC endpoint, as the wire-schema configuration
/// declares it: its name, numeric method code, and the roles permitted to
/// call it.
#[derive(Debug, Clone)]
pub struct EndpointSchema {
    /// The endpoint's name.
    pub name: String,
    /// The endpoint's numeric method code.
    pub code: u32,
    /// The numeric roles permitted to call the endpoint.
    pub roles: Vec<u32>,
}

/// Every RPC method of the protocol, by name.
#[derive(Debug, Clone, Copy, PartialEq, Eq, Structural, Hash)]
pub enum EnumEndpoint {
    /// Opens a session with public privileges.
    PublicConnect,
    /// Creates a new user account.
    Signup,
    /// First handshake step: submit the username.
    SubmitUsername,
    /// Second handshake step: submit the password.
    SubmitPassword,
    /// Platform API-key login.
    PlatformConnect,
    /// Platform creates a new application configuration.
    CreateAppConfig,
    /// Platform bans a user.
    BanUser,
    /// Platform edits a user's status.
    EditUser,
    /// Platform deletes a user.
    DeleteUser,
    /// Platform deletes an application configuration.
    DeleteAppConfig,
    /// Platform edits an application configuration.
    EditAppConfig,
    /// Platform reads an application's security rules.
    GetAppSecurityRules,
    /// Application API-key login.
    ApiKeyConnect,
    /// Access-token login.
    AccessTokenConnect,
    /// Identity service pushes a freshly issued token.
    ReceiveToken,
    /// Identity service pushes user info with a token.
    ReceiveUserInfo,
}

impl EnumEndpoint {
    /// The numeric method code of this endpoint.
    pub open spec fn spec_code(self) -> u32 {
        match self {
            EnumEndpoint::PublicConnect => 0,
            EnumEndpoint::Signup => 10,
            EnumEndpoint::SubmitUsername => 12,
            EnumEndpoint::SubmitPassword => 13,
            EnumEndpoint::PlatformConnect => 100,
            EnumEndpoint::CreateAppConfig => 111,
            EnumEndpoint::BanUser => 112,
            EnumEndpoint::EditUser => 113,
            EnumEndpoint::DeleteUser => 114,
            EnumEndpoint::DeleteAppConfig => 115,
            EnumEndpoint::EditAppConfig => 116,
            EnumEndpoint::GetAppSecurityRules => 117,
            EnumEndpoint::ApiKeyConnect => 200,
            EnumEndpoint::AccessTokenConnect => 201,
            EnumEndpoint::ReceiveToken => 210,
            EnumEndpoint::ReceiveUserInfo => 211,
        }
    }

    /// Returns the numeric method code of this endpoint.
    pub fn code(self) -> (r: u32)
        ensures
            r == self.spec_code(),
    {
        match self {
            EnumEndpoint::PublicConnect => 0,
            EnumEndpoint::Signup => 10,
            EnumEndpoint::SubmitUsername => 12,
            EnumEndpoint::SubmitPassword => 13,
            EnumEndpoint::PlatformConnect => 100,
            EnumEndpoint::CreateAppConfig => 111,
            EnumEndpoint::BanUser => 112,
            EnumEndpoint::EditUser => 113,
            EnumEndpoint::DeleteUser => 114,
            EnumEndpoint::DeleteAppConfig => 115,
            EnumEndpoint::EditAppConfig => 116,
            EnumEndpoint::GetAppSecurityRules => 117,
            EnumEndpoint::ApiKeyConnect => 200,
            EnumEndpoint::AccessTokenConnect => 201,
            EnumEndpoint::ReceiveToken => 210,
            EnumEndpoint::ReceiveUserInfo => 211,
        }
    }

    /// The endpoint's name.
    pub open spec fn spec_name(self) -> Seq<char> {
        match self {
            EnumEndpoint::PublicConnect => "PublicConnect"@,
            EnumEndpoint::Signup => "Signup"@,
            EnumEndpoint::SubmitUsername => "SubmitUsername"@,
            EnumEndpoint::SubmitPassword => "SubmitPassword"@,
            EnumEndpoint::PlatformConnect => "PlatformConnect"@,
            EnumEndpoint::CreateAppConfig => "CreateAppConfig"@,
            EnumEndpoint::BanUser => "BanUser"@,
            EnumEndpoint::EditUser => "EditUser"@,
            EnumEndpoint::DeleteUser => "DeleteUser"@,
            EnumEndpoint::DeleteAppConfig => "DeleteAppConfig"@,
            EnumEndpoint::EditAppConfig => "EditAppConfig"@,
            EnumEndpoint::GetAppSecurityRules => "GetAppSecurityRules"@,
            EnumEndpoint::ApiKeyConnect => "ApiKeyConnect"@,
            EnumEndpoint::AccessTokenConnect => "AccessTokenConnect"@,
            EnumEndpoint::ReceiveToken => "ReceiveToken"@,
            EnumEndpoint::ReceiveUserInfo => "ReceiveUserInfo"@,
        }
    }

    /// The endpoint's name in lower case, as the connect sub-protocol header
    /// carries it.
    pub open spec fn spec_lowercase_name(self) -> Seq<char> {
        match self {
            EnumEndpoint::PublicConnect => "publicconnect"@,
            EnumEndpoint::Signup => "signup"@,
            EnumEndpoint::SubmitUsername => "submitusername"@,
            EnumEndpoint::SubmitPassword => "submitpassword"@,
            EnumEndpoint::PlatformConnect => "platformconnect"@,
            EnumEndpoint::CreateAppConfig => "createappconfig"@,
            EnumEndpoint::BanUser => "banuser"@,
            EnumEndpoint::EditUser => "edituser"@,
            EnumEndpoint::DeleteUser => "deleteuser"@,
            EnumEndpoint::DeleteAppConfig => "deleteappconfig"@,
            EnumEndpoint::EditAppConfig => "editappconfig"@,
            EnumEndpoint::GetAppSecurityRules => "getappsecurityrules"@,
            EnumEndpoint::ApiKeyConnect => "apikeyconnect"@,
            EnumEndpoint::AccessTokenConnect => "accesstokenconnect"@,
            EnumEndpoint::ReceiveToken => "receivetoken"@,
            EnumEndpoint::ReceiveUserInfo => "receiveuserinfo"@,
        }
    }

    /// Returns the endpoint's name in lower case.
    pub fn lowercase_name(self) -> (r: String)
        ensures
            r@ == self.spec_lowercase_name(),
    {
        match self {
            EnumEndpoint::PublicConnect => String::from_str("publicconnect"),
            EnumEndpoint::Signup => String::from_str("signup"),
            EnumEndpoint::SubmitUsername => String::from_str("submitusername"),
            EnumEndpoint::SubmitPassword => String::from_str("submitpassword"),
            EnumEndpoint::PlatformConnect => String::from_str("platformconnect"),
            EnumEndpoint::CreateAppConfig => String::from_str("createappconfig"),
            EnumEndpoint::BanUser => String::from_str("banuser"),
            EnumEndpoint::EditUser => String::from_str("edituser"),
            EnumEndpoint::DeleteUser => String::from_str("deleteuser"),
            EnumEndpoint::DeleteAppConfig => String::from_str("deleteappconfig"),
            EnumEndpoint::EditAppConfig => String::from_str("editappconfig"),
            EnumEndpoint::GetAppSecurityRules => String::from_str("getappsecurityrules"),
            EnumEndpoint::ApiKeyConnect => String::from_str("apikeyconnect"),
            EnumEndpoint::AccessTokenConnect => String::from_str("accesstokenconnect"),
            EnumEndpoint::ReceiveToken => String::from_str("receivetoken"),
            EnumEndpoint::ReceiveUserInfo => String::from_str("receiveuserinfo"),
        }
    }

    /// The numeric roles permitted to call this endpoint.
    pub open spec fn spec_roles(self) -> Seq<u32> {
        match self {
            EnumEndpoint::PlatformConnect => seq![0u32],
            EnumEndpoint::CreateAppConfig => seq![7u32],
            EnumEndpoint::BanUser => seq![7u32],
            EnumEndpoint::EditUser => seq![7u32],
            EnumEndpoint::DeleteUser => seq![7u32],
            EnumEndpoint::DeleteAppConfig => seq![7u32],
            EnumEndpoint::EditAppConfig => seq![7u32],
            EnumEndpoint::GetAppSecurityRules => seq![7u32],
            EnumEndpoint::ReceiveToken => seq![6u32],
            EnumEndpoint::ReceiveUserInfo => seq![6u32],
            _ => seq![0u32],
        }
    }

    /// Returns this endpoint's schema metadata: its name, method code, and
    /// permitted roles.
    pub fn schema(&self) -> (r: EndpointSchema)
        ensures
            r.name@ == self.spec_name(),
            r.code == self.spec_code(),
            r.roles@ == self.spec_roles(),
    {
        let name = match self {
            EnumEndpoint::PublicConnect => String::from_str("PublicConnect"),
            EnumEndpoint::Signup => String::from_str("Signup"),
            EnumEndpoint::SubmitUsername => String::from_str("SubmitUsername"),
            EnumEndpoint::SubmitPassword => String::from_str("SubmitPassword"),
            EnumEndpoint::PlatformConnect => String::from_str("PlatformConnect"),
            EnumEndpoint::CreateAppConfig => String::from_str("CreateAppConfig"),
            EnumEndpoint::BanUser => String::from_str("BanUser"),
            EnumEndpoint::EditUser => String::from_str("EditUser"),
            EnumEndpoint::DeleteUser => String::from_str("DeleteUser"),
            EnumEndpoint::DeleteAppConfig => String::from_str("DeleteAppConfig"),
            EnumEndpoint::EditAppConfig => String::from_str("EditAppConfig"),
            EnumEndpoint::GetAppSecurityRules => String::from_str("GetAppSecurityRules"),
            EnumEndpoint::ApiKeyConnect => String::from_str("ApiKeyConnect"),
            EnumEndpoint::AccessTokenConnect => String::from_str("AccessTokenConnect"),
            EnumEndpoint::ReceiveToken => String::from_str("ReceiveToken"),
            EnumEndpoint::ReceiveUserInfo => String::from_str("ReceiveUserInfo"),
        };
        let role: u32 = match self {
            EnumEndpoint::CreateAppConfig => 7,
            EnumEndpoint::BanUser => 7,
            EnumEndpoint::EditUser => 7,
            EnumEndpoint::DeleteUser => 7,
            EnumEndpoint::DeleteAppConfig => 7,
            EnumEndpoint::EditAppConfig => 7,
            EnumEndpoint::GetAppSecurityRules => 7,
            EnumEndpoint::ReceiveToken => 6,
            EnumEndpoint::ReceiveUserInfo => 6,
            _ => 0,
        };
        let mut roles: Vec<u32> = Vec::new();
        roles.push(role);
        proof {
            assert(roles@ =~= self.spec_roles());
        }
        EndpointSchema { name, code: self.code(), roles }
    }
}

} // verus!
