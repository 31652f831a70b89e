//! The `honey.id` client: its configuration, API-key validation, and the
//! framing of the credential-submission handshake's requests.
//!
//! Network transport stays outside this crate's verified core: the functions
//! here build the exact frames to send and validate what was configured; an
//! embedding application owns the WebSocket connection and moves the frames.

use vstd::prelude::*;

use crate::endpoints::{
    submit_password_params, submit_username_params, SubmitPasswordRequest, SubmitUsernameRequest,
};
use crate::enums::EnumEndpoint;
use crate::envelope::{encode_request_frame, request_frame};
use crate::error::HoneyIdError;
use crate::ids::{AppPublicId, UserPublicId};
use crate::json::str_eq;
use crate::store::{TokenStorage, TokenWorkTableStorage};

verus! {

/// Configuration of the `honey.id` client.
///
/// Secret material (the API keys) is carried as plain text here so that the
/// validation logic can be stated and proved; an embedding application keeps
/// its own guarded copies and hands the values over when it builds this
/// configuration.
#[derive(Debug, Clone)]
pub struct HoneyIdConfig {
    /// The identity service's WebSocket address, as URL text.
    pub addr: String,
    /// Public ID of the App as defined in the identity service's
    /// configuration; the two must match.
    pub app_public_id: AppPublicId,
    /// The App's own API key, issued when the App was created.
    pub app_api_key: Option<String>,
    /// The API key the identity service presents on its callback
    /// connections to this App.
    pub auth_api_key: Option<String>,
}

/// Why a presented API key was rejected. The two causes stay distinguishable
/// so an operator can tell misconfiguration from a wrong key.
#[derive(Debug, Clone, PartialEq, Eq, Structural)]
pub enum ApiKeyError {
    /// No API key is configured on this App; configure one and restart.
    NotConfigured,
    /// A key is configured but the presented key does not match it.
    IncorrectKey,
}

impl ApiKeyError {
    /// An operator-facing description of this rejection.
    pub fn message(&self) -> (r: String)
        ensures
            self is NotConfigured ==> r@ == "Auth API key not configured in App. Please configure and restart the app"@,
            self is IncorrectKey ==> r@ == "Incorrect Auth API key provided to App. Either reconfigure with the correct key on the App's server, or report an Auth server bug"@,
    {
        match self {
            ApiKeyError::NotConfigured => String::from_str(
                "Auth API key not configured in App. Please configure and restart the app",
            ),
            ApiKeyError::IncorrectKey => String::from_str(
                "Incorrect Auth API key provided to App. Either reconfigure with the correct key on the App's server, or report an Auth server bug",
            ),
        }
    }
}

/// The client half of the integration: holds the configuration and the
/// process-wide token table, validates the callback API key, and frames the
/// handshake's requests.
pub struct HoneyIdClient {
    /// The client's configuration.
    config: HoneyIdConfig,
    /// The process-wide store of tokens the identity service has issued.
    token_table: TokenWorkTableStorage,
}

/// The sub-protocol header that pre-selects `endpoint` with public
/// privileges at connect time: a zero role digit, then the endpoint's
/// lowercase name.
pub open spec fn spec_connect_subprotocol(endpoint: EnumEndpoint) -> Seq<char> {
    "0"@ + endpoint.spec_lowercase_name()
}

/// Builds the connect-time sub-protocol header for `endpoint` with public
/// privileges.
pub fn connect_subprotocol(endpoint: EnumEndpoint) -> (r: String)
    ensures
        r@ == spec_connect_subprotocol(endpoint),
{
    let mut out = String::new();
    out.append("0");
    let name = endpoint.lowercase_name();
    out.append(name.as_str());
    proof {
        assert(out@ =~= spec_connect_subprotocol(endpoint));
    }
    out
}

impl HoneyIdClient {
    /// Creates a new client with the provided configuration and an empty
    /// token table.
    pub fn new(config: HoneyIdConfig) -> (r: Self)
        ensures
            r.spec_config() == config,
            r.spec_token_table().inv(),
            r.spec_token_table().rows_seq() == Seq::<crate::store::TokenRecord>::empty(),
    {
        HoneyIdClient { config, token_table: TokenWorkTableStorage::new() }
    }

    /// The configuration the client was created with.
    pub closed spec fn spec_config(&self) -> HoneyIdConfig {
        self.config
    }

    /// The client's token table.
    pub closed spec fn spec_token_table(&self) -> TokenWorkTableStorage {
        self.token_table
    }

    /// The configuration the client was created with.
    pub fn config(&self) -> (r: &HoneyIdConfig)
        ensures
            r == &self.spec_config(),
    {
        &self.config
    }

    /// The public identifier this App is registered under.
    pub fn get_app_pub_id(&self) -> (r: &AppPublicId)
        ensures
            r == &self.spec_config().app_public_id,
    {
        &self.config.app_public_id
    }

    /// Validates a presented callback API key against the configured one.
    /// Rejections are distinguishable: no configured key is reported as
    /// `NotConfigured`, a mismatch as `IncorrectKey`.
    pub fn validate_auth_api_key(&self, key: &str) -> (r: Result<(), ApiKeyError>)
        ensures
            match r {
                Ok(()) => self.spec_config().auth_api_key matches Some(k) && k@ == key@,
                Err(e) => match e {
                    ApiKeyError::NotConfigured => self.spec_config().auth_api_key is None,
                    ApiKeyError::IncorrectKey => self.spec_config().auth_api_key matches Some(k)
                        && k@ != key@,
                },
            },
    {
        match &self.config.auth_api_key {
            Some(config_key) => {
                if str_eq(config_key.as_str(), key) {
                    Ok(())
                } else {
                    Err(ApiKeyError::IncorrectKey)
                }
            },
            None => Err(ApiKeyError::NotConfigured),
        }
    }

    /// Stores a token the identity service issued for `user_pub_id` in the
    /// client's token table.
    pub fn store_token(&mut self, token: u128, user_pub_id: UserPublicId) -> (r: Result<
        (),
        HoneyIdError,
    >)
        requires
            old(self).spec_token_table().inv(),
        ensures
            final(self).spec_config() == old(self).spec_config(),
            final(self).spec_token_table().inv(),
            r is Ok <==> (!old(self).spec_token_table().contains_token(token)
                && !old(self).spec_token_table().contains_owner(user_pub_id)),
            r is Ok ==> final(self).spec_token_table().contains_token(token)
                && final(self).spec_token_table().owner_of(token) == user_pub_id,
            r is Err ==> final(self).spec_token_table() == old(self).spec_token_table(),
    {
        self.token_table.store_token(user_pub_id, token)
    }

    /// Looks a token up in the client's token table and returns its owner.
    /// An unknown token is reported as not found.
    pub fn validate_token(&self, token: u128) -> (r: Result<UserPublicId, HoneyIdError>)
        requires
            self.spec_token_table().inv(),
        ensures
            r is Ok <==> self.spec_token_table().contains_token(token),
            r matches Ok(o) ==> o == self.spec_token_table().owner_of(token),
            r matches Err(e) ==> e.code == crate::error::EnumErrorCode::NotFound.spec_code(),
    {
        self.token_table.validate_token(token)
    }

    /// The sub-protocol header a public connection opens with: the
    /// public-connect endpoint selector.
    pub fn public_connect_header(&self) -> (r: String)
        ensures
            r@ == spec_connect_subprotocol(EnumEndpoint::PublicConnect),
    {
        connect_subprotocol(EnumEndpoint::PublicConnect)
    }

    /// Builds the frame of the first handshake step: the submit-username
    /// request, carrying the configured App public id and `username`.
    pub fn submit_username_frame(&self, username: &str) -> (r: String)
        ensures
            r@ == request_frame(
                EnumEndpoint::SubmitUsername.spec_code() as nat,
                submit_username_params(self.spec_config().app_public_id.text@, username@),
            ),
    {
        let req = SubmitUsernameRequest {
            appPublicId: AppPublicId { text: String::from_str(self.config.app_public_id.text.as_str()) },
            username: String::from_str(username),
        };
        let params = req.params_json();
        encode_request_frame(EnumEndpoint::SubmitUsername.code(), params.as_str())
    }

    /// Builds the frame of the second handshake step: the submit-password
    /// request.
    pub fn submit_password_frame(&self, password: &str) -> (r: String)
        ensures
            r@ == request_frame(
                EnumEndpoint::SubmitPassword.spec_code() as nat,
                submit_password_params(password@),
            ),
    {
        let req = SubmitPasswordRequest { password: String::from_str(password) };
        let params = req.params_json();
        encode_request_frame(EnumEndpoint::SubmitPassword.code(), params.as_str())
    }
}

} // verus!
