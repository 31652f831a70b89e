//! The credential-submission handshake against the identity service, as a
//! state machine over one connection: submit the username, then the
//! password, and end with an access token.
//!
//! The embedding application owns the WebSocket connection and the await
//! points; it sends each frame this machine hands out and feeds every
//! inbound frame back in. Transitions are strictly sequential and
//! connection-scoped; the first failure is kept verbatim and the machine
//! never retries.

use vstd::prelude::*;

use crate::client::HoneyIdClient;
use crate::endpoints::{
    submit_password_params, submit_username_params, SubmitPasswordResponse, SubmitUsernameResponse,
};
use crate::enums::EnumEndpoint;
use crate::envelope::{decode_inbound_frame, request_frame, spec_decode_inbound, InboundEnvelope, InboundKind};
use crate::error::{EnumErrorCode, HoneyIdError};

verus! {

/// Where one sign-in handshake stands.
#[derive(Debug)]
pub enum SignInState {
    /// The submit-username request went out; its response is awaited.
    AwaitingUsernameResponse,
    /// The submit-password request went out; its response is awaited.
    AwaitingPasswordResponse,
    /// Terminal: the handshake succeeded.
    Authenticated {
        /// The issued access token, as the service returned it.
        access_token: String,
    },
    /// Terminal: the handshake failed; the first failure, verbatim.
    Failed {
        /// The failure that ended the handshake.
        error: HoneyIdError,
    },
}

/// One sign-in handshake in flight: the machine's state and the password
/// still to submit.
#[derive(Debug)]
pub struct SignInFlow {
    password: String,
    state: SignInState,
}

/// The protocol error code carried by an inbound failure frame, narrowed to
/// the codes this crate represents; anything wider is an internal error.
pub open spec fn spec_protocol_error_code(code: u64) -> u32 {
    if code <= u32::MAX as u64 {
        code as u32
    } else {
        EnumErrorCode::InternalError.spec_code()
    }
}

/// Narrows an inbound failure frame's code.
pub fn protocol_error_code(code: u64) -> (r: u32)
    ensures
        r == spec_protocol_error_code(code),
{
    if code <= u32::MAX as u64 {
        code as u32
    } else {
        EnumErrorCode::InternalError.code()
    }
}

/// The diagnostic kept when an inbound frame could not be understood: the
/// raw frame follows the fixed prefix.
pub open spec fn spec_malformed_msg(raw: Seq<char>) -> Seq<char> {
    "Invalid response received from server: "@ + raw
}

/// Builds the diagnostic for a frame that could not be understood.
pub fn malformed_msg(raw: &str) -> (r: String)
    ensures
        r@ == spec_malformed_msg(raw@),
{
    let mut out = String::new();
    out.append("Invalid response received from server: ");
    out.append(raw);
    proof {
        assert(out@ =~= spec_malformed_msg(raw@));
    }
    out
}

impl SignInFlow {
    /// The machine's state.
    pub closed spec fn spec_state(&self) -> SignInState {
        self.state
    }

    /// The password still to submit.
    pub closed spec fn spec_password(&self) -> String {
        self.password
    }

    /// Whether the machine is finished, successfully or not.
    pub open spec fn spec_is_terminal(&self) -> bool {
        self.spec_state() is Authenticated || self.spec_state() is Failed
    }

    /// The machine's state, for the embedding application to drive its loop.
    pub fn state(&self) -> (r: &SignInState)
        ensures
            r == &self.spec_state(),
    {
        &self.state
    }

    /// Feeds one inbound frame to the machine. The returned machine has
    /// advanced one step; when a frame is returned with it, that frame is the
    /// next request to send on the same connection. A terminal machine
    /// ignores frames and stays as it is.
    ///
    /// The awaited response is tried first; when the `params` text does not
    /// parse as it and the frame carries an error `code`, that protocol
    /// error is re-raised with the `params` text as its message.
    pub fn on_frame(self, text: &str) -> (r: (SignInFlow, Option<String>))
        ensures
            self.spec_is_terminal() ==> r.0 == self && r.1 is None,
            r.0.spec_password() == self.spec_password(),
            self.spec_state() is AwaitingUsernameResponse ==> match spec_decode_inbound(text@) {
                InboundKind::Envelope(params, code) => {
                    if SubmitUsernameResponse::spec_parse(params) is Some {
                        &&& r.0.spec_state() is AwaitingPasswordResponse
                        &&& r.1 matches Some(f) && f@ == request_frame(
                            EnumEndpoint::SubmitPassword.spec_code() as nat,
                            submit_password_params(self.spec_password()@),
                        )
                    } else {
                        match code {
                            Option::Some(c) => {
                                &&& r.0.spec_state() matches SignInState::Failed { error }
                                    && error.code == spec_protocol_error_code(c) && error.msg@
                                    == params
                                &&& r.1 is None
                            },
                            Option::None => {
                                &&& r.0.spec_state() matches SignInState::Failed { error }
                                    && error.code == EnumErrorCode::InternalError.spec_code()
                                    && error.msg@ == spec_malformed_msg(text@)
                                &&& r.1 is None
                            },
                        }
                    }
                },
                InboundKind::Malformed => {
                    &&& r.0.spec_state() matches SignInState::Failed { error } && error.code
                        == EnumErrorCode::InternalError.spec_code() && error.msg@
                        == spec_malformed_msg(text@)
                    &&& r.1 is None
                },
            },
            self.spec_state() is AwaitingPasswordResponse ==> match spec_decode_inbound(text@) {
                InboundKind::Envelope(params, code) => match SubmitPasswordResponse::spec_parse(
                    params,
                ) {
                    Option::Some(tok) => {
                        &&& r.0.spec_state() matches SignInState::Authenticated { access_token }
                            && access_token@ == tok
                        &&& r.1 is None
                    },
                    Option::None => {
                        match code {
                            Option::Some(c) => {
                                &&& r.0.spec_state() matches SignInState::Failed { error }
                                    && error.code == spec_protocol_error_code(c) && error.msg@
                                    == params
                                &&& r.1 is None
                            },
                            Option::None => {
                                &&& r.0.spec_state() matches SignInState::Failed { error }
                                    && error.code == EnumErrorCode::InternalError.spec_code()
                                    && error.msg@ == spec_malformed_msg(text@)
                                &&& r.1 is None
                            },
                        }
                    },
                },
                InboundKind::Malformed => {
                    &&& r.0.spec_state() matches SignInState::Failed { error } && error.code
                        == EnumErrorCode::InternalError.spec_code() && error.msg@
                        == spec_malformed_msg(text@)
                    &&& r.1 is None
                },
            },
    {
        match self.state {
            SignInState::Authenticated { access_token } => (
                SignInFlow {
                    password: self.password,
                    state: SignInState::Authenticated { access_token },
                },
                None,
            ),
            SignInState::Failed { error } => (
                SignInFlow { password: self.password, state: SignInState::Failed { error } },
                None,
            ),
            SignInState::AwaitingUsernameResponse => {
                match decode_inbound_frame(text) {
                    InboundEnvelope::Envelope { params, code } => {
                        match SubmitUsernameResponse::parse_params(params.as_str()) {
                            Some(_resp) => {
                                let req = crate::endpoints::SubmitPasswordRequest {
                                    password: String::from_str(self.password.as_str()),
                                };
                                let params_json = req.params_json();
                                let frame = crate::envelope::encode_request_frame(
                                    EnumEndpoint::SubmitPassword.code(),
                                    params_json.as_str(),
                                );
                                (
                                    SignInFlow {
                                        password: self.password,
                                        state: SignInState::AwaitingPasswordResponse,
                                    },
                                    Some(frame),
                                )
                            },
                            None => {
                                let error = match code {
                                    Some(c) => HoneyIdError::new(protocol_error_code(c), params),
                                    None => HoneyIdError::from_enum(
                                        EnumErrorCode::InternalError,
                                        malformed_msg(text),
                                    ),
                                };
                                (
                                    SignInFlow {
                                        password: self.password,
                                        state: SignInState::Failed { error },
                                    },
                                    None,
                                )
                            },
                        }
                    },
                    InboundEnvelope::Malformed => {
                        let error = HoneyIdError::from_enum(
                            EnumErrorCode::InternalError,
                            malformed_msg(text),
                        );
                        (
                            SignInFlow {
                                password: self.password,
                                state: SignInState::Failed { error },
                            },
                            None,
                        )
                    },
                }
            },
            SignInState::AwaitingPasswordResponse => {
                match decode_inbound_frame(text) {
                    InboundEnvelope::Envelope { params, code } => {
                        match SubmitPasswordResponse::parse_params(params.as_str()) {
                            Some(resp) => (
                                SignInFlow {
                                    password: self.password,
                                    state: SignInState::Authenticated {
                                        access_token: resp.accessToken,
                                    },
                                },
                                None,
                            ),
                            None => {
                                let error = match code {
                                    Some(c) => HoneyIdError::new(protocol_error_code(c), params),
                                    None => HoneyIdError::from_enum(
                                        EnumErrorCode::InternalError,
                                        malformed_msg(text),
                                    ),
                                };
                                (
                                    SignInFlow {
                                        password: self.password,
                                        state: SignInState::Failed { error },
                                    },
                                    None,
                                )
                            },
                        }
                    },
                    InboundEnvelope::Malformed => {
                        let error = HoneyIdError::from_enum(
                            EnumErrorCode::InternalError,
                            malformed_msg(text),
                        );
                        (
                            SignInFlow {
                                password: self.password,
                                state: SignInState::Failed { error },
                            },
                            None,
                        )
                    },
                }
            },
        }
    }
}

/// Law: the canonical response frames of the two handshake steps decode and
/// parse exactly as the machine expects, so against a peer that answers each
/// step canonically the machine advances from awaiting the username response
/// to awaiting the password response, and then authenticates with exactly the
/// token the peer framed.
pub proof fn lemma_handshake_frames_understood(expires_at: i64, token: Seq<char>)
    requires
        expires_at >= 0,
    ensures
        ({
            let p = (SubmitUsernameResponse { expiresAt: expires_at }).spec_params();
            spec_decode_inbound(crate::envelope::response_frame(p)) == InboundKind::Envelope(
                p,
                Option::None,
            ) && SubmitUsernameResponse::spec_parse(p) == Some(expires_at)
        }),
        ({
            let q = "{\"accessToken\":\""@ + crate::json::json_escape(token) + "\"}"@;
            spec_decode_inbound(crate::envelope::response_frame(q)) == InboundKind::Envelope(
                q,
                Option::None,
            ) && SubmitPasswordResponse::spec_parse(q) == Some(token)
        }),
{
    reveal_strlit("{\"expiresAt\":");
    reveal_strlit("}");
    reveal_strlit("{\"accessToken\":\"");
    reveal_strlit("\"}");
    let p = (SubmitUsernameResponse { expiresAt: expires_at }).spec_params();
    assert(p[0] == '{');
    assert(p.last() == '}');
    crate::envelope::lemma_response_round_trip(p);
    crate::endpoints::lemma_submit_username_response_round_trip(expires_at);
    let q = "{\"accessToken\":\""@ + crate::json::json_escape(token) + "\"}"@;
    assert(q[0] == '{');
    assert(q.last() == '}');
    crate::envelope::lemma_response_round_trip(q);
    crate::endpoints::lemma_submit_password_response_round_trip(token);
}

/// Starts a sign-in handshake: returns the machine awaiting the first
/// response, and the submit-username frame to send on a fresh public
/// connection.
pub fn sign_in(client: &HoneyIdClient, username: &str, password: &str) -> (r: (SignInFlow, String))
    ensures
        r.0.spec_state() is AwaitingUsernameResponse,
        r.0.spec_password()@ == password@,
        r.1@ == request_frame(
            EnumEndpoint::SubmitUsername.spec_code() as nat,
            submit_username_params(client.spec_config().app_public_id.text@, username@),
        ),
{
    let frame = client.submit_username_frame(username);
    (
        SignInFlow {
            password: String::from_str(password),
            state: SignInState::AwaitingUsernameResponse,
        },
        frame,
    )
}

} // verus!
