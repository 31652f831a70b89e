//! Error taxonomy shared by the RPC transport, the handshake client and the
//! connection-authorization framework.
//!
//! Every failure in this crate is mapped to a [`HoneyIdError`] carrying one of
//! the protocol's numeric error codes and a human-readable message.

use vstd::prelude::*;

verus! {

/// The protocol's error codes, as fixed small integers.
#[derive(Debug, Clone, Copy, PartialEq, Eq, Structural)]
pub enum EnumErrorCode {
    /// Malformed or undecodable request payload.
    BadRequest,
    /// Requested resource does not exist.
    NotFound,
    /// Unclassified server-side failure.
    InternalServerError,
    /// Method not implemented.
    NotImplemented,
    /// Database failure.
    DatabaseError,
    /// Invalid service.
    InvalidService,
    /// User is forbidden.
    UserForbidden,
    /// User not found.
    UserNotFound,
    /// User must agree to the terms of service.
    UserMustAgreeTos,
    /// User must agree to the privacy policy.
    UserMustAgreePrivacyPolicy,
    /// No access token was presented.
    UserNoAuthToken,
    /// The presented access token is invalid.
    UserInvalidAuthToken,
    /// The presented password is invalid.
    UserInvalidPassword,
    /// The connection's roles do not permit the method.
    UserRoleForbidden,
    /// Duplicate request.
    DuplicateRequest,
    /// Invalid expression.
    InvalidExpression,
    /// Invalid argument.
    InvalidArgument,
    /// Invalid state.
    InvalidState,
    /// Invalid sequence number.
    InvalidSeq,
    /// Invalid method code.
    InvalidMethod,
    /// Protocol violation.
    ProtocolViolation,
    /// User privileges are restricted.
    RestrictedUserPrivileges,
    /// Invalid role.
    InvalidRole,
    /// Internal error.
    InternalError,
}

impl EnumErrorCode {
    /// The numeric wire value of this error code.
    pub open spec fn spec_code(self) -> u32 {
        match self {
            EnumErrorCode::BadRequest => 100400,
            EnumErrorCode::NotFound => 100404,
            EnumErrorCode::InternalServerError => 100500,
            EnumErrorCode::NotImplemented => 100501,
            EnumErrorCode::DatabaseError => 100601,
            EnumErrorCode::InvalidService => 100602,
            EnumErrorCode::UserForbidden => 101403,
            EnumErrorCode::UserNotFound => 101404,
            EnumErrorCode::UserMustAgreeTos => 101601,
            EnumErrorCode::UserMustAgreePrivacyPolicy => 101602,
            EnumErrorCode::UserNoAuthToken => 101604,
            EnumErrorCode::UserInvalidAuthToken => 101605,
            EnumErrorCode::UserInvalidPassword => 101606,
            EnumErrorCode::UserRoleForbidden => 102403,
            EnumErrorCode::DuplicateRequest => 103001,
            EnumErrorCode::InvalidExpression => 104000,
            EnumErrorCode::InvalidArgument => 45349633,
            EnumErrorCode::InvalidState => 45349634,
            EnumErrorCode::InvalidSeq => 45349635,
            EnumErrorCode::InvalidMethod => 45349636,
            EnumErrorCode::ProtocolViolation => 45349637,
            EnumErrorCode::RestrictedUserPrivileges => 45349655,
            EnumErrorCode::InvalidRole => 45349660,
            EnumErrorCode::InternalError => 45349684,
        }
    }

    /// Returns the numeric wire value of this error code.
    pub fn code(self) -> (r: u32)
        ensures
            r == self.spec_code(),
    {
        match self {
            EnumErrorCode::BadRequest => 100400,
            EnumErrorCode::NotFound => 100404,
            EnumErrorCode::InternalServerError => 100500,
            EnumErrorCode::NotImplemented => 100501,
            EnumErrorCode::DatabaseError => 100601,
            EnumErrorCode::InvalidService => 100602,
            EnumErrorCode::UserForbidden => 101403,
            EnumErrorCode::UserNotFound => 101404,
            EnumErrorCode::UserMustAgreeTos => 101601,
            EnumErrorCode::UserMustAgreePrivacyPolicy => 101602,
            EnumErrorCode::UserNoAuthToken => 101604,
            EnumErrorCode::UserInvalidAuthToken => 101605,
            EnumErrorCode::UserInvalidPassword => 101606,
            EnumErrorCode::UserRoleForbidden => 102403,
            EnumErrorCode::DuplicateRequest => 103001,
            EnumErrorCode::InvalidExpression => 104000,
            EnumErrorCode::InvalidArgument => 45349633,
            EnumErrorCode::InvalidState => 45349634,
            EnumErrorCode::InvalidSeq => 45349635,
            EnumErrorCode::InvalidMethod => 45349636,
            EnumErrorCode::ProtocolViolation => 45349637,
            EnumErrorCode::RestrictedUserPrivileges => 45349655,
            EnumErrorCode::InvalidRole => 45349660,
            EnumErrorCode::InternalError => 45349684,
        }
    }
}

/// A typed protocol error: a numeric code plus a diagnostic message.
#[derive(Debug, Clone)]
pub struct HoneyIdError {
    /// Numeric protocol error code.
    pub code: u32,
    /// Human-readable diagnostic message.
    pub msg: String,
}

impl HoneyIdError {
    /// Builds an error from a numeric code and a message.
    pub fn new(code: u32, msg: String) -> (r: Self)
        ensures
            r.code == code,
            r.msg == msg,
    {
        HoneyIdError { code, msg }
    }

    /// Builds an error from one of the protocol's named codes.
    pub fn from_enum(code: EnumErrorCode, msg: String) -> (r: Self)
        ensures
            r.code == code.spec_code(),
            r.msg == msg,
    {
        HoneyIdError { code: code.code(), msg }
    }
}

/// Result alias used throughout the crate.
pub type HoneyIdResult<T> = Result<T, HoneyIdError>;

} // verus!
