//! The error family reported by access token providers.
use vstd::prelude::*;

use crate::str_eq;
use super::credentials::CredentialsError;

verus! {

/// An error returned when requesting an access token from an authorization
/// server.
#[derive(Debug, PartialEq)]
pub enum AccessTokenProviderError {
    /// The authorization server rejected the request with a structured error
    /// (HTTP 400). Terminal: no retry will help.
    BadAuthorizationRequest(AuthorizationRequestError),
    /// A client-side fault that is not a `BadAuthorizationRequest`. Terminal.
    Client(String),
    /// The authorization server itself failed (HTTP 5xx). Retriable.
    Server(String),
    /// The connection to the authorization server broke. Retriable.
    Connection(String),
    /// The response could not be decoded. Terminal.
    Parse(String),
    /// The credentials could not be loaded; a transient filesystem fault may
    /// pass. Retriable.
    Credentials(CredentialsError),
    /// Anything else. Retriable.
    Other(String),
}

impl AccessTokenProviderError {
    /// Holds of the kinds on which a retry may succeed: server, connection
    /// and credential faults, and unclassified errors. A rejected request, a
    /// client fault and an undecodable response are terminal.
    pub open spec fn spec_is_transient(&self) -> bool {
        match self {
            AccessTokenProviderError::Server(_) => true,
            AccessTokenProviderError::Connection(_) => true,
            AccessTokenProviderError::Credentials(_) => true,
            AccessTokenProviderError::Other(_) => true,
            _ => false,
        }
    }

    /// Says whether requesting again with the same input may succeed.
    pub fn is_transient(&self) -> (r: bool)
        ensures
            r == self.spec_is_transient(),
    {
        match self {
            AccessTokenProviderError::BadAuthorizationRequest(_) => false,
            AccessTokenProviderError::Client(_) => false,
            AccessTokenProviderError::Server(_) => true,
            AccessTokenProviderError::Connection(_) => true,
            AccessTokenProviderError::Parse(_) => false,
            AccessTokenProviderError::Credentials(_) => true,
            AccessTokenProviderError::Other(_) => true,
        }
    }
}

impl Clone for AccessTokenProviderError {
    fn clone(&self) -> (e: Self)
        ensures
            e == *self,
    {
        match self {
            AccessTokenProviderError::BadAuthorizationRequest(err) => {
                AccessTokenProviderError::BadAuthorizationRequest(err.clone())
            },
            AccessTokenProviderError::Client(m) => AccessTokenProviderError::Client(m.clone()),
            AccessTokenProviderError::Server(m) => AccessTokenProviderError::Server(m.clone()),
            AccessTokenProviderError::Connection(m) => AccessTokenProviderError::Connection(
                m.clone(),
            ),
            AccessTokenProviderError::Parse(m) => AccessTokenProviderError::Parse(m.clone()),
            AccessTokenProviderError::Credentials(e) => AccessTokenProviderError::Credentials(
                e.clone(),
            ),
            AccessTokenProviderError::Other(m) => AccessTokenProviderError::Other(m.clone()),
        }
    }
}

impl From<CredentialsError> for AccessTokenProviderError {
    fn from(what: CredentialsError) -> (e: AccessTokenProviderError) {
        AccessTokenProviderError::Credentials(what)
    }
}

impl vstd::std_specs::convert::FromSpecImpl<CredentialsError> for AccessTokenProviderError {
    open spec fn obeys_from_spec() -> bool {
        true
    }

    open spec fn from_spec(what: CredentialsError) -> AccessTokenProviderError {
        AccessTokenProviderError::Credentials(what)
    }
}

/// The structured error an authorization server returns on a bad request
/// (RFC 6749 section 5.2).
#[derive(Debug, PartialEq)]
pub struct AuthorizationRequestError {
    /// The error code returned by the authorization server.
    pub error: AuthorizationServerErrorCode,
    /// Human-readable text with additional information.
    pub error_description: Option<String>,
    /// A URI of a web page with information about the error.
    pub error_uri: Option<String>,
}

impl Clone for AuthorizationRequestError {
    fn clone(&self) -> (e: Self)
        ensures
            e == *self,
    {
        AuthorizationRequestError {
            error: self.error,
            error_description: match &self.error_description {
                Some(d) => Some(d.clone()),
                None => None,
            },
            error_uri: match &self.error_uri {
                Some(u) => Some(u.clone()),
                None => None,
            },
        }
    }
}

/// The error codes an authorization server may return on a bad request
/// (RFC 6749 section 5.2).
#[derive(Debug, PartialEq, Eq, Clone, Copy)]
pub enum AuthorizationServerErrorCode {
    /// The request is malformed: a parameter is missing, repeated or
    /// unsupported.
    InvalidRequest,
    /// Client authentication failed.
    InvalidClient,
    /// The authorization grant or refresh token is invalid, expired or
    /// revoked.
    InvalidGrant,
    /// The client is not authorized to use this grant type.
    UnauthorizedClient,
    /// The grant type is not supported by the authorization server.
    UnsupportedGrantType,
    /// The requested scope is invalid, unknown or malformed.
    InvalidScope,
}

/// The code denoted by the given wire name, if any.
pub open spec fn spec_error_code_of(s: Seq<char>) -> Option<AuthorizationServerErrorCode> {
    if s == "invalid_request"@ {
        Some(AuthorizationServerErrorCode::InvalidRequest)
    } else if s == "invalid_client"@ {
        Some(AuthorizationServerErrorCode::InvalidClient)
    } else if s == "invalid_grant"@ {
        Some(AuthorizationServerErrorCode::InvalidGrant)
    } else if s == "unauthorized_client"@ {
        Some(AuthorizationServerErrorCode::UnauthorizedClient)
    } else if s == "unsupported_grant_type"@ {
        Some(AuthorizationServerErrorCode::UnsupportedGrantType)
    } else if s == "invalid_scope"@ {
        Some(AuthorizationServerErrorCode::InvalidScope)
    } else {
        None
    }
}

impl AuthorizationServerErrorCode {
    /// Reads an error code from its wire name; anything unknown is an
    /// `Other` provider error.
    pub fn from_wire(s: &str) -> (r: Result<AuthorizationServerErrorCode, AccessTokenProviderError>)
        ensures
            r is Ok <==> spec_error_code_of(s@) is Some,
            r matches Ok(code) ==> Some(code) == spec_error_code_of(s@),
            r matches Err(e) ==> e matches AccessTokenProviderError::Other(_),
    {
        if str_eq(s, "invalid_request") {
            Ok(AuthorizationServerErrorCode::InvalidRequest)
        } else if str_eq(s, "invalid_client") {
            Ok(AuthorizationServerErrorCode::InvalidClient)
        } else if str_eq(s, "invalid_grant") {
            Ok(AuthorizationServerErrorCode::InvalidGrant)
        } else if str_eq(s, "unauthorized_client") {
            Ok(AuthorizationServerErrorCode::UnauthorizedClient)
        } else if str_eq(s, "unsupported_grant_type") {
            Ok(AuthorizationServerErrorCode::UnsupportedGrantType)
        } else if str_eq(s, "invalid_scope") {
            Ok(AuthorizationServerErrorCode::InvalidScope)
        } else {
            Err(AccessTokenProviderError::Other("not a valid error kind".to_owned()))
        }
    }
}

} // verus!
