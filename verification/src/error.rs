//! The error family reported by the token introspection client.
use vstd::prelude::*;

verus! {

/// A `Result` whose failure is always a `TokenInfoError`.
pub type TokenInfoResult<T> = Result<T, TokenInfoError>;

/// An error returned by a token introspection client.
#[derive(Debug, PartialEq)]
pub struct TokenInfoError {
    pub kind: TokenInfoErrorKind,
}

impl TokenInfoError {
    /// Creates an error of the given kind.
    pub fn new(kind: TokenInfoErrorKind) -> (e: Self)
        ensures
            e.kind == kind,
    {
        TokenInfoError { kind }
    }

    /// The kind of this error.
    pub fn kind(&self) -> (k: &TokenInfoErrorKind)
        ensures
            k == &self.kind,
    {
        &self.kind
    }

    /// Holds of the kinds on which a retry may succeed: transport and
    /// server-side failures. Content, URL, authentication and client faults
    /// are terminal, and so is an exhausted budget.
    pub open spec fn spec_is_retry_suggested(&self) -> bool {
        match self.kind {
            TokenInfoErrorKind::Connection(_) => true,
            TokenInfoErrorKind::Io(_) => true,
            TokenInfoErrorKind::Server(_) => true,
            TokenInfoErrorKind::Other(_) => true,
            _ => false,
        }
    }

    /// Says whether calling again with the same input may succeed.
    pub fn is_retry_suggested(&self) -> (r: bool)
        ensures
            r == self.spec_is_retry_suggested(),
    {
        match &self.kind {
            TokenInfoErrorKind::InvalidResponseContent(_) => false,
            TokenInfoErrorKind::UrlError(_) => false,
            TokenInfoErrorKind::NotAuthenticated(_) => false,
            TokenInfoErrorKind::Connection(_) => true,
            TokenInfoErrorKind::Io(_) => true,
            TokenInfoErrorKind::Client(_) => false,
            TokenInfoErrorKind::Server(_) => true,
            TokenInfoErrorKind::Other(_) => true,
            TokenInfoErrorKind::BudgetExceeded => false,
        }
    }
}

impl Clone for TokenInfoError {
    fn clone(&self) -> (e: Self)
        ensures
            e == *self,
    {
        TokenInfoError { kind: self.kind.clone() }
    }
}

impl From<TokenInfoErrorKind> for TokenInfoError {
    fn from(kind: TokenInfoErrorKind) -> (e: TokenInfoError) {
        TokenInfoError { kind }
    }
}

impl vstd::std_specs::convert::FromSpecImpl<TokenInfoErrorKind> for TokenInfoError {
    open spec fn obeys_from_spec() -> bool {
        true
    }

    open spec fn from_spec(kind: TokenInfoErrorKind) -> TokenInfoError {
        TokenInfoError { kind }
    }
}

/// The kinds of introspection failures.
#[derive(Debug, PartialEq)]
pub enum TokenInfoErrorKind {
    /// The response could not be turned into a `TokenInfo`.
    InvalidResponseContent(String),
    /// The URL for the introspection request was invalid.
    UrlError(String),
    /// The introspection endpoint refused the token (HTTP 401).
    NotAuthenticated(String),
    /// The connection to the introspection endpoint broke.
    Connection(String),
    /// Reading the response failed.
    Io(String),
    /// The request was faulty (HTTP 4xx other than 401).
    Client(String),
    /// The introspection endpoint itself failed (HTTP 5xx).
    Server(String),
    /// Anything else, including unexpected status codes.
    Other(String),
    /// The per-call time budget was zero or already spent.
    BudgetExceeded,
}

impl Clone for TokenInfoErrorKind {
    fn clone(&self) -> (k: Self)
        ensures
            k == *self,
    {
        match self {
            TokenInfoErrorKind::InvalidResponseContent(m) => TokenInfoErrorKind::InvalidResponseContent(m.clone()),
            TokenInfoErrorKind::UrlError(m) => TokenInfoErrorKind::UrlError(m.clone()),
            TokenInfoErrorKind::NotAuthenticated(m) => TokenInfoErrorKind::NotAuthenticated(m.clone()),
            TokenInfoErrorKind::Connection(m) => TokenInfoErrorKind::Connection(m.clone()),
            TokenInfoErrorKind::Io(m) => TokenInfoErrorKind::Io(m.clone()),
            TokenInfoErrorKind::Client(m) => TokenInfoErrorKind::Client(m.clone()),
            TokenInfoErrorKind::Server(m) => TokenInfoErrorKind::Server(m.clone()),
            TokenInfoErrorKind::Other(m) => TokenInfoErrorKind::Other(m.clone()),
            TokenInfoErrorKind::BudgetExceeded => TokenInfoErrorKind::BudgetExceeded,
        }
    }
}

} // verus!
