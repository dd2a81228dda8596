//! The error family visible to readers of managed tokens.
use vstd::prelude::*;

verus! {

/// A `Result` whose failure is always a `TokenError`.
pub type TokenResult<T> = Result<T, TokenError>;

/// An error returned when a managed token is queried.
#[derive(Debug, PartialEq)]
pub struct TokenError {
    pub kind: TokenErrorKind,
}

impl TokenError {
    /// Creates an error of the given kind.
    pub fn new(kind: TokenErrorKind) -> (e: Self)
        ensures
            e.kind == kind,
    {
        TokenError { kind }
    }

    /// The kind of this error.
    pub fn kind(&self) -> (k: &TokenErrorKind)
        ensures
            k == &self.kind,
    {
        &self.kind
    }
}

impl Clone for TokenError {
    fn clone(&self) -> (e: Self)
        ensures
            e == *self,
    {
        TokenError { kind: self.kind.clone() }
    }
}

impl From<TokenErrorKind> for TokenError {
    fn from(kind: TokenErrorKind) -> (e: TokenError) {
        TokenError { kind }
    }
}

impl vstd::std_specs::convert::FromSpecImpl<TokenErrorKind> for TokenError {
    open spec fn obeys_from_spec() -> bool {
        true
    }

    open spec fn from_spec(kind: TokenErrorKind) -> TokenError {
        TokenError { kind }
    }
}

/// The kinds of failures a reader of managed tokens can see. Each carries the
/// queried identifier, or a provider diagnostic, as a string.
#[derive(Debug, PartialEq)]
pub enum TokenErrorKind {
    /// No token with the given identifier is managed.
    NoToken(String),
    /// The token is managed but its first refresh has not completed yet.
    NotInitialized(String),
    /// The last refresh failed and the previous token is no longer valid.
    AccessTokenProvider(String),
}

impl Clone for TokenErrorKind {
    fn clone(&self) -> (k: Self)
        ensures
            k == *self,
    {
        match self {
            TokenErrorKind::NoToken(id) => TokenErrorKind::NoToken(id.clone()),
            TokenErrorKind::NotInitialized(id) => TokenErrorKind::NotInitialized(id.clone()),
            TokenErrorKind::AccessTokenProvider(msg) => TokenErrorKind::AccessTokenProvider(
                msg.clone(),
            ),
        }
    }
}

} // verus!
