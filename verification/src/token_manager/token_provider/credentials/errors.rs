//! The error family reported by credentials providers.
use vstd::prelude::*;

verus! {

/// A `Result` whose failure is always a `CredentialsError`.
pub type CredentialsResult<T> = Result<T, CredentialsError>;

/// An error returned when loading or parsing credentials.
#[derive(Debug, PartialEq)]
pub enum CredentialsError {
    /// Incoming credentials data could not be parsed.
    Parse(String),
    /// Retrieving the data that should be parsed failed.
    Io(String),
    /// Anything else.
    Other(String),
}

impl Clone for CredentialsError {
    fn clone(&self) -> (e: Self)
        ensures
            e == *self,
    {
        match self {
            CredentialsError::Parse(m) => CredentialsError::Parse(m.clone()),
            CredentialsError::Io(m) => CredentialsError::Io(m.clone()),
            CredentialsError::Other(m) => CredentialsError::Other(m.clone()),
        }
    }
}

} // verus!
