//! Credentials for the Resource Owner Password Credentials grant.
use vstd::prelude::*;

mod errors;
pub mod parsers;

pub use errors::{CredentialsError, CredentialsResult};

verus! {

/// Credentials of the resource owner, used directly as an authorization
/// grant (RFC 6749 section 1.3.3).
#[derive(Debug, PartialEq)]
pub struct ResourceOwnerCredentials {
    /// The resource owner username.
    pub username: String,
    /// The resource owner password.
    pub password: String,
}

/// Credentials of the registered client, used to authenticate the token
/// request itself (RFC 6749 section 1.3.4).
#[derive(Debug, PartialEq)]
pub struct ClientCredentials {
    /// The id of the client to authenticate with the authorization server.
    pub client_id: String,
    /// The secret of the client to authenticate with the authorization
    /// server.
    pub client_secret: String,
}

/// Everything a token request needs: the client credentials and the resource
/// owner credentials.
#[derive(Debug, PartialEq)]
pub struct RequestTokenCredentials {
    pub client_credentials: ClientCredentials,
    pub owner_credentials: ResourceOwnerCredentials,
}

/// Yields credentials, freshly on every call, so that rotated secrets are
/// picked up without a restart.
pub trait CredentialsProvider {
    /// The client credentials.
    fn client_credentials(&self) -> CredentialsResult<ClientCredentials>;

    /// The resource owner credentials.
    fn owner_credentials(&self) -> CredentialsResult<ResourceOwnerCredentials>;

    /// Both credentials; fails as soon as either part fails.
    fn credentials(&self) -> CredentialsResult<RequestTokenCredentials> {
        let client_credentials = match self.client_credentials() {
            Ok(c) => c,
            Err(e) => {
                return Err(e);
            },
        };
        let owner_credentials = match self.owner_credentials() {
            Ok(o) => o,
            Err(e) => {
                return Err(e);
            },
        };
        Ok(RequestTokenCredentials { client_credentials, owner_credentials })
    }
}

} // verus!
