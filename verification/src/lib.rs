//! A small toolkit for OAuth2 access tokens: a managed token cache driven by
//! a scheduler/updater pair that keeps tokens fresh, and a token introspection
//! client with bounded retries and an optional fallback endpoint.
//!
//! See RFC 6749 (OAuth 2.0) and RFC 7662 (token introspection).
use vstd::prelude::*;

pub mod client;
pub mod error;
pub mod json_model;
pub mod metrics;
pub mod parsers;
pub mod token_manager;

pub use error::{TokenInfoError, TokenInfoErrorKind, TokenInfoResult};

verus! {

/// Compares two string slices by content.
pub fn str_eq(a: &str, b: &str) -> (r: bool)
    ensures
        r == (a@ == b@),
{
    let owned_a: String = a.to_owned();
    let owned_b: String = b.to_owned();
    owned_a == owned_b
}

/// An access token: an opaque bearer secret (RFC 6749 section 1.4).
///
/// The secret is deliberately not printable through any formatting helper of
/// this crate; diagnostics must not leak it.
pub struct AccessToken(pub String);

impl AccessToken {
    /// Creates a new `AccessToken` holding the given secret.
    pub fn new(token: &str) -> (t: Self)
        ensures
            t.0@ == token@,
    {
        AccessToken(token.to_owned())
    }
}

impl Clone for AccessToken {
    fn clone(&self) -> (t: Self)
        ensures
            t == *self,
    {
        AccessToken(self.0.clone())
    }
}

/// An access token scope (RFC 6749 section 3.3).
#[derive(PartialEq, Eq, Hash, Debug)]
pub struct Scope(pub String);

impl Scope {
    /// Creates a new `Scope`.
    pub fn new(scope: &str) -> (s: Scope)
        ensures
            s.0@ == scope@,
    {
        Scope(scope.to_owned())
    }
}

impl Clone for Scope {
    fn clone(&self) -> (s: Self)
        ensures
            s == *self,
    {
        Scope(self.0.clone())
    }
}

/// An id that uniquely identifies the owner of a protected resource.
#[derive(PartialEq, Eq, Hash, Debug)]
pub struct UserId(pub String);

impl UserId {
    /// Creates a new `UserId`.
    pub fn new(uid: &str) -> (u: UserId)
        ensures
            u.0@ == uid@,
    {
        UserId(uid.to_owned())
    }
}

impl Clone for UserId {
    fn clone(&self) -> (u: Self)
        ensures
            u == *self,
    {
        UserId(self.0.clone())
    }
}

/// Holds of a scope sequence that contains a scope with the given content.
pub open spec fn scopes_contain(scopes: Seq<Scope>, scope: Seq<char>) -> bool {
    exists|i: int| 0 <= i < scopes.len() && scopes[i].0@ == scope
}

/// The contents of a scope sequence.
pub open spec fn scopes_view(scopes: Seq<Scope>) -> Seq<Seq<char>> {
    scopes.map_values(|sc: Scope| sc.0@)
}

/// The mathematical shape of a `TokenInfo`.
pub struct TokenInfoM {
    pub active: bool,
    pub user_id: Option<Seq<char>>,
    pub scope: Seq<Seq<char>>,
    pub expires_in_seconds: Option<u64>,
}

/// Information on an `AccessToken` returned by an introspection endpoint
/// (RFC 7662 section 2.2).
#[derive(PartialEq, Debug)]
pub struct TokenInfo {
    /// Whether the presented token is currently active.
    pub active: bool,
    /// Identifier for the resource owner who authorized this token.
    pub user_id: Option<UserId>,
    /// The scopes associated with this token.
    pub scope: Vec<Scope>,
    /// The number of seconds until the token expires.
    pub expires_in_seconds: Option<u64>,
}

impl View for TokenInfo {
    type V = TokenInfoM;

    open spec fn view(&self) -> TokenInfoM {
        TokenInfoM {
            active: self.active,
            user_id: match self.user_id {
                Some(u) => Some(u.0@),
                None => None,
            },
            scope: scopes_view(self.scope@),
            expires_in_seconds: self.expires_in_seconds,
        }
    }
}

impl TokenInfo {
    /// Checks whether this `TokenInfo` has the given `Scope`.
    pub fn has_scope(&self, scope: &Scope) -> (r: bool)
        ensures
            r == scopes_contain(self.scope@, scope.0@),
    {
        let n = self.scope.len();
        let mut i: usize = 0;
        while i < n
            invariant
                0 <= i <= n,
                n == self.scope@.len(),
                forall|j: int| 0 <= j < i ==> self.scope@[j].0@ != scope.0@,
            decreases n - i,
        {
            if str_eq(self.scope[i].0.as_str(), scope.0.as_str()) {
                return true;
            }
            i = i + 1;
        }
        false
    }

    /// Checks whether this `TokenInfo` has all of the given `Scope`s.
    pub fn has_scopes(&self, scopes: &[Scope]) -> (r: bool)
        ensures
            r == (forall|i: int|
                0 <= i < scopes@.len() ==> scopes_contain(self.scope@, scopes@[i].0@)),
    {
        let n = scopes.len();
        let mut i: usize = 0;
        while i < n
            invariant
                0 <= i <= n,
                n == scopes@.len(),
                forall|j: int| 0 <= j < i ==> scopes_contain(self.scope@, scopes@[j].0@),
            decreases n - i,
        {
            if !self.has_scope(&scopes[i]) {
                return false;
            }
            i = i + 1;
        }
        true
    }

    /// Fails with `NotAuthorized` exactly when this `TokenInfo` does not have
    /// the given scope.
    pub fn must_have_scope(&self, scope: &Scope) -> (r: Result<(), NotAuthorized>)
        ensures
            r is Ok <==> scopes_contain(self.scope@, scope.0@),
    {
        if self.has_scope(scope) {
            Ok(())
        } else {
            let mut msg: String = String::from_str("Required scope '");
            msg.append(scope.0.as_str());
            msg.append("' not present.");
            Err(NotAuthorized(msg))
        }
    }
}

/// A resource owner that has been authenticated by token introspection.
#[derive(Debug)]
pub struct AuthenticatedUser {
    pub user_id: UserId,
    pub scopes: Vec<Scope>,
}

impl AuthenticatedUser {
    /// Creates an `AuthenticatedUser` without any scopes.
    pub fn new(user_id: UserId) -> (u: Self)
        ensures
            u.user_id == user_id,
            u.scopes@.len() == 0,
    {
        AuthenticatedUser { user_id, scopes: Vec::new() }
    }

    /// The user a `TokenInfo` authenticates: its resource owner carrying its
    /// scopes; `None` exactly when the info names no resource owner.
    pub fn from_token_info(info: TokenInfo) -> (r: Option<AuthenticatedUser>)
        ensures
            r is Some <==> info.user_id is Some,
            r matches Some(user) ==> Some(user.user_id) == info.user_id && user.scopes
                == info.scope,
    {
        match info.user_id {
            Some(user_id) => Some(AuthenticatedUser { user_id, scopes: info.scope }),
            None => None,
        }
    }

    /// Checks whether this user has the given `Scope`.
    pub fn has_scope(&self, scope: &Scope) -> (r: bool)
        ensures
            r == scopes_contain(self.scopes@, scope.0@),
    {
        let n = self.scopes.len();
        let mut i: usize = 0;
        while i < n
            invariant
                0 <= i <= n,
                n == self.scopes@.len(),
                forall|j: int| 0 <= j < i ==> self.scopes@[j].0@ != scope.0@,
            decreases n - i,
        {
            if str_eq(self.scopes[i].0.as_str(), scope.0.as_str()) {
                return true;
            }
            i = i + 1;
        }
        false
    }

    /// Checks whether this user has all of the given `Scope`s.
    pub fn has_scopes(&self, scopes: &[Scope]) -> (r: bool)
        ensures
            r == (forall|i: int|
                0 <= i < scopes@.len() ==> scopes_contain(self.scopes@, scopes@[i].0@)),
    {
        let n = scopes.len();
        let mut i: usize = 0;
        while i < n
            invariant
                0 <= i <= n,
                n == scopes@.len(),
                forall|j: int| 0 <= j < i ==> scopes_contain(self.scopes@, scopes@[j].0@),
            decreases n - i,
        {
            if !self.has_scope(&scopes[i]) {
                return false;
            }
            i = i + 1;
        }
        true
    }

    /// Fails with `NotAuthorized` exactly when this user does not have the
    /// given scope.
    pub fn must_have_scope(&self, scope: &Scope) -> (r: Result<(), NotAuthorized>)
        ensures
            r is Ok <==> scopes_contain(self.scopes@, scope.0@),
    {
        if self.has_scope(scope) {
            Ok(())
        } else {
            let mut msg: String = String::from_str("User '");
            msg.append(self.user_id.0.as_str());
            msg.append("' does not have the required scope '");
            msg.append(scope.0.as_str());
            msg.append("'.");
            Err(NotAuthorized(msg))
        }
    }
}

/// There is no authorization for the requested resource.
#[derive(Debug)]
pub struct NotAuthorized(pub String);

impl NotAuthorized {
    /// Creates a new `NotAuthorized` carrying a diagnostic message.
    pub fn new(msg: &str) -> (e: NotAuthorized)
        ensures
            e.0@ == msg@,
    {
        NotAuthorized(msg.to_owned())
    }

    /// The diagnostic message.
    pub fn message(&self) -> (m: &String)
        ensures
            m == &self.0,
    {
        &self.0
    }
}

/// A `Result` whose failure is always an `InitializationError`.
pub type InitializationResult<T> = Result<T, InitializationError>;

/// An error returned when the initialization of a component fails.
#[derive(Debug)]
pub struct InitializationError(pub String);

impl InitializationError {
    /// Creates a new `InitializationError` carrying a diagnostic message.
    pub fn new(message: &str) -> (e: InitializationError)
        ensures
            e.0@ == message@,
    {
        InitializationError(message.to_owned())
    }

    /// The diagnostic message.
    pub fn message(&self) -> (m: &String)
        ensures
            m == &self.0,
    {
        &self.0
    }
}

impl Clone for InitializationError {
    fn clone(&self) -> (e: Self)
        ensures
            e == *self,
    {
        InitializationError(self.0.clone())
    }
}

/// Gives a `TokenInfo` for an `AccessToken` (RFC 7662).
pub trait TokenInfoService {
    /// Introspects the given token.
    fn introspect(&self, token: &AccessToken) -> TokenInfoResult<TokenInfo>;

    /// Authenticates the resource owner behind the given token: introspects
    /// it and requires the result to name a user.
    fn authenticate_user(&self, token: &AccessToken) -> TokenInfoResult<AuthenticatedUser> {
        match self.introspect(token) {
            Ok(info) => match AuthenticatedUser::from_token_info(info) {
                Some(user) => Ok(user),
                None => Err(
                    TokenInfoError::new(
                        TokenInfoErrorKind::Other(
                            "the user id is missing in the token info".to_owned(),
                        ),
                    ),
                ),
            },
            Err(e) => Err(e),
        }
    }
}

} // verus!
