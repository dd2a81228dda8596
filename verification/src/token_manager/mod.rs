//! Managing `AccessToken`s.
//!
//! Tokens are configured as `ManagedToken`s, grouped by the provider that
//! issues them. A scheduler/updater pair keeps the rows fresh; readers query
//! tokens by identifier and never block on the network. The workers are
//! loops around the verified state transitions in [`internals`]: whoever
//! runs them owns the threads, the channel pump and the sleeping.
use vstd::prelude::*;

mod error;
pub mod internals;
pub mod token_provider;

pub use error::{TokenError, TokenErrorKind, TokenResult};

use crate::{AccessToken, InitializationError, InitializationResult, Scope};
use internals::{lemma_index_of_first, lemma_index_of_none, row_like, spec_ids_unique,
    spec_index_of, spec_rows_of_groups, EpochMillis, Inner, SlotValue};
use token_provider::AccessTokenProvider;

verus! {

/// An `AccessToken` to be managed: its identifier and the scopes it must
/// carry.
pub struct ManagedToken {
    /// The identifier under which the token is queried.
    pub token_id: String,
    /// The scopes to request for the token.
    pub scopes: Vec<Scope>,
}

/// A builder to configure a `ManagedToken`.
pub struct ManagedTokenBuilder {
    pub token_id: Option<String>,
    pub scopes: Vec<Scope>,
}

impl ManagedTokenBuilder {
    /// Sets the identifier to query the managed token by. Mandatory.
    pub fn with_identifier(&mut self, token_id: String)
        ensures
            final(self).token_id == Some(token_id),
            final(self).scopes == old(self).scopes,
    {
        self.token_id = Some(token_id);
    }

    /// Sets the identifier to query the managed token by; an alias of
    /// `with_identifier`.
    pub fn with_name(&mut self, token_id: String)
        ensures
            final(self).token_id == Some(token_id),
            final(self).scopes == old(self).scopes,
    {
        self.token_id = Some(token_id);
    }

    /// Adds a `Scope` to be granted by the token.
    pub fn with_scope(&mut self, scope: Scope)
        ensures
            final(self).token_id == old(self).token_id,
            final(self).scopes@ == old(self).scopes@.push(scope),
    {
        self.scopes.push(scope);
    }

    /// Adds multiple `Scope`s to be granted by the token.
    pub fn with_scopes(&mut self, scopes: Vec<Scope>)
        ensures
            final(self).token_id == old(self).token_id,
            final(self).scopes@ == old(self).scopes@ + scopes@,
    {
        let n = scopes.len();
        let ghost before = self.scopes@;
        let mut i: usize = 0;
        let mut incoming = scopes;
        proof {
            assert(before + incoming@.take(0) =~= before);
        }
        while i < n
            invariant
                0 <= i <= n,
                n == incoming@.len(),
                self.token_id == old(self).token_id,
                self.scopes@ == before + incoming@.take(i as int),
            decreases n - i,
        {
            let scope = incoming[i].clone();
            self.scopes.push(scope);
            proof {
                assert(before + incoming@.take(i + 1) =~= (before + incoming@.take(i as int)).push(
                    incoming@[i as int],
                ));
            }
            i = i + 1;
        }
        proof {
            assert(incoming@.take(n as int) =~= incoming@);
        }
    }

    /// Builds the managed token; fails exactly when no identifier was set.
    pub fn build(self) -> (r: Result<ManagedToken, InitializationError>)
        ensures
            r is Ok <==> self.token_id is Some,
            r matches Ok(t) ==> Some(t.token_id) == self.token_id && t.scopes == self.scopes,
    {
        match self.token_id {
            Some(token_id) => Ok(ManagedToken { token_id, scopes: self.scopes }),
            None => Err(InitializationError::new("a token identifier is mandatory")),
        }
    }
}

impl Default for ManagedTokenBuilder {
    /// An empty builder: no identifier, no scopes.
    fn default() -> (b: Self)
        ensures
            b.token_id is None,
            b.scopes@.len() == 0,
    {
        ManagedTokenBuilder { token_id: None, scopes: Vec::new() }
    }
}

/// A group of `ManagedToken`s issued by the same authorization server.
///
/// The thresholds are fractions of a token's lifetime, in thousandths of it,
/// within (0, 1]: past the refresh threshold a proactive refresh is
/// scheduled, past the warning threshold a near-expiry notification is due.
pub struct ManagedTokenGroup<P> {
    /// The provider that requests the tokens of this group.
    pub token_provider: P,
    /// The tokens of this group.
    pub managed_tokens: Vec<ManagedToken>,
    /// When to refresh, in thousandths of the lifetime. Default: 750.
    pub refresh_threshold: u16,
    /// When to warn, in thousandths of the lifetime. Default: 850.
    pub warning_threshold: u16,
}

impl<P> ManagedTokenGroup<P> {
    /// Holds of groups whose thresholds are valid fractions within (0, 1].
    pub open spec fn thresholds_valid(self) -> bool {
        &&& 1 <= self.refresh_threshold <= 1000
        &&& 1 <= self.warning_threshold <= 1000
    }
}

/// A builder to configure a `ManagedTokenGroup`.
pub struct ManagedTokenGroupBuilder<P> {
    pub token_provider: Option<P>,
    pub managed_tokens: Vec<ManagedToken>,
    pub refresh_threshold: u16,
    pub warning_threshold: u16,
}

impl<P> ManagedTokenGroupBuilder<P> {
    /// Sets the `AccessTokenProvider` for this group. Mandatory.
    pub fn with_token_provider(&mut self, token_provider: P)
        ensures
            *final(self) == (ManagedTokenGroupBuilder {
                token_provider: Some(token_provider),
                ..*old(self)
            }),
    {
        self.token_provider = Some(token_provider);
    }

    /// Adds a `ManagedToken` to this group.
    pub fn with_managed_token(&mut self, managed_token: ManagedToken)
        ensures
            final(self).managed_tokens@ == old(self).managed_tokens@.push(managed_token),
            final(self).token_provider == old(self).token_provider,
            final(self).refresh_threshold == old(self).refresh_threshold,
            final(self).warning_threshold == old(self).warning_threshold,
    {
        self.managed_tokens.push(managed_token);
    }

    /// Sets the refresh threshold, in thousandths of the token lifetime.
    pub fn with_refresh_threshold(&mut self, refresh_threshold: u16)
        ensures
            *final(self) == (ManagedTokenGroupBuilder { refresh_threshold, ..*old(self) }),
    {
        self.refresh_threshold = refresh_threshold;
    }

    /// Sets the warning threshold, in thousandths of the token lifetime.
    pub fn with_warning_threshold(&mut self, warning_threshold: u16)
        ensures
            *final(self) == (ManagedTokenGroupBuilder { warning_threshold, ..*old(self) }),
    {
        self.warning_threshold = warning_threshold;
    }

    /// Adds a `ManagedToken` built from the given builder; fails exactly
    /// when that builder has no identifier.
    pub fn with_managed_token_from_builder(&mut self, builder: ManagedTokenBuilder) -> (r: Result<
        (),
        InitializationError,
    >)
        ensures
            r is Ok <==> builder.token_id is Some,
            r is Ok ==> final(self).managed_tokens@.len() == old(self).managed_tokens@.len() + 1,
            r is Err ==> *final(self) == *old(self),
    {
        match builder.build() {
            Ok(managed_token) => {
                self.managed_tokens.push(managed_token);
                Ok(())
            },
            Err(e) => Err(e),
        }
    }

    /// Sets everything needed to manage a single token.
    pub fn single_token(token_id: String, scopes: Vec<Scope>, token_provider: P) -> (b: Self)
        ensures
            b.token_provider == Some(token_provider),
            b.managed_tokens@.len() == 1,
            b.managed_tokens@[0].token_id == token_id,
            b.managed_tokens@[0].scopes == scopes,
            b.refresh_threshold == 750,
            b.warning_threshold == 850,
    {
        let mut managed_tokens: Vec<ManagedToken> = Vec::new();
        managed_tokens.push(ManagedToken { token_id, scopes });
        ManagedTokenGroupBuilder {
            token_provider: Some(token_provider),
            managed_tokens,
            refresh_threshold: 750,
            warning_threshold: 850,
        }
    }

    /// Builds the group. Fails exactly when the provider is missing, no
    /// token was added, or a threshold lies outside (0, 1].
    pub fn build(self) -> (r: Result<ManagedTokenGroup<P>, InitializationError>)
        ensures
            r is Ok <==> (self.token_provider is Some && self.managed_tokens@.len() > 0 && 1
                <= self.refresh_threshold <= 1000 && 1 <= self.warning_threshold <= 1000),
            r matches Ok(g) ==> Some(g.token_provider) == self.token_provider && g.managed_tokens
                == self.managed_tokens && g.refresh_threshold == self.refresh_threshold
                && g.warning_threshold == self.warning_threshold,
    {
        let token_provider = match self.token_provider {
            Some(p) => p,
            None => {
                return Err(InitializationError::new("a token provider is mandatory"));
            },
        };
        if self.managed_tokens.len() == 0 {
            return Err(InitializationError::new("managed tokens must not be empty"));
        }
        if self.refresh_threshold < 1 || self.refresh_threshold > 1000 {
            return Err(
                InitializationError::new(
                    "the refresh threshold must lie within (0, 1], in thousandths",
                ),
            );
        }
        if self.warning_threshold < 1 || self.warning_threshold > 1000 {
            return Err(
                InitializationError::new(
                    "the warning threshold must lie within (0, 1], in thousandths",
                ),
            );
        }
        Ok(
            ManagedTokenGroup {
                token_provider,
                managed_tokens: self.managed_tokens,
                refresh_threshold: self.refresh_threshold,
                warning_threshold: self.warning_threshold,
            },
        )
    }
}

impl<P> Default for ManagedTokenGroupBuilder<P> {
    /// An empty builder with the default thresholds.
    fn default() -> (b: Self)
        ensures
            b.token_provider is None,
            b.managed_tokens@.len() == 0,
            b.refresh_threshold == 750,
            b.warning_threshold == 850,
    {
        ManagedTokenGroupBuilder {
            token_provider: None,
            managed_tokens: Vec::new(),
            refresh_threshold: 750,
            warning_threshold: 850,
        }
    }
}

/// Can be queried for `AccessToken`s by the identifier configured on the
/// respective `ManagedToken`.
pub trait GivesAccessTokensById {
    /// Gets an `AccessToken` by identifier.
    fn get_access_token(&self, token_id: &str) -> TokenResult<AccessToken>;

    /// Asks for a refresh of the token with the given identifier;
    /// best-effort, returns immediately.
    fn refresh(&self, token_id: &str);
}

/// Looks a token up in paired identifier and slot vectors: the slot's
/// current value, cloned, or `NoToken` for an unknown identifier.
fn lookup_token(ids: &Vec<String>, slots: &Vec<SlotValue>, token_id: &str) -> (r: TokenResult<
    AccessToken,
>)
    requires
        ids@.len() == slots@.len(),
    ensures
        spec_index_of(ids@.map_values(|s: String| s@), token_id@) is None ==> (r matches Err(e)
            && e.kind matches TokenErrorKind::NoToken(s) && s@ == token_id@),
        spec_index_of(ids@.map_values(|s: String| s@), token_id@) matches Some(i) ==> match slots@[i] {
            Ok(token) => (r matches Ok(t) && t == token),
            Err(kind) => (r matches Err(e) && e.kind == kind),
        },
{
    let n = ids.len();
    let mut i: usize = 0;
    while i < n
        invariant
            0 <= i <= n,
            n == ids@.len(),
            ids@.len() == slots@.len(),
            forall|j: int| 0 <= j < i ==> #[trigger] ids@[j]@ != token_id@,
        decreases n - i,
    {
        if crate::str_eq(ids[i].as_str(), token_id) {
            proof {
                let views = ids@.map_values(|s: String| s@);
                assert(views[i as int] == token_id@);
                lemma_index_of_first(views, token_id@, i as int);
            }
            match &slots[i] {
                Ok(token) => {
                    return Ok(token.clone());
                },
                Err(kind) => {
                    return Err(TokenError::new(kind.clone()));
                },
            }
        }
        i = i + 1;
    }
    proof {
        let views = ids@.map_values(|s: String| s@);
        assert(forall|j: int| 0 <= j < views.len() ==> views[j] != token_id@);
        lemma_index_of_none(views, token_id@);
    }
    Err(TokenError::new(TokenErrorKind::NoToken(token_id.to_owned())))
}

/// A read-only source of access tokens: paired identifiers and result slots.
///
/// A detached source is not updated by any worker; it serves fixed tokens,
/// for tests and command-line tools.
pub struct AccessTokenSource {
    /// The managed identifiers, in row order.
    pub ids: Vec<String>,
    /// The result slot of each identifier.
    pub slots: Vec<SlotValue>,
}

impl AccessTokenSource {
    /// Holds of sources whose identifiers and slots are paired one to one.
    pub open spec fn well_formed(self) -> bool {
        self.ids@.len() == self.slots@.len()
    }

    /// Looks the identifier's token up: a clone of the slot's current value,
    /// or `NoToken` exactly when the identifier is not managed here. The
    /// result is one stored value — never a mixture — and always the one
    /// paired with the queried identifier; nothing is modified, and no
    /// command is sent.
    pub fn get_access_token(&self, token_id: &str) -> (r: TokenResult<AccessToken>)
        ensures
            self.well_formed() ==> (spec_index_of(self.ids@.map_values(|s: String| s@), token_id@)
                matches Some(i) ==> match self.slots@[i] {
                Ok(token) => (r matches Ok(t) && t == token),
                Err(kind) => (r matches Err(e) && e.kind == kind),
            }),
            (self.well_formed() && spec_index_of(
                self.ids@.map_values(|s: String| s@),
                token_id@,
            ) is None) ==> (r matches Err(e) && e.kind matches TokenErrorKind::NoToken(s) && s@
                == token_id@),
            !self.well_formed() ==> (r matches Err(e) && e.kind matches TokenErrorKind::NoToken(s)
                && s@ == token_id@),
    {
        if self.ids.len() == self.slots.len() {
            lookup_token(&self.ids, &self.slots, token_id)
        } else {
            Err(TokenError::new(TokenErrorKind::NoToken(token_id.to_owned())))
        }
    }

    /// Gets a `FixedAccessTokenSource` for the given identifier; fails
    /// exactly when the identifier is not managed here.
    pub fn single_source_for(&self, token_id: &str) -> (r: TokenResult<FixedAccessTokenSource>)
        requires
            self.well_formed(),
        ensures
            r is Ok <==> spec_index_of(self.ids@.map_values(|s: String| s@), token_id@) is Some,
            r matches Ok(fixed) ==> (fixed.token_id@ == token_id@ && fixed.token_source.ids@
                == self.ids@ && fixed.token_source.slots@ == self.slots@),
            r matches Err(e) ==> e.kind matches TokenErrorKind::NoToken(_),
    {
        let n = self.ids.len();
        let mut i: usize = 0;
        while i < n
            invariant
                0 <= i <= n,
                n == self.ids@.len(),
                forall|j: int| 0 <= j < i ==> #[trigger] self.ids@[j]@ != token_id@,
            decreases n - i,
        {
            if crate::str_eq(self.ids[i].as_str(), token_id) {
                proof {
                    let views = self.ids@.map_values(|s: String| s@);
                    assert(views[i as int] == token_id@);
                    lemma_index_of_first(views, token_id@, i as int);
                }
                return Ok(
                    FixedAccessTokenSource {
                        token_source: self.clone(),
                        token_id: token_id.to_owned(),
                    },
                );
            }
            i = i + 1;
        }
        proof {
            let views = self.ids@.map_values(|s: String| s@);
            assert(forall|j: int| 0 <= j < views.len() ==> views[j] != token_id@);
            lemma_index_of_none(views, token_id@);
        }
        Err(TokenError::new(TokenErrorKind::NoToken(token_id.to_owned())))
    }

    /// Creates an `AccessTokenSource` that is not attached to any manager:
    /// each identifier serves its fixed token. Use it in tests or where
    /// tokens need no background refresh; `refresh` on it does nothing.
    pub fn new_detached(tokens: &Vec<(String, AccessToken)>) -> (source: AccessTokenSource)
        ensures
            source.well_formed(),
            source.ids@.len() == tokens@.len(),
            forall|i: int| 0 <= i < tokens@.len() ==> source.ids@[i]@ == tokens@[i].0@,
            forall|i: int|
                0 <= i < tokens@.len() ==> (#[trigger] source.slots@[i] matches Ok(t) && t
                    == tokens@[i].1),
    {
        let n = tokens.len();
        let mut ids: Vec<String> = Vec::new();
        let mut slots: Vec<SlotValue> = Vec::new();
        let mut i: usize = 0;
        while i < n
            invariant
                0 <= i <= n,
                n == tokens@.len(),
                ids@.len() == i,
                slots@.len() == i,
                forall|j: int| 0 <= j < i ==> ids@[j]@ == tokens@[j].0@,
                forall|j: int| 0 <= j < i ==> (#[trigger] slots@[j] matches Ok(t) && t
                    == tokens@[j].1),
            decreases n - i,
        {
            ids.push(tokens[i].0.clone());
            slots.push(Ok(tokens[i].1.clone()));
            i = i + 1;
        }
        AccessTokenSource { ids, slots }
    }
}

impl Clone for AccessTokenSource {
    fn clone(&self) -> (source: Self)
        ensures
            source.ids@ == self.ids@,
            source.slots@ == self.slots@,
    {
        let n = self.ids.len();
        let mut ids: Vec<String> = Vec::new();
        let mut i: usize = 0;
        while i < n
            invariant
                0 <= i <= n,
                n == self.ids@.len(),
                ids@.len() == i,
                forall|j: int| 0 <= j < i ==> ids@[j] == self.ids@[j],
            decreases n - i,
        {
            ids.push(self.ids[i].clone());
            i = i + 1;
        }
        let m = self.slots.len();
        let mut slots: Vec<SlotValue> = Vec::new();
        let mut k: usize = 0;
        while k < m
            invariant
                0 <= k <= m,
                m == self.slots@.len(),
                slots@.len() == k,
                forall|j: int| 0 <= j < k ==> slots@[j] == self.slots@[j],
            decreases m - k,
        {
            let slot: SlotValue = match &self.slots[k] {
                Ok(token) => Ok(token.clone()),
                Err(kind) => Err(kind.clone()),
            };
            slots.push(slot);
            k = k + 1;
        }
        proof {
            assert(ids@ =~= self.ids@);
            assert(slots@ =~= self.slots@);
        }
        AccessTokenSource { ids, slots }
    }
}

impl GivesAccessTokensById for AccessTokenSource {
    /// Delegates to the contracted lookup
    /// [`AccessTokenSource::get_access_token`].
    fn get_access_token(&self, token_id: &str) -> (r: TokenResult<AccessToken>) {
        AccessTokenSource::get_access_token(self, token_id)
    }

    /// A detached source has no workers: asking for a refresh does nothing.
    fn refresh(&self, _token_id: &str) {
    }
}

/// Can be queried for one fixed `AccessToken`, selected in advance.
pub trait GivesFixedAccessToken {
    /// Gets the token.
    fn get_access_token(&self) -> TokenResult<AccessToken>;

    /// Asks for a refresh of the token; best-effort, returns immediately.
    fn refresh(&self);
}

/// An `AccessTokenSource` pinned to one identifier.
#[derive(Clone)]
pub struct FixedAccessTokenSource {
    pub token_source: AccessTokenSource,
    pub token_id: String,
}

impl FixedAccessTokenSource {
    /// Looks the pinned identifier's token up, exactly as
    /// [`AccessTokenSource::get_access_token`] does for that identifier.
    pub fn get_access_token(&self) -> (r: TokenResult<AccessToken>)
        ensures
            self.token_source.well_formed() ==> (spec_index_of(
                self.token_source.ids@.map_values(|s: String| s@),
                self.token_id@,
            ) matches Some(i) ==> match self.token_source.slots@[i] {
                Ok(token) => (r matches Ok(t) && t == token),
                Err(kind) => (r matches Err(e) && e.kind == kind),
            }),
            (self.token_source.well_formed() && spec_index_of(
                self.token_source.ids@.map_values(|s: String| s@),
                self.token_id@,
            ) is None) ==> (r matches Err(e) && e.kind matches TokenErrorKind::NoToken(s) && s@
                == self.token_id@),
            !self.token_source.well_formed() ==> (r matches Err(e) && e.kind
                matches TokenErrorKind::NoToken(s) && s@ == self.token_id@),
    {
        self.token_source.get_access_token(self.token_id.as_str())
    }
}

impl GivesFixedAccessToken for FixedAccessTokenSource {
    /// Delegates to the contracted lookup
    /// [`FixedAccessTokenSource::get_access_token`].
    fn get_access_token(&self) -> (r: TokenResult<AccessToken>) {
        FixedAccessTokenSource::get_access_token(self)
    }

    /// The underlying detached source has no workers: this does nothing.
    fn refresh(&self) {
        self.token_source.refresh(self.token_id.as_str())
    }
}

/// The identifiers of all tokens of all groups, groups in order, tokens in
/// order within each.
pub open spec fn spec_group_ids<P>(groups: Seq<ManagedTokenGroup<P>>) -> Seq<Seq<char>> {
    spec_rows_of_groups(groups, 0).map_values(|r: internals::TokenRow| r.token_id@)
}

/// Collects the identifiers of all tokens of all groups.
fn collect_ids<P: AccessTokenProvider>(groups: &Vec<ManagedTokenGroup<P>>) -> (ids: Vec<String>)
    ensures
        ids@.map_values(|s: String| s@) == spec_group_ids(groups@),
{
    let rows = internals::create_rows(groups, 0);
    let n = rows.len();
    let mut ids: Vec<String> = Vec::new();
    let mut i: usize = 0;
    while i < n
        invariant
            0 <= i <= n,
            n == rows@.len(),
            ids@.len() == i,
            forall|j: int| 0 <= j < i ==> #[trigger] ids@[j]@ == rows@[j].token_id@,
        decreases n - i,
    {
        ids.push(rows[i].token_id.clone());
        i = i + 1;
    }
    proof {
        assert(ids@.map_values(|s: String| s@) =~= spec_group_ids(groups@));
    }
    ids
}

/// Says whether two of the identifiers coincide.
fn has_duplicate_ids(ids: &Vec<String>) -> (r: bool)
    ensures
        r == !spec_ids_unique(ids@.map_values(|s: String| s@)),
{
    let n = ids.len();
    let mut i: usize = 0;
    while i < n
        invariant
            0 <= i <= n,
            n == ids@.len(),
            forall|a: int, b: int|
                0 <= a < b < n && a < i ==> #[trigger] ids@[a]@ != #[trigger] ids@[b]@,
        decreases n - i,
    {
        let mut j: usize = i + 1;
        while j < n
            invariant
                0 <= i < j <= n,
                n == ids@.len(),
                forall|a: int, b: int|
                0 <= a < b < n && a < i ==> #[trigger] ids@[a]@ != #[trigger] ids@[b]@,
                forall|b: int| i < b < j ==> ids@[i as int]@ != #[trigger] ids@[b]@,
            decreases n - j,
        {
            if crate::str_eq(ids[i].as_str(), ids[j].as_str()) {
                proof {
                    let views = ids@.map_values(|s: String| s@);
                    assert(views[i as int] == views[j as int]);
                }
                return true;
            }
            j = j + 1;
        }
        i = i + 1;
    }
    proof {
        let views = ids@.map_values(|s: String| s@);
        assert forall|a: int, b: int| 0 <= a < b < views.len() implies views[a] != views[b] by {
            assert(ids@[a]@ != ids@[b]@);
        }
    }
    false
}

/// The manager that keeps `AccessToken`s fresh.
///
/// `start` validates the configuration and lays out the initial state; the
/// caller owns the scheduler and updater loops that drive it, and the
/// reader handles around it.
pub struct AccessTokenManager;

impl AccessTokenManager {
    /// Validates that every identifier is unique and builds the initial
    /// manager state at time `now`: one `Uninitialized` row and one
    /// `NotInitialized` slot per managed token, and an empty command queue.
    /// Fails exactly when an identifier is used twice.
    pub fn start<P: AccessTokenProvider>(
        groups: &Vec<ManagedTokenGroup<P>>,
        now: EpochMillis,
    ) -> (r: InitializationResult<Inner>)
        requires
            forall|g: int| 0 <= g < groups@.len() ==> groups@[g].thresholds_valid(),
        ensures
            r is Ok <==> spec_ids_unique(spec_group_ids(groups@)),
            r matches Ok(inner) ==> {
                &&& inner.well_formed()
                &&& inner.rows@.len() == spec_rows_of_groups(groups@, now).len()
                &&& forall|i: int|
                    0 <= i < inner.rows@.len() ==> row_like(
                        #[trigger] inner.rows@[i],
                        spec_rows_of_groups(groups@, now)[i],
                    )
                &&& inner.queue@.len() == 0
                &&& inner.slots@.len() == inner.rows@.len()
                &&& forall|i: int|
                    0 <= i < inner.slots@.len() ==> (#[trigger] inner.slots@[i] matches Err(
                        TokenErrorKind::NotInitialized(id),
                    ) && id@ == inner.rows@[i].token_id@)
            },
    {
        let ids = collect_ids(groups);
        if has_duplicate_ids(&ids) {
            return Err(InitializationError::new("a token identifier is used more than once"));
        }
        let rows = internals::create_rows(groups, now);
        let n = rows.len();
        let mut slots: Vec<SlotValue> = Vec::new();
        let mut i: usize = 0;
        while i < n
            invariant
                0 <= i <= n,
                n == rows@.len(),
                slots@.len() == i,
                forall|j: int|
                    0 <= j < i ==> (#[trigger] slots@[j] matches Err(
                        TokenErrorKind::NotInitialized(id),
                    ) && id@ == rows@[j].token_id@),
            decreases n - i,
        {
            slots.push(Err(TokenErrorKind::NotInitialized(rows[i].token_id.clone())));
            i = i + 1;
        }
        proof {
            let rows_now = spec_rows_of_groups(groups@, now);
            lemma_rows_ids_independent_of_now(groups@, now, 0);
            assert(spec_row_ids_of(rows_now) =~= spec_group_ids(groups@));
            lemma_rows_thresholds_valid(groups@, now);
            let row_ids = internals::spec_row_ids(rows@);
            assert forall|a: int, b: int|
                0 <= a < b < row_ids.len() implies row_ids[a] != row_ids[b] by {
                assert(rows@[a].token_id@ == rows_now[a].token_id@);
                assert(rows@[b].token_id@ == rows_now[b].token_id@);
                assert(spec_row_ids_of(rows_now)[a] != spec_row_ids_of(rows_now)[b]);
            }
            assert forall|i: int|
                0 <= i < rows@.len() implies #[trigger] rows@[i].thresholds_valid() by {
                assert(row_like(rows@[i], rows_now[i]));
                assert(rows_now[i].thresholds_valid());
            }
        }
        Ok(Inner { rows, slots, queue: Vec::new() })
    }
}

/// The identifiers of the given rows, in order.
pub open spec fn spec_row_ids_of(rows: Seq<internals::TokenRow>) -> Seq<Seq<char>> {
    rows.map_values(|r: internals::TokenRow| r.token_id@)
}

/// The rows of the same groups laid out at two different times carry the
/// same identifiers.
proof fn lemma_rows_ids_independent_of_now<P>(
    groups: Seq<ManagedTokenGroup<P>>,
    now_a: EpochMillis,
    now_b: EpochMillis,
)
    ensures
        spec_row_ids_of(spec_rows_of_groups(groups, now_a)) == spec_row_ids_of(
            spec_rows_of_groups(groups, now_b),
        ),
    decreases groups.len(),
{
    let ra = spec_rows_of_groups(groups, now_a);
    let rb = spec_rows_of_groups(groups, now_b);
    if groups.len() > 0 {
        lemma_rows_ids_independent_of_now(groups.drop_last(), now_a, now_b);
        let da = spec_rows_of_groups(groups.drop_last(), now_a);
        let db = spec_rows_of_groups(groups.drop_last(), now_b);
        let ga = internals::spec_group_rows(groups.last(), now_a);
        let gb = internals::spec_group_rows(groups.last(), now_b);
        assert(da.len() == db.len()) by {
            assert(spec_row_ids_of(da).len() == spec_row_ids_of(db).len());
        }
        assert forall|i: int|
            0 <= i < ra.len() implies spec_row_ids_of(ra)[i] == spec_row_ids_of(rb)[i] by {
            if i < da.len() {
                assert(ra[i] == da[i] && rb[i] == db[i]);
                assert(spec_row_ids_of(da)[i] == spec_row_ids_of(db)[i]);
            } else {
                assert(ra[i] == ga[i - da.len()] && rb[i] == gb[i - da.len()]);
            }
        }
        assert(spec_row_ids_of(ra) =~= spec_row_ids_of(rb));
    } else {
        assert(spec_row_ids_of(ra) =~= spec_row_ids_of(rb));
    }
}

/// Rows laid out from groups with valid thresholds have valid thresholds.
proof fn lemma_rows_thresholds_valid<P>(groups: Seq<ManagedTokenGroup<P>>, now: EpochMillis)
    requires
        forall|g: int| 0 <= g < groups.len() ==> groups[g].thresholds_valid(),
    ensures
        forall|i: int|
            0 <= i < spec_rows_of_groups(groups, now).len() ==> #[trigger] spec_rows_of_groups(
                groups,
                now,
            )[i].thresholds_valid(),
    decreases groups.len(),
{
    let rows = spec_rows_of_groups(groups, now);
    if groups.len() > 0 {
        lemma_rows_thresholds_valid(groups.drop_last(), now);
        let prefix = spec_rows_of_groups(groups.drop_last(), now);
        let tail = internals::spec_group_rows(groups.last(), now);
        assert forall|i: int| 0 <= i < rows.len() implies #[trigger] rows[i].thresholds_valid() by {
            if i < prefix.len() {
                assert(rows[i] == prefix[i]);
                assert(prefix[i].thresholds_valid());
            } else {
                assert(rows[i] == tail[i - prefix.len()]);
                assert(groups.last().thresholds_valid());
            }
        }
    }
}

} // verus!
