//! The shared state behind a running token manager: one row per managed
//! token, one reader-visible slot per row, and the queue of refresh commands
//! between the scheduler and the updater.
use vstd::prelude::*;

pub mod request_scheduler;
pub mod token_updater;

use crate::token_manager::token_provider::AccessTokenProvider;
use crate::token_manager::{ManagedToken, ManagedTokenGroup, TokenError, TokenErrorKind,
    TokenResult};
use crate::{AccessToken, Scope};

verus! {

/// Milliseconds since the Unix epoch.
pub type EpochMillis = u64;

/// The difference `end - start`, or zero when the clock jumped backwards.
pub fn diff_millis(start_millis: u64, end_millis: u64) -> (r: u64)
    ensures
        r == if start_millis > end_millis {
            0
        } else {
            end_millis - start_millis
        },
{
    if start_millis > end_millis {
        0
    } else {
        end_millis - start_millis
    }
}

/// The difference `from - subtract`, or zero when it would be negative.
pub fn minus_millis(from: u64, subtract: u64) -> (r: u64)
    ensures
        r == if subtract > from {
            0
        } else {
            from - subtract
        },
{
    if subtract > from {
        0
    } else {
        from - subtract
    }
}

/// The saturated sum of two instants or durations.
pub open spec fn spec_plus_millis(a: u64, b: u64) -> u64 {
    if a + b <= u64::MAX {
        (a + b) as u64
    } else {
        u64::MAX
    }
}

/// Adds milliseconds, saturating at the largest representable instant.
pub fn plus_millis(a: u64, b: u64) -> (r: u64)
    ensures
        r == spec_plus_millis(a, b),
{
    a.saturating_add(b)
}

/// The given fraction, in thousandths, of an amount of milliseconds.
pub open spec fn spec_fraction_of(amount: u64, per_mille: u16) -> u64
    recommends
        per_mille <= 1000,
{
    ((amount as int) * (per_mille as int) / 1000) as u64
}

/// Takes a fraction, given in thousandths, of an amount of milliseconds.
pub fn fraction_of(amount: u64, per_mille: u16) -> (r: u64)
    requires
        per_mille <= 1000,
    ensures
        r == spec_fraction_of(amount, per_mille),
        r <= amount,
{
    proof {
        assert((amount as int) * (per_mille as int) / 1000 <= amount as int && 0 <= (amount as int)
            * (per_mille as int) && (amount as int) * (per_mille as int) <= u128::MAX)
            by (nonlinear_arith)
            requires
                per_mille <= 1000,
                0 <= amount as int <= u64::MAX,
        ;
    }
    let wide: u128 = (amount as u128) * (per_mille as u128) / 1000;
    wide as u64
}

/// The lifecycle state of one managed token.
///
/// The `Pending` states say that a refresh command for the row is
/// outstanding; they keep the scheduler from emitting a second one.
#[derive(PartialEq, Eq, Structural, Debug, Clone, Copy)]
pub enum TokenState {
    /// No refresh was attempted yet.
    Uninitialized,
    /// The first refresh is outstanding.
    Initializing,
    /// The token is valid and no refresh is outstanding.
    Valid,
    /// The token is valid and a refresh is outstanding.
    ValidPending,
    /// The last refresh failed, the token is gone, no refresh outstanding.
    Error,
    /// The last refresh failed and a retry is outstanding.
    ErrorPending,
}

impl TokenState {
    /// Holds of the states in which a refresh command is outstanding.
    pub open spec fn spec_is_refresh_pending(self) -> bool {
        self == TokenState::Initializing || self == TokenState::ValidPending || self
            == TokenState::ErrorPending
    }

    /// Says whether a refresh command for this row is outstanding.
    pub fn is_refresh_pending(&self) -> (r: bool)
        ensures
            r == self.spec_is_refresh_pending(),
    {
        match self {
            TokenState::Initializing | TokenState::ValidPending | TokenState::ErrorPending => true,
            _ => false,
        }
    }

    /// Holds of the states before the first refresh has completed.
    pub open spec fn spec_is_uninitialized(self) -> bool {
        self == TokenState::Uninitialized || self == TokenState::Initializing
    }

    /// Says whether the row is still waiting for its first token.
    pub fn is_uninitialized(&self) -> (r: bool)
        ensures
            r == self.spec_is_uninitialized(),
    {
        match self {
            TokenState::Uninitialized | TokenState::Initializing => true,
            _ => false,
        }
    }
}

/// The per-token mutable state owned by the scheduler/updater pair.
///
/// The thresholds are fractions of the token's lifetime, in thousandths.
pub struct TokenRow {
    /// The identifier under which readers query this token.
    pub token_id: String,
    /// The scopes requested for this token.
    pub scopes: Vec<Scope>,
    /// When a refresh is scheduled, in thousandths of the lifetime.
    pub refresh_threshold: u16,
    /// When a near-expiry warning is due, in thousandths of the lifetime.
    pub warning_threshold: u16,
    /// When this row last changed through a refresh outcome.
    pub last_touched: EpochMillis,
    /// When a proactive refresh is due.
    pub refresh_at: EpochMillis,
    /// When a near-expiry warning is due.
    pub warn_at: EpochMillis,
    /// When the current token expires.
    pub expires_at: EpochMillis,
    /// When the scheduler should next act on this row.
    pub scheduled_for: EpochMillis,
    /// The lifecycle state.
    pub token_state: TokenState,
    /// When the last user-visible notification for this row was emitted.
    pub last_notification_at: Option<EpochMillis>,
}

impl TokenRow {
    /// Holds of rows whose thresholds are valid fractions: within (0, 1].
    pub open spec fn thresholds_valid(self) -> bool {
        &&& 1 <= self.refresh_threshold <= 1000
        &&& 1 <= self.warning_threshold <= 1000
    }
}

/// The freshly created row for one managed token: every timer at `now`,
/// awaiting its first refresh.
pub open spec fn spec_initial_row(
    token: ManagedToken,
    refresh_threshold: u16,
    warning_threshold: u16,
    now: EpochMillis,
) -> TokenRow {
    TokenRow {
        token_id: token.token_id,
        scopes: token.scopes,
        refresh_threshold,
        warning_threshold,
        last_touched: now,
        refresh_at: now,
        warn_at: now,
        expires_at: now,
        scheduled_for: now,
        token_state: TokenState::Uninitialized,
        last_notification_at: None,
    }
}

/// The rows of one group, in configuration order.
pub open spec fn spec_group_rows<P>(group: ManagedTokenGroup<P>, now: EpochMillis) -> Seq<
    TokenRow,
> {
    group.managed_tokens@.map_values(
        |t: ManagedToken| spec_initial_row(t, group.refresh_threshold, group.warning_threshold, now),
    )
}

/// The rows of all groups, groups in order, tokens in order within each.
pub open spec fn spec_rows_of_groups<P>(groups: Seq<ManagedTokenGroup<P>>, now: EpochMillis) -> Seq<
    TokenRow,
>
    decreases groups.len(),
{
    if groups.len() == 0 {
        Seq::empty()
    } else {
        spec_rows_of_groups(groups.drop_last(), now) + spec_group_rows(groups.last(), now)
    }
}

/// Holds when two rows carry the same content: the same identifier text,
/// the same scope contents, and equal scalar fields.
pub open spec fn row_like(a: TokenRow, b: TokenRow) -> bool {
    &&& a.token_id@ == b.token_id@
    &&& a.scopes@ == b.scopes@
    &&& a.refresh_threshold == b.refresh_threshold
    &&& a.warning_threshold == b.warning_threshold
    &&& a.last_touched == b.last_touched
    &&& a.refresh_at == b.refresh_at
    &&& a.warn_at == b.warn_at
    &&& a.expires_at == b.expires_at
    &&& a.scheduled_for == b.scheduled_for
    &&& a.token_state == b.token_state
    &&& a.last_notification_at == b.last_notification_at
}

/// Copies a scope list.
pub fn clone_scopes(scopes: &Vec<Scope>) -> (r: Vec<Scope>)
    ensures
        r@ == scopes@,
{
    let n = scopes.len();
    let mut out: Vec<Scope> = Vec::new();
    let mut i: usize = 0;
    while i < n
        invariant
            0 <= i <= n,
            n == scopes@.len(),
            out@.len() == i,
            forall|j: int| 0 <= j < i ==> out@[j] == scopes@[j],
        decreases n - i,
    {
        out.push(scopes[i].clone());
        i = i + 1;
    }
    proof {
        assert(out@ =~= scopes@);
    }
    out
}

/// Creates the rows for the given groups, every timer set to `now`.
pub fn create_rows<P: AccessTokenProvider>(
    groups: &Vec<ManagedTokenGroup<P>>,
    now: EpochMillis,
) -> (rows: Vec<TokenRow>)
    ensures
        rows@.len() == spec_rows_of_groups(groups@, now).len(),
        forall|i: int|
            0 <= i < rows@.len() ==> row_like(
                #[trigger] rows@[i],
                spec_rows_of_groups(groups@, now)[i],
            ),
{
    let mut rows: Vec<TokenRow> = Vec::new();
    let group_count = groups.len();
    let mut gi: usize = 0;
    while gi < group_count
        invariant
            0 <= gi <= group_count,
            group_count == groups@.len(),
            rows@.len() == spec_rows_of_groups(groups@.take(gi as int), now).len(),
            forall|i: int|
                0 <= i < rows@.len() ==> row_like(
                    #[trigger] rows@[i],
                    spec_rows_of_groups(groups@.take(gi as int), now)[i],
                ),
        decreases group_count - gi,
    {
        let ghost rows_before = rows@;
        let ghost spec_before = spec_rows_of_groups(groups@.take(gi as int), now);
        let group = &groups[gi];
        let token_count = group.managed_tokens.len();
        let mut ti: usize = 0;
        while ti < token_count
            invariant
                0 <= ti <= token_count,
                token_count == group.managed_tokens@.len(),
                group == &groups@[gi as int],
                0 <= gi < groups@.len(),
                rows_before.len() == spec_before.len(),
                rows@.len() == rows_before.len() + ti,
                forall|i: int|
                    0 <= i < rows_before.len() ==> row_like(#[trigger] rows@[i], spec_before[i]),
                forall|i: int|
                    rows_before.len() <= i < rows@.len() ==> row_like(
                        #[trigger] rows@[i],
                        spec_group_rows(groups@[gi as int], now)[i - rows_before.len()],
                    ),
            decreases token_count - ti,
        {
            let token = &group.managed_tokens[ti];
            rows.push(
                TokenRow {
                    token_id: token.token_id.clone(),
                    scopes: clone_scopes(&token.scopes),
                    refresh_threshold: group.refresh_threshold,
                    warning_threshold: group.warning_threshold,
                    last_touched: now,
                    refresh_at: now,
                    warn_at: now,
                    expires_at: now,
                    scheduled_for: now,
                    token_state: TokenState::Uninitialized,
                    last_notification_at: None,
                },
            );
            ti = ti + 1;
        }
        proof {
            let spec_after = spec_rows_of_groups(groups@.take(gi + 1), now);
            assert(groups@.take(gi + 1).drop_last() =~= groups@.take(gi as int));
            assert(groups@.take(gi + 1).last() == groups@[gi as int]);
            assert(spec_after =~= spec_before + spec_group_rows(groups@[gi as int], now));
        }
        gi = gi + 1;
    }
    proof {
        assert(groups@.take(group_count as int) =~= groups@);
    }
    rows
}

/// The reader-visible value of one slot: the current token, or the error
/// that stands in its place.
pub type SlotValue = Result<AccessToken, TokenErrorKind>;

/// Holds of slots that have moved past their initial `NotInitialized` value.
pub open spec fn spec_slot_initialized(slot: SlotValue) -> bool {
    !(slot matches Err(TokenErrorKind::NotInitialized(_)))
}

/// The identifiers of all rows, in row order.
pub open spec fn spec_row_ids(rows: Seq<TokenRow>) -> Seq<Seq<char>> {
    rows.map_values(|r: TokenRow| r.token_id@)
}

/// The index of the first row with the given identifier, if any.
pub open spec fn spec_index_of(ids: Seq<Seq<char>>, id: Seq<char>) -> Option<int>
    decreases ids.len(),
{
    if ids.len() == 0 {
        None
    } else if ids[0] == id {
        Some(0)
    } else {
        match spec_index_of(ids.drop_first(), id) {
            Some(i) => Some(i + 1),
            None => None,
        }
    }
}

/// A first match at position `i` is the looked-up index.
pub proof fn lemma_index_of_first(ids: Seq<Seq<char>>, id: Seq<char>, i: int)
    requires
        0 <= i < ids.len(),
        forall|j: int| 0 <= j < i ==> ids[j] != id,
        ids[i] == id,
    ensures
        spec_index_of(ids, id) == Some(i),
    decreases i,
{
    if i > 0 {
        assert(ids[0] != id);
        lemma_index_of_first(ids.drop_first(), id, i - 1);
    }
}

/// Without any match there is no index.
pub proof fn lemma_index_of_none(ids: Seq<Seq<char>>, id: Seq<char>)
    requires
        forall|j: int| 0 <= j < ids.len() ==> ids[j] != id,
    ensures
        spec_index_of(ids, id) is None,
    decreases ids.len(),
{
    if ids.len() > 0 {
        lemma_index_of_none(ids.drop_first(), id);
    }
}

/// Holds when no identifier occurs twice.
pub open spec fn spec_ids_unique(ids: Seq<Seq<char>>) -> bool {
    forall|i: int, j: int| 0 <= i < j < ids.len() ==> ids[i] != ids[j]
}

/// The shared state of a running token manager: rows for the workers, slots
/// for the readers, and the commands on their way from the scheduler to the
/// updater.
pub struct Inner {
    /// One row per managed token.
    pub rows: Vec<TokenRow>,
    /// The reader-visible result slot of each row.
    pub slots: Vec<SlotValue>,
    /// The refresh commands emitted and not yet consumed, oldest first.
    pub queue: Vec<ManagerCommand>,
}

impl Inner {
    /// Holds of every reachable manager state: rows and slots are paired
    /// one to one, identifiers are unique, and thresholds are valid.
    pub open spec fn well_formed(self) -> bool {
        &&& self.slots@.len() == self.rows@.len()
        &&& spec_ids_unique(spec_row_ids(self.rows@))
        &&& forall|i: int| 0 <= i < self.rows@.len() ==> self.rows@[i].thresholds_valid()
    }

    /// Looks a token up by identifier: the slot's current value, cloned, or
    /// `NoToken` for an identifier that is not managed. The result is exactly
    /// one stored value — never a mixture of two — and always the value of
    /// the queried identifier's own slot.
    pub fn get_access_token(&self, token_id: &str) -> (r: TokenResult<AccessToken>)
        requires
            self.slots@.len() == self.rows@.len(),
        ensures
            spec_index_of(spec_row_ids(self.rows@), token_id@) is None ==> (r matches Err(e)
                && e.kind matches TokenErrorKind::NoToken(s) && s@ == token_id@),
            spec_index_of(spec_row_ids(self.rows@), token_id@) matches Some(i) ==> match self.slots@[i] {
                Ok(token) => (r matches Ok(t) && t == token),
                Err(kind) => (r matches Err(e) && e.kind == kind),
            },
    {
        let n = self.rows.len();
        let mut i: usize = 0;
        while i < n
            invariant
                0 <= i <= n,
                n == self.rows@.len(),
                self.slots@.len() == self.rows@.len(),
                forall|j: int| 0 <= j < i ==> #[trigger] self.rows@[j].token_id@ != token_id@,
            decreases n - i,
        {
            if crate::str_eq(self.rows[i].token_id.as_str(), token_id) {
                proof {
                    let ids = spec_row_ids(self.rows@);
                    assert(ids[i as int] == token_id@);
                    lemma_index_of_first(ids, token_id@, i as int);
                }
                match &self.slots[i] {
                    Ok(token) => {
                        return Ok(token.clone());
                    },
                    Err(kind) => {
                        return Err(TokenError::new(kind.clone()));
                    },
                }
            }
            i = i + 1;
        }
        proof {
            let ids = spec_row_ids(self.rows@);
            assert(forall|j: int| 0 <= j < ids.len() ==> ids[j] != token_id@);
            lemma_index_of_none(ids, token_id@);
        }
        Err(TokenError::new(TokenErrorKind::NoToken(token_id.to_owned())))
    }

    /// Says whether every slot has moved past its initial `NotInitialized`
    /// value.
    pub fn all_initialized(&self) -> (r: bool)
        ensures
            r == forall|i: int|
                0 <= i < self.slots@.len() ==> spec_slot_initialized(#[trigger] self.slots@[i]),
    {
        let n = self.slots.len();
        let mut i: usize = 0;
        while i < n
            invariant
                0 <= i <= n,
                n == self.slots@.len(),
                forall|j: int| 0 <= j < i ==> spec_slot_initialized(#[trigger] self.slots@[j]),
            decreases n - i,
        {
            match &self.slots[i] {
                Err(TokenErrorKind::NotInitialized(_)) => {
                    return false;
                },
                _ => {},
            }
            i = i + 1;
        }
        true
    }

    /// Enqueues a best-effort refresh request from a reader. It carries the
    /// reader's clock value; the stale-command gate in the updater sorts out
    /// whether it still matters when it arrives.
    pub fn enqueue_force_refresh(&mut self, token_id: &str, now: EpochMillis)
        ensures
            final(self).rows == old(self).rows,
            final(self).slots == old(self).slots,
            final(self).queue@.len() == old(self).queue@.len() + 1,
            final(self).queue@.take(old(self).queue@.len() as int) == old(self).queue@,
            (final(self).queue@.last() matches ManagerCommand::ForceRefresh(id, ts) && id@
                == token_id@ && ts == now),
    {
        let id: String = token_id.to_owned();
        let ghost before = self.queue@;
        self.queue.push(ManagerCommand::ForceRefresh(id, now));
        proof {
            assert(self.queue@.take(before.len() as int) =~= before);
        }
    }
}

/// A command from the scheduler (or a reader's refresh request) to the
/// updater. Each carries the emitter's clock value so that the updater can
/// recognize commands that a completed refresh has already overtaken.
#[derive(Debug, PartialEq)]
pub enum ManagerCommand {
    /// Refresh the row with the given index; emitted by the scheduler on a
    /// due row that holds a token or none yet.
    ScheduledRefresh(usize, EpochMillis),
    /// Refresh the row with the given identifier; emitted on behalf of a
    /// reader.
    ForceRefresh(String, EpochMillis),
    /// Refresh the row with the given index; emitted by the scheduler on a
    /// due row that sits in an error state.
    RefreshOnError(usize, EpochMillis),
}

impl Clone for ManagerCommand {
    fn clone(&self) -> (c: Self)
        ensures
            c == *self,
    {
        match self {
            ManagerCommand::ScheduledRefresh(idx, ts) => ManagerCommand::ScheduledRefresh(
                *idx,
                *ts,
            ),
            ManagerCommand::ForceRefresh(id, ts) => ManagerCommand::ForceRefresh(id.clone(), *ts),
            ManagerCommand::RefreshOnError(idx, ts) => ManagerCommand::RefreshOnError(*idx, *ts),
        }
    }
}

/// A millisecond clock, injectable so that the workers can be driven by a
/// test clock.
pub trait Clock {
    /// The current time in milliseconds since the Unix epoch.
    fn now(&self) -> EpochMillis;
}

/// Relies on `std::time::SystemTime`: the wall clock, read once, as
/// milliseconds since the Unix epoch; zero for clocks set before the epoch.
#[verifier::external_body]
fn system_time_millis() -> u64 {
    match std::time::UNIX_EPOCH.elapsed() {
        Ok(elapsed) => elapsed.as_secs().saturating_mul(1000).saturating_add(
            elapsed.subsec_millis() as u64,
        ),
        Err(_) => 0,
    }
}

/// The wall clock.
pub struct SystemClock;

impl Clock for SystemClock {
    fn now(&self) -> EpochMillis {
        system_time_millis()
    }
}

impl Clone for SystemClock {
    fn clone(&self) -> (c: Self)
        ensures
            true,
    {
        SystemClock
    }
}

} // verus!
