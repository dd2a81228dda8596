//! The updater half of the worker pair: it consumes refresh commands,
//! calls the access token provider (with bounded retries), and applies the
//! outcome to the row and its reader-visible slot.
//!
//! Two gates protect the state. The stale-command gate drops a command whose
//! timestamp a completed refresh has already overtaken, unless the row never
//! held a token. The valid-window gate keeps a provider failure from
//! clobbering a still-valid token: while the current token has not expired,
//! a failed refresh leaves the slot and every timer alone — readers keep the
//! token they have, and the row merely returns to its schedulable state.
use vstd::prelude::*;

use super::{minus_millis, plus_millis, spec_fraction_of, spec_index_of, spec_plus_millis,
    spec_row_ids, EpochMillis, ManagerCommand, SlotValue, TokenRow, TokenState};
use crate::token_manager::token_provider::{AccessTokenProvider, AccessTokenProviderError,
    AccessTokenProviderResult, AuthorizationServerResponse};
use crate::token_manager::TokenErrorKind;
use crate::Scope;

verus! {

/// The logical-time budget, in milliseconds, that retries of one provider
/// call may spend waiting.
pub const RETRY_MAX_ELAPSED_MS: u64 = 200;

/// The wait before the first retry of a provider call, in milliseconds.
pub const RETRY_INITIAL_INTERVAL_MS: u64 = 10;

/// Exponential backoff bookkeeping for retrying one provider call: each
/// delay is one and a half times the previous one, and the delays stop once
/// they have used the whole budget.
pub struct RetryBackoff {
    /// The next delay to wait.
    pub current_interval_ms: u64,
    /// How much of the budget the delays handed out so far have left.
    pub remaining_ms: u64,
}

impl RetryBackoff {
    /// A fresh backoff: the configured initial interval and the full budget.
    pub fn new() -> (b: Self)
        ensures
            b.current_interval_ms == RETRY_INITIAL_INTERVAL_MS,
            b.remaining_ms == RETRY_MAX_ELAPSED_MS,
    {
        RetryBackoff {
            current_interval_ms: RETRY_INITIAL_INTERVAL_MS,
            remaining_ms: RETRY_MAX_ELAPSED_MS,
        }
    }

    /// The next delay to wait before retrying, or `None` once the budget is
    /// spent. Each delay is charged against the budget and the interval
    /// grows by half.
    pub fn next_delay(&mut self) -> (r: Option<u64>)
        ensures
            old(self).remaining_ms == 0 ==> (r is None && *final(self) == *old(self)),
            old(self).remaining_ms > 0 ==> {
                &&& r == Some(old(self).current_interval_ms)
                &&& final(self).remaining_ms == if old(self).current_interval_ms > old(
                    self,
                ).remaining_ms {
                    0u64
                } else {
                    (old(self).remaining_ms - old(self).current_interval_ms) as u64
                }
                &&& final(self).current_interval_ms == spec_plus_millis(
                    old(self).current_interval_ms,
                    old(self).current_interval_ms / 2,
                )
            },
    {
        if self.remaining_ms == 0 {
            None
        } else {
            let delay = self.current_interval_ms;
            self.remaining_ms = minus_millis(self.remaining_ms, delay);
            self.current_interval_ms = plus_millis(delay, delay / 2);
            Some(delay)
        }
    }
}

/// Calls the provider once, and again on transient errors until the backoff
/// budget is spent. Terminal errors — a rejected request, a client fault, an
/// undecodable response — are returned at once. What comes back is entirely
/// the provider's: this function only bounds how often it is asked.
pub fn call_token_service<P: AccessTokenProvider>(
    provider: &P,
    scopes: &[Scope],
) -> AccessTokenProviderResult {
    let mut backoff = RetryBackoff::new();
    loop
        invariant
            backoff.current_interval_ms >= 1,
        decreases backoff.remaining_ms,
    {
        match provider.request_access_token(scopes) {
            Ok(rsp) => {
                return Ok(rsp);
            },
            Err(err) => {
                if !err.is_transient() {
                    return Err(err);
                }
                match backoff.next_delay() {
                    None => {
                        return Err(err);
                    },
                    Some(_delay) => {},
                }
            },
        }
    }
}

/// Holds when a command with the given timestamp is acted on: the command is
/// newer than the row's last completed refresh, or the row has never held a
/// token, in which case any command is honored.
pub open spec fn spec_refresh_accepted(row: TokenRow, command_timestamp: EpochMillis) -> bool {
    command_timestamp > row.last_touched || row.token_state.spec_is_uninitialized()
}

/// Says whether the command is acted on; its negation is the stale-command
/// gate: a command whose timestamp is at most `last_touched`, sent to a row
/// that already held a token, is a no-op.
pub fn refresh_accepted(row: &TokenRow, command_timestamp: EpochMillis) -> (r: bool)
    ensures
        r == spec_refresh_accepted(*row, command_timestamp),
{
    command_timestamp > row.last_touched || row.token_state.is_uninitialized()
}

/// Holds when `row1` is `row0` after a successful refresh at `now` with a
/// lifetime of `expires_in_ms`: the timers follow the thresholds, the next
/// scheduling falls on the refresh time, and the row holds a valid token.
pub open spec fn spec_success_applied(
    row0: TokenRow,
    row1: TokenRow,
    expires_in_ms: u64,
    now: EpochMillis,
) -> bool {
    &&& row1.token_id@ == row0.token_id@
    &&& row1.scopes@ == row0.scopes@
    &&& row1.refresh_threshold == row0.refresh_threshold
    &&& row1.warning_threshold == row0.warning_threshold
    &&& row1.last_touched == now
    &&& row1.expires_at == spec_plus_millis(now, expires_in_ms)
    &&& row1.refresh_at == spec_plus_millis(
        now,
        spec_fraction_of(expires_in_ms, row0.refresh_threshold),
    )
    &&& row1.warn_at == spec_plus_millis(
        now,
        spec_fraction_of(expires_in_ms, row0.warning_threshold),
    )
    &&& row1.scheduled_for == row1.refresh_at
    &&& row1.token_state == TokenState::Valid
    &&& row1.last_notification_at == row0.last_notification_at
}

/// The grace the scheduler allows before retrying after a failure: short
/// when the row never held a token, longer when a valid token just expired,
/// and longest between repeated failures.
pub open spec fn spec_failure_retry_delay(state: TokenState) -> u64 {
    if state.spec_is_uninitialized() {
        100
    } else if state == TokenState::Valid || state == TokenState::ValidPending {
        1000
    } else {
        5000
    }
}

/// Holds when `row1` is `row0` after a failed refresh at `now` whose outcome
/// was applied: the timers collapse to `now` and the next attempt is
/// scheduled after the failure delay.
pub open spec fn spec_failure_applied(row0: TokenRow, row1: TokenRow, now: EpochMillis) -> bool {
    &&& row1.token_id@ == row0.token_id@
    &&& row1.scopes@ == row0.scopes@
    &&& row1.refresh_threshold == row0.refresh_threshold
    &&& row1.warning_threshold == row0.warning_threshold
    &&& row1.last_touched == now
    &&& row1.expires_at == now
    &&& row1.refresh_at == now
    &&& row1.warn_at == now
    &&& row1.scheduled_for == spec_plus_millis(now, spec_failure_retry_delay(row0.token_state))
    &&& row1.token_state == TokenState::Error
    &&& row1.last_notification_at == row0.last_notification_at
}

/// Holds while the row's current token is still valid: the row is in a
/// valid state and `now` lies before the expiry.
pub open spec fn spec_in_valid_window(row: TokenRow, now: EpochMillis) -> bool {
    &&& (row.token_state == TokenState::Valid || row.token_state == TokenState::ValidPending)
    &&& now < row.expires_at
}

/// Holds when a provider failure is applied to the row rather than ignored:
/// the row never held a token, sits in an error state already, or its token
/// has expired.
pub open spec fn spec_failure_counts(row: TokenRow, now: EpochMillis) -> bool {
    ||| row.token_state.spec_is_uninitialized()
    ||| row.token_state == TokenState::Error || row.token_state == TokenState::ErrorPending
    ||| ((row.token_state == TokenState::Valid || row.token_state == TokenState::ValidPending)
        && now >= row.expires_at)
}

/// Everything an accepted refresh may do to a row and its slot, whatever
/// the provider returned: apply a fresh token, apply a failure where a
/// failure counts, or — the valid-window gate — keep the still-valid token
/// and every timer, merely clearing the pending marker so that the
/// scheduler emits the next attempt.
pub open spec fn spec_refresh_applied(
    row0: TokenRow,
    slot0: SlotValue,
    row1: TokenRow,
    slot1: SlotValue,
    now: EpochMillis,
) -> bool {
    ||| ((slot1 matches Ok(_)) && exists|ms: u64| spec_success_applied(row0, row1, ms, now))
    ||| (spec_failure_counts(row0, now) && spec_failure_applied(row0, row1, now) && (
    slot1 matches Err(TokenErrorKind::AccessTokenProvider(_))))
    ||| (spec_in_valid_window(row0, now) && row1 == (TokenRow {
        token_state: TokenState::Valid,
        ..row0
    }) && slot1 == slot0)
}

/// The diagnostic text stored in a reader-visible slot for a provider error.
pub open spec fn spec_provider_error_text(e: AccessTokenProviderError) -> Seq<char> {
    match e {
        AccessTokenProviderError::BadAuthorizationRequest(_) => {
            "the authorization server rejected the request"@
        },
        AccessTokenProviderError::Client(m) => "client error: "@ + m@,
        AccessTokenProviderError::Server(m) => "server error: "@ + m@,
        AccessTokenProviderError::Connection(m) => "connection error: "@ + m@,
        AccessTokenProviderError::Parse(m) => "parse error: "@ + m@,
        AccessTokenProviderError::Credentials(_) => "the credentials could not be loaded"@,
        AccessTokenProviderError::Other(m) => "other error: "@ + m@,
    }
}

/// Renders a provider error for the reader-visible slot.
pub fn provider_error_text(e: &AccessTokenProviderError) -> (r: String)
    ensures
        r@ == spec_provider_error_text(*e),
{
    match e {
        AccessTokenProviderError::BadAuthorizationRequest(_) => {
            "the authorization server rejected the request".to_owned()
        },
        AccessTokenProviderError::Client(m) => {
            let mut out: String = "client error: ".to_owned();
            out.append(m.as_str());
            out
        },
        AccessTokenProviderError::Server(m) => {
            let mut out: String = "server error: ".to_owned();
            out.append(m.as_str());
            out
        },
        AccessTokenProviderError::Connection(m) => {
            let mut out: String = "connection error: ".to_owned();
            out.append(m.as_str());
            out
        },
        AccessTokenProviderError::Parse(m) => {
            let mut out: String = "parse error: ".to_owned();
            out.append(m.as_str());
            out
        },
        AccessTokenProviderError::Credentials(_) => {
            "the credentials could not be loaded".to_owned()
        },
        AccessTokenProviderError::Other(m) => {
            let mut out: String = "other error: ".to_owned();
            out.append(m.as_str());
            out
        },
    }
}

/// Applies a successful refresh: the slot takes the fresh token, the timers
/// follow the thresholds of the row, and the row becomes `Valid`.
pub fn update_token_ok(
    row: TokenRow,
    rsp: AuthorizationServerResponse,
    now: EpochMillis,
) -> (r: (TokenRow, SlotValue))
    requires
        row.thresholds_valid(),
    ensures
        spec_success_applied(row, r.0, rsp.expires_in_ms, now),
        r.1 matches Ok(t) && t == rsp.access_token,
{
    let refresh_at = plus_millis(now, super::fraction_of(rsp.expires_in_ms, row.refresh_threshold));
    let warn_at = plus_millis(now, super::fraction_of(rsp.expires_in_ms, row.warning_threshold));
    let updated = TokenRow {
        last_touched: now,
        expires_at: plus_millis(now, rsp.expires_in_ms),
        refresh_at,
        warn_at,
        scheduled_for: refresh_at,
        token_state: TokenState::Valid,
        ..row
    };
    (updated, Ok(rsp.access_token))
}

/// Applies a failed refresh: the slot takes the provider's error, the
/// timers collapse to `now`, and the next attempt is scheduled after the
/// failure delay.
pub fn update_token_err(
    err: &AccessTokenProviderError,
    row: TokenRow,
    now: EpochMillis,
) -> (r: (TokenRow, SlotValue))
    ensures
        spec_failure_applied(row, r.0, now),
        r.1 matches Err(TokenErrorKind::AccessTokenProvider(m)) && m@ == spec_provider_error_text(
            *err,
        ),
{
    let delay: u64 = if row.token_state.is_uninitialized() {
        100
    } else if matches!(row.token_state, TokenState::Valid | TokenState::ValidPending) {
        1000
    } else {
        5000
    };
    let updated = TokenRow {
        last_touched: now,
        expires_at: now,
        refresh_at: now,
        warn_at: now,
        scheduled_for: plus_millis(now, delay),
        token_state: TokenState::Error,
        ..row
    };
    (updated, Err(TokenErrorKind::AccessTokenProvider(provider_error_text(err))))
}

/// Decides what a provider failure does to the row: while the current token
/// is still valid, the slot and every timer stay untouched — a transient
/// authorization-server outage must not invalidate already-issued tokens —
/// and only the pending marker is cleared, so that the scheduler emits the
/// next attempt; everywhere else the failure is recorded.
pub fn handle_error(
    err: &AccessTokenProviderError,
    row: TokenRow,
    slot: SlotValue,
    now: EpochMillis,
) -> (r: (TokenRow, SlotValue))
    ensures
        spec_in_valid_window(row, now) ==> (r.0 == (TokenRow {
            token_state: TokenState::Valid,
            ..row
        }) && r.1 == slot),
        !spec_in_valid_window(row, now) ==> {
            &&& spec_failure_applied(row, r.0, now)
            &&& (r.1 matches Err(TokenErrorKind::AccessTokenProvider(m)) && m@
                == spec_provider_error_text(*err))
        },
{
    let expired = row.expires_at <= now;
    match row.token_state {
        TokenState::Valid | TokenState::ValidPending => {
            if expired {
                update_token_err(err, row, now)
            } else {
                (TokenRow { token_state: TokenState::Valid, ..row }, slot)
            }
        },
        _ => update_token_err(err, row, now),
    }
}

/// The updater half of the worker pair.
pub struct TokenUpdater;

impl TokenUpdater {
    /// Creates the updater.
    pub fn new() -> (u: TokenUpdater) {
        TokenUpdater
    }

    /// Refreshes one row for the command timestamp `command_timestamp` at
    /// current time `now`: a stale command changes nothing; an accepted one
    /// calls the provider (with retries) and applies whatever came back.
    pub fn refresh_token<P: AccessTokenProvider>(
        &self,
        provider: &P,
        row: TokenRow,
        slot: SlotValue,
        command_timestamp: EpochMillis,
        now: EpochMillis,
    ) -> (r: (TokenRow, SlotValue))
        requires
            row.thresholds_valid(),
        ensures
            !spec_refresh_accepted(row, command_timestamp) ==> r == (row, slot),
            spec_refresh_accepted(row, command_timestamp) ==> spec_refresh_applied(
                row,
                slot,
                r.0,
                r.1,
                now,
            ),
    {
        if !refresh_accepted(&row, command_timestamp) {
            return (row, slot);
        }
        let scopes_ref: &Vec<Scope> = &row.scopes;
        match call_token_service(provider, scopes_ref.as_slice()) {
            Ok(rsp) => {
                let ghost ms = rsp.expires_in_ms;
                let r = update_token_ok(row, rsp, now);
                proof {
                    assert(spec_success_applied(row, r.0, ms, now));
                }
                r
            },
            Err(err) => handle_error(&err, row, slot, now),
        }
    }

    /// The index a command addresses: the carried index for the scheduler's
    /// commands — when it is in range — and the row with the carried
    /// identifier for a reader's forced refresh.
    pub open spec fn spec_command_index(rows: Seq<TokenRow>, cmd: ManagerCommand) -> Option<int> {
        match cmd {
            ManagerCommand::ScheduledRefresh(idx, _) => if idx < rows.len() {
                Some(idx as int)
            } else {
                None
            },
            ManagerCommand::RefreshOnError(idx, _) => if idx < rows.len() {
                Some(idx as int)
            } else {
                None
            },
            ManagerCommand::ForceRefresh(id, _) => spec_index_of(spec_row_ids(rows), id@),
        }
    }

    /// The clock value a command carries.
    pub open spec fn spec_command_timestamp(cmd: ManagerCommand) -> EpochMillis {
        match cmd {
            ManagerCommand::ScheduledRefresh(_, ts) => ts,
            ManagerCommand::RefreshOnError(_, ts) => ts,
            ManagerCommand::ForceRefresh(_, ts) => ts,
        }
    }

    /// Acts on one command at current time `now`: resolves the addressed
    /// row, applies the stale-command gate, and on acceptance refreshes the
    /// row through the provider. A command addressing no row, and a stale
    /// command, change nothing; every other row is never touched.
    pub fn on_command<P: AccessTokenProvider>(
        &self,
        provider: &P,
        rows: &mut Vec<TokenRow>,
        slots: &mut Vec<SlotValue>,
        cmd: &ManagerCommand,
        now: EpochMillis,
    )
        requires
            old(rows)@.len() == old(slots)@.len(),
            forall|i: int| 0 <= i < old(rows)@.len() ==> old(rows)@[i].thresholds_valid(),
        ensures
            final(rows)@.len() == old(rows)@.len(),
            final(slots)@.len() == old(slots)@.len(),
            Self::spec_command_index(old(rows)@, *cmd) is None ==> (final(rows)@ == old(rows)@
                && final(slots)@ == old(slots)@),
            Self::spec_command_index(old(rows)@, *cmd) matches Some(i) ==> {
                &&& forall|j: int|
                    0 <= j < old(rows)@.len() && j != i ==> final(rows)@[j] == old(rows)@[j]
                        && final(slots)@[j] == old(slots)@[j]
                &&& (!spec_refresh_accepted(old(rows)@[i], Self::spec_command_timestamp(*cmd))
                    ==> final(rows)@ == old(rows)@ && final(slots)@ == old(slots)@)
                &&& (spec_refresh_accepted(old(rows)@[i], Self::spec_command_timestamp(*cmd))
                    ==> spec_refresh_applied(
                    old(rows)@[i],
                    old(slots)@[i],
                    final(rows)@[i],
                    final(slots)@[i],
                    now,
                ))
            },
    {
        let idx_opt: Option<usize> = match cmd {
            ManagerCommand::ScheduledRefresh(idx, _) => {
                if *idx < rows.len() {
                    Some(*idx)
                } else {
                    None
                }
            },
            ManagerCommand::RefreshOnError(idx, _) => {
                if *idx < rows.len() {
                    Some(*idx)
                } else {
                    None
                }
            },
            ManagerCommand::ForceRefresh(id, _) => find_row_index(rows, id.as_str()),
        };
        let ts: u64 = match cmd {
            ManagerCommand::ScheduledRefresh(_, ts) => *ts,
            ManagerCommand::RefreshOnError(_, ts) => *ts,
            ManagerCommand::ForceRefresh(_, ts) => *ts,
        };
        match idx_opt {
            None => {},
            Some(idx) => {
                let ghost rows0 = rows@;
                let ghost slots0 = slots@;
                let row = rows.remove(idx);
                let slot = slots.remove(idx);
                let (row1, slot1) = self.refresh_token(provider, row, slot, ts, now);
                rows.insert(idx, row1);
                slots.insert(idx, slot1);
                proof {
                    assert(rows@ =~= rows0.update(idx as int, row1));
                    assert(slots@ =~= slots0.update(idx as int, slot1));
                    if !spec_refresh_accepted(rows0[idx as int], ts) {
                        assert(rows@ =~= rows0);
                        assert(slots@ =~= slots0);
                    }
                }
            },
        }
    }
}

/// Finds the first row with the given identifier.
fn find_row_index(rows: &Vec<TokenRow>, id: &str) -> (r: Option<usize>)
    ensures
        r is Some <==> spec_index_of(spec_row_ids(rows@), id@) is Some,
        r matches Some(i) ==> (Some(i as int) == spec_index_of(spec_row_ids(rows@), id@) && i
            < rows@.len()),
{
    let n = rows.len();
    let mut i: usize = 0;
    while i < n
        invariant
            0 <= i <= n,
            n == rows@.len(),
            forall|j: int| 0 <= j < i ==> #[trigger] rows@[j].token_id@ != id@,
        decreases n - i,
    {
        if crate::str_eq(rows[i].token_id.as_str(), id) {
            proof {
                let ids = spec_row_ids(rows@);
                assert(ids[i as int] == id@);
                super::lemma_index_of_first(ids, id@, i as int);
            }
            return Some(i);
        }
        i = i + 1;
    }
    proof {
        let ids = spec_row_ids(rows@);
        assert(forall|j: int| 0 <= j < ids.len() ==> ids[j] != id@);
        super::lemma_index_of_none(ids, id@);
    }
    None
}

} // verus!
