//! The scheduler half of the worker pair: on each cycle it walks every row,
//! emits a refresh command for each due row whose state allows one, and
//! evaluates the near-expiry notifications.
//!
//! The `Pending` states carry the answer to "is a refresh already in flight
//! for this row?": the scheduler never emits a second command for a row
//! whose previous refresh is still outstanding.
use vstd::prelude::*;

use super::token_updater::{spec_refresh_accepted, spec_success_applied, TokenUpdater};
use super::{minus_millis, plus_millis, spec_fraction_of, spec_plus_millis, EpochMillis,
    ManagerCommand, TokenRow, TokenState};

verus! {

/// Holds when the scheduler must act on the row: its scheduled time has
/// arrived.
pub open spec fn spec_row_due(row: TokenRow, now: EpochMillis) -> bool {
    row.scheduled_for <= now
}

/// The state a due row moves to: a state with an outstanding command.
pub open spec fn spec_sched_next_state(state: TokenState) -> TokenState {
    match state {
        TokenState::Uninitialized => TokenState::Initializing,
        TokenState::Initializing => TokenState::Initializing,
        TokenState::Valid => TokenState::ValidPending,
        TokenState::ValidPending => TokenState::ValidPending,
        TokenState::Error => TokenState::ErrorPending,
        TokenState::ErrorPending => TokenState::ErrorPending,
    }
}

/// The command the scheduler emits for row `idx`: a refresh for a due row
/// that has no refresh outstanding — on the error path a `RefreshOnError` —
/// and nothing otherwise.
pub open spec fn spec_sched_command(row: TokenRow, idx: int, now: EpochMillis) -> Option<
    ManagerCommand,
> {
    if !spec_row_due(row, now) {
        None
    } else {
        match row.token_state {
            TokenState::Uninitialized => Some(ManagerCommand::ScheduledRefresh(idx as usize, now)),
            TokenState::Valid => Some(ManagerCommand::ScheduledRefresh(idx as usize, now)),
            TokenState::Error => Some(ManagerCommand::RefreshOnError(idx as usize, now)),
            _ => None,
        }
    }
}

/// Holds when enough time has passed since the row's last notification.
pub open spec fn spec_notify_allowed(
    row: TokenRow,
    now: EpochMillis,
    min_interval: EpochMillis,
) -> bool {
    match row.last_notification_at {
        Some(t) => (if t > now {
            0u64
        } else {
            (now - t) as u64
        }) >= min_interval,
        None => true,
    }
}

/// Holds when the row deserves a user-visible warning: it sits in an error
/// state, or its token has expired, or its warning time has arrived.
pub open spec fn spec_warning_due(
    state: TokenState,
    expires_at: EpochMillis,
    warn_at: EpochMillis,
    now: EpochMillis,
) -> bool {
    match state {
        TokenState::Error | TokenState::ErrorPending => true,
        TokenState::Valid | TokenState::ValidPending => expires_at <= now || warn_at <= now,
        _ => false,
    }
}

/// One row after a scheduling round at `now`: the state transition of the
/// table when the row is due, and the notification bookkeeping, which looks
/// at the post-transition state.
pub open spec fn spec_row_after_round(
    row: TokenRow,
    now: EpochMillis,
    min_interval: EpochMillis,
) -> TokenRow {
    let state1 = if spec_row_due(row, now) {
        spec_sched_next_state(row.token_state)
    } else {
        row.token_state
    };
    let notified = spec_notify_allowed(row, now, min_interval) && spec_warning_due(
        state1,
        row.expires_at,
        row.warn_at,
        now,
    );
    TokenRow {
        token_state: state1,
        last_notification_at: if notified {
            Some(now)
        } else {
            row.last_notification_at
        },
        ..row
    }
}

/// The commands one scheduling round emits, in row order.
pub open spec fn spec_round_commands(rows: Seq<TokenRow>, now: EpochMillis) -> Seq<ManagerCommand>
    decreases rows.len(),
{
    if rows.len() == 0 {
        Seq::empty()
    } else {
        spec_round_commands(rows.drop_last(), now) + match spec_sched_command(
            rows.last(),
            rows.len() - 1,
            now,
        ) {
            Some(c) => seq![c],
            None => Seq::empty(),
        }
    }
}

/// Holds when some refresh is due or outstanding, so the next cycle must
/// come quickly.
pub open spec fn spec_round_has_pending(rows: Seq<TokenRow>, now: EpochMillis) -> bool {
    exists|i: int|
        0 <= i < rows.len() && (spec_row_due(#[trigger] rows[i], now)
            || rows[i].token_state.spec_is_refresh_pending())
}

/// The earliest scheduled time among the rows that are not yet due.
pub open spec fn spec_round_min_next(rows: Seq<TokenRow>, now: EpochMillis) -> u64
    decreases rows.len(),
{
    if rows.len() == 0 {
        u64::MAX
    } else {
        let m = spec_round_min_next(rows.drop_last(), now);
        if !spec_row_due(rows.last(), now) && rows.last().scheduled_for < m {
            rows.last().scheduled_for
        } else {
            m
        }
    }
}

/// When the scheduler should wake again: promptly while work is due or in
/// flight, and otherwise not before the earliest scheduled row.
pub open spec fn spec_round_next_at(rows: Seq<TokenRow>, now: EpochMillis) -> u64 {
    if spec_round_has_pending(rows, now) {
        spec_plus_millis(now, 50)
    } else {
        spec_round_min_next(rows, now)
    }
}

/// The scheduler half of the worker pair.
pub struct RefreshScheduler {
    /// The number of milliseconds a cycle should take at most.
    pub max_cycle_dur_ms: u64,
    /// The time that must at least elapse between two notifications for the
    /// same row.
    pub min_notification_interval_ms: u64,
}

impl RefreshScheduler {
    /// Creates a scheduler with the given cycle length and notification
    /// interval.
    pub fn new(max_cycle_dur_ms: u64, min_notification_interval_ms: u64) -> (s: Self)
        ensures
            s.max_cycle_dur_ms == max_cycle_dur_ms,
            s.min_notification_interval_ms == min_notification_interval_ms,
    {
        RefreshScheduler { max_cycle_dur_ms, min_notification_interval_ms }
    }

    /// Evaluates the notification rule for one row: whether a warning is due
    /// now and may be emitted, recording the emission time on the row. The
    /// caller surfaces the warning itself.
    pub fn check_notifications(&self, row: TokenRow, now: EpochMillis) -> (r: (TokenRow, bool))
        ensures
            r.1 == (spec_notify_allowed(row, now, self.min_notification_interval_ms)
                && spec_warning_due(row.token_state, row.expires_at, row.warn_at, now)),
            r.1 ==> r.0 == (TokenRow { last_notification_at: Some(now), ..row }),
            !r.1 ==> r.0 == row,
    {
        let allowed = match row.last_notification_at {
            Some(t) => minus_millis(now, t) >= self.min_notification_interval_ms,
            None => true,
        };
        if !allowed {
            return (row, false);
        }
        let warn = match row.token_state {
            TokenState::Error | TokenState::ErrorPending => true,
            TokenState::Valid | TokenState::ValidPending => row.expires_at <= now || row.warn_at
                <= now,
            _ => false,
        };
        if warn {
            (TokenRow { last_notification_at: Some(now), ..row }, true)
        } else {
            (row, false)
        }
    }

    /// One scheduling round at `now`: every due row moves to its pending
    /// state, with a refresh command emitted for each row that had none
    /// outstanding; notifications are evaluated on every row; and the
    /// returned instant says when the next round is due.
    pub fn do_a_scheduling_round(
        &self,
        rows: &mut Vec<TokenRow>,
        queue: &mut Vec<ManagerCommand>,
        now: EpochMillis,
    ) -> (next_at: u64)
        ensures
            final(rows)@.len() == old(rows)@.len(),
            forall|i: int|
                0 <= i < old(rows)@.len() ==> final(rows)@[i] == spec_row_after_round(
                    #[trigger] old(rows)@[i],
                    now,
                    self.min_notification_interval_ms,
                ),
            final(queue)@ == old(queue)@ + spec_round_commands(old(rows)@, now),
            next_at == spec_round_next_at(old(rows)@, now),
    {
        let ghost rows0 = rows@;
        let ghost queue0 = queue@;
        let n = rows.len();
        let mut i: usize = 0;
        let mut min_next: u64 = u64::MAX;
        let mut any_pending: bool = false;
        proof {
            assert(queue@ =~= queue0 + spec_round_commands(rows0.take(0), now));
        }
        while i < n
            invariant
                0 <= i <= n,
                n == rows@.len(),
                rows@.len() == rows0.len(),
                forall|j: int|
                    0 <= j < i ==> rows@[j] == spec_row_after_round(
                        #[trigger] rows0[j],
                        now,
                        self.min_notification_interval_ms,
                    ),
                forall|j: int| i <= j < n ==> rows@[j] == #[trigger] rows0[j],
                queue@ == queue0 + spec_round_commands(rows0.take(i as int), now),
                any_pending == spec_round_has_pending(rows0.take(i as int), now),
                min_next == spec_round_min_next(rows0.take(i as int), now),
            decreases n - i,
        {
            let ghost queue_before = queue@;
            let due = rows[i].scheduled_for <= now;
            let state0 = rows[i].token_state;
            if due {
                any_pending = true;
                match state0 {
                    TokenState::Uninitialized | TokenState::Valid => {
                        queue.push(ManagerCommand::ScheduledRefresh(i, now));
                    },
                    TokenState::Error => {
                        queue.push(ManagerCommand::RefreshOnError(i, now));
                    },
                    _ => {},
                }
            } else {
                if rows[i].scheduled_for < min_next {
                    min_next = rows[i].scheduled_for;
                }
                if rows[i].token_state.is_refresh_pending() {
                    any_pending = true;
                }
            }
            let row = rows.remove(i);
            let state1 = if due {
                match state0 {
                    TokenState::Uninitialized => TokenState::Initializing,
                    TokenState::Initializing => TokenState::Initializing,
                    TokenState::Valid => TokenState::ValidPending,
                    TokenState::ValidPending => TokenState::ValidPending,
                    TokenState::Error => TokenState::ErrorPending,
                    TokenState::ErrorPending => TokenState::ErrorPending,
                }
            } else {
                state0
            };
            let stepped = TokenRow { token_state: state1, ..row };
            let (row2, _warning_due) = self.check_notifications(stepped, now);
            rows.insert(i, row2);
            proof {
                let prefix1 = rows0.take(i + 1);
                assert(prefix1.drop_last() =~= rows0.take(i as int));
                assert(prefix1.last() == rows0[i as int]);
                assert(rows@[i as int] == row2);
                assert(row2 == spec_row_after_round(
                    rows0[i as int],
                    now,
                    self.min_notification_interval_ms,
                ));
                // the emitted command, if any, lands at the end of the queue
                assert(queue@ =~= queue0 + spec_round_commands(prefix1, now));
                // the wake-up bookkeeping matches its round-level shape
                if spec_round_has_pending(rows0.take(i as int), now) {
                    let w = choose|k: int|
                        0 <= k < i && (spec_row_due(#[trigger] rows0.take(i as int)[k], now)
                            || rows0.take(i as int)[k].token_state.spec_is_refresh_pending());
                    assert(spec_row_due(prefix1[w], now)
                        || prefix1[w].token_state.spec_is_refresh_pending());
                }
                if due || rows0[i as int].token_state.spec_is_refresh_pending() {
                    assert(spec_row_due(prefix1[i as int], now)
                        || prefix1[i as int].token_state.spec_is_refresh_pending());
                }
            }
            i = i + 1;
        }
        proof {
            assert(rows0.take(n as int) =~= rows0);
        }
        if any_pending {
            plus_millis(now, 50)
        } else {
            min_next
        }
    }
}

/// Law: after a successful refresh with lifetime `expires_in_ms` applied at
/// `t_ok`, the row is due again no later than the refresh-threshold fraction
/// of that lifetime past `t_ok`, and any scheduling round from that moment
/// on emits the next `ScheduledRefresh` for the row.
pub proof fn lemma_next_refresh_by_threshold(
    row0: TokenRow,
    row1: TokenRow,
    expires_in_ms: u64,
    t_ok: EpochMillis,
    idx: int,
    now: EpochMillis,
)
    requires
        spec_success_applied(row0, row1, expires_in_ms, t_ok),
        now >= spec_plus_millis(
            t_ok,
            spec_fraction_of(expires_in_ms, row0.refresh_threshold),
        ),
        0 <= idx,
    ensures
        spec_row_due(row1, now),
        spec_sched_command(row1, idx, now) == Some(
            ManagerCommand::ScheduledRefresh(idx as usize, now),
        ),
{
}

/// A command the round decides to emit for a row is among the round's
/// emitted commands.
pub proof fn lemma_round_commands_contains(rows: Seq<TokenRow>, now: EpochMillis, i: int)
    requires
        0 <= i < rows.len(),
        spec_sched_command(rows[i], i, now) is Some,
    ensures
        spec_round_commands(rows, now).contains(spec_sched_command(rows[i], i, now).unwrap()),
    decreases rows.len(),
{
    let cmds = spec_round_commands(rows, now);
    let c = spec_sched_command(rows[i], i, now).unwrap();
    if i == rows.len() - 1 {
        assert(cmds[cmds.len() - 1] == c);
    } else {
        lemma_round_commands_contains(rows.drop_last(), now, i);
        let sub = spec_round_commands(rows.drop_last(), now);
        let k = choose|k: int| 0 <= k < sub.len() && sub[k] == c;
        assert(cmds[k] == c);
    }
}

/// Says whether a command is a scheduler-emitted refresh for row `idx`.
pub open spec fn spec_command_is_for(c: ManagerCommand, idx: int) -> bool {
    match c {
        ManagerCommand::ScheduledRefresh(i, _) => i == idx,
        ManagerCommand::RefreshOnError(i, _) => i == idx,
        ManagerCommand::ForceRefresh(_, _) => false,
    }
}

/// How many scheduler-emitted refresh commands in the queue address row
/// `idx`.
pub open spec fn spec_commands_for_row(queue: Seq<ManagerCommand>, idx: int) -> nat
    decreases queue.len(),
{
    if queue.len() == 0 {
        0
    } else {
        (if spec_command_is_for(queue[0], idx) {
            1nat
        } else {
            0nat
        }) + spec_commands_for_row(queue.drop_first(), idx)
    }
}

/// A well-placed scheduler command: it addresses an existing row and has not
/// been overtaken by a completed refresh.
pub open spec fn spec_command_well_placed(rows: Seq<TokenRow>, c: ManagerCommand) -> bool {
    match c {
        ManagerCommand::ScheduledRefresh(i, ts) => i < rows.len() && spec_refresh_accepted(
            rows[i as int],
            ts,
        ),
        ManagerCommand::RefreshOnError(i, ts) => i < rows.len() && spec_refresh_accepted(
            rows[i as int],
            ts,
        ),
        ManagerCommand::ForceRefresh(_, _) => false,
    }
}

/// Law: the channel invariant between the worker pair, over the scheduler's
/// own traffic. A row in a pending state has exactly one refresh command
/// outstanding, every other row none — in particular, at most one command
/// per row is ever outstanding — and each outstanding command will pass the
/// stale-command gate when it arrives.
pub open spec fn spec_queue_matches_rows(
    rows: Seq<TokenRow>,
    queue: Seq<ManagerCommand>,
) -> bool {
    &&& forall|k: int|
        0 <= k < queue.len() ==> spec_command_well_placed(rows, #[trigger] queue[k])
    &&& forall|i: int|
        0 <= i < rows.len() ==> spec_commands_for_row(queue, i) == if rows[
            i
        ].token_state.spec_is_refresh_pending() {
            1nat
        } else {
            0nat
        }
}

/// Counting distributes over queue concatenation.
pub proof fn lemma_commands_count_concat(
    a: Seq<ManagerCommand>,
    b: Seq<ManagerCommand>,
    idx: int,
)
    ensures
        spec_commands_for_row(a + b, idx) == spec_commands_for_row(a, idx)
            + spec_commands_for_row(b, idx),
    decreases a.len(),
{
    if a.len() == 0 {
        assert(a + b =~= b);
    } else {
        assert((a + b).drop_first() =~= a.drop_first() + b);
        assert((a + b)[0] == a[0]);
        lemma_commands_count_concat(a.drop_first(), b, idx);
    }
}

/// A queue that counts no command for a row holds no command for it.
pub proof fn lemma_count_zero_no_commands(queue: Seq<ManagerCommand>, idx: int)
    requires
        spec_commands_for_row(queue, idx) == 0,
    ensures
        forall|k: int| 0 <= k < queue.len() ==> !spec_command_is_for(#[trigger] queue[k], idx),
    decreases queue.len(),
{
    if queue.len() > 0 {
        lemma_count_zero_no_commands(queue.drop_first(), idx);
        assert forall|k: int|
            0 <= k < queue.len() implies !spec_command_is_for(#[trigger] queue[k], idx) by {
            if k > 0 {
                assert(queue[k] == queue.drop_first()[k - 1]);
            }
        }
    }
}

/// A round emits exactly one command for each due row without an
/// outstanding refresh, and none for any other row.
pub proof fn lemma_round_commands_count(rows: Seq<TokenRow>, now: EpochMillis, idx: int)
    requires
        rows.len() <= usize::MAX,
    ensures
        spec_commands_for_row(spec_round_commands(rows, now), idx) == if 0 <= idx < rows.len()
            && spec_sched_command(rows[idx], idx, now) is Some {
            1nat
        } else {
            0nat
        },
    decreases rows.len(),
{
    if rows.len() > 0 {
        let last_i = rows.len() - 1;
        lemma_round_commands_count(rows.drop_last(), now, idx);
        let sub = spec_round_commands(rows.drop_last(), now);
        let tail = match spec_sched_command(rows.last(), last_i, now) {
            Some(c) => seq![c],
            None => Seq::<ManagerCommand>::empty(),
        };
        lemma_commands_count_concat(sub, tail, idx);
        assert(spec_commands_for_row(spec_round_commands(rows, now), idx) == spec_commands_for_row(
            sub,
            idx,
        ) + spec_commands_for_row(tail, idx));
        if tail.len() > 0 {
            let c = spec_sched_command(rows.last(), last_i, now).unwrap();
            assert(tail[0] == c);
            assert(tail.drop_first() =~= Seq::<ManagerCommand>::empty());
            assert(spec_commands_for_row(tail.drop_first(), idx) == 0);
            assert(last_i as usize as int == last_i);
            assert(spec_command_is_for(c, idx) <==> idx == last_i);
        }
        if 0 <= idx < last_i {
            assert(rows.drop_last()[idx] == rows[idx]);
        }
        if idx == last_i {
            assert(!(0 <= idx < rows.drop_last().len()));
            assert(spec_commands_for_row(sub, idx) == 0);
            assert(rows.last() == rows[idx]);
        }
    }
}

/// Every command a round emits is well placed among the rows the round
/// leaves behind, provided each emitting row is freshly refreshable: its
/// command carries a timestamp past the row's last completed refresh.
pub proof fn lemma_round_commands_well_placed(
    rows0: Seq<TokenRow>,
    rows1: Seq<TokenRow>,
    now: EpochMillis,
    min_interval: EpochMillis,
)
    requires
        rows0.len() <= usize::MAX,
        rows1.len() == rows0.len(),
        forall|i: int|
            0 <= i < rows0.len() ==> rows1[i] == spec_row_after_round(
                #[trigger] rows0[i],
                now,
                min_interval,
            ),
        forall|i: int|
            0 <= i < rows0.len() && spec_sched_command(#[trigger] rows0[i], i, now) is Some
                ==> spec_refresh_accepted(rows0[i], now),
    ensures
        forall|k: int|
            0 <= k < spec_round_commands(rows0, now).len() ==> spec_command_well_placed(
                rows1,
                #[trigger] spec_round_commands(rows0, now)[k],
            ),
    decreases rows0.len(),
{
    if rows0.len() > 0 {
        let last_i = rows0.len() - 1;
        assert forall|i: int|
            0 <= i < rows0.drop_last().len() implies rows1.drop_last()[i] == spec_row_after_round(
            #[trigger] rows0.drop_last()[i],
            now,
            min_interval,
        ) by {
            assert(rows0.drop_last()[i] == rows0[i]);
            assert(rows1.drop_last()[i] == rows1[i]);
        }
        assert forall|i: int|
            0 <= i < rows0.drop_last().len() && spec_sched_command(
                #[trigger] rows0.drop_last()[i],
                i,
                now,
            ) is Some implies spec_refresh_accepted(rows0.drop_last()[i], now) by {
            assert(rows0.drop_last()[i] == rows0[i]);
        }
        lemma_round_commands_well_placed(rows0.drop_last(), rows1.drop_last(), now, min_interval);
        let cmds = spec_round_commands(rows0, now);
        let sub = spec_round_commands(rows0.drop_last(), now);
        assert forall|k: int|
            0 <= k < cmds.len() implies spec_command_well_placed(rows1, #[trigger] cmds[k]) by {
            if k < sub.len() {
                assert(cmds[k] == sub[k]);
                assert(spec_command_well_placed(rows1.drop_last(), sub[k]));
                match sub[k] {
                    ManagerCommand::ScheduledRefresh(i, ts) => {
                        assert(rows1[i as int] == rows1.drop_last()[i as int]);
                    },
                    ManagerCommand::RefreshOnError(i, ts) => {
                        assert(rows1[i as int] == rows1.drop_last()[i as int]);
                    },
                    _ => {},
                }
            } else {
                assert(spec_sched_command(rows0[last_i], last_i, now) is Some);
                let c = spec_sched_command(rows0[last_i], last_i, now).unwrap();
                assert(cmds[k] == c);
                assert(spec_refresh_accepted(rows0[last_i], now));
                assert(rows1[last_i].last_touched == rows0[last_i].last_touched);
                if rows0[last_i].token_state.spec_is_uninitialized() {
                    assert(rows1[last_i].token_state.spec_is_uninitialized());
                }
                assert(spec_refresh_accepted(rows1[last_i], now));
            }
        }
    }
}

/// Law: a scheduling round preserves the channel invariant. Each due row
/// without an outstanding command gets exactly one and becomes pending;
/// pending rows get none; nothing else gains a command.
pub proof fn lemma_round_preserves_queue_match(
    rows0: Seq<TokenRow>,
    queue0: Seq<ManagerCommand>,
    rows1: Seq<TokenRow>,
    queue1: Seq<ManagerCommand>,
    now: EpochMillis,
    min_interval: EpochMillis,
)
    requires
        rows0.len() <= usize::MAX,
        spec_queue_matches_rows(rows0, queue0),
        rows1.len() == rows0.len(),
        forall|i: int|
            0 <= i < rows0.len() ==> rows1[i] == spec_row_after_round(
                #[trigger] rows0[i],
                now,
                min_interval,
            ),
        queue1 == queue0 + spec_round_commands(rows0, now),
        forall|i: int|
            0 <= i < rows0.len() && spec_sched_command(#[trigger] rows0[i], i, now) is Some
                ==> spec_refresh_accepted(rows0[i], now),
    ensures
        spec_queue_matches_rows(rows1, queue1),
{
    let emitted = spec_round_commands(rows0, now);
    lemma_round_commands_well_placed(rows0, rows1, now, min_interval);
    assert forall|k: int|
        0 <= k < queue1.len() implies spec_command_well_placed(rows1, #[trigger] queue1[k]) by {
        if k < queue0.len() {
            assert(queue1[k] == queue0[k]);
            assert(spec_command_well_placed(rows0, queue0[k]));
            match queue0[k] {
                ManagerCommand::ScheduledRefresh(i, ts) => {
                    assert(rows1[i as int].last_touched == rows0[i as int].last_touched);
                    if rows0[i as int].token_state.spec_is_uninitialized() {
                        assert(rows1[i as int].token_state.spec_is_uninitialized());
                    }
                },
                ManagerCommand::RefreshOnError(i, ts) => {
                    assert(rows1[i as int].last_touched == rows0[i as int].last_touched);
                    if rows0[i as int].token_state.spec_is_uninitialized() {
                        assert(rows1[i as int].token_state.spec_is_uninitialized());
                    }
                },
                _ => {},
            }
        } else {
            assert(queue1[k] == emitted[k - queue0.len()]);
        }
    }
    assert forall|i: int|
        0 <= i < rows1.len() implies spec_commands_for_row(queue1, i) == (if rows1[
        i
    ].token_state.spec_is_refresh_pending() {
        1nat
    } else {
        0nat
    }) by {
        lemma_commands_count_concat(queue0, emitted, i);
        lemma_round_commands_count(rows0, now, i);
    }
}

/// Law: consuming and applying the head command preserves the channel
/// invariant. The processed row leaves its pending state — it now holds a
/// fresh token, records the failure, or keeps its still-valid token — and
/// no command for it remains outstanding.
pub proof fn lemma_consume_preserves_queue_match(
    rows0: Seq<TokenRow>,
    queue0: Seq<ManagerCommand>,
    rows1: Seq<TokenRow>,
    slot0: super::SlotValue,
    slot1: super::SlotValue,
    now: EpochMillis,
)
    requires
        spec_queue_matches_rows(rows0, queue0),
        queue0.len() > 0,
        rows1.len() == rows0.len(),
        ({
            let i = TokenUpdater::spec_command_index(rows0, queue0[0]).unwrap();
            &&& TokenUpdater::spec_command_index(rows0, queue0[0]) is Some
            &&& forall|j: int| 0 <= j < rows0.len() && j != i ==> rows1[j] == rows0[j]
            &&& super::token_updater::spec_refresh_applied(rows0[i], slot0, rows1[i], slot1, now)
        }),
    ensures
        spec_queue_matches_rows(rows1, queue0.drop_first()),
{
    let head = queue0[0];
    let rest = queue0.drop_first();
    assert(spec_command_well_placed(rows0, head));
    let i: int = match head {
        ManagerCommand::ScheduledRefresh(i, _) => i as int,
        ManagerCommand::RefreshOnError(i, _) => i as int,
        ManagerCommand::ForceRefresh(_, _) => 0,
    };
    assert(TokenUpdater::spec_command_index(rows0, head) == Some(i));
    assert(spec_commands_for_row(queue0, i) >= 1) by {
        assert(spec_command_is_for(head, i));
    }
    assert(rows0[i].token_state.spec_is_refresh_pending());
    assert(spec_commands_for_row(queue0, i) == 1);
    assert(spec_commands_for_row(rest, i) == 0);
    // the processed row leaves its pending state, whatever the outcome was
    assert(!rows1[i].token_state.spec_is_refresh_pending());
    lemma_count_zero_no_commands(rest, i);
    assert forall|k: int|
        0 <= k < rest.len() implies spec_command_well_placed(rows1, #[trigger] rest[k]) by {
        assert(rest[k] == queue0[k + 1]);
        assert(spec_command_well_placed(rows0, rest[k]));
        match rest[k] {
            ManagerCommand::ScheduledRefresh(j, ts) => {
                assert(!spec_command_is_for(rest[k], i));
                assert(rows1[j as int] == rows0[j as int]);
            },
            ManagerCommand::RefreshOnError(j, ts) => {
                assert(!spec_command_is_for(rest[k], i));
                assert(rows1[j as int] == rows0[j as int]);
            },
            _ => {},
        }
    }
    assert forall|j: int|
        0 <= j < rows1.len() implies spec_commands_for_row(rest, j) == (if rows1[
        j
    ].token_state.spec_is_refresh_pending() {
        1nat
    } else {
        0nat
    }) by {
        if j != i {
            assert(spec_commands_for_row(queue0, j) == (if spec_command_is_for(head, j) {
                1nat
            } else {
                0nat
            }) + spec_commands_for_row(rest, j));
            assert(!spec_command_is_for(head, j));
            assert(rows1[j] == rows0[j]);
        }
    }
}

} // verus!
