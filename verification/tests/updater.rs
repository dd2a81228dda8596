//! Tests of the token updater: outcome application, the stale-command gate,
//! and the retry backoff.
use std::cell::Cell;

use tokkit::token_manager::internals::token_updater::{RetryBackoff, TokenUpdater};
use tokkit::token_manager::internals::{create_rows, ManagerCommand, SlotValue, TokenRow,
    TokenState};
use tokkit::token_manager::token_provider::{AccessTokenProvider, AccessTokenProviderError,
    AccessTokenProviderResult, AuthorizationServerResponse};
use tokkit::token_manager::{ManagedTokenGroup, ManagedTokenGroupBuilder, TokenErrorKind};
use tokkit::{AccessToken, Scope};

/// Returns tokens "0", "1", ... with a one-second lifetime, counting calls.
struct DummyAccessTokenProvider {
    counter: Cell<u32>,
}

impl DummyAccessTokenProvider {
    pub fn new() -> Self {
        DummyAccessTokenProvider { counter: Cell::new(0) }
    }
}

impl AccessTokenProvider for DummyAccessTokenProvider {
    fn request_access_token(&self, _scopes: &[Scope]) -> AccessTokenProviderResult {
        let c = self.counter.get();
        self.counter.set(c + 1);
        Ok(AuthorizationServerResponse {
            access_token: AccessToken::new(&c.to_string()),
            expires_in_ms: 1000,
            refresh_token: None,
        })
    }
}

fn create_data(
    provider: DummyAccessTokenProvider,
) -> (Vec<ManagedTokenGroup<DummyAccessTokenProvider>>, Vec<TokenRow>, Vec<SlotValue>) {
    let group = ManagedTokenGroupBuilder::single_token(
        "token".to_string(),
        vec![Scope::new("scope")],
        provider,
    )
    .build()
    .unwrap();
    let groups = vec![group];
    let rows = create_rows(&groups, 0);
    let slots: Vec<SlotValue> = rows
        .iter()
        .map(|r| Err(TokenErrorKind::NotInitialized(r.token_id.clone())))
        .collect();
    (groups, rows, slots)
}

fn slot_token(slot: &SlotValue) -> String {
    match slot {
        Ok(token) => token.0.clone(),
        Err(e) => panic!("expected a token, got {:?}", e),
    }
}

#[test]
fn token_updater_initial_state_is_correct() {
    let (_groups, rows, _slots) = create_data(DummyAccessTokenProvider::new());
    let row = &rows[0];
    assert_eq!("token", row.token_id);
    assert_eq!(vec![Scope::new("scope")], row.scopes);
    assert_eq!(750, row.refresh_threshold);
    assert_eq!(850, row.warning_threshold);
    assert_eq!(0, row.refresh_at);
    assert_eq!(0, row.warn_at);
    assert_eq!(0, row.expires_at);
    assert_eq!(0, row.scheduled_for);
    assert_eq!(TokenState::Uninitialized, row.token_state);
    assert_eq!(None, row.last_notification_at);
}

#[test]
fn token_updater_initializes_token_when_time_did_not_increase() {
    let (groups, mut rows, mut slots) = create_data(DummyAccessTokenProvider::new());
    let updater = TokenUpdater::new();

    let now: u64 = 0;
    updater.on_command(
        &groups[0].token_provider,
        &mut rows,
        &mut slots,
        &ManagerCommand::ScheduledRefresh(0, now),
        now,
    );
    {
        let row = &rows[0];
        assert_eq!(0, row.last_touched);
        assert_eq!(750, row.refresh_at);
        assert_eq!(850, row.warn_at);
        assert_eq!(1000, row.expires_at);
        assert_eq!(TokenState::Valid, row.token_state);
        assert_eq!(None, row.last_notification_at);
    }
    assert_eq!("0", slot_token(&slots[0]));
}

#[test]
fn does_not_initialize_token_twice_when_time_did_not_increase() {
    let (groups, mut rows, mut slots) = create_data(DummyAccessTokenProvider::new());
    let updater = TokenUpdater::new();

    let now: u64 = 0;
    updater.on_command(
        &groups[0].token_provider,
        &mut rows,
        &mut slots,
        &ManagerCommand::ScheduledRefresh(0, now),
        now,
    );
    {
        let row = &rows[0];
        assert_eq!(0, row.last_touched);
        assert_eq!(750, row.refresh_at);
        assert_eq!(850, row.warn_at);
        assert_eq!(1000, row.expires_at);
        assert_eq!(None, row.last_notification_at);
    }
    assert_eq!("0", slot_token(&slots[0]));

    updater.on_command(
        &groups[0].token_provider,
        &mut rows,
        &mut slots,
        &ManagerCommand::ScheduledRefresh(0, now),
        now,
    );
    {
        let row = &rows[0];
        assert_eq!(0, row.last_touched);
        assert_eq!(750, row.refresh_at);
        assert_eq!(850, row.warn_at);
        assert_eq!(1000, row.expires_at);
        assert_eq!(None, row.last_notification_at);
    }
    assert_eq!("0", slot_token(&slots[0]));
    assert_eq!(1, groups[0].token_provider.counter.get());
}

#[test]
fn token_updater_initializes_token_when_time_increased() {
    let (groups, mut rows, mut slots) = create_data(DummyAccessTokenProvider::new());
    let updater = TokenUpdater::new();

    let now: u64 = 1;
    updater.on_command(
        &groups[0].token_provider,
        &mut rows,
        &mut slots,
        &ManagerCommand::ScheduledRefresh(0, now),
        now,
    );
    {
        let row = &rows[0];
        assert_eq!(751, row.refresh_at);
        assert_eq!(851, row.warn_at);
        assert_eq!(1001, row.expires_at);
        assert_eq!(TokenState::Valid, row.token_state);
        assert_eq!(None, row.last_notification_at);
        assert_eq!(1, row.last_touched);
    }
    assert_eq!("0", slot_token(&slots[0]));
}

fn refresh_from_state(state: TokenState) {
    let (groups, mut rows, mut slots) = create_data(DummyAccessTokenProvider::new());
    let updater = TokenUpdater::new();

    rows[0].refresh_at = 0;
    rows[0].warn_at = 0;
    rows[0].expires_at = 0;
    rows[0].scheduled_for = 0;
    rows[0].token_state = state;

    let now: u64 = 100;
    updater.on_command(
        &groups[0].token_provider,
        &mut rows,
        &mut slots,
        &ManagerCommand::ScheduledRefresh(0, 50),
        now,
    );
    {
        let row = &rows[0];
        assert_eq!(100 + 750, row.refresh_at);
        assert_eq!(100 + 850, row.warn_at);
        assert_eq!(100 + 1000, row.expires_at);
        assert_eq!(TokenState::Valid, row.token_state);
        assert_eq!(None, row.last_notification_at);
        assert_eq!(100, row.last_touched);
    }
    assert_eq!("0", slot_token(&slots[0]));
}

#[test]
fn refreshes_initilalizing_token() {
    refresh_from_state(TokenState::Initializing);
}

#[test]
fn refreshes_ok_pending_token() {
    refresh_from_state(TokenState::ValidPending);
}

#[test]
fn refreshes_error_token() {
    refresh_from_state(TokenState::Error);
}

#[test]
fn refreshes_error_pending_token() {
    refresh_from_state(TokenState::ErrorPending);
}

#[test]
fn force_refresh_resolves_the_identifier() {
    let (groups, mut rows, mut slots) = create_data(DummyAccessTokenProvider::new());
    let updater = TokenUpdater::new();

    updater.on_command(
        &groups[0].token_provider,
        &mut rows,
        &mut slots,
        &ManagerCommand::ForceRefresh("token".to_string(), 5),
        5,
    );
    assert_eq!("0", slot_token(&slots[0]));
    assert_eq!(TokenState::Valid, rows[0].token_state);

    // an unknown identifier changes nothing
    updater.on_command(
        &groups[0].token_provider,
        &mut rows,
        &mut slots,
        &ManagerCommand::ForceRefresh("unknown".to_string(), 10),
        10,
    );
    assert_eq!(1, groups[0].token_provider.counter.get());
}

/// Fails every request with the given error.
struct FailingProvider {
    error_message: String,
    counter: Cell<u32>,
}

impl AccessTokenProvider for FailingProvider {
    fn request_access_token(&self, _scopes: &[Scope]) -> AccessTokenProviderResult {
        self.counter.set(self.counter.get() + 1);
        Err(AccessTokenProviderError::Server(self.error_message.clone()))
    }
}

#[test]
fn transient_errors_are_retried_until_the_budget_is_spent() {
    let (_groups, mut rows, mut slots) = create_data(DummyAccessTokenProvider::new());
    let failing = FailingProvider { error_message: "upstream 503".to_string(), counter: Cell::new(0) };
    let updater = TokenUpdater::new();

    updater.on_command(&failing, &mut rows, &mut slots, &ManagerCommand::ScheduledRefresh(0, 0), 0);

    // the delays 10, 15, 22, 33, 49 and 73 spend the 200 ms budget: one
    // initial call and six retries
    assert_eq!(7, failing.counter.get());
    assert_eq!(TokenState::Error, rows[0].token_state);
}

/// Fails every request terminally.
struct RejectingProvider {
    counter: Cell<u32>,
}

impl AccessTokenProvider for RejectingProvider {
    fn request_access_token(&self, _scopes: &[Scope]) -> AccessTokenProviderResult {
        self.counter.set(self.counter.get() + 1);
        Err(AccessTokenProviderError::Parse("bad response".to_string()))
    }
}

#[test]
fn terminal_errors_are_not_retried() {
    let (_groups, mut rows, mut slots) = create_data(DummyAccessTokenProvider::new());
    let rejecting = RejectingProvider { counter: Cell::new(0) };
    let updater = TokenUpdater::new();

    updater.on_command(
        &rejecting,
        &mut rows,
        &mut slots,
        &ManagerCommand::ScheduledRefresh(0, 0),
        0,
    );

    assert_eq!(1, rejecting.counter.get());
    match &slots[0] {
        Err(TokenErrorKind::AccessTokenProvider(msg)) => {
            assert_eq!("parse error: bad response", msg);
        },
        Err(other) => panic!("expected a provider error, got {:?}", other),
        Ok(_) => panic!("expected a provider error, got a token"),
    }
}

#[test]
fn backoff_delays_grow_by_half_until_the_budget_is_spent() {
    let mut backoff = RetryBackoff::new();
    assert_eq!(Some(10), backoff.next_delay());
    assert_eq!(Some(15), backoff.next_delay());
    assert_eq!(Some(22), backoff.next_delay());
    assert_eq!(Some(33), backoff.next_delay());
    assert_eq!(Some(49), backoff.next_delay());
    assert_eq!(Some(73), backoff.next_delay());
    assert_eq!(None, backoff.next_delay());
    assert_eq!(None, backoff.next_delay());
}
