//! Scenario tests of the whole manager state machine: cold start, regular
//! refresh, stale commands, transient failures, and expiry.
use std::cell::Cell;
use std::cell::RefCell;

use tokkit::token_manager::internals::request_scheduler::RefreshScheduler;
use tokkit::token_manager::internals::token_updater::TokenUpdater;
use tokkit::token_manager::internals::{Inner, ManagerCommand, TokenState};
use tokkit::token_manager::token_provider::{AccessTokenProvider, AccessTokenProviderError,
    AccessTokenProviderResult, AuthorizationServerResponse};
use tokkit::token_manager::{AccessTokenManager, AccessTokenSource, GivesAccessTokensById,
    GivesFixedAccessToken, ManagedTokenGroup, ManagedTokenGroupBuilder, TokenErrorKind};
use tokkit::{AccessToken, Scope};

/// Serves a configurable sequence of outcomes and counts the calls.
struct ScriptedProvider {
    outcomes: RefCell<Vec<AccessTokenProviderResult>>,
    calls: Cell<u32>,
}

impl ScriptedProvider {
    /// Serves the given token with a one-second lifetime, forever.
    fn always(token: &str) -> Self {
        ScriptedProvider {
            outcomes: RefCell::new(vec![Ok(AuthorizationServerResponse {
                access_token: AccessToken::new(token),
                expires_in_ms: 1000,
                refresh_token: None,
            })]),
            calls: Cell::new(0),
        }
    }
}

impl AccessTokenProvider for ScriptedProvider {
    fn request_access_token(&self, _scopes: &[Scope]) -> AccessTokenProviderResult {
        self.calls.set(self.calls.get() + 1);
        let mut outcomes = self.outcomes.borrow_mut();
        if outcomes.len() > 1 {
            outcomes.remove(0)
        } else {
            match &outcomes[0] {
                Ok(rsp) => Ok(AuthorizationServerResponse {
                    access_token: rsp.access_token.clone(),
                    expires_in_ms: rsp.expires_in_ms,
                    refresh_token: None,
                }),
                Err(AccessTokenProviderError::Server(m)) => {
                    Err(AccessTokenProviderError::Server(m.clone()))
                },
                Err(_) => Err(AccessTokenProviderError::Other("scripted".to_string())),
            }
        }
    }
}

fn single_group(provider: ScriptedProvider) -> Vec<ManagedTokenGroup<ScriptedProvider>> {
    let mut builder = ManagedTokenGroupBuilder::single_token(
        "token".to_string(),
        vec![Scope::new("scope")],
        provider,
    );
    builder.with_refresh_threshold(750);
    builder.with_warning_threshold(850);
    vec![builder.build().unwrap()]
}

fn run_pending_commands(
    inner: &mut Inner,
    provider: &ScriptedProvider,
    now: u64,
) {
    let updater = TokenUpdater::new();
    while !inner.queue.is_empty() {
        let cmd = inner.queue.remove(0);
        updater.on_command(provider, &mut inner.rows, &mut inner.slots, &cmd, now);
    }
}

fn reader_token(inner: &Inner, id: &str) -> String {
    match inner.get_access_token(id) {
        Ok(token) => token.0,
        Err(e) => panic!("expected a token, got {:?}", e.kind()),
    }
}

#[test]
fn cold_start() {
    let groups = single_group(ScriptedProvider::always("A"));
    let mut inner = AccessTokenManager::start(&groups, 0).unwrap();
    let scheduler = RefreshScheduler::new(500, 10_000);

    match inner.get_access_token("token") {
        Err(e) => match e.kind() {
            TokenErrorKind::NotInitialized(id) => assert_eq!("token", id),
            other => panic!("expected not-initialized, got {:?}", other),
        },
        Ok(_) => panic!("expected not-initialized"),
    }
    assert!(!inner.all_initialized());

    scheduler.do_a_scheduling_round(&mut inner.rows, &mut inner.queue, 0);
    assert_eq!(vec![ManagerCommand::ScheduledRefresh(0, 0)], inner.queue);

    run_pending_commands(&mut inner, &groups[0].token_provider, 0);
    assert_eq!("A", reader_token(&inner, "token"));
    assert_eq!(750, inner.rows[0].refresh_at);
    assert_eq!(850, inner.rows[0].warn_at);
    assert_eq!(1000, inner.rows[0].expires_at);
    assert!(inner.all_initialized());
}

#[test]
fn regular_refresh() {
    let provider = ScriptedProvider::always("B");
    provider.outcomes.borrow_mut().insert(
        0,
        Ok(AuthorizationServerResponse {
            access_token: AccessToken::new("A"),
            expires_in_ms: 1000,
            refresh_token: None,
        }),
    );
    let groups = single_group(provider);
    let mut inner = AccessTokenManager::start(&groups, 0).unwrap();
    let scheduler = RefreshScheduler::new(500, 10_000);

    scheduler.do_a_scheduling_round(&mut inner.rows, &mut inner.queue, 0);
    run_pending_commands(&mut inner, &groups[0].token_provider, 0);
    assert_eq!("A", reader_token(&inner, "token"));

    scheduler.do_a_scheduling_round(&mut inner.rows, &mut inner.queue, 750);
    assert_eq!(vec![ManagerCommand::ScheduledRefresh(0, 750)], inner.queue);
    run_pending_commands(&mut inner, &groups[0].token_provider, 750);

    assert_eq!("B", reader_token(&inner, "token"));
    assert_eq!(1500, inner.rows[0].refresh_at);
    assert_eq!(1750, inner.rows[0].expires_at);
}

#[test]
fn stale_command_suppressed() {
    let provider = ScriptedProvider::always("B");
    provider.outcomes.borrow_mut().insert(
        0,
        Ok(AuthorizationServerResponse {
            access_token: AccessToken::new("A"),
            expires_in_ms: 1000,
            refresh_token: None,
        }),
    );
    let groups = single_group(provider);
    let mut inner = AccessTokenManager::start(&groups, 0).unwrap();
    let scheduler = RefreshScheduler::new(500, 10_000);

    scheduler.do_a_scheduling_round(&mut inner.rows, &mut inner.queue, 0);
    run_pending_commands(&mut inner, &groups[0].token_provider, 0);
    let calls_after_start = groups[0].token_provider.calls.get();

    // two identical commands arrive back to back before the updater runs
    inner.queue.push(ManagerCommand::ScheduledRefresh(0, 750));
    inner.queue.push(ManagerCommand::ScheduledRefresh(0, 750));
    run_pending_commands(&mut inner, &groups[0].token_provider, 750);

    // the first produced "B" and touched the row; the second was stale
    assert_eq!("B", reader_token(&inner, "token"));
    assert_eq!(750, inner.rows[0].last_touched);
    assert_eq!(calls_after_start + 1, groups[0].token_provider.calls.get());
}

#[test]
fn transient_failure_keeps_old_token() {
    let provider = ScriptedProvider::always("A");
    let groups = single_group(provider);
    let mut inner = AccessTokenManager::start(&groups, 0).unwrap();
    let scheduler = RefreshScheduler::new(500, 10_000);

    // the row holds a valid token that expires at 1750
    scheduler.do_a_scheduling_round(&mut inner.rows, &mut inner.queue, 0);
    run_pending_commands(&mut inner, &groups[0].token_provider, 750);
    assert_eq!(1750, inner.rows[0].expires_at);
    assert_eq!("A", reader_token(&inner, "token"));

    // from now on the provider only fails
    groups[0].token_provider.outcomes.borrow_mut()[0] =
        Err(AccessTokenProviderError::Server("upstream 503".to_string()));

    // the scheduler emits at 1500; the refresh fails inside the validity
    // window: the reader keeps the old token and nothing is clobbered
    scheduler.do_a_scheduling_round(&mut inner.rows, &mut inner.queue, 1500);
    assert_eq!(vec![ManagerCommand::ScheduledRefresh(0, 1500)], inner.queue);
    run_pending_commands(&mut inner, &groups[0].token_provider, 1500);

    assert_eq!("A", reader_token(&inner, "token"));
    assert_eq!(1750, inner.rows[0].expires_at);
    assert_eq!(750, inner.rows[0].last_touched);

    // the row is schedulable again: the next round emits another attempt
    scheduler.do_a_scheduling_round(&mut inner.rows, &mut inner.queue, 1550);
    assert_eq!(vec![ManagerCommand::ScheduledRefresh(0, 1550)], inner.queue);
}

#[test]
fn expired_then_failure_drops_token() {
    let provider = ScriptedProvider::always("A");
    let groups = single_group(provider);
    let mut inner = AccessTokenManager::start(&groups, 0).unwrap();
    let scheduler = RefreshScheduler::new(500, 10_000);

    scheduler.do_a_scheduling_round(&mut inner.rows, &mut inner.queue, 0);
    run_pending_commands(&mut inner, &groups[0].token_provider, 750);
    assert_eq!(1750, inner.rows[0].expires_at);

    groups[0].token_provider.outcomes.borrow_mut()[0] =
        Err(AccessTokenProviderError::Server("upstream 503".to_string()));

    // the token has expired when the failing refresh lands: the slot takes
    // the error and the next attempt is scheduled a second later
    scheduler.do_a_scheduling_round(&mut inner.rows, &mut inner.queue, 1751);
    run_pending_commands(&mut inner, &groups[0].token_provider, 1751);

    match inner.get_access_token("token") {
        Err(e) => match e.kind() {
            TokenErrorKind::AccessTokenProvider(_) => {},
            other => panic!("expected a provider error, got {:?}", other),
        },
        Ok(_) => panic!("expected an error"),
    }
    assert_eq!(TokenState::Error, inner.rows[0].token_state);
    assert_eq!(1751 + 1000, inner.rows[0].scheduled_for);
}

#[test]
fn manager_start_rejects_duplicate_identifiers() {
    let mut builder = ManagedTokenGroupBuilder::single_token(
        "token".to_string(),
        vec![Scope::new("scope")],
        ScriptedProvider::always("A"),
    );
    builder.with_managed_token(
        tokkit::token_manager::ManagedToken {
            token_id: "token".to_string(),
            scopes: Vec::new(),
        },
    );
    let groups = vec![builder.build().unwrap()];
    assert!(AccessTokenManager::start(&groups, 0).is_err());
}

#[test]
fn reader_errors_carry_the_identifier() {
    let groups = single_group(ScriptedProvider::always("A"));
    let inner = AccessTokenManager::start(&groups, 0).unwrap();
    match inner.get_access_token("nobody") {
        Err(e) => match e.kind() {
            TokenErrorKind::NoToken(id) => assert_eq!("nobody", id),
            other => panic!("expected no-token, got {:?}", other),
        },
        Ok(_) => panic!("expected an error"),
    }
}

#[test]
fn force_refresh_is_enqueued_with_the_reader_clock() {
    let groups = single_group(ScriptedProvider::always("A"));
    let mut inner = AccessTokenManager::start(&groups, 0).unwrap();
    inner.enqueue_force_refresh("token", 42);
    assert_eq!(vec![ManagerCommand::ForceRefresh("token".to_string(), 42)], inner.queue);

    run_pending_commands(&mut inner, &groups[0].token_provider, 42);
    assert_eq!("A", reader_token(&inner, "token"));
}

#[test]
fn detached_source_serves_fixed_tokens() {
    let source = AccessTokenSource::new_detached(&vec![
        ("first".to_string(), AccessToken::new("token-one")),
        ("second".to_string(), AccessToken::new("token-two")),
    ]);

    assert_eq!("token-one", source.get_access_token("first").unwrap().0);
    assert_eq!("token-two", source.get_access_token("second").unwrap().0);
    source.refresh("first");
    assert_eq!("token-one", source.get_access_token("first").unwrap().0);

    // the trait path gives the same answers as the inherent lookup
    let via_trait = GivesAccessTokensById::get_access_token(&source, "second").unwrap();
    assert_eq!("token-two", via_trait.0);

    match source.get_access_token("third") {
        Err(e) => match e.kind() {
            TokenErrorKind::NoToken(id) => assert_eq!("third", id),
            other => panic!("expected no-token, got {:?}", other),
        },
        Ok(_) => panic!("expected an error"),
    }
}

#[test]
fn single_source_for_pins_one_identifier() {
    let source = AccessTokenSource::new_detached(&vec![
        ("first".to_string(), AccessToken::new("token-one")),
    ]);

    let fixed = source.single_source_for("first").unwrap();
    assert_eq!("token-one", fixed.get_access_token().unwrap().0);
    fixed.refresh();
    assert_eq!("token-one", fixed.get_access_token().unwrap().0);

    // the trait path gives the same answer as the inherent lookup
    let via_trait = GivesFixedAccessToken::get_access_token(&fixed).unwrap();
    assert_eq!("token-one", via_trait.0);

    assert!(source.single_source_for("missing").is_err());
}
