//! Tests of the refresh scheduler: the per-row decision table and the
//! notification bookkeeping.
use tokkit::token_manager::internals::request_scheduler::RefreshScheduler;
use tokkit::token_manager::internals::{create_rows, ManagerCommand, TokenRow, TokenState};
use tokkit::token_manager::token_provider::{AccessTokenProvider, AccessTokenProviderResult};
use tokkit::token_manager::ManagedTokenGroupBuilder;
use tokkit::Scope;

/// A provider for rows that are only ever driven by the scheduler.
struct DummyTokenProvider;

impl AccessTokenProvider for DummyTokenProvider {
    fn request_access_token(&self, _scopes: &[Scope]) -> AccessTokenProviderResult {
        panic!("the scheduler never calls the provider")
    }
}

fn create_token_rows() -> Vec<TokenRow> {
    let groups = vec![
        ManagedTokenGroupBuilder::single_token(
            "token".to_string(),
            vec![Scope::new("scope")],
            DummyTokenProvider,
        )
        .build()
        .unwrap(),
    ];
    create_rows(&groups, 0)
}

#[test]
fn request_scheduler_initial_state_is_correct() {
    let rows = create_token_rows();
    let row = &rows[0];
    assert_eq!("token", row.token_id);
    assert_eq!(vec![Scope::new("scope")], row.scopes);
    assert_eq!(750, row.refresh_threshold);
    assert_eq!(850, row.warning_threshold);
    assert_eq!(0, row.refresh_at);
    assert_eq!(0, row.warn_at);
    assert_eq!(0, row.expires_at);
    assert_eq!(0, row.scheduled_for);
    assert_eq!(TokenState::Uninitialized, row.token_state);
    assert_eq!(None, row.last_notification_at);
}

#[test]
fn scheduler_sends_initial_refresh_while_nothing_happens() {
    let mut queue: Vec<ManagerCommand> = Vec::new();
    let mut rows = create_token_rows();
    let scheduler = RefreshScheduler::new(0, 1000);

    {
        let row = &rows[0];
        assert_eq!(0, row.refresh_at);
        assert_eq!(0, row.warn_at);
        assert_eq!(0, row.expires_at);
        assert_eq!(0, row.scheduled_for);
        assert_eq!(TokenState::Uninitialized, row.token_state);
        assert_eq!(None, row.last_notification_at);
    }

    scheduler.do_a_scheduling_round(&mut rows, &mut queue, 100);

    let msg = queue.remove(0);
    assert_eq!(ManagerCommand::ScheduledRefresh(0, 100), msg);
    {
        let row = &rows[0];
        assert_eq!(0, row.refresh_at);
        assert_eq!(0, row.warn_at);
        assert_eq!(0, row.expires_at);
        assert_eq!(0, row.scheduled_for);
        assert_eq!(TokenState::Initializing, row.token_state);
        assert_eq!(None, row.last_notification_at);
    }

    scheduler.do_a_scheduling_round(&mut rows, &mut queue, 1100);

    assert!(queue.is_empty());
    {
        let row = &rows[0];
        assert_eq!(0, row.refresh_at);
        assert_eq!(0, row.warn_at);
        assert_eq!(0, row.expires_at);
        assert_eq!(0, row.scheduled_for);
        assert_eq!(TokenState::Initializing, row.token_state);
        assert_eq!(None, row.last_notification_at);
    }
}

#[test]
fn scheduler_workflow() {
    let mut queue: Vec<ManagerCommand> = Vec::new();
    let mut rows = create_token_rows();
    let scheduler = RefreshScheduler::new(0, 1000);

    {
        let row = &rows[0];
        assert_eq!(0, row.refresh_at);
        assert_eq!(0, row.warn_at);
        assert_eq!(0, row.expires_at);
        assert_eq!(0, row.scheduled_for);
        assert_eq!(TokenState::Uninitialized, row.token_state);
        assert_eq!(None, row.last_notification_at);
    }

    scheduler.do_a_scheduling_round(&mut rows, &mut queue, 100);

    let msg = queue.remove(0);
    assert_eq!(ManagerCommand::ScheduledRefresh(0, 100), msg);
    {
        let row = &rows[0];
        assert_eq!(0, row.refresh_at);
        assert_eq!(0, row.warn_at);
        assert_eq!(0, row.expires_at);
        assert_eq!(0, row.scheduled_for);
        assert_eq!(TokenState::Initializing, row.token_state);
        assert_eq!(None, row.last_notification_at);
    }

    // the token comes in at 1000
    {
        let row = &mut rows[0];
        row.refresh_at = 1000 + 7500;
        row.warn_at = 1000 + 8500;
        row.expires_at = 1000 + 10000;
        row.scheduled_for = 1000 + 7500;
        row.token_state = TokenState::Valid;
    }
    scheduler.do_a_scheduling_round(&mut rows, &mut queue, 1000);

    assert!(queue.is_empty());
    {
        let row = &rows[0];
        assert_eq!(8500, row.refresh_at);
        assert_eq!(9500, row.warn_at);
        assert_eq!(11000, row.expires_at);
        assert_eq!(8500, row.scheduled_for);
        assert_eq!(TokenState::Valid, row.token_state);
        assert_eq!(None, row.last_notification_at);
    }

    // at 1001 nothing should happen
    scheduler.do_a_scheduling_round(&mut rows, &mut queue, 1001);

    assert!(queue.is_empty());
    {
        let row = &rows[0];
        assert_eq!(8500, row.scheduled_for);
        assert_eq!(TokenState::Valid, row.token_state);
        assert_eq!(None, row.last_notification_at);
    }

    // at 8499 still nothing should happen
    scheduler.do_a_scheduling_round(&mut rows, &mut queue, 8499);

    assert!(queue.is_empty());
    {
        let row = &rows[0];
        assert_eq!(8500, row.scheduled_for);
        assert_eq!(TokenState::Valid, row.token_state);
        assert_eq!(None, row.last_notification_at);
    }

    // at 8500 a refresh request should be sent
    scheduler.do_a_scheduling_round(&mut rows, &mut queue, 8500);

    let msg = queue.remove(0);
    assert_eq!(ManagerCommand::ScheduledRefresh(0, 8500), msg);
    {
        let row = &rows[0];
        assert_eq!(8500, row.refresh_at);
        assert_eq!(9500, row.warn_at);
        assert_eq!(11000, row.expires_at);
        assert_eq!(8500, row.scheduled_for);
        assert_eq!(TokenState::ValidPending, row.token_state);
        assert_eq!(None, row.last_notification_at);
    }

    // at 9499 nothing should happen
    scheduler.do_a_scheduling_round(&mut rows, &mut queue, 9499);

    assert!(queue.is_empty());
    {
        let row = &rows[0];
        assert_eq!(TokenState::ValidPending, row.token_state);
        assert_eq!(None, row.last_notification_at);
    }

    // at 9500 a notification should have taken place
    scheduler.do_a_scheduling_round(&mut rows, &mut queue, 9500);

    assert!(queue.is_empty());
    {
        let row = &rows[0];
        assert_eq!(TokenState::ValidPending, row.token_state);
        assert_eq!(Some(9500), row.last_notification_at);
    }

    // at 10499 nothing should happen
    scheduler.do_a_scheduling_round(&mut rows, &mut queue, 10499);

    assert!(queue.is_empty());
    {
        let row = &rows[0];
        assert_eq!(TokenState::ValidPending, row.token_state);
        assert_eq!(Some(9500), row.last_notification_at);
    }

    // at 10500 the next notification should have taken place
    scheduler.do_a_scheduling_round(&mut rows, &mut queue, 10500);

    assert!(queue.is_empty());
    {
        let row = &rows[0];
        assert_eq!(TokenState::ValidPending, row.token_state);
        assert_eq!(Some(10500), row.last_notification_at);
    }

    // at 10600 the token comes in
    {
        let row = &mut rows[0];
        row.refresh_at = 10600 + 7500;
        row.warn_at = 10600 + 8500;
        row.expires_at = 10600 + 10000;
        row.scheduled_for = 10600 + 7500;
        row.token_state = TokenState::Valid;
    }
    scheduler.do_a_scheduling_round(&mut rows, &mut queue, 10600);

    assert!(queue.is_empty());
    {
        let row = &rows[0];
        assert_eq!(10600 + 7500, row.refresh_at);
        assert_eq!(10600 + 8500, row.warn_at);
        assert_eq!(10600 + 10000, row.expires_at);
        assert_eq!(10600 + 7500, row.scheduled_for);
        assert_eq!(TokenState::Valid, row.token_state);
        assert_eq!(Some(10500), row.last_notification_at);
    }

    // at 18100 the next token is requested
    scheduler.do_a_scheduling_round(&mut rows, &mut queue, 18100);

    let msg = queue.remove(0);
    assert_eq!(ManagerCommand::ScheduledRefresh(0, 18100), msg);
    {
        let row = &rows[0];
        assert_eq!(10600 + 7500, row.refresh_at);
        assert_eq!(10600 + 8500, row.warn_at);
        assert_eq!(10600 + 10000, row.expires_at);
        assert_eq!(10600 + 7500, row.scheduled_for);
        assert_eq!(TokenState::ValidPending, row.token_state);
        assert_eq!(Some(10500), row.last_notification_at);
    }

    // at 20000 the token enters the error state; only a notification takes
    // place
    {
        let row = &mut rows[0];
        row.refresh_at = 20000;
        row.warn_at = 20000;
        row.expires_at = 20000;
        row.scheduled_for = 20000 + 100;
        row.token_state = TokenState::Error;
    }
    scheduler.do_a_scheduling_round(&mut rows, &mut queue, 20000);

    assert!(queue.is_empty());
    {
        let row = &rows[0];
        assert_eq!(20000, row.refresh_at);
        assert_eq!(20000, row.warn_at);
        assert_eq!(20000, row.expires_at);
        assert_eq!(20100, row.scheduled_for);
        assert_eq!(TokenState::Error, row.token_state);
        assert_eq!(Some(20000), row.last_notification_at);
    }

    // at 20100 a request for a refresh on error is scheduled
    scheduler.do_a_scheduling_round(&mut rows, &mut queue, 20100);

    let msg = queue.remove(0);
    assert_eq!(ManagerCommand::RefreshOnError(0, 20100), msg);
    {
        let row = &rows[0];
        assert_eq!(20100, row.scheduled_for);
        assert_eq!(TokenState::ErrorPending, row.token_state);
        assert_eq!(Some(20000), row.last_notification_at);
    }

    // at 21000 the error is resolved and nothing should happen
    {
        let row = &mut rows[0];
        row.refresh_at = 21000 + 7500;
        row.warn_at = 21000 + 8500;
        row.expires_at = 21000 + 10000;
        row.scheduled_for = 21000 + 7500;
        row.token_state = TokenState::Valid;
    }
    scheduler.do_a_scheduling_round(&mut rows, &mut queue, 21000);

    assert!(queue.is_empty());
    {
        let row = &rows[0];
        assert_eq!(28500, row.refresh_at);
        assert_eq!(29500, row.warn_at);
        assert_eq!(31000, row.expires_at);
        assert_eq!(28500, row.scheduled_for);
        assert_eq!(TokenState::Valid, row.token_state);
        assert_eq!(Some(20000), row.last_notification_at);
    }

    // at 28500 a refresh should be sent
    scheduler.do_a_scheduling_round(&mut rows, &mut queue, 28500);

    let msg = queue.remove(0);
    assert_eq!(ManagerCommand::ScheduledRefresh(0, 28500), msg);
    {
        let row = &rows[0];
        assert_eq!(28500, row.refresh_at);
        assert_eq!(29500, row.warn_at);
        assert_eq!(31000, row.expires_at);
        assert_eq!(28500, row.scheduled_for);
        assert_eq!(TokenState::ValidPending, row.token_state);
        assert_eq!(Some(20000), row.last_notification_at);
    }
}

#[test]
fn scheduler_reports_when_the_next_round_is_due() {
    let mut queue: Vec<ManagerCommand> = Vec::new();
    let mut rows = create_token_rows();
    let scheduler = RefreshScheduler::new(0, 1000);

    rows[0].scheduled_for = 5000;
    rows[0].token_state = TokenState::Valid;

    // nothing due, nothing outstanding: wake at the scheduled time
    let next_at = scheduler.do_a_scheduling_round(&mut rows, &mut queue, 100);
    assert_eq!(5000, next_at);

    // a due row: re-check promptly
    let next_at = scheduler.do_a_scheduling_round(&mut rows, &mut queue, 5000);
    assert_eq!(5050, next_at);
    assert_eq!(1, queue.len());

    // a refresh in flight: keep re-checking promptly
    let next_at = scheduler.do_a_scheduling_round(&mut rows, &mut queue, 5060);
    assert_eq!(5110, next_at);
}
