use scheduled_buyback::{
    commit_execution, execute_buyback, route, schedule_satisfied, EngineState, ExecutionOutcome,
    RoutingResult, SBEError,
};

fn sample_state() -> EngineState {
    EngineState {
        authority: [7u8; 32],
        treasury: [9u8; 32],
        last_execution_ts: 0,
        min_interval_seconds: 3600,
        min_accumulated_lamports: 1_000_000_000,
        buyback_bps: 5000,
        lp_bps: 3000,
        distribution_bps: 1500,
        bump: 254,
    }
}

#[test]
fn time_boundary_is_inclusive() {
    let s = sample_state();
    assert!(schedule_satisfied(&s, 3600, 0));
    assert!(!schedule_satisfied(&s, 3599, 0));
}

#[test]
fn balance_boundary_is_inclusive() {
    let s = sample_state();
    assert!(schedule_satisfied(&s, 10, 1_000_000_000));
    assert!(!schedule_satisfied(&s, 10, 999_999_999));
}

#[test]
fn either_condition_suffices() {
    let s = sample_state();
    assert!(schedule_satisfied(&s, 7200, 5));
    assert!(schedule_satisfied(&s, 1, 2_000_000_000));
    assert!(schedule_satisfied(&s, 7200, 2_000_000_000));
    assert!(!schedule_satisfied(&s, 1, 5));
}

#[test]
fn clock_behind_cursor_falls_back_to_balance() {
    let mut s = sample_state();
    s.last_execution_ts = 10_000;
    assert!(!schedule_satisfied(&s, 5_000, 0));
    assert!(schedule_satisfied(&s, 5_000, 1_000_000_000));
}

#[test]
fn extreme_timestamps_do_not_overflow() {
    let mut s = sample_state();
    s.last_execution_ts = i64::MIN;
    s.min_interval_seconds = i64::MAX;
    assert!(schedule_satisfied(&s, i64::MAX, 0));
    s.last_execution_ts = i64::MAX;
    s.min_interval_seconds = 0;
    assert!(!schedule_satisfied(&s, i64::MIN, 0));
}

#[test]
fn route_splits_by_weights() {
    let r = route(1_000_000_000, 5000, 3000, 1500);
    assert_eq!(r.buyback_amount, 500_000_000);
    assert_eq!(r.lp_amount, 300_000_000);
    assert_eq!(r.distribution_amount, 150_000_000);
    let total = r.buyback_amount + r.lp_amount + r.distribution_amount;
    assert_eq!(1_000_000_000 - total, 50_000_000);
}

#[test]
fn route_truncates_each_bucket() {
    let r = route(7, 3334, 3333, 3333);
    assert_eq!(r.buyback_amount, 2);
    assert_eq!(r.lp_amount, 2);
    assert_eq!(r.distribution_amount, 2);
    let total = r.buyback_amount + r.lp_amount + r.distribution_amount;
    assert!(total <= 7);
    assert!(7 - total <= 2);
}

#[test]
fn route_full_weight_at_max_amount() {
    let r = route(u64::MAX, 10_000, 0, 0);
    assert_eq!(r.buyback_amount, u64::MAX);
    assert_eq!(r.lp_amount, 0);
    assert_eq!(r.distribution_amount, 0);
}

#[test]
fn route_zero_amount() {
    let r = route(0, 5000, 3000, 2000);
    assert_eq!(
        r,
        RoutingResult { buyback_amount: 0, lp_amount: 0, distribution_amount: 0 }
    );
}

#[test]
fn execute_when_eligible_advances_cursor_only() {
    let mut s = sample_state();
    let before = s;
    let r = execute_buyback(&mut s, 3600, 1_000_000_000);
    assert_eq!(
        r,
        Ok(ExecutionOutcome::Executed(RoutingResult {
            buyback_amount: 500_000_000,
            lp_amount: 300_000_000,
            distribution_amount: 150_000_000,
        }))
    );
    let mut expected = before;
    expected.last_execution_ts = 3600;
    assert_eq!(s, expected);
}

#[test]
fn execute_when_ineligible_is_a_repeatable_no_op() {
    let mut s = sample_state();
    s.last_execution_ts = 1000;
    let before = s;
    for _ in 0..3 {
        assert_eq!(execute_buyback(&mut s, 2000, 10), Ok(ExecutionOutcome::Skipped));
        assert_eq!(s, before);
    }
}

#[test]
fn execute_after_success_cools_down() {
    let mut s = sample_state();
    assert!(matches!(
        execute_buyback(&mut s, 4000, 500),
        Ok(ExecutionOutcome::Executed(_))
    ));
    assert_eq!(execute_buyback(&mut s, 4001, 500), Ok(ExecutionOutcome::Skipped));
    assert_eq!(s.last_execution_ts, 4000);
    assert!(matches!(
        execute_buyback(&mut s, 7600, 500),
        Ok(ExecutionOutcome::Executed(_))
    ));
    assert_eq!(s.last_execution_ts, 7600);
}

#[test]
fn execute_rejects_weights_over_one_whole() {
    let mut s = sample_state();
    s.buyback_bps = 6000;
    s.lp_bps = 3000;
    s.distribution_bps = 1500;
    let before = s;
    assert_eq!(
        execute_buyback(&mut s, 100_000, u64::MAX),
        Err(SBEError::InvalidRoutingConfig)
    );
    assert_eq!(s, before);
}

#[test]
fn execute_rejects_invalid_weights_even_when_ineligible() {
    let mut s = sample_state();
    s.distribution_bps = 9000;
    let before = s;
    assert_eq!(execute_buyback(&mut s, 1, 0), Err(SBEError::InvalidRoutingConfig));
    assert_eq!(s, before);
}

#[test]
fn execute_full_weight_at_max_balance() {
    let mut s = sample_state();
    s.buyback_bps = 10_000;
    s.lp_bps = 0;
    s.distribution_bps = 0;
    assert_eq!(
        execute_buyback(&mut s, 0, u64::MAX),
        Ok(ExecutionOutcome::Executed(RoutingResult {
            buyback_amount: u64::MAX,
            lp_amount: 0,
            distribution_amount: 0,
        }))
    );
    assert_eq!(s.last_execution_ts, 0);
}

#[test]
fn commit_detects_moved_cursor() {
    let mut s = sample_state();
    s.last_execution_ts = 50;
    let before = s;
    assert_eq!(
        commit_execution(&mut s, 40, 100),
        Err(SBEError::ExecutionAlreadyPerformed)
    );
    assert_eq!(s, before);
    assert_eq!(commit_execution(&mut s, 50, 100), Ok(()));
    assert_eq!(s.last_execution_ts, 100);
    assert_eq!(s.min_interval_seconds, before.min_interval_seconds);
}

#[test]
fn weight_validity() {
    let mut s = sample_state();
    assert!(s.has_valid_weights());
    s.distribution_bps = 2000;
    assert!(s.has_valid_weights());
    s.distribution_bps = 2001;
    assert!(!s.has_valid_weights());
}

#[test]
fn error_messages() {
    assert_eq!(SBEError::ScheduleNotSatisfied.message(), "Schedule conditions not met");
    assert_eq!(SBEError::InvalidRoutingConfig.message(), "Invalid routing configuration");
    assert_eq!(SBEError::Unauthorized.message(), "Unauthorized caller");
    assert_eq!(
        SBEError::ExecutionAlreadyPerformed.message(),
        "Execution already performed in this window"
    );
}
