use stream_vault::curve::{release_by_curve, AccelerationType};
use stream_vault::errors::StreamVaultError;
use stream_vault::strategies::{
    create_strategy_examples, select_strategy_for_project, ExponentialStreamingStrategy,
    LinearStreamingStrategy, StreamingContext, StreamingStrategy,
};

#[test]
fn test_exponential_interpolation_quadratic() {
    let strategy = ExponentialStreamingStrategy::new(AccelerationType::Quadratic);
    let total_amount = 1000u64;
    let start_time = 0i64;
    let end_time = 100i64;
    let earned = strategy
        .calculate_earned_amount(total_amount, start_time, end_time, 50, 0, false, None)
        .unwrap();
    assert_eq!(earned, 250);
    let earned = strategy
        .calculate_earned_amount(total_amount, start_time, end_time, 70, 0, false, None)
        .unwrap();
    assert!(earned == 489 || earned == 490);
}

#[test]
fn test_exponential_interpolation_cubic() {
    let strategy = ExponentialStreamingStrategy::new(AccelerationType::Cubic);
    let total_amount = 1000u64;
    let start_time = 0i64;
    let end_time = 100i64;
    let earned = strategy
        .calculate_earned_amount(total_amount, start_time, end_time, 50, 0, false, None)
        .unwrap();
    assert_eq!(earned, 125);
    let earned = strategy
        .calculate_earned_amount(total_amount, start_time, end_time, 80, 0, false, None)
        .unwrap();
    assert_eq!(earned, 512);
}

#[test]
fn test_exponential_with_pause() {
    let strategy = ExponentialStreamingStrategy::new(AccelerationType::Quadratic);
    let earned = strategy
        .calculate_earned_amount(1000, 0, 100, 60, 10, false, None)
        .unwrap();
    assert_eq!(earned, 250);
}

#[test]
fn test_exponential_vs_linear() {
    let linear = LinearStreamingStrategy::new();
    let exponential = ExponentialStreamingStrategy::new(AccelerationType::Quadratic);
    let total_amount = 1000u64;
    let start_time = 0i64;
    let end_time = 100i64;
    let linear_earned_early = linear
        .calculate_earned_amount(total_amount, start_time, end_time, 25, 0, false, None)
        .unwrap();
    let exponential_earned_early = exponential
        .calculate_earned_amount(total_amount, start_time, end_time, 25, 0, false, None)
        .unwrap();
    assert_eq!(linear_earned_early, 250);
    assert_eq!(exponential_earned_early, 62);
    let linear_earned_late = linear
        .calculate_earned_amount(total_amount, start_time, end_time, 75, 0, false, None)
        .unwrap();
    let exponential_earned_late = exponential
        .calculate_earned_amount(total_amount, start_time, end_time, 75, 0, false, None)
        .unwrap();
    assert_eq!(linear_earned_late, 750);
    assert_eq!(exponential_earned_late, 562);
    assert!(exponential_earned_early < linear_earned_early);
    assert!(exponential_earned_late < linear_earned_late);
}

#[test]
fn test_acceleration_type_enum() {
    let linear_strategy = ExponentialStreamingStrategy::new(AccelerationType::Linear);
    let quadratic_strategy = ExponentialStreamingStrategy::new(AccelerationType::Quadratic);
    let cubic_strategy = ExponentialStreamingStrategy::new(AccelerationType::Cubic);
    let linear_earned = linear_strategy
        .calculate_earned_amount(1000, 0, 100, 50, 0, false, None)
        .unwrap();
    let quadratic_earned = quadratic_strategy
        .calculate_earned_amount(1000, 0, 100, 50, 0, false, None)
        .unwrap();
    let cubic_earned = cubic_strategy
        .calculate_earned_amount(1000, 0, 100, 50, 0, false, None)
        .unwrap();
    assert_eq!(linear_earned, 500);
    assert_eq!(quadratic_earned, 250);
    assert_eq!(cubic_earned, 125);
    assert!(cubic_earned < quadratic_earned);
    assert!(quadratic_earned < linear_earned);
}

#[test]
fn test_linear_interpolation() {
    let strategy = LinearStreamingStrategy::new();
    let earned = strategy
        .calculate_earned_amount(1000, 0, 100, 50, 0, false, None)
        .unwrap();
    assert_eq!(earned, 500);
    let earned = strategy
        .calculate_earned_amount(1000, 0, 100, 25, 0, false, None)
        .unwrap();
    assert_eq!(earned, 250);
}

#[test]
fn test_with_pause() {
    let strategy = LinearStreamingStrategy::new();
    let earned = strategy
        .calculate_earned_amount(1000, 0, 100, 60, 10, false, None)
        .unwrap();
    assert_eq!(earned, 500);
}

#[test]
fn test_acceleration_type_values() {
    assert_eq!(AccelerationType::Linear.to_factor() as f64, 1.0);
    assert_eq!(AccelerationType::Quadratic.to_factor() as f64, 2.0);
    assert_eq!(AccelerationType::Cubic.to_factor() as f64, 3.0);
}

#[test]
fn linear_schedule_scenario() {
    let s = LinearStreamingStrategy::new();
    assert_eq!(s.calculate_earned_amount(1000, 0, 100, 50, 0, false, None), Ok(500));
    assert_eq!(s.calculate_earned_amount(1000, 0, 100, 25, 0, false, None), Ok(250));
    assert_eq!(s.calculate_earned_amount(1000, 0, 100, 150, 0, false, None), Ok(1000));
}

#[test]
fn quadratic_curve_scenario() {
    let s = ExponentialStreamingStrategy::new(AccelerationType::Quadratic);
    assert_eq!(s.calculate_earned_amount(1000, 0, 100, 50, 0, false, None), Ok(250));
    let at70 = s.calculate_earned_amount(1000, 0, 100, 70, 0, false, None).unwrap();
    assert!(at70 == 489 || at70 == 490);
    assert_eq!(s.calculate_earned_amount(1000, 0, 100, 100, 0, false, None), Ok(1000));
}

#[test]
fn nothing_earned_before_start() {
    let s = ExponentialStreamingStrategy::new(AccelerationType::Cubic);
    assert_eq!(s.calculate_earned_amount(1000, 100, 200, 99, 0, false, None), Ok(0));
    assert_eq!(s.calculate_earned_amount(1000, 100, 200, 100, 0, false, None), Ok(0));
}

#[test]
fn paused_stream_is_frozen_at_pause_time() {
    let s = LinearStreamingStrategy::new();
    let frozen = s.calculate_earned_amount(1000, 0, 100, 90, 0, true, Some(40)).unwrap();
    assert_eq!(frozen, 400);
    let later = s.calculate_earned_amount(1000, 0, 100, 500, 0, true, Some(40)).unwrap();
    assert_eq!(later, 400);
}

#[test]
fn deadline_pushed_out_by_pause() {
    let s = LinearStreamingStrategy::new();
    assert_eq!(s.calculate_earned_amount(1000, 0, 100, 105, 10, false, None), Ok(950));
    assert_eq!(s.calculate_earned_amount(1000, 0, 100, 110, 10, false, None), Ok(1000));
}

#[test]
fn more_pause_never_earns_more() {
    let s = ExponentialStreamingStrategy::new(AccelerationType::Quadratic);
    let less = s.calculate_earned_amount(1000, 0, 100, 60, 0, false, None).unwrap();
    let more = s.calculate_earned_amount(1000, 0, 100, 60, 10, false, None).unwrap();
    assert!(more <= less);
    assert_eq!(less, 360);
    assert_eq!(more, 250);
}

#[test]
fn earned_is_monotonic_over_a_window() {
    for curve in [AccelerationType::Linear, AccelerationType::Quadratic, AccelerationType::Cubic] {
        let s = ExponentialStreamingStrategy::new(curve);
        let mut prev = 0u64;
        for t in -10i64..120 {
            let e = s.calculate_earned_amount(1_000_000, 0, 100, t, 0, false, None).unwrap();
            assert!(e >= prev);
            assert!(e <= 1_000_000);
            prev = e;
        }
    }
}

#[test]
fn extreme_timestamps_do_not_overflow() {
    let s = ExponentialStreamingStrategy::new(AccelerationType::Cubic);
    let e = s
        .calculate_earned_amount(u64::MAX, i64::MIN, i64::MAX, 0, 0, false, None)
        .unwrap();
    assert!(e <= u64::MAX / 4);
    let l = LinearStreamingStrategy::new()
        .calculate_earned_amount(u64::MAX, 0, 100, 50, i64::MAX, false, None)
        .unwrap();
    assert_eq!(l, 0);
}

#[test]
fn empty_window_releases_everything() {
    let s = LinearStreamingStrategy::new();
    assert_eq!(s.calculate_earned_amount(700, 50, 50, 50, 0, false, None), Ok(700));
}

#[test]
fn release_rates() {
    let linear = LinearStreamingStrategy::new();
    assert_eq!(linear.calculate_release_rate(1000, 0, 100), Ok(10));
    assert_eq!(linear.calculate_release_rate(1000, 100, 100), Err(StreamVaultError::InvalidTimeRange));
    let cubic = ExponentialStreamingStrategy::new(AccelerationType::Cubic);
    assert_eq!(cubic.calculate_release_rate(1000, 0, 100), Ok(30));
    assert_eq!(cubic.calculate_release_rate(u64::MAX, 0, 1), Err(StreamVaultError::MathOverflow));
}

#[test]
fn withdrawable_from_context() {
    let ctx = StreamingContext::new(1000, 0, 100, 50, 0, false, None, 200);
    assert_eq!(LinearStreamingStrategy::new().calculate_withdrawable_amount(&ctx), Ok(300));
    let q = ExponentialStreamingStrategy::new(AccelerationType::Quadratic);
    assert_eq!(q.calculate_withdrawable_amount(&ctx), Ok(50));
    let over = StreamingContext::new(1000, 0, 100, 10, 0, false, None, 200);
    assert_eq!(q.calculate_withdrawable_amount(&over), Err(StreamVaultError::MathOverflow));
    assert_eq!(ctx.effective_current_time(), 50);
    assert_eq!(ctx.effective_end_time(), 100);
    let paused = StreamingContext::new(1000, 0, 100, 50, 5, true, Some(30), 0);
    assert_eq!(paused.effective_current_time(), 30);
    assert_eq!(paused.effective_end_time(), 105);
}

#[test]
fn curve_values_are_exact() {
    assert_eq!(release_by_curve(AccelerationType::Linear, 1000, 33, 100), 330);
    assert_eq!(release_by_curve(AccelerationType::Quadratic, 1000, 33, 100), 108);
    assert_eq!(release_by_curve(AccelerationType::Cubic, 1000, 33, 100), 35);
    assert_eq!(release_by_curve(AccelerationType::Cubic, 1000, 100, 100), 1000);
    assert_eq!(release_by_curve(AccelerationType::Quadratic, 1000, 0, 100), 0);
}

#[test]
fn project_kinds_pick_curves() {
    assert_eq!(select_strategy_for_project("standard").acceleration_type(), AccelerationType::Linear);
    assert_eq!(
        select_strategy_for_project("milestone-based").acceleration_type(),
        AccelerationType::Quadratic
    );
    assert_eq!(
        select_strategy_for_project("completion-critical").acceleration_type(),
        AccelerationType::Cubic
    );
    assert_eq!(select_strategy_for_project("other").acceleration_type(), AccelerationType::Quadratic);
    assert_eq!(ExponentialStreamingStrategy::default().acceleration_type(), AccelerationType::Quadratic);
    create_strategy_examples();
}

#[test]
fn descriptions_are_given() {
    assert_eq!(AccelerationType::Linear.description(), "Linear: Constant rate over time");
    assert_eq!(
        LinearStreamingStrategy::new().description(),
        "Linear streaming: Funds are released proportionally over time"
    );
}

#[test]
fn pauses_settle_after_the_pushed_out_window() {
    let s = ExponentialStreamingStrategy::new(AccelerationType::Quadratic);
    let less = s.calculate_earned_amount(1000, 0, 100, 130, 10, false, None).unwrap();
    let more = s.calculate_earned_amount(1000, 0, 100, 130, 30, false, None).unwrap();
    assert_eq!(less, 1000);
    assert_eq!(more, 1000);
}

#[test]
fn pausing_never_takes_back_earned_amounts() {
    let s = LinearStreamingStrategy::new();
    let before = s.calculate_earned_amount(1000, 0, 100, 40, 0, false, None).unwrap();
    let during = s.calculate_earned_amount(1000, 0, 100, 70, 0, true, Some(40)).unwrap();
    let resumed = s.calculate_earned_amount(1000, 0, 100, 70, 30, false, None).unwrap();
    assert_eq!(before, 400);
    assert_eq!(during, 400);
    assert_eq!(resumed, 400);
    let later = s.calculate_earned_amount(1000, 0, 100, 80, 30, false, None).unwrap();
    assert_eq!(later, 500);
}
