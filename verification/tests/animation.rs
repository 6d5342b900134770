use sliding_quad::animation::{advance, OFFSET_MAX, OFFSET_MIN, OFFSET_STEP, STEPS_PER_SWEEP};
use sliding_quad::units::UNITS_PER_ONE;

fn as_real(units: i32) -> f64 {
    f64::from(units) / f64::from(UNITS_PER_ONE)
}

#[test]
fn constants_stand_for_the_documented_reals() {
    assert_eq!(as_real(OFFSET_MIN), -0.5);
    assert_eq!(as_real(OFFSET_MAX), 0.5);
    assert_eq!(as_real(OFFSET_STEP), 0.0002);
    assert_eq!(STEPS_PER_SWEEP, 5000);
}

#[test]
fn advance_adds_one_step() {
    assert_eq!(advance(OFFSET_MIN), -4998);
    assert_eq!(advance(0), 2);
    assert_eq!(advance(-2), 0);
    assert_eq!(advance(1234), 1236);
}

#[test]
fn advance_reaches_the_upper_bound_without_wrapping() {
    assert_eq!(advance(4998), OFFSET_MAX);
}

#[test]
fn advance_wraps_once_the_upper_bound_is_passed() {
    assert_eq!(advance(OFFSET_MAX), OFFSET_MIN);
    assert_eq!(advance(4999), OFFSET_MIN);
}

#[test]
fn advance_is_total_at_the_edges_of_the_integer_range() {
    assert_eq!(advance(i32::MAX), OFFSET_MIN);
    assert_eq!(advance(i32::MIN), i32::MIN + 2);
}

#[test]
fn a_sweep_ends_exactly_on_the_upper_bound_and_then_wraps() {
    let mut t = OFFSET_MIN;
    for _ in 0..STEPS_PER_SWEEP {
        t = advance(t);
    }
    assert_eq!(t, OFFSET_MAX);
    assert_eq!(as_real(t), 0.5);
    t = advance(t);
    assert_eq!(t, OFFSET_MIN);
    assert_eq!(as_real(t), -0.5);
}

#[test]
fn the_offset_never_leaves_the_range() {
    let mut t = OFFSET_MIN;
    for _ in 0..25_000 {
        t = advance(t);
        assert!(OFFSET_MIN <= t && t <= OFFSET_MAX);
    }
}

#[test]
fn the_offset_repeats_with_a_period_of_one_sweep_and_one_frame() {
    let mut t = OFFSET_MIN;
    for n in 1..=12_000i32 {
        t = advance(t);
        assert_eq!(t, OFFSET_MIN + OFFSET_STEP * (n % 5001));
    }
}
