use sliding_quad::fps::{frames_per_second, NANOS_PER_SECOND};

#[test]
fn a_second_has_a_billion_nanoseconds() {
    assert_eq!(NANOS_PER_SECOND, 1_000_000_000);
}

#[test]
fn rate_is_the_whole_quotient() {
    assert_eq!(frames_per_second(16_666_667), 59);
    assert_eq!(frames_per_second(16_666_666), 60);
    assert_eq!(frames_per_second(1_000_000), 1000);
    assert_eq!(frames_per_second(3), 333_333_333);
}

#[test]
fn rate_at_the_ends_of_the_range() {
    assert_eq!(frames_per_second(1), 1_000_000_000);
    assert_eq!(frames_per_second(999_999_999), 1);
    assert_eq!(frames_per_second(1_000_000_000), 1);
    assert_eq!(frames_per_second(1_000_000_001), 0);
    assert_eq!(frames_per_second(u32::MAX), 0);
}
