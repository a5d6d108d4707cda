use asteroids::units::{
    distance, int_sqrt, magnitude, round_up, scaled, vector_length, MAX_EXTENT, UNIT,
};

#[test]
fn square_roots_are_rounded_down() {
    assert_eq!(int_sqrt(0), 0);
    assert_eq!(int_sqrt(1), 1);
    assert_eq!(int_sqrt(3), 1);
    assert_eq!(int_sqrt(4), 2);
    assert_eq!(int_sqrt(24), 4);
    assert_eq!(int_sqrt(25), 5);
    assert_eq!(int_sqrt(2_000_000), 1414);
    assert_eq!(int_sqrt(u128::MAX), u64::MAX);
    assert_eq!(int_sqrt(1u128 << 126), 1u64 << 63);
}

#[test]
fn magnitude_drops_the_sign() {
    assert_eq!(magnitude(0), 0);
    assert_eq!(magnitude(17), 17);
    assert_eq!(magnitude(-17), 17);
    assert_eq!(magnitude(i64::MIN), 1u64 << 63);
    assert_eq!(magnitude(i64::MAX), (1u64 << 63) - 1);
}

#[test]
fn distance_is_symmetric() {
    assert_eq!(distance(3, 10), 7);
    assert_eq!(distance(10, 3), 7);
    assert_eq!(distance(-5, 5), 10);
    assert_eq!(distance(i64::MIN, i64::MAX), u64::MAX);
}

#[test]
fn vector_length_of_known_triangles() {
    assert_eq!(vector_length(3, 4), 5);
    assert_eq!(vector_length(-3, 4), 5);
    assert_eq!(vector_length(0, 0), 0);
    assert_eq!(vector_length(1000, 1000), 1414);
    assert_eq!(vector_length(0, -7), 7);
}

#[test]
fn round_up_reaches_the_next_whole_unit() {
    assert_eq!(round_up(0), 0);
    assert_eq!(round_up(1), UNIT);
    assert_eq!(round_up(20_000), 20_000);
    assert_eq!(round_up(20_001), 21_000);
    assert_eq!(round_up(39_999), 40_000);
    assert_eq!(round_up(MAX_EXTENT), MAX_EXTENT);
}

#[test]
fn scaled_takes_a_share_and_rounds_toward_zero() {
    assert_eq!(scaled(3, 5000, 5), 3000);
    assert_eq!(scaled(-4, 5000, 5), -4000);
    assert_eq!(scaled(1000, 5000, 1414), 3536);
    assert_eq!(scaled(-1000, 5000, 1414), -3536);
    assert_eq!(scaled(1, 1, 3), 0);
    assert_eq!(scaled(-1, 1, 3), 0);
    assert_eq!(scaled(7, 0, 7), 0);
}

#[test]
fn scaled_by_length_zero_is_zero() {
    assert_eq!(scaled(0, 5000, 0), 0);
}
