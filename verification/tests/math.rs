use mathx::Math;

#[test]
fn abs_of_positive_is_itself() {
    assert_eq!(Math::abs_i32(10), 10);
    assert_eq!(Math::abs_i32(1), 1);
    assert_eq!(Math::abs_i32(i32::MAX), i32::MAX);
}

#[test]
fn abs_of_negative_is_its_opposite() {
    assert_eq!(Math::abs_i32(-10), 10);
    assert_eq!(Math::abs_i32(-1), 1);
    assert_eq!(Math::abs_i32(-i32::MAX), i32::MAX);
    assert_eq!(Math::abs_i32(i32::MIN + 1), i32::MAX);
}

#[test]
fn abs_of_zero_is_zero() {
    assert_eq!(Math::abs_i32(0), 0);
    assert_eq!(Math::abs_i32(-0), 0);
}

#[test]
fn abs_agrees_with_the_host() {
    let samples = [0, 1, -1, 2, -2, 17, -17, 65535, -65536, 1 << 30, -(1 << 30), i32::MAX, -i32::MAX];
    for value in samples {
        assert_eq!(Math::abs_i32(value), value.abs());
        assert_eq!(Math::abs_i32(value), Math::abs_i32(-value));
        assert!(Math::abs_i32(value) >= 0);
        assert_eq!(Math::abs_i32(Math::abs_i32(value)), Math::abs_i32(value));
    }
}
