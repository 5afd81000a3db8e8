use pocket_dimension::fixed::div_trunc;
use pocket_dimension::fixed::isqrt_u64;

#[test]
fn isqrt_of_perfect_squares() {
    assert_eq!(isqrt_u64(0), 0);
    assert_eq!(isqrt_u64(1), 1);
    assert_eq!(isqrt_u64(4), 2);
    assert_eq!(isqrt_u64(100), 10);
    assert_eq!(isqrt_u64(100_000_000), 10_000);
}

#[test]
fn isqrt_rounds_down() {
    assert_eq!(isqrt_u64(2), 1);
    assert_eq!(isqrt_u64(99), 9);
    assert_eq!(isqrt_u64(10_001), 100);
    assert_eq!(isqrt_u64(u64::MAX), 4_294_967_295);
}

#[test]
fn div_trunc_rounds_toward_zero() {
    assert_eq!(div_trunc(7, 2), 3);
    assert_eq!(div_trunc(-7, 2), -3);
    assert_eq!(div_trunc(6, 3), 2);
    assert_eq!(div_trunc(-6, 3), -2);
    assert_eq!(div_trunc(0, 5), 0);
}
