use wgpu_learn_02::numeric::{div_trunc_i64, isqrt};

#[test]
fn isqrt_small_values() {
    assert_eq!(isqrt(0), 0);
    assert_eq!(isqrt(1), 1);
    assert_eq!(isqrt(2), 1);
    assert_eq!(isqrt(3), 1);
    assert_eq!(isqrt(4), 2);
    assert_eq!(isqrt(24), 4);
    assert_eq!(isqrt(25), 5);
    assert_eq!(isqrt(26), 5);
}

#[test]
fn isqrt_perfect_squares() {
    for r in [0u64, 1, 2, 3, 1000, 65536, 1_000_000, 4_294_967_295] {
        assert_eq!(isqrt(r * r), r);
    }
}

#[test]
fn isqrt_largest_input() {
    assert_eq!(isqrt(u64::MAX), 4_294_967_295);
}

#[test]
fn div_trunc_rounds_toward_zero() {
    assert_eq!(div_trunc_i64(7, 2), 3);
    assert_eq!(div_trunc_i64(-7, 2), -3);
    assert_eq!(div_trunc_i64(6, 3), 2);
    assert_eq!(div_trunc_i64(-6, 3), -2);
    assert_eq!(div_trunc_i64(0, 5), 0);
    assert_eq!(div_trunc_i64(i64::MAX, 1), i64::MAX);
}
