use numbench::stats::average_nanos;
use numbench::stats::isqrt_u128;
use numbench::stats::std_deviation_nanos;
use numbench::stats::sum_durations;
use numbench::stats::sum_of_squares;
use numbench::stats::summarize;

#[test]
fn test_aggregation_synthetic_sequence() {
    // Mean of [10, 20, 30] is 20.0 exactly; the population standard
    // deviation is sqrt(200/3) = 8.164..., which truncates to 8 ns.
    let v: Vec<u64> = vec![10, 20, 30];
    assert_eq!(average_nanos(&v), Some(20));
    assert_eq!(std_deviation_nanos(&v), Some(8));
    let s = summarize(&v).unwrap();
    assert_eq!(s.average, 20);
    assert_eq!(s.deviation, 8);
}

#[test]
fn test_empty_sequence_has_no_statistics() {
    let v: Vec<u64> = Vec::new();
    assert!(average_nanos(&v).is_none());
    assert!(std_deviation_nanos(&v).is_none());
    assert!(summarize(&v).is_none());
}

#[test]
fn test_single_and_constant_sequences() {
    let v: Vec<u64> = vec![5];
    assert_eq!(average_nanos(&v), Some(5));
    assert_eq!(std_deviation_nanos(&v), Some(0));
    let v: Vec<u64> = vec![2, 2, 2];
    assert_eq!(average_nanos(&v), Some(2));
    assert_eq!(std_deviation_nanos(&v), Some(0));
}

#[test]
fn test_average_truncates() {
    let v: Vec<u64> = vec![1, 2];
    assert_eq!(average_nanos(&v), Some(1));
}

#[test]
fn test_sums() {
    let v: Vec<u64> = vec![1, 2, 3];
    assert_eq!(sum_durations(&v), 6);
    let v: Vec<u64> = vec![3, 4];
    assert_eq!(sum_of_squares(&v), Some(25));
}

#[test]
fn test_sum_of_squares_overflow_refused() {
    let v: Vec<u64> = vec![u64::MAX, u64::MAX];
    assert!(sum_of_squares(&v).is_none());
    assert!(std_deviation_nanos(&v).is_none());
    assert!(summarize(&v).is_none());
}

#[test]
fn test_isqrt_values() {
    assert_eq!(isqrt_u128(0), 0);
    assert_eq!(isqrt_u128(1), 1);
    assert_eq!(isqrt_u128(2), 1);
    assert_eq!(isqrt_u128(3), 1);
    assert_eq!(isqrt_u128(4), 2);
    assert_eq!(isqrt_u128(63), 7);
    assert_eq!(isqrt_u128(64), 8);
    assert_eq!(isqrt_u128(66), 8);
    assert_eq!(isqrt_u128(1u128 << 64), 1u64 << 32);
    assert_eq!(isqrt_u128(u128::MAX), u64::MAX);
}

#[test]
fn test_summary_of_larger_sequence() {
    // [2, 4, 4, 4, 5, 5, 7, 9]: mean 5, population variance 4, deviation 2.
    let v: Vec<u64> = vec![2, 4, 4, 4, 5, 5, 7, 9];
    let s = summarize(&v).unwrap();
    assert_eq!(s.average, 5);
    assert_eq!(s.deviation, 2);
}
