use numbench::bench::perform_u8_addition_benchmark;
use numbench::bench::run_all_rounds;
use numbench::bench::BenchKind;
use numbench::kernel::add_wrapping_u128;
use numbench::kernel::add_wrapping_u16;
use numbench::kernel::add_wrapping_u32;
use numbench::kernel::add_wrapping_u64;
use numbench::kernel::add_wrapping_u8;
use numbench::kernel::compute_u16_addition;
use numbench::kernel::compute_u8_addition;

#[test]
fn test_wrapping_add_u8_wraps() {
    assert_eq!(add_wrapping_u8(3, 4), 7);
    assert_eq!(add_wrapping_u8(200, 100), 44);
    assert_eq!(add_wrapping_u8(255, 1), 0);
}

#[test]
fn test_wrapping_add_u16_wraps() {
    assert_eq!(add_wrapping_u16(65000, 1000), 464);
    assert_eq!(add_wrapping_u16(1, 2), 3);
}

#[test]
fn test_wrapping_add_u32_wraps() {
    assert_eq!(add_wrapping_u32(u32::MAX, 5), 4);
    assert_eq!(add_wrapping_u32(7, 8), 15);
}

#[test]
fn test_wrapping_add_u64_wraps() {
    assert_eq!(add_wrapping_u64(u64::MAX, 1), 0);
    assert_eq!(add_wrapping_u64(10, 20), 30);
}

#[test]
fn test_wrapping_add_u128_wraps() {
    assert_eq!(add_wrapping_u128(u128::MAX, 2), 1);
    assert_eq!(add_wrapping_u128(100, 200), 300);
}

#[test]
fn test_compute_u8_counts_pairs() {
    let pad: Vec<u8> = vec![1, 2, 3, 4, 250, 10, 0, 0];
    let (count, _sums) = compute_u8_addition(&pad);
    assert_eq!(count, 4);
}

#[test]
fn test_compute_u16_counts_pairs() {
    let pad: Vec<u16> = vec![1, 2, 65535, 1];
    let (count, _sums) = compute_u16_addition(&pad);
    assert_eq!(count, 2);
}

#[test]
fn test_compute_empty_scratchpad() {
    let pad: Vec<u8> = Vec::new();
    let (count, _sums) = compute_u8_addition(&pad);
    assert_eq!(count, 0);
}

#[test]
fn test_end_to_end_u8_small_scratchpad() {
    // One round over a scratchpad of 4 pairs (8 elements): the kernel runs
    // once and performs exactly 4 wrapping additions.
    let trial = perform_u8_addition_benchmark(4);
    assert_eq!(trial.additions, 4);
    let times = run_all_rounds(BenchKind::AddU8, 4, 1);
    assert_eq!(times.len(), 1);
}

#[test]
fn test_pairing_length_one() {
    let trial = perform_u8_addition_benchmark(1);
    assert_eq!(trial.additions, 1);
}

#[test]
fn test_pairing_length_default() {
    let trial = perform_u8_addition_benchmark(65536);
    assert_eq!(trial.additions, 65536);
}

#[test]
fn test_round_count_is_kept() {
    let times = run_all_rounds(BenchKind::AddU64, 8, 5);
    assert_eq!(times.len(), 5);
    let times = run_all_rounds(BenchKind::AddF32ShortRange, 4, 3);
    assert_eq!(times.len(), 3);
    let times = run_all_rounds(BenchKind::AddU32, 4, 0);
    assert_eq!(times.len(), 0);
}

#[test]
fn test_every_kind_runs_one_round() {
    let kinds = [
        BenchKind::AddU8,
        BenchKind::AddU16,
        BenchKind::AddU32,
        BenchKind::AddU64,
        BenchKind::AddU128,
        BenchKind::AddF32ShortRange,
        BenchKind::AddF32LongRange,
        BenchKind::AddF64ShortRange,
        BenchKind::AddF64LongRange,
    ];
    for kind in kinds {
        let times = run_all_rounds(kind, 2, 1);
        assert_eq!(times.len(), 1);
    }
}
