use numbench::ieee::add_f32_bits;
use numbench::ieee::add_f64_bits;
use numbench::ieee::f32_is_inf_bits;
use numbench::ieee::f32_is_nan_bits;
use numbench::ieee::f64_is_inf_bits;
use numbench::ieee::f64_is_nan_bits;
use numbench::ieee::unit_interval_bits_f32;
use numbench::ieee::unit_interval_bits_f64;
use numbench::scratchpad::randomly_fill_scratchpad_any_f32;
use numbench::scratchpad::randomly_fill_scratchpad_any_f64;
use numbench::scratchpad::randomly_fill_scratchpad_f32;
use numbench::scratchpad::randomly_fill_scratchpad_f64;

#[test]
fn test_add_f32_matches_hardware() {
    let cases: [(f32, f32); 4] = [(1.5, 2.25), (0.1, 0.2), (-3.5, 7.25), (1.0e30, 1.0e30)];
    for (a, b) in cases {
        assert_eq!(add_f32_bits(a.to_bits(), b.to_bits()), (a + b).to_bits());
    }
}

#[test]
fn test_add_f64_matches_hardware() {
    let cases: [(f64, f64); 4] = [(1.5, 2.25), (0.1, 0.2), (-3.5, 7.25), (1.0e300, 1.0e300)];
    for (a, b) in cases {
        assert_eq!(add_f64_bits(a.to_bits(), b.to_bits()), (a + b).to_bits());
    }
}

#[test]
fn test_add_f32_nan_propagates() {
    let r = add_f32_bits(f32::NAN.to_bits(), 1.0f32.to_bits());
    assert!(f32_is_nan_bits(r));
    assert!(f32::from_bits(r).is_nan());
    let r = add_f32_bits(2.5f32.to_bits(), f32::NAN.to_bits());
    assert!(f32_is_nan_bits(r));
}

#[test]
fn test_add_f32_infinities() {
    let pos = f32::INFINITY.to_bits();
    let neg = f32::NEG_INFINITY.to_bits();
    assert_eq!(add_f32_bits(pos, 42.5f32.to_bits()), pos);
    assert_eq!(add_f32_bits(42.5f32.to_bits(), pos), pos);
    assert_eq!(add_f32_bits(neg, (-1.0e30f32).to_bits()), neg);
    assert_eq!(add_f32_bits(pos, pos), pos);
    assert!(f32_is_nan_bits(add_f32_bits(pos, neg)));
    assert!(f32_is_nan_bits(add_f32_bits(neg, pos)));
}

#[test]
fn test_add_f64_nan_propagates() {
    let r = add_f64_bits(f64::NAN.to_bits(), 1.0f64.to_bits());
    assert!(f64_is_nan_bits(r));
    assert!(f64::from_bits(r).is_nan());
}

#[test]
fn test_add_f64_infinities() {
    let pos = f64::INFINITY.to_bits();
    let neg = f64::NEG_INFINITY.to_bits();
    assert_eq!(add_f64_bits(pos, 42.5f64.to_bits()), pos);
    assert_eq!(add_f64_bits((-7.0f64).to_bits(), neg), neg);
    assert_eq!(add_f64_bits(neg, neg), neg);
    assert!(f64_is_nan_bits(add_f64_bits(pos, neg)));
}

#[test]
fn test_unit_interval_bits_f32_exact() {
    assert_eq!(unit_interval_bits_f32(0), 0.0f32.to_bits());
    assert_eq!(unit_interval_bits_f32(1 << 22), 0.5f32.to_bits());
    assert_eq!(unit_interval_bits_f32(1), (1.0f32 / 8388608.0f32).to_bits());
    assert_eq!(
        unit_interval_bits_f32(0x7F_FFFF),
        (8388607.0f32 / 8388608.0f32).to_bits()
    );
}

#[test]
fn test_unit_interval_bits_f64_exact() {
    assert_eq!(unit_interval_bits_f64(0), 0.0f64.to_bits());
    assert_eq!(unit_interval_bits_f64(1u64 << 51), 0.5f64.to_bits());
    assert_eq!(
        unit_interval_bits_f64(1),
        (1.0f64 / 4503599627370496.0f64).to_bits()
    );
}

#[test]
fn test_short_range_f32_fill_stays_in_unit_interval() {
    let mut pad: Vec<u32> = vec![0; 2000];
    randomly_fill_scratchpad_f32(&mut pad);
    assert_eq!(pad.len(), 2000);
    for bits in pad {
        let v = f32::from_bits(bits);
        assert!(0.0 <= v && v < 1.0);
    }
}

#[test]
fn test_short_range_f64_fill_stays_in_unit_interval() {
    let mut pad: Vec<u64> = vec![0; 2000];
    randomly_fill_scratchpad_f64(&mut pad);
    assert_eq!(pad.len(), 2000);
    for bits in pad {
        let v = f64::from_bits(bits);
        assert!(0.0 <= v && v < 1.0);
    }
}

#[test]
fn test_long_range_f32_bits_round_trip() {
    let mut pad: Vec<u32> = vec![0; 10_000];
    randomly_fill_scratchpad_any_f32(&mut pad);
    for bits in pad {
        assert_eq!(f32::from_bits(bits).to_bits(), bits);
    }
    assert_eq!(f32::from_bits(f32::NAN.to_bits()).to_bits(), f32::NAN.to_bits());
    assert_eq!(
        f32::from_bits(f32::INFINITY.to_bits()).to_bits(),
        f32::INFINITY.to_bits()
    );
}

#[test]
fn test_long_range_f64_bits_round_trip() {
    let mut pad: Vec<u64> = vec![0; 10_000];
    randomly_fill_scratchpad_any_f64(&mut pad);
    for bits in pad {
        assert_eq!(f64::from_bits(bits).to_bits(), bits);
    }
}

#[test]
fn test_long_range_f32_produces_nan() {
    // NaN patterns are about 0.39% of all 32-bit patterns; the chance of a
    // sample this large holding none is negligible.
    let mut pad: Vec<u32> = vec![0; 200_000];
    randomly_fill_scratchpad_any_f32(&mut pad);
    assert!(pad.iter().any(|&b| f32_is_nan_bits(b)));
}

#[test]
fn test_long_range_f64_produces_nan() {
    // NaN patterns are about 0.05% of all 64-bit patterns.
    let mut pad: Vec<u64> = vec![0; 400_000];
    randomly_fill_scratchpad_any_f64(&mut pad);
    assert!(pad.iter().any(|&b| f64_is_nan_bits(b)));
}

#[test]
fn test_infinity_bits_classified() {
    // An infinity is two patterns out of 2^32, so a sample cannot be asked
    // for one; the classification and the round trip are checked instead.
    assert!(f32_is_inf_bits(f32::INFINITY.to_bits()));
    assert!(f32_is_inf_bits(f32::NEG_INFINITY.to_bits()));
    assert!(!f32_is_inf_bits(1.0f32.to_bits()));
    assert!(!f32_is_nan_bits(f32::INFINITY.to_bits()));
    assert!(f64_is_inf_bits(f64::INFINITY.to_bits()));
    assert!(f64_is_inf_bits(f64::NEG_INFINITY.to_bits()));
    assert!(!f64_is_inf_bits((-0.0f64).to_bits()));
}
