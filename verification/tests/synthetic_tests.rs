use std::hash::{Hash, Hasher};
use ngx_radar::synthetic::{
    daily_volume, is_trading_day, noise_step, plan_for_seed, start_offset, synthetic_plan,
    trading_day_offsets,
};

#[test]
fn start_offsets() {
    assert_eq!(start_offset(0), 0);
    assert_eq!(start_offset(12345), 45);
    assert_eq!(start_offset(u64::MAX), 15);
}

#[test]
fn noise_wraps() {
    assert_eq!(noise_step(0, 0), 407);
    assert_eq!(noise_step(12345, 7), 391);
    assert_eq!(noise_step(u64::MAX, 1), 407);
    assert_eq!(noise_step(u64::MAX, 5), 811);
}

#[test]
fn volumes_wrap() {
    assert_eq!(daily_volume(0, 0), 100000);
    assert_eq!(daily_volume(12345, 7), 6789632);
    assert_eq!(daily_volume(u64::MAX, 1), 100000);
    assert_eq!(daily_volume(u64::MAX, 5), 8171564);
}

#[test]
fn weekends_are_not_trading_days() {
    for d in 0..5 {
        assert!(is_trading_day(d));
    }
    assert!(!is_trading_day(5));
    assert!(!is_trading_day(6));
}

#[test]
fn plan_for_a_seed() {
    let p = plan_for_seed(12345, 8);
    assert_eq!(p.seed, 12345);
    assert_eq!(p.start_offset, 45);
    assert_eq!(p.noise.len(), 8);
    assert_eq!(p.volume.len(), 8);
    assert_eq!(p.noise[7], 391);
    assert_eq!(p.volume[7], 6789632);
    assert_eq!(p.noise[0], noise_step(12345, 0));
    assert!(plan_for_seed(7, 0).noise.is_empty());
}

#[test]
fn plan_of_a_price_uses_the_hashed_bits() {
    let close: f64 = 45.5;
    let mut h = std::collections::hash_map::DefaultHasher::new();
    close.to_bits().hash(&mut h);
    let seed = h.finish();
    let p = synthetic_plan(close.to_bits(), 63);
    assert_eq!(p.seed, seed);
    assert_eq!(p.start_offset, start_offset(seed));
    for i in 0..63 {
        assert_eq!(p.noise[i], noise_step(seed, i as u64));
        assert_eq!(p.volume[i], daily_volume(seed, i as u64));
    }
    assert_eq!(synthetic_plan(close.to_bits(), 63).seed, seed);
}

#[test]
fn trading_days_skip_weekends() {
    // Starting on a Thursday: Thu, Fri, then Mon to Fri, then Mon.
    assert_eq!(trading_day_offsets(3, 12), vec![0, 1, 4, 5, 6, 7, 8, 11]);
    // Starting on a Saturday.
    assert_eq!(trading_day_offsets(5, 9), vec![2, 3, 4, 5, 6]);
    assert!(trading_day_offsets(0, 0).is_empty());
    assert_eq!(trading_day_offsets(0, 63).len(), 45);
}
