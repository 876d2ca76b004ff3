use dollarbill::rng::{SplitMix64, Xoshiro256, LCG};

#[test]
fn test_lcg_uniform_distribution() {
    let mut rng = LCG::new(42);
    let n_samples = 10000;
    let mut sum = 0.0;
    for _ in 0..n_samples {
        let u = rng.next_state() as f64 / 4294967296.0;
        assert!(u >= 0.0 && u < 1.0);
        sum += u;
    }
    let mean = sum / n_samples as f64;
    assert!((mean - 0.5).abs() < 0.02);
}

#[test]
fn test_splitmix64_uniform_distribution() {
    let mut rng = SplitMix64::new(42);
    let n_samples = 10000;
    let mut sum = 0.0;
    for _ in 0..n_samples {
        let u = (rng.next_u64() >> 11) as f64 * (1.0 / (1u64 << 53) as f64) + f64::EPSILON;
        assert!(u >= 0.0 && u < 1.0);
        sum += u;
    }
    let mean = sum / n_samples as f64;
    assert!((mean - 0.5).abs() < 0.02);
}

#[test]
fn lcg_first_steps_from_zero() {
    let mut rng = LCG::new(0);
    assert_eq!(rng.next_state(), 1013904223);
    assert_eq!(rng.next_state(), (1664525u64 * 1013904223 + 1013904223) % 4294967296);
    assert_eq!(rng.state, (1664525u64 * 1013904223 + 1013904223) % 4294967296);
}

#[test]
fn lcg_large_seed_wraps_below_2_32() {
    let mut rng = LCG::new(u64::MAX);
    let r = rng.next_state();
    assert!(r < 4294967296);
    let expected = ((1664525u128 * u64::MAX as u128 + 1013904223) % 4294967296) as u64;
    assert_eq!(r, expected);
}

#[test]
fn splitmix64_known_values() {
    // Reference outputs of SplitMix64 seeded with 0.
    let mut rng = SplitMix64::new(0);
    assert_eq!(rng.next_u64(), 0xe220a8397b1dcdaf);
    assert_eq!(rng.next_u64(), 0x6e789e6aa1b965f4);
    assert_eq!(rng.state, 0x9e3779b97f4a7c15u64.wrapping_mul(2));
}

#[test]
fn splitmix64_state_is_seed_plus_n_gamma() {
    let mut rng = SplitMix64::new(12345);
    for _ in 0..10 {
        rng.next_u64();
    }
    assert_eq!(rng.state, 12345u64.wrapping_add(0x9e3779b97f4a7c15u64.wrapping_mul(10)));
}

#[test]
fn xoshiro_seed_words_come_from_splitmix() {
    let g = Xoshiro256::from_seed(7);
    for i in 0..4u64 {
        let mut s = SplitMix64::new(7 + i);
        assert_eq!(g.s[i as usize], s.next_u64());
    }
}

#[test]
fn xoshiro_step_matches_reference() {
    let mut g = Xoshiro256 { s: [1, 2, 3, 4] };
    let r = g.next_u64();
    assert_eq!(r, 2u64.wrapping_mul(5).rotate_left(7).wrapping_mul(9));
    assert_eq!(g.s, [7, 0, 262146, 211106232532992]);
    let mut z = Xoshiro256 { s: [0, 0, 0, 0] };
    assert_eq!(z.next_u64(), 0);
    assert_eq!(z.s, [0, 0, 0, 0]);
}
