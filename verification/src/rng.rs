//! The integer generators behind the Monte Carlo and CMA-ES samplers:
//! a 32-bit linear congruential generator (Numerical Recipes constants),
//! SplitMix64, and xoshiro256** seeded through SplitMix64.
//!
//! Uniform and Gaussian variates are floating-point transforms of these
//! integers and are computed by the caller.

use vstd::prelude::*;

verus! {

/// 2^32, the modulus of the linear congruential generator.
pub const LCG_MODULUS: u64 = 4294967296;
/// Multiplier of the linear congruential generator.
pub const LCG_MULTIPLIER: u64 = 1664525;
/// Increment of the linear congruential generator.
pub const LCG_INCREMENT: u64 = 1013904223;
/// The SplitMix64 increment (the 64-bit golden-ratio gamma).
pub const SPLITMIX_GAMMA: u64 = 0x9e3779b97f4a7c15;

/// 2^64.
pub open spec fn two_64() -> nat {
    0x1_0000_0000_0000_0000
}

/// One LCG step, as computed with 64-bit wrapping arithmetic.
pub open spec fn lcg_step(state: u64) -> u64 {
    (((((LCG_MULTIPLIER as nat * state as nat) % two_64()) + LCG_INCREMENT as nat) % two_64())
        % LCG_MODULUS as nat) as u64
}

/// Simple linear congruential generator for uniform variates.
#[derive(Debug, Clone, Copy, PartialEq, Eq, Structural)]
pub struct LCG {
    pub state: u64,
}

impl LCG {
    /// A generator whose state is the seed.
    pub fn new(seed: u64) -> (g: LCG)
        ensures
            g.state == seed,
    {
        LCG { state: seed }
    }

    /// Advance the state and return it; the uniform variate in `[0, 1)` is
    /// the returned value divided by 2^32.
    pub fn next_state(&mut self) -> (r: u64)
        ensures
            final(self).state == lcg_step(old(self).state),
            r == final(self).state,
            r < LCG_MODULUS,
    {
        self.state = LCG_MULTIPLIER.wrapping_mul(self.state).wrapping_add(LCG_INCREMENT) % LCG_MODULUS;
        self.state
    }
}

/// Law: the 64-bit wrapping step is the textbook recurrence
/// `(A·x + C) mod 2^32`, so the state always stays below 2^32.
pub proof fn lemma_lcg_step_is_mod_2_32(state: u64)
    ensures
        lcg_step(state) as int == (LCG_MULTIPLIER * state + LCG_INCREMENT) % (LCG_MODULUS as int),
        lcg_step(state) < LCG_MODULUS,
{
    let a = LCG_MULTIPLIER as int;
    let c = LCG_INCREMENT as int;
    let m = LCG_MODULUS as int;
    let x = a * state;
    assert(two_64() == m * m);
    vstd::arithmetic::div_mod::lemma_add_mod_noop(x, c, m * m);
    vstd::arithmetic::div_mod::lemma_mod_mod(x % (m * m) + c, m, m);
    vstd::arithmetic::div_mod::lemma_mod_mod(x + c, m, m);
    assert((x % (m * m) + c) % (m * m) == ((x % (m * m)) % (m * m) + c % (m * m)) % (m * m)) by {
        vstd::arithmetic::div_mod::lemma_add_mod_noop(x % (m * m), c, m * m);
        vstd::arithmetic::div_mod::lemma_mod_mod(x, m * m, 1);
    }
    vstd::arithmetic::div_mod::lemma_mod_mod(x, m * m, 1);
    assert(c % (m * m) == c);
    vstd::arithmetic::div_mod::lemma_mod_bound(x + c, m);
}

/// `a + b` with 64-bit wrap-around.
pub open spec fn wrap_add(a: u64, b: u64) -> u64 {
    if a + b > u64::MAX {
        (a + b - two_64()) as u64
    } else {
        (a + b) as u64
    }
}

/// `wrap_add` is addition modulo 2^64.
pub proof fn lemma_wrap_add_mod(a: u64, b: u64)
    ensures
        wrap_add(a, b) as int == (a + b) % (two_64() as int),
{
    let m = two_64() as int;
    if a + b > u64::MAX {
        vstd::arithmetic::div_mod::lemma_fundamental_div_mod_converse(a + b, m, 1, a + b - m);
    } else {
        vstd::arithmetic::div_mod::lemma_small_mod((a + b) as nat, two_64());
    }
}

/// The SplitMix64 output function applied to a state.
#[verifier::opaque]
pub open spec fn splitmix_mix(z: u64) -> u64 {
    let z1 = (((z ^ (z >> 30u64)) as nat * 0xbf58476d1ce4e5b9nat) % two_64()) as u64;
    let z2 = (((z1 ^ (z1 >> 27u64)) as nat * 0x94d049bb133111ebnat) % two_64()) as u64;
    z2 ^ (z2 >> 31u64)
}

/// The SplitMix64 state after `n` steps from `seed`.
pub open spec fn splitmix_state_after(seed: u64, n: nat) -> u64
    decreases n,
{
    if n == 0 {
        seed
    } else {
        wrap_add(splitmix_state_after(seed, (n - 1) as nat), SPLITMIX_GAMMA)
    }
}

/// SplitMix64 pseudo-random number generator (period 2^64).
#[derive(Debug, Clone, Copy, PartialEq, Eq, Structural)]
pub struct SplitMix64 {
    pub state: u64,
}

impl SplitMix64 {
    /// A generator whose state is the seed.
    pub fn new(seed: u64) -> (g: SplitMix64)
        ensures
            g.state == seed,
    {
        SplitMix64 { state: seed }
    }

    /// Advance the state by the gamma and return the mixed state.
    pub fn next_u64(&mut self) -> (r: u64)
        ensures
            final(self).state == wrap_add(old(self).state, SPLITMIX_GAMMA),
            r == splitmix_mix(final(self).state),
    {
        reveal(splitmix_mix);
        self.state = self.state.wrapping_add(SPLITMIX_GAMMA);
        let mut z = self.state;
        z = (z ^ (z >> 30u64)).wrapping_mul(0xbf58476d1ce4e5b9);
        z = (z ^ (z >> 27u64)).wrapping_mul(0x94d049bb133111eb);
        z ^ (z >> 31u64)
    }
}

/// Law: after `n` draws the SplitMix64 state is `seed + n·γ (mod 2^64)`,
/// so the `n`-th output depends only on the seed and `n`.
pub proof fn lemma_splitmix_state_closed_form(seed: u64, n: nat)
    ensures
        splitmix_state_after(seed, n) as int == (seed + n * SPLITMIX_GAMMA) % (two_64() as int),
    decreases n,
{
    let m = two_64() as int;
    let g = SPLITMIX_GAMMA as int;
    if n == 0 {
        vstd::arithmetic::div_mod::lemma_small_mod(seed as nat, two_64());
    } else {
        lemma_splitmix_state_closed_form(seed, (n - 1) as nat);
        let prev_state = splitmix_state_after(seed, (n - 1) as nat);
        lemma_wrap_add_mod(prev_state, SPLITMIX_GAMMA);
        let prev = seed + (n - 1) * g;
        // (prev % m + g) % m == (prev + g) % m
        vstd::arithmetic::div_mod::lemma_add_mod_noop(prev, g, m);
        vstd::arithmetic::div_mod::lemma_small_mod(g as nat, two_64());
        vstd::arithmetic::div_mod::lemma_mod_twice(prev, m);
        assert(prev + g == seed + n * g) by (nonlinear_arith)
            requires
                prev == seed + (n - 1) * g,
        ;
    }
}

/// Word `i` of the xoshiro256** state seeded with `seed`: the first
/// SplitMix64 output for the seed `seed + i`.
pub open spec fn seed_word(seed: u64, i: u64) -> u64 {
    splitmix_mix(wrap_add(wrap_add(seed, i), SPLITMIX_GAMMA))
}

/// Rotate left by `k` bits, `0 < k < 64`.
pub open spec fn rotl(x: u64, k: u64) -> u64 {
    (x << k) | (x >> (64 - k) as u64)
}

fn rotate_left(x: u64, k: u64) -> (r: u64)
    requires
        0 < k < 64,
    ensures
        r == rotl(x, k),
{
    (x << k) | (x >> (64 - k))
}

/// The output of a xoshiro256** step from state `s`.
pub open spec fn xoshiro_output(s: Seq<u64>) -> u64 {
    let a = ((s[1] as nat * 5) % two_64()) as u64;
    ((rotl(a, 7) as nat * 9) % two_64()) as u64
}

/// The xoshiro256** state after one step from `s`.
pub open spec fn xoshiro_next(s: Seq<u64>) -> Seq<u64> {
    let t = s[1] << 17u64;
    let s2 = s[2] ^ s[0];
    let s3 = s[3] ^ s[1];
    let s1 = s[1] ^ s2;
    let s0 = s[0] ^ s3;
    seq![s0, s1, s2 ^ t, rotl(s3, 45)]
}

/// xoshiro256** generator, as used by the CMA-ES sampler.
#[derive(Debug, Clone, Copy)]
pub struct Xoshiro256 {
    pub s: [u64; 4],
}

impl Xoshiro256 {
    /// Four state words derived from `seed` by SplitMix64: word `i` is the
    /// first SplitMix64 output for the seed `seed + i`.
    pub fn from_seed(seed: u64) -> (g: Xoshiro256)
        ensures
            g.s@ == seq![
                seed_word(seed, 0),
                seed_word(seed, 1),
                seed_word(seed, 2),
                seed_word(seed, 3),
            ],
    {
        let mut g0 = SplitMix64::new(seed);
        let mut g1 = SplitMix64::new(seed.wrapping_add(1));
        let mut g2 = SplitMix64::new(seed.wrapping_add(2));
        let mut g3 = SplitMix64::new(seed.wrapping_add(3));
        let w0 = g0.next_u64();
        let w1 = g1.next_u64();
        let w2 = g2.next_u64();
        let w3 = g3.next_u64();
        let g = Xoshiro256 { s: [w0, w1, w2, w3] };
        assert(g.s@ =~= seq![
            seed_word(seed, 0),
            seed_word(seed, 1),
            seed_word(seed, 2),
            seed_word(seed, 3),
        ]);
        g
    }

    /// One xoshiro256** step: returns the output and advances the state.
    pub fn next_u64(&mut self) -> (r: u64)
        ensures
            r == xoshiro_output(old(self).s@),
            final(self).s@ == xoshiro_next(old(self).s@),
    {
        let s0 = self.s[0];
        let s1 = self.s[1];
        let s2 = self.s[2];
        let s3 = self.s[3];
        let result = rotate_left(s1.wrapping_mul(5), 7).wrapping_mul(9);
        let t = s1 << 17u64;
        let n2 = s2 ^ s0;
        let n3 = s3 ^ s1;
        let n1 = s1 ^ n2;
        let n0 = s0 ^ n3;
        self.s = [n0, n1, n2 ^ t, rotate_left(n3, 45)];
        assert(self.s@ =~= xoshiro_next(old(self).s@));
        result
    }
}

/// Law: the all-zero state is a fixed point of xoshiro256** that outputs
/// zero forever, which is why the state is always seeded through SplitMix64.
pub proof fn lemma_xoshiro_zero_fixed()
    ensures
        xoshiro_next(seq![0u64, 0u64, 0u64, 0u64]) == seq![0u64, 0u64, 0u64, 0u64],
        xoshiro_output(seq![0u64, 0u64, 0u64, 0u64]) == 0,
{
    assert(0u64 << 17u64 == 0u64) by (bit_vector);
    assert(rotl(0u64, 45u64) == 0u64) by (bit_vector);
    assert(rotl(0u64, 7u64) == 0u64) by (bit_vector);
    assert(0u64 ^ 0u64 == 0u64) by (bit_vector);
    assert(xoshiro_next(seq![0u64, 0u64, 0u64, 0u64]) =~= seq![0u64, 0u64, 0u64, 0u64]);
}

} // verus!
