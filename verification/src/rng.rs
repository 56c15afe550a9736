//! A small, fast pseudo-random generator: xoshiro256+ seeded through
//! SplitMix64, with Lemire's multiply-shift reduction for ranges.
use vstd::prelude::*;
use vstd::arithmetic::mul::lemma_mul_upper_bound;
use vstd::arithmetic::div_mod::{
    lemma_div_by_multiple_is_strongly_ordered, lemma_div_multiples_vanish, lemma_div_pos_is_pos,
};

verus! {

/// 2^64, the modulus of all wrapping `u64` arithmetic below.
pub open spec fn two_pow_64() -> int {
    0x1_0000_0000_0000_0000
}

/// `a + b` modulo 2^64.
pub open spec fn add64(a: u64, b: u64) -> u64 {
    ((a + b) % two_pow_64()) as u64
}

/// `a * b` modulo 2^64.
pub open spec fn mul64(a: u64, b: u64) -> u64 {
    ((a * b) % two_pow_64()) as u64
}

/// Rotation of the 64 bits of `x` to the left by `n` places, `0 < n < 64`.
pub open spec fn rotl64(x: u64, n: u64) -> u64
    recommends
        0 < n < 64,
{
    (x << n) | (x >> ((64 - n) as u64))
}

/// The increment of the SplitMix64 counter.
pub open spec fn splitmix_gamma() -> u64 {
    0x9e3779b97f4a7c15
}

/// The SplitMix64 output function applied to a counter value.
pub open spec fn splitmix_mix(counter: u64) -> u64 {
    let z1 = mul64(counter ^ (counter >> 30u64), 0xbf58476d1ce4e5b9);
    let z2 = mul64(z1 ^ (z1 >> 27u64), 0x94d049bb133111eb);
    z2 ^ (z2 >> 31u64)
}

/// The SplitMix64 counter after `k` steps from `seed`.
pub open spec fn splitmix_counter(seed: u64, k: nat) -> u64
    decreases k,
{
    if k == 0 {
        seed
    } else {
        add64(splitmix_counter(seed, (k - 1) as nat), splitmix_gamma())
    }
}

/// The generator state that a seed gives: the first four SplitMix64 outputs.
pub open spec fn seeded_state(seed: u64) -> Seq<u64> {
    seq![
        splitmix_mix(splitmix_counter(seed, 1)),
        splitmix_mix(splitmix_counter(seed, 2)),
        splitmix_mix(splitmix_counter(seed, 3)),
        splitmix_mix(splitmix_counter(seed, 4)),
    ]
}

/// The value that xoshiro256+ returns from state `s`: the sum of its first
/// and last words.
pub open spec fn xoshiro_output(s: Seq<u64>) -> u64
    recommends
        s.len() == 4,
{
    add64(s[0], s[3])
}

/// The state that xoshiro256 moves to from state `s`.
pub open spec fn xoshiro_next(s: Seq<u64>) -> Seq<u64>
    recommends
        s.len() == 4,
{
    let s2 = s[2] ^ s[0];
    let s3 = s[3] ^ s[1];
    let s1 = s[1] ^ s2;
    let s0 = s[0] ^ s3;
    seq![s0, s1, s2 ^ (s[1] << 17u64), rotl64(s3, 45)]
}

/// The size of the range `[min, max]` as the generator computes it:
/// `max - min + 1` with wrapping `i64` arithmetic, read as a `u64`.
pub open spec fn range_width(min: i64, max: i64) -> u64 {
    ((max - min + 1) % two_pow_64()) as u64
}

/// Lemire's reduction: the high 64 bits of the 128-bit product `r * width`.
pub open spec fn lemire_offset(r: u64, width: u64) -> int {
    (r * width) / two_pow_64()
}

/// `min + offset` with wrapping `i64` arithmetic.
pub open spec fn wrap_i64(v: int) -> i64 {
    ((v + 0x8000_0000_0000_0000) % two_pow_64() - 0x8000_0000_0000_0000) as i64
}

/// What `gen_range(min, max)` returns when the generator draws `r`.
pub open spec fn range_value(min: i64, max: i64, r: u64) -> i64 {
    wrap_i64(min + lemire_offset(r, range_width(min, max)))
}

/// A xoshiro256+ generator.
pub struct FastRng {
    s: [u64; 4],
}

impl FastRng {
    /// The four words of the generator's state.
    pub closed spec fn state(&self) -> Seq<u64> {
        self.s@
    }

    /// The state always has four words.
    pub proof fn lemma_state_len(&self)
        ensures
            self.state().len() == 4,
    {
    }

    /// Builds the generator whose state the SplitMix64 sequence from `seed` gives.
    pub fn from_seed(seed: u64) -> (g: FastRng)
        ensures
            g.state() == seeded_state(seed),
            g.state().len() == 4,
            nonzero_state(g.state()),
    {
        let mut sm = seed;
        let a = splitmix_step(&mut sm);
        let b = splitmix_step(&mut sm);
        let c = splitmix_step(&mut sm);
        let d = splitmix_step(&mut sm);
        proof {
            reveal_with_fuel(splitmix_counter, 5);
        }
        let g = FastRng { s: [a, b, c, d] };
        assert(g.s@ =~= seeded_state(seed));
        proof {
            lemma_seeded_state_nonzero(seed);
        }
        g
    }

    /// Seeds a generator from the system clock. Returns `None` when the clock
    /// reads earlier than the Unix epoch.
    pub fn new() -> (g: Option<FastRng>)
        ensures
            g matches Some(rng) ==> exists|seed: u64| rng.state() == seeded_state(seed),
            g matches Some(rng) ==> nonzero_state(rng.state()) && rng.state().len() == 4,
    {
        match nanos_since_unix_epoch() {
            Some(seed) => Some(FastRng::from_seed(seed)),
            None => None,
        }
    }

    /// Draws the next 64 random bits and advances the state.
    pub fn next_u64(&mut self) -> (r: u64)
        ensures
            r == xoshiro_output(old(self).state()),
            final(self).state() == xoshiro_next(old(self).state()),
            old(self).state().len() == 4,
            final(self).state().len() == 4,
            nonzero_state(old(self).state()) ==> nonzero_state(final(self).state()),
    {
        let s0 = self.s[0];
        let s1 = self.s[1];
        let s2 = self.s[2];
        let s3 = self.s[3];
        let result = s0.wrapping_add(s3);
        let t = s1 << 17u64;

        let n2 = s2 ^ s0;
        let n3 = s3 ^ s1;
        let n1 = s1 ^ n2;
        let n0 = s0 ^ n3;
        let n2 = n2 ^ t;
        let n3 = (n3 << 45u64) | (n3 >> 19u64);
        self.s = [n0, n1, n2, n3];
        proof {
            assert(self.s@ =~= xoshiro_next(old(self).s@));
            if nonzero_state(old(self).s@) {
                lemma_next_keeps_nonzero(old(self).s@);
            }
        }
        result
    }

    /// Draws a number in `[min, max]` by Lemire's multiply-shift method.
    pub fn gen_range(&mut self, min: i64, max: i64) -> (v: i64)
        ensures
            v == range_value(min, max, xoshiro_output(old(self).state())),
            final(self).state() == xoshiro_next(old(self).state()),
            old(self).state().len() == 4,
            final(self).state().len() == 4,
            nonzero_state(old(self).state()) ==> nonzero_state(final(self).state()),
    {
        let width = range_width_exec(min, max);
        let r = self.next_u64();
        let offset = lemire_exec(r, width);
        wrap_add_i64(min, offset)
    }
}

/// Every number that `gen_range(min, max)` returns lies in `[min, max]`,
/// whatever the generator draws, when the range is not empty. (For the
/// full `i64` range the width wraps to zero and `min` comes back.)
pub proof fn lemma_range_value_within(min: i64, max: i64, r: u64)
    requires
        min <= max,
    ensures
        min <= range_value(min, max, r) <= max,
{
    if max - min == u64::MAX {
        let w = range_width(min, max);
        assert(w == 0);
        assert(r as int * w as int == 0);
        assert(lemire_offset(r, w) == 0);
    } else {
        let w = range_width(min, max);
        assert(w as int == max - min + 1);
        let p = r as int * w as int;
        assert(p < two_pow_64() * w) by (nonlinear_arith)
            requires
                p == r as int * w as int,
                r < two_pow_64(),
                w > 0,
        ;
        lemma_div_by_multiple_is_strongly_ordered(p, two_pow_64() * w, w as int, two_pow_64());
        lemma_div_multiples_vanish(w as int, two_pow_64());
        assert(p >= 0) by (nonlinear_arith)
            requires
                p == r as int * w as int,
                r >= 0,
                w >= 0,
        ;
        lemma_div_pos_is_pos(p, two_pow_64());
        let o = lemire_offset(r, w);
        assert(0 <= o < w);
    }
}

/// A xoshiro state is usable when not all four of its words are zero: from
/// the all-zero state the generator returns zeros forever.
pub open spec fn nonzero_state(s: Seq<u64>) -> bool {
    s[0] != 0 || s[1] != 0 || s[2] != 0 || s[3] != 0
}

proof fn lemma_xorshift_zero(x: u64)
    ensures
        (x ^ (x >> 27u64)) == 0 ==> x == 0,
        (x ^ (x >> 30u64)) == 0 ==> x == 0,
        (x ^ (x >> 31u64)) == 0 ==> x == 0,
{
    assert((x ^ (x >> 27u64)) == 0 ==> x == 0) by (bit_vector);
    assert((x ^ (x >> 30u64)) == 0 ==> x == 0) by (bit_vector);
    assert((x ^ (x >> 31u64)) == 0 ==> x == 0) by (bit_vector);
}

proof fn lemma_odd_multiple_zero(x: u64)
    ensures
        mul64(x, 0xbf58476d1ce4e5b9) == 0 ==> x == 0,
        mul64(x, 0x94d049bb133111eb) == 0 ==> x == 0,
{
    assert(((x * 0xbf58476d1ce4e5b9u64) % 0x1_0000_0000_0000_0000) as u64 == 0 ==> x == 0)
        by (bit_vector);
    assert(((x * 0x94d049bb133111ebu64) % 0x1_0000_0000_0000_0000) as u64 == 0 ==> x == 0)
        by (bit_vector);
}

/// The SplitMix64 output is zero only for the counter value zero.
proof fn lemma_splitmix_mix_zero(c: u64)
    ensures
        splitmix_mix(c) == 0 ==> c == 0,
{
    let z1 = mul64(c ^ (c >> 30u64), 0xbf58476d1ce4e5b9);
    let z2 = mul64(z1 ^ (z1 >> 27u64), 0x94d049bb133111eb);
    lemma_xorshift_zero(z2);
    lemma_odd_multiple_zero(z1 ^ (z1 >> 27u64));
    lemma_xorshift_zero(z1);
    lemma_odd_multiple_zero(c ^ (c >> 30u64));
    lemma_xorshift_zero(c);
}

/// Every seed gives a usable state: two consecutive SplitMix64 counters
/// differ, so at most one of them is zero, and only a zero counter mixes
/// to zero.
pub proof fn lemma_seeded_state_nonzero(seed: u64)
    ensures
        nonzero_state(seeded_state(seed)),
{
    let c1 = splitmix_counter(seed, 1);
    let c2 = splitmix_counter(seed, 2);
    reveal_with_fuel(splitmix_counter, 3);
    assert(c2 == add64(c1, splitmix_gamma()));
    assert(c1 != c2);
    lemma_splitmix_mix_zero(c1);
    lemma_splitmix_mix_zero(c2);
}

proof fn lemma_step_words_zero(s0: u64, s1: u64, s2: u64, s3: u64)
    requires
        (s0 ^ (s3 ^ s1)) == 0,
        (s1 ^ (s2 ^ s0)) == 0,
        ((s2 ^ s0) ^ (s1 << 17u64)) == 0,
        (((s3 ^ s1) << 45u64) | ((s3 ^ s1) >> 19u64)) == 0,
    ensures
        s0 == 0 && s1 == 0 && s2 == 0 && s3 == 0,
{
    assert(s0 == 0 && s1 == 0 && s2 == 0 && s3 == 0) by (bit_vector)
        requires
            (s0 ^ (s3 ^ s1)) == 0,
            (s1 ^ (s2 ^ s0)) == 0,
            ((s2 ^ s0) ^ (s1 << 17u64)) == 0,
            (((s3 ^ s1) << 45u64) | ((s3 ^ s1) >> 19u64)) == 0,
    ;
}

/// A usable state stays usable: the xoshiro256 step maps only the all-zero
/// state to the all-zero state, so no number of draws makes a seeded
/// generator return zeros forever.
pub proof fn lemma_next_keeps_nonzero(s: Seq<u64>)
    requires
        s.len() == 4,
        nonzero_state(s),
    ensures
        nonzero_state(xoshiro_next(s)),
{
    let n = xoshiro_next(s);
    if !nonzero_state(n) {
        lemma_step_words_zero(s[0], s[1], s[2], s[3]);
    }
}

/// One SplitMix64 step: advances the counter and returns the mixed output.
fn splitmix_step(sm: &mut u64) -> (z: u64)
    ensures
        *final(sm) == add64(*old(sm), splitmix_gamma()),
        z == splitmix_mix(*final(sm)),
{
    *sm = sm.wrapping_add(0x9e3779b97f4a7c15);
    let mut z = *sm;
    z = (z ^ (z >> 30u64)).wrapping_mul(0xbf58476d1ce4e5b9);
    z = (z ^ (z >> 27u64)).wrapping_mul(0x94d049bb133111eb);
    z ^ (z >> 31u64)
}

/// The width `max - min + 1` computed with wrapping `i64` arithmetic, as a `u64`.
fn range_width_exec(min: i64, max: i64) -> (w: u64)
    ensures
        w == range_width(min, max),
{
    let d = max.wrapping_sub(min).wrapping_add(1);
    let w = d as u64;
    assert(w == range_width(min, max)) by {
        lemma_i64_as_u64(d);
    }
    w
}

proof fn lemma_i64_as_u64(d: i64)
    ensures
        (d as u64) as int == d as int % two_pow_64(),
{
    if d >= 0 {
        assert((d as u64) as int == d as int) by (bit_vector)
            requires
                d >= 0,
        ;
    } else {
        assert((d as u64) as int == d as int + 0x1_0000_0000_0000_0000) by (bit_vector)
            requires
                d < 0,
        ;
    }
}

/// The high word of `r * width`.
fn lemire_exec(r: u64, width: u64) -> (o: u64)
    ensures
        o as int == lemire_offset(r, width),
{
    proof {
        lemma_mul_upper_bound(r as int, u64::MAX as int, width as int, u64::MAX as int);
        assert(0xffff_ffff_ffff_ffffint * 0xffff_ffff_ffff_ffffint <= u128::MAX) by (nonlinear_arith);
    }
    let p: u128 = (r as u128) * (width as u128);
    let q = p >> 64u32;
    proof {
        assert(q == p / 0x1_0000_0000_0000_0000u128 && q <= 0xffff_ffff_ffff_ffffu128) by (bit_vector)
            requires
                q == p >> 64u32,
        ;
    }
    q as u64
}

/// `min + offset` with wrapping `i64` arithmetic, the offset read as an `i64`.
fn wrap_add_i64(min: i64, offset: u64) -> (v: i64)
    ensures
        v == wrap_i64(min + offset),
{
    let x = offset as i64;
    proof {
        if offset <= 0x7fff_ffff_ffff_ffff {
            assert(x as int == offset as int) by (bit_vector)
                requires
                    offset <= 0x7fff_ffff_ffff_ffffu64,
                    x == offset as i64,
            ;
        } else {
            assert(x as int == offset as int - 0x1_0000_0000_0000_0000) by (bit_vector)
                requires
                    offset > 0x7fff_ffff_ffff_ffffu64,
                    x == offset as i64,
            ;
        }
    }
    min.wrapping_add(x)
}

/// Calls `UNIX_EPOCH.elapsed()`, which reads the system clock: the
/// nanoseconds since the Unix epoch, cut to 64 bits, or `None` where the
/// clock reads earlier than the epoch (the call's error). Nothing is claimed
/// of the value: it is the time.
#[verifier::external_body]
fn nanos_since_unix_epoch() -> Option<u64> {
    match std::time::UNIX_EPOCH.elapsed() {
        Ok(d) => Some(d.as_nanos() as u64),
        Err(_) => None,
    }
}

} // verus!
