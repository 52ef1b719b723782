use vstd::prelude::*;

use vstd::arithmetic::div_mod::{lemma_mod_multiples_vanish, lemma_mul_mod_noop_left, lemma_small_mod};
use vstd::arithmetic::mul::{lemma_mul_is_associative, lemma_mul_is_distributive_add};

verus! {

/// Constant or-ed into every seed, so that the state is never all zero.
pub const SEED_MIX: u64 = 0x9E3779B97F4A7C15u64;

/// Multiplier applied to the state to produce each output (the "star" of xorshift64*).
pub const OUTPUT_MULTIPLIER: u64 = 0x2545F4914F6CDD1Du64;

/// Seed used when the wall clock reads earlier than the Unix epoch.
pub const FALLBACK_SEED: u64 = 0x1234_5678_9ABC_DEF0u64;

/// One xorshift64 state transition: shifts by 12 right, 25 left, 27 right.
pub open spec fn xorshift_step(x: u64) -> u64 {
    let a = x ^ (x >> 12u64);
    let b = a ^ (a << 25u64);
    b ^ (b >> 27u64)
}

/// The output word for a (new) state: the state times `OUTPUT_MULTIPLIER`, modulo 2^64.
pub open spec fn scramble(x: u64) -> u64 {
    ((x as nat * OUTPUT_MULTIPLIER as nat) % 0x1_0000_0000_0000_0000nat) as u64
}

/// The inverse of `OUTPUT_MULTIPLIER` modulo 2^64 (the multiplier is odd).
pub const OUTPUT_MULTIPLIER_INVERSE: u64 = 0x59071d96d81ecd35u64;

/// Undoes `scramble`: multiplies by `OUTPUT_MULTIPLIER_INVERSE` modulo 2^64.
pub open spec fn unscramble(w: u64) -> u64 {
    ((w as nat * OUTPUT_MULTIPLIER_INVERSE as nat) % 0x1_0000_0000_0000_0000nat) as u64
}

/// The top 24 bits of an output word.
pub open spec fn mantissa_of(w: u64) -> u32 {
    (w >> 40u64) as u32
}

/// The state reached from `x` after `n` transitions.
pub open spec fn state_after(x: u64, n: nat) -> u64
    decreases n,
{
    if n == 0 {
        x
    } else {
        xorshift_step(state_after(x, (n - 1) as nat))
    }
}

/// Small self-contained pseudo-random generator (xorshift64*).
/// Its state is never zero, a state that xorshift cannot leave.
pub struct Rng {
    state: u64,
}

impl View for Rng {
    type V = u64;

    closed spec fn view(&self) -> u64 {
        self.state
    }
}

impl Rng {
    #[verifier::type_invariant]
    spec fn state_nonzero(self) -> bool {
        self.state != 0
    }

    /// Seeds the generator; `SEED_MIX` is or-ed in to avoid the all-zero state.
    pub fn new(seed: u64) -> (r: Rng)
        ensures
            r@ == seed | SEED_MIX,
            r@ != 0,
    {
        let state = seed | SEED_MIX;
        assert(state != 0) by (bit_vector)
            requires
                state == seed | 0x9E3779B97F4A7C15u64,
        ;
        Rng { state }
    }

    /// Advances the state by one xorshift step and returns the scrambled new state.
    pub fn next_u64(&mut self) -> (r: u64)
        ensures
            final(self)@ == xorshift_step(old(self)@),
            r == scramble(final(self)@),
            final(self)@ != 0,
    {
        proof {
            use_type_invariant(&*self);
        }
        let mut x = self.state;
        x ^= x >> 12;
        x ^= x << 25;
        x ^= x >> 27;
        proof {
            lemma_step_preserves_nonzero(self.state);
        }
        self.state = x;
        x.wrapping_mul(OUTPUT_MULTIPLIER)
    }

    /// Draws one value and keeps its top 24 bits: a uniform integer in `[0, 2^24)`,
    /// the exact numerator of a float in `[0, 1)` with denominator `2^24`.
    pub fn next_mantissa(&mut self) -> (r: u32)
        ensures
            final(self)@ == xorshift_step(old(self)@),
            r == mantissa_of(scramble(final(self)@)),
            r < 0x100_0000,
    {
        let w = self.next_u64();
        assert(w >> 40u64 < 0x100_0000u64) by (bit_vector);
        (w >> 40) as u32
    }
}

/// The seed for a new starfield: the low 64 bits of the nanoseconds since the Unix
/// epoch, or `FALLBACK_SEED` when the clock reads earlier than the epoch (`None`).
pub fn seed_from_clock(nanos_since_epoch: Option<u128>) -> (seed: u64)
    ensures
        seed == match nanos_since_epoch {
            Some(n) => (n % 0x1_0000_0000_0000_0000u128) as u64,
            None => FALLBACK_SEED,
        },
{
    match nanos_since_epoch {
        Some(n) => {
            let low: u128 = n % 0x1_0000_0000_0000_0000u128;
            low as u64
        },
        None => FALLBACK_SEED,
    }
}

/// A xorshift step maps every nonzero state to a nonzero state.
pub proof fn lemma_step_preserves_nonzero(x: u64)
    requires
        x != 0,
    ensures
        xorshift_step(x) != 0,
{
    let a = x ^ (x >> 12u64);
    assert(a != 0) by (bit_vector)
        requires
            x != 0,
            a == x ^ (x >> 12u64),
    ;
    let b = a ^ (a << 25u64);
    assert(b != 0) by (bit_vector)
        requires
            a != 0,
            b == a ^ (a << 25u64),
    ;
    let c = b ^ (b >> 27u64);
    assert(c != 0) by (bit_vector)
        requires
            b != 0,
            c == b ^ (b >> 27u64),
    ;
}

/// The xorshift step is one-to-one: different states step to different states.
pub proof fn lemma_step_injective(x: u64, y: u64)
    requires
        x != y,
    ensures
        xorshift_step(x) != xorshift_step(y),
{
    let ax = x ^ (x >> 12u64);
    let ay = y ^ (y >> 12u64);
    assert(ax != ay) by (bit_vector)
        requires
            x != y,
            ax == x ^ (x >> 12u64),
            ay == y ^ (y >> 12u64),
    ;
    let bx = ax ^ (ax << 25u64);
    let by = ay ^ (ay << 25u64);
    assert(bx != by) by (bit_vector)
        requires
            ax != ay,
            bx == ax ^ (ax << 25u64),
            by == ay ^ (ay << 25u64),
    ;
    let cx = bx ^ (bx >> 27u64);
    let cy = by ^ (by >> 27u64);
    assert(cx != cy) by (bit_vector)
        requires
            bx != by,
            cx == bx ^ (bx >> 27u64),
            cy == by ^ (by >> 27u64),
    ;
}

/// Multiplying by the odd `OUTPUT_MULTIPLIER` modulo 2^64 is undone by `unscramble`.
pub proof fn lemma_unscramble_scramble(x: u64)
    ensures
        unscramble(scramble(x)) == x,
{
    let m: int = 0x1_0000_0000_0000_0000int;
    let k: int = 934034299265436267int;
    let xi: int = x as int;
    let mul: int = OUTPUT_MULTIPLIER as int;
    let inv: int = OUTPUT_MULTIPLIER_INVERSE as int;
    assert(mul * inv == 1 + k * m);
    lemma_mul_mod_noop_left(xi * mul, inv, m);
    lemma_mul_is_associative(xi, mul, inv);
    lemma_mul_is_distributive_add(xi, 1, k * m);
    lemma_mul_is_associative(xi, k, m);
    assert(xi * (k * m) == m * (xi * k)) by (nonlinear_arith);
    lemma_mod_multiples_vanish(xi * k, xi, m);
    lemma_small_mod(x as nat, m as nat);
    assert(scramble(x) as int == (xi * mul) % m);
    assert(unscramble(scramble(x)) as int == ((xi * mul) % m) * inv % m);
}

/// The output scramble is one-to-one: different states give different outputs.
pub proof fn lemma_scramble_injective(x: u64, y: u64)
    requires
        x != y,
    ensures
        scramble(x) != scramble(y),
{
    lemma_unscramble_scramble(x);
    lemma_unscramble_scramble(y);
}

/// Two generators in different states stay in different states after a draw, and
/// that draw gives them different outputs.
pub proof fn lemma_distinct_generators_stay_distinct(x: u64, y: u64)
    requires
        x != y,
    ensures
        xorshift_step(x) != xorshift_step(y),
        scramble(xorshift_step(x)) != scramble(xorshift_step(y)),
{
    lemma_step_injective(x, y);
    lemma_scramble_injective(xorshift_step(x), xorshift_step(y));
}

/// Stepping `a` times and then `b` times is stepping `a + b` times.
pub proof fn lemma_state_after_add(x: u64, a: nat, b: nat)
    ensures
        state_after(state_after(x, a), b) == state_after(x, a + b),
    decreases b,
{
    if b > 0 {
        lemma_state_after_add(x, a, (b - 1) as nat);
    }
}

/// Starting from a nonzero state, no number of steps reaches the zero state.
pub proof fn lemma_state_after_nonzero(x: u64, n: nat)
    requires
        x != 0,
    ensures
        state_after(x, n) != 0,
    decreases n,
{
    if n > 0 {
        lemma_state_after_nonzero(x, (n - 1) as nat);
        lemma_step_preserves_nonzero(state_after(x, (n - 1) as nat));
    }
}

/// Every seed gives a nonzero starting state.
pub proof fn lemma_seeded_state_nonzero(seed: u64)
    ensures
        seed | SEED_MIX != 0,
{
    assert(seed | 0x9E3779B97F4A7C15u64 != 0) by (bit_vector);
}

} // verus!
