use vstd::prelude::*;

use crate::rng::{lemma_state_after_add, mantissa_of, scramble, state_after, Rng};

verus! {

/// Screen area, in pixels, that accounts for one star of the base count.
pub const AREA_PER_STAR: u64 = 4000u64;

/// Fewest stars the base count allows.
pub const MIN_BASE_STARS: u64 = 120u64;

/// Most stars the base count allows.
pub const MAX_BASE_STARS: u64 = 1500u64;

/// Number of dimming waveforms a twinkling star can use (sine, triangle, flicker, eased).
pub const CURVE_COUNT: u32 = 4u32;

/// Exclusive bound of a drawn mantissa: `2^24`.
pub const MANTISSA_LIMIT: u32 = 0x100_0000u32;

/// The base star count for a surface: one star per `AREA_PER_STAR` pixels,
/// clamped to `[MIN_BASE_STARS, MAX_BASE_STARS]`.
pub open spec fn spec_base_star_count(width: u32, height: u32) -> int {
    let q = (width as int * height as int) / (AREA_PER_STAR as int);
    if q < MIN_BASE_STARS {
        MIN_BASE_STARS as int
    } else if q > MAX_BASE_STARS {
        MAX_BASE_STARS as int
    } else {
        q
    }
}

/// The random draws that define one star, each a mantissa in `[0, 2^24)` (the
/// numerator of a uniform float with denominator `2^24`), except `curve`,
/// which is the waveform index in `[0, 4)`.
/// A star that does not twinkle has zero speed, phase, depth and curve.
#[derive(Clone, Copy, Debug, PartialEq, Eq, Structural)]
pub struct StarDraw {
    pub center_x: u32,
    pub center_y: u32,
    pub size: u32,
    pub brightness: u32,
    pub twinkles: bool,
    pub speed: u32,
    pub amp: u32,
    pub curve: u32,
    pub phase: u32,
}

/// The `k`-th mantissa drawn from a generator in state `x` (the first is `k == 1`).
pub open spec fn draw_at(x: u64, k: nat) -> u32 {
    mantissa_of(scramble(state_after(x, k)))
}

/// The waveform index that a mantissa selects: `floor(m / 2^24 * 4)`, that is `m >> 22`.
pub open spec fn curve_of(m: u32) -> u32 {
    m >> 22u32
}

/// The star drawn from a generator in state `x`: centre x, centre y, size and
/// brightness, then the twinkle test (`draw < threshold`); a twinkling star then
/// draws speed, depth, waveform and phase, in that order.
pub open spec fn spec_star(x: u64, twinkle_threshold: u32) -> StarDraw {
    let tw = draw_at(x, 5) < twinkle_threshold;
    StarDraw {
        center_x: draw_at(x, 1),
        center_y: draw_at(x, 2),
        size: draw_at(x, 3),
        brightness: draw_at(x, 4),
        twinkles: tw,
        speed: if tw { draw_at(x, 6) } else { 0 },
        amp: if tw { draw_at(x, 7) } else { 0 },
        curve: if tw { curve_of(draw_at(x, 8)) } else { 0 },
        phase: if tw { draw_at(x, 9) } else { 0 },
    }
}

/// How many values one star takes from the generator.
pub open spec fn draws_per_star(twinkles: bool) -> nat {
    if twinkles { 9 } else { 5 }
}

/// The first `n` stars drawn from state `x`, and the generator state after them.
pub open spec fn spec_stars(x: u64, twinkle_threshold: u32, n: nat) -> (Seq<StarDraw>, u64)
    decreases n,
{
    if n == 0 {
        (Seq::empty(), x)
    } else {
        let (prev, y) = spec_stars(x, twinkle_threshold, (n - 1) as nat);
        let s = spec_star(y, twinkle_threshold);
        (prev.push(s), state_after(y, draws_per_star(s.twinkles)))
    }
}

/// How many values a sequence of stars took from the generator, in total.
pub open spec fn draws_used(stars: Seq<StarDraw>) -> nat
    decreases stars.len(),
{
    if stars.len() == 0 {
        0
    } else {
        draws_used(stars.drop_last()) + draws_per_star(stars.last().twinkles)
    }
}

/// The bounds every drawn star keeps.
pub open spec fn star_well_formed(s: StarDraw) -> bool {
    &&& s.center_x < MANTISSA_LIMIT
    &&& s.center_y < MANTISSA_LIMIT
    &&& s.size < MANTISSA_LIMIT
    &&& s.brightness < MANTISSA_LIMIT
    &&& s.speed < MANTISSA_LIMIT
    &&& s.amp < MANTISSA_LIMIT
    &&& s.phase < MANTISSA_LIMIT
    &&& s.curve < CURVE_COUNT
    &&& !s.twinkles ==> (s.speed == 0 && s.amp == 0 && s.curve == 0 && s.phase == 0)
}

/// Base star count for a `width` x `height` surface: `area / 4000`, clamped to `[120, 1500]`.
pub fn base_star_count(width: u32, height: u32) -> (r: u32)
    ensures
        r == spec_base_star_count(width, height),
        r == (if (width as int * height as int) / 4000 < 120 {
            120
        } else if (width as int * height as int) / 4000 > 1500 {
            1500
        } else {
            (width as int * height as int) / 4000
        }),
        MIN_BASE_STARS <= r <= MAX_BASE_STARS,
{
    assert((width as int) * (height as int) <= 0xFFFF_FFFF_FFFF_FFFFint) by (nonlinear_arith)
        requires
            width <= 0xFFFF_FFFFu32,
            height <= 0xFFFF_FFFFu32,
    ;
    let area: u64 = (width as u64) * (height as u64);
    let q: u64 = area / AREA_PER_STAR;
    if q < MIN_BASE_STARS {
        MIN_BASE_STARS as u32
    } else if q > MAX_BASE_STARS {
        MAX_BASE_STARS as u32
    } else {
        q as u32
    }
}

/// Draws one star from `rng`; `twinkle_threshold` is the twinkling fraction scaled
/// by `2^24`: the star twinkles when its fifth draw is below it.
pub fn draw_star(rng: &mut Rng, twinkle_threshold: u32) -> (s: StarDraw)
    ensures
        s == spec_star(old(rng)@, twinkle_threshold),
        final(rng)@ == state_after(old(rng)@, if s.twinkles { 9nat } else { 5nat }),
        s.center_x == draw_at(old(rng)@, 1),
        s.center_y == draw_at(old(rng)@, 2),
        s.size == draw_at(old(rng)@, 3),
        s.brightness == draw_at(old(rng)@, 4),
        s.twinkles == (draw_at(old(rng)@, 5) < twinkle_threshold),
        s.twinkles ==> s.speed == draw_at(old(rng)@, 6) && s.amp == draw_at(old(rng)@, 7)
            && s.curve == draw_at(old(rng)@, 8) / 0x40_0000 && s.phase == draw_at(old(rng)@, 9),
        !s.twinkles ==> s.speed == 0 && s.amp == 0 && s.curve == 0 && s.phase == 0,
        s.curve < CURVE_COUNT,
{
    proof {
        reveal_with_fuel(state_after, 10);
    }
    let center_x = rng.next_mantissa();
    let center_y = rng.next_mantissa();
    let size = rng.next_mantissa();
    let brightness = rng.next_mantissa();
    let test = rng.next_mantissa();
    let twinkles = test < twinkle_threshold;
    if twinkles {
        let speed = rng.next_mantissa();
        let amp = rng.next_mantissa();
        let c = rng.next_mantissa();
        let curve = c >> 22;
        proof {
            lemma_curve_is_quarter(c);
        }
        let phase = rng.next_mantissa();
        StarDraw { center_x, center_y, size, brightness, twinkles, speed, amp, curve, phase }
    } else {
        StarDraw {
            center_x,
            center_y,
            size,
            brightness,
            twinkles,
            speed: 0,
            amp: 0,
            curve: 0,
            phase: 0,
        }
    }
}

/// Draws `count` stars from `rng`, one after the other.
pub fn generate_star_draws(rng: &mut Rng, count: usize, twinkle_threshold: u32) -> (r: Vec<StarDraw>)
    ensures
        (r@, final(rng)@) == spec_stars(old(rng)@, twinkle_threshold, count as nat),
        r.len() == count,
        forall|i: int|
            0 <= i < count ==> r[i] == spec_star(
                state_after(old(rng)@, draws_used(r@.take(i))),
                twinkle_threshold,
            ),
        final(rng)@ == state_after(old(rng)@, draws_used(r@)),
{
    let ghost x = rng@;
    let mut stars: Vec<StarDraw> = Vec::with_capacity(count);
    let mut i: usize = 0;
    while i < count
        invariant
            i <= count,
            (stars@, rng@) == spec_stars(x, twinkle_threshold, i as nat),
        decreases count - i,
    {
        let s = draw_star(rng, twinkle_threshold);
        stars.push(s);
        i = i + 1;
    }
    proof {
        lemma_stars_explicit(x, twinkle_threshold, count as nat);
    }
    stars
}

/// A drawn mantissa is below `2^24`, and a waveform index is below 4.
pub proof fn lemma_draw_bounds(x: u64, k: nat)
    ensures
        draw_at(x, k) < MANTISSA_LIMIT,
        curve_of(draw_at(x, k)) < CURVE_COUNT,
{
    let w = scramble(state_after(x, k));
    assert(((w >> 40u64) as u32) < 0x100_0000u32) by (bit_vector);
    let m = draw_at(x, k);
    assert(m < 0x100_0000u32 ==> m >> 22u32 < 4u32) by (bit_vector);
}

/// Every drawn star is well formed: its draws lie in `[0, 2^24)`, its waveform
/// index in `[0, 4)`, and a star that does not twinkle carries no twinkle values.
pub proof fn lemma_star_well_formed(x: u64, twinkle_threshold: u32)
    ensures
        star_well_formed(spec_star(x, twinkle_threshold)),
{
    lemma_draw_bounds(x, 1);
    lemma_draw_bounds(x, 2);
    lemma_draw_bounds(x, 3);
    lemma_draw_bounds(x, 4);
    lemma_draw_bounds(x, 6);
    lemma_draw_bounds(x, 7);
    lemma_draw_bounds(x, 8);
    lemma_draw_bounds(x, 9);
}

/// A generated field has as many stars as asked for.
pub proof fn lemma_stars_len(x: u64, twinkle_threshold: u32, n: nat)
    ensures
        spec_stars(x, twinkle_threshold, n).0.len() == n,
    decreases n,
{
    if n > 0 {
        lemma_stars_len(x, twinkle_threshold, (n - 1) as nat);
    }
}

/// Every star of a generated field is well formed.
pub proof fn lemma_stars_well_formed(x: u64, twinkle_threshold: u32, n: nat)
    ensures
        forall|i: int|
            0 <= i < n ==> star_well_formed(#[trigger] spec_stars(x, twinkle_threshold, n).0[i]),
    decreases n,
{
    lemma_stars_len(x, twinkle_threshold, n);
    if n > 0 {
        let m = (n - 1) as nat;
        lemma_stars_well_formed(x, twinkle_threshold, m);
        lemma_stars_len(x, twinkle_threshold, m);
        let prev = spec_stars(x, twinkle_threshold, m).0;
        let y = spec_stars(x, twinkle_threshold, m).1;
        lemma_star_well_formed(y, twinkle_threshold);
        let all = spec_stars(x, twinkle_threshold, n).0;
        assert forall|i: int| 0 <= i < n implies star_well_formed(#[trigger] all[i]) by {
            if i < m {
                assert(all[i] == prev[i]);
            }
        }
    }
}

/// A twinkling fraction of zero (threshold 0) gives a field where no star twinkles;
/// a fraction of one (threshold `2^24` or more) gives one where every star twinkles.
pub proof fn lemma_twinkle_extremes(x: u64, twinkle_threshold: u32, n: nat)
    ensures
        twinkle_threshold == 0 ==> forall|i: int|
            0 <= i < n ==> !(#[trigger] spec_stars(x, twinkle_threshold, n).0[i]).twinkles,
        twinkle_threshold >= MANTISSA_LIMIT ==> forall|i: int|
            0 <= i < n ==> (#[trigger] spec_stars(x, twinkle_threshold, n).0[i]).twinkles,
    decreases n,
{
    lemma_stars_len(x, twinkle_threshold, n);
    if n > 0 {
        let m = (n - 1) as nat;
        lemma_twinkle_extremes(x, twinkle_threshold, m);
        lemma_stars_len(x, twinkle_threshold, m);
        let prev = spec_stars(x, twinkle_threshold, m).0;
        let y = spec_stars(x, twinkle_threshold, m).1;
        lemma_draw_bounds(y, 5);
        let all = spec_stars(x, twinkle_threshold, n).0;
        assert forall|i: int| 0 <= i < n implies (twinkle_threshold == 0 ==> !(#[trigger] all[i]).twinkles)
            && (twinkle_threshold >= MANTISSA_LIMIT ==> all[i].twinkles) by {
            if i < m {
                assert(all[i] == prev[i]);
            }
        }
    }
}

/// The waveform index is the quarter of the range a draw falls in:
/// `floor(m * 4 / 2^24)`, so a draw in the top quarter gives waveform 3 and each of
/// the four waveforms is reachable.
pub proof fn lemma_curve_is_quarter(m: u32)
    requires
        m < MANTISSA_LIMIT,
    ensures
        curve_of(m) == m / 0x40_0000,
        curve_of(m) < CURVE_COUNT,
        m >= 3 * 0x40_0000 ==> curve_of(m) == 3,
        m < 0x40_0000 ==> curve_of(m) == 0,
{
    assert(m < 0x100_0000u32 ==> m >> 22u32 == m / 0x40_0000u32) by (bit_vector);
}

/// Each waveform `k < 4` is selected by the draw `k * 2^22`.
pub proof fn lemma_every_curve_reachable(k: u32)
    requires
        k < CURVE_COUNT,
    ensures
        curve_of((k * 0x40_0000) as u32) == k,
{
    lemma_curve_is_quarter((k * 0x40_0000) as u32);
}

/// The base count depends only on the area: swapping width and height changes nothing.
pub proof fn lemma_base_count_symmetric(width: u32, height: u32)
    ensures
        spec_base_star_count(width, height) == spec_base_star_count(height, width),
{
    assert(width as int * height as int == height as int * width as int) by (nonlinear_arith);
}

/// Drawing one more star extends the field by exactly the star drawn from the
/// generator state left after the first `n` stars, and advances that state by the
/// star's draws.
pub proof fn lemma_stars_extend(x: u64, twinkle_threshold: u32, n: nat)
    ensures
        ({
            let y = spec_stars(x, twinkle_threshold, n).1;
            let s = spec_star(y, twinkle_threshold);
            spec_stars(x, twinkle_threshold, n + 1) == (
                spec_stars(x, twinkle_threshold, n).0.push(s),
                state_after(y, draws_per_star(s.twinkles)),
            )
        }),
{
}

/// Star `i` of a field is the star drawn from the generator after all the draws
/// of the stars before it, and the generator ends after all the field's draws: no
/// star reuses draws of another.
pub proof fn lemma_stars_explicit(x: u64, twinkle_threshold: u32, n: nat)
    ensures
        spec_stars(x, twinkle_threshold, n).0.len() == n,
        spec_stars(x, twinkle_threshold, n).1 == state_after(
            x,
            draws_used(spec_stars(x, twinkle_threshold, n).0),
        ),
        forall|i: int|
            0 <= i < n ==> #[trigger] spec_stars(x, twinkle_threshold, n).0[i] == spec_star(
                state_after(x, draws_used(spec_stars(x, twinkle_threshold, n).0.take(i))),
                twinkle_threshold,
            ),
    decreases n,
{
    if n > 0 {
        let m = (n - 1) as nat;
        lemma_stars_explicit(x, twinkle_threshold, m);
        let prev = spec_stars(x, twinkle_threshold, m).0;
        let y = spec_stars(x, twinkle_threshold, m).1;
        let s = spec_star(y, twinkle_threshold);
        let all = spec_stars(x, twinkle_threshold, n).0;
        assert(all == prev.push(s));
        assert(all.drop_last() =~= prev);
        lemma_state_after_add(x, draws_used(prev), draws_per_star(s.twinkles));
        assert forall|i: int| 0 <= i < n implies #[trigger] all[i] == spec_star(
            state_after(x, draws_used(all.take(i))),
            twinkle_threshold,
        ) by {
            if i < m {
                assert(all.take(i) =~= prev.take(i));
            } else {
                assert(all.take(i) =~= prev);
            }
        }
    }
}

} // verus!
