//! Colours, colour arithmetic, the clock helpers and the random source shared
//! by the effects.

use vstd::prelude::*;

use crate::params::Params;
use crate::pixel::RGB8;

verus! {

/// The colour with channels `r`, `g` and `b`.
pub open spec fn rgb_of(r: u8, g: u8, b: u8) -> RGB8 {
    RGB8 { r, g, b }
}

/// Black: `rgb(0, 0, 0)`.
pub fn black() -> (color: RGB8)
    ensures
        color == rgb_of(0, 0, 0),
{
    RGB8 { r: 0, g: 0, b: 0 }
}

/// White: `rgb(255, 255, 255)`.
pub fn white() -> (color: RGB8)
    ensures
        color == rgb_of(255, 255, 255),
{
    RGB8 { r: 255, g: 255, b: 255 }
}

/// Red: `rgb(255, 0, 0)`.
pub fn red() -> (color: RGB8)
    ensures
        color == rgb_of(255, 0, 0),
{
    RGB8 { r: 255, g: 0, b: 0 }
}

/// Green: `rgb(0, 255, 0)`.
pub fn green() -> (color: RGB8)
    ensures
        color == rgb_of(0, 255, 0),
{
    RGB8 { r: 0, g: 255, b: 0 }
}

/// Blue: `rgb(0, 0, 255)`.
pub fn blue() -> (color: RGB8)
    ensures
        color == rgb_of(0, 0, 255),
{
    RGB8 { r: 0, g: 0, b: 255 }
}

/// Purple: `rgb(128, 0, 128)`.
pub fn purple() -> (color: RGB8)
    ensures
        color == rgb_of(128, 0, 128),
{
    RGB8 { r: 128, g: 0, b: 128 }
}

/// Orange: `rgb(255, 165, 0)`.
pub fn orange() -> (color: RGB8)
    ensures
        color == rgb_of(255, 165, 0),
{
    RGB8 { r: 255, g: 165, b: 0 }
}

/// Convenience constructor — shorter than writing `RGB8 { r, g, b }` inline.
pub fn rgb(r: u8, g: u8, b: u8) -> (color: RGB8)
    ensures
        color == (RGB8 { r, g, b }),
{
    RGB8 { r, g, b }
}

/// `true` when every channel of `c` is zero.
pub open spec fn is_black(c: RGB8) -> bool {
    c.r == 0 && c.g == 0 && c.b == 0
}

pub fn color_is_black(c: RGB8) -> (black: bool)
    ensures
        black == is_black(c),
{
    c.r == 0 && c.g == 0 && c.b == 0
}

/// The colour at `pos` on the RGB hue wheel.
pub open spec fn wheel_color(pos: u8) -> RGB8 {
    let p = 255 - pos;
    if p < 85 {
        RGB8 { r: (255 - p * 3) as u8, g: 0, b: (p * 3) as u8 }
    } else if p < 170 {
        let q = p - 85;
        RGB8 { r: 0, g: (q * 3) as u8, b: (255 - q * 3) as u8 }
    } else {
        let q = p - 170;
        RGB8 { r: (q * 3) as u8, g: (255 - q * 3) as u8, b: 0 }
    }
}

/// Maps 0–255 to a position on the RGB hue wheel.
pub fn color_wheel(pos: u8) -> (color: RGB8)
    ensures
        color == wheel_color(pos),
{
    let pos = 255 - pos;
    if pos < 85 {
        RGB8 { r: 255 - pos * 3, g: 0, b: pos * 3 }
    } else if pos < 170 {
        let pos = pos - 85;
        RGB8 { r: 0, g: pos * 3, b: 255 - pos * 3 }
    } else {
        let pos = pos - 170;
        RGB8 { r: pos * 3, g: 255 - pos * 3, b: 0 }
    }
}

/// What `lib8tion::sin8` returns for `theta`.
pub uninterp spec fn sin8_of(theta: u8) -> u8;

/// Calls `lib8tion::sin8`, its integer sine of a full circle over `0..=255`;
/// the claim is only that the result is the one `sin8` gives for `pos`.
#[verifier::external_body]
pub fn sine8(pos: u8) -> (level: u8)
    ensures
        level == sin8_of(pos),
{
    lib8tion::sin8(pos)
}

/// The triangle wave of `lib8tion::triwave8`.
pub open spec fn triwave(i: u8) -> u8 {
    if i >= 128 {
        ((255 - i) * 2) as u8
    } else {
        (i * 2) as u8
    }
}

/// Calls `lib8tion::triwave8`, which folds `i` above 127 back down
/// (`255 - i`) and doubles it; the contract states exactly that.
#[verifier::external_body]
pub fn triwave8(i: u8) -> (level: u8)
    ensures
        level == triwave(i),
{
    lib8tion::triwave8(i)
}

/// What `lib8tion::beatsin8` returns for its arguments.
pub uninterp spec fn beatsin8_of(
    bpm: u16,
    lowest: u8,
    highest: u8,
    timebase: u32,
    phase_offset: u8,
    now_ms: u32,
) -> u8;

/// Calls `lib8tion::beatsin8`, a sine wave at `bpm` beats a minute sampled
/// at `now_ms`. The claims are that the result is the one `beatsin8` gives
/// for these arguments, and that it swings within `lowest..=highest` when
/// those are in order (it adds `lowest` to the sine scaled by
/// `highest - lowest`); the shape of the wave is left unstated.
#[verifier::external_body]
pub fn beatsin8(
    bpm: u16,
    lowest: u8,
    highest: u8,
    timebase: u32,
    phase_offset: u8,
    now_ms: u32,
) -> (level: u8)
    ensures
        level == beatsin8_of(bpm, lowest, highest, timebase, phase_offset, now_ms),
        lowest <= highest ==> lowest <= level <= highest,
{
    lib8tion::beatsin8(bpm, lowest, highest, timebase, phase_offset, now_ms)
}

/// `base` scaled by `intensity`, where the default intensity leaves it
/// unchanged, saturating at 255.
pub open spec fn scaled_value(base: u8, intensity: u8) -> u8 {
    let v = base * intensity / 128;
    if v > 255 {
        255
    } else {
        v as u8
    }
}

pub fn scaled(base: u8, intensity: u8) -> (value: u8)
    ensures
        value == scaled_value(base, intensity),
{
    assert((base as u16) * (intensity as u16) <= 65025) by (nonlinear_arith)
        requires
            base <= 255,
            intensity <= 255,
    ;
    let value: u16 = (base as u16) * (intensity as u16) / (Params::DEFAULT_INTENSITY as u16);
    if value > 255 {
        255
    } else {
        value as u8
    }
}

/// One channel of [`blend_color`].
pub open spec fn blend_channel(a: u8, b: u8, amount: u8) -> u8 {
    ((a * (255 - amount) + b * amount) / 255) as u8
}

/// `c1` blended toward `c2` by `amount / 255`.
pub open spec fn blend_color(c1: RGB8, c2: RGB8, amount: u8) -> RGB8 {
    RGB8 {
        r: blend_channel(c1.r, c2.r, amount),
        g: blend_channel(c1.g, c2.g, amount),
        b: blend_channel(c1.b, c2.b, amount),
    }
}

fn blend_u8(a: u8, b: u8, amount: u8) -> (c: u8)
    ensures
        c == blend_channel(a, b, amount),
{
    let bb = amount as u16;
    let ib = 255 - bb;
    assert((a as u16) * ib + (b as u16) * bb <= 65025) by (nonlinear_arith)
        requires
            a <= 255,
            b <= 255,
            ib + bb == 255,
    ;
    (((a as u16) * ib + (b as u16) * bb) / 255) as u8
}

/// Linearly interpolate between two colors.
/// `blend = 0` → pure `c1`, `blend = 255` → pure `c2`.
pub fn color_blend(c1: RGB8, c2: RGB8, blend: u8) -> (color: RGB8)
    ensures
        color == blend_color(c1, c2, blend),
{
    RGB8 { r: blend_u8(c1.r, c2.r, blend), g: blend_u8(c1.g, c2.g, blend), b: blend_u8(c1.b, c2.b, blend) }
}

/// One channel of [`dim_color`].
pub open spec fn dim_channel(c: u8, level: u8) -> u8 {
    (c * (level + 1) / 256) as u8
}

/// `color` at brightness `level`, where `255` leaves it unchanged.
pub open spec fn dim_color(color: RGB8, level: u8) -> RGB8 {
    RGB8 { r: dim_channel(color.r, level), g: dim_channel(color.g, level), b: dim_channel(color.b, level) }
}

fn dim_u8(c: u8, level: u8) -> (d: u8)
    ensures
        d == dim_channel(c, level),
{
    assert((c as u16) * ((level as u16) + 1) <= 65280) by (nonlinear_arith)
        requires
            c <= 255,
            level <= 255,
    ;
    ((c as u16) * ((level as u16) + 1) / 256) as u8
}

/// `color` at brightness `level`, where `255` leaves it unchanged.
pub fn dim(color: RGB8, level: u8) -> (dimmed: RGB8)
    ensures
        dimmed == dim_color(color, level),
{
    RGB8 { r: dim_u8(color.r, level), g: dim_u8(color.g, level), b: dim_u8(color.b, level) }
}

/// The clock phase of [`phase`].
pub open spec fn phase_at(now_ms: u32, rate: u8) -> u32 {
    now_ms.wrapping_mul((rate + 1) as u32) >> 10u32
}

/// A phase that advances with the clock at `rate`: its low byte runs once
/// around every two seconds at the default rate, every second at full rate,
/// and all but stops at zero. Take bytes from it rather than dividing it, so
/// the phase stays continuous when the clock wraps.
pub fn phase(now_ms: u32, rate: u8) -> (p: u32)
    ensures
        p == phase_at(now_ms, rate),
{
    now_ms.wrapping_mul((rate as u32) + 1) >> 10u32
}

/// The distance of [`travel`].
pub open spec fn travel_at(now_ms: u32, rate: u8) -> u64 {
    ((now_ms * (rate + 1)) / 16384) as u64
}

/// How many pixels a pattern moving at `rate` has travelled by `now_ms`: about
/// 8 a second at the default rate and 16 at full rate. Computed in 64 bits, so
/// it only restarts when the clock itself wraps.
pub fn travel(now_ms: u32, rate: u8) -> (moved: u64)
    ensures
        moved == travel_at(now_ms, rate),
{
    assert((now_ms as u64) * ((rate as u64) + 1) <= 0xFFFF_FFFF * 256) by (nonlinear_arith)
        requires
            now_ms <= 0xFFFF_FFFF,
            rate <= 255,
    ;
    (now_ms as u64) * ((rate as u64) + 1) / 16384
}

/// The position of [`pattern_position`].
pub open spec fn pattern_at(index: int, travel: u64, period: int) -> int {
    let p = if period < 1 {
        1
    } else {
        period
    };
    (index + p - (travel as int) % p) % p
}

/// Where pixel `index` falls within a repeating pattern of `period` pixels once
/// the pattern has moved `travel` pixels forward.
pub fn pattern_position(index: usize, travel: u64, period: usize) -> (at: usize)
    requires
        index + (if period < 1 { 1 } else { period }) <= u64::MAX,
    ensures
        at == pattern_at(index as int, travel, period as int),
        at < (if period < 1 { 1 } else { period }),
{
    let p: usize = if period < 1 {
        1
    } else {
        period
    };
    let p64 = p as u64;
    let at = ((index as u64) + p64 - travel % p64) % p64;
    at as usize
}

/// The hash of [`hash32`].
pub open spec fn hash32_of(x: u32) -> u32 {
    let z0 = x.wrapping_add(0x9E37_79B9u32);
    let z1 = (z0 ^ (z0 >> 16u32)).wrapping_mul(0x21F0_AAADu32);
    let z2 = (z1 ^ (z1 >> 15u32)).wrapping_mul(0x735A_2D97u32);
    z2 ^ (z2 >> 15u32)
}

/// A well-mixed hash of `x`: for a color or rhythm that must stay the same for
/// a given pixel or zone.
pub fn hash32(x: u32) -> (h: u32)
    ensures
        h == hash32_of(x),
{
    let mut z = x.wrapping_add(0x9E37_79B9u32);
    z = (z ^ (z >> 16u32)).wrapping_mul(0x21F0_AAADu32);
    z = (z ^ (z >> 15u32)).wrapping_mul(0x735A_2D97u32);
    z ^ (z >> 15u32)
}

/// `len` pixels of `color`.
pub open spec fn solid(len: nat, color: RGB8) -> Seq<RGB8> {
    Seq::new(len, |i: int| color)
}

/// Set every pixel to `color`.
pub fn fill(pixels: &mut Vec<RGB8>, color: RGB8)
    ensures
        final(pixels)@ == solid(old(pixels)@.len(), color),
{
    let len = pixels.len();
    let mut i: usize = 0;
    while i < len
        invariant
            len == pixels@.len(),
            len == old(pixels)@.len(),
            i <= len,
            forall|j: int| 0 <= j < i ==> pixels@[j] == color,
        decreases len - i,
    {
        pixels.set(i, color);
        i = i + 1;
    }
    assert(pixels@ =~= solid(old(pixels)@.len(), color));
}

/// The strip with the primary colour along it.
pub open spec fn primary_strip(len: nat, params: Params) -> Seq<RGB8> {
    Seq::new(len, |i: int| params.primary_at_spec(i, len as int))
}

/// Set every pixel to the primary color, following the palette along the
/// strip when there is one.
pub fn fill_primary(pixels: &mut Vec<RGB8>, params: &Params)
    requires
        params.fits_palette(old(pixels)@.len()),
    ensures
        final(pixels)@ == primary_strip(old(pixels)@.len(), *params),
{
    let len = pixels.len();
    let mut i: usize = 0;
    while i < len
        invariant
            len == pixels@.len(),
            len == old(pixels)@.len(),
            params.fits_palette(len as nat),
            i <= len,
            forall|j: int| 0 <= j < i ==> pixels@[j] == params.primary_at_spec(j, len as int),
        decreases len - i,
    {
        let c = params.primary_at(i, len);
        pixels.set(i, c);
        i = i + 1;
    }
    assert(pixels@ =~= primary_strip(old(pixels)@.len(), *params));
}

/// Every pixel blended toward `target` by `rate / 255`.
pub open spec fn faded(pixels: Seq<RGB8>, target: RGB8, rate: u8) -> Seq<RGB8> {
    Seq::new(pixels.len(), |i: int| blend_color(pixels[i], target, rate))
}

/// Blend every pixel toward `target` by `rate/255` each call.
pub fn fade_out(pixels: &mut Vec<RGB8>, target: RGB8, rate: u8)
    ensures
        final(pixels)@ == faded(old(pixels)@, target, rate),
{
    let len = pixels.len();
    let mut i: usize = 0;
    while i < len
        invariant
            len == pixels@.len(),
            len == old(pixels)@.len(),
            i <= len,
            forall|j: int| 0 <= j < i ==> pixels@[j] == blend_color(old(pixels)@[j], target, rate),
            forall|j: int| i <= j < len ==> pixels@[j] == old(pixels)@[j],
        decreases len - i,
    {
        let c = color_blend(pixels[i], target, rate);
        pixels.set(i, c);
        i = i + 1;
    }
    assert(pixels@ =~= faded(old(pixels)@, target, rate));
}

/// What `fastrand::Rng::with_seed(seed).u32(..)` returns: one WyRand step
/// from `seed` — the seed advanced by a constant, multiplied as 128 bits by
/// itself xored with a second constant, the two halves of the product xored
/// — cut to its low 32 bits.
pub open spec fn fastrand_u32_from_seed(seed: u64) -> u32 {
    let s = seed.wrapping_add(0x2d35_8dcc_aa6c_78a5u64);
    let t = (s as int) * ((s ^ 0x8bb8_4b93_962e_acc9u64) as int);
    ((t % 0x1_0000_0000_0000_0000) as u64 ^ (t / 0x1_0000_0000_0000_0000) as u64) as u32
}

/// Calls `fastrand::Rng::with_seed(seed)` and draws one full-range `u32`.
/// `with_seed` stores the seed as the generator's state, and a full-range
/// `u32` is the low 32 bits of one `gen_u64` step, which the spec above
/// writes out.
#[verifier::external_body]
fn seeded_u32(seed: u64) -> (r: u32)
    ensures
        r == fastrand_u32_from_seed(seed),
{
    fastrand::Rng::with_seed(seed).u32(..)
}

/// The seed [`next_rand`] hands the generator for `state`.
pub open spec fn rand_seed(state: u32) -> u64 {
    if state == 0 {
        0xdead_beefu64
    } else {
        (state as u64) | ((state as u64) << 32u64)
    }
}

/// The draw after `state` in the effects' random chain.
pub open spec fn next_rand_of(state: u32) -> u32 {
    fastrand_u32_from_seed(rand_seed(state))
}

/// Advance the PRNG and return a new random `u32`.
/// Store the return value back into `EffectState::aux` to keep the chain going.
/// Seeds itself to a non-zero value if `state` is 0.
pub fn next_rand(state: u32) -> (r: u32)
    ensures
        r == next_rand_of(state),
{
    let seed: u64 = if state == 0 {
        0xdead_beefu64
    } else {
        (state as u64) | ((state as u64) << 32u64)
    };
    seeded_u32(seed)
}

/// How far apart two wheel indices are, going the shorter way round.
pub open spec fn hue_distance(a: u8, b: u8) -> int {
    let x = if a >= b {
        a - b
    } else {
        b - a
    };
    if x < 255 - x {
        x
    } else {
        255 - x
    }
}

/// How many draws [`rand_wheel_index`] makes at most. The chain's state is a
/// `u32`, so its draws repeat within this many steps: when none of them is
/// far enough away, none ever is.
pub const WHEEL_DRAWS: u64 = 0x1_0000_0000;

/// The first draw after `rng` whose wheel index is at least 42 steps from
/// `current`, looking at most `fuel + 1` draws ahead; the last draw looked at
/// when none is.
pub open spec fn wheel_pick(current: u8, rng: u32, fuel: nat) -> (u8, u32)
    decreases fuel,
{
    let next = next_rand_of(rng);
    if hue_distance(current, next as u8) >= 42 || fuel == 0 {
        (next as u8, next)
    } else {
        wheel_pick(current, next, (fuel - 1) as nat)
    }
}

/// Returns a wheel index at least 42 hue steps away from `current`.
/// Advances the PRNG until a sufficiently distant value is found.
/// Returns `(new_index, updated_rng)`.
pub fn rand_wheel_index(current: u8, rng: u32) -> (picked: (u8, u32))
    ensures
        picked == wheel_pick(current, rng, (WHEEL_DRAWS - 1) as nat),
{
    let mut cur = rng;
    let mut drawn: u64 = 1;
    loop
        invariant
            1 <= drawn <= WHEEL_DRAWS,
            wheel_pick(current, cur, (WHEEL_DRAWS - drawn) as nat) == wheel_pick(
                current,
                rng,
                (WHEEL_DRAWS - 1) as nat,
            ),
        decreases WHEEL_DRAWS - drawn,
    {
        let ghost prev = cur;
        cur = next_rand(cur);
        let r = cur as u8;
        let x = if current >= r {
            current - r
        } else {
            r - current
        };
        let y = 255 - x;
        let d = if x < y {
            x
        } else {
            y
        };
        assert(d == hue_distance(current, r));
        if d >= 42 || drawn == WHEEL_DRAWS {
            assert(wheel_pick(current, prev, (WHEEL_DRAWS - drawn) as nat) == (r, cur));
            return (r, cur);
        }
        drawn = drawn + 1;
    }
}

/// The low byte of `x` is `x % 256`.
pub proof fn lemma_low_byte(x: u32)
    by (bit_vector)
    ensures
        x & 0xFFu32 == x % 256,
        x & 0xFFu32 <= 255u32,
{
}

/// The low half of `x` is at most `0xFFFF`.
pub proof fn lemma_low_half(x: u32)
    by (bit_vector)
    ensures
        x & 0xFFFFu32 <= 0xFFFFu32,
{
}

} // verus!
