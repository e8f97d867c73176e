//! Highlights over a background: dots, spots, flashes and sparkles.
//!
//! Each of these draws something small over a background, so each reads
//! [`Params::overlay`]: with it set they leave the background black, for a
//! caller that blends the result onto something else.

use vstd::prelude::*;

use crate::effects::Frame;
use crate::effects::color::ticked;
use crate::params::Params;
use crate::pixel::RGB8;
use crate::segment::EffectState;
use crate::utils::{
    black, blend_color, color_blend, color_is_black, dim, dim_color, fill, hash32, hash32_of, is_black,
    phase, phase_at, rgb_of, sin8_of, sine8, solid, travel, travel_at, white,
};

verus! {

/// The background of the highlight effects: black with `overlay`, else `color`.
pub open spec fn backdrop(params: Params, color: RGB8) -> RGB8 {
    if params.overlay {
        rgb_of(0, 0, 0)
    } else {
        color
    }
}

/// The first `k` steps of the two dots drawn over `pixels`.
pub open spec fn dots(pixels: Seq<RGB8>, first: int, second: int, k: nat, params: Params) -> Seq<RGB8>
    decreases k,
{
    if k == 0 {
        pixels
    } else {
        let len = pixels.len() as int;
        let p = dots(pixels, first, second, (k - 1) as nat, params);
        let a = (first + k - 1) % len;
        let b = (second + k - 1) % len;
        p.update(a, params.primary_at_spec(a, len)).update(b, params.colors[1])
    }
}

pub proof fn lemma_dots_len(pixels: Seq<RGB8>, first: int, second: int, k: nat, params: Params)
    requires
        pixels.len() > 0,
    ensures
        dots(pixels, first, second, k, params).len() == pixels.len(),
    decreases k,
{
    if k > 0 {
        lemma_dots_len(pixels, first, second, (k - 1) as nat, params);
    }
}

/// The dots drawn with two parameter sets that agree on the colours and the
/// palette are the same.
pub proof fn lemma_dots_colors_only(
    pixels: Seq<RGB8>,
    first: int,
    second: int,
    k: nat,
    params: Params,
    other: Params,
)
    requires
        params.colors == other.colors,
        params.palette == other.palette,
    ensures
        dots(pixels, first, second, k, params) == dots(pixels, first, second, k, other),
    decreases k,
{
    if k > 0 {
        lemma_dots_colors_only(pixels, first, second, (k - 1) as nat, params, other);
    }
}

pub open spec fn two_dots_frame(pixels: Seq<RGB8>, state: EffectState, params: Params) -> Frame {
    let len = pixels.len() as int;
    let width = 1 + params.width / 16;
    let first = (travel_at(params.now_ms, params.rate) as int) % len;
    let second = (first + len / 2) % len;
    let steps = if width < len {
        width
    } else {
        len
    };
    (
        dots(solid(pixels.len(), backdrop(params, params.colors[2])), first, second, steps as nat, params),
        state,
    )
}

/// Two dots travelling along the strip, one in the primary color and one in
/// `colors[1]`, half a strip apart, over `colors[2]`. `width` sets each dot,
/// from 1 to 16 pixels.
pub fn two_dots(pixels: &mut Vec<RGB8>, state: &mut EffectState, params: &Params)
    requires
        old(pixels)@.len() > 0,
        old(pixels)@.len() * 2 <= usize::MAX,
        params.fits_palette(old(pixels)@.len()),
    ensures
        final(pixels)@ == two_dots_frame(old(pixels)@, *old(state), *params).0,
        final(pixels)@.len() == old(pixels)@.len(),
        *final(state) == two_dots_frame(old(pixels)@, *old(state), *params).1,
{
    let len = pixels.len();
    let background = if params.overlay {
        black()
    } else {
        params.colors[2]
    };
    fill(pixels, background);
    let ghost base = pixels@;
    let width = 1 + ((params.width / 16) as usize);
    let first = (travel(params.now_ms, params.rate) % (len as u64)) as usize;
    let second = (first + len / 2) % len;
    let steps = if width < len {
        width
    } else {
        len
    };
    let mut step: usize = 0;
    while step < steps
        invariant
            len == pixels@.len(),
            len == base.len(),
            len > 0,
            len * 2 <= usize::MAX,
            params.fits_palette(len as nat),
            first < len,
            second < len,
            steps <= len,
            step <= steps,
            pixels@ == dots(base, first as int, second as int, step as nat, *params),
        decreases steps - step,
    {
        proof {
            lemma_dots_len(base, first as int, second as int, step as nat, *params);
        }
        let at = (first + step) % len;
        let c = params.primary_at(at, len);
        pixels.set(at, c);
        let at = (second + step) % len;
        pixels.set(at, params.colors[1]);
        step = step + 1;
    }
}

/// The strike [`lightning`] shows at `now_ms`, if any: its hash.
pub open spec fn strike_of(params: Params) -> u32 {
    hash32_of(phase_at(params.now_ms, params.rate) >> 3u32)
}

pub open spec fn lightning_frame(pixels: Seq<RGB8>, state: EffectState, params: Params) -> Frame {
    let len = pixels.len() as int;
    let back = solid(pixels.len(), backdrop(params, params.colors[1]));
    let strike = strike_of(params);
    if (strike & 0xFFu32) as u8 > params.intensity / 2 {
        (back, state)
    } else {
        let start = ((strike >> 8u32) as int) % len;
        let length = 1 + ((strike >> 16u32) as int) % (len / 2 + 1);
        let level = (128 + ((strike >> 24u32) as u8) / 2) as u8;
        let end = if start + length < len {
            start + length
        } else {
            len
        };
        (
            Seq::new(
                pixels.len(),
                |i: int|
                    if start <= i < end {
                        dim_color(params.primary_at_spec(i, len), level)
                    } else {
                        back[i]
                    },
            ),
            state,
        )
    }
}

/// Brief flashes of the primary color striking at random places over
/// `colors[1]`. `intensity` sets how often they strike and `rate` how quickly
/// each passes.
pub fn lightning(pixels: &mut Vec<RGB8>, state: &mut EffectState, params: &Params)
    requires
        old(pixels)@.len() > 0,
        old(pixels)@.len() * 2 <= usize::MAX,
        params.fits_palette(old(pixels)@.len()),
    ensures
        final(pixels)@ == lightning_frame(old(pixels)@, *old(state), *params).0,
        final(pixels)@.len() == old(pixels)@.len(),
        *final(state) == lightning_frame(old(pixels)@, *old(state), *params).1,
{
    let len = pixels.len();
    let background = if params.overlay {
        black()
    } else {
        params.colors[1]
    };
    fill(pixels, background);
    // Each strike lasts one tick of the clock, so which one is showing — if
    // any — is a question the clock answers.
    let tick = phase(params.now_ms, params.rate) >> 3u32;
    let strike = hash32(tick);
    if (strike & 0xFFu32) as u8 > params.intensity / 2 {
        return;
    }
    let start = (strike >> 8u32) as usize % len;
    let length = 1 + (strike >> 16u32) as usize % (len / 2 + 1);
    let level = 128 + ((strike >> 24u32) as u8) / 2;
    let end = if start + length < len {
        start + length
    } else {
        len
    };
    let ghost back = pixels@;
    let mut i: usize = start;
    while i < end
        invariant
            len == pixels@.len(),
            len == back.len(),
            len > 0,
            len * 2 <= usize::MAX,
            params.fits_palette(len as nat),
            start <= i <= end,
            end <= len,
            back == solid(len as nat, backdrop(*params, params.colors[1])),
            forall|j: int| start <= j < i ==> pixels@[j] == dim_color(params.primary_at_spec(j, len as int), level),
            forall|j: int| 0 <= j < len && !(start <= j < i) ==> pixels@[j] == back[j],
        decreases end - i,
    {
        let c = dim(params.primary_at(i, len), level);
        pixels.set(i, c);
        i = i + 1;
    }
    assert(pixels@ =~= lightning_frame(old(pixels)@, *old(state), *params).0);
}

/// Spots of the primary colour at `level` over the backdrop.
pub open spec fn lit_spots_strip(len: nat, params: Params, level: u8) -> Seq<RGB8> {
    let background = backdrop(params, params.colors[1]);
    let spacing = 2 + params.spread / 8;
    let width = 1 + params.width / 16;
    Seq::new(
        len,
        |i: int|
            if i % spacing < width {
                blend_color(background, params.primary_at_spec(i, len as int), level)
            } else {
                background
            },
    )
}

pub fn lit_spots(pixels: &mut Vec<RGB8>, params: &Params, level: u8)
    requires
        params.fits_palette(old(pixels)@.len()),
        old(pixels)@.len() <= u32::MAX,
    ensures
        final(pixels)@ == lit_spots_strip(old(pixels)@.len(), *params, level),
{
    let len = pixels.len();
    let background = if params.overlay {
        black()
    } else {
        params.colors[1]
    };
    let spacing = 2 + ((params.spread / 8) as usize);
    let width = 1 + ((params.width / 16) as usize);
    let mut i: usize = 0;
    while i < len
        invariant
            params.fits_palette(old(pixels)@.len()),
            len == pixels@.len(),
            len == old(pixels)@.len(),
            len <= u32::MAX,
            i <= len,
            background == backdrop(*params, params.colors[1]),
            spacing == 2 + params.spread / 8,
            width == 1 + params.width / 16,
            forall|j: int|
                0 <= j < i ==> pixels@[j] == (if j % (spacing as int) < width {
                    blend_color(background, params.primary_at_spec(j, len as int), level)
                } else {
                    background
                }),
        decreases len - i,
    {
        let c = if i % spacing < width {
            color_blend(background, params.primary_at(i, len), level)
        } else {
            background
        };
        pixels.set(i, c);
        i = i + 1;
    }
    assert(pixels@ =~= lit_spots_strip(old(pixels)@.len(), *params, level));
}

pub open spec fn spots_frame(pixels: Seq<RGB8>, state: EffectState, params: Params) -> Frame {
    (lit_spots_strip(pixels.len(), params, 255), state)
}

/// Evenly spaced spots of the primary color over `colors[1]`. `spread` sets
/// how far apart they sit, from 2 to 33 pixels, and `width` how wide each is.
pub fn spots(pixels: &mut Vec<RGB8>, state: &mut EffectState, params: &Params)
    requires
        params.fits_palette(old(pixels)@.len()),
        old(pixels)@.len() <= u32::MAX,
    ensures
        final(pixels)@ == spots_frame(old(pixels)@, *old(state), *params).0,
        final(pixels)@.len() == old(pixels)@.len(),
        *final(state) == spots_frame(old(pixels)@, *old(state), *params).1,
{
    lit_spots(pixels, params, 255);
}

pub open spec fn spots_fade_frame(pixels: Seq<RGB8>, state: EffectState, params: Params) -> Frame {
    (lit_spots_strip(pixels.len(), params, sin8_of(phase_at(params.now_ms, 96) as u8)), state)
}

/// [`spots`], with every spot fading in and out together.
pub fn spots_fade(pixels: &mut Vec<RGB8>, state: &mut EffectState, params: &Params)
    requires
        params.fits_palette(old(pixels)@.len()),
        old(pixels)@.len() <= u32::MAX,
    ensures
        final(pixels)@ == spots_fade_frame(old(pixels)@, *old(state), *params).0,
        final(pixels)@.len() == old(pixels)@.len(),
        *final(state) == spots_fade_frame(old(pixels)@, *old(state), *params).1,
{
    // Spread and width take this effect's sliders, so the fade keeps its own
    // steady pace.
    let level = sine8(phase(params.now_ms, 96) as u8);
    lit_spots(pixels, params, level);
}

/// `x` with its two halves swapped.
pub open spec fn rotated16(x: u32) -> u32 {
    (x << 16u32) | (x >> 16u32)
}

/// The sparkle colour: `colors[2]`, or white while that is black.
pub open spec fn glitter_color(params: Params) -> RGB8 {
    if is_black(params.colors[2]) {
        rgb_of(255, 255, 255)
    } else {
        params.colors[2]
    }
}

/// How many sparkles [`scatter`] draws on a strip of `len`.
pub open spec fn sparkle_total(len: int, intensity: u8) -> int {
    1 + len * intensity / 512
}

/// `pixels` with the first `k` sparkles of tick `tick` drawn in `color`.
pub open spec fn scattered(pixels: Seq<RGB8>, tick: u32, k: nat, color: RGB8) -> Seq<RGB8>
    decreases k,
{
    if k == 0 {
        pixels
    } else {
        let p = scattered(pixels, tick, (k - 1) as nat, color);
        let at = (hash32_of(tick ^ rotated16((k - 1) as u32)) as int) % (pixels.len() as int);
        p.update(at, color)
    }
}

pub proof fn lemma_scattered_len(pixels: Seq<RGB8>, tick: u32, k: nat, color: RGB8)
    requires
        pixels.len() > 0,
    ensures
        scattered(pixels, tick, k, color).len() == pixels.len(),
    decreases k,
{
    if k > 0 {
        lemma_scattered_len(pixels, tick, (k - 1) as nat, color);
    }
}

/// Scatters `intensity`-many sparkles of `colors[2]` — white while that is
/// black — over `pixels`, in the places `tick` picks.
pub fn scatter(pixels: &mut Vec<RGB8>, params: &Params, tick: u32)
    requires
        old(pixels)@.len() > 0,
        old(pixels)@.len() * 255 <= usize::MAX,
    ensures
        final(pixels)@ == scattered(
            old(pixels)@,
            tick,
            sparkle_total(old(pixels)@.len() as int, params.intensity) as nat,
            glitter_color(*params),
        ),
        final(pixels)@.len() == old(pixels)@.len(),
{
    let len = pixels.len();
    let color = if color_is_black(params.colors[2]) {
        white()
    } else {
        params.colors[2]
    };
    assert(len * (params.intensity as usize) <= len * 255) by (nonlinear_arith)
        requires
            params.intensity <= 255,
    ;
    let count = 1 + len * (params.intensity as usize) / 512;
    let mut k: usize = 0;
    while k < count
        invariant
            len == pixels@.len(),
            len == old(pixels)@.len(),
            len > 0,
            len * 255 <= usize::MAX,
            count == sparkle_total(len as int, params.intensity),
            k <= count,
            color == glitter_color(*params),
            pixels@ == scattered(old(pixels)@, tick, k as nat, color),
        decreases count - k,
    {
        proof {
            lemma_scattered_len(old(pixels)@, tick, k as nat, color);
        }
        let s = k as u32;
        let at = (hash32(tick ^ ((s << 16u32) | (s >> 16u32))) as usize) % len;
        pixels.set(at, color);
        k = k + 1;
    }
    proof {
        lemma_scattered_len(old(pixels)@, tick, count as nat, color);
    }
}

pub open spec fn solid_glitter_frame(pixels: Seq<RGB8>, state: EffectState, params: Params) -> Frame {
    (
        scattered(
            solid(pixels.len(), params.colors[0]),
            state.counter,
            sparkle_total(pixels.len() as int, params.intensity) as nat,
            glitter_color(params),
        ),
        ticked(state),
    )
}

/// Sparkles of `colors[2]` — white while that is black — over `colors[0]`, a
/// new set with every step. `intensity` sets how many.
pub fn solid_glitter(pixels: &mut Vec<RGB8>, state: &mut EffectState, params: &Params)
    requires
        old(pixels)@.len() > 0,
        old(pixels)@.len() * 255 <= usize::MAX,
    ensures
        final(pixels)@ == solid_glitter_frame(old(pixels)@, *old(state), *params).0,
        final(pixels)@.len() == old(pixels)@.len(),
        *final(state) == solid_glitter_frame(old(pixels)@, *old(state), *params).1,
{
    fill(pixels, params.colors[0]);
    scatter(pixels, params, state.counter);
    state.counter = state.counter.wrapping_add(1);
}

/// What [`glitter`] scatters its sparkles over: black with `overlay`, else
/// the primary colour along the strip.
pub open spec fn glitter_base(len: nat, params: Params) -> Seq<RGB8> {
    Seq::new(
        len,
        |i: int|
            if params.overlay {
                rgb_of(0, 0, 0)
            } else {
                params.primary_at_spec(i, len as int)
            },
    )
}

pub open spec fn glitter_frame(pixels: Seq<RGB8>, state: EffectState, params: Params) -> Frame {
    (
        scattered(
            glitter_base(pixels.len(), params),
            phase_at(params.now_ms, params.rate) >> 4u32,
            sparkle_total(pixels.len() as int, params.intensity) as nat,
            glitter_color(params),
        ),
        state,
    )
}

/// Sparkles of `colors[2]` — white while that is black — scattered over the
/// palette. `intensity` sets how many and `rate` how fast they move.
pub fn glitter(pixels: &mut Vec<RGB8>, state: &mut EffectState, params: &Params)
    requires
        old(pixels)@.len() > 0,
        old(pixels)@.len() * 255 <= usize::MAX,
        params.fits_palette(old(pixels)@.len()),
    ensures
        final(pixels)@ == glitter_frame(old(pixels)@, *old(state), *params).0,
        final(pixels)@.len() == old(pixels)@.len(),
        *final(state) == glitter_frame(old(pixels)@, *old(state), *params).1,
{
    let len = pixels.len();
    let mut i: usize = 0;
    while i < len
        invariant
            len == pixels@.len(),
            len == old(pixels)@.len(),
            len > 0,
            len * 255 <= usize::MAX,
            params.fits_palette(len as nat),
            i <= len,
            forall|j: int|
                0 <= j < i ==> pixels@[j] == (if params.overlay {
                    rgb_of(0, 0, 0)
                } else {
                    params.primary_at_spec(j, len as int)
                }),
        decreases len - i,
    {
        let c = if params.overlay {
            black()
        } else {
            params.primary_at(i, len)
        };
        pixels.set(i, c);
        i = i + 1;
    }
    let ghost base = pixels@;
    assert(base =~= Seq::new(
        len as nat,
        |i: int|
            if params.overlay {
                rgb_of(0, 0, 0)
            } else {
                params.primary_at_spec(i, len as int)
            },
    ));
    // A new set of sparkles every tick of the clock.
    scatter(pixels, params, phase(params.now_ms, params.rate) >> 4u32);
}

} // verus!
