//! Effects that colour the whole strip at once.

use vstd::prelude::*;

use crate::effects::Frame;
use crate::params::Params;
use crate::pixel::RGB8;
use crate::segment::EffectState;
use crate::utils::{
    blend_color, color_blend, lemma_low_byte, fill, fill_primary, next_rand, next_rand_of, primary_strip, rgb_of, solid,
    white,
};

verus! {

/// The state after `state` with its counter advanced by one, wrapping.
pub open spec fn ticked(state: EffectState) -> EffectState {
    EffectState { counter: state.counter.wrapping_add(1), ..state }
}

pub open spec fn static_frame(pixels: Seq<RGB8>, state: EffectState, params: Params) -> Frame {
    (primary_strip(pixels.len(), params), state)
}

/// The primary colour, following the palette.
pub fn static_color(pixels: &mut Vec<RGB8>, state: &mut EffectState, params: &Params)
    requires
        params.fits_palette(old(pixels)@.len()),
    ensures
        final(pixels)@ == static_frame(old(pixels)@, *old(state), *params).0,
        final(pixels)@.len() == old(pixels)@.len(),
        *final(state) == static_frame(old(pixels)@, *old(state), *params).1,
{
    fill_primary(pixels, params);
}

pub open spec fn blink_frame(pixels: Seq<RGB8>, state: EffectState, params: Params) -> Frame {
    (
        if state.counter % 2 == 0 {
            primary_strip(pixels.len(), params)
        } else {
            solid(pixels.len(), params.colors[1])
        },
        ticked(state),
    )
}

/// The primary colour on even steps, `colors[1]` on odd ones.
pub fn blink(pixels: &mut Vec<RGB8>, state: &mut EffectState, params: &Params)
    requires
        params.fits_palette(old(pixels)@.len()),
    ensures
        final(pixels)@ == blink_frame(old(pixels)@, *old(state), *params).0,
        final(pixels)@.len() == old(pixels)@.len(),
        *final(state) == blink_frame(old(pixels)@, *old(state), *params).1,
{
    if state.counter % 2 == 0 {
        fill_primary(pixels, params);
    } else {
        fill(pixels, params.colors[1]);
    }
    state.counter = state.counter.wrapping_add(1);
}

pub open spec fn blink_rainbow_frame(pixels: Seq<RGB8>, state: EffectState, params: Params) -> Frame {
    let color = if state.counter % 2 == 0 {
        params.wheel_spec((state.counter << 2u32) as u8)
    } else {
        params.colors[1]
    };
    (solid(pixels.len(), color), ticked(state))
}

/// Like blink but the "on" color cycles through the hue wheel each cycle.
pub fn blink_rainbow(pixels: &mut Vec<RGB8>, state: &mut EffectState, params: &Params)
    ensures
        final(pixels)@ == blink_rainbow_frame(old(pixels)@, *old(state), *params).0,
        final(pixels)@.len() == old(pixels)@.len(),
        *final(state) == blink_rainbow_frame(old(pixels)@, *old(state), *params).1,
{
    let color = if state.counter % 2 == 0 {
        params.wheel((state.counter << 2u32) as u8)
    } else {
        params.colors[1]
    };
    fill(pixels, color);
    state.counter = state.counter.wrapping_add(1);
}

/// Triangle wave: 0→254 over steps 0–127, 255→1 over steps 128–255.
pub open spec fn breath_level_of(step: u8) -> u8 {
    if step < 128 {
        (step * 2) as u8
    } else {
        (255u8).saturating_sub(((step - 128) * 2) as u8)
    }
}

pub fn breath_level(step: u8) -> (level: u8)
    ensures
        level == breath_level_of(step),
{
    if step < 128 {
        step * 2
    } else {
        255u8.saturating_sub((step - 128) * 2)
    }
}

/// `c` scaled by `level / 255`.
pub open spec fn breathed(c: RGB8, level: u8) -> RGB8 {
    RGB8 { r: (c.r * level / 255) as u8, g: (c.g * level / 255) as u8, b: (c.b * level / 255) as u8 }
}

fn scale_channel(c: u8, level: u8) -> (s: u8)
    ensures
        s == (c * level / 255) as u8,
{
    assert((c as u16) * (level as u16) <= 65025) by (nonlinear_arith)
        requires
            c <= 255,
            level <= 255,
    ;
    ((c as u16) * (level as u16) / 255) as u8
}

pub open spec fn breath_frame(pixels: Seq<RGB8>, state: EffectState, params: Params) -> Frame {
    let level = breath_level_of(state.counter as u8);
    (
        Seq::new(
            pixels.len(),
            |i: int| breathed(params.primary_at_spec(i, pixels.len() as int), level),
        ),
        ticked(state),
    )
}

/// The primary colour breathing in and out.
pub fn breath(pixels: &mut Vec<RGB8>, state: &mut EffectState, params: &Params)
    requires
        params.fits_palette(old(pixels)@.len()),
    ensures
        final(pixels)@ == breath_frame(old(pixels)@, *old(state), *params).0,
        final(pixels)@.len() == old(pixels)@.len(),
        *final(state) == breath_frame(old(pixels)@, *old(state), *params).1,
{
    let level = breath_level(state.counter as u8);
    let len = pixels.len();
    let mut i: usize = 0;
    while i < len
        invariant
            params.fits_palette(old(pixels)@.len()),
            len == pixels@.len(),
            len == old(pixels)@.len(),
            i <= len,
            level == breath_level_of(old(state).counter as u8),
            forall|j: int|
                0 <= j < i ==> pixels@[j] == breathed(params.primary_at_spec(j, len as int), level),
        decreases len - i,
    {
        let c = params.primary_at(i, len);
        let dimmed = RGB8 { r: scale_channel(c.r, level), g: scale_channel(c.g, level), b: scale_channel(c.b, level) };
        pixels.set(i, dimmed);
        i = i + 1;
    }
    assert(pixels@ =~= breath_frame(old(pixels)@, *old(state), *params).0);
    state.counter = state.counter.wrapping_add(1);
}

pub open spec fn rainbow_frame(pixels: Seq<RGB8>, state: EffectState, params: Params) -> Frame {
    (solid(pixels.len(), params.wheel_spec(state.counter as u8)), ticked(state))
}

/// All LEDs cycle through a single solid hue.
pub fn rainbow(pixels: &mut Vec<RGB8>, state: &mut EffectState, params: &Params)
    ensures
        final(pixels)@ == rainbow_frame(old(pixels)@, *old(state), *params).0,
        final(pixels)@.len() == old(pixels)@.len(),
        *final(state) == rainbow_frame(old(pixels)@, *old(state), *params).1,
{
    let color = params.wheel(state.counter as u8);
    fill(pixels, color);
    state.counter = state.counter.wrapping_add(1);
}

/// The states [`fade`] can step from.
pub open spec fn fade_accepts(state: EffectState) -> bool {
    state.counter as u16 <= 511 && state.counter <= u32::MAX - 4
}

/// How far toward the primary colour [`fade`] is at `counter`.
pub open spec fn fade_level(counter: u32) -> u8 {
    let lum = counter as u16;
    (if lum > 255 {
        511 - lum
    } else {
        lum as int
    }) as u8
}

pub open spec fn fade_frame(pixels: Seq<RGB8>, state: EffectState, params: Params) -> Frame {
    let lum = fade_level(state.counter);
    (
        Seq::new(
            pixels.len(),
            |i: int| blend_color(params.colors[1], params.primary_at_spec(i, pixels.len() as int), lum),
        ),
        EffectState { counter: ((state.counter + 4) % 512) as u32, ..state },
    )
}

/// Smooth fade between `colors[1]` and `colors[0]`.
pub fn fade(pixels: &mut Vec<RGB8>, state: &mut EffectState, params: &Params)
    requires
        params.fits_palette(old(pixels)@.len()),
        fade_accepts(*old(state)),
    ensures
        final(pixels)@ == fade_frame(old(pixels)@, *old(state), *params).0,
        final(pixels)@.len() == old(pixels)@.len(),
        *final(state) == fade_frame(old(pixels)@, *old(state), *params).1,
        fade_accepts(*final(state)),
{
    let lum = state.counter as u16;
    let lum = if lum > 255 {
        511 - lum
    } else {
        lum
    };
    let lum = lum as u8;
    let len = pixels.len();
    let mut i: usize = 0;
    while i < len
        invariant
            params.fits_palette(old(pixels)@.len()),
            len == pixels@.len(),
            len == old(pixels)@.len(),
            i <= len,
            lum == fade_level(old(state).counter),
            forall|j: int|
                0 <= j < i ==> pixels@[j] == blend_color(
                    params.colors[1],
                    params.primary_at_spec(j, len as int),
                    lum,
                ),
        decreases len - i,
    {
        let c = color_blend(params.colors[1], params.primary_at(i, len), lum);
        pixels.set(i, c);
        i = i + 1;
    }
    assert(pixels@ =~= fade_frame(old(pixels)@, *old(state), *params).0);
    state.counter = (state.counter + 4) % 512;
}

/// Steps per flash cycle: 2 at full intensity, 9 at zero.
pub open spec fn strobe_period_of(intensity: u8) -> u32 {
    (2 + (255 - intensity) / 32) as u32
}

pub fn strobe_period(intensity: u8) -> (period: u32)
    ensures
        period == strobe_period_of(intensity),
        2 <= period <= 9,
{
    2 + ((255 - intensity) as u32) / 32
}

/// The states [`strobe`] and [`strobe_rainbow`] can step from.
pub open spec fn strobe_accepts(state: EffectState) -> bool {
    state.counter < u32::MAX
}

pub open spec fn strobe_frame(pixels: Seq<RGB8>, state: EffectState, params: Params) -> Frame {
    let period = strobe_period_of(params.intensity);
    (
        if state.counter % period == 0 {
            primary_strip(pixels.len(), params)
        } else {
            solid(pixels.len(), params.colors[1])
        },
        EffectState { counter: ((state.counter + 1) % (period as int)) as u32, ..state },
    )
}

/// A single-step flash of `colors[0]` over `colors[1]`, then a pause that
/// shortens as intensity rises.
pub fn strobe(pixels: &mut Vec<RGB8>, state: &mut EffectState, params: &Params)
    requires
        params.fits_palette(old(pixels)@.len()),
        strobe_accepts(*old(state)),
    ensures
        final(pixels)@ == strobe_frame(old(pixels)@, *old(state), *params).0,
        final(pixels)@.len() == old(pixels)@.len(),
        *final(state) == strobe_frame(old(pixels)@, *old(state), *params).1,
        strobe_accepts(*final(state)),
{
    let period = strobe_period(params.intensity);
    if state.counter % period == 0 {
        fill_primary(pixels, params);
    } else {
        fill(pixels, params.colors[1]);
    }
    state.counter = (state.counter + 1) % period;
}

/// The states [`strobe_rainbow`] can step from: the step counter can
/// advance.
pub open spec fn strobe_rainbow_accepts(state: EffectState) -> bool {
    state.counter < u32::MAX
}

pub open spec fn strobe_rainbow_frame(pixels: Seq<RGB8>, state: EffectState, params: Params) -> Frame {
    let period = strobe_period_of(params.intensity);
    let counter = ((state.counter + 1) % (period as int)) as u32;
    if state.counter % period == 0 {
        (
            solid(pixels.len(), params.wheel_spec(state.aux as u8)),
            EffectState { counter, aux: (((state.aux & 0xFFu32) + 16) as u32) & 0xFFu32 },
        )
    } else {
        (solid(pixels.len(), params.colors[1]), EffectState { counter, ..state })
    }
}

/// [`strobe`] whose flash advances around the hue wheel.
/// `state.aux` holds the hue of the next flash.
pub fn strobe_rainbow(pixels: &mut Vec<RGB8>, state: &mut EffectState, params: &Params)
    requires
        strobe_rainbow_accepts(*old(state)),
    ensures
        final(pixels)@ == strobe_rainbow_frame(old(pixels)@, *old(state), *params).0,
        final(pixels)@.len() == old(pixels)@.len(),
        *final(state) == strobe_rainbow_frame(old(pixels)@, *old(state), *params).1,
        strobe_rainbow_accepts(*final(state)),
{
    let period = strobe_period(params.intensity);
    if state.counter % period == 0 {
        let c = params.wheel(state.aux as u8);
        fill(pixels, c);
        // Only the low byte counts, so the addition stays in range.
        let aux = state.aux;
        let low = aux & 0xFFu32;
        assert(low <= 0xFFu32) by (bit_vector)
            requires
                low == aux & 0xFFu32,
        ;
        let t = low + 16;
        state.aux = t & 0xFFu32;
        proof {
            lemma_low_byte(t);
        }
    } else {
        fill(pixels, params.colors[1]);
    }
    state.counter = (state.counter + 1) % period;
}

/// `pixels` with `n` random white sparkles drawn from the chain after `rng`,
/// and the chain's last draw.
pub open spec fn white_sparkles(pixels: Seq<RGB8>, rng: u32, n: nat) -> (Seq<RGB8>, u32)
    decreases n,
{
    if n == 0 {
        (pixels, rng)
    } else {
        let (p, r) = white_sparkles(pixels, rng, (n - 1) as nat);
        let next = next_rand_of(r);
        (p.update((next % (pixels.len() as u32)) as int, rgb_of(255, 255, 255)), next)
    }
}

pub proof fn lemma_white_sparkles_len(pixels: Seq<RGB8>, rng: u32, n: nat)
    requires
        0 < pixels.len() <= u32::MAX,
    ensures
        white_sparkles(pixels, rng, n).0.len() == pixels.len(),
    decreases n,
{
    if n > 0 {
        lemma_white_sparkles_len(pixels, rng, (n - 1) as nat);
    }
}

/// How many sparkles [`hyper_sparkle`] draws at `intensity`.
pub open spec fn sparkle_count(intensity: u8) -> nat {
    if intensity / 16 < 1 {
        1
    } else {
        (intensity / 16) as nat
    }
}

pub open spec fn hyper_sparkle_frame(pixels: Seq<RGB8>, state: EffectState, params: Params) -> Frame {
    let (p, r) = white_sparkles(
        primary_strip(pixels.len(), params),
        state.aux,
        sparkle_count(params.intensity),
    );
    (p, EffectState { aux: r, ..state })
}

/// Background `colors[0]` with random white sparkles: 8 per frame at default
/// intensity.
pub fn hyper_sparkle(pixels: &mut Vec<RGB8>, state: &mut EffectState, params: &Params)
    requires
        params.fits_palette(old(pixels)@.len()),
        old(pixels)@.len() > 0,
        old(pixels)@.len() <= u32::MAX,
    ensures
        final(pixels)@ == hyper_sparkle_frame(old(pixels)@, *old(state), *params).0,
        final(pixels)@.len() == old(pixels)@.len(),
        *final(state) == hyper_sparkle_frame(old(pixels)@, *old(state), *params).1,
{
    fill_primary(pixels, params);
    let ghost base = pixels@;
    let len = pixels.len();
    let n: u8 = if params.intensity / 16 < 1 {
        1
    } else {
        params.intensity / 16
    };
    let mut rng = state.aux;
    let mut k: u8 = 0;
    while k < n
        invariant
            params.fits_palette(old(pixels)@.len()),
            old(pixels)@.len() <= u32::MAX,
            len <= u32::MAX,
            len == pixels@.len(),
            len == base.len(),
            len > 0,
            k <= n,
            n == sparkle_count(params.intensity),
            (pixels@, rng) == white_sparkles(base, old(state).aux, k as nat),
        decreases n - k,
    {
        rng = next_rand(rng);
        let idx = (rng % (len as u32)) as usize;
        pixels.set(idx, white());
        k = k + 1;
        proof {
            lemma_white_sparkles_len(base, old(state).aux, (k - 1) as nat);
        }
    }
    state.aux = rng;
}

/// The states [`multi_strobe`] can step from.
pub open spec fn multi_strobe_accepts(state: EffectState) -> bool {
    state.counter < u32::MAX
}

/// Flashes and pause of [`multi_strobe`]: twice the flashes it makes.
pub open spec fn multi_strobe_count(speed: u16) -> u32 {
    (2 * (speed / 100 + 1)) as u32
}

pub open spec fn multi_strobe_frame(pixels: Seq<RGB8>, state: EffectState, params: Params) -> Frame {
    let count = multi_strobe_count(params.speed);
    (
        if state.counter < count && state.counter % 2 == 0 {
            primary_strip(pixels.len(), params)
        } else {
            solid(pixels.len(), params.colors[1])
        },
        EffectState { counter: ((state.counter + 1) % (count + 1)) as u32, ..state },
    )
}

/// Strobe with N rapid flashes then a pause. N is derived from `params.speed`.
pub fn multi_strobe(pixels: &mut Vec<RGB8>, state: &mut EffectState, params: &Params)
    requires
        params.fits_palette(old(pixels)@.len()),
        multi_strobe_accepts(*old(state)),
    ensures
        final(pixels)@ == multi_strobe_frame(old(pixels)@, *old(state), *params).0,
        final(pixels)@.len() == old(pixels)@.len(),
        *final(state) == multi_strobe_frame(old(pixels)@, *old(state), *params).1,
        multi_strobe_accepts(*final(state)),
{
    let count = 2 * ((params.speed as u32) / 100 + 1);
    if state.counter < count && state.counter % 2 == 0 {
        fill_primary(pixels, params);
    } else {
        fill(pixels, params.colors[1]);
    }
    state.counter = (state.counter + 1) % (count + 1);
}

} // verus!
