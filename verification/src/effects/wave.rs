//! Effects shaped by the clock and by named settings rather than by a step
//! count.
//!
//! The time-driven ones — Sine, Bpm and Wavesins — draw each frame from
//! [`Params::now_ms`], so they move smoothly however often they are stepped.

use vstd::prelude::*;

use crate::effects::Frame;
use crate::params::Params;
use crate::pixel::RGB8;
use crate::segment::EffectState;
use crate::utils::{
    beatsin8, beatsin8_of, dim, dim_color, hash32, hash32_of, phase, phase_at, sin8_of, sine8,
};

verus! {

pub open spec fn sine_frame(pixels: Seq<RGB8>, state: EffectState, params: Params) -> Frame {
    let ph = phase_at(params.now_ms, params.rate);
    let offset = ph as u8;
    let drift = (ph >> 1u32) as u8;
    let step = (params.scale / 16 + 1) as u8;
    (
        Seq::new(
            pixels.len(),
            |i: int|
                {
                    let angle = (i as u8).wrapping_mul(step);
                    dim_color(params.wheel_spec(angle.wrapping_add(drift)), sin8_of(angle.wrapping_add(offset)))
                },
        ),
        state,
    )
}

/// Bands of the hue wheel, or the palette, ripple along the strip under a sine
/// wave of brightness. `rate` sets how fast they move; `scale` how tightly
/// the bands repeat.
pub fn sine(pixels: &mut Vec<RGB8>, state: &mut EffectState, params: &Params)
    requires
        params.fits_palette(old(pixels)@.len()),
    ensures
        final(pixels)@ == sine_frame(old(pixels)@, *old(state), *params).0,
        final(pixels)@.len() == old(pixels)@.len(),
        *final(state) == sine_frame(old(pixels)@, *old(state), *params).1,
{
    let ph = phase(params.now_ms, params.rate);
    let offset = ph as u8;
    let drift = (ph >> 1u32) as u8;
    let step = params.scale / 16 + 1;
    let len = pixels.len();
    let mut i: usize = 0;
    while i < len
        invariant
            params.fits_palette(old(pixels)@.len()),
            len == pixels@.len(),
            len == old(pixels)@.len(),
            i <= len,
            offset == phase_at(params.now_ms, params.rate) as u8,
            drift == (phase_at(params.now_ms, params.rate) >> 1u32) as u8,
            step == params.scale / 16 + 1,
            forall|j: int|
                0 <= j < i ==> pixels@[j] == dim_color(
                    params.wheel_spec((j as u8).wrapping_mul(step).wrapping_add(drift)),
                    sin8_of((j as u8).wrapping_mul(step).wrapping_add(offset)),
                ),
        decreases len - i,
    {
        let angle = (i as u8).wrapping_mul(step);
        let level = sine8(angle.wrapping_add(offset));
        let c = dim(params.wheel(angle.wrapping_add(drift)), level);
        pixels.set(i, c);
        i = i + 1;
    }
    assert(pixels@ =~= sine_frame(old(pixels)@, *old(state), *params).0);
}

pub open spec fn bpm_frame(pixels: Seq<RGB8>, state: EffectState, params: Params) -> Frame {
    let len = pixels.len() as int;
    let tempo = (20 + params.rate / 3) as u16;
    let hue = (params.now_ms / 32) as u8;
    (
        Seq::new(
            pixels.len(),
            |i: int|
                {
                    let along = (i * 256 / len) as u8;
                    dim_color(
                        params.wheel_spec(hue.wrapping_add(along)),
                        beatsin8_of(tempo, 64, 255, 0, 0u8.wrapping_sub(along), params.now_ms),
                    )
                },
        ),
        state,
    )
}

/// The hue wheel, or the palette, spread along the strip while a pulse of
/// brightness travels through it to a beat. `rate` sets the tempo, from 20 to
/// 105 beats a minute.
pub fn bpm(pixels: &mut Vec<RGB8>, state: &mut EffectState, params: &Params)
    requires
        params.fits_palette(old(pixels)@.len()),
        old(pixels)@.len() > 0 ==> (old(pixels)@.len() - 1) * 256 <= usize::MAX,
    ensures
        final(pixels)@ == bpm_frame(old(pixels)@, *old(state), *params).0,
        final(pixels)@.len() == old(pixels)@.len(),
        *final(state) == bpm_frame(old(pixels)@, *old(state), *params).1,
{
    let len = pixels.len();
    let tempo = 20 + (params.rate as u16) / 3;
    let hue = (params.now_ms / 32) as u8;
    let mut i: usize = 0;
    while i < len
        invariant
            params.fits_palette(old(pixels)@.len()),
            len > 0 ==> (len - 1) * 256 <= usize::MAX,
            len == pixels@.len(),
            len == old(pixels)@.len(),
            i <= len,
            tempo == 20 + params.rate / 3,
            hue == (params.now_ms / 32) as u8,
            forall|j: int|
                0 <= j < i ==> pixels@[j] == dim_color(
                    params.wheel_spec(hue.wrapping_add((j * 256 / (len as int)) as u8)),
                    beatsin8_of(
                        tempo,
                        64,
                        255,
                        0,
                        0u8.wrapping_sub((j * 256 / (len as int)) as u8),
                        params.now_ms,
                    ),
                ),
        decreases len - i,
    {
        assert(i * 256 <= (len - 1) * 256) by (nonlinear_arith)
            requires
                i < len,
        ;
        let along = (i * 256 / len) as u8;
        let level = beatsin8(tempo, 64, 255, 0, 0u8.wrapping_sub(along), params.now_ms);
        let c = dim(params.wheel(hue.wrapping_add(along)), level);
        pixels.set(i, c);
        i = i + 1;
    }
    assert(pixels@ =~= bpm_frame(old(pixels)@, *old(state), *params).0);
}

/// How many pixels [`percent`] aims to light on a strip of `len`.
pub open spec fn percent_target(len: int, fill: u8) -> int {
    (len * fill + 127) / 255
}

/// How many pixels [`percent`] lights this step: one closer to the target.
pub open spec fn percent_lit(counter: u32, len: int, fill: u8) -> int {
    let shown = if (counter as int) < len {
        counter as int
    } else {
        len
    };
    let target = percent_target(len, fill);
    if shown < target {
        shown + 1
    } else if shown > target {
        shown - 1
    } else {
        shown
    }
}

pub open spec fn percent_frame(pixels: Seq<RGB8>, state: EffectState, params: Params) -> Frame {
    let len = pixels.len() as int;
    let lit = percent_lit(state.counter, len, params.fill);
    (
        Seq::new(
            pixels.len(),
            |i: int|
                if i >= lit {
                    params.colors[1]
                } else if params.one_color {
                    params.colors[0]
                } else {
                    params.primary_at_spec(i, len)
                },
        ),
        EffectState { counter: lit as u32, ..state },
    )
}

/// Lights the share of the strip that `fill` asks for, from none at `0` to all
/// at `255`, growing or shrinking one pixel per step toward it. Lit pixels
/// follow the palette, or show the primary color alone with `one_color`; the
/// rest show `colors[1]`. `state.counter` holds how many are lit.
pub fn percent(pixels: &mut Vec<RGB8>, state: &mut EffectState, params: &Params)
    requires
        params.fits_palette(old(pixels)@.len()),
        old(pixels)@.len() * 255 + 127 <= usize::MAX,
    ensures
        final(pixels)@ == percent_frame(old(pixels)@, *old(state), *params).0,
        final(pixels)@.len() == old(pixels)@.len(),
        *final(state) == percent_frame(old(pixels)@, *old(state), *params).1,
{
    let len = pixels.len();
    assert(len * (params.fill as usize) + 127 <= len * 255 + 127) by (nonlinear_arith)
        requires
            params.fill <= 255,
    ;
    let target = (len * (params.fill as usize) + 127) / 255;
    assert(target <= len) by (nonlinear_arith)
        requires
            target == (len * (params.fill as usize) + 127) / 255,
            params.fill <= 255,
    ;
    let c = state.counter as usize;
    let shown = if c < len {
        c
    } else {
        len
    };
    let lit = if shown < target {
        shown + 1
    } else if shown > target {
        shown - 1
    } else {
        shown
    };
    let mut i: usize = 0;
    while i < len
        invariant
            params.fits_palette(old(pixels)@.len()),
            old(pixels)@.len() * 255 + 127 <= usize::MAX,
            len == pixels@.len(),
            len == old(pixels)@.len(),
            i <= len,
            lit == percent_lit(old(state).counter, len as int, params.fill),
            forall|j: int|
                0 <= j < i ==> pixels@[j] == (if j >= lit {
                    params.colors[1]
                } else if params.one_color {
                    params.colors[0]
                } else {
                    params.primary_at_spec(j, len as int)
                }),
        decreases len - i,
    {
        let color = if i >= lit {
            params.colors[1]
        } else if params.one_color {
            params.colors[0]
        } else {
            params.primary_at(i, len)
        };
        pixels.set(i, color);
        i = i + 1;
    }
    assert(pixels@ =~= percent_frame(old(pixels)@, *old(state), *params).0);
    state.counter = lit as u32;
}

/// The colour and brightness [`wavesins`] draws at pixel `i`.
pub open spec fn wavesins_pixel(i: int, params: Params) -> RGB8 {
    let ph = phase_at(params.now_ms, params.rate);
    let sway = ph as u8;
    let ripple = (ph >> 1u32) as u8;
    let angle = sway.wrapping_add((i as u8).wrapping_mul(params.palette_step));
    let offset = (sin8_of(angle) * params.palette_span / 255) as u8;
    let color = params.wheel_spec(params.palette_start.wrapping_add(offset));
    let wave = sin8_of(ripple.wrapping_add((i as u8).wrapping_mul(3)));
    let dip = ((255 - wave) * params.variation / 255) as u8;
    dim_color(color, (255 - dip) as u8)
}

pub open spec fn wavesins_frame(pixels: Seq<RGB8>, state: EffectState, params: Params) -> Frame {
    (Seq::new(pixels.len(), |i: int| wavesins_pixel(i, params)), state)
}

/// Colors sway back and forth along the palette, or the hue wheel, while
/// brightness ripples across the strip.
pub fn wavesins(pixels: &mut Vec<RGB8>, state: &mut EffectState, params: &Params)
    requires
        params.fits_palette(old(pixels)@.len()),
    ensures
        final(pixels)@ == wavesins_frame(old(pixels)@, *old(state), *params).0,
        final(pixels)@.len() == old(pixels)@.len(),
        *final(state) == wavesins_frame(old(pixels)@, *old(state), *params).1,
{
    let ph = phase(params.now_ms, params.rate);
    let sway = ph as u8;
    let ripple = (ph >> 1u32) as u8;
    let step = params.palette_step as u32;
    let len = pixels.len();
    let mut i: usize = 0;
    while i < len
        invariant
            params.fits_palette(old(pixels)@.len()),
            len == pixels@.len(),
            len == old(pixels)@.len(),
            i <= len,
            sway == phase_at(params.now_ms, params.rate) as u8,
            ripple == (phase_at(params.now_ms, params.rate) >> 1u32) as u8,
            step == params.palette_step,
            forall|j: int| 0 <= j < i ==> pixels@[j] == wavesins_pixel(j, *params),
        decreases len - i,
    {
        let angle = sway.wrapping_add((i as u8).wrapping_mul(params.palette_step));
        let s = sine8(angle);
        assert((s as u16) * (params.palette_span as u16) <= 65025) by (nonlinear_arith)
            requires
                s <= 255,
                params.palette_span <= 255,
        ;
        let offset = ((s as u16) * (params.palette_span as u16) / 255) as u8;
        let color = params.wheel(params.palette_start.wrapping_add(offset));
        let wave = sine8(ripple.wrapping_add((i as u8).wrapping_mul(3)));
        assert(((255 - wave) as u16) * (params.variation as u16) <= 65025) by (nonlinear_arith)
            requires
                wave <= 255,
                params.variation <= 255,
        ;
        let dip = (((255 - wave) as u16) * (params.variation as u16) / 255) as u8;
        let c = dim(color, 255 - dip);
        pixels.set(i, c);
        i = i + 1;
    }
    assert(pixels@ =~= wavesins_frame(old(pixels)@, *old(state), *params).0);
}

/// Stripe and period lengths of [`solid_pattern`].
pub open spec fn stripe_width(width: u8) -> int {
    1 + (width / 16)
}

pub open spec fn solid_pattern_frame(pixels: Seq<RGB8>, state: EffectState, params: Params) -> Frame {
    let len = pixels.len() as int;
    let width = stripe_width(params.width);
    let period = width + params.gap / 16;
    (
        Seq::new(
            pixels.len(),
            |i: int|
                if i % period < width {
                    params.primary_at_spec(i, len)
                } else {
                    params.colors[1]
                },
        ),
        state,
    )
}

/// Stripes that stand still: `width` sets each stripe of the primary color
/// (following the palette), from 1 to 16 pixels, and `gap` the `colors[1]`
/// between them, from 0 to 15.
pub fn solid_pattern(pixels: &mut Vec<RGB8>, state: &mut EffectState, params: &Params)
    requires
        params.fits_palette(old(pixels)@.len()),
    ensures
        final(pixels)@ == solid_pattern_frame(old(pixels)@, *old(state), *params).0,
        final(pixels)@.len() == old(pixels)@.len(),
        *final(state) == solid_pattern_frame(old(pixels)@, *old(state), *params).1,
{
    let len = pixels.len();
    let width = 1 + ((params.width / 16) as usize);
    let period = width + ((params.gap / 16) as usize);
    let mut i: usize = 0;
    while i < len
        invariant
            params.fits_palette(old(pixels)@.len()),
            len == pixels@.len(),
            len == old(pixels)@.len(),
            i <= len,
            width == stripe_width(params.width),
            period == width + params.gap / 16,
            forall|j: int|
                0 <= j < i ==> pixels@[j] == (if j % (period as int) < width {
                    params.primary_at_spec(j, len as int)
                } else {
                    params.colors[1]
                }),
        decreases len - i,
    {
        let c = if i % period < width {
            params.primary_at(i, len)
        } else {
            params.colors[1]
        };
        pixels.set(i, c);
        i = i + 1;
    }
    assert(pixels@ =~= solid_pattern_frame(old(pixels)@, *old(state), *params).0);
}


/// The colour index and brightness of Lake's pixel `i`.
pub open spec fn lake_pixel(i: int, params: Params) -> RGB8 {
    let ph = phase_at(params.now_ms, params.rate);
    let first = sin8_of((i as u8).wrapping_mul(15).wrapping_add(ph as u8)) / 2;
    let second = sin8_of((i as u8).wrapping_mul(23).wrapping_add((ph >> 1u32) as u8)) / 2;
    let index = (first + second) as u8;
    let ebb = ((ph >> 2u32) as u8) / 3;
    dim_color(params.wheel_spec(index), if index > ebb { (index - ebb) as u8 } else { 0 })
}

pub open spec fn lake_frame(pixels: Seq<RGB8>, state: EffectState, params: Params) -> Frame {
    (Seq::new(pixels.len(), |i: int| lake_pixel(i, params)), state)
}

/// Two sine waves of the palette, or the hue wheel, rippling through each
/// other like light on a lake, darkening as the water ebbs. `rate` sets how
/// fast it moves.
pub fn lake(pixels: &mut Vec<RGB8>, state: &mut EffectState, params: &Params)
    ensures
        final(pixels)@ == lake_frame(old(pixels)@, *old(state), *params).0,
        final(pixels)@.len() == old(pixels)@.len(),
        *final(state) == lake_frame(old(pixels)@, *old(state), *params).1,
{
    let ph = phase(params.now_ms, params.rate);
    let len = pixels.len();
    let mut i: usize = 0;
    while i < len
        invariant
            len == pixels@.len(),
            len == old(pixels)@.len(),
            i <= len,
            ph == phase_at(params.now_ms, params.rate),
            forall|j: int| 0 <= j < i ==> pixels@[j] == lake_pixel(j, *params),
        decreases len - i,
    {
        let at = i as u8;
        let first = sine8(at.wrapping_mul(15).wrapping_add(ph as u8)) / 2;
        let second = sine8(at.wrapping_mul(23).wrapping_add((ph >> 1u32) as u8)) / 2;
        let index = first + second;
        let ebb = ((ph >> 2u32) as u8) / 3;
        let level = if index > ebb {
            index - ebb
        } else {
            0
        };
        pixels.set(i, dim(params.wheel(index), level));
        i = i + 1;
    }
    assert(pixels@ =~= lake_frame(old(pixels)@, *old(state), *params).0);
}

/// The colour index and brightness of Plasma's pixel `i`.
pub open spec fn plasma_pixel(i: int, params: Params) -> RGB8 {
    let ph = phase_at(params.now_ms, params.rate);
    let k = params.scale / 32;
    let first = sin8_of((i as u8).wrapping_mul((2 + 3 * k) as u8).wrapping_add(ph as u8)) / 2;
    let second = sin8_of((i as u8).wrapping_mul((1 + 2 * k) as u8).wrapping_add((ph >> 1u32) as u8)) / 2;
    let index = (first + second) as u8;
    let dip = sin8_of((ph >> 1u32) as u8) / 2;
    dim_color(params.wheel_spec(index), if index > dip { (index - dip) as u8 } else { 0 })
}

pub open spec fn plasma_frame(pixels: Seq<RGB8>, state: EffectState, params: Params) -> Frame {
    (Seq::new(pixels.len(), |i: int| plasma_pixel(i, params)), state)
}

/// Two sine waves of the palette, or the hue wheel, of different lengths
/// drifting through each other, with the brightness pulsing. `rate` sets how
/// fast they drift and `scale` how tightly they repeat.
pub fn plasma(pixels: &mut Vec<RGB8>, state: &mut EffectState, params: &Params)
    ensures
        final(pixels)@ == plasma_frame(old(pixels)@, *old(state), *params).0,
        final(pixels)@.len() == old(pixels)@.len(),
        *final(state) == plasma_frame(old(pixels)@, *old(state), *params).1,
{
    let ph = phase(params.now_ms, params.rate);
    let k = params.scale / 32;
    let m1 = 2 + 3 * k;
    let m2 = 1 + 2 * k;
    let dip = sine8((ph >> 1u32) as u8) / 2;
    let len = pixels.len();
    let mut i: usize = 0;
    while i < len
        invariant
            len == pixels@.len(),
            len == old(pixels)@.len(),
            i <= len,
            ph == phase_at(params.now_ms, params.rate),
            k == params.scale / 32,
            m1 == 2 + 3 * k,
            m2 == 1 + 2 * k,
            dip == sin8_of((ph >> 1u32) as u8) / 2,
            forall|j: int| 0 <= j < i ==> pixels@[j] == plasma_pixel(j, *params),
        decreases len - i,
    {
        let at = i as u8;
        let first = sine8(at.wrapping_mul(m1).wrapping_add(ph as u8)) / 2;
        let second = sine8(at.wrapping_mul(m2).wrapping_add((ph >> 1u32) as u8)) / 2;
        let index = first + second;
        let level = if index > dip {
            index - dip
        } else {
            0
        };
        pixels.set(i, dim(params.wheel(index), level));
        i = i + 1;
    }
    assert(pixels@ =~= plasma_frame(old(pixels)@, *old(state), *params).0);
}

/// Twinkle Up's pixel `i`: lit for a share of the pixels set by
/// `intensity`, each swelling and fading on a phase of its own.
pub open spec fn twinkle_up_pixel(i: int, params: Params) -> RGB8 {
    let h = hash32_of(i as u32);
    let ph = phase_at(params.now_ms, params.rate);
    if ((h >> 8u32) as u8) <= params.intensity {
        dim_color(params.wheel_spec((h >> 16u32) as u8), sin8_of((h as u8).wrapping_add(ph as u8)))
    } else {
        params.colors[1]
    }
}

pub open spec fn twinkle_up_frame(pixels: Seq<RGB8>, state: EffectState, params: Params) -> Frame {
    (Seq::new(pixels.len(), |i: int| twinkle_up_pixel(i, params)), state)
}

/// Pixels of the palette, or the hue wheel, slowly swelling up and fading
/// over `colors[1]`, each on its own phase. `intensity` sets how many twinkle
/// and `rate` how fast.
pub fn twinkle_up(pixels: &mut Vec<RGB8>, state: &mut EffectState, params: &Params)
    ensures
        final(pixels)@ == twinkle_up_frame(old(pixels)@, *old(state), *params).0,
        final(pixels)@.len() == old(pixels)@.len(),
        *final(state) == twinkle_up_frame(old(pixels)@, *old(state), *params).1,
{
    let ph = phase(params.now_ms, params.rate);
    let len = pixels.len();
    let mut i: usize = 0;
    while i < len
        invariant
            len == pixels@.len(),
            len == old(pixels)@.len(),
            i <= len,
            ph == phase_at(params.now_ms, params.rate),
            forall|j: int| 0 <= j < i ==> pixels@[j] == twinkle_up_pixel(j, *params),
        decreases len - i,
    {
        let h = hash32(i as u32);
        let c = if ((h >> 8u32) as u8) <= params.intensity {
            dim(params.wheel((h >> 16u32) as u8), sine8((h as u8).wrapping_add(ph as u8)))
        } else {
            params.colors[1]
        };
        pixels.set(i, c);
        i = i + 1;
    }
    assert(pixels@ =~= twinkle_up_frame(old(pixels)@, *old(state), *params).0);
}

pub open spec fn solid_pattern_tri_frame(pixels: Seq<RGB8>, state: EffectState, params: Params) -> Frame {
    let width = stripe_width(params.width);
    (Seq::new(pixels.len(), |i: int| params.colors[(i / width) % 3]), state)
}

/// Stripes of `colors[0]`, `colors[1]` and `colors[2]` in turn that stand
/// still, each from 1 to 16 pixels wide as `width` sets.
pub fn solid_pattern_tri(pixels: &mut Vec<RGB8>, state: &mut EffectState, params: &Params)
    ensures
        final(pixels)@ == solid_pattern_tri_frame(old(pixels)@, *old(state), *params).0,
        final(pixels)@.len() == old(pixels)@.len(),
        *final(state) == solid_pattern_tri_frame(old(pixels)@, *old(state), *params).1,
{
    let len = pixels.len();
    let width = 1 + ((params.width / 16) as usize);
    let mut i: usize = 0;
    while i < len
        invariant
            len == pixels@.len(),
            len == old(pixels)@.len(),
            i <= len,
            width == stripe_width(params.width),
            forall|j: int| 0 <= j < i ==> pixels@[j] == params.colors[(j / (width as int)) % 3],
        decreases len - i,
    {
        let c = params.colors[(i / width) % 3];
        pixels.set(i, c);
        i = i + 1;
    }
    assert(pixels@ =~= solid_pattern_tri_frame(old(pixels)@, *old(state), *params).0);
}

} // verus!
