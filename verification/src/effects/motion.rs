//! Patterns that travel along the strip: bands, streams, spots and wipes.
//!
//! All but Tri Wipe are time-driven: they draw from [`Params::now_ms`] and move
//! at [`Params::rate`], so they move smoothly however often they are stepped.

use vstd::prelude::*;

use crate::effects::Frame;
use crate::effects::color::ticked;
use crate::params::Params;
use crate::pixel::RGB8;
use crate::segment::EffectState;
use crate::utils::{
    blend_color, color_blend, color_is_black, hash32, hash32_of, is_black, pattern_at,
    pattern_position, phase, phase_at, sin8_of, sine8, travel, travel_at, triwave,
    triwave8,
};

verus! {

/// The level of pixel `i` in [`saw`]'s bands.
pub open spec fn saw_level(i: int, params: Params) -> u8 {
    let period = 2 + params.width / 8;
    let at = pattern_at(i, travel_at(params.now_ms, params.rate), period);
    (at * 255 / (period - 1)) as u8
}

pub open spec fn saw_frame(pixels: Seq<RGB8>, state: EffectState, params: Params) -> Frame {
    let len = pixels.len() as int;
    (
        Seq::new(
            pixels.len(),
            |i: int| blend_color(params.colors[1], params.primary_at_spec(i, len), saw_level(i, params)),
        ),
        state,
    )
}

/// Sawtooth bands travelling along the strip: each rises from `colors[1]` to
/// the primary color and drops back. `width` sets each band, from 2 to 33
/// pixels.
pub fn saw(pixels: &mut Vec<RGB8>, state: &mut EffectState, params: &Params)
    requires
        params.fits_palette(old(pixels)@.len()),
        old(pixels)@.len() <= u32::MAX,
    ensures
        final(pixels)@ == saw_frame(old(pixels)@, *old(state), *params).0,
        final(pixels)@.len() == old(pixels)@.len(),
        *final(state) == saw_frame(old(pixels)@, *old(state), *params).1,
{
    let len = pixels.len();
    let period = 2 + ((params.width / 8) as usize);
    let moved = travel(params.now_ms, params.rate);
    let mut i: usize = 0;
    while i < len
        invariant
            params.fits_palette(old(pixels)@.len()),
            len == pixels@.len(),
            len == old(pixels)@.len(),
            len <= u32::MAX,
            i <= len,
            period == 2 + params.width / 8,
            moved == travel_at(params.now_ms, params.rate),
            forall|j: int|
                0 <= j < i ==> pixels@[j] == blend_color(
                    params.colors[1],
                    params.primary_at_spec(j, len as int),
                    saw_level(j, *params),
                ),
        decreases len - i,
    {
        let at = pattern_position(i, moved, period);
        assert(at * 255 / (period - 1) <= 255) by (nonlinear_arith)
            requires
                at < period,
                period >= 2,
        ;
        let level = (at * 255 / (period - 1)) as u8;
        let c = color_blend(params.colors[1], params.primary_at(i, len), level);
        pixels.set(i, c);
        i = i + 1;
    }
    assert(pixels@ =~= saw_frame(old(pixels)@, *old(state), *params).0);
}

pub open spec fn bands_frame(pixels: Seq<RGB8>, state: EffectState, params: Params) -> Frame {
    let len = pixels.len() as int;
    let band = 1 + params.width / 16;
    let moved = travel_at(params.now_ms, params.rate);
    (
        Seq::new(
            pixels.len(),
            |i: int|
                if pattern_at(i, moved, band * 2) < band {
                    params.primary_at_spec(i, len)
                } else {
                    params.colors[1]
                },
        ),
        state,
    )
}

/// Alternating bands of the primary color and `colors[1]` travelling along the
/// strip. `width` sets each band, from 1 to 16 pixels.
pub fn bands(pixels: &mut Vec<RGB8>, state: &mut EffectState, params: &Params)
    requires
        params.fits_palette(old(pixels)@.len()),
        old(pixels)@.len() <= u32::MAX,
    ensures
        final(pixels)@ == bands_frame(old(pixels)@, *old(state), *params).0,
        final(pixels)@.len() == old(pixels)@.len(),
        *final(state) == bands_frame(old(pixels)@, *old(state), *params).1,
{
    let len = pixels.len();
    let band = 1 + ((params.width / 16) as usize);
    let moved = travel(params.now_ms, params.rate);
    let mut i: usize = 0;
    while i < len
        invariant
            params.fits_palette(old(pixels)@.len()),
            len == pixels@.len(),
            len == old(pixels)@.len(),
            len <= u32::MAX,
            i <= len,
            band == 1 + params.width / 16,
            moved == travel_at(params.now_ms, params.rate),
            forall|j: int|
                0 <= j < i ==> pixels@[j] == (if pattern_at(j, moved, band * 2) < band {
                    params.primary_at_spec(j, len as int)
                } else {
                    params.colors[1]
                }),
        decreases len - i,
    {
        let c = if pattern_position(i, moved, band * 2) < band {
            params.primary_at(i, len)
        } else {
            params.colors[1]
        };
        pixels.set(i, c);
        i = i + 1;
    }
    assert(pixels@ =~= bands_frame(old(pixels)@, *old(state), *params).0);
}

/// The zone pixel `i` falls in once a stream of `zone`-pixel zones has moved
/// `moved` pixels, counted from far ahead so it never goes below zero.
pub open spec fn stream_zone(i: int, moved: u64, zone: int) -> u32 {
    ((i + 0x1_0000_0000 - moved) / zone) as u32
}

pub open spec fn stream_frame(pixels: Seq<RGB8>, state: EffectState, params: Params) -> Frame {
    let zone = 1 + params.width / 16;
    let moved = travel_at(params.now_ms, params.rate);
    (
        Seq::new(pixels.len(), |i: int| params.wheel_spec(hash32_of(stream_zone(i, moved, zone)) as u8)),
        state,
    )
}

/// [`travel`] never reaches 2^26, so counting from 2^32 ahead stays positive.
proof fn lemma_travel_small(now_ms: u32, rate: u8)
    ensures
        travel_at(now_ms, rate) < 0x400_0000,
{
    assert(now_ms * (rate + 1) <= 0xFFFF_FFFF * 256) by (nonlinear_arith)
        requires
            now_ms <= 0xFFFF_FFFF,
            rate <= 255,
    ;
}

/// Zones of random colors — from the palette, or the hue wheel — flowing along
/// the strip. `width` sets each zone, from 1 to 16 pixels.
pub fn stream(pixels: &mut Vec<RGB8>, state: &mut EffectState, params: &Params)
    requires
        params.fits_palette(old(pixels)@.len()),
        old(pixels)@.len() <= u32::MAX,
    ensures
        final(pixels)@ == stream_frame(old(pixels)@, *old(state), *params).0,
        final(pixels)@.len() == old(pixels)@.len(),
        *final(state) == stream_frame(old(pixels)@, *old(state), *params).1,
{
    let zone = 1 + ((params.width / 16) as u64);
    let moved = travel(params.now_ms, params.rate);
    proof {
        lemma_travel_small(params.now_ms, params.rate);
    }
    let len = pixels.len();
    let mut i: usize = 0;
    while i < len
        invariant
            params.fits_palette(old(pixels)@.len()),
            len == pixels@.len(),
            len == old(pixels)@.len(),
            len <= u32::MAX,
            i <= len,
            zone == 1 + params.width / 16,
            moved == travel_at(params.now_ms, params.rate),
            moved < 0x400_0000,
            forall|j: int|
                0 <= j < i ==> pixels@[j] == params.wheel_spec(
                    hash32_of(stream_zone(j, moved, zone as int)) as u8,
                ),
        decreases len - i,
    {
        let index = ((i as u64) + 0x1_0000_0000u64 - moved) / zone;
        let c = params.wheel(hash32(index as u32) as u8);
        pixels.set(i, c);
        i = i + 1;
    }
    assert(pixels@ =~= stream_frame(old(pixels)@, *old(state), *params).0);
}

/// The colour whose red, green and blue are bytes 2, 1 and 0 of `x`.
pub open spec fn hashed_color(x: u32) -> RGB8 {
    RGB8 { r: (x >> 16u32) as u8, g: (x >> 8u32) as u8, b: x as u8 }
}

pub open spec fn stream2_frame(pixels: Seq<RGB8>, state: EffectState, params: Params) -> Frame {
    let moved = travel_at(params.now_ms, params.rate);
    (Seq::new(pixels.len(), |i: int| hashed_color(hash32_of(stream_zone(i, moved, 4)))), state)
}

/// Zones of four pixels flowing along the strip, each a random red, green and
/// blue of its own rather than a color from the palette.
pub fn stream2(pixels: &mut Vec<RGB8>, state: &mut EffectState, params: &Params)
    requires
        params.fits_palette(old(pixels)@.len()),
        old(pixels)@.len() <= u32::MAX,
    ensures
        final(pixels)@ == stream2_frame(old(pixels)@, *old(state), *params).0,
        final(pixels)@.len() == old(pixels)@.len(),
        *final(state) == stream2_frame(old(pixels)@, *old(state), *params).1,
{
    let moved = travel(params.now_ms, params.rate);
    proof {
        lemma_travel_small(params.now_ms, params.rate);
    }
    let len = pixels.len();
    let mut i: usize = 0;
    while i < len
        invariant
            params.fits_palette(old(pixels)@.len()),
            len == pixels@.len(),
            len == old(pixels)@.len(),
            len <= u32::MAX,
            i <= len,
            moved == travel_at(params.now_ms, params.rate),
            moved < 0x400_0000,
            forall|j: int| 0 <= j < i ==> pixels@[j] == hashed_color(hash32_of(stream_zone(j, moved, 4))),
        decreases len - i,
    {
        let zone = hash32((((i as u64) + 0x1_0000_0000u64 - moved) / 4) as u32);
        pixels.set(i, RGB8 { r: (zone >> 16u32) as u8, g: (zone >> 8u32) as u8, b: zone as u8 });
        i = i + 1;
    }
    assert(pixels@ =~= stream2_frame(old(pixels)@, *old(state), *params).0);
}

/// `255 - x`, stopping at zero.
pub open spec fn fall_off(x: int) -> u8 {
    if 255 - x > 0 {
        (255 - x) as u8
    } else {
        0
    }
}

/// The glow of [`gradient`] at pixel `i` of `len`.
pub open spec fn gradient_level(i: int, len: int, params: Params) -> u8 {
    let sweep = triwave(phase_at(params.now_ms, params.rate) as u8);
    let centre = sweep * (len - 1) / 255;
    let reach = 1 + len * params.spread / 255;
    let dist = if i >= centre {
        i - centre
    } else {
        centre - i
    };
    fall_off(dist * 255 / reach)
}

pub open spec fn gradient_frame(pixels: Seq<RGB8>, state: EffectState, params: Params) -> Frame {
    let len = pixels.len() as int;
    (
        Seq::new(
            pixels.len(),
            |i: int|
                blend_color(params.colors[1], params.primary_at_spec(i, len), gradient_level(i, len, params)),
        ),
        state,
    )
}

/// A soft spot of the primary color gliding back and forth over `colors[1]`.
/// `spread` sets how far its glow reaches, from a pixel to the whole strip.
pub fn gradient(pixels: &mut Vec<RGB8>, state: &mut EffectState, params: &Params)
    requires
        old(pixels)@.len() > 0,
        old(pixels)@.len() * 255 <= usize::MAX,
    ensures
        final(pixels)@ == gradient_frame(old(pixels)@, *old(state), *params).0,
        final(pixels)@.len() == old(pixels)@.len(),
        *final(state) == gradient_frame(old(pixels)@, *old(state), *params).1,
{
    let len = pixels.len();
    let sweep = triwave8(phase(params.now_ms, params.rate) as u8);
    assert((sweep as usize) * (len - 1) <= len * 255) by (nonlinear_arith)
        requires
            sweep <= 255,
            len >= 1,
    ;
    let centre = (sweep as usize) * (len - 1) / 255;
    assert(len * (params.spread as usize) <= len * 255) by (nonlinear_arith)
        requires
            params.spread <= 255,
    ;
    let reach = 1 + len * (params.spread as usize) / 255;
    assert(centre <= len - 1) by (nonlinear_arith)
        requires
            centre == (sweep as usize) * (len - 1) / 255,
            sweep <= 255,
            len >= 1,
    ;
    let mut i: usize = 0;
    while i < len
        invariant
            len == pixels@.len(),
            len == old(pixels)@.len(),
            len > 0,
            len * 255 <= usize::MAX,
            i <= len,
            centre < len,
            sweep == triwave(phase_at(params.now_ms, params.rate) as u8),
            centre == sweep * (len - 1) / 255,
            reach == 1 + len * params.spread / 255,
            forall|j: int|
                0 <= j < i ==> pixels@[j] == blend_color(
                    params.colors[1],
                    params.primary_at_spec(j, len as int),
                    gradient_level(j, len as int, *params),
                ),
        decreases len - i,
    {
        let dist = if i >= centre {
            i - centre
        } else {
            centre - i
        };
        assert(dist * 255 <= len * 255) by (nonlinear_arith)
            requires
                dist < len,
        ;
        let level = 255usize.saturating_sub(dist * 255 / reach) as u8;
        let c = color_blend(params.colors[1], params.primary_at(i, len), level);
        pixels.set(i, c);
        i = i + 1;
    }
    assert(pixels@ =~= gradient_frame(old(pixels)@, *old(state), *params).0);
}

/// The level of [`loading`] at pixel `i` of `len`.
pub open spec fn loading_level(i: int, len: int, params: Params) -> u8 {
    let head = (phase_at(params.now_ms, params.rate) as u8) * len / 256;
    let tail = 1 + len * params.spread / 255;
    let behind = (head + len - i) % len;
    fall_off(behind * 255 / tail)
}

pub open spec fn loading_frame(pixels: Seq<RGB8>, state: EffectState, params: Params) -> Frame {
    let len = pixels.len() as int;
    (
        Seq::new(
            pixels.len(),
            |i: int|
                blend_color(params.colors[1], params.primary_at_spec(i, len), loading_level(i, len, params)),
        ),
        state,
    )
}

/// A head sweeping from the start of the strip to the end, over and over, the
/// primary color fading into `colors[1]` behind it. `spread` sets how long
/// the tail is.
pub fn loading(pixels: &mut Vec<RGB8>, state: &mut EffectState, params: &Params)
    requires
        old(pixels)@.len() * 255 <= usize::MAX,
    ensures
        final(pixels)@ == loading_frame(old(pixels)@, *old(state), *params).0,
        final(pixels)@.len() == old(pixels)@.len(),
        *final(state) == loading_frame(old(pixels)@, *old(state), *params).1,
{
    let len = pixels.len();
    let p = phase(params.now_ms, params.rate) as u8;
    assert((p as usize) * len <= len * 255) by (nonlinear_arith)
        requires
            p <= 255,
    ;
    let head = (p as usize) * len / 256;
    assert(len >= 1 ==> head < len) by (nonlinear_arith)
        requires
            head == (p as usize) * len / 256,
            p <= 255,
    ;
    assert(len * (params.spread as usize) <= len * 255) by (nonlinear_arith)
        requires
            params.spread <= 255,
    ;
    let tail = 1 + len * (params.spread as usize) / 255;
    let mut i: usize = 0;
    while i < len
        invariant
            len == pixels@.len(),
            len == old(pixels)@.len(),
            len * 255 <= usize::MAX,
            i <= len,
            len >= 1 ==> head < len,
            head == (phase_at(params.now_ms, params.rate) as u8) * len / 256,
            tail == 1 + len * params.spread / 255,
            forall|j: int|
                0 <= j < i ==> pixels@[j] == blend_color(
                    params.colors[1],
                    params.primary_at_spec(j, len as int),
                    loading_level(j, len as int, *params),
                ),
        decreases len - i,
    {
        let behind = (head + len - i) % len;
        assert(behind * 255 <= len * 255) by (nonlinear_arith)
            requires
                behind < len,
        ;
        let level = 255usize.saturating_sub(behind * 255 / tail) as u8;
        let c = color_blend(params.colors[1], params.primary_at(i, len), level);
        pixels.set(i, c);
        i = i + 1;
    }
    assert(pixels@ =~= loading_frame(old(pixels)@, *old(state), *params).0);
}

/// The colour [`running_dual`] draws at pixel `i` of `len`.
pub open spec fn running_dual_pixel(i: int, len: int, params: Params) -> RGB8 {
    let offset = phase_at(params.now_ms, params.rate) as u8;
    let step = (params.scale / 16 + 1) as u8;
    let angle = (i as u8).wrapping_mul(step);
    let left = params.primary_at_spec(i, len);
    let right = if is_black(params.colors[2]) {
        left
    } else {
        params.colors[2]
    };
    let forward = sin8_of(angle.wrapping_add(offset));
    let backward = sin8_of(angle.wrapping_sub(offset));
    blend_color(blend_color(params.colors[1], left, forward), right, backward / 2)
}

pub open spec fn running_dual_frame(pixels: Seq<RGB8>, state: EffectState, params: Params) -> Frame {
    let len = pixels.len() as int;
    (Seq::new(pixels.len(), |i: int| running_dual_pixel(i, len, params)), state)
}

/// Two sine waves running through each other in opposite directions over
/// `colors[1]`: one in the primary color, one in `colors[2]` — or the primary
/// again while that is black. `scale` sets how tightly the waves repeat.
pub fn running_dual(pixels: &mut Vec<RGB8>, state: &mut EffectState, params: &Params)
    requires
        params.fits_palette(old(pixels)@.len()),
    ensures
        final(pixels)@ == running_dual_frame(old(pixels)@, *old(state), *params).0,
        final(pixels)@.len() == old(pixels)@.len(),
        *final(state) == running_dual_frame(old(pixels)@, *old(state), *params).1,
{
    let len = pixels.len();
    let offset = phase(params.now_ms, params.rate) as u8;
    let step = params.scale / 16 + 1;
    let mut i: usize = 0;
    while i < len
        invariant
            params.fits_palette(old(pixels)@.len()),
            len == pixels@.len(),
            len == old(pixels)@.len(),
            i <= len,
            offset == phase_at(params.now_ms, params.rate) as u8,
            step == params.scale / 16 + 1,
            forall|j: int| 0 <= j < i ==> pixels@[j] == running_dual_pixel(j, len as int, *params),
        decreases len - i,
    {
        let angle = (i as u8).wrapping_mul(step);
        let left = params.primary_at(i, len);
        let right = if color_is_black(params.colors[2]) {
            left
        } else {
            params.colors[2]
        };
        let forward = sine8(angle.wrapping_add(offset));
        let backward = sine8(angle.wrapping_sub(offset));
        let color = color_blend(params.colors[1], left, forward);
        pixels.set(i, color_blend(color, right, backward / 2));
        i = i + 1;
    }
    assert(pixels@ =~= running_dual_frame(old(pixels)@, *old(state), *params).0);
}

/// The colour of [`tri_wipe`]'s stage `stage` at pixel `i` of `len`.
pub open spec fn tri_wipe_color(stage: int, i: int, len: int, params: Params) -> RGB8 {
    let slot = stage % 3;
    if slot == 0 {
        params.primary_at_spec(i, len)
    } else {
        params.colors[slot]
    }
}

pub open spec fn tri_wipe_frame(pixels: Seq<RGB8>, state: EffectState, params: Params) -> Frame {
    let len = pixels.len() as int;
    let position = (state.counter as int) % (len * 3);
    let stage = position / len;
    let reached = position % len;
    (
        Seq::new(
            pixels.len(),
            |i: int|
                tri_wipe_color(
                    if i <= reached {
                        stage
                    } else {
                        stage + 2
                    },
                    i,
                    len,
                    params,
                ),
        ),
        ticked(state),
    )
}

/// Wipes the primary color, then `colors[1]`, then `colors[2]` across the
/// strip, each over the last, one pixel per step.
pub fn tri_wipe(pixels: &mut Vec<RGB8>, state: &mut EffectState, params: &Params)
    requires
        params.fits_palette(old(pixels)@.len()),
        old(pixels)@.len() > 0,
        old(pixels)@.len() * 3 <= usize::MAX,
    ensures
        final(pixels)@ == tri_wipe_frame(old(pixels)@, *old(state), *params).0,
        final(pixels)@.len() == old(pixels)@.len(),
        *final(state) == tri_wipe_frame(old(pixels)@, *old(state), *params).1,
{
    let len = pixels.len();
    let position = state.counter as usize % (len * 3);
    let stage = position / len;
    let reached = position % len;
    assert(stage < 3) by (nonlinear_arith)
        requires
            stage == position / len,
            position < len * 3,
            len > 0,
    ;
    let mut i: usize = 0;
    while i < len
        invariant
            params.fits_palette(old(pixels)@.len()),
            len == pixels@.len(),
            len == old(pixels)@.len(),
            len > 0,
            i <= len,
            stage < 3,
            position == (old(state).counter as int) % (len * 3),
            stage == position / len,
            reached == position % len,
            forall|j: int|
                0 <= j < i ==> pixels@[j] == tri_wipe_color(
                    if j <= reached {
                        stage as int
                    } else {
                        stage + 2
                    },
                    j,
                    len as int,
                    *params,
                ),
        decreases len - i,
    {
        let shown = if i <= reached {
            stage
        } else {
            stage + 2
        };
        let slot = shown % 3;
        let c = if slot == 0 {
            params.primary_at(i, len)
        } else {
            params.colors[slot]
        };
        pixels.set(i, c);
        i = i + 1;
    }
    assert(pixels@ =~= tri_wipe_frame(old(pixels)@, *old(state), *params).0);
    state.counter = state.counter.wrapping_add(1);
}

/// The zone length of [`flow`] on a strip of `len`.
pub open spec fn flow_zone_len(len: int, count: u8) -> int {
    let zones = 1 + count / 32;
    let z = (len + zones - 1) / zones;
    if z < 1 {
        1
    } else {
        z
    }
}

/// The palette or wheel position [`flow`] draws at pixel `i`.
pub open spec fn flow_index(i: int, len: int, params: Params) -> u8 {
    let zone_len = flow_zone_len(len, params.count);
    let offset = phase_at(params.now_ms, params.rate) as u8;
    let along = ((i % zone_len) * 255 / zone_len) as u8;
    if (i / zone_len) % 2 == 0 {
        along.wrapping_add(offset)
    } else {
        along.wrapping_sub(offset)
    }
}

pub open spec fn flow_frame(pixels: Seq<RGB8>, state: EffectState, params: Params) -> Frame {
    let len = pixels.len() as int;
    (Seq::new(pixels.len(), |i: int| params.wheel_spec(flow_index(i, len, params))), state)
}

/// The palette, or the hue wheel, flowing along the strip in zones that
/// alternate direction. `count` sets how many zones, from 1 to 8.
pub fn flow(pixels: &mut Vec<RGB8>, state: &mut EffectState, params: &Params)
    requires
        old(pixels)@.len() * 255 <= usize::MAX,
    ensures
        final(pixels)@ == flow_frame(old(pixels)@, *old(state), *params).0,
        final(pixels)@.len() == old(pixels)@.len(),
        *final(state) == flow_frame(old(pixels)@, *old(state), *params).1,
{
    let len = pixels.len();
    let zones = 1 + ((params.count / 32) as usize);
    let z = (len + zones - 1) / zones;
    let zone_len = if z < 1 {
        1
    } else {
        z
    };
    assert(len >= 1 ==> zone_len <= len) by (nonlinear_arith)
        requires
            1 <= zones <= 8,
            z == (len + zones - 1) / (zones as int),
            zone_len == (if z < 1 { 1 } else { z }),
    ;
    let offset = phase(params.now_ms, params.rate) as u8;
    let mut i: usize = 0;
    while i < len
        invariant
            len == pixels@.len(),
            len == old(pixels)@.len(),
            len * 255 <= usize::MAX,
            len >= 1 ==> zone_len <= len,
            i <= len,
            zone_len == flow_zone_len(len as int, params.count),
            zone_len >= 1,
            offset == phase_at(params.now_ms, params.rate) as u8,
            forall|j: int| 0 <= j < i ==> pixels@[j] == params.wheel_spec(flow_index(j, len as int, *params)),
        decreases len - i,
    {
        let m = i % zone_len;
        assert(m * 255 <= len * 255) by (nonlinear_arith)
            requires
                m < zone_len,
                zone_len <= len,
        ;
        assert(m * 255 / (zone_len as int) <= 255) by (nonlinear_arith)
            requires
                m < zone_len,
        ;
        let along = (m * 255 / zone_len) as u8;
        let index = if (i / zone_len) % 2 == 0 {
            along.wrapping_add(offset)
        } else {
            along.wrapping_sub(offset)
        };
        pixels.set(i, params.wheel(index));
        i = i + 1;
    }
    assert(pixels@ =~= flow_frame(old(pixels)@, *old(state), *params).0);
}

/// The crossing level of [`railway`]'s even pixels.
pub open spec fn railway_level(params: Params) -> u8 {
    let wave = triwave(phase_at(params.now_ms, params.rate) as u8) as int;
    let steepness = 1 + (255 - params.smoothness) / 16;
    let v = 128 + (wave - 128) * steepness;
    (if v < 0 {
        0
    } else if v > 255 {
        255
    } else {
        v
    }) as u8
}

pub open spec fn railway_frame(pixels: Seq<RGB8>, state: EffectState, params: Params) -> Frame {
    let len = pixels.len() as int;
    let level = railway_level(params);
    (
        Seq::new(
            pixels.len(),
            |i: int|
                blend_color(
                    params.colors[1],
                    params.primary_at_spec(i, len),
                    if i % 2 == 0 {
                        level
                    } else {
                        (255 - level) as u8
                    },
                ),
        ),
        state,
    )
}

/// Every other pixel crossfading between the primary color and `colors[1]`,
/// like the lights at a level crossing. `smoothness` sets how gradual the
/// crossover is: a sharp swap at `0`, a slow fade at `255`.
pub fn railway(pixels: &mut Vec<RGB8>, state: &mut EffectState, params: &Params)
    requires
        params.fits_palette(old(pixels)@.len()),
    ensures
        final(pixels)@ == railway_frame(old(pixels)@, *old(state), *params).0,
        final(pixels)@.len() == old(pixels)@.len(),
        *final(state) == railway_frame(old(pixels)@, *old(state), *params).1,
{
    let len = pixels.len();
    let wave = triwave8(phase(params.now_ms, params.rate) as u8) as i32;
    let steepness = 1 + ((255 - params.smoothness) as i32) / 16;
    assert(-128 * 16 <= (wave - 128) * steepness <= 127 * 16) by (nonlinear_arith)
        requires
            0 <= wave <= 255,
            1 <= steepness <= 16,
    ;
    let v = 128 + (wave - 128) * steepness;
    let level = (if v < 0 {
        0
    } else if v > 255 {
        255
    } else {
        v
    }) as u8;
    let mut i: usize = 0;
    while i < len
        invariant
            params.fits_palette(old(pixels)@.len()),
            len == pixels@.len(),
            len == old(pixels)@.len(),
            i <= len,
            level == railway_level(*params),
            forall|j: int|
                0 <= j < i ==> pixels@[j] == blend_color(
                    params.colors[1],
                    params.primary_at_spec(j, len as int),
                    if j % 2 == 0 {
                        level
                    } else {
                        (255 - level) as u8
                    },
                ),
        decreases len - i,
    {
        let l = if i % 2 == 0 {
            level
        } else {
            255 - level
        };
        let c = color_blend(params.colors[1], params.primary_at(i, len), l);
        pixels.set(i, c);
        i = i + 1;
    }
    assert(pixels@ =~= railway_frame(old(pixels)@, *old(state), *params).0);
}

} // verus!
