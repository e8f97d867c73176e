//! Scanners and comets: bright heads leaving fading trails.

use vstd::prelude::*;

use crate::effects::Frame;
use crate::effects::color::ticked;
use crate::params::Params;
use crate::pixel::RGB8;
use crate::segment::EffectState;
use crate::utils::{
    scaled, scaled_value,
    black, color_is_black, color_wheel, fade_out, faded, is_black, next_rand, next_rand_of, rgb_of,
    wheel_color,
};

verus! {

/// `pixels` faded toward black, as the scanners do first: a quarter of the
/// way at the default intensity, faster — a shorter trail — as it rises.
pub open spec fn trail(pixels: Seq<RGB8>, intensity: u8) -> Seq<RGB8> {
    faded(pixels, rgb_of(0, 0, 0), scaled_value(64, intensity))
}

/// Where the Larson scanner's head is at `counter` on a strip of `len`.
pub open spec fn larson_pos(counter: u32, len: int) -> int {
    let total = if len * 2 - 2 > 0 {
        len * 2 - 2
    } else {
        0
    };
    let step = (counter as int) % (if total < 1 {
        1
    } else {
        total
    });
    if step < len {
        step
    } else {
        total - step
    }
}

pub open spec fn larson_scanner_frame(pixels: Seq<RGB8>, state: EffectState, params: Params) -> Frame {
    let pos = larson_pos(state.counter, pixels.len() as int);
    let faded = trail(pixels, params.intensity);
    (if pos < pixels.len() { faded.update(pos, params.colors[0]) } else { faded }, ticked(state))
}

/// Knight Rider / Cylon scanner: one bright dot with a fading trail.
pub fn larson_scanner(pixels: &mut Vec<RGB8>, state: &mut EffectState, params: &Params)
    requires
        old(pixels)@.len() * 2 <= usize::MAX,
    ensures
        final(pixels)@ == larson_scanner_frame(old(pixels)@, *old(state), *params).0,
        final(pixels)@.len() == old(pixels)@.len(),
        *final(state) == larson_scanner_frame(old(pixels)@, *old(state), *params).1,
{
    let rate = scaled(64, params.intensity);
    fade_out(pixels, black(), rate);
    let len = pixels.len();
    let total = (len * 2).saturating_sub(2);
    let step = state.counter as usize % (if total < 1 {
        1
    } else {
        total
    });
    let pos = if step < len {
        step
    } else {
        total - step
    };
    if pos < len {
        pixels.set(pos, params.colors[0]);
    }
    state.counter = state.counter.wrapping_add(1);
}

/// The states the bouncing scanners can step from: going forward, the
/// counter can still advance.
pub open spec fn larson_accepts(state: EffectState) -> bool {
    state.aux & 1u32 != 0 || state.counter < u32::MAX
}

/// Flipping bit 0 of `aux` changes whether it is set.
pub proof fn lemma_flip_low_bit(aux: u32)
    by (bit_vector)
    ensures
        ((aux ^ 1u32) & 1u32 == 0u32) == (aux & 1u32 != 0u32),
{
}

/// The dot colour of the second dual Larson head.
pub open spec fn mirror_color(params: Params) -> RGB8 {
    if params.colors[2] != rgb_of(0, 0, 0) {
        params.colors[2]
    } else {
        params.colors[0]
    }
}

/// The state after a bouncing scanner step that flips direction with `flip`.
pub open spec fn larson_bounced(state: EffectState, len: int, flipped_aux: u32) -> EffectState {
    if state.aux & 1u32 == 0 {
        let counter = (state.counter + 1) as u32;
        EffectState {
            counter,
            aux: if counter >= len - 1 {
                flipped_aux
            } else {
                state.aux
            },
        }
    } else {
        let counter = state.counter.saturating_sub(1);
        EffectState {
            counter,
            aux: if counter == 0 {
                flipped_aux
            } else {
                state.aux
            },
        }
    }
}

pub open spec fn dual_larson_frame(pixels: Seq<RGB8>, state: EffectState, params: Params) -> Frame {
    let len = pixels.len() as int;
    let pos = state.counter as int;
    let p = if pos < len {
        let mirror = if len - 1 - pos > 0 {
            len - 1 - pos
        } else {
            0
        };
        trail(pixels, params.intensity).update(pos, params.colors[0]).update(mirror, mirror_color(params))
    } else {
        trail(pixels, params.intensity)
    };
    (p, larson_bounced(state, len, state.aux ^ 1u32))
}

/// Two Larson scanners moving toward each other from opposite ends.
/// `state.counter` = position, `state.aux` bit 0 = direction.
pub fn dual_larson(pixels: &mut Vec<RGB8>, state: &mut EffectState, params: &Params)
    requires
        old(pixels)@.len() > 0,
        old(pixels)@.len() <= 0x1_0000_0000,
        larson_accepts(*old(state)),
    ensures
        final(pixels)@ == dual_larson_frame(old(pixels)@, *old(state), *params).0,
        final(pixels)@.len() == old(pixels)@.len(),
        *final(state) == dual_larson_frame(old(pixels)@, *old(state), *params).1,
        larson_accepts(*final(state)),
{
    let rate = scaled(64, params.intensity);
    fade_out(pixels, black(), rate);
    let len = pixels.len();
    let pos = state.counter as usize;
    let going_forward = state.aux & 1u32 == 0;
    if pos < len {
        pixels.set(pos, params.colors[0]);
        let mirror_pos = len.saturating_sub(1).saturating_sub(pos);
        let c = if params.colors[2] != black() {
            params.colors[2]
        } else {
            params.colors[0]
        };
        pixels.set(mirror_pos, c);
    }
    proof {
        lemma_flip_low_bit(state.aux);
    }
    if going_forward {
        state.counter = state.counter + 1;
        if state.counter as usize >= len - 1 {
            state.aux = state.aux ^ 1u32;
        }
    } else {
        state.counter = state.counter.saturating_sub(1);
        if state.counter == 0 {
            state.aux = state.aux ^ 1u32;
        }
    }
}

/// The hue count rainbow Larson keeps in bits 8–15 of `aux`.
pub open spec fn larson_calls(aux: u32) -> u8 {
    ((aux >> 8u32) & 0xFFu32) as u8
}

pub open spec fn rainbow_larson_frame(pixels: Seq<RGB8>, state: EffectState, params: Params) -> Frame {
    let len = pixels.len() as int;
    let pos = state.counter as int;
    let call = larson_calls(state.aux);
    let p = if pos < len {
        trail(pixels, params.intensity).update(pos, wheel_color(call.wrapping_mul(16)))
    } else {
        trail(pixels, params.intensity)
    };
    (p, larson_bounced(state, len, (state.aux ^ 1u32) | ((call.wrapping_add(1) as u32) << 8u32)))
}

/// Flipping bit 0 and setting bits above it flips whether bit 0 is set.
pub proof fn lemma_flip_low_bit_or(aux: u32, high: u32)
    by (bit_vector)
    ensures
        (((aux ^ 1u32) | (high << 8u32)) & 1u32 == 0u32) == (aux & 1u32 != 0u32),
{
}

/// Larson scanner with a hue that cycles with each bounce.
/// `state.counter` = position, `state.aux`: bit 0 = direction, bits 8-15 = call count.
pub fn rainbow_larson(pixels: &mut Vec<RGB8>, state: &mut EffectState, params: &Params)
    requires
        old(pixels)@.len() > 0,
        old(pixels)@.len() <= 0x1_0000_0000,
        larson_accepts(*old(state)),
    ensures
        final(pixels)@ == rainbow_larson_frame(old(pixels)@, *old(state), *params).0,
        final(pixels)@.len() == old(pixels)@.len(),
        *final(state) == rainbow_larson_frame(old(pixels)@, *old(state), *params).1,
        larson_accepts(*final(state)),
{
    let rate = scaled(64, params.intensity);
    fade_out(pixels, black(), rate);
    let len = pixels.len();
    let pos = state.counter as usize;
    let going_forward = state.aux & 1u32 == 0;
    let call_count = ((state.aux >> 8u32) & 0xFFu32) as u8;
    if pos < len {
        pixels.set(pos, color_wheel(call_count.wrapping_mul(16)));
    }
    let flipped = (state.aux ^ 1u32) | ((call_count.wrapping_add(1) as u32) << 8u32);
    proof {
        lemma_flip_low_bit_or(state.aux, call_count.wrapping_add(1) as u32);
    }
    if going_forward {
        state.counter = state.counter + 1;
        if state.counter as usize >= len - 1 {
            state.aux = flipped;
        }
    } else {
        state.counter = state.counter.saturating_sub(1);
        if state.counter == 0 {
            state.aux = flipped;
        }
    }
}

pub open spec fn comet_frame(pixels: Seq<RGB8>, state: EffectState, params: Params) -> Frame {
    let pos = (state.counter as int) % (pixels.len() as int);
    (trail(pixels, params.intensity).update(pos, params.colors[0]), ticked(state))
}

/// Comet: one bright head fires forward, leaving a fading trail.
pub fn comet(pixels: &mut Vec<RGB8>, state: &mut EffectState, params: &Params)
    requires
        old(pixels)@.len() > 0,
    ensures
        final(pixels)@ == comet_frame(old(pixels)@, *old(state), *params).0,
        final(pixels)@.len() == old(pixels)@.len(),
        *final(state) == comet_frame(old(pixels)@, *old(state), *params).1,
{
    let rate = scaled(64, params.intensity);
    fade_out(pixels, black(), rate);
    let len = pixels.len();
    let pos = state.counter as usize % len;
    pixels.set(pos, params.colors[0]);
    state.counter = state.counter.wrapping_add(1);
}

/// `color`, or `fallback` while `color` is black.
pub open spec fn or_else(color: RGB8, fallback: RGB8) -> RGB8 {
    if is_black(color) {
        fallback
    } else {
        color
    }
}

/// `color`, or `fallback` while `color` is black.
pub fn try_or(color: RGB8, fallback: RGB8) -> (c: RGB8)
    ensures
        c == or_else(color, fallback),
{
    if color_is_black(color) {
        fallback
    } else {
        color
    }
}

/// One comet of [`multi_comet`]: its position (`0xFFFF` while idle), the
/// pixels and the random state after its step, given the draw that may
/// launch it.
pub open spec fn comet_step(pixels: Seq<RGB8>, pos: u32, aux: u32, seed: u32, color: RGB8) -> (Seq<RGB8>, u32, u32) {
    let len = pixels.len() as u32;
    if pos != 0xFFFF {
        let at = if (pos as int) < len - 1 {
            pos as int
        } else {
            len - 1
        };
        let next = (pos + 1) as u32;
        (pixels.update(at, color), if next >= len {
            0xFFFFu32
        } else {
            next
        }, aux)
    } else {
        let rng = next_rand_of(seed);
        (pixels, if rng % len == 0 {
            0u32
        } else {
            pos
        }, rng)
    }
}

pub open spec fn multi_comet_frame(pixels: Seq<RGB8>, state: EffectState, params: Params) -> Frame {
    let c0 = state.counter & 0xFFFFu32;
    let c1 = (state.counter >> 16u32) & 0xFFFFu32;
    let (p0, n0, aux0) = comet_step(trail(pixels, params.intensity), c0, state.aux, state.aux, params.colors[0]);
    let (p1, n1, aux1) = comet_step(
        p0,
        c1,
        aux0,
        aux0.wrapping_add(1),
        or_else(params.colors[2], params.colors[0]),
    );
    (p1, EffectState { counter: n0 | (n1 << 16u32), aux: aux1 })
}

fn step_comet(pixels: &mut Vec<RGB8>, pos: u32, aux: u32, seed: u32, color: RGB8) -> (out: (u32, u32))
    requires
        0 < old(pixels)@.len() <= u32::MAX,
        pos <= 0xFFFF,
    ensures
        (final(pixels)@, out.0, out.1) == comet_step(old(pixels)@, pos, aux, seed, color),
        out.0 <= 0xFFFF,
{
    let n = pixels.len();
    let len = n as u32;
    if pos != 0xFFFF {
        let at = if (pos as usize) < n - 1 {
            pos as usize
        } else {
            n - 1
        };
        pixels.set(at, color);
        let next = pos + 1;
        (if next >= len {
            0xFFFF
        } else {
            next
        }, aux)
    } else {
        let rng = next_rand(seed);
        (if rng % len == 0 {
            0
        } else {
            pos
        }, rng)
    }
}

/// Two independent comets that start randomly and leave fading trails.
/// Packs two u16 comet positions (0xFFFF = inactive) into counter and aux.
pub fn multi_comet(pixels: &mut Vec<RGB8>, state: &mut EffectState, params: &Params)
    requires
        0 < old(pixels)@.len() <= u32::MAX,
    ensures
        final(pixels)@ == multi_comet_frame(old(pixels)@, *old(state), *params).0,
        final(pixels)@.len() == old(pixels)@.len(),
        *final(state) == multi_comet_frame(old(pixels)@, *old(state), *params).1,
{
    let rate = scaled(64, params.intensity);
    fade_out(pixels, black(), rate);
    let counter = state.counter;
    let c0 = counter & 0xFFFFu32;
    let c1 = (counter >> 16u32) & 0xFFFFu32;
    assert(c0 <= 0xFFFF && c1 <= 0xFFFF) by (bit_vector)
        requires
            c0 == counter & 0xFFFFu32,
            c1 == (counter >> 16u32) & 0xFFFFu32,
    ;
    let (n0, aux0) = step_comet(pixels, c0, state.aux, state.aux, params.colors[0]);
    let second = try_or(params.colors[2], params.colors[0]);
    let (n1, aux1) = step_comet(pixels, c1, aux0, aux0.wrapping_add(1), second);
    state.counter = n0 | (n1 << 16u32);
    state.aux = aux1;
}

} // verus!
