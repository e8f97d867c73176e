//! Twinkles and sparkles: random pixels lighting up.

use vstd::prelude::*;

use crate::effects::Frame;
use crate::effects::scanner::trail;
use crate::params::Params;
use crate::pixel::RGB8;
use crate::segment::EffectState;
use crate::utils::{
    scaled,
    black, color_wheel, fade_out, fill, next_rand, next_rand_of, rand_wheel_index, rgb_of, solid,
    wheel_color, wheel_pick, white, WHEEL_DRAWS,
};

verus! {

/// How many twinkles [`twinkle`] lights before starting over, at least: a
/// quarter of the strip and one more.
pub open spec fn twinkle_min(len: int) -> u32 {
    (len / 4 + 1) as u32
}

pub open spec fn twinkle_frame(pixels: Seq<RGB8>, state: EffectState, params: Params) -> Frame {
    let len = pixels.len() as u32;
    let (base, s) = if state.counter == 0 {
        let min = twinkle_min(len as int);
        let rng = next_rand_of(state.aux);
        (solid(pixels.len(), params.colors[1]), EffectState { counter: (min + rng % min) as u32, aux: rng })
    } else {
        (pixels, state)
    };
    let rng = next_rand_of(s.aux);
    (base.update((rng % len) as int, params.colors[0]), EffectState { counter: s.counter.saturating_sub(1), aux: rng })
}

/// Pixels of the primary colour lighting one by one over `colors[1]`, the
/// strip clearing after a random number of them.
pub fn twinkle(pixels: &mut Vec<RGB8>, state: &mut EffectState, params: &Params)
    requires
        0 < old(pixels)@.len() <= u32::MAX,
    ensures
        final(pixels)@ == twinkle_frame(old(pixels)@, *old(state), *params).0,
        final(pixels)@.len() == old(pixels)@.len(),
        *final(state) == twinkle_frame(old(pixels)@, *old(state), *params).1,
{
    let len = pixels.len() as u32;
    if state.counter == 0 {
        fill(pixels, params.colors[1]);
        let min = len / 4 + 1;
        let rng = next_rand(state.aux);
        state.aux = rng;
        state.counter = min + (rng % min);
    }
    let rng = next_rand(state.aux);
    state.aux = rng;
    pixels.set((rng % len) as usize, params.colors[0]);
    state.counter = state.counter.saturating_sub(1);
}

pub open spec fn twinkle_random_frame(pixels: Seq<RGB8>, state: EffectState, params: Params) -> Frame {
    let len = pixels.len() as u32;
    let (base, s) = if state.counter == 0 {
        let rng = next_rand_of(state.aux);
        let wheel_idx = rng as u8;
        let min = twinkle_min(len as int);
        let rng2 = next_rand_of(rng);
        let count = (min + rng2 % min) as u32;
        (
            solid(pixels.len(), params.colors[1]),
            EffectState { counter: count | ((wheel_idx as u32) << 24u32), aux: rng2 },
        )
    } else {
        (pixels, state)
    };
    let wheel_idx = (s.counter >> 24u32) as u8;
    let rng = next_rand_of(s.aux);
    let count = s.counter & 0x00FF_FFFFu32;
    (
        base.update((rng % len) as int, params.wheel_spec(wheel_idx)),
        EffectState { counter: count.saturating_sub(1) | ((wheel_idx as u32) << 24u32), aux: rng },
    )
}

/// Twinkle with a random wheel color for each new set.
pub fn twinkle_random(pixels: &mut Vec<RGB8>, state: &mut EffectState, params: &Params)
    requires
        0 < old(pixels)@.len() <= u32::MAX,
    ensures
        final(pixels)@ == twinkle_random_frame(old(pixels)@, *old(state), *params).0,
        final(pixels)@.len() == old(pixels)@.len(),
        *final(state) == twinkle_random_frame(old(pixels)@, *old(state), *params).1,
{
    let len = pixels.len() as u32;
    if state.counter == 0 {
        // Pick a new random foreground color; the counter keeps its wheel
        // index in the high byte and the remaining count below it.
        let rng = next_rand(state.aux);
        state.aux = rng;
        let wheel_idx = rng as u8;
        let min = len / 4 + 1;
        let rng2 = next_rand(rng);
        state.aux = rng2;
        let count = min + (rng2 % min);
        state.counter = count | ((wheel_idx as u32) << 24u32);
        fill(pixels, params.colors[1]);
    }
    let wheel_idx = (state.counter >> 24u32) as u8;
    let fg = params.wheel(wheel_idx);
    let rng = next_rand(state.aux);
    state.aux = rng;
    pixels.set((rng % len) as usize, fg);
    let count = state.counter & 0x00FF_FFFFu32;
    state.counter = count.saturating_sub(1) | ((wheel_idx as u32) << 24u32);
}

/// The faded strip with, on one draw in three, a pixel lit with `color`.
pub open spec fn twinkle_fade_with(pixels: Seq<RGB8>, state: EffectState, color: RGB8, intensity: u8) -> Frame {
    let rng = next_rand_of(state.aux);
    let aux = next_rand_of(rng);
    let faded = trail(pixels, intensity);
    (
        if rng % 3 == 0 {
            faded.update((aux % (pixels.len() as u32)) as int, color)
        } else {
            faded
        },
        EffectState { aux, ..state },
    )
}

pub open spec fn twinkle_fade_frame(pixels: Seq<RGB8>, state: EffectState, params: Params) -> Frame {
    twinkle_fade_with(pixels, state, params.colors[0], params.intensity)
}

/// Pixels of the primary colour lighting at random and fading away.
pub fn twinkle_fade(pixels: &mut Vec<RGB8>, state: &mut EffectState, params: &Params)
    requires
        0 < old(pixels)@.len() <= u32::MAX,
    ensures
        final(pixels)@ == twinkle_fade_frame(old(pixels)@, *old(state), *params).0,
        final(pixels)@.len() == old(pixels)@.len(),
        *final(state) == twinkle_fade_frame(old(pixels)@, *old(state), *params).1,
{
    let rate = scaled(64, params.intensity);
    fade_out(pixels, black(), rate);
    let rng = next_rand(state.aux);
    state.aux = next_rand(rng);
    if rng % 3 == 0 {
        let idx = (state.aux % (pixels.len() as u32)) as usize;
        pixels.set(idx, params.colors[0]);
    }
}

pub open spec fn twinkle_fade_random_frame(pixels: Seq<RGB8>, state: EffectState, params: Params) -> Frame {
    twinkle_fade_with(pixels, state, params.wheel_spec(next_rand_of(state.aux) as u8), params.intensity)
}

/// Twinkle-fade with a random wheel color on each new sparkle.
pub fn twinkle_fade_random(pixels: &mut Vec<RGB8>, state: &mut EffectState, params: &Params)
    requires
        0 < old(pixels)@.len() <= u32::MAX,
    ensures
        final(pixels)@ == twinkle_fade_random_frame(old(pixels)@, *old(state), *params).0,
        final(pixels)@.len() == old(pixels)@.len(),
        *final(state) == twinkle_fade_random_frame(old(pixels)@, *old(state), *params).1,
{
    let rate = scaled(64, params.intensity);
    fade_out(pixels, black(), rate);
    let rng = next_rand(state.aux);
    state.aux = next_rand(rng);
    if rng % 3 == 0 {
        let idx = (state.aux % (pixels.len() as u32)) as usize;
        let c = params.wheel(rng as u8);
        pixels.set(idx, c);
    }
}

/// The states the sparkles can step from on a strip of `len`: after the
/// first step the counter names the last sparkle, which lies on the strip.
pub open spec fn sparkle_accepts(state: EffectState, len: nat) -> bool {
    state.aux == 0 || state.counter < len
}

/// One sparkle of `flash` over `background`: the previous sparkle restored,
/// a new one drawn.
pub open spec fn sparkle_with(pixels: Seq<RGB8>, state: EffectState, background: RGB8, flash: RGB8) -> Frame {
    let base = if state.aux == 0 {
        solid(pixels.len(), background)
    } else {
        pixels.update(state.counter as int, background)
    };
    let rng = next_rand_of(state.aux);
    let idx = rng % (pixels.len() as u32);
    (base.update(idx as int, flash), EffectState { counter: idx, aux: rng })
}

fn sparkle_step(pixels: &mut Vec<RGB8>, state: &mut EffectState, background: RGB8, flash: RGB8)
    requires
        0 < old(pixels)@.len() <= u32::MAX,
        sparkle_accepts(*old(state), old(pixels)@.len()),
    ensures
        final(pixels)@ == sparkle_with(old(pixels)@, *old(state), background, flash).0,
        *final(state) == sparkle_with(old(pixels)@, *old(state), background, flash).1,
        sparkle_accepts(*final(state), old(pixels)@.len()),
{
    let len = pixels.len() as u32;
    if state.aux == 0 {
        fill(pixels, background);
    } else {
        pixels.set(state.counter as usize, background);
    }
    let rng = next_rand(state.aux);
    state.aux = rng;
    let idx = rng % len;
    pixels.set(idx as usize, flash);
    state.counter = idx;
}

pub open spec fn sparkle_frame(pixels: Seq<RGB8>, state: EffectState, params: Params) -> Frame {
    sparkle_with(pixels, state, params.colors[0], params.colors[1])
}

/// A single sparkle of `colors[1]` over `colors[0]`, moving each step.
pub fn sparkle(pixels: &mut Vec<RGB8>, state: &mut EffectState, params: &Params)
    requires
        0 < old(pixels)@.len() <= u32::MAX,
        sparkle_accepts(*old(state), old(pixels)@.len()),
    ensures
        final(pixels)@ == sparkle_frame(old(pixels)@, *old(state), *params).0,
        final(pixels)@.len() == old(pixels)@.len(),
        *final(state) == sparkle_frame(old(pixels)@, *old(state), *params).1,
        sparkle_accepts(*final(state), old(pixels)@.len()),
{
    sparkle_step(pixels, state, params.colors[0], params.colors[1]);
}

pub open spec fn flash_sparkle_frame(pixels: Seq<RGB8>, state: EffectState, params: Params) -> Frame {
    sparkle_with(pixels, state, params.colors[0], rgb_of(255, 255, 255))
}

/// Background `colors[0]`, sparkle with WHITE.
pub fn flash_sparkle(pixels: &mut Vec<RGB8>, state: &mut EffectState, params: &Params)
    requires
        0 < old(pixels)@.len() <= u32::MAX,
        sparkle_accepts(*old(state), old(pixels)@.len()),
    ensures
        final(pixels)@ == flash_sparkle_frame(old(pixels)@, *old(state), *params).0,
        final(pixels)@.len() == old(pixels)@.len(),
        *final(state) == flash_sparkle_frame(old(pixels)@, *old(state), *params).1,
        sparkle_accepts(*final(state), old(pixels)@.len()),
{
    sparkle_step(pixels, state, params.colors[0], white());
}

/// Where [`sparkle_random`] keeps the last sparkle: bits 8–15 of `aux`.
pub open spec fn sparkle_prev(aux: u32) -> u32 {
    (aux >> 8u32) & 0xFFu32
}

/// The states [`sparkle_random`] can step from on a strip of `len`: between
/// sets, the last sparkle lies on the strip.
pub open spec fn sparkle_random_accepts(state: EffectState, len: nat) -> bool {
    state.counter == 0 || sparkle_prev(state.aux) < len
}

/// `aux` packing wheel index `idx`, sparkle position `pos` and generator
/// state `rng`, as [`sparkle_random`] stores them.
pub open spec fn sparkle_packed(idx: u8, pos: u32, rng: u32) -> u32 {
    idx as u32 | (pos << 8u32) | (rng << 16u32)
}

/// The position read back from a packed `aux` is the stored one's low byte.
pub proof fn lemma_sparkle_packed(idx: u8, pos: u32, rng: u32)
    by (bit_vector)
    ensures
        sparkle_prev(sparkle_packed(idx, pos, rng)) == pos & 0xFFu32,
        pos & 0xFFu32 <= pos,
        sparkle_packed(idx, pos, rng) & 0xFFu32 == idx as u32,
{
}

pub open spec fn sparkle_random_frame(pixels: Seq<RGB8>, state: EffectState, params: Params) -> Frame {
    let len = pixels.len() as u32;
    let wheel_idx = (state.aux & 0xFFu32) as u8;
    let prev_pos = sparkle_prev(state.aux);
    let rng = state.aux >> 16u32;
    let counter = state.counter.wrapping_add(1);
    if state.counter == 0 {
        let (new_idx, new_rng) = wheel_pick(wheel_idx, rng, (WHEEL_DRAWS - 1) as nat);
        let rng2 = next_rand_of(new_rng);
        let new_pos = rng2 % len;
        (
            solid(pixels.len(), params.wheel_spec(new_idx.wrapping_add(128))).update(
                new_pos as int,
                params.wheel_spec(new_idx),
            ),
            EffectState { counter, aux: sparkle_packed(new_idx, new_pos, rng2) },
        )
    } else {
        let new_rng = next_rand_of(rng);
        let new_pos = new_rng % len;
        (
            pixels.update(prev_pos as int, params.wheel_spec(wheel_idx.wrapping_add(128))).update(
                new_pos as int,
                params.wheel_spec(wheel_idx),
            ),
            EffectState { counter, aux: sparkle_packed(wheel_idx, new_pos, new_rng) },
        )
    }
}

/// A sparkle of a random wheel colour over its opposite hue, moving each
/// step; the colours change when the counter comes round to zero.
pub fn sparkle_random(pixels: &mut Vec<RGB8>, state: &mut EffectState, params: &Params)
    requires
        0 < old(pixels)@.len() <= u32::MAX,
        sparkle_random_accepts(*old(state), old(pixels)@.len()),
    ensures
        final(pixels)@ == sparkle_random_frame(old(pixels)@, *old(state), *params).0,
        final(pixels)@.len() == old(pixels)@.len(),
        *final(state) == sparkle_random_frame(old(pixels)@, *old(state), *params).1,
        sparkle_random_accepts(*final(state), old(pixels)@.len()),
{
    let len = pixels.len() as u32;
    let wheel_idx = (state.aux & 0xFFu32) as u8;
    let prev_pos = ((state.aux >> 8u32) & 0xFFu32) as usize;
    let rng = state.aux >> 16u32;
    if state.counter == 0 {
        let (new_idx, new_rng) = rand_wheel_index(wheel_idx, rng);
        let back = params.wheel(new_idx.wrapping_add(128));
        fill(pixels, back);
        let rng2 = next_rand(new_rng);
        let new_pos = rng2 % len;
        let c = params.wheel(new_idx);
        pixels.set(new_pos as usize, c);
        state.aux = new_idx as u32 | (new_pos << 8u32) | (rng2 << 16u32);
        proof {
            lemma_sparkle_packed(new_idx, new_pos, rng2);
        }
    } else {
        let back = params.wheel(wheel_idx.wrapping_add(128));
        pixels.set(prev_pos, back);
        let new_rng = next_rand(rng);
        let new_pos = new_rng % len;
        let c = params.wheel(wheel_idx);
        pixels.set(new_pos as usize, c);
        state.aux = wheel_idx as u32 | (new_pos << 8u32) | (new_rng << 16u32);
        proof {
            lemma_sparkle_packed(wheel_idx, new_pos, new_rng);
        }
    }
    state.counter = state.counter.wrapping_add(1);
}

} // verus!
