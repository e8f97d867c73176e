//! Random colours and colour gradients that change every step.

use vstd::prelude::*;

use crate::effects::Frame;
use crate::effects::color::ticked;
use crate::params::Params;
use crate::pixel::RGB8;
use crate::segment::EffectState;
use crate::utils::{
    blend_color, color_blend, color_wheel, fill, next_rand, next_rand_of, sin8_of, sine8, solid,
    wheel_color,
};

verus! {

/// `n` random wheel colours drawn one after another from the chain after
/// `rng`, and the chain's last draw.
pub open spec fn wheel_chain(rng: u32, n: nat, params: Params) -> (Seq<RGB8>, u32)
    decreases n,
{
    if n == 0 {
        (Seq::empty(), rng)
    } else {
        let (colors, r) = wheel_chain(rng, (n - 1) as nat, params);
        let next = next_rand_of(r);
        (colors.push(params.wheel_spec(next as u8)), next)
    }
}

pub proof fn lemma_wheel_chain_len(rng: u32, n: nat, params: Params)
    ensures
        wheel_chain(rng, n, params).0.len() == n,
    decreases n,
{
    if n > 0 {
        lemma_wheel_chain_len(rng, (n - 1) as nat, params);
    }
}

/// The chain depends on the parameters only through their palette.
pub proof fn lemma_wheel_chain_palette_only(rng: u32, n: nat, params: Params, other: Params)
    requires
        params.palette == other.palette,
    ensures
        wheel_chain(rng, n, params) == wheel_chain(rng, n, other),
    decreases n,
{
    if n > 0 {
        lemma_wheel_chain_palette_only(rng, (n - 1) as nat, params, other);
    }
}

/// Fills `pixels` with a random wheel colour each, drawn from the chain after
/// `rng`; returns the chain's last draw.
fn paint_wheel_chain(pixels: &mut Vec<RGB8>, rng: u32, params: &Params) -> (last: u32)
    ensures
        final(pixels)@ == wheel_chain(rng, old(pixels)@.len(), *params).0,
        last == wheel_chain(rng, old(pixels)@.len(), *params).1,
{
    let len = pixels.len();
    let mut r = rng;
    let mut i: usize = 0;
    while i < len
        invariant
            len == pixels@.len(),
            len == old(pixels)@.len(),
            i <= len,
            r == wheel_chain(rng, i as nat, *params).1,
            forall|j: int| 0 <= j < i ==> pixels@[j] == wheel_chain(rng, i as nat, *params).0[j],
        decreases len - i,
    {
        proof {
            lemma_wheel_chain_len(rng, i as nat, *params);
            lemma_wheel_chain_len(rng, (i + 1) as nat, *params);
        }
        r = next_rand(r);
        let c = params.wheel(r as u8);
        pixels.set(i, c);
        i = i + 1;
    }
    proof {
        lemma_wheel_chain_len(rng, len as nat, *params);
    }
    assert(pixels@ =~= wheel_chain(rng, old(pixels)@.len(), *params).0);
    r
}

pub open spec fn random_color_frame(pixels: Seq<RGB8>, state: EffectState, params: Params) -> Frame {
    let aux = next_rand_of(state.aux);
    (solid(pixels.len(), params.wheel_spec(aux as u8)), EffectState { aux, ..state })
}

/// All pixels a single random color, changing each call.
pub fn random_color(pixels: &mut Vec<RGB8>, state: &mut EffectState, params: &Params)
    ensures
        final(pixels)@ == random_color_frame(old(pixels)@, *old(state), *params).0,
        final(pixels)@.len() == old(pixels)@.len(),
        *final(state) == random_color_frame(old(pixels)@, *old(state), *params).1,
{
    state.aux = next_rand(state.aux);
    let c = params.wheel(state.aux as u8);
    fill(pixels, c);
}

pub open spec fn single_dynamic_frame(pixels: Seq<RGB8>, state: EffectState, params: Params) -> Frame {
    let (base, aux) = if state.counter == 0 {
        wheel_chain(state.aux, pixels.len(), params)
    } else {
        (pixels, state.aux)
    };
    let rng = next_rand_of(aux);
    let rng2 = next_rand_of(rng);
    (
        base.update((rng % (pixels.len() as u32)) as int, params.wheel_spec(rng2 as u8)),
        EffectState { counter: state.counter.wrapping_add(1), aux: rng2 },
    )
}

/// One random pixel changes to a random wheel color each step.
/// On first call (counter == 0), fills the whole strip with random colors.
pub fn single_dynamic(pixels: &mut Vec<RGB8>, state: &mut EffectState, params: &Params)
    requires
        0 < old(pixels)@.len() <= u32::MAX,
    ensures
        final(pixels)@ == single_dynamic_frame(old(pixels)@, *old(state), *params).0,
        final(pixels)@.len() == old(pixels)@.len(),
        *final(state) == single_dynamic_frame(old(pixels)@, *old(state), *params).1,
{
    if state.counter == 0 {
        let last = paint_wheel_chain(pixels, state.aux, params);
        proof {
            lemma_wheel_chain_len(old(state).aux, old(pixels)@.len(), *params);
        }
        state.aux = last;
    }
    let len = pixels.len();
    let rng = next_rand(state.aux);
    let idx = (rng % (len as u32)) as usize;
    let rng2 = next_rand(rng);
    let c = params.wheel(rng2 as u8);
    pixels.set(idx, c);
    state.aux = rng2;
    state.counter = state.counter.wrapping_add(1);
}

pub open spec fn multi_dynamic_frame(pixels: Seq<RGB8>, state: EffectState, params: Params) -> Frame {
    let (colors, aux) = wheel_chain(state.aux, pixels.len(), params);
    (colors, EffectState { aux, ..state })
}

/// Every pixel gets a new random wheel color each step.
pub fn multi_dynamic(pixels: &mut Vec<RGB8>, state: &mut EffectState, params: &Params)
    ensures
        final(pixels)@ == multi_dynamic_frame(old(pixels)@, *old(state), *params).0,
        final(pixels)@.len() == old(pixels)@.len(),
        *final(state) == multi_dynamic_frame(old(pixels)@, *old(state), *params).1,
{
    let last = paint_wheel_chain(pixels, state.aux, params);
    proof {
        lemma_wheel_chain_len(old(state).aux, old(pixels)@.len(), *params);
    }
    state.aux = last;
}

/// The sine phase step between neighbouring pixels of a strip of `len`.
pub open spec fn sine_incr(len: int) -> u8 {
    let s = (256int / len) as u8;
    if s < 1 {
        1
    } else {
        s
    }
}

/// The sine phase of pixel `i` at `counter`, in 32-bit wrapping arithmetic.
pub open spec fn running_phase(i: int, counter: u32, incr: u8) -> u8 {
    (i as u32).wrapping_add(counter).wrapping_mul(incr as u32) as u8
}

pub open spec fn running_lights_frame(pixels: Seq<RGB8>, state: EffectState, params: Params) -> Frame {
    let incr = sine_incr(pixels.len() as int);
    (
        Seq::new(
            pixels.len(),
            |i: int|
                blend_color(
                    params.colors[0],
                    params.colors[1],
                    sin8_of(running_phase(i, state.counter, incr)),
                ),
        ),
        ticked(state),
    )
}

/// Smooth sine-wave luminance gradient flowing along the strip.
/// Blends `colors[0]` and `colors[1]` per-pixel using a sine envelope; the
/// phase is taken modulo 2^32 before its low byte is used.
pub fn running_lights(pixels: &mut Vec<RGB8>, state: &mut EffectState, params: &Params)
    requires
        old(pixels)@.len() > 0,
    ensures
        final(pixels)@ == running_lights_frame(old(pixels)@, *old(state), *params).0,
        final(pixels)@.len() == old(pixels)@.len(),
        *final(state) == running_lights_frame(old(pixels)@, *old(state), *params).1,
{
    let len = pixels.len();
    let s = (256 / len) as u8;
    let incr: u8 = if s < 1 {
        1
    } else {
        s
    };
    let mut i: usize = 0;
    while i < len
        invariant
            len == pixels@.len(),
            len == old(pixels)@.len(),
            len > 0,
            incr == sine_incr(len as int),
            i <= len,
            forall|j: int|
                0 <= j < i ==> pixels@[j] == blend_color(
                    params.colors[0],
                    params.colors[1],
                    sin8_of(running_phase(j, old(state).counter, incr)),
                ),
        decreases len - i,
    {
        let phase = (i as u32).wrapping_add(state.counter).wrapping_mul(incr as u32) as u8;
        let lum = sine8(phase);
        pixels.set(i, color_blend(params.colors[0], params.colors[1], lum));
        i = i + 1;
    }
    assert(pixels@ =~= running_lights_frame(old(pixels)@, *old(state), *params).0);
    state.counter = state.counter.wrapping_add(1);
}

/// The first offset below `k`, counting from `start` round the strip, whose
/// pixel is not `target`.
pub open spec fn first_unlike(pixels: Seq<RGB8>, target: RGB8, start: int, k: nat) -> Option<int>
    decreases k,
{
    if k == 0 {
        None
    } else {
        match first_unlike(pixels, target, start, (k - 1) as nat) {
            Some(o) => Some(o),
            None => if pixels[(start + k - 1) % (pixels.len() as int)] != target {
                Some(k - 1)
            } else {
                None
            },
        }
    }
}

pub open spec fn block_dissolve_frame(pixels: Seq<RGB8>, state: EffectState, params: Params) -> Frame {
    let len = pixels.len() as u32;
    let color_idx = (state.aux & 3u32) % 3;
    let target = params.colors[color_idx as int];
    let rng = next_rand_of(state.aux >> 2u32);
    let idx = (rng % len) as int;
    if pixels[idx] != target {
        (pixels.update(idx, target), EffectState { aux: color_idx | (rng << 2u32), ..state })
    } else {
        match first_unlike(pixels, target, idx, pixels.len()) {
            Some(o) => (
                pixels.update((idx + o) % (pixels.len() as int), target),
                EffectState { aux: color_idx | (next_rand_of(rng) << 2u32), ..state },
            ),
            None => (
                pixels,
                EffectState { aux: ((color_idx + 1) % 3) as u32 | (next_rand_of(rng) << 2u32), ..state },
            ),
        }
    }
}

/// Randomly dissolves pixels one-by-one from `colors[current]` to the next color.
/// Cycles through `colors[0]`, `colors[1]`, `colors[2]`.
pub fn block_dissolve(pixels: &mut Vec<RGB8>, state: &mut EffectState, params: &Params)
    requires
        old(pixels)@.len() > 0,
        old(pixels)@.len() <= u32::MAX,
    ensures
        final(pixels)@ == block_dissolve_frame(old(pixels)@, *old(state), *params).0,
        final(pixels)@.len() == old(pixels)@.len(),
        *final(state) == block_dissolve_frame(old(pixels)@, *old(state), *params).1,
{
    let n = pixels.len();
    let len = n as u32;
    // The low two bits hold the colour index; a seeded `aux` may hold 3.
    let color_idx = (state.aux & 3u32) % 3;
    let target = params.colors[color_idx as usize];
    let rng = next_rand(state.aux >> 2u32);
    let idx = (rng % len) as usize;
    if pixels[idx] != target {
        pixels.set(idx, target);
        state.aux = color_idx | (rng << 2u32);
        return;
    }
    // Scan for any non-target pixel.
    let start = (rng % len) as usize;
    let mut offset: usize = 0;
    while offset < n
        invariant
            n == pixels@.len(),
            pixels@ == old(pixels)@,
            n > 0,
            start < n,
            start == idx,
            *state == *old(state),
            color_idx == (old(state).aux & 3u32) % 3,
            target == params.colors[color_idx as int],
            rng == next_rand_of(old(state).aux >> 2u32),
            idx == (rng % len) as int,
            old(pixels)@[idx as int] == target,
            len == n,
            offset <= n,
            first_unlike(pixels@, target, start as int, offset as nat) is None,
        decreases n - offset,
    {
        let i = if offset < n - start {
            start + offset
        } else {
            offset - (n - start)
        };
        assert(i == (start + offset) % (n as int)) by (nonlinear_arith)
            requires
                start < n,
                offset < n,
                i == (if offset < n - start { start + offset } else { offset - (n - start) }),
        ;
        if pixels[i] != target {
            assert(first_unlike(pixels@, target, start as int, (offset + 1) as nat) == Some(
                offset as int,
            ));
            proof {
                lemma_first_unlike_stops(pixels@, target, start as int, (offset + 1) as nat, n as nat);
            }
            pixels.set(i, target);
            state.aux = color_idx | (next_rand(rng) << 2u32);
            assert(first_unlike(old(pixels)@, target, idx as int, n as nat) == Some(offset as int));
            assert(pixels@ == old(pixels)@.update((idx + offset) % (n as int), target));
            return;
        }
        offset = offset + 1;
    }
    // All pixels are target — advance to next color.
    let next_idx = (color_idx + 1) % 3;
    state.aux = next_idx | (next_rand(rng) << 2u32);
}

/// Once [`first_unlike`] finds an offset, looking further finds the same one.
pub proof fn lemma_first_unlike_stops(pixels: Seq<RGB8>, target: RGB8, start: int, k: nat, m: nat)
    requires
        k <= m,
        first_unlike(pixels, target, start, k) is Some,
    ensures
        first_unlike(pixels, target, start, m) == first_unlike(pixels, target, start, k),
    decreases m - k,
{
    if m > k {
        lemma_first_unlike_stops(pixels, target, start, k, (m - 1) as nat);
    }
}

} // verus!
