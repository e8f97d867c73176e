//! Fireworks and flickering flames.

use vstd::prelude::*;

use crate::effects::Frame;
use crate::params::Params;
use crate::pixel::RGB8;
use crate::segment::EffectState;
use crate::utils::{
    black, fade_out, faded, next_rand, next_rand_of, rgb_of, scaled, scaled_value,
};

verus! {

/// `pixels` after `n` burst chances drawn from the chain after `rng`: each
/// draw divisible by 10 lights the pixel the next draw picks with `color`.
pub open spec fn bursts(pixels: Seq<RGB8>, rng: u32, n: nat, color: RGB8) -> (Seq<RGB8>, u32)
    decreases n,
{
    if n == 0 {
        (pixels, rng)
    } else {
        let (p, r) = bursts(pixels, rng, (n - 1) as nat, color);
        let next = next_rand_of(r);
        if next % 10 == 0 {
            let pick = next_rand_of(next);
            (p.update((pick % (pixels.len() as u32)) as int, color), pick)
        } else {
            (p, next)
        }
    }
}

pub proof fn lemma_bursts_len(pixels: Seq<RGB8>, rng: u32, n: nat, color: RGB8)
    requires
        0 < pixels.len() <= u32::MAX,
    ensures
        bursts(pixels, rng, n, color).0.len() == pixels.len(),
    decreases n,
{
    if n > 0 {
        lemma_bursts_len(pixels, rng, (n - 1) as nat, color);
    }
}

/// How many burst chances [`fireworks`] takes on a strip of `len`.
pub open spec fn burst_count(len: nat) -> nat {
    if len / 20 < 1 {
        1
    } else {
        len / 20
    }
}

pub open spec fn fireworks_frame(pixels: Seq<RGB8>, state: EffectState, params: Params) -> Frame {
    let (p, r) = bursts(
        faded(pixels, rgb_of(0, 0, 0), scaled_value(128, params.intensity)),
        state.aux,
        burst_count(pixels.len()),
        params.colors[0],
    );
    (p, EffectState { aux: r, ..state })
}

/// Simulates fireworks: pixels fade and random bursts of `colors[0]` appear.
/// Higher intensity fades bursts faster.
pub fn fireworks(pixels: &mut Vec<RGB8>, state: &mut EffectState, params: &Params)
    requires
        0 < old(pixels)@.len() <= u32::MAX,
    ensures
        final(pixels)@ == fireworks_frame(old(pixels)@, *old(state), *params).0,
        final(pixels)@.len() == old(pixels)@.len(),
        *final(state) == fireworks_frame(old(pixels)@, *old(state), *params).1,
{
    let n = pixels.len();
    let len = n as u32;
    let rate = scaled(128, params.intensity);
    fade_out(pixels, black(), rate);
    let ghost base = pixels@;
    let count: u32 = if len / 20 < 1 {
        1
    } else {
        len / 20
    };
    let mut rng = state.aux;
    let mut k: u32 = 0;
    while k < count
        invariant
            n == pixels@.len(),
            n == base.len(),
            0 < n <= u32::MAX,
            len == n,
            k <= count,
            count == burst_count(n as nat),
            (pixels@, rng) == bursts(base, old(state).aux, k as nat, params.colors[0]),
        decreases count - k,
    {
        proof {
            lemma_bursts_len(base, old(state).aux, k as nat, params.colors[0]);
        }
        rng = next_rand(rng);
        if rng % 10 == 0 {
            rng = next_rand(rng);
            let idx = (rng % len) as usize;
            pixels.set(idx, params.colors[0]);
        }
        k = k + 1;
    }
    state.aux = rng;
}

/// `c` with `flicker` taken from each channel, stopping at zero.
pub open spec fn flickered(c: RGB8, flicker: u8) -> RGB8 {
    RGB8 {
        r: c.r.saturating_sub(flicker),
        g: c.g.saturating_sub(flicker),
        b: c.b.saturating_sub(flicker),
    }
}

/// `n` flickered copies of `c`, each dimmed by a draw from the chain after
/// `rng` taken modulo `lum`, and the chain's last draw.
pub open spec fn flicker_chain(c: RGB8, lum: u8, rng: u32, n: nat) -> (Seq<RGB8>, u32)
    decreases n,
{
    if n == 0 {
        (Seq::empty(), rng)
    } else {
        let (p, r) = flicker_chain(c, lum, rng, (n - 1) as nat);
        let next = next_rand_of(r);
        (p.push(flickered(c, (next % (lum as u32)) as u8)), next)
    }
}

pub proof fn lemma_flicker_chain_len(c: RGB8, lum: u8, rng: u32, n: nat)
    ensures
        flicker_chain(c, lum, rng, n).0.len() == n,
    decreases n,
{
    if n > 0 {
        lemma_flicker_chain_len(c, lum, rng, (n - 1) as nat);
    }
}

/// The brightest channel of `c`.
pub open spec fn max_channel(c: RGB8) -> u8 {
    let rg = if c.r > c.g {
        c.r
    } else {
        c.g
    };
    if rg > c.b {
        rg
    } else {
        c.b
    }
}

/// How deep [`fire_flicker_intensity`] may dim a pixel.
pub open spec fn flicker_depth(c: RGB8, rev_intensity: u8, intensity: u8) -> u8 {
    let rev = if rev_intensity < 1 {
        1
    } else {
        rev_intensity
    };
    let lum = scaled_value(max_channel(c) / rev, intensity);
    if lum < 1 {
        1
    } else {
        lum
    }
}

pub open spec fn fire_flicker_intensity_frame(
    pixels: Seq<RGB8>,
    state: EffectState,
    params: Params,
    rev_intensity: u8,
) -> Frame {
    let lum = flicker_depth(params.colors[0], rev_intensity, params.intensity);
    let (p, r) = flicker_chain(params.colors[0], lum, state.aux, pixels.len());
    (p, EffectState { aux: r, ..state })
}

/// Each pixel is independently dimmed by a random amount to simulate a flame.
/// `rev_intensity` controls flicker depth: higher = gentler flicker. Intensity
/// deepens it further.
pub fn fire_flicker_intensity(
    pixels: &mut Vec<RGB8>,
    state: &mut EffectState,
    params: &Params,
    rev_intensity: u8,
)
    ensures
        final(pixels)@ == fire_flicker_intensity_frame(old(pixels)@, *old(state), *params, rev_intensity).0,
        final(pixels)@.len() == old(pixels)@.len(),
        *final(state) == fire_flicker_intensity_frame(old(pixels)@, *old(state), *params, rev_intensity).1,
{
    let c = params.colors[0];
    let rg = if c.r > c.g {
        c.r
    } else {
        c.g
    };
    let max_lum = if rg > c.b {
        rg
    } else {
        c.b
    };
    let rev = if rev_intensity < 1 {
        1
    } else {
        rev_intensity
    };
    let s = scaled(max_lum / rev, params.intensity);
    let lum = if s < 1 {
        1
    } else {
        s
    };
    let len = pixels.len();
    let mut rng = state.aux;
    let mut i: usize = 0;
    while i < len
        invariant
            len == pixels@.len(),
            len == old(pixels)@.len(),
            i <= len,
            c == params.colors[0],
            lum == flicker_depth(c, rev_intensity, params.intensity),
            rng == flicker_chain(c, lum, old(state).aux, i as nat).1,
            forall|j: int| 0 <= j < i ==> pixels@[j] == flicker_chain(c, lum, old(state).aux, i as nat).0[j],
        decreases len - i,
    {
        proof {
            lemma_flicker_chain_len(c, lum, old(state).aux, i as nat);
            lemma_flicker_chain_len(c, lum, old(state).aux, (i + 1) as nat);
        }
        rng = next_rand(rng);
        let flicker = (rng % (lum as u32)) as u8;
        pixels.set(
            i,
            RGB8 {
                r: c.r.saturating_sub(flicker),
                g: c.g.saturating_sub(flicker),
                b: c.b.saturating_sub(flicker),
            },
        );
        i = i + 1;
    }
    proof {
        lemma_flicker_chain_len(c, lum, old(state).aux, len as nat);
    }
    assert(pixels@ =~= fire_flicker_intensity_frame(old(pixels)@, *old(state), *params, rev_intensity).0);
    state.aux = rng;
}

pub fn fire_flicker(pixels: &mut Vec<RGB8>, state: &mut EffectState, params: &Params)
    ensures
        final(pixels)@ == fire_flicker_intensity_frame(old(pixels)@, *old(state), *params, 3).0,
        final(pixels)@.len() == old(pixels)@.len(),
        *final(state) == fire_flicker_intensity_frame(old(pixels)@, *old(state), *params, 3).1,
{
    fire_flicker_intensity(pixels, state, params, 3);
}

pub fn fire_flicker_soft(pixels: &mut Vec<RGB8>, state: &mut EffectState, params: &Params)
    ensures
        final(pixels)@ == fire_flicker_intensity_frame(old(pixels)@, *old(state), *params, 6).0,
        final(pixels)@.len() == old(pixels)@.len(),
        *final(state) == fire_flicker_intensity_frame(old(pixels)@, *old(state), *params, 6).1,
{
    fire_flicker_intensity(pixels, state, params, 6);
}

pub fn fire_flicker_intense(pixels: &mut Vec<RGB8>, state: &mut EffectState, params: &Params)
    ensures
        final(pixels)@ == fire_flicker_intensity_frame(old(pixels)@, *old(state), *params, 1).0,
        final(pixels)@.len() == old(pixels)@.len(),
        *final(state) == fire_flicker_intensity_frame(old(pixels)@, *old(state), *params, 1).1,
{
    fire_flicker_intensity(pixels, state, params, 1);
}

} // verus!
