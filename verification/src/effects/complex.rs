//! Effects with a story: TwinkleFOX, rain, eyes, filling, fades, heartbeat
//! and spectral fireworks.

use vstd::prelude::*;

use crate::effects::Frame;
use crate::effects::color::ticked;
use crate::params::Params;
use crate::pixel::RGB8;
use crate::segment::EffectState;
use crate::utils::{
    scaled, scaled_value,
    black, blend_color, color_blend, color_is_black, color_wheel, fade_out, faded, fill,
    is_black, lemma_low_half, next_rand, next_rand_of, rgb_of, sin8_of, sine8, solid, wheel_color,
};

verus! {

/// One step of TwinkleFOX's per-pixel generator.
pub open spec fn fox_next(seed: u16) -> u16 {
    seed.wrapping_mul(2053).wrapping_add(13849)
}

/// TwinkleFOX's generator after `n` steps from zero.
pub open spec fn fox_seed(n: nat) -> u16
    decreases n,
{
    if n == 0 {
        0
    } else {
        fox_next(fox_seed((n - 1) as nat))
    }
}

/// The colour TwinkleFOX draws for a pixel whose generator drew `s1` then
/// `s2`, at step `call`.
pub open spec fn fox_pixel(s1: u16, s2: u16, call: u16, c0: RGB8, c1: RGB8, c2: RGB8) -> RGB8 {
    let init = (s1.wrapping_add(s1 >> 8u16) & 0xFFu16) as u8;
    let incr = ((((s2.wrapping_add(s2 >> 8u16) & 0x07u16) as u8) + 1) * 2) as u8;
    let blend_index = init.wrapping_add((call.wrapping_mul(incr as u16) & 0xFFu16) as u8);
    let amount = sin8_of(blend_index);
    if is_black(c0) {
        blend_color(wheel_color(init), c1, amount)
    } else if !is_black(c2) && init >= 128 {
        blend_color(c2, c1, amount)
    } else {
        blend_color(c0, c1, amount)
    }
}

pub open spec fn twinkle_fox_frame(pixels: Seq<RGB8>, state: EffectState, params: Params) -> Frame {
    let call = state.counter as u16;
    (
        Seq::new(
            pixels.len(),
            |i: int|
                fox_pixel(
                    fox_seed((2 * i + 1) as nat),
                    fox_seed((2 * i + 2) as nat),
                    call,
                    params.colors[0],
                    params.colors[1],
                    params.colors[2],
                ),
        ),
        ticked(state),
    )
}

/// TwinkleFOX by Mark Kriegsman — deterministic per-LED sine-blended twinkle.
/// Uses a fixed-seed LCG per LED so the pattern is stable without extra state.
pub fn twinkle_fox(pixels: &mut Vec<RGB8>, state: &mut EffectState, params: &Params)
    ensures
        final(pixels)@ == twinkle_fox_frame(old(pixels)@, *old(state), *params).0,
        final(pixels)@.len() == old(pixels)@.len(),
        *final(state) == twinkle_fox_frame(old(pixels)@, *old(state), *params).1,
{
    let c0 = params.colors[0];
    let c1 = params.colors[1];
    let c2 = params.colors[2];
    let call = state.counter as u16;
    let len = pixels.len();
    let mut seed: u16 = 0;
    let mut i: usize = 0;
    while i < len
        invariant
            len == pixels@.len(),
            len == old(pixels)@.len(),
            i <= len,
            seed == fox_seed((2 * i) as nat),
            call == old(state).counter as u16,
            c0 == params.colors[0],
            c1 == params.colors[1],
            c2 == params.colors[2],
            forall|j: int|
                0 <= j < i ==> pixels@[j] == fox_pixel(
                    fox_seed((2 * j + 1) as nat),
                    fox_seed((2 * j + 2) as nat),
                    call,
                    c0,
                    c1,
                    c2,
                ),
        decreases len - i,
    {
        seed = seed.wrapping_mul(2053).wrapping_add(13849);
        let s1 = seed;
        let init = ((seed.wrapping_add(seed >> 8u16)) & 0xFFu16) as u8;
        seed = seed.wrapping_mul(2053).wrapping_add(13849);
        let s2 = seed;
        let low = ((seed.wrapping_add(seed >> 8u16)) & 0x07u16) as u8;
        assert(low <= 7) by (bit_vector)
            requires
                low == ((s2.wrapping_add(s2 >> 8u16)) & 0x07u16) as u8,
        ;
        let incr = (low + 1) * 2;
        let blend_index = init.wrapping_add((call.wrapping_mul(incr as u16) & 0xFFu16) as u8);
        let amount = sine8(blend_index);
        let c = if color_is_black(c0) {
            color_blend(color_wheel(init), c1, amount)
        } else if !color_is_black(c2) && init >= 128 {
            color_blend(c2, c1, amount)
        } else {
            color_blend(c0, c1, amount)
        };
        assert(s1 == fox_seed((2 * i + 1) as nat));
        assert(s2 == fox_seed((2 * i + 2) as nat));
        pixels.set(i, c);
        i = i + 1;
    }
    assert(pixels@ =~= twinkle_fox_frame(old(pixels)@, *old(state), *params).0);
    state.counter = state.counter.wrapping_add(1);
}

/// `pixels` moved two places along, black entering at the start.
pub open spec fn fallen(pixels: Seq<RGB8>) -> Seq<RGB8> {
    seq![rgb_of(0, 0, 0), rgb_of(0, 0, 0)] + pixels.subrange(0, pixels.len() - 2)
}

fn fall(pixels: &mut Vec<RGB8>)
    requires
        old(pixels)@.len() > 2,
    ensures
        final(pixels)@ == fallen(old(pixels)@),
{
    let len = pixels.len();
    let mut i: usize = len - 1;
    while i >= 2
        invariant
            len == pixels@.len(),
            len == old(pixels)@.len(),
            len > 2,
            1 <= i < len,
            forall|j: int| i < j < len ==> pixels@[j] == old(pixels)@[j - 2],
            forall|j: int| 0 <= j <= i ==> pixels@[j] == old(pixels)@[j],
        decreases i,
    {
        let c = pixels[i - 2];
        pixels.set(i, c);
        i = i - 1;
    }
    pixels.set(0, black());
    pixels.set(1, black());
    assert(pixels@ =~= fallen(old(pixels)@));
}

pub open spec fn rain_frame(pixels: Seq<RGB8>, state: EffectState, params: Params) -> Frame {
    let len = pixels.len();
    let rng = next_rand_of(state.aux);
    let color = if rng & 1u32 == 0 {
        params.colors[0]
    } else {
        params.colors[2]
    };
    let dim = faded(pixels, rgb_of(0, 0, 0), scaled_value(128, params.intensity));
    let (drop, aux) = if rng % 8 == 0 && len > 2 {
        let rng2 = next_rand_of(rng);
        (dim.update((rng2 % ((len - 2) as u32) + 1) as int, color), rng2)
    } else {
        (dim, rng)
    };
    (if len > 2 {
        fallen(drop)
    } else {
        drop
    }, EffectState { aux, ..state })
}

/// Fireworks + 2-pixel downward shift = falling rain.
/// `colors[0]` and `colors[2]` alternate as raindrop colors.
pub fn rain(pixels: &mut Vec<RGB8>, state: &mut EffectState, params: &Params)
    requires
        0 < old(pixels)@.len() <= u32::MAX,
    ensures
        final(pixels)@ == rain_frame(old(pixels)@, *old(state), *params).0,
        final(pixels)@.len() == old(pixels)@.len(),
        *final(state) == rain_frame(old(pixels)@, *old(state), *params).1,
{
    let len = pixels.len();
    let rng = next_rand(state.aux);
    state.aux = rng;
    let rain_color = if rng & 1u32 == 0 {
        params.colors[0]
    } else {
        params.colors[2]
    };
    let rate = scaled(128, params.intensity);
    fade_out(pixels, black(), rate);
    if rng % 8 == 0 && len > 2 {
        let rng2 = next_rand(rng);
        state.aux = rng2;
        let idx = (rng2 % ((len as u32) - 2) + 1) as usize;
        pixels.set(idx, rain_color);
    }
    if len > 2 {
        fall(pixels);
    }
}

/// The pixels with the two eyes at `pos` and `pos + half` in `color`, over
/// black, when both lie on the strip.
pub open spec fn eyes(len: nat, pos: int, half: int, color: RGB8) -> Seq<RGB8> {
    let dark = solid(len, rgb_of(0, 0, 0));
    if pos < len && pos + half < len {
        dark.update(pos, color).update(pos + half, color)
    } else {
        dark
    }
}

/// The states [`icu`] can step from: settled, or moving one pixel toward the
/// destination.
pub open spec fn icu_half(len: int) -> int {
    if len / 2 < 1 {
        1
    } else {
        len / 2
    }
}

pub open spec fn icu_frame(pixels: Seq<RGB8>, state: EffectState, params: Params) -> Frame {
    let len = pixels.len();
    let half = icu_half(len as int);
    let pos = state.counter as int;
    let dest = (state.aux & 0xFFFFu32) as int;
    if (state.aux >> 16u32) & 1u32 == 1 {
        let wait = state.aux >> 17u32;
        let aux = if wait >= 8 {
            let rng = next_rand_of(state.aux);
            ((rng % (half as u32)) as u32) & 0xFFFFu32
        } else {
            (state.aux & !(0x7Fu32 << 17u32)) | (((wait + 1) as u32) << 17u32)
        };
        (eyes(len, pos, half, params.colors[0]), EffectState { aux, ..state })
    } else {
        let new_pos = if dest > pos {
            pos + 1
        } else if dest < pos {
            pos - 1
        } else {
            pos
        };
        let aux = if new_pos == dest {
            (dest as u32 & 0xFFFFu32) | (1u32 << 16u32)
        } else {
            state.aux
        };
        (eyes(len, new_pos, half, params.colors[0]), EffectState { counter: new_pos as u32, aux })
    }
}

fn draw_eyes(pixels: &mut Vec<RGB8>, pos: usize, half: usize, color: RGB8)
    requires
        old(pixels)@.len() > 0,
    ensures
        final(pixels)@ == eyes(old(pixels)@.len(), pos as int, half as int, color),
{
    let len = pixels.len();
    fill(pixels, black());
    if pos < len && half < len - pos {
        pixels.set(pos, color);
        pixels.set(pos + half, color);
    }
}

/// Two "eyes" move toward a random target, pause, then pick a new target.
/// `state.counter` = eye position, `state.aux`: low 16 = destination, bit 16 = settled flag.
pub fn icu(pixels: &mut Vec<RGB8>, state: &mut EffectState, params: &Params)
    requires
        0 < old(pixels)@.len() <= u32::MAX,
    ensures
        final(pixels)@ == icu_frame(old(pixels)@, *old(state), *params).0,
        final(pixels)@.len() == old(pixels)@.len(),
        *final(state) == icu_frame(old(pixels)@, *old(state), *params).1,
{
    let len = pixels.len();
    let h = len / 2;
    let half = if h < 1 {
        1
    } else {
        h
    };
    let pos = state.counter as usize;
    let dest = (state.aux & 0xFFFFu32) as usize;
    let settled = (state.aux >> 16u32) & 1u32 == 1;
    if settled {
        draw_eyes(pixels, pos, half, params.colors[0]);
        let wait = state.aux >> 17u32;
        if wait >= 8 {
            let rng = next_rand(state.aux);
            let new_dest = rng % (half as u32);
            state.aux = new_dest & 0xFFFFu32;
        } else {
            assert(wait < 8);
            state.aux = (state.aux & !(0x7Fu32 << 17u32)) | ((wait + 1) << 17u32);
        }
        return;
    }
    let new_pos = if dest > pos {
        pos + 1
    } else if dest < pos {
        pos - 1
    } else {
        pos
    };
    state.counter = new_pos as u32;
    draw_eyes(pixels, new_pos, half, params.colors[0]);
    if new_pos == dest {
        state.aux = (dest as u32 & 0xFFFFu32) | (1u32 << 16u32);
    }
}

/// The foreground and background [`filler_up`] draws while `swapped` is or
/// is not set.
pub open spec fn filler_colors(params: Params, swapped: bool) -> (RGB8, RGB8) {
    if swapped {
        (params.colors[1], params.colors[0])
    } else {
        (params.colors[0], params.colors[1])
    }
}

/// Where [`filler_up`]'s drop is drawn.
pub open spec fn drop_at(drop_pos: int, len: int, fill_level: int) -> int {
    let floor = if len - (fill_level + 1) > 0 {
        len - (fill_level + 1)
    } else {
        0
    };
    if drop_pos < floor {
        drop_pos
    } else {
        floor
    }
}

pub open spec fn filler_up_frame(pixels: Seq<RGB8>, state: EffectState, params: Params) -> Frame {
    let len = pixels.len() as int;
    let drop_pos = state.counter as int;
    let fill_level = (state.aux & 0xFFFFu32) as int;
    let swapped = (state.aux >> 16u32) & 1u32 == 1;
    let (fg, bg) = filler_colors(params, swapped);
    let dp = drop_at(drop_pos, len, fill_level);
    let p = Seq::new(
        pixels.len(),
        |i: int|
            if (0 < fill_level <= len && i >= len - fill_level) || i == dp {
                fg
            } else {
                bg
            },
    );
    let next_drop = drop_pos + 1;
    let landing = if len - fill_level > 0 {
        len - fill_level
    } else {
        0
    };
    let s = if next_drop >= landing {
        let new_fill = fill_level + 1;
        EffectState {
            counter: 0,
            aux: if new_fill >= len {
                ((if swapped { 1u32 } else { 0u32 }) ^ 1u32) << 16u32
            } else {
                (new_fill as u32) | ((if swapped { 1u32 } else { 0u32 }) << 16u32)
            },
        }
    } else {
        EffectState { counter: next_drop as u32, ..state }
    };
    (p, s)
}

/// Liquid filling: a droplet falls and accumulates at the bottom, then swaps colors.
/// `state.counter` = drop position, `state.aux`: low 16 = fill level, bit 16 = color swap.
pub fn filler_up(pixels: &mut Vec<RGB8>, state: &mut EffectState, params: &Params)
    requires
        old(pixels)@.len() > 0,
    ensures
        final(pixels)@ == filler_up_frame(old(pixels)@, *old(state), *params).0,
        final(pixels)@.len() == old(pixels)@.len(),
        *final(state) == filler_up_frame(old(pixels)@, *old(state), *params).1,
{
    let len = pixels.len();
    let drop_pos = state.counter as usize;
    let fill_level = (state.aux & 0xFFFFu32) as usize;
    proof {
        lemma_low_half(old(state).aux);
    }
    let swapped = (state.aux >> 16u32) & 1u32 == 1;
    let fg = if swapped {
        params.colors[1]
    } else {
        params.colors[0]
    };
    let bg = if swapped {
        params.colors[0]
    } else {
        params.colors[1]
    };
    let floor = len.saturating_sub(fill_level + 1);
    let dp = if drop_pos < floor {
        drop_pos
    } else {
        floor
    };
    let mut i: usize = 0;
    while i < len
        invariant
            len == pixels@.len(),
            len == old(pixels)@.len(),
            len > 0,
            i <= len,
            fill_level == (old(state).aux & 0xFFFFu32) as int,
            dp == drop_at(drop_pos as int, len as int, fill_level as int),
            forall|j: int|
                0 <= j < i ==> pixels@[j] == (if (0 < fill_level <= len && j >= len - fill_level) || j
                    == dp {
                    fg
                } else {
                    bg
                }),
        decreases len - i,
    {
        let c = if (fill_level > 0 && fill_level <= len && i >= len - fill_level) || i == dp {
            fg
        } else {
            bg
        };
        pixels.set(i, c);
        i = i + 1;
    }
    assert(pixels@ =~= filler_up_frame(old(pixels)@, *old(state), *params).0);
    let next_drop = drop_pos as u64 + 1;
    let sw: u32 = if swapped {
        1
    } else {
        0
    };
    if next_drop >= len.saturating_sub(fill_level) as u64 {
        let new_fill = fill_level + 1;
        if new_fill >= len {
            state.aux = (sw ^ 1u32) << 16u32;
        } else {
            state.aux = (new_fill as u32) | (sw << 16u32);
        }
        state.counter = 0;
    } else {
        state.counter = next_drop as u32;
    }
}

/// The `k`-th colour [`trifade`] fades through: the three colours, with
/// black between them while `colors[2]` is black.
pub open spec fn trifade_color(colors: [RGB8; 3], use_black: bool, k: int) -> RGB8 {
    if use_black {
        if k % 2 == 1 {
            rgb_of(0, 0, 0)
        } else {
            colors[k / 2]
        }
    } else {
        colors[k]
    }
}

pub open spec fn trifade_frame(pixels: Seq<RGB8>, state: EffectState, params: Params) -> Frame {
    let use_black = is_black(params.colors[2]);
    let num: int = if use_black {
        6
    } else {
        3
    };
    let idx = (state.aux as int) % num;
    let next_idx = (idx + 1) % num;
    let color = blend_color(
        trifade_color(params.colors, use_black, idx),
        trifade_color(params.colors, use_black, next_idx),
        (state.counter & 0xFFu32) as u8,
    );
    let counter = state.counter.wrapping_add(4);
    (solid(pixels.len(), color), EffectState {
        counter,
        aux: if counter & 0xFFu32 < 4 {
            next_idx as u32
        } else {
            state.aux
        },
    })
}

/// Smooth cross-fade between three colors in sequence.
/// With `colors[2] == BLACK`, also fades to black between each pair.
pub fn trifade(pixels: &mut Vec<RGB8>, state: &mut EffectState, params: &Params)
    ensures
        final(pixels)@ == trifade_frame(old(pixels)@, *old(state), *params).0,
        final(pixels)@.len() == old(pixels)@.len(),
        *final(state) == trifade_frame(old(pixels)@, *old(state), *params).1,
{
    let use_black = color_is_black(params.colors[2]);
    let colors_alt: [RGB8; 6] = [
        params.colors[0],
        black(),
        params.colors[1],
        black(),
        params.colors[2],
        black(),
    ];
    let num: usize = if use_black {
        6
    } else {
        3
    };
    let idx = (state.aux as usize) % num;
    let next_idx = (idx + 1) % num;
    let (c1, c2) = if use_black {
        (colors_alt[idx], colors_alt[next_idx])
    } else {
        (params.colors[idx], params.colors[next_idx])
    };
    let blend = (state.counter & 0xFFu32) as u8;
    let color = color_blend(c1, c2, blend);
    fill(pixels, color);
    state.counter = state.counter.wrapping_add(4);
    if state.counter & 0xFFu32 < 4 {
        state.aux = next_idx as u32;
    }
}

/// The states [`heartbeat`] can step from: the beat counter can advance.
pub open spec fn heartbeat_accepts(state: EffectState) -> bool {
    state.counter < u32::MAX
}

/// `pixels` with the left half moved one place toward the start and the right
/// half one place toward the end.
pub open spec fn spread_out(pixels: Seq<RGB8>) -> Seq<RGB8> {
    let len = pixels.len() as int;
    let half = len / 2;
    if half > 1 {
        Seq::new(
            pixels.len(),
            |j: int|
                if j < half - 1 {
                    pixels[j + 1]
                } else if j <= half {
                    pixels[j]
                } else {
                    pixels[j - 1]
                },
        )
    } else {
        pixels
    }
}

fn expand(pixels: &mut Vec<RGB8>)
    ensures
        final(pixels)@ == spread_out(old(pixels)@),
{
    let len = pixels.len();
    let half = len / 2;
    if half > 1 {
        let mut i: usize = 0;
        while i < half - 1
            invariant
                len == pixels@.len(),
                len == old(pixels)@.len(),
                half == len / 2,
                half > 1,
                i <= half - 1,
                forall|j: int| 0 <= j < i ==> pixels@[j] == old(pixels)@[j + 1],
                forall|j: int| i <= j < len ==> pixels@[j] == old(pixels)@[j],
            decreases half - 1 - i,
        {
            let c = pixels[i + 1];
            pixels.set(i, c);
            i = i + 1;
        }
        let mut k: usize = len - 1;
        while k > half
            invariant
                len == pixels@.len(),
                len == old(pixels)@.len(),
                half == len / 2,
                half > 1,
                half <= k < len,
                forall|j: int| 0 <= j < half - 1 ==> pixels@[j] == old(pixels)@[j + 1],
                forall|j: int| half - 1 <= j <= k ==> pixels@[j] == old(pixels)@[j],
                forall|j: int| k < j < len ==> pixels@[j] == old(pixels)@[j - 1],
            decreases k,
        {
            let c = pixels[k - 1];
            pixels.set(k, c);
            k = k - 1;
        }
        assert(pixels@ =~= spread_out(old(pixels)@));
    }
}

pub open spec fn heartbeat_frame(pixels: Seq<RGB8>, state: EffectState, params: Params) -> Frame {
    let len = pixels.len() as int;
    let half = len / 2;
    let dim = faded(spread_out(pixels), rgb_of(0, 0, 0), scaled_value(32, params.intensity));
    let size = if half < 2 {
        half
    } else {
        2
    };
    (
        if state.counter == 0 || state.counter == 8 {
            Seq::new(
                pixels.len(),
                |j: int|
                    if half - size <= j < half + size {
                        params.colors[0]
                    } else {
                        dim[j]
                    },
            )
        } else {
            dim
        },
        EffectState { counter: ((state.counter + 1) % 60) as u32, ..state },
    )
}

/// Dual heartbeat pulses expand from the center outward with a fading trail.
/// `state.counter` encodes beat phase (0 = first beat, 8 = second beat, 24+ = rest).
pub fn heartbeat(pixels: &mut Vec<RGB8>, state: &mut EffectState, params: &Params)
    requires
        heartbeat_accepts(*old(state)),
    ensures
        final(pixels)@ == heartbeat_frame(old(pixels)@, *old(state), *params).0,
        final(pixels)@.len() == old(pixels)@.len(),
        *final(state) == heartbeat_frame(old(pixels)@, *old(state), *params).1,
        heartbeat_accepts(*final(state)),
{
    let len = pixels.len();
    let half = len / 2;
    expand(pixels);
    let rate = scaled(32, params.intensity);
    fade_out(pixels, black(), rate);
    let ghost dim = pixels@;
    let step = state.counter;
    if step == 0 || step == 8 {
        let size = if half < 2 {
            half
        } else {
            2
        };
        let mut j: usize = half - size;
        while j < half + size
            invariant
                len == pixels@.len(),
                len == dim.len(),
                half == len / 2,
                size <= half,
                half - size <= j <= half + size,
                forall|k: int| half - size <= k < j ==> pixels@[k] == params.colors[0],
                forall|k: int| 0 <= k < len && !(half - size <= k < j) ==> pixels@[k] == dim[k],
            decreases half + size - j,
        {
            pixels.set(j, params.colors[0]);
            j = j + 1;
        }
        assert(pixels@ =~= heartbeat_frame(old(pixels)@, *old(state), *params).0);
    }
    state.counter = (state.counter + 1) % 60;
}

/// The rainbow step a fading red pixel of red level `r` spawns: how far away
/// its neighbours light and in what colour.
pub open spec fn spawn_of(r: u8) -> Option<(int, RGB8)> {
    if r == 0x7F {
        Some((1, rgb_of(255, 127, 0)))
    } else if r == 0x3F {
        Some((2, rgb_of(255, 255, 0)))
    } else if r == 0x1F {
        Some((3, rgb_of(0, 255, 0)))
    } else if r == 0x0F {
        Some((4, rgb_of(0, 0, 255)))
    } else if r == 0x07 {
        Some((5, rgb_of(75, 0, 130)))
    } else if r == 0x03 {
        Some((6, rgb_of(148, 0, 211)))
    } else {
        None
    }
}

/// `c` at half brightness.
pub open spec fn halved(c: RGB8) -> RGB8 {
    RGB8 { r: c.r / 2, g: c.g / 2, b: c.b / 2 }
}

/// Pixel `i` halved, and the neighbours it spawns lit.
pub open spec fn burst_step(pixels: Seq<RGB8>, i: int) -> Seq<RGB8> {
    let f = halved(pixels[i]);
    let p = pixels.update(i, f);
    if f.g == 0 && f.b == 0 {
        match spawn_of(f.r) {
            Some((dist, color)) => {
                let p1 = if i >= dist {
                    p.update(i - dist, color)
                } else {
                    p
                };
                if i + dist < pixels.len() {
                    p1.update(i + dist, color)
                } else {
                    p1
                }
            },
            None => p,
        }
    } else {
        p
    }
}

/// `pixels` after the first `n` pixels have each been halved and spawned.
pub open spec fn burst_pass(pixels: Seq<RGB8>, n: nat) -> Seq<RGB8>
    decreases n,
{
    if n == 0 {
        pixels
    } else {
        burst_step(burst_pass(pixels, (n - 1) as nat), n - 1)
    }
}

pub proof fn lemma_burst_pass_len(pixels: Seq<RGB8>, n: nat)
    requires
        n <= pixels.len(),
    ensures
        burst_pass(pixels, n).len() == pixels.len(),
    decreases n,
{
    if n > 0 {
        lemma_burst_pass_len(pixels, (n - 1) as nat);
    }
}

pub open spec fn rainbow_fireworks_frame(pixels: Seq<RGB8>, state: EffectState, params: Params) -> Frame {
    let len = pixels.len();
    let p = burst_pass(pixels, len);
    let rng = next_rand_of(state.aux);
    (
        if rng % 4 == 0 && len > 12 {
            p.update((next_rand_of(rng) % ((len - 12) as u32) + 6) as int, rgb_of(255, 0, 0))
        } else {
            p
        },
        EffectState { aux: rng, ..state },
    )
}

/// Sets `pixels[at]` to `color` when `at` is on the strip.
fn set_if_on(pixels: &mut Vec<RGB8>, at: usize, on: bool, color: RGB8)
    requires
        on ==> at < old(pixels)@.len(),
    ensures
        final(pixels)@ == (if on {
            old(pixels)@.update(at as int, color)
        } else {
            old(pixels)@
        }),
{
    if on {
        pixels.set(at, color);
    }
}

/// Spectral fireworks: red pixels expand through the rainbow as they fade.
pub fn rainbow_fireworks(pixels: &mut Vec<RGB8>, state: &mut EffectState, params: &Params)
    requires
        old(pixels)@.len() <= u32::MAX,
    ensures
        final(pixels)@ == rainbow_fireworks_frame(old(pixels)@, *old(state), *params).0,
        final(pixels)@.len() == old(pixels)@.len(),
        *final(state) == rainbow_fireworks_frame(old(pixels)@, *old(state), *params).1,
{
    let len = pixels.len();
    let mut i: usize = 0;
    while i < len
        invariant
            len == pixels@.len(),
            len == old(pixels)@.len(),
            i <= len,
            pixels@ == burst_pass(old(pixels)@, i as nat),
        decreases len - i,
    {
        proof {
            lemma_burst_pass_len(old(pixels)@, i as nat);
        }
        let c = pixels[i];
        let faded = RGB8 { r: c.r / 2, g: c.g / 2, b: c.b / 2 };
        pixels.set(i, faded);
        if faded.g == 0 && faded.b == 0 {
            let r = faded.r;
            let dist: usize = if r == 0x7F {
                1
            } else if r == 0x3F {
                2
            } else if r == 0x1F {
                3
            } else if r == 0x0F {
                4
            } else if r == 0x07 {
                5
            } else if r == 0x03 {
                6
            } else {
                0
            };
            if dist > 0 {
                let neighbor = if r == 0x7F {
                    RGB8 { r: 255, g: 127, b: 0 }
                } else if r == 0x3F {
                    RGB8 { r: 255, g: 255, b: 0 }
                } else if r == 0x1F {
                    RGB8 { r: 0, g: 255, b: 0 }
                } else if r == 0x0F {
                    RGB8 { r: 0, g: 0, b: 255 }
                } else if r == 0x07 {
                    RGB8 { r: 75, g: 0, b: 130 }
                } else {
                    RGB8 { r: 148, g: 0, b: 211 }
                };
                let below = if i >= dist {
                    i - dist
                } else {
                    0
                };
                set_if_on(pixels, below, i >= dist, neighbor);
                let above_on = dist < len - i;
                let above = if above_on {
                    i + dist
                } else {
                    0
                };
                set_if_on(pixels, above, above_on, neighbor);
            }
        }
        i = i + 1;
    }
    let rng = next_rand(state.aux);
    state.aux = rng;
    if rng % 4 == 0 && len > 12 {
        let idx = (next_rand(rng) % ((len - 12) as u32) + 6) as usize;
        pixels.set(idx, RGB8 { r: 255, g: 0, b: 0 });
    }
}

} // verus!
