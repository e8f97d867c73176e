//! Wipes, scans, chases and running bands.

use vstd::prelude::*;

use crate::effects::Frame;
use crate::effects::color::ticked;
use crate::params::Params;
use crate::pixel::RGB8;
use crate::segment::EffectState;
use crate::utils::{
    black, color_wheel, next_rand, next_rand_of, rand_wheel_index, rgb_of, wheel_color,
    wheel_pick, white, WHEEL_DRAWS,
};

verus! {

/// `aux` with a new random wheel index, at least 42 hue steps from the old
/// one, in its low byte and the generator's state above it.
pub open spec fn repicked(aux: u32) -> u32 {
    let (idx, rng) = wheel_pick((aux & 0xFFu32) as u8, aux >> 8u32, (WHEEL_DRAWS - 1) as nat);
    idx as u32 | (rng << 8u32)
}

fn repick(aux: u32) -> (next: u32)
    ensures
        next == repicked(aux),
{
    let idx = (aux & 0xFFu32) as u8;
    let rng = aux >> 8u32;
    let (new_idx, new_rng) = rand_wheel_index(idx, rng);
    new_idx as u32 | (new_rng << 8u32)
}

/// The colour around the hue wheel, or along the palette, whose index `aux`
/// holds in its low byte.
pub open spec fn packed_color(aux: u32, params: Params) -> RGB8 {
    params.wheel_spec((aux & 0xFFu32) as u8)
}

/// `pixels` moved one place along, with `color` entering at the start.
pub open spec fn shifted_in(pixels: Seq<RGB8>, color: RGB8) -> Seq<RGB8> {
    seq![color] + pixels.subrange(0, pixels.len() - 1)
}

/// Moves every pixel one place along and sets the first to `color`.
fn shift_in(pixels: &mut Vec<RGB8>, color: RGB8)
    requires
        old(pixels)@.len() > 0,
    ensures
        final(pixels)@ == shifted_in(old(pixels)@, color),
{
    let len = pixels.len();
    let mut i: usize = len - 1;
    while i > 0
        invariant
            len == pixels@.len(),
            len == old(pixels)@.len(),
            len > 0,
            i < len,
            forall|j: int| i < j < len ==> pixels@[j] == old(pixels)@[j - 1],
            forall|j: int| 0 <= j <= i ==> pixels@[j] == old(pixels)@[j],
        decreases i,
    {
        let c = pixels[i - 1];
        pixels.set(i, c);
        i = i - 1;
    }
    pixels.set(0, color);
    assert(pixels@ =~= shifted_in(old(pixels)@, color));
}

/// Where the wipe of [`color_wipe`] stands at `counter` on a strip of `len`.
pub open spec fn wipe_step(counter: u32, len: int) -> int {
    (counter as int) % (len * 2)
}

/// One step of a wipe: `on` over the strip, then `off` over it again.
pub open spec fn wiped(pixels: Seq<RGB8>, counter: u32, on: RGB8, off: RGB8) -> Seq<RGB8> {
    let len = pixels.len() as int;
    let step = wipe_step(counter, len);
    if step < len {
        pixels.update(step, on)
    } else {
        pixels.update(step - len, off)
    }
}

fn wipe(pixels: &mut Vec<RGB8>, counter: u32, on: RGB8, off: RGB8)
    requires
        old(pixels)@.len() > 0,
        old(pixels)@.len() * 2 <= usize::MAX,
    ensures
        final(pixels)@ == wiped(old(pixels)@, counter, on, off),
{
    let len = pixels.len();
    let step = counter as usize % (len * 2);
    if step < len {
        pixels.set(step, on);
    } else {
        pixels.set(step - len, off);
    }
}

pub open spec fn color_wipe_frame(pixels: Seq<RGB8>, state: EffectState, params: Params) -> Frame {
    (wiped(pixels, state.counter, params.colors[0], params.colors[1]), ticked(state))
}

/// `colors[0]` wiped over the strip one pixel per step, then `colors[1]`.
pub fn color_wipe(pixels: &mut Vec<RGB8>, state: &mut EffectState, params: &Params)
    requires
        params.fits_palette(old(pixels)@.len()),
        old(pixels)@.len() > 0,
        old(pixels)@.len() * 2 <= usize::MAX,
    ensures
        final(pixels)@ == color_wipe_frame(old(pixels)@, *old(state), *params).0,
        final(pixels)@.len() == old(pixels)@.len(),
        *final(state) == color_wipe_frame(old(pixels)@, *old(state), *params).1,
{
    wipe(pixels, state.counter, params.colors[0], params.colors[1]);
    state.counter = state.counter.wrapping_add(1);
}

pub open spec fn color_wipe_inv_frame(pixels: Seq<RGB8>, state: EffectState, params: Params) -> Frame {
    (wiped(pixels, state.counter, params.colors[1], params.colors[0]), ticked(state))
}

/// [`color_wipe`] with the two colours swapped: `colors[1]` first.
pub fn color_wipe_inv(pixels: &mut Vec<RGB8>, state: &mut EffectState, params: &Params)
    requires
        params.fits_palette(old(pixels)@.len()),
        old(pixels)@.len() > 0,
        old(pixels)@.len() * 2 <= usize::MAX,
    ensures
        final(pixels)@ == color_wipe_inv_frame(old(pixels)@, *old(state), *params).0,
        final(pixels)@.len() == old(pixels)@.len(),
        *final(state) == color_wipe_inv_frame(old(pixels)@, *old(state), *params).1,
{
    wipe(pixels, state.counter, params.colors[1], params.colors[0]);
    state.counter = state.counter.wrapping_add(1);
}

/// `aux` after a step at `step` of a random wipe: repicked when the wipe
/// starts over.
pub open spec fn repicked_at(aux: u32, restart: bool) -> u32 {
    if restart {
        repicked(aux)
    } else {
        aux
    }
}

pub open spec fn color_wipe_random_frame(pixels: Seq<RGB8>, state: EffectState, params: Params) -> Frame {
    let len = pixels.len() as int;
    let aux = repicked_at(state.aux, wipe_step(state.counter, len) == 0);
    let color = packed_color(aux, params);
    (wiped(pixels, state.counter, color, color), EffectState { counter: state.counter.wrapping_add(1), aux })
}

/// color_wipe that picks a new random wheel color each cycle.
/// `state.aux` packs the wheel index (low byte) and rng seed (high 3 bytes).
pub fn color_wipe_random(pixels: &mut Vec<RGB8>, state: &mut EffectState, params: &Params)
    requires
        params.fits_palette(old(pixels)@.len()),
        old(pixels)@.len() > 0,
        old(pixels)@.len() * 2 <= usize::MAX,
    ensures
        final(pixels)@ == color_wipe_random_frame(old(pixels)@, *old(state), *params).0,
        final(pixels)@.len() == old(pixels)@.len(),
        *final(state) == color_wipe_random_frame(old(pixels)@, *old(state), *params).1,
{
    let len = pixels.len();
    let step = state.counter as usize % (len * 2);
    if step == 0 {
        state.aux = repick(state.aux);
    }
    let color = params.wheel((state.aux & 0xFFu32) as u8);
    wipe(pixels, state.counter, color, color);
    state.counter = state.counter.wrapping_add(1);
}

/// Whether [`color_sweep_random`] runs forward at `counter`.
pub open spec fn sweep_forward(counter: u32, len: int) -> bool {
    (counter as int / (len * 2)) % 2 == 0
}

pub open spec fn color_sweep_random_frame(pixels: Seq<RGB8>, state: EffectState, params: Params) -> Frame {
    let len = pixels.len() as int;
    let step = wipe_step(state.counter, len);
    let forward = sweep_forward(state.counter, len);
    let aux = repicked_at(state.aux, step == 0);
    let color = packed_color(aux, params);
    let capped = if step < len - 1 {
        step
    } else {
        len - 1
    };
    let pos = if forward {
        capped
    } else {
        len - 1 - capped
    };
    let p = if step < len {
        pixels.update(pos, color)
    } else {
        let back = if step - len < len - 1 {
            step - len
        } else {
            len - 1
        };
        let off_pos = if forward {
            step - len
        } else {
            len - 1 - back
        };
        if off_pos < len {
            pixels.update(off_pos, rgb_of(0, 0, 0))
        } else {
            pixels
        }
    };
    (p, EffectState { counter: state.counter.wrapping_add(1), aux })
}

/// Alternating forward and reverse color wipes with a new random color each sweep.
pub fn color_sweep_random(pixels: &mut Vec<RGB8>, state: &mut EffectState, params: &Params)
    requires
        old(pixels)@.len() > 0,
        old(pixels)@.len() < 0x8000_0000,
    ensures
        final(pixels)@ == color_sweep_random_frame(old(pixels)@, *old(state), *params).0,
        final(pixels)@.len() == old(pixels)@.len(),
        *final(state) == color_sweep_random_frame(old(pixels)@, *old(state), *params).1,
{
    let len = pixels.len();
    let step = state.counter as usize % (len * 2);
    let forward = (state.counter / ((len as u32) * 2)) % 2 == 0;
    if step == 0 {
        state.aux = repick(state.aux);
    }
    let color = params.wheel((state.aux & 0xFFu32) as u8);
    let capped = if step < len - 1 {
        step
    } else {
        len - 1
    };
    let pos = if forward {
        capped
    } else {
        len - 1 - capped
    };
    if step < len {
        pixels.set(pos, color);
    } else {
        let back = if step - len < len - 1 {
            step - len
        } else {
            len - 1
        };
        let off_pos = if forward {
            step - len
        } else {
            len - 1 - back
        };
        if off_pos < len {
            pixels.set(off_pos, black());
        }
    }
    state.counter = state.counter.wrapping_add(1);
}

/// The states [`scan`] and [`dual_scan`] can step from: going forward, the
/// counter can still advance.
pub open spec fn scan_accepts(state: EffectState) -> bool {
    state.aux != 0 || state.counter < u32::MAX
}

/// The state after a bouncing step that turns back at `turn` going forward.
pub open spec fn bounced(state: EffectState, turn: int) -> EffectState {
    if state.aux == 0 {
        let counter = (state.counter + 1) as u32;
        EffectState { counter, aux: if counter >= turn { 1 } else { state.aux } }
    } else {
        let counter = state.counter.saturating_sub(1);
        EffectState { counter, aux: if counter == 0 { 0 } else { state.aux } }
    }
}

fn bounce(state: &mut EffectState, turn: usize)
    requires
        scan_accepts(*old(state)),
        turn <= u32::MAX,
    ensures
        *final(state) == bounced(*old(state), turn as int),
        scan_accepts(*final(state)),
{
    if state.aux == 0 {
        state.counter = state.counter + 1;
        if state.counter as usize >= turn {
            state.aux = 1;
        }
    } else {
        state.counter = state.counter.saturating_sub(1);
        if state.counter == 0 {
            state.aux = 0;
        }
    }
}

pub open spec fn scan_frame(pixels: Seq<RGB8>, state: EffectState, params: Params) -> Frame {
    let len = pixels.len() as int;
    let pos = state.counter as int;
    let back = Seq::new(pixels.len(), |i: int| params.colors[1]);
    (if pos < len {
        back.update(pos, params.colors[0])
    } else {
        back
    }, bounced(state, len - 1))
}

/// A single dot bouncing back and forth.
/// `colors[0]` = dot, `colors[1]` = background.
pub fn scan(pixels: &mut Vec<RGB8>, state: &mut EffectState, params: &Params)
    requires
        old(pixels)@.len() > 0,
        old(pixels)@.len() <= 0x1_0000_0000,
        scan_accepts(*old(state)),
    ensures
        final(pixels)@ == scan_frame(old(pixels)@, *old(state), *params).0,
        final(pixels)@.len() == old(pixels)@.len(),
        *final(state) == scan_frame(old(pixels)@, *old(state), *params).1,
        scan_accepts(*final(state)),
{
    let len = pixels.len();
    let pos = state.counter as usize;
    crate::utils::fill(pixels, params.colors[1]);
    if pos < len {
        pixels.set(pos, params.colors[0]);
    }
    assert(pixels@ =~= scan_frame(old(pixels)@, *old(state), *params).0);
    bounce(state, len - 1);
}

pub open spec fn dual_scan_frame(pixels: Seq<RGB8>, state: EffectState, params: Params) -> Frame {
    let len = pixels.len() as int;
    let pos = state.counter as int;
    let back = Seq::new(pixels.len(), |i: int| params.colors[1]);
    (if pos < len {
        back.update(pos, params.colors[0]).update(len - 1 - pos, params.colors[0])
    } else {
        back
    }, bounced(state, len / 2))
}

/// Two dots mirrored from each end, converging and diverging.
pub fn dual_scan(pixels: &mut Vec<RGB8>, state: &mut EffectState, params: &Params)
    requires
        old(pixels)@.len() > 0,
        old(pixels)@.len() <= 0x1_FFFF_FFFF,
        scan_accepts(*old(state)),
    ensures
        final(pixels)@ == dual_scan_frame(old(pixels)@, *old(state), *params).0,
        final(pixels)@.len() == old(pixels)@.len(),
        *final(state) == dual_scan_frame(old(pixels)@, *old(state), *params).1,
        scan_accepts(*final(state)),
{
    let len = pixels.len();
    let pos = state.counter as usize;
    crate::utils::fill(pixels, params.colors[1]);
    if pos < len {
        pixels.set(pos, params.colors[0]);
        pixels.set(len - 1 - pos, params.colors[0]);
    }
    assert(pixels@ =~= dual_scan_frame(old(pixels)@, *old(state), *params).0);
    bounce(state, len / 2);
}

pub open spec fn tricolor_chase_frame(pixels: Seq<RGB8>, state: EffectState, params: Params) -> Frame {
    (
        Seq::new(pixels.len(), |i: int| params.colors[(i + state.counter) % 3]),
        ticked(state),
    )
}

/// The three colours repeating along the strip, moving one pixel per step.
pub fn tricolor_chase(pixels: &mut Vec<RGB8>, state: &mut EffectState, params: &Params)
    ensures
        final(pixels)@ == tricolor_chase_frame(old(pixels)@, *old(state), *params).0,
        final(pixels)@.len() == old(pixels)@.len(),
        *final(state) == tricolor_chase_frame(old(pixels)@, *old(state), *params).1,
{
    let len = pixels.len();
    let offset = state.counter as u64;
    let mut i: usize = 0;
    while i < len
        invariant
            len == pixels@.len(),
            len == old(pixels)@.len(),
            offset == old(state).counter,
            i <= len,
            forall|j: int| 0 <= j < i ==> pixels@[j] == params.colors[(j + offset) % 3],
        decreases len - i,
    {
        proof {
            vstd::arithmetic::div_mod::lemma_add_mod_noop(i as int, offset as int, 3);
        }
        let k = (i % 3 + (offset % 3) as usize) % 3;
        pixels.set(i, params.colors[k]);
        i = i + 1;
    }
    assert(pixels@ =~= tricolor_chase_frame(old(pixels)@, *old(state), *params).0);
    state.counter = state.counter.wrapping_add(1);
}

pub open spec fn theater_chase_rainbow_frame(pixels: Seq<RGB8>, state: EffectState, params: Params) -> Frame {
    let aux = state.aux.wrapping_add(1) & 0xFFu32;
    let color = wheel_color(aux as u8);
    let offset = (state.counter % 3) as int;
    (
        Seq::new(
            pixels.len(),
            |i: int|
                if (i + offset) % 3 == 0 {
                    color
                } else {
                    params.colors[1]
                },
        ),
        EffectState { counter: state.counter.wrapping_add(1), aux },
    )
}

/// Theater chase with a rotating hue on the leading dot.
/// `state.aux` = current wheel index.
pub fn theater_chase_rainbow(pixels: &mut Vec<RGB8>, state: &mut EffectState, params: &Params)
    ensures
        final(pixels)@ == theater_chase_rainbow_frame(old(pixels)@, *old(state), *params).0,
        final(pixels)@.len() == old(pixels)@.len(),
        *final(state) == theater_chase_rainbow_frame(old(pixels)@, *old(state), *params).1,
{
    state.aux = state.aux.wrapping_add(1) & 0xFFu32;
    let color = color_wheel(state.aux as u8);
    let offset = (state.counter % 3) as usize;
    let len = pixels.len();
    let mut i: usize = 0;
    while i < len
        invariant
            len == pixels@.len(),
            len == old(pixels)@.len(),
            offset == old(state).counter % 3,
            color == wheel_color((old(state).aux.wrapping_add(1) & 0xFFu32) as u8),
            i <= len,
            forall|j: int|
                0 <= j < i ==> pixels@[j] == (if (j + offset) % 3 == 0 {
                    color
                } else {
                    params.colors[1]
                }),
        decreases len - i,
    {
        proof {
            vstd::arithmetic::div_mod::lemma_add_mod_noop(i as int, offset as int, 3);
            vstd::arithmetic::div_mod::lemma_small_mod(offset as nat, 3);
        }
        let c = if (i % 3 + offset) % 3 == 0 {
            color
        } else {
            params.colors[1]
        };
        pixels.set(i, c);
        i = i + 1;
    }
    assert(pixels@ =~= theater_chase_rainbow_frame(old(pixels)@, *old(state), *params).0);
    state.counter = state.counter.wrapping_add(1);
}

/// Length of the moving block in the chases on a strip of `len`.
pub open spec fn dot_len(len: int) -> int {
    if len / 8 < 1 {
        1
    } else {
        len / 8
    }
}

/// Where pixel `i` falls in a chase moved `counter` steps on a strip of `len`.
pub open spec fn chase_pos(i: int, counter: u32, len: int) -> int {
    (i + (counter as int) % len) % len
}

/// The colour of a chase pixel at `pos`: a block of `c0`, a block of `c1`,
/// then `c2`.
pub open spec fn chase_color(pos: int, dot: int, c0: RGB8, c1: RGB8, c2: RGB8) -> RGB8 {
    if pos < dot {
        c0
    } else if pos < dot * 2 {
        c1
    } else {
        c2
    }
}

pub open spec fn chase_frame(pixels: Seq<RGB8>, state: EffectState, params: Params) -> Frame {
    let len = pixels.len() as int;
    (
        Seq::new(
            pixels.len(),
            |i: int|
                chase_color(
                    chase_pos(i, state.counter, len),
                    dot_len(len),
                    params.colors[0],
                    params.colors[1],
                    params.colors[2],
                ),
        ),
        ticked(state),
    )
}

/// Paints a chase: pixel `i` takes [`chase_color`] at its chase position.
fn paint_chase(pixels: &mut Vec<RGB8>, counter: u32, c0: RGB8, c1: RGB8, c2: RGB8)
    requires
        old(pixels)@.len() > 0,
    ensures
        final(pixels)@ == Seq::new(
            old(pixels)@.len(),
            |i: int|
                chase_color(
                    chase_pos(i, counter, old(pixels)@.len() as int),
                    dot_len(old(pixels)@.len() as int),
                    c0,
                    c1,
                    c2,
                ),
        ),
{
    let len = pixels.len();
    let d = len / 8;
    let dot = if d < 1 {
        1
    } else {
        d
    };
    let offset = counter as usize % len;
    let mut i: usize = 0;
    while i < len
        invariant
            len == pixels@.len(),
            len == old(pixels)@.len(),
            len > 0,
            dot == dot_len(len as int),
            offset == (counter as int) % (len as int),
            i <= len,
            forall|j: int|
                0 <= j < i ==> pixels@[j] == chase_color(
                    chase_pos(j, counter, len as int),
                    dot as int,
                    c0,
                    c1,
                    c2,
                ),
        decreases len - i,
    {
        let pos = if offset < len - i {
            i + offset
        } else {
            offset - (len - i)
        };
        assert(pos == (i + offset) % (len as int)) by (nonlinear_arith)
            requires
                i < len,
                offset < len,
                pos == (if offset < len - i { i + offset } else { offset - (len - i) }),
        ;
        let c = if pos < dot {
            c0
        } else if pos < dot * 2 {
            c1
        } else {
            c2
        };
        pixels.set(i, c);
        i = i + 1;
    }
    assert(pixels@ =~= Seq::new(
        old(pixels)@.len(),
        |i: int|
            chase_color(
                chase_pos(i, counter, old(pixels)@.len() as int),
                dot_len(old(pixels)@.len() as int),
                c0,
                c1,
                c2,
            ),
    ));
}

/// Three-color chase: block of each color advances one step per call.
pub fn chase(pixels: &mut Vec<RGB8>, state: &mut EffectState, params: &Params)
    requires
        params.fits_palette(old(pixels)@.len()),
        old(pixels)@.len() > 0,
    ensures
        final(pixels)@ == chase_frame(old(pixels)@, *old(state), *params).0,
        final(pixels)@.len() == old(pixels)@.len(),
        *final(state) == chase_frame(old(pixels)@, *old(state), *params).1,
{
    paint_chase(pixels, state.counter, params.colors[0], params.colors[1], params.colors[2]);
    state.counter = state.counter.wrapping_add(1);
}

pub open spec fn chase_random_frame(pixels: Seq<RGB8>, state: EffectState, params: Params) -> Frame {
    let len = pixels.len() as int;
    let aux = repicked_at(state.aux, (state.counter as int) % len == 0);
    let color = packed_color(aux, params);
    let w = rgb_of(255, 255, 255);
    (
        Seq::new(
            pixels.len(),
            |i: int| chase_color(chase_pos(i, state.counter, len), dot_len(len), color, w, w),
        ),
        EffectState { counter: state.counter.wrapping_add(1), aux },
    )
}

/// Chase with a random hue that changes each full cycle.
/// Packs wheel_idx in low byte of `state.aux`, rng seed in high 3 bytes.
pub fn chase_random(pixels: &mut Vec<RGB8>, state: &mut EffectState, params: &Params)
    requires
        params.fits_palette(old(pixels)@.len()),
        old(pixels)@.len() > 0,
    ensures
        final(pixels)@ == chase_random_frame(old(pixels)@, *old(state), *params).0,
        final(pixels)@.len() == old(pixels)@.len(),
        *final(state) == chase_random_frame(old(pixels)@, *old(state), *params).1,
{
    let len = pixels.len();
    let offset = state.counter as usize % len;
    if offset == 0 {
        state.aux = repick(state.aux);
    }
    let color = params.wheel((state.aux & 0xFFu32) as u8);
    paint_chase(pixels, state.counter, color, white(), white());
    state.counter = state.counter.wrapping_add(1);
}

/// The byte `aux` carries as a call count for the rainbow chases.
pub open spec fn call_count(aux: u32) -> u8 {
    (aux & 0xFFu32) as u8
}

/// `aux` with its call count advanced by one.
pub open spec fn counted(aux: u32) -> u32 {
    (aux & !0xFFu32) | (call_count(aux).wrapping_add(1) as u32)
}

pub open spec fn chase_rainbow_white_frame(pixels: Seq<RGB8>, state: EffectState, params: Params) -> Frame {
    let len = pixels.len() as int;
    let call = call_count(state.aux);
    (
        Seq::new(
            pixels.len(),
            |i: int|
                if chase_pos(i, state.counter, len) < dot_len(len) {
                    rgb_of(255, 255, 255)
                } else {
                    wheel_color(((i * 256 / len) as u8).wrapping_add(call))
                },
        ),
        EffectState { counter: state.counter.wrapping_add(1), aux: counted(state.aux) },
    )
}

/// White dot chasing a per-pixel rainbow background.
pub fn chase_rainbow_white(pixels: &mut Vec<RGB8>, state: &mut EffectState, params: &Params)
    requires
        old(pixels)@.len() > 0,
        (old(pixels)@.len() - 1) * 256 <= usize::MAX,
    ensures
        final(pixels)@ == chase_rainbow_white_frame(old(pixels)@, *old(state), *params).0,
        final(pixels)@.len() == old(pixels)@.len(),
        *final(state) == chase_rainbow_white_frame(old(pixels)@, *old(state), *params).1,
{
    let len = pixels.len();
    let d = len / 8;
    let dot = if d < 1 {
        1
    } else {
        d
    };
    let offset = state.counter as usize % len;
    let call = (state.aux & 0xFFu32) as u8;
    let mut i: usize = 0;
    while i < len
        invariant
            len == pixels@.len(),
            len == old(pixels)@.len(),
            len > 0,
            (len - 1) * 256 <= usize::MAX,
            dot == dot_len(len as int),
            offset == (old(state).counter as int) % (len as int),
            call == call_count(old(state).aux),
            i <= len,
            forall|j: int|
                0 <= j < i ==> pixels@[j] == (if chase_pos(j, old(state).counter, len as int) < dot {
                    rgb_of(255, 255, 255)
                } else {
                    wheel_color(((j * 256 / (len as int)) as u8).wrapping_add(call))
                }),
        decreases len - i,
    {
        let pos = if offset < len - i {
            i + offset
        } else {
            offset - (len - i)
        };
        assert(pos == (i + offset) % (len as int)) by (nonlinear_arith)
            requires
                i < len,
                offset < len,
                pos == (if offset < len - i { i + offset } else { offset - (len - i) }),
        ;
        assert(i * 256 <= (len - 1) * 256) by (nonlinear_arith)
            requires
                i < len,
        ;
        let c = if pos < dot {
            white()
        } else {
            color_wheel(((i * 256 / len) as u8).wrapping_add(call))
        };
        pixels.set(i, c);
        i = i + 1;
    }
    assert(pixels@ =~= chase_rainbow_white_frame(old(pixels)@, *old(state), *params).0);
    state.counter = state.counter.wrapping_add(1);
    state.aux = (state.aux & !0xFFu32) | (call.wrapping_add(1) as u32);
}

/// The hue spacing of the rainbow chases on a strip of `len`.
pub open spec fn color_sep(len: int) -> u8 {
    if 2 <= len <= 256 {
        (256int / len) as u8
    } else {
        0
    }
}

/// A rainbow-coloured chase block over `background`.
pub open spec fn rainbow_chase_strip(pixels: Seq<RGB8>, counter: u32, call: u8, background: RGB8) -> Seq<RGB8> {
    let len = pixels.len() as int;
    Seq::new(
        pixels.len(),
        |i: int|
            if chase_pos(i, counter, len) < dot_len(len) {
                wheel_color((((i as u8) * color_sep(len)) as u8).wrapping_add(call))
            } else {
                background
            },
    )
}

/// Pixel `i`'s hue step on a strip of `len` stays within a byte.
pub proof fn lemma_sep_fits(i: int, len: int)
    requires
        0 <= i < len,
        0 < len,
    ensures
        ((i as u8) as int) * (color_sep(len) as int) <= 255,
{
    let x = (i as u8) as int;
    let s = color_sep(len) as int;
    if 2 <= len <= 256 {
        let q = 256int / len;
        assert(q * len <= 256 && q >= 1 && q <= 128) by (nonlinear_arith)
            requires
                q == 256int / len,
                2 <= len <= 256,
        ;
        assert(s == q);
        assert(x == i);
        assert(x * s <= 255) by (nonlinear_arith)
            requires
                0 <= x <= len - 1,
                q * len <= 256,
                q >= 1,
                s == q,
        ;
    } else {
        assert(s == 0);
        assert(x * s == 0) by (nonlinear_arith)
            requires
                s == 0,
        ;
    }
}

fn paint_rainbow_chase(pixels: &mut Vec<RGB8>, counter: u32, call: u8, background: RGB8)
    requires
        old(pixels)@.len() > 0,
    ensures
        final(pixels)@ == rainbow_chase_strip(old(pixels)@, counter, call, background),
{
    let len = pixels.len();
    let d = len / 8;
    let dot = if d < 1 {
        1
    } else {
        d
    };
    let sep: u8 = if 2 <= len && len <= 256 {
        (256 / len) as u8
    } else {
        0
    };
    let offset = counter as usize % len;
    let mut i: usize = 0;
    while i < len
        invariant
            len == pixels@.len(),
            len == old(pixels)@.len(),
            len > 0,
            dot == dot_len(len as int),
            sep == color_sep(len as int),
            offset == (counter as int) % (len as int),
            i <= len,
            forall|j: int|
                0 <= j < i ==> pixels@[j] == (if chase_pos(j, counter, len as int) < dot {
                    wheel_color((((j as u8) * sep) as u8).wrapping_add(call))
                } else {
                    background
                }),
        decreases len - i,
    {
        let pos = if offset < len - i {
            i + offset
        } else {
            offset - (len - i)
        };
        assert(pos == (i + offset) % (len as int)) by (nonlinear_arith)
            requires
                i < len,
                offset < len,
                pos == (if offset < len - i { i + offset } else { offset - (len - i) }),
        ;
        let c = if pos < dot {
            proof {
                lemma_sep_fits(i as int, len as int);
            }
            color_wheel(((i as u8) * sep).wrapping_add(call))
        } else {
            background
        };
        pixels.set(i, c);
        i = i + 1;
    }
    assert(pixels@ =~= rainbow_chase_strip(old(pixels)@, counter, call, background));
}

pub open spec fn chase_rainbow_frame(pixels: Seq<RGB8>, state: EffectState, params: Params) -> Frame {
    (
        rainbow_chase_strip(pixels, state.counter, call_count(state.aux), rgb_of(255, 255, 255)),
        EffectState { counter: state.counter.wrapping_add(1), aux: counted(state.aux) },
    )
}

/// Rainbow-colored dot chasing on a white background.
pub fn chase_rainbow(pixels: &mut Vec<RGB8>, state: &mut EffectState, params: &Params)
    requires
        params.fits_palette(old(pixels)@.len()),
        old(pixels)@.len() > 0,
    ensures
        final(pixels)@ == chase_rainbow_frame(old(pixels)@, *old(state), *params).0,
        final(pixels)@.len() == old(pixels)@.len(),
        *final(state) == chase_rainbow_frame(old(pixels)@, *old(state), *params).1,
{
    let call = (state.aux & 0xFFu32) as u8;
    paint_rainbow_chase(pixels, state.counter, call, white());
    state.counter = state.counter.wrapping_add(1);
    state.aux = (state.aux & !0xFFu32) | (call.wrapping_add(1) as u32);
}

pub open spec fn chase_blackout_rainbow_frame(pixels: Seq<RGB8>, state: EffectState, params: Params) -> Frame {
    (
        rainbow_chase_strip(pixels, state.counter, call_count(state.aux), rgb_of(0, 0, 0)),
        EffectState { counter: state.counter.wrapping_add(1), aux: counted(state.aux) },
    )
}

/// Rainbow-colored dot chasing on a black background.
pub fn chase_blackout_rainbow(pixels: &mut Vec<RGB8>, state: &mut EffectState, params: &Params)
    requires
        params.fits_palette(old(pixels)@.len()),
        old(pixels)@.len() > 0,
    ensures
        final(pixels)@ == chase_blackout_rainbow_frame(old(pixels)@, *old(state), *params).0,
        final(pixels)@.len() == old(pixels)@.len(),
        *final(state) == chase_blackout_rainbow_frame(old(pixels)@, *old(state), *params).1,
{
    let call = (state.aux & 0xFFu32) as u8;
    paint_rainbow_chase(pixels, state.counter, call, black());
    state.counter = state.counter.wrapping_add(1);
    state.aux = (state.aux & !0xFFu32) | (call.wrapping_add(1) as u32);
}

/// A flash of `flash` at the chase position over `background`, on the flash
/// frames of a four-frame cycle.
pub open spec fn flashed(len: nat, counter: u32, background: RGB8, flash: RGB8) -> Seq<RGB8> {
    let pos = ((counter / 4) as int) % (len as int);
    let back = Seq::new(len, |i: int| background);
    if counter % 4 == 0 || counter % 4 == 2 {
        back.update(pos, flash)
    } else {
        back
    }
}

fn paint_flash(pixels: &mut Vec<RGB8>, counter: u32, background: RGB8, flash: RGB8)
    requires
        old(pixels)@.len() > 0,
    ensures
        final(pixels)@ == flashed(old(pixels)@.len(), counter, background, flash),
{
    let len = pixels.len();
    let pos = (counter / 4) as usize % len;
    let f = counter % 4;
    crate::utils::fill(pixels, background);
    if f == 0 || f == 2 {
        pixels.set(pos, flash);
    }
    assert(pixels@ =~= flashed(old(pixels)@.len(), counter, background, flash));
}

pub open spec fn chase_flash_frame(pixels: Seq<RGB8>, state: EffectState, params: Params) -> Frame {
    (flashed(pixels.len(), state.counter, params.colors[0], params.colors[1]), ticked(state))
}

/// A white flash strobe that advances position after 4 flash frames.
/// `colors[0]` = background, `colors[1]` = flash color (usually WHITE).
pub fn chase_flash(pixels: &mut Vec<RGB8>, state: &mut EffectState, params: &Params)
    requires
        old(pixels)@.len() > 0,
    ensures
        final(pixels)@ == chase_flash_frame(old(pixels)@, *old(state), *params).0,
        final(pixels)@.len() == old(pixels)@.len(),
        *final(state) == chase_flash_frame(old(pixels)@, *old(state), *params).1,
{
    paint_flash(pixels, state.counter, params.colors[0], params.colors[1]);
    state.counter = state.counter.wrapping_add(1);
}

pub open spec fn chase_flash_random_frame(pixels: Seq<RGB8>, state: EffectState, params: Params) -> Frame {
    let aux = repicked_at(state.aux, state.counter % ((pixels.len() * 4) as u32) == 0);
    (
        flashed(pixels.len(), state.counter, params.colors[0], packed_color(aux, params)),
        EffectState { counter: state.counter.wrapping_add(1), aux },
    )
}

/// chase_flash with the flash color advancing through random wheel hues.
/// Packs wheel_idx in low byte of `state.aux`, rng in high 3 bytes.
pub fn chase_flash_random(pixels: &mut Vec<RGB8>, state: &mut EffectState, params: &Params)
    requires
        old(pixels)@.len() > 0,
        old(pixels)@.len() < 0x4000_0000,
    ensures
        final(pixels)@ == chase_flash_random_frame(old(pixels)@, *old(state), *params).0,
        final(pixels)@.len() == old(pixels)@.len(),
        *final(state) == chase_flash_random_frame(old(pixels)@, *old(state), *params).1,
{
    let len = pixels.len();
    if state.counter % ((len as u32) * 4) == 0 {
        state.aux = repick(state.aux);
    }
    let color = params.wheel((state.aux & 0xFFu32) as u8);
    paint_flash(pixels, state.counter, params.colors[0], color);
    state.counter = state.counter.wrapping_add(1);
}

pub open spec fn running_frame(pixels: Seq<RGB8>, state: EffectState, params: Params) -> Frame {
    let color = if state.counter & 2u32 != 0 {
        params.colors[0]
    } else {
        params.colors[1]
    };
    (shifted_in(pixels, color), ticked(state))
}

/// Alternating color bands that shift along the strip.
pub fn running(pixels: &mut Vec<RGB8>, state: &mut EffectState, params: &Params)
    requires
        old(pixels)@.len() > 0,
    ensures
        final(pixels)@ == running_frame(old(pixels)@, *old(state), *params).0,
        final(pixels)@.len() == old(pixels)@.len(),
        *final(state) == running_frame(old(pixels)@, *old(state), *params).1,
{
    let color = if state.counter & 2u32 != 0 {
        params.colors[0]
    } else {
        params.colors[1]
    };
    shift_in(pixels, color);
    state.counter = state.counter.wrapping_add(1);
}

pub open spec fn running_random_frame(pixels: Seq<RGB8>, state: EffectState, params: Params) -> Frame {
    let aux = repicked_at(state.aux, state.counter % 4 == 0);
    (shifted_in(pixels, packed_color(aux, params)), EffectState { counter: state.counter.wrapping_add(1), aux })
}

/// Running with a random wheel color that changes every 4 pixels.
/// Packs wheel_idx in low byte of `state.aux`, rng seed in upper 3 bytes.
pub fn running_random(pixels: &mut Vec<RGB8>, state: &mut EffectState, params: &Params)
    requires
        old(pixels)@.len() > 0,
    ensures
        final(pixels)@ == running_random_frame(old(pixels)@, *old(state), *params).0,
        final(pixels)@.len() == old(pixels)@.len(),
        *final(state) == running_random_frame(old(pixels)@, *old(state), *params).1,
{
    if state.counter % 4 == 0 {
        state.aux = repick(state.aux);
    }
    let color = params.wheel((state.aux & 0xFFu32) as u8);
    shift_in(pixels, color);
    state.counter = state.counter.wrapping_add(1);
}

/// The colour whose red, green and blue are bytes 2, 1 and 0 of `x`.
pub open spec fn bytes_color(x: u32) -> RGB8 {
    RGB8 { r: (x >> 16u32) as u8, g: (x >> 8u32) as u8, b: x as u8 }
}

pub open spec fn running_random2_frame(pixels: Seq<RGB8>, state: EffectState, params: Params) -> Frame {
    let aux = if state.counter % 4 == 0 {
        next_rand_of(state.aux)
    } else {
        state.aux
    };
    (shifted_in(pixels, bytes_color(aux)), EffectState { counter: state.counter.wrapping_add(1), aux })
}

/// Running with a new random 24-bit color every 4 pixels.
pub fn running_random2(pixels: &mut Vec<RGB8>, state: &mut EffectState, params: &Params)
    requires
        old(pixels)@.len() > 0,
    ensures
        final(pixels)@ == running_random2_frame(old(pixels)@, *old(state), *params).0,
        final(pixels)@.len() == old(pixels)@.len(),
        *final(state) == running_random2_frame(old(pixels)@, *old(state), *params).1,
{
    if state.counter % 4 == 0 {
        state.aux = next_rand(state.aux);
    }
    let color = RGB8 { r: (state.aux >> 16u32) as u8, g: (state.aux >> 8u32) as u8, b: state.aux as u8 };
    shift_in(pixels, color);
    state.counter = state.counter.wrapping_add(1);
}

} // verus!
