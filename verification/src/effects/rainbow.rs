//! The hue wheel spread along the strip.

use vstd::prelude::*;

use crate::effects::Frame;
use crate::effects::color::ticked;
use crate::params::Params;
use crate::pixel::RGB8;
use crate::segment::EffectState;
use crate::utils::{color_wheel, wheel_color};

verus! {

/// The hue of pixel `i` of `len` in [`rainbow_cycle`].
pub open spec fn cycle_hue(counter: u32, i: int, len: int, intensity: u8) -> u8 {
    counter.wrapping_add((i * (2 * intensity) / len) as u32) as u8
}

pub open spec fn rainbow_cycle_frame(pixels: Seq<RGB8>, state: EffectState, params: Params) -> Frame {
    let len = pixels.len() as int;
    (
        Seq::new(
            pixels.len(),
            |i: int| params.wheel_spec(cycle_hue(state.counter, i, len, params.intensity)),
        ),
        ticked(state),
    )
}

/// The hue wheel, or the palette, spread along the strip, rotating. Intensity sets how much of
/// the wheel the strip shows: all of it at default intensity, twice around at
/// full.
pub fn rainbow_cycle(pixels: &mut Vec<RGB8>, state: &mut EffectState, params: &Params)
    requires
        old(pixels)@.len() <= u32::MAX,
        old(pixels)@.len() > 0 ==> (old(pixels)@.len() - 1) * (2 * params.intensity) <= u32::MAX,
    ensures
        final(pixels)@ == rainbow_cycle_frame(old(pixels)@, *old(state), *params).0,
        final(pixels)@.len() == old(pixels)@.len(),
        *final(state) == rainbow_cycle_frame(old(pixels)@, *old(state), *params).1,
{
    let n = pixels.len();
    let len = n as u32;
    let span = 2 * (params.intensity as u32);
    let mut i: usize = 0;
    while i < n
        invariant
            n == pixels@.len(),
            n == old(pixels)@.len(),
            n <= u32::MAX,
            n > 0 ==> (n - 1) * (2 * params.intensity) <= u32::MAX,
            len == n,
            span == 2 * params.intensity,
            i <= n,
            forall|j: int|
                0 <= j < i ==> pixels@[j] == params.wheel_spec(
                    cycle_hue(old(state).counter, j, n as int, params.intensity),
                ),
        decreases n - i,
    {
        assert((i as u32) * span <= (n - 1) * span) by (nonlinear_arith)
            requires
                i < n,
        ;
        let hue = state.counter.wrapping_add((i as u32) * span / len) as u8;
        let c = params.wheel(hue);
        pixels.set(i, c);
        i = i + 1;
    }
    assert(pixels@ =~= rainbow_cycle_frame(old(pixels)@, *old(state), *params).0);
    state.counter = state.counter.wrapping_add(1);
}

} // verus!
