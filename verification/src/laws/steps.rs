//! What single steps of the effects and the strip's output do, stated
//! through their inputs and results.

use vstd::prelude::*;

use crate::effect::Effect;
use crate::effects::chase::{chase_frame, dual_scan_frame, running_frame, tricolor_chase_frame};
use crate::effects::color::{blink_frame, fade_frame, multi_strobe_frame, breath_frame, breathed, rainbow_frame, static_frame};
use crate::effects::scanner::{comet_frame, dual_larson_frame, rainbow_larson_frame, larson_pos, larson_scanner_frame, trail};
use crate::effects::twinkle::{flash_sparkle_frame, sparkle_frame, twinkle_fade_frame, twinkle_frame};
use crate::params::Params;
use crate::pixel::RGB8;
use crate::segment::EffectState;
use crate::utils::{blend_channel, rgb_of, scaled_value};
use crate::Ws2812Fx;

verus! {

/// The strip hands out every channel of every pixel scaled by the
/// brightness: `channel * brightness / 255`, rounded down.
pub proof fn lemma_iter_scales_every_channel<const N: usize>(fx: Ws2812Fx<N>)
    ensures
        fx.output_spec().len() == fx.pixels_spec().len(),
        forall|i: int|
            0 <= i < fx.pixels_spec().len() ==> {
                let c = fx.pixels_spec()[i];
                let b = fx.brightness_spec();
                &&& #[trigger] fx.output_spec()[i].r == (c.r * b / 255) as u8
                &&& fx.output_spec()[i].g == (c.g * b / 255) as u8
                &&& fx.output_spec()[i].b == (c.b * b / 255) as u8
            },
{
}

/// The effects that count their steps advance the counter by one on every
/// step, wrapping, and keep `aux` as it was.
pub proof fn lemma_step_counts_one(effect: Effect, pixels: Seq<RGB8>, state: EffectState, params: Params)
    requires
        effect == Effect::ColorWipe || effect == Effect::ColorWipeInv || effect == Effect::TricolorChase
            || effect == Effect::CircusCombustus || effect == Effect::TheaterChase || effect
            == Effect::BicolorChase || effect == Effect::ChaseColor || effect == Effect::ChaseBlackout
            || effect == Effect::ChaseWhite || effect == Effect::ChaseFlash || effect
            == Effect::RunningColor || effect == Effect::RunningRedBlue || effect == Effect::MerryChristmas
            || effect == Effect::Halloween || effect == Effect::Blink || effect == Effect::BlinkRainbow
            || effect == Effect::Breath || effect == Effect::Rainbow || effect == Effect::TwinkleFox
            || effect == Effect::RunningLights || effect == Effect::TriWipe || effect == Effect::RainbowCycle
            || effect == Effect::LarsonScanner || effect == Effect::Comet || effect == Effect::SolidGlitter,
    ensures
        effect.draw_frame(pixels, state, params).1 == (EffectState {
            counter: state.counter.wrapping_add(1),
            aux: state.aux,
        }),
{
}

/// The effects that count their steps while keeping other state in `aux`
/// advance the counter by one on every step, wrapping.
pub proof fn lemma_step_counter_advances(effect: Effect, pixels: Seq<RGB8>, state: EffectState, params: Params)
    requires
        effect == Effect::ColorWipeRandom || effect == Effect::ColorSweepRandom || effect
            == Effect::TheaterChaseRainbow || effect == Effect::ChaseRandom || effect
            == Effect::ChaseRainbowWhite || effect == Effect::ChaseRainbow || effect
            == Effect::ChaseBlackoutRainbow || effect == Effect::ChaseFlashRandom || effect
            == Effect::RunningRandom || effect == Effect::RunningRandom2 || effect == Effect::SingleDynamic,
    ensures
        effect.draw_frame(pixels, state, params).1.counter == state.counter.wrapping_add(1),
{
}

/// `|x|`.
pub open spec fn distance(x: int, y: int) -> int {
    if x < y {
        y - x
    } else {
        x - y
    }
}

/// Counting on by one wraps the position within a round of `t` steps back
/// to the start.
proof fn lemma_next_in_round(c: int, t: int)
    requires
        t > 0,
        c >= 0,
    ensures
        (c + 1) % t == if c % t + 1 < t {
            c % t + 1
        } else {
            0
        },
        0 <= c % t < t,
{
    assert((c + 1) % t == if c % t + 1 < t { c % t + 1 } else { 0 } && 0 <= c % t < t) by (nonlinear_arith)
        requires
            t > 0,
            c >= 0,
    ;
}

/// On a strip of two or more pixels the Larson scanner's head bounces
/// between the ends: it is always on the strip and drawn in `colors[0]`,
/// moves exactly one pixel per step, is at the first pixel at the start of
/// each round trip of `2 * len - 2` steps and at the last pixel `len - 1`
/// steps into it.
pub proof fn lemma_larson_head_bounces(pixels: Seq<RGB8>, state: EffectState, params: Params)
    requires
        pixels.len() >= 2,
    ensures
        ({
            let len = pixels.len() as int;
            let total = 2 * len - 2;
            let head = larson_pos(state.counter, len);
            let out = larson_scanner_frame(pixels, state, params).0;
            &&& 0 <= head < len
            &&& out.len() == len
            &&& out[head] == params.colors[0]
            &&& (state.counter as int) % total == 0 ==> head == 0
            &&& (state.counter as int) % total == len - 1 ==> head == len - 1
            &&& state.counter < u32::MAX ==> distance(larson_pos((state.counter + 1) as u32, len), head) == 1
        }),
{
    let len = pixels.len() as int;
    let total = 2 * len - 2;
    lemma_next_in_round(state.counter as int, total);
}

/// Tricolor Chase repeats its three colours along the strip and moves the
/// pattern one pixel per step: the counter advances by one, and after the
/// next step each pixel shows what its right-hand neighbour showed.
pub proof fn lemma_tricolor_chase_moves(pixels: Seq<RGB8>, later: Seq<RGB8>, state: EffectState, params: Params)
    requires
        state.counter < u32::MAX,
        later.len() == pixels.len(),
    ensures
        ({
            let (out, next) = tricolor_chase_frame(pixels, state, params);
            let after = tricolor_chase_frame(later, next, params).0;
            &&& out.len() == pixels.len()
            &&& after.len() == pixels.len()
            &&& next.counter == state.counter + 1
            &&& forall|i: int|
                0 <= i < out.len() ==> #[trigger] out[i] == params.colors[0] || out[i] == params.colors[1]
                    || out[i] == params.colors[2]
            &&& forall|i: int| 0 <= i && i + 3 < out.len() ==> #[trigger] out[i] == out[i + 3]
            &&& forall|i: int| 0 <= i && i + 1 < out.len() ==> #[trigger] after[i] == out[i + 1]
        }),
{
    let (out, next) = tricolor_chase_frame(pixels, state, params);
    let c = state.counter as int;
    assert forall|i: int| 0 <= i && i + 3 < out.len() implies #[trigger] out[i] == out[i + 3] by {
        assert((i + 3 + c) % 3 == (i + c) % 3) by (nonlinear_arith)
            requires
                i >= 0,
                c >= 0,
        ;
    }
}

/// Breath advances its counter by one per step and runs its level through a
/// triangle wave: the strip is dark when the counter's low byte is 0 and
/// shows the full primary colour when it is 128, so any 256 consecutive
/// steps show both.
pub proof fn lemma_breath_breathes(pixels: Seq<RGB8>, state: EffectState, params: Params)
    ensures
        ({
            let (out, next) = breath_frame(pixels, state, params);
            &&& out.len() == pixels.len()
            &&& next == (EffectState { counter: state.counter.wrapping_add(1), aux: state.aux })
            &&& state.counter as u8 == 0 ==> forall|i: int| 0 <= i < out.len() ==> #[trigger] out[i] == rgb_of(0, 0, 0)
            &&& state.counter as u8 == 128 ==> forall|i: int|
                0 <= i < out.len() ==> #[trigger] out[i] == params.primary_at_spec(i, pixels.len() as int)
        }),
{
    let out = breath_frame(pixels, state, params).0;
    let len = pixels.len() as int;
    if state.counter as u8 == 0 {
        assert forall|i: int| 0 <= i < out.len() implies #[trigger] out[i] == rgb_of(0, 0, 0) by {
            lemma_scale_ends(params.primary_at_spec(i, len));
        }
    }
    if state.counter as u8 == 128 {
        assert forall|i: int| 0 <= i < out.len() implies #[trigger] out[i] == params.primary_at_spec(i, len) by {
            lemma_scale_ends(params.primary_at_spec(i, len));
        }
    }
}

/// Scaling a colour to level 255 keeps it; to level 0 makes it black.
proof fn lemma_scale_ends(c: RGB8)
    ensures
        breathed(c, 255) == c,
        breathed(c, 0) == rgb_of(0, 0, 0),
{
    assert(c.r * 255 / 255 == c.r && c.g * 255 / 255 == c.g && c.b * 255 / 255 == c.b) by (nonlinear_arith)
        requires
            0 <= c.r <= 255,
            0 <= c.g <= 255,
            0 <= c.b <= 255,
    ;
}

/// Sparkle keeps exactly one sparkle of `colors[1]` over `colors[0]`:
/// starting afresh (`aux == 0`), or from a strip showing `colors[0]`
/// everywhere but at the last sparkle (`state.counter`), the step leaves
/// `colors[0]` everywhere but at the new sparkle, which shows `colors[1]`
/// and is where the next state points — so the next step starts from a
/// strip of the same kind.
pub proof fn lemma_sparkle_single(pixels: Seq<RGB8>, state: EffectState, params: Params)
    requires
        0 < pixels.len() <= u32::MAX,
        state.aux != 0 ==> state.counter < pixels.len() && forall|j: int|
            0 <= j < pixels.len() && j != state.counter ==> #[trigger] pixels[j] == params.colors[0],
    ensures
        ({
            let (out, next) = sparkle_frame(pixels, state, params);
            &&& out.len() == pixels.len()
            &&& next.counter < pixels.len()
            &&& out[next.counter as int] == params.colors[1]
            &&& forall|j: int|
                0 <= j < out.len() && j != next.counter ==> #[trigger] out[j] == params.colors[0]
        }),
{
}

/// Flash Sparkle keeps exactly one white flash over `colors[0]`, in the
/// same way as [`lemma_sparkle_single`].
pub proof fn lemma_flash_sparkle_single(pixels: Seq<RGB8>, state: EffectState, params: Params)
    requires
        0 < pixels.len() <= u32::MAX,
        state.aux != 0 ==> state.counter < pixels.len() && forall|j: int|
            0 <= j < pixels.len() && j != state.counter ==> #[trigger] pixels[j] == params.colors[0],
    ensures
        ({
            let (out, next) = flash_sparkle_frame(pixels, state, params);
            &&& out.len() == pixels.len()
            &&& next.counter < pixels.len()
            &&& out[next.counter as int] == rgb_of(255, 255, 255)
            &&& forall|j: int|
                0 <= j < out.len() && j != next.counter ==> #[trigger] out[j] == params.colors[0]
        }),
{
}

/// Fading a channel toward black never brightens it, and darkens a lit
/// channel whenever the fade rate is above zero.
proof fn lemma_channel_dims(a: u8, amount: u8)
    ensures
        blend_channel(a, 0, amount) <= a,
        amount >= 1 && a >= 1 ==> blend_channel(a, 0, amount) < a,
{
    assert((a * (255 - amount) + 0 * amount) / 255 <= a) by (nonlinear_arith)
        requires
            0 <= a <= 255,
            0 <= amount <= 255,
    ;
    if amount >= 1 && a >= 1 {
        assert((a * (255 - amount) + 0 * amount) / 255 < a) by (nonlinear_arith)
            requires
                1 <= a <= 255,
                1 <= amount <= 255,
        ;
    }
}

/// The trail the scanners, comets and twinkle fades leave dims every pixel:
/// no channel brightens, and from intensity 2 on every lit channel darkens.
pub proof fn lemma_trail_dims(pixels: Seq<RGB8>, intensity: u8)
    ensures
        trail(pixels, intensity).len() == pixels.len(),
        forall|j: int|
            0 <= j < pixels.len() ==> {
                let old_c = pixels[j];
                let new_c = #[trigger] trail(pixels, intensity)[j];
                &&& new_c.r <= old_c.r
                &&& new_c.g <= old_c.g
                &&& new_c.b <= old_c.b
                &&& intensity >= 2 && old_c.r > 0 ==> new_c.r < old_c.r
                &&& intensity >= 2 && old_c.g > 0 ==> new_c.g < old_c.g
                &&& intensity >= 2 && old_c.b > 0 ==> new_c.b < old_c.b
            },
{
    let rate = scaled_value(64, intensity);
    assert(intensity >= 2 ==> rate >= 1) by (nonlinear_arith)
        requires
            rate == (if intensity * 64 / 128 > 255 { 255 } else { (intensity * 64 / 128) as u8 }),
    ;
    assert forall|j: int| 0 <= j < pixels.len() implies {
        let old_c = pixels[j];
        let new_c = #[trigger] trail(pixels, intensity)[j];
        &&& new_c.r <= old_c.r
        &&& new_c.g <= old_c.g
        &&& new_c.b <= old_c.b
        &&& intensity >= 2 && old_c.r > 0 ==> new_c.r < old_c.r
        &&& intensity >= 2 && old_c.g > 0 ==> new_c.g < old_c.g
        &&& intensity >= 2 && old_c.b > 0 ==> new_c.b < old_c.b
    } by {
        lemma_channel_dims(pixels[j].r, rate);
        lemma_channel_dims(pixels[j].g, rate);
        lemma_channel_dims(pixels[j].b, rate);
    }
}

/// The Larson scanner draws its head and leaves every other pixel as the
/// fading trail of what the strip showed.
pub proof fn lemma_larson_leaves_trail(pixels: Seq<RGB8>, state: EffectState, params: Params)
    requires
        pixels.len() >= 2,
    ensures
        ({
            let out = larson_scanner_frame(pixels, state, params).0;
            let head = larson_pos(state.counter, pixels.len() as int);
            forall|j: int| 0 <= j < out.len() && j != head ==> #[trigger] out[j] == trail(pixels, params.intensity)[j]
        }),
{
    lemma_larson_head_bounces(pixels, state, params);
}

/// Comet fires its head forward round the strip, one pixel per step, drawn
/// in `colors[0]` over the fading trail of what the strip showed.
pub proof fn lemma_comet_fires_forward(pixels: Seq<RGB8>, state: EffectState, params: Params)
    requires
        pixels.len() >= 1,
    ensures
        ({
            let len = pixels.len() as int;
            let (out, next) = comet_frame(pixels, state, params);
            let head = (state.counter as int) % len;
            &&& out.len() == len
            &&& 0 <= head < len
            &&& out[head] == params.colors[0]
            &&& forall|j: int| 0 <= j < len && j != head ==> #[trigger] out[j] == trail(pixels, params.intensity)[j]
            &&& state.counter < u32::MAX ==> (next.counter as int) % len == (head + 1) % len
        }),
{
    let len = pixels.len() as int;
    lemma_next_in_round(state.counter as int, len);
    let head = (state.counter as int) % len;
    assert((head + 1) % len == if head + 1 < len { head + 1 } else { 0 }) by (nonlinear_arith)
        requires
            0 <= head < len,
    ;
}

/// Running moves every pixel one place along and feeds a band colour,
/// `colors[0]` or `colors[1]`, in at the start.
pub proof fn lemma_running_shifts(pixels: Seq<RGB8>, state: EffectState, params: Params)
    requires
        pixels.len() >= 1,
    ensures
        ({
            let out = running_frame(pixels, state, params).0;
            &&& out.len() == pixels.len()
            &&& out[0] == params.colors[0] || out[0] == params.colors[1]
            &&& forall|i: int| 0 <= i && i + 1 < out.len() ==> #[trigger] out[i + 1] == pixels[i]
        }),
{
}

/// Static shows the primary colour on every pixel, following the palette,
/// and keeps its state.
pub proof fn lemma_static_shows_primary(pixels: Seq<RGB8>, state: EffectState, params: Params)
    ensures
        ({
            let (out, next) = static_frame(pixels, state, params);
            &&& out.len() == pixels.len()
            &&& next == state
            &&& forall|i: int| 0 <= i < out.len() ==> #[trigger] out[i] == params.primary_at_spec(i, pixels.len() as int)
        }),
{
}

/// Blink alternates between the primary colour and `colors[1]`: on an even
/// step the strip shows the primary colour, on an odd one `colors[1]`, and
/// the counter moves on by one.
pub proof fn lemma_blink_alternates(pixels: Seq<RGB8>, state: EffectState, params: Params)
    ensures
        ({
            let (out, next) = blink_frame(pixels, state, params);
            &&& out.len() == pixels.len()
            &&& next.counter == state.counter.wrapping_add(1)
            &&& forall|i: int|
                0 <= i < out.len() ==> #[trigger] out[i] == if state.counter % 2 == 0 {
                    params.primary_at_spec(i, pixels.len() as int)
                } else {
                    params.colors[1]
                }
        }),
{
}

/// Rainbow shows one colour on the whole strip: the hue wheel (or the
/// palette) at the counter's low byte, which moves on by one each step.
pub proof fn lemma_rainbow_is_one_colour(pixels: Seq<RGB8>, state: EffectState, params: Params)
    ensures
        ({
            let (out, next) = rainbow_frame(pixels, state, params);
            &&& out.len() == pixels.len()
            &&& next.counter == state.counter.wrapping_add(1)
            &&& forall|i: int| 0 <= i < out.len() ==> #[trigger] out[i] == params.wheel_spec(state.counter as u8)
        }),
{
}

/// Twinkle Fade fades the whole strip and lights at most one pixel in the
/// twinkle colour.
pub proof fn lemma_twinkle_fade_lights_one(pixels: Seq<RGB8>, state: EffectState, params: Params)
    requires
        0 < pixels.len() <= u32::MAX,
    ensures
        ({
            let out = twinkle_fade_frame(pixels, state, params).0;
            let faded = trail(pixels, params.intensity);
            &&& out.len() == pixels.len()
            &&& forall|j: int|
                0 <= j < out.len() && #[trigger] out[j] != faded[j] ==> out[j] == params.colors[0]
            &&& forall|a: int, b: int|
                0 <= a < b < out.len() && #[trigger] out[a] != faded[a] ==> #[trigger] out[b] == faded[b]
        }),
{
}

/// The strip and the state after `k` steps of `effect`, each drawing on what
/// the one before left.
pub open spec fn stepped(effect: Effect, pixels: Seq<RGB8>, state: EffectState, params: Params, k: nat) -> (
    Seq<RGB8>,
    EffectState,
)
    decreases k,
{
    if k == 0 {
        (pixels, state)
    } else {
        let (p, s) = stepped(effect, pixels, state, params, (k - 1) as nat);
        effect.draw_frame(p, s, params)
    }
}

/// A round of Color Wipe (`colors[0]`, then `colors[1]`) or Color Wipe
/// Inv (the other way round), started at the beginning of a round: after
/// `k` steps the first `k` pixels show the first colour; from step `len` on,
/// the first `k - len` pixels show the second colour and the rest the first;
/// the other pixels are as they were.
proof fn lemma_color_wipe_round(
    effect: Effect,
    pixels: Seq<RGB8>,
    state: EffectState,
    params: Params,
    on: RGB8,
    off: RGB8,
    k: nat,
)
    requires
        (effect == Effect::ColorWipe && on == params.colors[0] && off == params.colors[1]) || (effect
            == Effect::ColorWipeInv && on == params.colors[1] && off == params.colors[0]),
        pixels.len() >= 1,
        (state.counter as int) % (2 * pixels.len() as int) == 0,
        state.counter + 2 * pixels.len() <= u32::MAX,
        k <= 2 * pixels.len(),
    ensures
        ({
            let len = pixels.len() as int;
            let (p, s) = stepped(effect, pixels, state, params, k);
            &&& p.len() == len
            &&& s.counter == state.counter + k
            &&& forall|i: int|
                0 <= i < len ==> #[trigger] p[i] == if k <= len {
                    if i < k {
                        on
                    } else {
                        pixels[i]
                    }
                } else {
                    if i < k - len {
                        off
                    } else {
                        on
                    }
                }
        }),
    decreases k,
{
    if k > 0 {
        let len = pixels.len() as int;
        lemma_color_wipe_round(effect, pixels, state, params, on, off, (k - 1) as nat);
        let (p, s) = stepped(effect, pixels, state, params, (k - 1) as nat);
        let c0 = state.counter as int;
        let j = k - 1;
        assert((c0 + j) % (2 * len) == j) by (nonlinear_arith)
            requires
                c0 % (2 * len) == 0,
                0 <= j < 2 * len,
                c0 >= 0,
                len >= 1,
        ;
        assert(s.counter == c0 + j);
    }
}

/// Color Wipe, started at the beginning of a round on a strip of any
/// colours, has covered the whole strip in `colors[0]` after `len` steps and
/// in `colors[1]` after `2 * len`, one pixel per step from the start; Color
/// Wipe Inv does the same with the two colours swapped.
pub proof fn lemma_color_wipe_covers(pixels: Seq<RGB8>, state: EffectState, params: Params)
    requires
        pixels.len() >= 1,
        (state.counter as int) % (2 * pixels.len() as int) == 0,
        state.counter + 2 * pixels.len() <= u32::MAX,
    ensures
        stepped(Effect::ColorWipe, pixels, state, params, pixels.len()).0 == Seq::new(
            pixels.len(),
            |i: int| params.colors[0],
        ),
        stepped(Effect::ColorWipe, pixels, state, params, 2 * pixels.len()).0 == Seq::new(
            pixels.len(),
            |i: int| params.colors[1],
        ),
        stepped(Effect::ColorWipeInv, pixels, state, params, pixels.len()).0 == Seq::new(
            pixels.len(),
            |i: int| params.colors[1],
        ),
        stepped(Effect::ColorWipeInv, pixels, state, params, 2 * pixels.len()).0 == Seq::new(
            pixels.len(),
            |i: int| params.colors[0],
        ),
{
    let len = pixels.len();
    let (c0, c1) = (params.colors[0], params.colors[1]);
    lemma_color_wipe_round(Effect::ColorWipe, pixels, state, params, c0, c1, len);
    lemma_color_wipe_round(Effect::ColorWipe, pixels, state, params, c0, c1, 2 * len);
    lemma_color_wipe_round(Effect::ColorWipeInv, pixels, state, params, c1, c0, len);
    lemma_color_wipe_round(Effect::ColorWipeInv, pixels, state, params, c1, c0, 2 * len);
    assert(stepped(Effect::ColorWipe, pixels, state, params, len).0 =~= Seq::new(len, |i: int| c0));
    assert(stepped(Effect::ColorWipe, pixels, state, params, 2 * len).0 =~= Seq::new(len, |i: int| c1));
    assert(stepped(Effect::ColorWipeInv, pixels, state, params, len).0 =~= Seq::new(len, |i: int| c1));
    assert(stepped(Effect::ColorWipeInv, pixels, state, params, 2 * len).0 =~= Seq::new(len, |i: int| c0));
}

/// Dual Scan draws two dots in `colors[0]` mirrored about the middle of the
/// strip over `colors[1]`, and each step moves them one pixel.
pub proof fn lemma_dual_scan_mirrors(pixels: Seq<RGB8>, state: EffectState, params: Params)
    requires
        (state.counter as int) < pixels.len(),
        state.aux != 0 || state.counter < u32::MAX,
    ensures
        ({
            let len = pixels.len() as int;
            let (out, next) = dual_scan_frame(pixels, state, params);
            let pos = state.counter as int;
            &&& out.len() == len
            &&& out[pos] == params.colors[0]
            &&& out[len - 1 - pos] == params.colors[0]
            &&& forall|j: int| 0 <= j < len && j != pos && j != len - 1 - pos ==> #[trigger] out[j] == params.colors[1]
            &&& state.aux == 0 ==> next.counter == pos + 1
            &&& state.aux != 0 && pos > 0 ==> next.counter == pos - 1
        }),
{
}

/// Twinkle lights one pixel in the primary colour per step: over the strip
/// as it was while its countdown runs, over a fresh strip of `colors[1]`
/// when it has run out; the countdown goes down by one each step.
pub proof fn lemma_twinkle_lights_one(pixels: Seq<RGB8>, state: EffectState, params: Params)
    requires
        0 < pixels.len() <= u32::MAX,
    ensures
        ({
            let (out, next) = twinkle_frame(pixels, state, params);
            let base = if state.counter == 0 {
                Seq::new(pixels.len(), |i: int| params.colors[1])
            } else {
                pixels
            };
            &&& out.len() == pixels.len()
            &&& forall|j: int| 0 <= j < out.len() && #[trigger] out[j] != base[j] ==> out[j] == params.colors[0]
            &&& forall|a: int, b: int|
                0 <= a < b < out.len() && #[trigger] out[a] != base[a] ==> #[trigger] out[b] == base[b]
            &&& state.counter != 0 ==> next.counter == state.counter - 1
        }),
{
    let base = if state.counter == 0 {
        Seq::new(pixels.len(), |i: int| params.colors[1])
    } else {
        pixels
    };
    if state.counter == 0 {
        assert(base =~= crate::utils::solid(pixels.len(), params.colors[1]));
    }
}

/// The chases (Bicolor Chase, Chase Color, Chase Blackout, Chase White)
/// move their pattern one pixel per step round the strip: the counter
/// advances by one, and after the next step each pixel shows what the pixel
/// after it (wrapping round at the end) showed; at the start of a round the
/// first pixel shows `colors[0]`.
pub proof fn lemma_chase_moves(pixels: Seq<RGB8>, later: Seq<RGB8>, state: EffectState, params: Params)
    requires
        pixels.len() >= 1,
        later.len() == pixels.len(),
        state.counter < u32::MAX,
    ensures
        ({
            let len = pixels.len() as int;
            let (out, next) = chase_frame(pixels, state, params);
            let after = chase_frame(later, next, params).0;
            &&& out.len() == len
            &&& after.len() == len
            &&& next.counter == state.counter + 1
            &&& (state.counter as int) % len == 0 ==> out[0] == params.colors[0]
            &&& forall|i: int| 0 <= i < len ==> #[trigger] after[i] == out[(i + 1) % len]
        }),
{
    let len = pixels.len() as int;
    let c = state.counter as int;
    let out = chase_frame(pixels, state, params).0;
    let after = chase_frame(later, chase_frame(pixels, state, params).1, params).0;
    assert forall|i: int| 0 <= i < len implies #[trigger] after[i] == out[(i + 1) % len] by {
        vstd::arithmetic::div_mod::lemma_small_mod(i as nat, len as nat);
        vstd::arithmetic::div_mod::lemma_add_mod_noop(i, c + 1, len);
        vstd::arithmetic::div_mod::lemma_add_mod_noop(i + 1, c, len);
        vstd::arithmetic::div_mod::lemma_mod_bound(i + 1, len);
        assert((i + (c + 1) % len) % len == ((i + 1) % len + c % len) % len);
    }
    if c % len == 0 {
        vstd::arithmetic::div_mod::lemma_small_mod(0, len as nat);
    }
}

/// Fade blends between `colors[1]` and the primary colour and back: the
/// strip shows `colors[1]` when the counter is 0 and the primary colour when
/// it is 256, and each step moves the counter on by 4 round 512.
pub proof fn lemma_fade_swings(pixels: Seq<RGB8>, state: EffectState, params: Params)
    ensures
        ({
            let (out, next) = fade_frame(pixels, state, params);
            &&& out.len() == pixels.len()
            &&& next.counter == (state.counter + 4) % 512
            &&& state.counter == 0 ==> forall|i: int| 0 <= i < out.len() ==> #[trigger] out[i] == params.colors[1]
            &&& state.counter == 256 ==> forall|i: int|
                0 <= i < out.len() ==> #[trigger] out[i] == params.primary_at_spec(i, pixels.len() as int)
        }),
{
    let out = fade_frame(pixels, state, params).0;
    let len = pixels.len() as int;
    assert forall|i: int| 0 <= i < out.len() implies (state.counter == 0 ==> #[trigger] out[i] == params.colors[1])
        && (state.counter == 256 ==> out[i] == params.primary_at_spec(i, len)) by {
        crate::laws::lemma_blend_endpoints(params.colors[1], params.primary_at_spec(i, len));
    }
}

/// Rainbow Larson draws its head on the strip over the fading trail of what
/// the strip showed, and the head moves one pixel per step: forward while
/// bit 0 of `aux` is clear, backward while it is set.
pub proof fn lemma_rainbow_larson_moves(pixels: Seq<RGB8>, state: EffectState, params: Params)
    requires
        (state.counter as int) < pixels.len(),
        state.aux & 1u32 != 0 || state.counter < u32::MAX,
    ensures
        ({
            let (out, next) = rainbow_larson_frame(pixels, state, params);
            let pos = state.counter as int;
            &&& out.len() == pixels.len()
            &&& forall|j: int| 0 <= j < out.len() && j != pos ==> #[trigger] out[j] == trail(pixels, params.intensity)[j]
            &&& state.aux & 1u32 == 0 ==> next.counter == pos + 1
            &&& state.aux & 1u32 != 0 && pos > 0 ==> next.counter == pos - 1
        }),
{
}

/// Dual Larson's heads move one pixel per step: forward while bit 0 of
/// `aux` is clear, backward while it is set.
pub proof fn lemma_dual_larson_moves(pixels: Seq<RGB8>, state: EffectState, params: Params)
    requires
        state.aux & 1u32 != 0 || state.counter < u32::MAX,
    ensures
        ({
            let next = dual_larson_frame(pixels, state, params).1;
            &&& state.aux & 1u32 == 0 ==> next.counter == state.counter + 1
            &&& state.aux & 1u32 != 0 && state.counter > 0 ==> next.counter == state.counter - 1
        }),
{
}

/// Multi Strobe flashes the primary colour on every other step for its
/// first `2 * (speed / 100 + 1)` steps and shows `colors[1]` otherwise, its
/// counter running round `2 * (speed / 100 + 1) + 1` steps.
pub proof fn lemma_multi_strobe_flashes(pixels: Seq<RGB8>, state: EffectState, params: Params)
    requires
        state.counter < u32::MAX,
    ensures
        ({
            let (out, next) = multi_strobe_frame(pixels, state, params);
            let count = 2 * (params.speed / 100 + 1);
            &&& out.len() == pixels.len()
            &&& next.counter == (state.counter + 1) % (count + 1)
            &&& forall|i: int|
                0 <= i < out.len() ==> #[trigger] out[i] == if state.counter < count && state.counter % 2 == 0 {
                    params.primary_at_spec(i, pixels.len() as int)
                } else {
                    params.colors[1]
                }
        }),
{
}

} // verus!
