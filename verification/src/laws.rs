//! Properties the library keeps across its functions, proved over the spec
//! functions their contracts use.

use vstd::prelude::*;

use crate::effect::{collapsed, flipped, lemma_first_led, lemma_led_group, repainted, spread, view_len, Effect};
use crate::effects::chase::{color_sweep_random_frame, scan_frame, wipe_step};
use crate::effects::scanner::{dual_larson_frame, mirror_color, trail};
use crate::effects::color::{strobe_frame, strobe_period_of, hyper_sparkle_frame, lemma_white_sparkles_len, sparkle_count, white_sparkles};
use crate::effects::complex::{burst_pass, burst_step, eyes, icu_frame, icu_half, lemma_burst_pass_len, rainbow_fireworks_frame};
use crate::effects::dynamic::{block_dissolve_frame, lemma_wheel_chain_len};
use crate::effects::fire::{burst_count, flicker_depth, lemma_bursts_len, lemma_flicker_chain_len};
use crate::params::{Params, Setting};
use crate::pixel::RGB8;
use crate::segment::{EffectConfig, EffectState, SegmentOptions};
use crate::utils::{
    hash32_of, blend_channel, blend_color, dim_channel, dim_color, faded, primary_strip, rgb_of, solid, hue_distance, next_rand_of, rand_seed, scaled_value, travel_at,
    wheel_color, wheel_pick,
};
use crate::segment::Segment;
use crate::{brightened, due, rendered, segment_end, segment_fits, serviced};

pub mod settings;
pub mod steps;

verus! {

/// Blending by `0` gives the first colour and by `255` the second.
pub proof fn lemma_blend_endpoints(c1: RGB8, c2: RGB8)
    ensures
        blend_color(c1, c2, 0) == c1,
        blend_color(c1, c2, 255) == c2,
{
    lemma_channel_endpoints(c1.r, c2.r);
    lemma_channel_endpoints(c1.g, c2.g);
    lemma_channel_endpoints(c1.b, c2.b);
}

proof fn lemma_channel_endpoints(a: u8, b: u8)
    ensures
        blend_channel(a, b, 0) == a,
        blend_channel(a, b, 255) == b,
{
    assert((a * 255 + b * 0) / 255 == a) by (nonlinear_arith)
        requires
            0 <= a <= 255,
    ;
    assert((a * 0 + b * 255) / 255 == b) by (nonlinear_arith)
        requires
            0 <= b <= 255,
    ;
}

/// Dimming to `255` leaves a colour unchanged.
pub proof fn lemma_dim_full_level(color: RGB8)
    ensures
        dim_color(color, 255) == color,
{
    lemma_dim_channel_full(color.r);
    lemma_dim_channel_full(color.g);
    lemma_dim_channel_full(color.b);
}

proof fn lemma_dim_channel_full(c: u8)
    ensures
        dim_channel(c, 255) == c,
{
    assert(c * 256 / 256 == c) by (nonlinear_arith)
        requires
            0 <= c <= 255,
    ;
}

/// At the default intensity a scaled value is the value itself, and a scaled
/// value never passes 255.
pub proof fn lemma_default_intensity_neutral(base: u8, intensity: u8)
    ensures
        scaled_value(base, Params::DEFAULT_INTENSITY) == base,
        scaled_value(base, intensity) <= 255,
        intensity <= Params::DEFAULT_INTENSITY ==> scaled_value(base, intensity) <= base,
{
    assert(base * 128 / 128 == base) by (nonlinear_arith)
        requires
            0 <= base <= 255,
    ;
    assert(intensity <= 128 ==> base * intensity / 128 <= base) by (nonlinear_arith)
        requires
            0 <= base <= 255,
            0 <= intensity,
    ;
}

/// Full brightness hands the stored pixels out unchanged.
pub proof fn lemma_full_brightness_unchanged(c: RGB8)
    ensures
        brightened(c, 255) == c,
{
    lemma_full_scale(c.r);
    lemma_full_scale(c.g);
    lemma_full_scale(c.b);
}

proof fn lemma_full_scale(x: u8)
    ensures
        (x * 255 / 255) as u8 == x,
{
    assert(x * 255 / 255 == x) by (nonlinear_arith)
        requires
            0 <= x <= 255,
    ;
}

/// Without a palette every effect draws the primary colour `colors[0]` and
/// the hue wheel.
pub proof fn lemma_no_palette(params: Params, index: int, len: int, position: u8)
    requires
        params.palette is None,
    ensures
        params.primary_at_spec(index, len) == params.colors[0],
        params.primary_spec(position) == params.colors[0],
        params.wheel_spec(position) == wheel_color(position),
{
}

/// An effect that does not use the palette (`Effect::uses_palette` is
/// false) draws the same frame whatever palette is given.
pub proof fn lemma_unused_palette_ignored(
    effect: Effect,
    pixels: Seq<RGB8>,
    state: EffectState,
    params: Params,
)
    requires
        !effect.follows_palette(),
    ensures
        effect.draw_frame(pixels, state, params) == effect.draw_frame(
            pixels,
            state,
            Params { palette: None, ..params },
        ),
{
}

/// The generator is never seeded with zero, so a zero state still starts a
/// chain.
pub proof fn lemma_seed_nonzero(state: u32)
    ensures
        rand_seed(state) != 0,
{
    if state != 0 {
        assert(((state as u64) | ((state as u64) << 32u64)) != 0u64) by (bit_vector)
            requires
                state != 0u32,
        ;
    }
}

/// Whether some draw among the first `fuel + 1` after `rng` lies at least 42
/// hue steps from `current`.
pub open spec fn some_distant_draw(current: u8, rng: u32, fuel: nat) -> bool
    decreases fuel,
{
    let next = next_rand_of(rng);
    hue_distance(current, next as u8) >= 42 || (fuel > 0 && some_distant_draw(
        current,
        next,
        (fuel - 1) as nat,
    ))
}

/// A wheel pick is the low byte of the draw it returns, and it lies at least
/// 42 hue steps from the current index whenever any draw within reach does.
pub proof fn lemma_wheel_pick_distant(current: u8, rng: u32, fuel: nat)
    ensures
        wheel_pick(current, rng, fuel).0 == wheel_pick(current, rng, fuel).1 as u8,
        some_distant_draw(current, rng, fuel) ==> hue_distance(current, wheel_pick(current, rng, fuel).0)
            >= 42,
    decreases fuel,
{
    if fuel > 0 {
        lemma_wheel_pick_distant(current, next_rand_of(rng), (fuel - 1) as nat);
    }
}

/// The hue distance is symmetric and at most half the wheel.
pub proof fn lemma_hue_distance(a: u8, b: u8)
    ensures
        hue_distance(a, b) == hue_distance(b, a),
        0 <= hue_distance(a, b) <= 127,
{
}

/// A pattern's travel never goes back while the clock runs forward.
pub proof fn lemma_travel_monotonic(earlier: u32, later: u32, rate: u8)
    requires
        earlier <= later,
    ensures
        travel_at(earlier, rate) <= travel_at(later, rate),
{
    assert(earlier * (rate + 1) <= later * (rate + 1)) by (nonlinear_arith)
        requires
            earlier <= later,
            rate >= 0,
    ;
    assert(earlier * (rate + 1) / 16384 <= later * (rate + 1) / 16384) by (nonlinear_arith)
        requires
            earlier * (rate + 1) <= later * (rate + 1),
    ;
    assert(later * (rate + 1) / 16384 <= 0xFFFF_FFFF * 256) by (nonlinear_arith)
        requires
            later <= 0xFFFF_FFFF,
            rate <= 255,
    ;
}

/// Grouping covers 1, 2, 4 or 8 LEDs per drawn pixel, sizes above 3 counting
/// as 3.
pub proof fn lemma_group_len(params: Params)
    ensures
        params.group_len_spec() == 1 || params.group_len_spec() == 2 || params.group_len_spec() == 4
            || params.group_len_spec() == 8,
        params.size >= 3 ==> params.group_len_spec() == 8,
{
}

/// Without grouping and forward, an effect sees the strip as it is, and what
/// it draws is what the strip shows.
pub proof fn lemma_plain_layout(pixels: Seq<RGB8>, drawn: Seq<RGB8>)
    requires
        drawn.len() == pixels.len(),
    ensures
        flipped(collapsed(pixels, 1), false) == pixels,
        spread(flipped(drawn, false), 1, pixels.len()) == drawn,
{
    assert(collapsed(pixels, 1) =~= pixels);
    assert(spread(drawn, 1, pixels.len()) =~= drawn);
}

/// Reversing twice gives the strip back.
pub proof fn lemma_flip_twice(pixels: Seq<RGB8>)
    ensures
        flipped(flipped(pixels, true), true) == pixels,
{
    assert(flipped(flipped(pixels, true), true) =~= pixels);
}

/// What an effect drew is what it finds on its next step: spreading a drawn
/// view over the strip, grouped and possibly reversed, and rebuilding the view
/// from the strip gives the drawn view back.
pub proof fn lemma_layout_round_trip(drawn: Seq<RGB8>, len: nat, params: Params)
    requires
        len > 0,
        drawn.len() == view_len(len, params.group_len_spec()),
    ensures
        flipped(
            collapsed(spread(flipped(drawn, params.reverse), params.group_len_spec(), len), params.group_len_spec()),
            params.reverse,
        ) == drawn,
{
    let g = params.group_len_spec();
    let shown = flipped(drawn, params.reverse);
    let view = collapsed(spread(shown, g, len), g);
    assert forall|i: int| 0 <= i < view.len() implies view[i] == shown[i] by {
        lemma_first_led(len, g, i);
        assert((i * g) / (g as int) == i) by (nonlinear_arith)
            requires
                g >= 1,
        ;
    }
    assert(view =~= shown);
    if params.reverse {
        lemma_flip_twice(drawn);
    }
}

/// Grouping shows one drawn pixel per group: after a step every LED shows
/// the colour of the first LED of its group, and so the spread frame is
/// rebuilt exactly from its collapsed view.
pub proof fn lemma_step_groups_uniform(effect: Effect, pixels: Seq<RGB8>, state: EffectState, params: Params)
    ensures
        ({
            let out = effect.step_frame(pixels, state, params).0;
            let g = params.group_len_spec() as int;
            &&& out.len() == pixels.len()
            &&& forall|i: int| 0 <= i < out.len() ==> #[trigger] out[i] == out[(i / g) * g]
            &&& spread(collapsed(out, g as nat), g as nat, out.len()) == out
        }),
{
    let out = effect.step_frame(pixels, state, params).0;
    let g = params.group_len_spec() as int;
    assert(1 <= g <= 8);
    if pixels.len() > 0 {
        assert forall|i: int| 0 <= i < out.len() implies #[trigger] out[i] == out[(i / g) * g] by {
            assert(0 <= (i / g) * g <= i) by (nonlinear_arith)
                requires
                    0 <= i,
                    g >= 1,
            ;
            assert(((i / g) * g) / g == i / g) by (nonlinear_arith)
                requires
                    0 <= i,
                    g >= 1,
            ;
        }
        let back = spread(collapsed(out, g as nat), g as nat, out.len());
        assert forall|i: int| 0 <= i < out.len() implies back[i] == out[i] by {
            lemma_led_group(out.len(), g as nat, i);
            assert(out[(i / g) * g] == out[i]);
        }
        assert(back =~= out);
    } else {
        assert(spread(collapsed(out, g as nat), g as nat, out.len()) =~= out);
    }
}

/// Stepping an empty strip leaves the strip and the state as they were.
pub proof fn lemma_empty_strip_untouched(effect: Effect, state: EffectState, params: Params)
    ensures
        effect.step_frame(Seq::empty(), state, params) == (Seq::<RGB8>::empty(), state),
{
}

/// Every effect appears in [`Effect::iter`], at its place in definition
/// order, and [`Effect::count`] counts them.
pub proof fn lemma_iter_lists_every_effect(effect: Effect)
    ensures
        effect.index_of() < Effect::total(),
        Effect::all().len() == Effect::total(),
        Effect::all()[effect.index_of() as int] == effect,
{
}

/// Setting a setting twice with [`Params::with`] keeps the last value.
pub proof fn lemma_with_last_wins(params: Params, a: Setting, x: u8, y: u8)
    ensures
        params.with_spec(a, x).with_spec(a, y) == params.with_spec(a, y),
{
}

/// Setting two different settings gives the same parameters in either order.
#[verifier::rlimit(50)]
pub proof fn lemma_with_commutes(params: Params, a: Setting, b: Setting, x: u8, y: u8)
    requires
        a != b,
    ensures
        params.with_spec(a, x).with_spec(b, y) == params.with_spec(b, y).with_spec(a, x),
{
    match a {
        Setting::Intensity => {},
        Setting::Rate => {},
        Setting::Scale => {},
        Setting::Fill => {},
        Setting::OneColor => {},
        Setting::Width => {},
        Setting::Gap => {},
        Setting::Variation => {},
        Setting::PaletteStart => {},
        Setting::PaletteSpan => {},
        Setting::PaletteStep => {},
        Setting::Spread => {},
        Setting::Count => {},
        Setting::Smoothness => {},
    }
}

/// Converting a configuration gives its colours and speed with every other
/// setting at its classic default.
pub proof fn lemma_config_conversion(config: EffectConfig)
    ensures
        Params::from_segment_spec(config, SegmentOptions::default_spec()) == (Params {
            speed: config.speed,
            ..Params::new_spec(config.colors)
        }),
{
}

/// Every effect draws exactly as many pixels as it is given.
#[verifier::rlimit(100)]
pub proof fn lemma_draw_keeps_len(effect: Effect, pixels: Seq<RGB8>, state: EffectState, params: Params)
    requires
        pixels.len() > 0,
        effect.len_ok(pixels.len(), params),
        effect.accepts(state, pixels.len()),
    ensures
        effect.draw_frame(pixels, state, params).0.len() == pixels.len(),
{
    let len = pixels.len();
    match effect {
        Effect::HyperSparkle => {
            let base = primary_strip(len, params);
            assert(base.len() == len);
            lemma_white_sparkles_len(base, state.aux, sparkle_count(params.intensity));
            assert(effect.draw_frame(pixels, state, params) == hyper_sparkle_frame(pixels, state, params));
            assert(hyper_sparkle_frame(pixels, state, params).0 == white_sparkles(
                base,
                state.aux,
                sparkle_count(params.intensity),
            ).0);
        },
        Effect::SingleDynamic => {
            lemma_wheel_chain_len(state.aux, len, params);
        },
        Effect::MultiDynamic => {
            lemma_wheel_chain_len(state.aux, len, params);
        },
        Effect::Fireworks => {
            lemma_bursts_len(
                faded(pixels, rgb_of(0, 0, 0), scaled_value(128, params.intensity)),
                state.aux,
                burst_count(len),
                params.colors[0],
            );
        },
        Effect::FireworksRandom => {
            let rng = next_rand_of(state.aux);
            let p = repainted(params, [params.wheel_spec(rng as u8), params.colors[1], params.colors[2]]);
            lemma_bursts_len(
                faded(pixels, rgb_of(0, 0, 0), scaled_value(128, p.intensity)),
                rng,
                burst_count(len),
                p.colors[0],
            );
        },
        Effect::FireFlicker => {
            lemma_flicker_chain_len(
                params.colors[0],
                flicker_depth(params.colors[0], 3, params.intensity),
                state.aux,
                len,
            );
        },
        Effect::FireFlickerSoft => {
            lemma_flicker_chain_len(
                params.colors[0],
                flicker_depth(params.colors[0], 6, params.intensity),
                state.aux,
                len,
            );
        },
        Effect::FireFlickerIntense => {
            lemma_flicker_chain_len(
                params.colors[0],
                flicker_depth(params.colors[0], 1, params.intensity),
                state.aux,
                len,
            );
        },
        Effect::RainbowFireworks => {
            lemma_burst_pass_len(pixels, len);
        },
        Effect::Static => {},
        Effect::Blink => {},
        Effect::BlinkRainbow => {},
        Effect::Strobe => {},
        Effect::StrobeRainbow => {},
        Effect::Breath => {},
        Effect::Rainbow => {},
        Effect::Fade => {},
        Effect::MultiStrobe => {},
        Effect::RainbowCycle => {},
        Effect::ColorWipe => {},
        Effect::ColorWipeInv => {},
        Effect::ColorWipeRandom => {},
        Effect::ColorSweepRandom => {},
        Effect::Scan => {},
        Effect::DualScan => {},
        Effect::TricolorChase => {},
        Effect::CircusCombustus => {},
        Effect::TheaterChase => {},
        Effect::TheaterChaseRainbow => {},
        Effect::BicolorChase => {},
        Effect::ChaseColor => {},
        Effect::ChaseBlackout => {},
        Effect::ChaseWhite => {},
        Effect::ChaseRandom => {},
        Effect::ChaseRainbowWhite => {},
        Effect::ChaseRainbow => {},
        Effect::ChaseBlackoutRainbow => {},
        Effect::ChaseFlash => {},
        Effect::ChaseFlashRandom => {},
        Effect::RunningColor => {},
        Effect::RunningRedBlue => {},
        Effect::MerryChristmas => {},
        Effect::Halloween => {},
        Effect::RunningRandom => {},
        Effect::RunningRandom2 => {},
        Effect::RunningLights => {},
        Effect::RandomColor => {},
        Effect::BlockDissolve => {},
        Effect::Twinkle => {},
        Effect::TwinkleRandom => {},
        Effect::TwinkleFade => {},
        Effect::TwinkleFadeRandom => {},
        Effect::Sparkle => {},
        Effect::FlashSparkle => {},
        Effect::SparkleRandom => {},
        Effect::LarsonScanner => {},
        Effect::Comet => {},
        Effect::DualLarson => {},
        Effect::RainbowLarson => {},
        Effect::MultiComet => {},
        Effect::TwinkleFox => {},
        Effect::Rain => {},
        Effect::Icu => {},
        Effect::FillerUp => {},
        Effect::TriFade => {},
        Effect::Heartbeat => {},
        Effect::Sine => {},
        Effect::Bpm => {},
        Effect::Percent => {},
        Effect::Wavesins => {},
        Effect::SolidPattern => {},
        Effect::Saw => {},
        Effect::Bands => {},
        Effect::Stream => {},
        Effect::Stream2 => {},
        Effect::Gradient => {},
        Effect::Loading => {},
        Effect::RunningDual => {},
        Effect::Flow => {},
        Effect::Railway => {},
        Effect::TriWipe => {},
        Effect::TwoDots => {
            let l = len as int;
            let first = (crate::utils::travel_at(params.now_ms, params.rate) as int) % l;
            let steps = if 1 + params.width / 16 < l { 1 + params.width / 16 } else { l };
            crate::effects::spots::lemma_dots_len(
                solid(len, crate::effects::spots::backdrop(params, params.colors[2])),
                first,
                (first + l / 2) % l,
                steps as nat,
                params,
            );
        },
        Effect::Lightning => {},
        Effect::Spots => {},
        Effect::SpotsFade => {},
        Effect::Glitter => {
            crate::effects::spots::lemma_scattered_len(
                crate::effects::spots::glitter_base(len, params),
                crate::utils::phase_at(params.now_ms, params.rate) >> 4u32,
                crate::effects::spots::sparkle_total(len as int, params.intensity) as nat,
                crate::effects::spots::glitter_color(params),
            );
        },
        Effect::SolidGlitter => {
            crate::effects::spots::lemma_scattered_len(
                solid(len, params.colors[0]),
                state.counter,
                crate::effects::spots::sparkle_total(len as int, params.intensity) as nat,
                crate::effects::spots::glitter_color(params),
            );
        },
        Effect::Lake => {},
        Effect::Plasma => {},
        Effect::TwinkleUp => {},
        Effect::SolidPatternTri => {},
    }
}

/// Without grouping and forward, a step draws the effect on the strip as it
/// is.
pub proof fn lemma_plain_step(effect: Effect, pixels: Seq<RGB8>, state: EffectState, params: Params)
    requires
        pixels.len() > 0,
        effect.len_ok(pixels.len(), params),
        effect.accepts(state, pixels.len()),
        params.size == 0,
        !params.reverse,
    ensures
        effect.step_frame(pixels, state, params) == effect.draw_frame(pixels, state, params),
{
    lemma_draw_keeps_len(effect, pixels, state, params);
    lemma_plain_layout(pixels, effect.draw_frame(pixels, state, params).0);
}

/// Reversed and ungrouped, an effect draws on the strip back to front: the
/// strip shows the mirror of what the effect draws on the mirrored strip.
pub proof fn lemma_reverse_mirrors(effect: Effect, pixels: Seq<RGB8>, state: EffectState, params: Params)
    requires
        pixels.len() > 0,
        effect.len_ok(pixels.len(), params),
        effect.accepts(state, pixels.len()),
        params.size == 0,
        params.reverse,
    ensures
        effect.step_frame(pixels, state, params) == ({
            let (drawn, next) = effect.draw_frame(flipped(pixels, true), state, params);
            (flipped(drawn, true), next)
        }),
{
    let mirrored = flipped(pixels, true);
    assert(collapsed(pixels, 1) =~= pixels);
    lemma_draw_keeps_len(effect, mirrored, state, params);
    let drawn = effect.draw_frame(mirrored, state, params).0;
    assert(spread(flipped(drawn, true), 1, pixels.len()) =~= flipped(drawn, true));
}

/// Block Dissolve changes at most one pixel per step, and a pixel it changes
/// takes the colour being dissolved to, `colors[(aux & 3) % 3]` — so
/// `colors[0]` when the low bits of `aux` hold 3. The colour index it keeps
/// is that one while a pixel changes; once none is left to change it moves
/// on to the next colour.
pub proof fn lemma_block_dissolve_one_pixel(pixels: Seq<RGB8>, state: EffectState, params: Params)
    requires
        0 < pixels.len() <= u32::MAX,
    ensures
        ({
            let (out, next) = block_dissolve_frame(pixels, state, params);
            let c = (state.aux & 3u32) % 3;
            &&& out.len() == pixels.len()
            &&& forall|a: int, b: int|
                0 <= a < b < pixels.len() && #[trigger] out[a] != pixels[a] ==> #[trigger] out[b] == pixels[b]
            &&& forall|a: int|
                0 <= a < pixels.len() && #[trigger] out[a] != pixels[a] ==> out[a] == params.colors[c as int]
            &&& (next.aux & 3u32) as int == if out == pixels {
                (c + 1) % 3
            } else {
                c as int
            }
        }),
{
    let len = pixels.len() as int;
    let aux = state.aux;
    let rng = crate::utils::next_rand_of(aux >> 2u32);
    let idx = (rng % (pixels.len() as u32)) as int;
    assert(0 <= idx < len);
    let c = (aux & 3u32) % 3;
    let target = params.colors[c as int];
    assert(c < 3);
    let r2 = crate::utils::next_rand_of(rng);
    assert((c | (rng << 2u32)) & 3u32 == c && (c | (r2 << 2u32)) & 3u32 == c) by (bit_vector)
        requires
            c < 3u32,
    ;
    let c1 = ((c + 1) % 3) as u32;
    assert((c1 | (r2 << 2u32)) & 3u32 == c1) by (bit_vector)
        requires
            c1 < 3u32,
    ;
    let out = block_dissolve_frame(pixels, state, params).0;
    if pixels[idx] == target {
        match crate::effects::dynamic::first_unlike(pixels, target, idx, pixels.len()) {
            Some(o) => {
                let at = (idx + o) % len;
                assert(0 <= at < len);
                lemma_first_unlike_differs(pixels, target, idx, pixels.len());
                assert(out[at] != pixels[at]);
            },
            None => {
                assert(out =~= pixels);
            },
        }
    } else {
        assert(out[idx] != pixels[idx]);
    }
}

/// What `first_unlike` finds is a pixel unlike `target`.
proof fn lemma_first_unlike_differs(pixels: Seq<RGB8>, target: RGB8, start: int, k: nat)
    ensures
        crate::effects::dynamic::first_unlike(pixels, target, start, k) matches Some(o) ==> pixels[(
        start + o) % (pixels.len() as int)] != target,
    decreases k,
{
    if k > 0 {
        lemma_first_unlike_differs(pixels, target, start, (k - 1) as nat);
    }
}

/// Whether Scan's dot is on the strip and can move on in its direction:
/// forward short of the last pixel, or backward past the first.
pub open spec fn scan_in_range(state: EffectState, len: int) -> bool {
    if state.aux == 0 {
        state.counter <= len - 2
    } else {
        1 <= state.counter <= len - 1
    }
}

/// Scan's dot bounces within the strip: it is drawn in `colors[0]` over
/// `colors[1]`, moves one pixel in its direction, and the next state is on
/// the strip again, turning at either end.
pub proof fn lemma_scan_bounces(pixels: Seq<RGB8>, state: EffectState, params: Params)
    requires
        2 <= pixels.len() <= 0x1_0000_0000,
        scan_in_range(state, pixels.len() as int),
    ensures
        ({
            let (out, next) = scan_frame(pixels, state, params);
            let c = state.counter as int;
            &&& out.len() == pixels.len()
            &&& out[c] == params.colors[0]
            &&& forall|j: int| 0 <= j < out.len() && j != c ==> #[trigger] out[j] == params.colors[1]
            &&& next.counter == if state.aux == 0 {
                c + 1
            } else {
                c - 1
            }
            &&& scan_in_range(next, pixels.len() as int)
        }),
{
}

/// Dual Larson's two heads mirror each other over the fading trail: one in
/// the primary colour at its position, the other at the mirrored position in
/// `colors[2]` (the primary while that is black), the rest the faded strip.
pub proof fn lemma_dual_larson_mirrors(pixels: Seq<RGB8>, state: EffectState, params: Params)
    requires
        (state.counter as int) < pixels.len(),
    ensures
        ({
            let out = dual_larson_frame(pixels, state, params).0;
            let pos = state.counter as int;
            let m = pixels.len() - 1 - pos;
            &&& out.len() == pixels.len()
            &&& out[m] == mirror_color(params)
            &&& m != pos ==> out[pos] == params.colors[0]
            &&& forall|j: int|
                0 <= j < out.len() && j != pos && j != m ==> #[trigger] out[j] == trail(pixels, params.intensity)[j]
        }),
{
}

/// `hash32` never gives two inputs one hash: each of its stages — the
/// addition, the xor-shifts and the odd multiplications — can be undone.
pub proof fn lemma_hash32_injective(x: u32, y: u32)
    requires
        hash32_of(x) == hash32_of(y),
    ensures
        x == y,
{
    let x0 = x.wrapping_add(0x9E37_79B9u32);
    let y0 = y.wrapping_add(0x9E37_79B9u32);
    let x1 = (x0 ^ (x0 >> 16u32)).wrapping_mul(0x21F0_AAADu32);
    let y1 = (y0 ^ (y0 >> 16u32)).wrapping_mul(0x21F0_AAADu32);
    let x2 = (x1 ^ (x1 >> 15u32)).wrapping_mul(0x735A_2D97u32);
    let y2 = (y1 ^ (y1 >> 15u32)).wrapping_mul(0x735A_2D97u32);
    assert(x2 ^ (x2 >> 15u32) == y2 ^ (y2 >> 15u32));
    assert(x2 == y2) by (bit_vector)
        requires
            x2 ^ (x2 >> 15u32) == y2 ^ (y2 >> 15u32),
    ;
    assert(x1 ^ (x1 >> 15u32) == y1 ^ (y1 >> 15u32)) by (bit_vector)
        requires
            (x1 ^ (x1 >> 15u32)).wrapping_mul(0x735A_2D97u32) == (y1 ^ (y1 >> 15u32)).wrapping_mul(
                0x735A_2D97u32,
            ),
    ;
    assert(x1 == y1) by (bit_vector)
        requires
            x1 ^ (x1 >> 15u32) == y1 ^ (y1 >> 15u32),
    ;
    assert(x0 ^ (x0 >> 16u32) == y0 ^ (y0 >> 16u32)) by (bit_vector)
        requires
            (x0 ^ (x0 >> 16u32)).wrapping_mul(0x21F0_AAADu32) == (y0 ^ (y0 >> 16u32)).wrapping_mul(
                0x21F0_AAADu32,
            ),
    ;
    assert(x0 == y0) by (bit_vector)
        requires
            x0 ^ (x0 >> 16u32) == y0 ^ (y0 >> 16u32),
    ;
    assert(x == y) by (bit_vector)
        requires
            x.wrapping_add(0x9E37_79B9u32) == y.wrapping_add(0x9E37_79B9u32),
    ;
}

/// ICU shows two eyes half a strip apart, at its position and half a strip
/// further on. While it moves it steps at most one pixel, never away from its
/// destination, and settles once there; settled, it picks its next
/// destination in the first half of the strip and sets off toward it.
pub proof fn lemma_icu_steps(pixels: Seq<RGB8>, state: EffectState, params: Params)
    requires
        0 < pixels.len() <= u32::MAX,
    ensures
        ({
            let (out, next) = icu_frame(pixels, state, params);
            let half = icu_half(pixels.len() as int);
            let pos = state.counter as int;
            let dest = (state.aux & 0xFFFFu32) as int;
            let moving = (state.aux >> 16u32) & 1u32 == 0;
            &&& out == eyes(pixels.len(), next.counter as int, half, params.colors[0])
            &&& out.len() == pixels.len()
            &&& forall|i: int|
                0 <= i < out.len() ==> #[trigger] out[i] == rgb_of(0, 0, 0) || out[i] == params.colors[0]
            &&& forall|i: int|
                0 <= i < out.len() && #[trigger] out[i] != rgb_of(0, 0, 0) ==> (i == next.counter || i
                    == next.counter + half) && next.counter + half < out.len()
            &&& moving ==> -1 <= next.counter - pos <= 1
            &&& moving ==> abs_int(next.counter - dest) <= abs_int(pos - dest)
            &&& moving && next.counter == dest ==> (next.aux >> 16u32) & 1u32 == 1
            &&& !moving && state.aux >> 17u32 >= 8 ==> {
                &&& (next.aux & 0xFFFFu32) < half
                &&& (next.aux >> 16u32) & 1u32 == 0
                &&& next.counter == state.counter
            }
        }),
{
    let half = icu_half(pixels.len() as int);
    assert(1 <= half <= u32::MAX);
    let flags = state.aux;
    assert((flags >> 16u32) & 1u32 == 0u32 || (flags >> 16u32) & 1u32 == 1u32) by (bit_vector);
    if (state.aux >> 16u32) & 1u32 == 1 {
        if state.aux >> 17u32 >= 8 {
            let rng = next_rand_of(state.aux);
            let v = (rng % (half as u32)) as u32;
            assert(v < half);
            assert((v & 0xFFFFu32) <= v && ((v & 0xFFFFu32) & 0xFFFFu32) == (v & 0xFFFFu32) && (((v
                & 0xFFFFu32) >> 16u32) & 1u32) == 0u32) by (bit_vector);
        }
    } else {
        let aux = state.aux;
        assert(aux & 0xFFFFu32 <= 0xFFFFu32) by (bit_vector);
        let dest = aux & 0xFFFFu32;
        assert(((dest & 0xFFFFu32) | (1u32 << 16u32)) & 0xFFFFu32 == dest && (((dest & 0xFFFFu32) | (1u32
            << 16u32)) >> 16u32) & 1u32 == 1u32) by (bit_vector)
            requires
                dest <= 0xFFFFu32,
        ;
    }
}

/// The fading and spawning pass of Rainbow Fireworks leaves no pure red
/// pixel among those it has passed: each is halved or takes a rainbow colour.
proof fn lemma_burst_pass_no_red(pixels: Seq<RGB8>, n: nat)
    requires
        n <= pixels.len(),
    ensures
        burst_pass(pixels, n).len() == pixels.len(),
        forall|k: int| 0 <= k < n ==> #[trigger] burst_pass(pixels, n)[k] != rgb_of(255, 0, 0),
    decreases n,
{
    lemma_burst_pass_len(pixels, n);
    if n > 0 {
        lemma_burst_pass_no_red(pixels, (n - 1) as nat);
        let before = burst_pass(pixels, (n - 1) as nat);
        let after = burst_pass(pixels, n);
        assert(after == burst_step(before, n - 1));
        assert forall|k: int| 0 <= k < n implies #[trigger] after[k] != rgb_of(255, 0, 0) by {
            if k < n - 1 {
                assert(before[k] != rgb_of(255, 0, 0));
            }
        }
    }
}

/// Rainbow Fireworks lights at most one pure red pixel per step — its new
/// spark, at least six pixels from either end; every other pixel has faded or
/// taken a rainbow colour.
pub proof fn lemma_rainbow_fireworks_one_spark(pixels: Seq<RGB8>, state: EffectState, params: Params)
    requires
        pixels.len() <= u32::MAX,
    ensures
        ({
            let out = rainbow_fireworks_frame(pixels, state, params).0;
            &&& out.len() == pixels.len()
            &&& forall|k: int| 0 <= k < out.len() && #[trigger] out[k] == rgb_of(255, 0, 0) ==> 6 <= k < out.len() - 6
            &&& forall|a: int, b: int|
                0 <= a < b < out.len() && #[trigger] out[a] == rgb_of(255, 0, 0) ==> #[trigger] out[b] != rgb_of(255, 0, 0)
        }),
{
    lemma_burst_pass_no_red(pixels, pixels.len());
}

/// Every effect has a name to show.
pub proof fn lemma_names_non_empty(effect: Effect)
    ensures
        effect.display_name().len() > 0,
{
    match effect {
        Effect::Static => {
            reveal_strlit("Static");
        },
        Effect::Blink => {
            reveal_strlit("Blink");
        },
        Effect::BlinkRainbow => {
            reveal_strlit("Blink Rainbow");
        },
        Effect::Strobe => {
            reveal_strlit("Strobe");
        },
        Effect::StrobeRainbow => {
            reveal_strlit("Strobe Rainbow");
        },
        Effect::Breath => {
            reveal_strlit("Breath");
        },
        Effect::Rainbow => {
            reveal_strlit("Rainbow");
        },
        Effect::Fade => {
            reveal_strlit("Fade");
        },
        Effect::HyperSparkle => {
            reveal_strlit("Hyper Sparkle");
        },
        Effect::MultiStrobe => {
            reveal_strlit("Multi Strobe");
        },
        Effect::RainbowCycle => {
            reveal_strlit("Rainbow Cycle");
        },
        Effect::ColorWipe => {
            reveal_strlit("Color Wipe");
        },
        Effect::ColorWipeInv => {
            reveal_strlit("Color Wipe Inv");
        },
        Effect::ColorWipeRandom => {
            reveal_strlit("Color Wipe Random");
        },
        Effect::ColorSweepRandom => {
            reveal_strlit("Color Sweep Random");
        },
        Effect::Scan => {
            reveal_strlit("Scan");
        },
        Effect::DualScan => {
            reveal_strlit("Dual Scan");
        },
        Effect::TricolorChase => {
            reveal_strlit("Tricolor Chase");
        },
        Effect::CircusCombustus => {
            reveal_strlit("Circus Combustus");
        },
        Effect::TheaterChase => {
            reveal_strlit("Theater Chase");
        },
        Effect::TheaterChaseRainbow => {
            reveal_strlit("Theater Chase Rainbow");
        },
        Effect::BicolorChase => {
            reveal_strlit("Bicolor Chase");
        },
        Effect::ChaseColor => {
            reveal_strlit("Chase Color");
        },
        Effect::ChaseBlackout => {
            reveal_strlit("Chase Blackout");
        },
        Effect::ChaseWhite => {
            reveal_strlit("Chase White");
        },
        Effect::ChaseRandom => {
            reveal_strlit("Chase Random");
        },
        Effect::ChaseRainbowWhite => {
            reveal_strlit("Chase Rainbow White");
        },
        Effect::ChaseRainbow => {
            reveal_strlit("Chase Rainbow");
        },
        Effect::ChaseBlackoutRainbow => {
            reveal_strlit("Chase Blackout Rainbow");
        },
        Effect::ChaseFlash => {
            reveal_strlit("Chase Flash");
        },
        Effect::ChaseFlashRandom => {
            reveal_strlit("Chase Flash Random");
        },
        Effect::RunningColor => {
            reveal_strlit("Running Color");
        },
        Effect::RunningRedBlue => {
            reveal_strlit("Running Red Blue");
        },
        Effect::MerryChristmas => {
            reveal_strlit("Merry Christmas");
        },
        Effect::Halloween => {
            reveal_strlit("Halloween");
        },
        Effect::RunningRandom => {
            reveal_strlit("Running Random");
        },
        Effect::RunningRandom2 => {
            reveal_strlit("Running Random 2");
        },
        Effect::RunningLights => {
            reveal_strlit("Running Lights");
        },
        Effect::RandomColor => {
            reveal_strlit("Random Color");
        },
        Effect::SingleDynamic => {
            reveal_strlit("Single Dynamic");
        },
        Effect::MultiDynamic => {
            reveal_strlit("Multi Dynamic");
        },
        Effect::BlockDissolve => {
            reveal_strlit("Block Dissolve");
        },
        Effect::Twinkle => {
            reveal_strlit("Twinkle");
        },
        Effect::TwinkleRandom => {
            reveal_strlit("Twinkle Random");
        },
        Effect::TwinkleFade => {
            reveal_strlit("Twinkle Fade");
        },
        Effect::TwinkleFadeRandom => {
            reveal_strlit("Twinkle Fade Random");
        },
        Effect::Sparkle => {
            reveal_strlit("Sparkle");
        },
        Effect::FlashSparkle => {
            reveal_strlit("Flash Sparkle");
        },
        Effect::SparkleRandom => {
            reveal_strlit("Sparkle Random");
        },
        Effect::LarsonScanner => {
            reveal_strlit("Larson Scanner");
        },
        Effect::Comet => {
            reveal_strlit("Comet");
        },
        Effect::DualLarson => {
            reveal_strlit("Dual Larson");
        },
        Effect::RainbowLarson => {
            reveal_strlit("Rainbow Larson");
        },
        Effect::MultiComet => {
            reveal_strlit("Multi Comet");
        },
        Effect::Fireworks => {
            reveal_strlit("Fireworks");
        },
        Effect::FireworksRandom => {
            reveal_strlit("Fireworks Random");
        },
        Effect::FireFlicker => {
            reveal_strlit("Fire Flicker");
        },
        Effect::FireFlickerSoft => {
            reveal_strlit("Fire Flicker (Soft)");
        },
        Effect::FireFlickerIntense => {
            reveal_strlit("Fire Flicker (Intense)");
        },
        Effect::TwinkleFox => {
            reveal_strlit("TwinkleFOX");
        },
        Effect::Rain => {
            reveal_strlit("Rain");
        },
        Effect::Icu => {
            reveal_strlit("ICU");
        },
        Effect::FillerUp => {
            reveal_strlit("Filler Up");
        },
        Effect::TriFade => {
            reveal_strlit("Tri Fade");
        },
        Effect::Heartbeat => {
            reveal_strlit("Heartbeat");
        },
        Effect::RainbowFireworks => {
            reveal_strlit("Rainbow Fireworks");
        },
        Effect::Sine => {
            reveal_strlit("Sine");
        },
        Effect::Bpm => {
            reveal_strlit("Bpm");
        },
        Effect::Percent => {
            reveal_strlit("Percent");
        },
        Effect::Wavesins => {
            reveal_strlit("Wavesins");
        },
        Effect::SolidPattern => {
            reveal_strlit("Solid Pattern");
        },
        Effect::Saw => {
            reveal_strlit("Saw");
        },
        Effect::Bands => {
            reveal_strlit("Bands");
        },
        Effect::Stream => {
            reveal_strlit("Stream");
        },
        Effect::Stream2 => {
            reveal_strlit("Stream 2");
        },
        Effect::Gradient => {
            reveal_strlit("Gradient");
        },
        Effect::Loading => {
            reveal_strlit("Loading");
        },
        Effect::RunningDual => {
            reveal_strlit("Running Dual");
        },
        Effect::Flow => {
            reveal_strlit("Flow");
        },
        Effect::Railway => {
            reveal_strlit("Railway");
        },
        Effect::TriWipe => {
            reveal_strlit("Tri Wipe");
        },
        Effect::TwoDots => {
            reveal_strlit("Two Dots");
        },
        Effect::Lightning => {
            reveal_strlit("Lightning");
        },
        Effect::Spots => {
            reveal_strlit("Spots");
        },
        Effect::SpotsFade => {
            reveal_strlit("Spots Fade");
        },
        Effect::Glitter => {
            reveal_strlit("Glitter");
        },
        Effect::SolidGlitter => {
            reveal_strlit("Solid Glitter");
        },
        Effect::Lake => {
            reveal_strlit("Lake");
        },
        Effect::Plasma => {
            reveal_strlit("Plasma");
        },
        Effect::TwinkleUp => {
            reveal_strlit("Twinkle Up");
        },
        Effect::SolidPatternTri => {
            reveal_strlit("Solid Pattern Tri");
        },
    }
}

/// The place, in definition order, of the effect named `name`, read from
/// the name's length and its first two and last two characters.
spec fn name_place(name: Seq<char>) -> int {
    if name.len() == 6 && name[0] == 'S' && name[1] == 't' && name[4] == 'i' && name[5] == 'c' {
        0
    } else     if name.len() == 5 && name[0] == 'B' && name[1] == 'l' && name[3] == 'n' && name[4] == 'k' {
        1
    } else     if name.len() == 13 && name[0] == 'B' && name[1] == 'l' && name[11] == 'o' && name[12] == 'w' {
        2
    } else     if name.len() == 6 && name[0] == 'S' && name[1] == 't' && name[4] == 'b' && name[5] == 'e' {
        3
    } else     if name.len() == 14 && name[0] == 'S' && name[1] == 't' && name[12] == 'o' && name[13] == 'w' {
        4
    } else     if name.len() == 6 && name[0] == 'B' && name[1] == 'r' && name[4] == 't' && name[5] == 'h' {
        5
    } else     if name.len() == 7 && name[0] == 'R' && name[1] == 'a' && name[5] == 'o' && name[6] == 'w' {
        6
    } else     if name.len() == 4 && name[0] == 'F' && name[1] == 'a' && name[2] == 'd' && name[3] == 'e' {
        7
    } else     if name.len() == 13 && name[0] == 'H' && name[1] == 'y' && name[11] == 'l' && name[12] == 'e' {
        8
    } else     if name.len() == 12 && name[0] == 'M' && name[1] == 'u' && name[10] == 'b' && name[11] == 'e' {
        9
    } else     if name.len() == 13 && name[0] == 'R' && name[1] == 'a' && name[11] == 'l' && name[12] == 'e' {
        10
    } else     if name.len() == 10 && name[0] == 'C' && name[1] == 'o' && name[8] == 'p' && name[9] == 'e' {
        11
    } else     if name.len() == 14 && name[0] == 'C' && name[1] == 'o' && name[12] == 'n' && name[13] == 'v' {
        12
    } else     if name.len() == 17 && name[0] == 'C' && name[1] == 'o' && name[15] == 'o' && name[16] == 'm' {
        13
    } else     if name.len() == 18 && name[0] == 'C' && name[1] == 'o' && name[16] == 'o' && name[17] == 'm' {
        14
    } else     if name.len() == 4 && name[0] == 'S' && name[1] == 'c' && name[2] == 'a' && name[3] == 'n' {
        15
    } else     if name.len() == 9 && name[0] == 'D' && name[1] == 'u' && name[7] == 'a' && name[8] == 'n' {
        16
    } else     if name.len() == 14 && name[0] == 'T' && name[1] == 'r' && name[12] == 's' && name[13] == 'e' {
        17
    } else     if name.len() == 16 && name[0] == 'C' && name[1] == 'i' && name[14] == 'u' && name[15] == 's' {
        18
    } else     if name.len() == 13 && name[0] == 'T' && name[1] == 'h' && name[11] == 's' && name[12] == 'e' {
        19
    } else     if name.len() == 21 && name[0] == 'T' && name[1] == 'h' && name[19] == 'o' && name[20] == 'w' {
        20
    } else     if name.len() == 13 && name[0] == 'B' && name[1] == 'i' && name[11] == 's' && name[12] == 'e' {
        21
    } else     if name.len() == 11 && name[0] == 'C' && name[1] == 'h' && name[9] == 'o' && name[10] == 'r' {
        22
    } else     if name.len() == 14 && name[0] == 'C' && name[1] == 'h' && name[12] == 'u' && name[13] == 't' {
        23
    } else     if name.len() == 11 && name[0] == 'C' && name[1] == 'h' && name[9] == 't' && name[10] == 'e' {
        24
    } else     if name.len() == 12 && name[0] == 'C' && name[1] == 'h' && name[10] == 'o' && name[11] == 'm' {
        25
    } else     if name.len() == 19 && name[0] == 'C' && name[1] == 'h' && name[17] == 't' && name[18] == 'e' {
        26
    } else     if name.len() == 13 && name[0] == 'C' && name[1] == 'h' && name[11] == 'o' && name[12] == 'w' {
        27
    } else     if name.len() == 22 && name[0] == 'C' && name[1] == 'h' && name[20] == 'o' && name[21] == 'w' {
        28
    } else     if name.len() == 11 && name[0] == 'C' && name[1] == 'h' && name[9] == 's' && name[10] == 'h' {
        29
    } else     if name.len() == 18 && name[0] == 'C' && name[1] == 'h' && name[16] == 'o' && name[17] == 'm' {
        30
    } else     if name.len() == 13 && name[0] == 'R' && name[1] == 'u' && name[11] == 'o' && name[12] == 'r' {
        31
    } else     if name.len() == 16 && name[0] == 'R' && name[1] == 'u' && name[14] == 'u' && name[15] == 'e' {
        32
    } else     if name.len() == 15 && name[0] == 'M' && name[1] == 'e' && name[13] == 'a' && name[14] == 's' {
        33
    } else     if name.len() == 9 && name[0] == 'H' && name[1] == 'a' && name[7] == 'e' && name[8] == 'n' {
        34
    } else     if name.len() == 14 && name[0] == 'R' && name[1] == 'u' && name[12] == 'o' && name[13] == 'm' {
        35
    } else     if name.len() == 16 && name[0] == 'R' && name[1] == 'u' && name[14] == ' ' && name[15] == '2' {
        36
    } else     if name.len() == 14 && name[0] == 'R' && name[1] == 'u' && name[12] == 't' && name[13] == 's' {
        37
    } else     if name.len() == 12 && name[0] == 'R' && name[1] == 'a' && name[10] == 'o' && name[11] == 'r' {
        38
    } else     if name.len() == 14 && name[0] == 'S' && name[1] == 'i' && name[12] == 'i' && name[13] == 'c' {
        39
    } else     if name.len() == 13 && name[0] == 'M' && name[1] == 'u' && name[11] == 'i' && name[12] == 'c' {
        40
    } else     if name.len() == 14 && name[0] == 'B' && name[1] == 'l' && name[12] == 'v' && name[13] == 'e' {
        41
    } else     if name.len() == 7 && name[0] == 'T' && name[1] == 'w' && name[5] == 'l' && name[6] == 'e' {
        42
    } else     if name.len() == 14 && name[0] == 'T' && name[1] == 'w' && name[12] == 'o' && name[13] == 'm' {
        43
    } else     if name.len() == 12 && name[0] == 'T' && name[1] == 'w' && name[10] == 'd' && name[11] == 'e' {
        44
    } else     if name.len() == 19 && name[0] == 'T' && name[1] == 'w' && name[17] == 'o' && name[18] == 'm' {
        45
    } else     if name.len() == 7 && name[0] == 'S' && name[1] == 'p' && name[5] == 'l' && name[6] == 'e' {
        46
    } else     if name.len() == 13 && name[0] == 'F' && name[1] == 'l' && name[11] == 'l' && name[12] == 'e' {
        47
    } else     if name.len() == 14 && name[0] == 'S' && name[1] == 'p' && name[12] == 'o' && name[13] == 'm' {
        48
    } else     if name.len() == 14 && name[0] == 'L' && name[1] == 'a' && name[12] == 'e' && name[13] == 'r' {
        49
    } else     if name.len() == 5 && name[0] == 'C' && name[1] == 'o' && name[3] == 'e' && name[4] == 't' {
        50
    } else     if name.len() == 11 && name[0] == 'D' && name[1] == 'u' && name[9] == 'o' && name[10] == 'n' {
        51
    } else     if name.len() == 14 && name[0] == 'R' && name[1] == 'a' && name[12] == 'o' && name[13] == 'n' {
        52
    } else     if name.len() == 11 && name[0] == 'M' && name[1] == 'u' && name[9] == 'e' && name[10] == 't' {
        53
    } else     if name.len() == 9 && name[0] == 'F' && name[1] == 'i' && name[7] == 'k' && name[8] == 's' {
        54
    } else     if name.len() == 16 && name[0] == 'F' && name[1] == 'i' && name[14] == 'o' && name[15] == 'm' {
        55
    } else     if name.len() == 12 && name[0] == 'F' && name[1] == 'i' && name[10] == 'e' && name[11] == 'r' {
        56
    } else     if name.len() == 19 && name[0] == 'F' && name[1] == 'i' && name[17] == 't' && name[18] == ')' {
        57
    } else     if name.len() == 22 && name[0] == 'F' && name[1] == 'i' && name[20] == 'e' && name[21] == ')' {
        58
    } else     if name.len() == 10 && name[0] == 'T' && name[1] == 'w' && name[8] == 'O' && name[9] == 'X' {
        59
    } else     if name.len() == 4 && name[0] == 'R' && name[1] == 'a' && name[2] == 'i' && name[3] == 'n' {
        60
    } else     if name.len() == 3 && name[0] == 'I' && name[1] == 'C' && name[1] == 'C' && name[2] == 'U' {
        61
    } else     if name.len() == 9 && name[0] == 'F' && name[1] == 'i' && name[7] == 'U' && name[8] == 'p' {
        62
    } else     if name.len() == 8 && name[0] == 'T' && name[1] == 'r' && name[6] == 'd' && name[7] == 'e' {
        63
    } else     if name.len() == 9 && name[0] == 'H' && name[1] == 'e' && name[7] == 'a' && name[8] == 't' {
        64
    } else     if name.len() == 17 && name[0] == 'R' && name[1] == 'a' && name[15] == 'k' && name[16] == 's' {
        65
    } else     if name.len() == 4 && name[0] == 'S' && name[1] == 'i' && name[2] == 'n' && name[3] == 'e' {
        66
    } else     if name.len() == 3 && name[0] == 'B' && name[1] == 'p' && name[1] == 'p' && name[2] == 'm' {
        67
    } else     if name.len() == 7 && name[0] == 'P' && name[1] == 'e' && name[5] == 'n' && name[6] == 't' {
        68
    } else     if name.len() == 8 && name[0] == 'W' && name[1] == 'a' && name[6] == 'n' && name[7] == 's' {
        69
    } else     if name.len() == 13 && name[0] == 'S' && name[1] == 'o' && name[11] == 'r' && name[12] == 'n' {
        70
    } else     if name.len() == 3 && name[0] == 'S' && name[1] == 'a' && name[1] == 'a' && name[2] == 'w' {
        71
    } else     if name.len() == 5 && name[0] == 'B' && name[1] == 'a' && name[3] == 'd' && name[4] == 's' {
        72
    } else     if name.len() == 6 && name[0] == 'S' && name[1] == 't' && name[4] == 'a' && name[5] == 'm' {
        73
    } else     if name.len() == 8 && name[0] == 'S' && name[1] == 't' && name[6] == ' ' && name[7] == '2' {
        74
    } else     if name.len() == 8 && name[0] == 'G' && name[1] == 'r' && name[6] == 'n' && name[7] == 't' {
        75
    } else     if name.len() == 7 && name[0] == 'L' && name[1] == 'o' && name[5] == 'n' && name[6] == 'g' {
        76
    } else     if name.len() == 12 && name[0] == 'R' && name[1] == 'u' && name[10] == 'a' && name[11] == 'l' {
        77
    } else     if name.len() == 4 && name[0] == 'F' && name[1] == 'l' && name[2] == 'o' && name[3] == 'w' {
        78
    } else     if name.len() == 7 && name[0] == 'R' && name[1] == 'a' && name[5] == 'a' && name[6] == 'y' {
        79
    } else     if name.len() == 8 && name[0] == 'T' && name[1] == 'r' && name[6] == 'p' && name[7] == 'e' {
        80
    } else     if name.len() == 8 && name[0] == 'T' && name[1] == 'w' && name[6] == 't' && name[7] == 's' {
        81
    } else     if name.len() == 9 && name[0] == 'L' && name[1] == 'i' && name[7] == 'n' && name[8] == 'g' {
        82
    } else     if name.len() == 5 && name[0] == 'S' && name[1] == 'p' && name[3] == 't' && name[4] == 's' {
        83
    } else     if name.len() == 10 && name[0] == 'S' && name[1] == 'p' && name[8] == 'd' && name[9] == 'e' {
        84
    } else     if name.len() == 7 && name[0] == 'G' && name[1] == 'l' && name[5] == 'e' && name[6] == 'r' {
        85
    } else     if name.len() == 13 && name[0] == 'S' && name[1] == 'o' && name[11] == 'e' && name[12] == 'r' {
        86
    } else     if name.len() == 4 && name[0] == 'L' && name[1] == 'a' && name[2] == 'k' && name[3] == 'e' {
        87
    } else     if name.len() == 6 && name[0] == 'P' && name[1] == 'l' && name[4] == 'm' && name[5] == 'a' {
        88
    } else     if name.len() == 10 && name[0] == 'T' && name[1] == 'w' && name[8] == 'U' && name[9] == 'p' {
        89
    } else     if name.len() == 17 && name[0] == 'S' && name[1] == 'o' && name[15] == 'r' && name[16] == 'i' {
        90
    } else {
        -1
    }
}

/// Each effect's name gives its place back.
proof fn lemma_name_place(effect: Effect)
    ensures
        name_place(effect.display_name()) == effect.index_of(),
{
    match effect {
        Effect::Static => {
            reveal_strlit("Static");
        },
        Effect::Blink => {
            reveal_strlit("Blink");
        },
        Effect::BlinkRainbow => {
            reveal_strlit("Blink Rainbow");
        },
        Effect::Strobe => {
            reveal_strlit("Strobe");
        },
        Effect::StrobeRainbow => {
            reveal_strlit("Strobe Rainbow");
        },
        Effect::Breath => {
            reveal_strlit("Breath");
        },
        Effect::Rainbow => {
            reveal_strlit("Rainbow");
        },
        Effect::Fade => {
            reveal_strlit("Fade");
        },
        Effect::HyperSparkle => {
            reveal_strlit("Hyper Sparkle");
        },
        Effect::MultiStrobe => {
            reveal_strlit("Multi Strobe");
        },
        Effect::RainbowCycle => {
            reveal_strlit("Rainbow Cycle");
        },
        Effect::ColorWipe => {
            reveal_strlit("Color Wipe");
        },
        Effect::ColorWipeInv => {
            reveal_strlit("Color Wipe Inv");
        },
        Effect::ColorWipeRandom => {
            reveal_strlit("Color Wipe Random");
        },
        Effect::ColorSweepRandom => {
            reveal_strlit("Color Sweep Random");
        },
        Effect::Scan => {
            reveal_strlit("Scan");
        },
        Effect::DualScan => {
            reveal_strlit("Dual Scan");
        },
        Effect::TricolorChase => {
            reveal_strlit("Tricolor Chase");
        },
        Effect::CircusCombustus => {
            reveal_strlit("Circus Combustus");
        },
        Effect::TheaterChase => {
            reveal_strlit("Theater Chase");
        },
        Effect::TheaterChaseRainbow => {
            reveal_strlit("Theater Chase Rainbow");
        },
        Effect::BicolorChase => {
            reveal_strlit("Bicolor Chase");
        },
        Effect::ChaseColor => {
            reveal_strlit("Chase Color");
        },
        Effect::ChaseBlackout => {
            reveal_strlit("Chase Blackout");
        },
        Effect::ChaseWhite => {
            reveal_strlit("Chase White");
        },
        Effect::ChaseRandom => {
            reveal_strlit("Chase Random");
        },
        Effect::ChaseRainbowWhite => {
            reveal_strlit("Chase Rainbow White");
        },
        Effect::ChaseRainbow => {
            reveal_strlit("Chase Rainbow");
        },
        Effect::ChaseBlackoutRainbow => {
            reveal_strlit("Chase Blackout Rainbow");
        },
        Effect::ChaseFlash => {
            reveal_strlit("Chase Flash");
        },
        Effect::ChaseFlashRandom => {
            reveal_strlit("Chase Flash Random");
        },
        Effect::RunningColor => {
            reveal_strlit("Running Color");
        },
        Effect::RunningRedBlue => {
            reveal_strlit("Running Red Blue");
        },
        Effect::MerryChristmas => {
            reveal_strlit("Merry Christmas");
        },
        Effect::Halloween => {
            reveal_strlit("Halloween");
        },
        Effect::RunningRandom => {
            reveal_strlit("Running Random");
        },
        Effect::RunningRandom2 => {
            reveal_strlit("Running Random 2");
        },
        Effect::RunningLights => {
            reveal_strlit("Running Lights");
        },
        Effect::RandomColor => {
            reveal_strlit("Random Color");
        },
        Effect::SingleDynamic => {
            reveal_strlit("Single Dynamic");
        },
        Effect::MultiDynamic => {
            reveal_strlit("Multi Dynamic");
        },
        Effect::BlockDissolve => {
            reveal_strlit("Block Dissolve");
        },
        Effect::Twinkle => {
            reveal_strlit("Twinkle");
        },
        Effect::TwinkleRandom => {
            reveal_strlit("Twinkle Random");
        },
        Effect::TwinkleFade => {
            reveal_strlit("Twinkle Fade");
        },
        Effect::TwinkleFadeRandom => {
            reveal_strlit("Twinkle Fade Random");
        },
        Effect::Sparkle => {
            reveal_strlit("Sparkle");
        },
        Effect::FlashSparkle => {
            reveal_strlit("Flash Sparkle");
        },
        Effect::SparkleRandom => {
            reveal_strlit("Sparkle Random");
        },
        Effect::LarsonScanner => {
            reveal_strlit("Larson Scanner");
        },
        Effect::Comet => {
            reveal_strlit("Comet");
        },
        Effect::DualLarson => {
            reveal_strlit("Dual Larson");
        },
        Effect::RainbowLarson => {
            reveal_strlit("Rainbow Larson");
        },
        Effect::MultiComet => {
            reveal_strlit("Multi Comet");
        },
        Effect::Fireworks => {
            reveal_strlit("Fireworks");
        },
        Effect::FireworksRandom => {
            reveal_strlit("Fireworks Random");
        },
        Effect::FireFlicker => {
            reveal_strlit("Fire Flicker");
        },
        Effect::FireFlickerSoft => {
            reveal_strlit("Fire Flicker (Soft)");
        },
        Effect::FireFlickerIntense => {
            reveal_strlit("Fire Flicker (Intense)");
        },
        Effect::TwinkleFox => {
            reveal_strlit("TwinkleFOX");
        },
        Effect::Rain => {
            reveal_strlit("Rain");
        },
        Effect::Icu => {
            reveal_strlit("ICU");
        },
        Effect::FillerUp => {
            reveal_strlit("Filler Up");
        },
        Effect::TriFade => {
            reveal_strlit("Tri Fade");
        },
        Effect::Heartbeat => {
            reveal_strlit("Heartbeat");
        },
        Effect::RainbowFireworks => {
            reveal_strlit("Rainbow Fireworks");
        },
        Effect::Sine => {
            reveal_strlit("Sine");
        },
        Effect::Bpm => {
            reveal_strlit("Bpm");
        },
        Effect::Percent => {
            reveal_strlit("Percent");
        },
        Effect::Wavesins => {
            reveal_strlit("Wavesins");
        },
        Effect::SolidPattern => {
            reveal_strlit("Solid Pattern");
        },
        Effect::Saw => {
            reveal_strlit("Saw");
        },
        Effect::Bands => {
            reveal_strlit("Bands");
        },
        Effect::Stream => {
            reveal_strlit("Stream");
        },
        Effect::Stream2 => {
            reveal_strlit("Stream 2");
        },
        Effect::Gradient => {
            reveal_strlit("Gradient");
        },
        Effect::Loading => {
            reveal_strlit("Loading");
        },
        Effect::RunningDual => {
            reveal_strlit("Running Dual");
        },
        Effect::Flow => {
            reveal_strlit("Flow");
        },
        Effect::Railway => {
            reveal_strlit("Railway");
        },
        Effect::TriWipe => {
            reveal_strlit("Tri Wipe");
        },
        Effect::TwoDots => {
            reveal_strlit("Two Dots");
        },
        Effect::Lightning => {
            reveal_strlit("Lightning");
        },
        Effect::Spots => {
            reveal_strlit("Spots");
        },
        Effect::SpotsFade => {
            reveal_strlit("Spots Fade");
        },
        Effect::Glitter => {
            reveal_strlit("Glitter");
        },
        Effect::SolidGlitter => {
            reveal_strlit("Solid Glitter");
        },
        Effect::Lake => {
            reveal_strlit("Lake");
        },
        Effect::Plasma => {
            reveal_strlit("Plasma");
        },
        Effect::TwinkleUp => {
            reveal_strlit("Twinkle Up");
        },
        Effect::SolidPatternTri => {
            reveal_strlit("Solid Pattern Tri");
        },
    }
}

/// No two effects share a name.
pub proof fn lemma_names_distinct(a: Effect, b: Effect)
    requires
        a != b,
    ensures
        a.display_name() != b.display_name(),
{
    lemma_name_place(a);
    lemma_name_place(b);
    lemma_iter_lists_every_effect(a);
    lemma_iter_lists_every_effect(b);
}

/// Colour Sweep Random changes at most one pixel per step, ticks its
/// counter, and picks a new colour only at the start of a sweep.
pub proof fn lemma_color_sweep_one_pixel(pixels: Seq<RGB8>, state: EffectState, params: Params)
    requires
        pixels.len() > 0,
    ensures
        ({
            let (out, next) = color_sweep_random_frame(pixels, state, params);
            &&& out.len() == pixels.len()
            &&& forall|a: int, b: int|
                0 <= a < b < pixels.len() && #[trigger] out[a] != pixels[a] ==> #[trigger] out[b] == pixels[b]
            &&& next.counter == state.counter.wrapping_add(1)
            &&& wipe_step(state.counter, pixels.len() as int) != 0 ==> next.aux == state.aux
        }),
{
    let len = pixels.len() as int;
    let step = wipe_step(state.counter, len);
    assert(0 <= step < 2 * len) by (nonlinear_arith)
        requires
            step == (state.counter as int) % (len * 2),
            len > 0,
    ;
}

/// `|x|`.
pub open spec fn abs_int(x: int) -> int {
    if x < 0 {
        -x
    } else {
        x
    }
}

/// Servicing when no segment is due leaves the strip and the segments as
/// they were and reports nothing to write.
pub proof fn lemma_service_idle(pixels: Seq<RGB8>, segments: Seq<Segment>, now_ms: u64, i: nat)
    requires
        forall|k: int| i <= k < segments.len() ==> !due(#[trigger] segments[k], now_ms),
    ensures
        serviced(pixels, segments, now_ms, i) == (pixels, segments, false),
    decreases segments.len() - i,
{
    if i < segments.len() {
        lemma_service_idle(pixels, segments, now_ms, i + 1);
    }
}

/// Servicing reports a frame to write exactly when some segment is due and
/// fits the strip.
pub proof fn lemma_service_reports_due(pixels: Seq<RGB8>, segments: Seq<Segment>, now_ms: u64, i: nat)
    ensures
        serviced(pixels, segments, now_ms, i).2 <==> exists|k: int|
            i <= k < segments.len() && due(#[trigger] segments[k], now_ms) && segment_fits(
                segments[k],
                pixels.len(),
            ),
    decreases segments.len() - i,
{
    if i < segments.len() {
        if due(segments[i as int], now_ms) && segment_fits(segments[i as int], pixels.len()) {
            assert(due(segments[i as int], now_ms));
        } else {
            lemma_service_reports_due(pixels, segments, now_ms, i + 1);
            if exists|k: int|
                i <= k < segments.len() && due(#[trigger] segments[k], now_ms) && segment_fits(
                    segments[k],
                    pixels.len(),
                ) {
                let k = choose|k: int|
                    i <= k < segments.len() && due(#[trigger] segments[k], now_ms) && segment_fits(
                        segments[k],
                        pixels.len(),
                    );
                assert(k != i);
                assert(i + 1 <= k);
            }
        }
    }
}

/// The time-driven effects draw from the clock alone: what they draw depends
/// neither on the step count nor on what the strip showed before, and they
/// leave their state as it was.
pub proof fn lemma_time_driven(
    effect: Effect,
    before: Seq<RGB8>,
    other: Seq<RGB8>,
    state: EffectState,
    other_state: EffectState,
    params: Params,
)
    requires
        effect == Effect::Sine || effect == Effect::Bpm || effect == Effect::Wavesins,
        before.len() == other.len(),
    ensures
        effect.draw_frame(before, state, params).0 == effect.draw_frame(other, other_state, params).0,
        effect.draw_frame(before, state, params).1 == state,
{
    assert(effect.draw_frame(before, state, params).0 =~= effect.draw_frame(other, other_state, params).0);
}

/// Stepped on the strip as laid out — grouped and possibly reversed — an
/// effect that does not use the palette draws the same frame and steps to
/// the same state whatever palette is given.
pub proof fn lemma_step_ignores_unused_palette(
    effect: Effect,
    pixels: Seq<RGB8>,
    state: EffectState,
    params: Params,
)
    requires
        !effect.follows_palette(),
    ensures
        effect.step_frame(pixels, state, params) == effect.step_frame(
            pixels,
            state,
            Params { palette: None, ..params },
        ),
{
    if pixels.len() > 0 {
        let g = params.group_len_spec();
        lemma_unused_palette_ignored(effect, flipped(collapsed(pixels, g), params.reverse), state, params);
    }
}

/// Stepped on the strip as laid out, the time-driven effects draw a frame
/// that depends on the parameters (the clock among them) and the strip's
/// length alone, and leave their state as it was.
pub proof fn lemma_step_time_driven(
    effect: Effect,
    before: Seq<RGB8>,
    other: Seq<RGB8>,
    state: EffectState,
    other_state: EffectState,
    params: Params,
)
    requires
        effect == Effect::Sine || effect == Effect::Bpm || effect == Effect::Wavesins,
        before.len() == other.len(),
    ensures
        effect.step_frame(before, state, params).0 == effect.step_frame(other, other_state, params).0,
        effect.step_frame(before, state, params).1 == state,
{
    if before.len() > 0 {
        let g = params.group_len_spec();
        lemma_time_driven(
            effect,
            flipped(collapsed(before, g), params.reverse),
            flipped(collapsed(other, g), params.reverse),
            state,
            other_state,
            params,
        );
    }
}

/// Stepping a segment changes only the pixels of its run on the strip; the
/// strip keeps its length.
pub proof fn lemma_render_stays_in_run(pixels: Seq<RGB8>, segment: Segment, k: int)
    requires
        segment_fits(segment, pixels.len()),
        0 <= k < pixels.len(),
        !(segment.start <= k < segment_end(segment, pixels.len())),
    ensures
        rendered(pixels, segment).0.len() == pixels.len(),
        rendered(pixels, segment).0[k] == pixels[k],
{
    let end = segment_end(segment, pixels.len());
    let head = pixels.subrange(0, segment.start as int);
    let run = pixels.subrange(segment.start as int, end);
    let tail = pixels.subrange(end, pixels.len() as int);
    let params = segment.params_spec();
    let drawn = segment.effect.step_frame(run, segment.state, params).0;
    assert(drawn.len() == run.len());
    assert(rendered(pixels, segment).0 == head + drawn + tail);
    if k >= end {
        assert((head + drawn + tail)[k] == tail[k - end]);
    }
}

/// Servicing the strip changes only pixels in the runs of segments that were
/// due and fit it: a pixel outside all of them keeps its colour, and the
/// strip keeps its length.
pub proof fn lemma_service_keeps_idle_pixels(
    pixels: Seq<RGB8>,
    segments: Seq<Segment>,
    now_ms: u64,
    i: nat,
    k: int,
)
    requires
        0 <= k < pixels.len(),
        forall|j: int|
            i <= j < segments.len() && due(#[trigger] segments[j], now_ms) && segment_fits(
                segments[j],
                pixels.len(),
            ) ==> !(segments[j].start <= k < segment_end(segments[j], pixels.len())),
    ensures
        serviced(pixels, segments, now_ms, i).0.len() == pixels.len(),
        serviced(pixels, segments, now_ms, i).0[k] == pixels[k],
    decreases segments.len() - i,
{
    if i < segments.len() {
        let segment = segments[i as int];
        if due(segment, now_ms) && segment_fits(segment, pixels.len()) {
            lemma_render_stays_in_run(pixels, segment, k);
            let (p, state) = rendered(pixels, segment);
            let next = Segment { state, last_update: now_ms, ..segment };
            let rest = segments.update(i as int, next);
            assert forall|j: int|
                i + 1 <= j < rest.len() && due(#[trigger] rest[j], now_ms) && segment_fits(
                    rest[j],
                    p.len(),
                ) implies !(rest[j].start <= k < segment_end(rest[j], p.len())) by {
                assert(rest[j] == segments[j]);
            }
            lemma_service_keeps_idle_pixels(p, rest, now_ms, i + 1, k);
        } else {
            lemma_service_keeps_idle_pixels(pixels, segments, now_ms, i + 1, k);
        }
    }
}

/// The strobe's state after `steps` steps from `state`.
pub open spec fn strobed(state: EffectState, params: Params, steps: nat) -> EffectState
    decreases steps,
{
    if steps == 0 {
        state
    } else {
        strobe_frame(Seq::empty(), strobed(state, params, (steps - 1) as nat), params).1
    }
}

/// A strobe flashes for a single step and then pauses: stepping on from any
/// state, step `steps` flashes the primary colour exactly when
/// `counter + steps` is a multiple of the period, and shows `colors[1]`
/// otherwise — so flashes come one period apart, never two steps running.
pub proof fn lemma_strobe_rhythm(state: EffectState, params: Params, steps: nat, pixels: Seq<RGB8>)
    ensures
        strobed(state, params, steps).counter % strobe_period_of(params.intensity) == (state.counter + steps)
            % (strobe_period_of(params.intensity) as int),
        strobe_frame(pixels, strobed(state, params, steps), params).0 == if (state.counter + steps)
            % (strobe_period_of(params.intensity) as int) == 0 {
            primary_strip(pixels.len(), params)
        } else {
            solid(pixels.len(), params.colors[1])
        },
    decreases steps,
{
    let p = strobe_period_of(params.intensity) as int;
    assert(2 <= p <= 9);
    if steps > 0 {
        lemma_strobe_rhythm(state, params, (steps - 1) as nat, pixels);
        let x = strobed(state, params, (steps - 1) as nat).counter as int;
        let c = state.counter as int;
        vstd::arithmetic::div_mod::lemma_add_mod_noop(x, 1, p);
        vstd::arithmetic::div_mod::lemma_add_mod_noop(c + steps - 1, 1, p);
        vstd::arithmetic::div_mod::lemma_small_mod(1, p as nat);
        vstd::arithmetic::div_mod::lemma_mod_bound(x + 1, p);
        vstd::arithmetic::div_mod::lemma_small_mod(((x + 1) % p) as nat, p as nat);
    }
}

} // verus!
