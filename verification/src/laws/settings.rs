//! Settings an effect does not list change nothing it draws.

use vstd::prelude::*;

use crate::effect::{collapsed, flipped, Effect};
use crate::params::{Params, Setting};
use crate::pixel::RGB8;
use crate::segment::EffectState;
use crate::utils::primary_strip;

verus! {

/// Setting a setting keeps every other field, and the ones no setting names.
proof fn lemma_with_keeps_the_rest(params: Params, setting: Setting, value: u8)
    ensures
        ({
            let q = params.with_spec(setting, value);
            &&& q.colors == params.colors
            &&& q.palette == params.palette
            &&& q.speed == params.speed
            &&& q.size == params.size
            &&& q.reverse == params.reverse
            &&& q.now_ms == params.now_ms
            &&& q.overlay == params.overlay
            &&& (setting != Setting::Intensity ==> q.intensity == params.intensity)
            &&& (setting != Setting::Rate ==> q.rate == params.rate)
            &&& (setting != Setting::Scale ==> q.scale == params.scale)
            &&& (setting != Setting::Fill ==> q.fill == params.fill)
            &&& (setting != Setting::OneColor ==> q.one_color == params.one_color)
            &&& (setting != Setting::Width ==> q.width == params.width)
            &&& (setting != Setting::Gap ==> q.gap == params.gap)
            &&& (setting != Setting::Variation ==> q.variation == params.variation)
            &&& (setting != Setting::PaletteStart ==> q.palette_start == params.palette_start)
            &&& (setting != Setting::PaletteSpan ==> q.palette_span == params.palette_span)
            &&& (setting != Setting::PaletteStep ==> q.palette_step == params.palette_step)
            &&& (setting != Setting::Spread ==> q.spread == params.spread)
            &&& (setting != Setting::Count ==> q.count == params.count)
            &&& (setting != Setting::Smoothness ==> q.smoothness == params.smoothness)
        }),
{
}

proof fn unlisted_static(pixels: Seq<RGB8>, state: EffectState, params: Params, setting: Setting, value: u8)
    requires
        !Effect::Static.settings_spec().contains(setting),
    ensures
        Effect::Static.draw_frame(pixels, state, params.with_spec(setting, value)) == Effect::Static.draw_frame(pixels, state, params),
{
    let q = params.with_spec(setting, value);
    lemma_with_keeps_the_rest(params, setting, value);
    assert(primary_strip(pixels.len(), q) =~= primary_strip(pixels.len(), params));
    assert(Effect::Static.draw_frame(pixels, state, q).0 =~= Effect::Static.draw_frame(pixels, state, params).0);
}

proof fn unlisted_blink(pixels: Seq<RGB8>, state: EffectState, params: Params, setting: Setting, value: u8)
    requires
        !Effect::Blink.settings_spec().contains(setting),
    ensures
        Effect::Blink.draw_frame(pixels, state, params.with_spec(setting, value)) == Effect::Blink.draw_frame(pixels, state, params),
{
    let q = params.with_spec(setting, value);
    lemma_with_keeps_the_rest(params, setting, value);
    assert(primary_strip(pixels.len(), q) =~= primary_strip(pixels.len(), params));
    assert(Effect::Blink.draw_frame(pixels, state, q).0 =~= Effect::Blink.draw_frame(pixels, state, params).0);
}

proof fn unlisted_blink_rainbow(pixels: Seq<RGB8>, state: EffectState, params: Params, setting: Setting, value: u8)
    requires
        !Effect::BlinkRainbow.settings_spec().contains(setting),
    ensures
        Effect::BlinkRainbow.draw_frame(pixels, state, params.with_spec(setting, value)) == Effect::BlinkRainbow.draw_frame(pixels, state, params),
{
    let q = params.with_spec(setting, value);
    lemma_with_keeps_the_rest(params, setting, value);
    assert(primary_strip(pixels.len(), q) =~= primary_strip(pixels.len(), params));
    assert(Effect::BlinkRainbow.draw_frame(pixels, state, q).0 =~= Effect::BlinkRainbow.draw_frame(pixels, state, params).0);
}

proof fn unlisted_strobe(pixels: Seq<RGB8>, state: EffectState, params: Params, setting: Setting, value: u8)
    requires
        !Effect::Strobe.settings_spec().contains(setting),
    ensures
        Effect::Strobe.draw_frame(pixels, state, params.with_spec(setting, value)) == Effect::Strobe.draw_frame(pixels, state, params),
{
    let q = params.with_spec(setting, value);
    lemma_with_keeps_the_rest(params, setting, value);
    if setting == Setting::Intensity {
        assert(Effect::Strobe.settings_spec()[0] == setting);
    }
    assert(primary_strip(pixels.len(), q) =~= primary_strip(pixels.len(), params));
    assert(Effect::Strobe.draw_frame(pixels, state, q).0 =~= Effect::Strobe.draw_frame(pixels, state, params).0);
}

proof fn unlisted_strobe_rainbow(pixels: Seq<RGB8>, state: EffectState, params: Params, setting: Setting, value: u8)
    requires
        !Effect::StrobeRainbow.settings_spec().contains(setting),
    ensures
        Effect::StrobeRainbow.draw_frame(pixels, state, params.with_spec(setting, value)) == Effect::StrobeRainbow.draw_frame(pixels, state, params),
{
    let q = params.with_spec(setting, value);
    lemma_with_keeps_the_rest(params, setting, value);
    if setting == Setting::Intensity {
        assert(Effect::StrobeRainbow.settings_spec()[0] == setting);
    }
    assert(primary_strip(pixels.len(), q) =~= primary_strip(pixels.len(), params));
    assert(Effect::StrobeRainbow.draw_frame(pixels, state, q).0 =~= Effect::StrobeRainbow.draw_frame(pixels, state, params).0);
}

proof fn unlisted_breath(pixels: Seq<RGB8>, state: EffectState, params: Params, setting: Setting, value: u8)
    requires
        !Effect::Breath.settings_spec().contains(setting),
    ensures
        Effect::Breath.draw_frame(pixels, state, params.with_spec(setting, value)) == Effect::Breath.draw_frame(pixels, state, params),
{
    let q = params.with_spec(setting, value);
    lemma_with_keeps_the_rest(params, setting, value);
    assert(primary_strip(pixels.len(), q) =~= primary_strip(pixels.len(), params));
    assert(Effect::Breath.draw_frame(pixels, state, q).0 =~= Effect::Breath.draw_frame(pixels, state, params).0);
}

proof fn unlisted_rainbow(pixels: Seq<RGB8>, state: EffectState, params: Params, setting: Setting, value: u8)
    requires
        !Effect::Rainbow.settings_spec().contains(setting),
    ensures
        Effect::Rainbow.draw_frame(pixels, state, params.with_spec(setting, value)) == Effect::Rainbow.draw_frame(pixels, state, params),
{
    let q = params.with_spec(setting, value);
    lemma_with_keeps_the_rest(params, setting, value);
    assert(primary_strip(pixels.len(), q) =~= primary_strip(pixels.len(), params));
    assert(Effect::Rainbow.draw_frame(pixels, state, q).0 =~= Effect::Rainbow.draw_frame(pixels, state, params).0);
}

proof fn unlisted_fade(pixels: Seq<RGB8>, state: EffectState, params: Params, setting: Setting, value: u8)
    requires
        !Effect::Fade.settings_spec().contains(setting),
    ensures
        Effect::Fade.draw_frame(pixels, state, params.with_spec(setting, value)) == Effect::Fade.draw_frame(pixels, state, params),
{
    let q = params.with_spec(setting, value);
    lemma_with_keeps_the_rest(params, setting, value);
    assert(primary_strip(pixels.len(), q) =~= primary_strip(pixels.len(), params));
    assert(Effect::Fade.draw_frame(pixels, state, q).0 =~= Effect::Fade.draw_frame(pixels, state, params).0);
}

proof fn unlisted_hyper_sparkle(pixels: Seq<RGB8>, state: EffectState, params: Params, setting: Setting, value: u8)
    requires
        !Effect::HyperSparkle.settings_spec().contains(setting),
    ensures
        Effect::HyperSparkle.draw_frame(pixels, state, params.with_spec(setting, value)) == Effect::HyperSparkle.draw_frame(pixels, state, params),
{
    let q = params.with_spec(setting, value);
    lemma_with_keeps_the_rest(params, setting, value);
    if setting == Setting::Intensity {
        assert(Effect::HyperSparkle.settings_spec()[0] == setting);
    }
    assert(primary_strip(pixels.len(), q) =~= primary_strip(pixels.len(), params));
    assert(Effect::HyperSparkle.draw_frame(pixels, state, q).0 =~= Effect::HyperSparkle.draw_frame(pixels, state, params).0);
}

proof fn unlisted_multi_strobe(pixels: Seq<RGB8>, state: EffectState, params: Params, setting: Setting, value: u8)
    requires
        !Effect::MultiStrobe.settings_spec().contains(setting),
    ensures
        Effect::MultiStrobe.draw_frame(pixels, state, params.with_spec(setting, value)) == Effect::MultiStrobe.draw_frame(pixels, state, params),
{
    let q = params.with_spec(setting, value);
    lemma_with_keeps_the_rest(params, setting, value);
    assert(primary_strip(pixels.len(), q) =~= primary_strip(pixels.len(), params));
    assert(Effect::MultiStrobe.draw_frame(pixels, state, q).0 =~= Effect::MultiStrobe.draw_frame(pixels, state, params).0);
}

proof fn unlisted_rainbow_cycle(pixels: Seq<RGB8>, state: EffectState, params: Params, setting: Setting, value: u8)
    requires
        !Effect::RainbowCycle.settings_spec().contains(setting),
    ensures
        Effect::RainbowCycle.draw_frame(pixels, state, params.with_spec(setting, value)) == Effect::RainbowCycle.draw_frame(pixels, state, params),
{
    let q = params.with_spec(setting, value);
    lemma_with_keeps_the_rest(params, setting, value);
    if setting == Setting::Intensity {
        assert(Effect::RainbowCycle.settings_spec()[0] == setting);
    }
    assert(primary_strip(pixels.len(), q) =~= primary_strip(pixels.len(), params));
    assert(Effect::RainbowCycle.draw_frame(pixels, state, q).0 =~= Effect::RainbowCycle.draw_frame(pixels, state, params).0);
}

proof fn unlisted_color_wipe(pixels: Seq<RGB8>, state: EffectState, params: Params, setting: Setting, value: u8)
    requires
        !Effect::ColorWipe.settings_spec().contains(setting),
    ensures
        Effect::ColorWipe.draw_frame(pixels, state, params.with_spec(setting, value)) == Effect::ColorWipe.draw_frame(pixels, state, params),
{
    let q = params.with_spec(setting, value);
    lemma_with_keeps_the_rest(params, setting, value);
    assert(primary_strip(pixels.len(), q) =~= primary_strip(pixels.len(), params));
    assert(Effect::ColorWipe.draw_frame(pixels, state, q).0 =~= Effect::ColorWipe.draw_frame(pixels, state, params).0);
}

proof fn unlisted_color_wipe_inv(pixels: Seq<RGB8>, state: EffectState, params: Params, setting: Setting, value: u8)
    requires
        !Effect::ColorWipeInv.settings_spec().contains(setting),
    ensures
        Effect::ColorWipeInv.draw_frame(pixels, state, params.with_spec(setting, value)) == Effect::ColorWipeInv.draw_frame(pixels, state, params),
{
    let q = params.with_spec(setting, value);
    lemma_with_keeps_the_rest(params, setting, value);
    assert(primary_strip(pixels.len(), q) =~= primary_strip(pixels.len(), params));
    assert(Effect::ColorWipeInv.draw_frame(pixels, state, q).0 =~= Effect::ColorWipeInv.draw_frame(pixels, state, params).0);
}

proof fn unlisted_color_wipe_random(pixels: Seq<RGB8>, state: EffectState, params: Params, setting: Setting, value: u8)
    requires
        !Effect::ColorWipeRandom.settings_spec().contains(setting),
    ensures
        Effect::ColorWipeRandom.draw_frame(pixels, state, params.with_spec(setting, value)) == Effect::ColorWipeRandom.draw_frame(pixels, state, params),
{
    let q = params.with_spec(setting, value);
    lemma_with_keeps_the_rest(params, setting, value);
    assert(primary_strip(pixels.len(), q) =~= primary_strip(pixels.len(), params));
    assert(Effect::ColorWipeRandom.draw_frame(pixels, state, q).0 =~= Effect::ColorWipeRandom.draw_frame(pixels, state, params).0);
}

proof fn unlisted_color_sweep_random(pixels: Seq<RGB8>, state: EffectState, params: Params, setting: Setting, value: u8)
    requires
        !Effect::ColorSweepRandom.settings_spec().contains(setting),
    ensures
        Effect::ColorSweepRandom.draw_frame(pixels, state, params.with_spec(setting, value)) == Effect::ColorSweepRandom.draw_frame(pixels, state, params),
{
    let q = params.with_spec(setting, value);
    lemma_with_keeps_the_rest(params, setting, value);
    assert(primary_strip(pixels.len(), q) =~= primary_strip(pixels.len(), params));
    assert(Effect::ColorSweepRandom.draw_frame(pixels, state, q).0 =~= Effect::ColorSweepRandom.draw_frame(pixels, state, params).0);
}

proof fn unlisted_scan(pixels: Seq<RGB8>, state: EffectState, params: Params, setting: Setting, value: u8)
    requires
        !Effect::Scan.settings_spec().contains(setting),
    ensures
        Effect::Scan.draw_frame(pixels, state, params.with_spec(setting, value)) == Effect::Scan.draw_frame(pixels, state, params),
{
    let q = params.with_spec(setting, value);
    lemma_with_keeps_the_rest(params, setting, value);
    assert(primary_strip(pixels.len(), q) =~= primary_strip(pixels.len(), params));
    assert(Effect::Scan.draw_frame(pixels, state, q).0 =~= Effect::Scan.draw_frame(pixels, state, params).0);
}

proof fn unlisted_dual_scan(pixels: Seq<RGB8>, state: EffectState, params: Params, setting: Setting, value: u8)
    requires
        !Effect::DualScan.settings_spec().contains(setting),
    ensures
        Effect::DualScan.draw_frame(pixels, state, params.with_spec(setting, value)) == Effect::DualScan.draw_frame(pixels, state, params),
{
    let q = params.with_spec(setting, value);
    lemma_with_keeps_the_rest(params, setting, value);
    assert(primary_strip(pixels.len(), q) =~= primary_strip(pixels.len(), params));
    assert(Effect::DualScan.draw_frame(pixels, state, q).0 =~= Effect::DualScan.draw_frame(pixels, state, params).0);
}

proof fn unlisted_tricolor_chase(pixels: Seq<RGB8>, state: EffectState, params: Params, setting: Setting, value: u8)
    requires
        !Effect::TricolorChase.settings_spec().contains(setting),
    ensures
        Effect::TricolorChase.draw_frame(pixels, state, params.with_spec(setting, value)) == Effect::TricolorChase.draw_frame(pixels, state, params),
{
    let q = params.with_spec(setting, value);
    lemma_with_keeps_the_rest(params, setting, value);
    assert(primary_strip(pixels.len(), q) =~= primary_strip(pixels.len(), params));
    assert(Effect::TricolorChase.draw_frame(pixels, state, q).0 =~= Effect::TricolorChase.draw_frame(pixels, state, params).0);
}

proof fn unlisted_circus_combustus(pixels: Seq<RGB8>, state: EffectState, params: Params, setting: Setting, value: u8)
    requires
        !Effect::CircusCombustus.settings_spec().contains(setting),
    ensures
        Effect::CircusCombustus.draw_frame(pixels, state, params.with_spec(setting, value)) == Effect::CircusCombustus.draw_frame(pixels, state, params),
{
    let q = params.with_spec(setting, value);
    lemma_with_keeps_the_rest(params, setting, value);
    assert(primary_strip(pixels.len(), q) =~= primary_strip(pixels.len(), params));
    assert(Effect::CircusCombustus.draw_frame(pixels, state, q).0 =~= Effect::CircusCombustus.draw_frame(pixels, state, params).0);
}

proof fn unlisted_theater_chase(pixels: Seq<RGB8>, state: EffectState, params: Params, setting: Setting, value: u8)
    requires
        !Effect::TheaterChase.settings_spec().contains(setting),
    ensures
        Effect::TheaterChase.draw_frame(pixels, state, params.with_spec(setting, value)) == Effect::TheaterChase.draw_frame(pixels, state, params),
{
    let q = params.with_spec(setting, value);
    lemma_with_keeps_the_rest(params, setting, value);
    assert(primary_strip(pixels.len(), q) =~= primary_strip(pixels.len(), params));
    assert(Effect::TheaterChase.draw_frame(pixels, state, q).0 =~= Effect::TheaterChase.draw_frame(pixels, state, params).0);
}

proof fn unlisted_theater_chase_rainbow(pixels: Seq<RGB8>, state: EffectState, params: Params, setting: Setting, value: u8)
    requires
        !Effect::TheaterChaseRainbow.settings_spec().contains(setting),
    ensures
        Effect::TheaterChaseRainbow.draw_frame(pixels, state, params.with_spec(setting, value)) == Effect::TheaterChaseRainbow.draw_frame(pixels, state, params),
{
    let q = params.with_spec(setting, value);
    lemma_with_keeps_the_rest(params, setting, value);
    assert(primary_strip(pixels.len(), q) =~= primary_strip(pixels.len(), params));
    assert(Effect::TheaterChaseRainbow.draw_frame(pixels, state, q).0 =~= Effect::TheaterChaseRainbow.draw_frame(pixels, state, params).0);
}

proof fn unlisted_bicolor_chase(pixels: Seq<RGB8>, state: EffectState, params: Params, setting: Setting, value: u8)
    requires
        !Effect::BicolorChase.settings_spec().contains(setting),
    ensures
        Effect::BicolorChase.draw_frame(pixels, state, params.with_spec(setting, value)) == Effect::BicolorChase.draw_frame(pixels, state, params),
{
    let q = params.with_spec(setting, value);
    lemma_with_keeps_the_rest(params, setting, value);
    assert(primary_strip(pixels.len(), q) =~= primary_strip(pixels.len(), params));
    assert(Effect::BicolorChase.draw_frame(pixels, state, q).0 =~= Effect::BicolorChase.draw_frame(pixels, state, params).0);
}

proof fn unlisted_chase_color(pixels: Seq<RGB8>, state: EffectState, params: Params, setting: Setting, value: u8)
    requires
        !Effect::ChaseColor.settings_spec().contains(setting),
    ensures
        Effect::ChaseColor.draw_frame(pixels, state, params.with_spec(setting, value)) == Effect::ChaseColor.draw_frame(pixels, state, params),
{
    let q = params.with_spec(setting, value);
    lemma_with_keeps_the_rest(params, setting, value);
    assert(primary_strip(pixels.len(), q) =~= primary_strip(pixels.len(), params));
    assert(Effect::ChaseColor.draw_frame(pixels, state, q).0 =~= Effect::ChaseColor.draw_frame(pixels, state, params).0);
}

proof fn unlisted_chase_blackout(pixels: Seq<RGB8>, state: EffectState, params: Params, setting: Setting, value: u8)
    requires
        !Effect::ChaseBlackout.settings_spec().contains(setting),
    ensures
        Effect::ChaseBlackout.draw_frame(pixels, state, params.with_spec(setting, value)) == Effect::ChaseBlackout.draw_frame(pixels, state, params),
{
    let q = params.with_spec(setting, value);
    lemma_with_keeps_the_rest(params, setting, value);
    assert(primary_strip(pixels.len(), q) =~= primary_strip(pixels.len(), params));
    assert(Effect::ChaseBlackout.draw_frame(pixels, state, q).0 =~= Effect::ChaseBlackout.draw_frame(pixels, state, params).0);
}

proof fn unlisted_chase_white(pixels: Seq<RGB8>, state: EffectState, params: Params, setting: Setting, value: u8)
    requires
        !Effect::ChaseWhite.settings_spec().contains(setting),
    ensures
        Effect::ChaseWhite.draw_frame(pixels, state, params.with_spec(setting, value)) == Effect::ChaseWhite.draw_frame(pixels, state, params),
{
    let q = params.with_spec(setting, value);
    lemma_with_keeps_the_rest(params, setting, value);
    assert(primary_strip(pixels.len(), q) =~= primary_strip(pixels.len(), params));
    assert(Effect::ChaseWhite.draw_frame(pixels, state, q).0 =~= Effect::ChaseWhite.draw_frame(pixels, state, params).0);
}

proof fn unlisted_chase_random(pixels: Seq<RGB8>, state: EffectState, params: Params, setting: Setting, value: u8)
    requires
        !Effect::ChaseRandom.settings_spec().contains(setting),
    ensures
        Effect::ChaseRandom.draw_frame(pixels, state, params.with_spec(setting, value)) == Effect::ChaseRandom.draw_frame(pixels, state, params),
{
    let q = params.with_spec(setting, value);
    lemma_with_keeps_the_rest(params, setting, value);
    assert(primary_strip(pixels.len(), q) =~= primary_strip(pixels.len(), params));
    assert(Effect::ChaseRandom.draw_frame(pixels, state, q).0 =~= Effect::ChaseRandom.draw_frame(pixels, state, params).0);
}

proof fn unlisted_chase_rainbow_white(pixels: Seq<RGB8>, state: EffectState, params: Params, setting: Setting, value: u8)
    requires
        !Effect::ChaseRainbowWhite.settings_spec().contains(setting),
    ensures
        Effect::ChaseRainbowWhite.draw_frame(pixels, state, params.with_spec(setting, value)) == Effect::ChaseRainbowWhite.draw_frame(pixels, state, params),
{
    let q = params.with_spec(setting, value);
    lemma_with_keeps_the_rest(params, setting, value);
    assert(primary_strip(pixels.len(), q) =~= primary_strip(pixels.len(), params));
    assert(Effect::ChaseRainbowWhite.draw_frame(pixels, state, q).0 =~= Effect::ChaseRainbowWhite.draw_frame(pixels, state, params).0);
}

proof fn unlisted_chase_rainbow(pixels: Seq<RGB8>, state: EffectState, params: Params, setting: Setting, value: u8)
    requires
        !Effect::ChaseRainbow.settings_spec().contains(setting),
    ensures
        Effect::ChaseRainbow.draw_frame(pixels, state, params.with_spec(setting, value)) == Effect::ChaseRainbow.draw_frame(pixels, state, params),
{
    let q = params.with_spec(setting, value);
    lemma_with_keeps_the_rest(params, setting, value);
    assert(primary_strip(pixels.len(), q) =~= primary_strip(pixels.len(), params));
    assert(Effect::ChaseRainbow.draw_frame(pixels, state, q).0 =~= Effect::ChaseRainbow.draw_frame(pixels, state, params).0);
}

proof fn unlisted_chase_blackout_rainbow(pixels: Seq<RGB8>, state: EffectState, params: Params, setting: Setting, value: u8)
    requires
        !Effect::ChaseBlackoutRainbow.settings_spec().contains(setting),
    ensures
        Effect::ChaseBlackoutRainbow.draw_frame(pixels, state, params.with_spec(setting, value)) == Effect::ChaseBlackoutRainbow.draw_frame(pixels, state, params),
{
    let q = params.with_spec(setting, value);
    lemma_with_keeps_the_rest(params, setting, value);
    assert(primary_strip(pixels.len(), q) =~= primary_strip(pixels.len(), params));
    assert(Effect::ChaseBlackoutRainbow.draw_frame(pixels, state, q).0 =~= Effect::ChaseBlackoutRainbow.draw_frame(pixels, state, params).0);
}

proof fn unlisted_chase_flash(pixels: Seq<RGB8>, state: EffectState, params: Params, setting: Setting, value: u8)
    requires
        !Effect::ChaseFlash.settings_spec().contains(setting),
    ensures
        Effect::ChaseFlash.draw_frame(pixels, state, params.with_spec(setting, value)) == Effect::ChaseFlash.draw_frame(pixels, state, params),
{
    let q = params.with_spec(setting, value);
    lemma_with_keeps_the_rest(params, setting, value);
    assert(primary_strip(pixels.len(), q) =~= primary_strip(pixels.len(), params));
    assert(Effect::ChaseFlash.draw_frame(pixels, state, q).0 =~= Effect::ChaseFlash.draw_frame(pixels, state, params).0);
}

proof fn unlisted_chase_flash_random(pixels: Seq<RGB8>, state: EffectState, params: Params, setting: Setting, value: u8)
    requires
        !Effect::ChaseFlashRandom.settings_spec().contains(setting),
    ensures
        Effect::ChaseFlashRandom.draw_frame(pixels, state, params.with_spec(setting, value)) == Effect::ChaseFlashRandom.draw_frame(pixels, state, params),
{
    let q = params.with_spec(setting, value);
    lemma_with_keeps_the_rest(params, setting, value);
    assert(primary_strip(pixels.len(), q) =~= primary_strip(pixels.len(), params));
    assert(Effect::ChaseFlashRandom.draw_frame(pixels, state, q).0 =~= Effect::ChaseFlashRandom.draw_frame(pixels, state, params).0);
}

proof fn unlisted_running_color(pixels: Seq<RGB8>, state: EffectState, params: Params, setting: Setting, value: u8)
    requires
        !Effect::RunningColor.settings_spec().contains(setting),
    ensures
        Effect::RunningColor.draw_frame(pixels, state, params.with_spec(setting, value)) == Effect::RunningColor.draw_frame(pixels, state, params),
{
    let q = params.with_spec(setting, value);
    lemma_with_keeps_the_rest(params, setting, value);
    assert(primary_strip(pixels.len(), q) =~= primary_strip(pixels.len(), params));
    assert(Effect::RunningColor.draw_frame(pixels, state, q).0 =~= Effect::RunningColor.draw_frame(pixels, state, params).0);
}

proof fn unlisted_running_red_blue(pixels: Seq<RGB8>, state: EffectState, params: Params, setting: Setting, value: u8)
    requires
        !Effect::RunningRedBlue.settings_spec().contains(setting),
    ensures
        Effect::RunningRedBlue.draw_frame(pixels, state, params.with_spec(setting, value)) == Effect::RunningRedBlue.draw_frame(pixels, state, params),
{
    let q = params.with_spec(setting, value);
    lemma_with_keeps_the_rest(params, setting, value);
    assert(primary_strip(pixels.len(), q) =~= primary_strip(pixels.len(), params));
    assert(Effect::RunningRedBlue.draw_frame(pixels, state, q).0 =~= Effect::RunningRedBlue.draw_frame(pixels, state, params).0);
}

proof fn unlisted_merry_christmas(pixels: Seq<RGB8>, state: EffectState, params: Params, setting: Setting, value: u8)
    requires
        !Effect::MerryChristmas.settings_spec().contains(setting),
    ensures
        Effect::MerryChristmas.draw_frame(pixels, state, params.with_spec(setting, value)) == Effect::MerryChristmas.draw_frame(pixels, state, params),
{
    let q = params.with_spec(setting, value);
    lemma_with_keeps_the_rest(params, setting, value);
    assert(primary_strip(pixels.len(), q) =~= primary_strip(pixels.len(), params));
    assert(Effect::MerryChristmas.draw_frame(pixels, state, q).0 =~= Effect::MerryChristmas.draw_frame(pixels, state, params).0);
}

proof fn unlisted_halloween(pixels: Seq<RGB8>, state: EffectState, params: Params, setting: Setting, value: u8)
    requires
        !Effect::Halloween.settings_spec().contains(setting),
    ensures
        Effect::Halloween.draw_frame(pixels, state, params.with_spec(setting, value)) == Effect::Halloween.draw_frame(pixels, state, params),
{
    let q = params.with_spec(setting, value);
    lemma_with_keeps_the_rest(params, setting, value);
    assert(primary_strip(pixels.len(), q) =~= primary_strip(pixels.len(), params));
    assert(Effect::Halloween.draw_frame(pixels, state, q).0 =~= Effect::Halloween.draw_frame(pixels, state, params).0);
}

proof fn unlisted_running_random(pixels: Seq<RGB8>, state: EffectState, params: Params, setting: Setting, value: u8)
    requires
        !Effect::RunningRandom.settings_spec().contains(setting),
    ensures
        Effect::RunningRandom.draw_frame(pixels, state, params.with_spec(setting, value)) == Effect::RunningRandom.draw_frame(pixels, state, params),
{
    let q = params.with_spec(setting, value);
    lemma_with_keeps_the_rest(params, setting, value);
    assert(primary_strip(pixels.len(), q) =~= primary_strip(pixels.len(), params));
    assert(Effect::RunningRandom.draw_frame(pixels, state, q).0 =~= Effect::RunningRandom.draw_frame(pixels, state, params).0);
}

proof fn unlisted_running_random2(pixels: Seq<RGB8>, state: EffectState, params: Params, setting: Setting, value: u8)
    requires
        !Effect::RunningRandom2.settings_spec().contains(setting),
    ensures
        Effect::RunningRandom2.draw_frame(pixels, state, params.with_spec(setting, value)) == Effect::RunningRandom2.draw_frame(pixels, state, params),
{
    let q = params.with_spec(setting, value);
    lemma_with_keeps_the_rest(params, setting, value);
    assert(primary_strip(pixels.len(), q) =~= primary_strip(pixels.len(), params));
    assert(Effect::RunningRandom2.draw_frame(pixels, state, q).0 =~= Effect::RunningRandom2.draw_frame(pixels, state, params).0);
}

proof fn unlisted_running_lights(pixels: Seq<RGB8>, state: EffectState, params: Params, setting: Setting, value: u8)
    requires
        !Effect::RunningLights.settings_spec().contains(setting),
    ensures
        Effect::RunningLights.draw_frame(pixels, state, params.with_spec(setting, value)) == Effect::RunningLights.draw_frame(pixels, state, params),
{
    let q = params.with_spec(setting, value);
    lemma_with_keeps_the_rest(params, setting, value);
    assert(primary_strip(pixels.len(), q) =~= primary_strip(pixels.len(), params));
    assert(Effect::RunningLights.draw_frame(pixels, state, q).0 =~= Effect::RunningLights.draw_frame(pixels, state, params).0);
}

proof fn unlisted_random_color(pixels: Seq<RGB8>, state: EffectState, params: Params, setting: Setting, value: u8)
    requires
        !Effect::RandomColor.settings_spec().contains(setting),
    ensures
        Effect::RandomColor.draw_frame(pixels, state, params.with_spec(setting, value)) == Effect::RandomColor.draw_frame(pixels, state, params),
{
    let q = params.with_spec(setting, value);
    lemma_with_keeps_the_rest(params, setting, value);
    assert(primary_strip(pixels.len(), q) =~= primary_strip(pixels.len(), params));
    assert(Effect::RandomColor.draw_frame(pixels, state, q).0 =~= Effect::RandomColor.draw_frame(pixels, state, params).0);
}

proof fn unlisted_single_dynamic(pixels: Seq<RGB8>, state: EffectState, params: Params, setting: Setting, value: u8)
    requires
        !Effect::SingleDynamic.settings_spec().contains(setting),
    ensures
        Effect::SingleDynamic.draw_frame(pixels, state, params.with_spec(setting, value)) == Effect::SingleDynamic.draw_frame(pixels, state, params),
{
    let q = params.with_spec(setting, value);
    lemma_with_keeps_the_rest(params, setting, value);
    assert(primary_strip(pixels.len(), q) =~= primary_strip(pixels.len(), params));
    crate::effects::dynamic::lemma_wheel_chain_palette_only(state.aux, pixels.len(), q, params);
    assert(Effect::SingleDynamic.draw_frame(pixels, state, q).0 =~= Effect::SingleDynamic.draw_frame(pixels, state, params).0);
}

proof fn unlisted_multi_dynamic(pixels: Seq<RGB8>, state: EffectState, params: Params, setting: Setting, value: u8)
    requires
        !Effect::MultiDynamic.settings_spec().contains(setting),
    ensures
        Effect::MultiDynamic.draw_frame(pixels, state, params.with_spec(setting, value)) == Effect::MultiDynamic.draw_frame(pixels, state, params),
{
    let q = params.with_spec(setting, value);
    lemma_with_keeps_the_rest(params, setting, value);
    assert(primary_strip(pixels.len(), q) =~= primary_strip(pixels.len(), params));
    crate::effects::dynamic::lemma_wheel_chain_palette_only(state.aux, pixels.len(), q, params);
    assert(Effect::MultiDynamic.draw_frame(pixels, state, q).0 =~= Effect::MultiDynamic.draw_frame(pixels, state, params).0);
}

proof fn unlisted_block_dissolve(pixels: Seq<RGB8>, state: EffectState, params: Params, setting: Setting, value: u8)
    requires
        !Effect::BlockDissolve.settings_spec().contains(setting),
    ensures
        Effect::BlockDissolve.draw_frame(pixels, state, params.with_spec(setting, value)) == Effect::BlockDissolve.draw_frame(pixels, state, params),
{
    let q = params.with_spec(setting, value);
    lemma_with_keeps_the_rest(params, setting, value);
    assert(primary_strip(pixels.len(), q) =~= primary_strip(pixels.len(), params));
    assert(Effect::BlockDissolve.draw_frame(pixels, state, q).0 =~= Effect::BlockDissolve.draw_frame(pixels, state, params).0);
}

proof fn unlisted_twinkle(pixels: Seq<RGB8>, state: EffectState, params: Params, setting: Setting, value: u8)
    requires
        !Effect::Twinkle.settings_spec().contains(setting),
    ensures
        Effect::Twinkle.draw_frame(pixels, state, params.with_spec(setting, value)) == Effect::Twinkle.draw_frame(pixels, state, params),
{
    let q = params.with_spec(setting, value);
    lemma_with_keeps_the_rest(params, setting, value);
    assert(primary_strip(pixels.len(), q) =~= primary_strip(pixels.len(), params));
    assert(Effect::Twinkle.draw_frame(pixels, state, q).0 =~= Effect::Twinkle.draw_frame(pixels, state, params).0);
}

proof fn unlisted_twinkle_random(pixels: Seq<RGB8>, state: EffectState, params: Params, setting: Setting, value: u8)
    requires
        !Effect::TwinkleRandom.settings_spec().contains(setting),
    ensures
        Effect::TwinkleRandom.draw_frame(pixels, state, params.with_spec(setting, value)) == Effect::TwinkleRandom.draw_frame(pixels, state, params),
{
    let q = params.with_spec(setting, value);
    lemma_with_keeps_the_rest(params, setting, value);
    assert(primary_strip(pixels.len(), q) =~= primary_strip(pixels.len(), params));
    assert(Effect::TwinkleRandom.draw_frame(pixels, state, q).0 =~= Effect::TwinkleRandom.draw_frame(pixels, state, params).0);
}

proof fn unlisted_twinkle_fade(pixels: Seq<RGB8>, state: EffectState, params: Params, setting: Setting, value: u8)
    requires
        !Effect::TwinkleFade.settings_spec().contains(setting),
    ensures
        Effect::TwinkleFade.draw_frame(pixels, state, params.with_spec(setting, value)) == Effect::TwinkleFade.draw_frame(pixels, state, params),
{
    let q = params.with_spec(setting, value);
    lemma_with_keeps_the_rest(params, setting, value);
    if setting == Setting::Intensity {
        assert(Effect::TwinkleFade.settings_spec()[0] == setting);
    }
    assert(primary_strip(pixels.len(), q) =~= primary_strip(pixels.len(), params));
    assert(Effect::TwinkleFade.draw_frame(pixels, state, q).0 =~= Effect::TwinkleFade.draw_frame(pixels, state, params).0);
}

proof fn unlisted_twinkle_fade_random(pixels: Seq<RGB8>, state: EffectState, params: Params, setting: Setting, value: u8)
    requires
        !Effect::TwinkleFadeRandom.settings_spec().contains(setting),
    ensures
        Effect::TwinkleFadeRandom.draw_frame(pixels, state, params.with_spec(setting, value)) == Effect::TwinkleFadeRandom.draw_frame(pixels, state, params),
{
    let q = params.with_spec(setting, value);
    lemma_with_keeps_the_rest(params, setting, value);
    if setting == Setting::Intensity {
        assert(Effect::TwinkleFadeRandom.settings_spec()[0] == setting);
    }
    assert(primary_strip(pixels.len(), q) =~= primary_strip(pixels.len(), params));
    assert(Effect::TwinkleFadeRandom.draw_frame(pixels, state, q).0 =~= Effect::TwinkleFadeRandom.draw_frame(pixels, state, params).0);
}

proof fn unlisted_sparkle(pixels: Seq<RGB8>, state: EffectState, params: Params, setting: Setting, value: u8)
    requires
        !Effect::Sparkle.settings_spec().contains(setting),
    ensures
        Effect::Sparkle.draw_frame(pixels, state, params.with_spec(setting, value)) == Effect::Sparkle.draw_frame(pixels, state, params),
{
    let q = params.with_spec(setting, value);
    lemma_with_keeps_the_rest(params, setting, value);
    assert(primary_strip(pixels.len(), q) =~= primary_strip(pixels.len(), params));
    assert(Effect::Sparkle.draw_frame(pixels, state, q).0 =~= Effect::Sparkle.draw_frame(pixels, state, params).0);
}

proof fn unlisted_flash_sparkle(pixels: Seq<RGB8>, state: EffectState, params: Params, setting: Setting, value: u8)
    requires
        !Effect::FlashSparkle.settings_spec().contains(setting),
    ensures
        Effect::FlashSparkle.draw_frame(pixels, state, params.with_spec(setting, value)) == Effect::FlashSparkle.draw_frame(pixels, state, params),
{
    let q = params.with_spec(setting, value);
    lemma_with_keeps_the_rest(params, setting, value);
    assert(primary_strip(pixels.len(), q) =~= primary_strip(pixels.len(), params));
    assert(Effect::FlashSparkle.draw_frame(pixels, state, q).0 =~= Effect::FlashSparkle.draw_frame(pixels, state, params).0);
}

proof fn unlisted_sparkle_random(pixels: Seq<RGB8>, state: EffectState, params: Params, setting: Setting, value: u8)
    requires
        !Effect::SparkleRandom.settings_spec().contains(setting),
    ensures
        Effect::SparkleRandom.draw_frame(pixels, state, params.with_spec(setting, value)) == Effect::SparkleRandom.draw_frame(pixels, state, params),
{
    let q = params.with_spec(setting, value);
    lemma_with_keeps_the_rest(params, setting, value);
    assert(primary_strip(pixels.len(), q) =~= primary_strip(pixels.len(), params));
    assert(Effect::SparkleRandom.draw_frame(pixels, state, q).0 =~= Effect::SparkleRandom.draw_frame(pixels, state, params).0);
}

proof fn unlisted_larson_scanner(pixels: Seq<RGB8>, state: EffectState, params: Params, setting: Setting, value: u8)
    requires
        !Effect::LarsonScanner.settings_spec().contains(setting),
    ensures
        Effect::LarsonScanner.draw_frame(pixels, state, params.with_spec(setting, value)) == Effect::LarsonScanner.draw_frame(pixels, state, params),
{
    let q = params.with_spec(setting, value);
    lemma_with_keeps_the_rest(params, setting, value);
    if setting == Setting::Intensity {
        assert(Effect::LarsonScanner.settings_spec()[0] == setting);
    }
    assert(primary_strip(pixels.len(), q) =~= primary_strip(pixels.len(), params));
    assert(Effect::LarsonScanner.draw_frame(pixels, state, q).0 =~= Effect::LarsonScanner.draw_frame(pixels, state, params).0);
}

proof fn unlisted_comet(pixels: Seq<RGB8>, state: EffectState, params: Params, setting: Setting, value: u8)
    requires
        !Effect::Comet.settings_spec().contains(setting),
    ensures
        Effect::Comet.draw_frame(pixels, state, params.with_spec(setting, value)) == Effect::Comet.draw_frame(pixels, state, params),
{
    let q = params.with_spec(setting, value);
    lemma_with_keeps_the_rest(params, setting, value);
    if setting == Setting::Intensity {
        assert(Effect::Comet.settings_spec()[0] == setting);
    }
    assert(primary_strip(pixels.len(), q) =~= primary_strip(pixels.len(), params));
    assert(Effect::Comet.draw_frame(pixels, state, q).0 =~= Effect::Comet.draw_frame(pixels, state, params).0);
}

proof fn unlisted_dual_larson(pixels: Seq<RGB8>, state: EffectState, params: Params, setting: Setting, value: u8)
    requires
        !Effect::DualLarson.settings_spec().contains(setting),
    ensures
        Effect::DualLarson.draw_frame(pixels, state, params.with_spec(setting, value)) == Effect::DualLarson.draw_frame(pixels, state, params),
{
    let q = params.with_spec(setting, value);
    lemma_with_keeps_the_rest(params, setting, value);
    if setting == Setting::Intensity {
        assert(Effect::DualLarson.settings_spec()[0] == setting);
    }
    assert(primary_strip(pixels.len(), q) =~= primary_strip(pixels.len(), params));
    assert(Effect::DualLarson.draw_frame(pixels, state, q).0 =~= Effect::DualLarson.draw_frame(pixels, state, params).0);
}

proof fn unlisted_rainbow_larson(pixels: Seq<RGB8>, state: EffectState, params: Params, setting: Setting, value: u8)
    requires
        !Effect::RainbowLarson.settings_spec().contains(setting),
    ensures
        Effect::RainbowLarson.draw_frame(pixels, state, params.with_spec(setting, value)) == Effect::RainbowLarson.draw_frame(pixels, state, params),
{
    let q = params.with_spec(setting, value);
    lemma_with_keeps_the_rest(params, setting, value);
    if setting == Setting::Intensity {
        assert(Effect::RainbowLarson.settings_spec()[0] == setting);
    }
    assert(primary_strip(pixels.len(), q) =~= primary_strip(pixels.len(), params));
    assert(Effect::RainbowLarson.draw_frame(pixels, state, q).0 =~= Effect::RainbowLarson.draw_frame(pixels, state, params).0);
}

proof fn unlisted_multi_comet(pixels: Seq<RGB8>, state: EffectState, params: Params, setting: Setting, value: u8)
    requires
        !Effect::MultiComet.settings_spec().contains(setting),
    ensures
        Effect::MultiComet.draw_frame(pixels, state, params.with_spec(setting, value)) == Effect::MultiComet.draw_frame(pixels, state, params),
{
    let q = params.with_spec(setting, value);
    lemma_with_keeps_the_rest(params, setting, value);
    if setting == Setting::Intensity {
        assert(Effect::MultiComet.settings_spec()[0] == setting);
    }
    assert(primary_strip(pixels.len(), q) =~= primary_strip(pixels.len(), params));
    assert(Effect::MultiComet.draw_frame(pixels, state, q).0 =~= Effect::MultiComet.draw_frame(pixels, state, params).0);
}

proof fn unlisted_fireworks(pixels: Seq<RGB8>, state: EffectState, params: Params, setting: Setting, value: u8)
    requires
        !Effect::Fireworks.settings_spec().contains(setting),
    ensures
        Effect::Fireworks.draw_frame(pixels, state, params.with_spec(setting, value)) == Effect::Fireworks.draw_frame(pixels, state, params),
{
    let q = params.with_spec(setting, value);
    lemma_with_keeps_the_rest(params, setting, value);
    if setting == Setting::Intensity {
        assert(Effect::Fireworks.settings_spec()[0] == setting);
    }
    assert(primary_strip(pixels.len(), q) =~= primary_strip(pixels.len(), params));
    assert(Effect::Fireworks.draw_frame(pixels, state, q).0 =~= Effect::Fireworks.draw_frame(pixels, state, params).0);
}

proof fn unlisted_fireworks_random(pixels: Seq<RGB8>, state: EffectState, params: Params, setting: Setting, value: u8)
    requires
        !Effect::FireworksRandom.settings_spec().contains(setting),
    ensures
        Effect::FireworksRandom.draw_frame(pixels, state, params.with_spec(setting, value)) == Effect::FireworksRandom.draw_frame(pixels, state, params),
{
    let q = params.with_spec(setting, value);
    lemma_with_keeps_the_rest(params, setting, value);
    if setting == Setting::Intensity {
        assert(Effect::FireworksRandom.settings_spec()[0] == setting);
    }
    assert(primary_strip(pixels.len(), q) =~= primary_strip(pixels.len(), params));
    assert(Effect::FireworksRandom.draw_frame(pixels, state, q).0 =~= Effect::FireworksRandom.draw_frame(pixels, state, params).0);
}

proof fn unlisted_fire_flicker(pixels: Seq<RGB8>, state: EffectState, params: Params, setting: Setting, value: u8)
    requires
        !Effect::FireFlicker.settings_spec().contains(setting),
    ensures
        Effect::FireFlicker.draw_frame(pixels, state, params.with_spec(setting, value)) == Effect::FireFlicker.draw_frame(pixels, state, params),
{
    let q = params.with_spec(setting, value);
    lemma_with_keeps_the_rest(params, setting, value);
    if setting == Setting::Intensity {
        assert(Effect::FireFlicker.settings_spec()[0] == setting);
    }
    assert(primary_strip(pixels.len(), q) =~= primary_strip(pixels.len(), params));
    assert(Effect::FireFlicker.draw_frame(pixels, state, q).0 =~= Effect::FireFlicker.draw_frame(pixels, state, params).0);
}

proof fn unlisted_fire_flicker_soft(pixels: Seq<RGB8>, state: EffectState, params: Params, setting: Setting, value: u8)
    requires
        !Effect::FireFlickerSoft.settings_spec().contains(setting),
    ensures
        Effect::FireFlickerSoft.draw_frame(pixels, state, params.with_spec(setting, value)) == Effect::FireFlickerSoft.draw_frame(pixels, state, params),
{
    let q = params.with_spec(setting, value);
    lemma_with_keeps_the_rest(params, setting, value);
    if setting == Setting::Intensity {
        assert(Effect::FireFlickerSoft.settings_spec()[0] == setting);
    }
    assert(primary_strip(pixels.len(), q) =~= primary_strip(pixels.len(), params));
    assert(Effect::FireFlickerSoft.draw_frame(pixels, state, q).0 =~= Effect::FireFlickerSoft.draw_frame(pixels, state, params).0);
}

proof fn unlisted_fire_flicker_intense(pixels: Seq<RGB8>, state: EffectState, params: Params, setting: Setting, value: u8)
    requires
        !Effect::FireFlickerIntense.settings_spec().contains(setting),
    ensures
        Effect::FireFlickerIntense.draw_frame(pixels, state, params.with_spec(setting, value)) == Effect::FireFlickerIntense.draw_frame(pixels, state, params),
{
    let q = params.with_spec(setting, value);
    lemma_with_keeps_the_rest(params, setting, value);
    if setting == Setting::Intensity {
        assert(Effect::FireFlickerIntense.settings_spec()[0] == setting);
    }
    assert(primary_strip(pixels.len(), q) =~= primary_strip(pixels.len(), params));
    assert(Effect::FireFlickerIntense.draw_frame(pixels, state, q).0 =~= Effect::FireFlickerIntense.draw_frame(pixels, state, params).0);
}

proof fn unlisted_twinkle_fox(pixels: Seq<RGB8>, state: EffectState, params: Params, setting: Setting, value: u8)
    requires
        !Effect::TwinkleFox.settings_spec().contains(setting),
    ensures
        Effect::TwinkleFox.draw_frame(pixels, state, params.with_spec(setting, value)) == Effect::TwinkleFox.draw_frame(pixels, state, params),
{
    let q = params.with_spec(setting, value);
    lemma_with_keeps_the_rest(params, setting, value);
    assert(primary_strip(pixels.len(), q) =~= primary_strip(pixels.len(), params));
    assert(Effect::TwinkleFox.draw_frame(pixels, state, q).0 =~= Effect::TwinkleFox.draw_frame(pixels, state, params).0);
}

proof fn unlisted_rain(pixels: Seq<RGB8>, state: EffectState, params: Params, setting: Setting, value: u8)
    requires
        !Effect::Rain.settings_spec().contains(setting),
    ensures
        Effect::Rain.draw_frame(pixels, state, params.with_spec(setting, value)) == Effect::Rain.draw_frame(pixels, state, params),
{
    let q = params.with_spec(setting, value);
    lemma_with_keeps_the_rest(params, setting, value);
    if setting == Setting::Intensity {
        assert(Effect::Rain.settings_spec()[0] == setting);
    }
    assert(primary_strip(pixels.len(), q) =~= primary_strip(pixels.len(), params));
    assert(Effect::Rain.draw_frame(pixels, state, q).0 =~= Effect::Rain.draw_frame(pixels, state, params).0);
}

proof fn unlisted_icu(pixels: Seq<RGB8>, state: EffectState, params: Params, setting: Setting, value: u8)
    requires
        !Effect::Icu.settings_spec().contains(setting),
    ensures
        Effect::Icu.draw_frame(pixels, state, params.with_spec(setting, value)) == Effect::Icu.draw_frame(pixels, state, params),
{
    let q = params.with_spec(setting, value);
    lemma_with_keeps_the_rest(params, setting, value);
    assert(primary_strip(pixels.len(), q) =~= primary_strip(pixels.len(), params));
    assert(Effect::Icu.draw_frame(pixels, state, q).0 =~= Effect::Icu.draw_frame(pixels, state, params).0);
}

proof fn unlisted_filler_up(pixels: Seq<RGB8>, state: EffectState, params: Params, setting: Setting, value: u8)
    requires
        !Effect::FillerUp.settings_spec().contains(setting),
    ensures
        Effect::FillerUp.draw_frame(pixels, state, params.with_spec(setting, value)) == Effect::FillerUp.draw_frame(pixels, state, params),
{
    let q = params.with_spec(setting, value);
    lemma_with_keeps_the_rest(params, setting, value);
    assert(primary_strip(pixels.len(), q) =~= primary_strip(pixels.len(), params));
    assert(Effect::FillerUp.draw_frame(pixels, state, q).0 =~= Effect::FillerUp.draw_frame(pixels, state, params).0);
}

proof fn unlisted_tri_fade(pixels: Seq<RGB8>, state: EffectState, params: Params, setting: Setting, value: u8)
    requires
        !Effect::TriFade.settings_spec().contains(setting),
    ensures
        Effect::TriFade.draw_frame(pixels, state, params.with_spec(setting, value)) == Effect::TriFade.draw_frame(pixels, state, params),
{
    let q = params.with_spec(setting, value);
    lemma_with_keeps_the_rest(params, setting, value);
    assert(primary_strip(pixels.len(), q) =~= primary_strip(pixels.len(), params));
    assert(Effect::TriFade.draw_frame(pixels, state, q).0 =~= Effect::TriFade.draw_frame(pixels, state, params).0);
}

proof fn unlisted_heartbeat(pixels: Seq<RGB8>, state: EffectState, params: Params, setting: Setting, value: u8)
    requires
        !Effect::Heartbeat.settings_spec().contains(setting),
    ensures
        Effect::Heartbeat.draw_frame(pixels, state, params.with_spec(setting, value)) == Effect::Heartbeat.draw_frame(pixels, state, params),
{
    let q = params.with_spec(setting, value);
    lemma_with_keeps_the_rest(params, setting, value);
    if setting == Setting::Intensity {
        assert(Effect::Heartbeat.settings_spec()[0] == setting);
    }
    assert(primary_strip(pixels.len(), q) =~= primary_strip(pixels.len(), params));
    assert(Effect::Heartbeat.draw_frame(pixels, state, q).0 =~= Effect::Heartbeat.draw_frame(pixels, state, params).0);
}

proof fn unlisted_rainbow_fireworks(pixels: Seq<RGB8>, state: EffectState, params: Params, setting: Setting, value: u8)
    requires
        !Effect::RainbowFireworks.settings_spec().contains(setting),
    ensures
        Effect::RainbowFireworks.draw_frame(pixels, state, params.with_spec(setting, value)) == Effect::RainbowFireworks.draw_frame(pixels, state, params),
{
    let q = params.with_spec(setting, value);
    lemma_with_keeps_the_rest(params, setting, value);
    assert(primary_strip(pixels.len(), q) =~= primary_strip(pixels.len(), params));
    assert(Effect::RainbowFireworks.draw_frame(pixels, state, q).0 =~= Effect::RainbowFireworks.draw_frame(pixels, state, params).0);
}

proof fn unlisted_sine(pixels: Seq<RGB8>, state: EffectState, params: Params, setting: Setting, value: u8)
    requires
        !Effect::Sine.settings_spec().contains(setting),
    ensures
        Effect::Sine.draw_frame(pixels, state, params.with_spec(setting, value)) == Effect::Sine.draw_frame(pixels, state, params),
{
    let q = params.with_spec(setting, value);
    lemma_with_keeps_the_rest(params, setting, value);
    if setting == Setting::Rate {
        assert(Effect::Sine.settings_spec()[0] == setting);
    }
    if setting == Setting::Scale {
        assert(Effect::Sine.settings_spec()[1] == setting);
    }
    assert(primary_strip(pixels.len(), q) =~= primary_strip(pixels.len(), params));
    assert(Effect::Sine.draw_frame(pixels, state, q).0 =~= Effect::Sine.draw_frame(pixels, state, params).0);
}

proof fn unlisted_bpm(pixels: Seq<RGB8>, state: EffectState, params: Params, setting: Setting, value: u8)
    requires
        !Effect::Bpm.settings_spec().contains(setting),
    ensures
        Effect::Bpm.draw_frame(pixels, state, params.with_spec(setting, value)) == Effect::Bpm.draw_frame(pixels, state, params),
{
    let q = params.with_spec(setting, value);
    lemma_with_keeps_the_rest(params, setting, value);
    if setting == Setting::Rate {
        assert(Effect::Bpm.settings_spec()[0] == setting);
    }
    assert(primary_strip(pixels.len(), q) =~= primary_strip(pixels.len(), params));
    assert(Effect::Bpm.draw_frame(pixels, state, q).0 =~= Effect::Bpm.draw_frame(pixels, state, params).0);
}

proof fn unlisted_percent(pixels: Seq<RGB8>, state: EffectState, params: Params, setting: Setting, value: u8)
    requires
        !Effect::Percent.settings_spec().contains(setting),
    ensures
        Effect::Percent.draw_frame(pixels, state, params.with_spec(setting, value)) == Effect::Percent.draw_frame(pixels, state, params),
{
    let q = params.with_spec(setting, value);
    lemma_with_keeps_the_rest(params, setting, value);
    if setting == Setting::Fill {
        assert(Effect::Percent.settings_spec()[0] == setting);
    }
    if setting == Setting::OneColor {
        assert(Effect::Percent.settings_spec()[1] == setting);
    }
    assert(primary_strip(pixels.len(), q) =~= primary_strip(pixels.len(), params));
    assert(Effect::Percent.draw_frame(pixels, state, q).0 =~= Effect::Percent.draw_frame(pixels, state, params).0);
}

proof fn unlisted_wavesins(pixels: Seq<RGB8>, state: EffectState, params: Params, setting: Setting, value: u8)
    requires
        !Effect::Wavesins.settings_spec().contains(setting),
    ensures
        Effect::Wavesins.draw_frame(pixels, state, params.with_spec(setting, value)) == Effect::Wavesins.draw_frame(pixels, state, params),
{
    let q = params.with_spec(setting, value);
    lemma_with_keeps_the_rest(params, setting, value);
    if setting == Setting::Rate {
        assert(Effect::Wavesins.settings_spec()[0] == setting);
    }
    if setting == Setting::Variation {
        assert(Effect::Wavesins.settings_spec()[1] == setting);
    }
    if setting == Setting::PaletteStart {
        assert(Effect::Wavesins.settings_spec()[2] == setting);
    }
    if setting == Setting::PaletteSpan {
        assert(Effect::Wavesins.settings_spec()[3] == setting);
    }
    if setting == Setting::PaletteStep {
        assert(Effect::Wavesins.settings_spec()[4] == setting);
    }
    assert(primary_strip(pixels.len(), q) =~= primary_strip(pixels.len(), params));
    assert(Effect::Wavesins.draw_frame(pixels, state, q).0 =~= Effect::Wavesins.draw_frame(pixels, state, params).0);
}

proof fn unlisted_solid_pattern(pixels: Seq<RGB8>, state: EffectState, params: Params, setting: Setting, value: u8)
    requires
        !Effect::SolidPattern.settings_spec().contains(setting),
    ensures
        Effect::SolidPattern.draw_frame(pixels, state, params.with_spec(setting, value)) == Effect::SolidPattern.draw_frame(pixels, state, params),
{
    let q = params.with_spec(setting, value);
    lemma_with_keeps_the_rest(params, setting, value);
    if setting == Setting::Width {
        assert(Effect::SolidPattern.settings_spec()[0] == setting);
    }
    if setting == Setting::Gap {
        assert(Effect::SolidPattern.settings_spec()[1] == setting);
    }
    assert(primary_strip(pixels.len(), q) =~= primary_strip(pixels.len(), params));
    assert(Effect::SolidPattern.draw_frame(pixels, state, q).0 =~= Effect::SolidPattern.draw_frame(pixels, state, params).0);
}

proof fn unlisted_saw(pixels: Seq<RGB8>, state: EffectState, params: Params, setting: Setting, value: u8)
    requires
        !Effect::Saw.settings_spec().contains(setting),
    ensures
        Effect::Saw.draw_frame(pixels, state, params.with_spec(setting, value)) == Effect::Saw.draw_frame(pixels, state, params),
{
    let q = params.with_spec(setting, value);
    lemma_with_keeps_the_rest(params, setting, value);
    if setting == Setting::Rate {
        assert(Effect::Saw.settings_spec()[0] == setting);
    }
    if setting == Setting::Width {
        assert(Effect::Saw.settings_spec()[1] == setting);
    }
    assert(primary_strip(pixels.len(), q) =~= primary_strip(pixels.len(), params));
    assert(Effect::Saw.draw_frame(pixels, state, q).0 =~= Effect::Saw.draw_frame(pixels, state, params).0);
}

proof fn unlisted_bands(pixels: Seq<RGB8>, state: EffectState, params: Params, setting: Setting, value: u8)
    requires
        !Effect::Bands.settings_spec().contains(setting),
    ensures
        Effect::Bands.draw_frame(pixels, state, params.with_spec(setting, value)) == Effect::Bands.draw_frame(pixels, state, params),
{
    let q = params.with_spec(setting, value);
    lemma_with_keeps_the_rest(params, setting, value);
    if setting == Setting::Rate {
        assert(Effect::Bands.settings_spec()[0] == setting);
    }
    if setting == Setting::Width {
        assert(Effect::Bands.settings_spec()[1] == setting);
    }
    assert(primary_strip(pixels.len(), q) =~= primary_strip(pixels.len(), params));
    assert(Effect::Bands.draw_frame(pixels, state, q).0 =~= Effect::Bands.draw_frame(pixels, state, params).0);
}

proof fn unlisted_stream(pixels: Seq<RGB8>, state: EffectState, params: Params, setting: Setting, value: u8)
    requires
        !Effect::Stream.settings_spec().contains(setting),
    ensures
        Effect::Stream.draw_frame(pixels, state, params.with_spec(setting, value)) == Effect::Stream.draw_frame(pixels, state, params),
{
    let q = params.with_spec(setting, value);
    lemma_with_keeps_the_rest(params, setting, value);
    if setting == Setting::Rate {
        assert(Effect::Stream.settings_spec()[0] == setting);
    }
    if setting == Setting::Width {
        assert(Effect::Stream.settings_spec()[1] == setting);
    }
    assert(primary_strip(pixels.len(), q) =~= primary_strip(pixels.len(), params));
    assert(Effect::Stream.draw_frame(pixels, state, q).0 =~= Effect::Stream.draw_frame(pixels, state, params).0);
}

proof fn unlisted_stream2(pixels: Seq<RGB8>, state: EffectState, params: Params, setting: Setting, value: u8)
    requires
        !Effect::Stream2.settings_spec().contains(setting),
    ensures
        Effect::Stream2.draw_frame(pixels, state, params.with_spec(setting, value)) == Effect::Stream2.draw_frame(pixels, state, params),
{
    let q = params.with_spec(setting, value);
    lemma_with_keeps_the_rest(params, setting, value);
    if setting == Setting::Rate {
        assert(Effect::Stream2.settings_spec()[0] == setting);
    }
    assert(primary_strip(pixels.len(), q) =~= primary_strip(pixels.len(), params));
    assert(Effect::Stream2.draw_frame(pixels, state, q).0 =~= Effect::Stream2.draw_frame(pixels, state, params).0);
}

proof fn unlisted_gradient(pixels: Seq<RGB8>, state: EffectState, params: Params, setting: Setting, value: u8)
    requires
        !Effect::Gradient.settings_spec().contains(setting),
    ensures
        Effect::Gradient.draw_frame(pixels, state, params.with_spec(setting, value)) == Effect::Gradient.draw_frame(pixels, state, params),
{
    let q = params.with_spec(setting, value);
    lemma_with_keeps_the_rest(params, setting, value);
    if setting == Setting::Rate {
        assert(Effect::Gradient.settings_spec()[0] == setting);
    }
    if setting == Setting::Spread {
        assert(Effect::Gradient.settings_spec()[1] == setting);
    }
    assert(primary_strip(pixels.len(), q) =~= primary_strip(pixels.len(), params));
    assert(Effect::Gradient.draw_frame(pixels, state, q).0 =~= Effect::Gradient.draw_frame(pixels, state, params).0);
}

proof fn unlisted_loading(pixels: Seq<RGB8>, state: EffectState, params: Params, setting: Setting, value: u8)
    requires
        !Effect::Loading.settings_spec().contains(setting),
    ensures
        Effect::Loading.draw_frame(pixels, state, params.with_spec(setting, value)) == Effect::Loading.draw_frame(pixels, state, params),
{
    let q = params.with_spec(setting, value);
    lemma_with_keeps_the_rest(params, setting, value);
    if setting == Setting::Rate {
        assert(Effect::Loading.settings_spec()[0] == setting);
    }
    if setting == Setting::Spread {
        assert(Effect::Loading.settings_spec()[1] == setting);
    }
    assert(primary_strip(pixels.len(), q) =~= primary_strip(pixels.len(), params));
    assert(Effect::Loading.draw_frame(pixels, state, q).0 =~= Effect::Loading.draw_frame(pixels, state, params).0);
}

proof fn unlisted_running_dual(pixels: Seq<RGB8>, state: EffectState, params: Params, setting: Setting, value: u8)
    requires
        !Effect::RunningDual.settings_spec().contains(setting),
    ensures
        Effect::RunningDual.draw_frame(pixels, state, params.with_spec(setting, value)) == Effect::RunningDual.draw_frame(pixels, state, params),
{
    let q = params.with_spec(setting, value);
    lemma_with_keeps_the_rest(params, setting, value);
    if setting == Setting::Rate {
        assert(Effect::RunningDual.settings_spec()[0] == setting);
    }
    if setting == Setting::Scale {
        assert(Effect::RunningDual.settings_spec()[1] == setting);
    }
    assert(primary_strip(pixels.len(), q) =~= primary_strip(pixels.len(), params));
    assert(Effect::RunningDual.draw_frame(pixels, state, q).0 =~= Effect::RunningDual.draw_frame(pixels, state, params).0);
}

proof fn unlisted_flow(pixels: Seq<RGB8>, state: EffectState, params: Params, setting: Setting, value: u8)
    requires
        !Effect::Flow.settings_spec().contains(setting),
    ensures
        Effect::Flow.draw_frame(pixels, state, params.with_spec(setting, value)) == Effect::Flow.draw_frame(pixels, state, params),
{
    let q = params.with_spec(setting, value);
    lemma_with_keeps_the_rest(params, setting, value);
    if setting == Setting::Rate {
        assert(Effect::Flow.settings_spec()[0] == setting);
    }
    if setting == Setting::Count {
        assert(Effect::Flow.settings_spec()[1] == setting);
    }
    assert(primary_strip(pixels.len(), q) =~= primary_strip(pixels.len(), params));
    assert(Effect::Flow.draw_frame(pixels, state, q).0 =~= Effect::Flow.draw_frame(pixels, state, params).0);
}

proof fn unlisted_railway(pixels: Seq<RGB8>, state: EffectState, params: Params, setting: Setting, value: u8)
    requires
        !Effect::Railway.settings_spec().contains(setting),
    ensures
        Effect::Railway.draw_frame(pixels, state, params.with_spec(setting, value)) == Effect::Railway.draw_frame(pixels, state, params),
{
    let q = params.with_spec(setting, value);
    lemma_with_keeps_the_rest(params, setting, value);
    if setting == Setting::Rate {
        assert(Effect::Railway.settings_spec()[0] == setting);
    }
    if setting == Setting::Smoothness {
        assert(Effect::Railway.settings_spec()[1] == setting);
    }
    assert(primary_strip(pixels.len(), q) =~= primary_strip(pixels.len(), params));
    assert(Effect::Railway.draw_frame(pixels, state, q).0 =~= Effect::Railway.draw_frame(pixels, state, params).0);
}

proof fn unlisted_tri_wipe(pixels: Seq<RGB8>, state: EffectState, params: Params, setting: Setting, value: u8)
    requires
        !Effect::TriWipe.settings_spec().contains(setting),
    ensures
        Effect::TriWipe.draw_frame(pixels, state, params.with_spec(setting, value)) == Effect::TriWipe.draw_frame(pixels, state, params),
{
    let q = params.with_spec(setting, value);
    lemma_with_keeps_the_rest(params, setting, value);
    assert(primary_strip(pixels.len(), q) =~= primary_strip(pixels.len(), params));
    assert(Effect::TriWipe.draw_frame(pixels, state, q).0 =~= Effect::TriWipe.draw_frame(pixels, state, params).0);
}

proof fn unlisted_two_dots(pixels: Seq<RGB8>, state: EffectState, params: Params, setting: Setting, value: u8)
    requires
        !Effect::TwoDots.settings_spec().contains(setting),
    ensures
        Effect::TwoDots.draw_frame(pixels, state, params.with_spec(setting, value)) == Effect::TwoDots.draw_frame(pixels, state, params),
{
    let q = params.with_spec(setting, value);
    lemma_with_keeps_the_rest(params, setting, value);
    if setting == Setting::Rate {
        assert(Effect::TwoDots.settings_spec()[0] == setting);
    }
    if setting == Setting::Width {
        assert(Effect::TwoDots.settings_spec()[1] == setting);
    }
    assert(primary_strip(pixels.len(), q) =~= primary_strip(pixels.len(), params));
    if pixels.len() > 0 {
        let len = pixels.len() as int;
        let first = (crate::utils::travel_at(params.now_ms, params.rate) as int) % len;
        let steps = if 1 + params.width / 16 < len { 1 + params.width / 16 } else { len };
        crate::effects::spots::lemma_dots_colors_only(
            crate::utils::solid(pixels.len(), crate::effects::spots::backdrop(params, params.colors[2])),
            first,
            (first + len / 2) % len,
            steps as nat,
            q,
            params,
        );
    }
    assert(Effect::TwoDots.draw_frame(pixels, state, q).0 =~= Effect::TwoDots.draw_frame(pixels, state, params).0);
}

proof fn unlisted_lightning(pixels: Seq<RGB8>, state: EffectState, params: Params, setting: Setting, value: u8)
    requires
        !Effect::Lightning.settings_spec().contains(setting),
    ensures
        Effect::Lightning.draw_frame(pixels, state, params.with_spec(setting, value)) == Effect::Lightning.draw_frame(pixels, state, params),
{
    let q = params.with_spec(setting, value);
    lemma_with_keeps_the_rest(params, setting, value);
    if setting == Setting::Rate {
        assert(Effect::Lightning.settings_spec()[0] == setting);
    }
    if setting == Setting::Intensity {
        assert(Effect::Lightning.settings_spec()[1] == setting);
    }
    assert(primary_strip(pixels.len(), q) =~= primary_strip(pixels.len(), params));
    assert(Effect::Lightning.draw_frame(pixels, state, q).0 =~= Effect::Lightning.draw_frame(pixels, state, params).0);
}

proof fn unlisted_spots(pixels: Seq<RGB8>, state: EffectState, params: Params, setting: Setting, value: u8)
    requires
        !Effect::Spots.settings_spec().contains(setting),
    ensures
        Effect::Spots.draw_frame(pixels, state, params.with_spec(setting, value)) == Effect::Spots.draw_frame(pixels, state, params),
{
    let q = params.with_spec(setting, value);
    lemma_with_keeps_the_rest(params, setting, value);
    if setting == Setting::Spread {
        assert(Effect::Spots.settings_spec()[0] == setting);
    }
    if setting == Setting::Width {
        assert(Effect::Spots.settings_spec()[1] == setting);
    }
    assert(primary_strip(pixels.len(), q) =~= primary_strip(pixels.len(), params));
    assert(Effect::Spots.draw_frame(pixels, state, q).0 =~= Effect::Spots.draw_frame(pixels, state, params).0);
}

proof fn unlisted_spots_fade(pixels: Seq<RGB8>, state: EffectState, params: Params, setting: Setting, value: u8)
    requires
        !Effect::SpotsFade.settings_spec().contains(setting),
    ensures
        Effect::SpotsFade.draw_frame(pixels, state, params.with_spec(setting, value)) == Effect::SpotsFade.draw_frame(pixels, state, params),
{
    let q = params.with_spec(setting, value);
    lemma_with_keeps_the_rest(params, setting, value);
    if setting == Setting::Spread {
        assert(Effect::SpotsFade.settings_spec()[0] == setting);
    }
    if setting == Setting::Width {
        assert(Effect::SpotsFade.settings_spec()[1] == setting);
    }
    assert(primary_strip(pixels.len(), q) =~= primary_strip(pixels.len(), params));
    assert(Effect::SpotsFade.draw_frame(pixels, state, q).0 =~= Effect::SpotsFade.draw_frame(pixels, state, params).0);
}

proof fn unlisted_glitter(pixels: Seq<RGB8>, state: EffectState, params: Params, setting: Setting, value: u8)
    requires
        !Effect::Glitter.settings_spec().contains(setting),
    ensures
        Effect::Glitter.draw_frame(pixels, state, params.with_spec(setting, value)) == Effect::Glitter.draw_frame(pixels, state, params),
{
    let q = params.with_spec(setting, value);
    lemma_with_keeps_the_rest(params, setting, value);
    if setting == Setting::Rate {
        assert(Effect::Glitter.settings_spec()[0] == setting);
    }
    if setting == Setting::Intensity {
        assert(Effect::Glitter.settings_spec()[1] == setting);
    }
    assert(primary_strip(pixels.len(), q) =~= primary_strip(pixels.len(), params));
    assert(crate::effects::spots::glitter_base(pixels.len(), q) =~= crate::effects::spots::glitter_base(
        pixels.len(),
        params,
    ));
    assert(Effect::Glitter.draw_frame(pixels, state, q).0 =~= Effect::Glitter.draw_frame(pixels, state, params).0);
}

proof fn unlisted_solid_glitter(pixels: Seq<RGB8>, state: EffectState, params: Params, setting: Setting, value: u8)
    requires
        !Effect::SolidGlitter.settings_spec().contains(setting),
    ensures
        Effect::SolidGlitter.draw_frame(pixels, state, params.with_spec(setting, value)) == Effect::SolidGlitter.draw_frame(pixels, state, params),
{
    let q = params.with_spec(setting, value);
    lemma_with_keeps_the_rest(params, setting, value);
    if setting == Setting::Intensity {
        assert(Effect::SolidGlitter.settings_spec()[0] == setting);
    }
    assert(primary_strip(pixels.len(), q) =~= primary_strip(pixels.len(), params));
    assert(Effect::SolidGlitter.draw_frame(pixels, state, q).0 =~= Effect::SolidGlitter.draw_frame(pixels, state, params).0);
}

proof fn unlisted_lake(pixels: Seq<RGB8>, state: EffectState, params: Params, setting: Setting, value: u8)
    requires
        !Effect::Lake.settings_spec().contains(setting),
    ensures
        Effect::Lake.draw_frame(pixels, state, params.with_spec(setting, value)) == Effect::Lake.draw_frame(pixels, state, params),
{
    let q = params.with_spec(setting, value);
    lemma_with_keeps_the_rest(params, setting, value);
    if setting == Setting::Rate {
        assert(Effect::Lake.settings_spec()[0] == setting);
    }
    assert(primary_strip(pixels.len(), q) =~= primary_strip(pixels.len(), params));
    assert(Effect::Lake.draw_frame(pixels, state, q).0 =~= Effect::Lake.draw_frame(pixels, state, params).0);
}

proof fn unlisted_plasma(pixels: Seq<RGB8>, state: EffectState, params: Params, setting: Setting, value: u8)
    requires
        !Effect::Plasma.settings_spec().contains(setting),
    ensures
        Effect::Plasma.draw_frame(pixels, state, params.with_spec(setting, value)) == Effect::Plasma.draw_frame(pixels, state, params),
{
    let q = params.with_spec(setting, value);
    lemma_with_keeps_the_rest(params, setting, value);
    if setting == Setting::Rate {
        assert(Effect::Plasma.settings_spec()[0] == setting);
    }
    if setting == Setting::Scale {
        assert(Effect::Plasma.settings_spec()[1] == setting);
    }
    assert(primary_strip(pixels.len(), q) =~= primary_strip(pixels.len(), params));
    assert(Effect::Plasma.draw_frame(pixels, state, q).0 =~= Effect::Plasma.draw_frame(pixels, state, params).0);
}

proof fn unlisted_twinkle_up(pixels: Seq<RGB8>, state: EffectState, params: Params, setting: Setting, value: u8)
    requires
        !Effect::TwinkleUp.settings_spec().contains(setting),
    ensures
        Effect::TwinkleUp.draw_frame(pixels, state, params.with_spec(setting, value)) == Effect::TwinkleUp.draw_frame(pixels, state, params),
{
    let q = params.with_spec(setting, value);
    lemma_with_keeps_the_rest(params, setting, value);
    if setting == Setting::Rate {
        assert(Effect::TwinkleUp.settings_spec()[0] == setting);
    }
    if setting == Setting::Intensity {
        assert(Effect::TwinkleUp.settings_spec()[1] == setting);
    }
    assert(primary_strip(pixels.len(), q) =~= primary_strip(pixels.len(), params));
    assert(Effect::TwinkleUp.draw_frame(pixels, state, q).0 =~= Effect::TwinkleUp.draw_frame(pixels, state, params).0);
}

proof fn unlisted_solid_pattern_tri(pixels: Seq<RGB8>, state: EffectState, params: Params, setting: Setting, value: u8)
    requires
        !Effect::SolidPatternTri.settings_spec().contains(setting),
    ensures
        Effect::SolidPatternTri.draw_frame(pixels, state, params.with_spec(setting, value)) == Effect::SolidPatternTri.draw_frame(pixels, state, params),
{
    let q = params.with_spec(setting, value);
    lemma_with_keeps_the_rest(params, setting, value);
    if setting == Setting::Width {
        assert(Effect::SolidPatternTri.settings_spec()[0] == setting);
    }
    assert(primary_strip(pixels.len(), q) =~= primary_strip(pixels.len(), params));
    assert(Effect::SolidPatternTri.draw_frame(pixels, state, q).0 =~= Effect::SolidPatternTri.draw_frame(pixels, state, params).0);
}

/// A setting the effect does not list changes nothing it draws.
proof fn lemma_unlisted_setting_draw(
    effect: Effect,
    pixels: Seq<RGB8>,
    state: EffectState,
    params: Params,
    setting: Setting,
    value: u8,
)
    requires
        !effect.settings_spec().contains(setting),
    ensures
        effect.draw_frame(pixels, state, params.with_spec(setting, value)) == effect.draw_frame(pixels, state, params),
{
    match effect {
        Effect::Static => unlisted_static(pixels, state, params, setting, value),
        Effect::Blink => unlisted_blink(pixels, state, params, setting, value),
        Effect::BlinkRainbow => unlisted_blink_rainbow(pixels, state, params, setting, value),
        Effect::Strobe => unlisted_strobe(pixels, state, params, setting, value),
        Effect::StrobeRainbow => unlisted_strobe_rainbow(pixels, state, params, setting, value),
        Effect::Breath => unlisted_breath(pixels, state, params, setting, value),
        Effect::Rainbow => unlisted_rainbow(pixels, state, params, setting, value),
        Effect::Fade => unlisted_fade(pixels, state, params, setting, value),
        Effect::HyperSparkle => unlisted_hyper_sparkle(pixels, state, params, setting, value),
        Effect::MultiStrobe => unlisted_multi_strobe(pixels, state, params, setting, value),
        Effect::RainbowCycle => unlisted_rainbow_cycle(pixels, state, params, setting, value),
        Effect::ColorWipe => unlisted_color_wipe(pixels, state, params, setting, value),
        Effect::ColorWipeInv => unlisted_color_wipe_inv(pixels, state, params, setting, value),
        Effect::ColorWipeRandom => unlisted_color_wipe_random(pixels, state, params, setting, value),
        Effect::ColorSweepRandom => unlisted_color_sweep_random(pixels, state, params, setting, value),
        Effect::Scan => unlisted_scan(pixels, state, params, setting, value),
        Effect::DualScan => unlisted_dual_scan(pixels, state, params, setting, value),
        Effect::TricolorChase => unlisted_tricolor_chase(pixels, state, params, setting, value),
        Effect::CircusCombustus => unlisted_circus_combustus(pixels, state, params, setting, value),
        Effect::TheaterChase => unlisted_theater_chase(pixels, state, params, setting, value),
        Effect::TheaterChaseRainbow => unlisted_theater_chase_rainbow(pixels, state, params, setting, value),
        Effect::BicolorChase => unlisted_bicolor_chase(pixels, state, params, setting, value),
        Effect::ChaseColor => unlisted_chase_color(pixels, state, params, setting, value),
        Effect::ChaseBlackout => unlisted_chase_blackout(pixels, state, params, setting, value),
        Effect::ChaseWhite => unlisted_chase_white(pixels, state, params, setting, value),
        Effect::ChaseRandom => unlisted_chase_random(pixels, state, params, setting, value),
        Effect::ChaseRainbowWhite => unlisted_chase_rainbow_white(pixels, state, params, setting, value),
        Effect::ChaseRainbow => unlisted_chase_rainbow(pixels, state, params, setting, value),
        Effect::ChaseBlackoutRainbow => unlisted_chase_blackout_rainbow(pixels, state, params, setting, value),
        Effect::ChaseFlash => unlisted_chase_flash(pixels, state, params, setting, value),
        Effect::ChaseFlashRandom => unlisted_chase_flash_random(pixels, state, params, setting, value),
        Effect::RunningColor => unlisted_running_color(pixels, state, params, setting, value),
        Effect::RunningRedBlue => unlisted_running_red_blue(pixels, state, params, setting, value),
        Effect::MerryChristmas => unlisted_merry_christmas(pixels, state, params, setting, value),
        Effect::Halloween => unlisted_halloween(pixels, state, params, setting, value),
        Effect::RunningRandom => unlisted_running_random(pixels, state, params, setting, value),
        Effect::RunningRandom2 => unlisted_running_random2(pixels, state, params, setting, value),
        Effect::RunningLights => unlisted_running_lights(pixels, state, params, setting, value),
        Effect::RandomColor => unlisted_random_color(pixels, state, params, setting, value),
        Effect::SingleDynamic => unlisted_single_dynamic(pixels, state, params, setting, value),
        Effect::MultiDynamic => unlisted_multi_dynamic(pixels, state, params, setting, value),
        Effect::BlockDissolve => unlisted_block_dissolve(pixels, state, params, setting, value),
        Effect::Twinkle => unlisted_twinkle(pixels, state, params, setting, value),
        Effect::TwinkleRandom => unlisted_twinkle_random(pixels, state, params, setting, value),
        Effect::TwinkleFade => unlisted_twinkle_fade(pixels, state, params, setting, value),
        Effect::TwinkleFadeRandom => unlisted_twinkle_fade_random(pixels, state, params, setting, value),
        Effect::Sparkle => unlisted_sparkle(pixels, state, params, setting, value),
        Effect::FlashSparkle => unlisted_flash_sparkle(pixels, state, params, setting, value),
        Effect::SparkleRandom => unlisted_sparkle_random(pixels, state, params, setting, value),
        Effect::LarsonScanner => unlisted_larson_scanner(pixels, state, params, setting, value),
        Effect::Comet => unlisted_comet(pixels, state, params, setting, value),
        Effect::DualLarson => unlisted_dual_larson(pixels, state, params, setting, value),
        Effect::RainbowLarson => unlisted_rainbow_larson(pixels, state, params, setting, value),
        Effect::MultiComet => unlisted_multi_comet(pixels, state, params, setting, value),
        Effect::Fireworks => unlisted_fireworks(pixels, state, params, setting, value),
        Effect::FireworksRandom => unlisted_fireworks_random(pixels, state, params, setting, value),
        Effect::FireFlicker => unlisted_fire_flicker(pixels, state, params, setting, value),
        Effect::FireFlickerSoft => unlisted_fire_flicker_soft(pixels, state, params, setting, value),
        Effect::FireFlickerIntense => unlisted_fire_flicker_intense(pixels, state, params, setting, value),
        Effect::TwinkleFox => unlisted_twinkle_fox(pixels, state, params, setting, value),
        Effect::Rain => unlisted_rain(pixels, state, params, setting, value),
        Effect::Icu => unlisted_icu(pixels, state, params, setting, value),
        Effect::FillerUp => unlisted_filler_up(pixels, state, params, setting, value),
        Effect::TriFade => unlisted_tri_fade(pixels, state, params, setting, value),
        Effect::Heartbeat => unlisted_heartbeat(pixels, state, params, setting, value),
        Effect::RainbowFireworks => unlisted_rainbow_fireworks(pixels, state, params, setting, value),
        Effect::Sine => unlisted_sine(pixels, state, params, setting, value),
        Effect::Bpm => unlisted_bpm(pixels, state, params, setting, value),
        Effect::Percent => unlisted_percent(pixels, state, params, setting, value),
        Effect::Wavesins => unlisted_wavesins(pixels, state, params, setting, value),
        Effect::SolidPattern => unlisted_solid_pattern(pixels, state, params, setting, value),
        Effect::Saw => unlisted_saw(pixels, state, params, setting, value),
        Effect::Bands => unlisted_bands(pixels, state, params, setting, value),
        Effect::Stream => unlisted_stream(pixels, state, params, setting, value),
        Effect::Stream2 => unlisted_stream2(pixels, state, params, setting, value),
        Effect::Gradient => unlisted_gradient(pixels, state, params, setting, value),
        Effect::Loading => unlisted_loading(pixels, state, params, setting, value),
        Effect::RunningDual => unlisted_running_dual(pixels, state, params, setting, value),
        Effect::Flow => unlisted_flow(pixels, state, params, setting, value),
        Effect::Railway => unlisted_railway(pixels, state, params, setting, value),
        Effect::TriWipe => unlisted_tri_wipe(pixels, state, params, setting, value),
        Effect::TwoDots => unlisted_two_dots(pixels, state, params, setting, value),
        Effect::Lightning => unlisted_lightning(pixels, state, params, setting, value),
        Effect::Spots => unlisted_spots(pixels, state, params, setting, value),
        Effect::SpotsFade => unlisted_spots_fade(pixels, state, params, setting, value),
        Effect::Glitter => unlisted_glitter(pixels, state, params, setting, value),
        Effect::SolidGlitter => unlisted_solid_glitter(pixels, state, params, setting, value),
        Effect::Lake => unlisted_lake(pixels, state, params, setting, value),
        Effect::Plasma => unlisted_plasma(pixels, state, params, setting, value),
        Effect::TwinkleUp => unlisted_twinkle_up(pixels, state, params, setting, value),
        Effect::SolidPatternTri => unlisted_solid_pattern_tri(pixels, state, params, setting, value),
    }
}

/// A control mapped to a setting an effect does not list among its
/// settings changes nothing: stepping with that setting at any value draws
/// the same frame and steps to the same state.
pub proof fn lemma_unlisted_setting_ignored(
    effect: Effect,
    pixels: Seq<RGB8>,
    state: EffectState,
    params: Params,
    setting: Setting,
    value: u8,
)
    requires
        !effect.settings_spec().contains(setting),
    ensures
        effect.step_frame(pixels, state, params.with_spec(setting, value)) == effect.step_frame(pixels, state, params),
{
    lemma_with_keeps_the_rest(params, setting, value);
    if pixels.len() > 0 {
        let g = params.group_len_spec();
        lemma_unlisted_setting_draw(effect, flipped(collapsed(pixels, g), params.reverse), state, params, setting, value);
    }
}

} // verus!
