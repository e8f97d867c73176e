use smart_leds_fx::effect::Effect;
use smart_leds_fx::effects::{color, complex, rainbow, wave};
use smart_leds_fx::params::{Params, Setting};
use smart_leds_fx::pixel::RGB8;
use smart_leds_fx::segment::{EffectConfig, EffectState};
use smart_leds_fx::utils::{color_wheel, next_rand};

fn c(r: u8, g: u8, b: u8) -> RGB8 {
    RGB8 { r, g, b }
}

const B: RGB8 = RGB8 { r: 0, g: 0, b: 0 };
const RED: RGB8 = RGB8 { r: 255, g: 0, b: 0 };
const GREEN: RGB8 = RGB8 { r: 0, g: 255, b: 0 };
const BLUE: RGB8 = RGB8 { r: 0, g: 0, b: 255 };

fn params() -> Params {
    Params::new([RED, GREEN, BLUE])
}

fn run(effect: Effect, pixels: &mut Vec<RGB8>, state: &mut EffectState, params: &Params, steps: usize) {
    for _ in 0..steps {
        effect.step(pixels, state, params);
    }
}

#[test]
fn effect_list() {
    assert_eq!(Effect::count(), 91);
    let all = Effect::iter();
    assert_eq!(all.len(), 91);
    assert_eq!(all[0], Effect::Static);
    assert_eq!(all[70], Effect::SolidPattern);
    assert_eq!(all[90], Effect::SolidPatternTri);
    for (i, e) in all.iter().enumerate() {
        assert_eq!(Effect::from_index(i), *e);
    }
    for i in 0..all.len() {
        for j in 0..i {
            assert_ne!(all[i], all[j]);
        }
    }
}

#[test]
fn effect_names() {
    assert_eq!(Effect::Static.name(), "Static");
    assert_eq!(Effect::FireFlickerSoft.name(), "Fire Flicker (Soft)");
    assert_eq!(Effect::TwinkleFox.name(), "TwinkleFOX");
    assert_eq!(Effect::Icu.name(), "ICU");
    assert_eq!(Effect::RunningRandom2.name(), "Running Random 2");
    assert_eq!(Effect::SolidPattern.name(), "Solid Pattern");
    assert_eq!(Effect::Stream2.name(), "Stream 2");
    assert_eq!(Effect::TwinkleUp.name(), "Twinkle Up");
    assert_eq!(Effect::SolidPatternTri.name(), "Solid Pattern Tri");
    let names: Vec<&str> = Effect::iter().iter().map(|e| e.name()).collect();
    for i in 0..names.len() {
        for j in 0..i {
            assert_ne!(names[i], names[j]);
        }
    }
    for e in Effect::iter() {
        assert!(!e.name().is_empty());
    }
}

#[test]
fn effect_settings() {
    assert_eq!(Effect::Static.settings(), Vec::<Setting>::new());
    assert_eq!(Effect::Comet.settings(), vec![Setting::Intensity]);
    assert_eq!(Effect::Sine.settings(), vec![Setting::Rate, Setting::Scale]);
    assert_eq!(Effect::Percent.settings(), vec![Setting::Fill, Setting::OneColor]);
    assert_eq!(Effect::SolidPattern.settings(), vec![Setting::Width, Setting::Gap]);
    assert_eq!(Effect::Wavesins.settings().len(), 5);
}

#[test]
fn empty_strip_is_untouched() {
    for e in Effect::iter() {
        let mut pixels: Vec<RGB8> = Vec::new();
        let mut state = EffectState { counter: 3, aux: 5 };
        e.step(&mut pixels, &mut state, &params());
        assert!(pixels.is_empty());
        assert_eq!((state.counter, state.aux), (3, 5));
    }
}

#[test]
fn every_effect_keeps_the_length() {
    for e in Effect::iter() {
        for len in [1usize, 2, 7, 30] {
            for size in [0u8, 2] {
                let mut pixels = vec![B; len];
                let mut state = EffectState::default();
                let p = params().size(size).reverse(size > 0);
                run(e, &mut pixels, &mut state, &p, 20);
                assert_eq!(pixels.len(), len);
            }
        }
    }
}

#[test]
fn blink_alternates() {
    let mut pixels = vec![B; 3];
    let mut state = EffectState::default();
    let p = params();
    Effect::Blink.step(&mut pixels, &mut state, &p);
    assert_eq!(pixels, vec![RED; 3]);
    assert_eq!(state.counter, 1);
    Effect::Blink.step(&mut pixels, &mut state, &p);
    assert_eq!(pixels, vec![GREEN; 3]);
    assert_eq!(state.counter, 2);
}

#[test]
fn strobe_period_follows_intensity() {
    let mut pixels = vec![B; 2];
    let mut state = EffectState::default();
    let p = params();
    let mut flashes = Vec::new();
    for _ in 0..11 {
        Effect::Strobe.step(&mut pixels, &mut state, &p);
        flashes.push(pixels[0] == RED);
    }
    // At the default intensity a flash comes every fifth step.
    let expected: Vec<bool> = (0..11).map(|i| i % 5 == 0).collect();
    assert_eq!(flashes, expected);
    // At full intensity, every other step.
    let mut state = EffectState::default();
    let p = params().intensity(255);
    let mut flashes = Vec::new();
    for _ in 0..4 {
        Effect::Strobe.step(&mut pixels, &mut state, &p);
        flashes.push(pixels[0] == RED);
    }
    assert_eq!(flashes, vec![true, false, true, false]);
}

#[test]
fn fade_blends_from_secondary() {
    let mut pixels = vec![B; 2];
    let mut state = EffectState::default();
    let p = Params::new([c(255, 255, 255), B, B]);
    Effect::Fade.step(&mut pixels, &mut state, &p);
    assert_eq!(pixels, vec![B; 2]);
    assert_eq!(state.counter, 4);
    Effect::Fade.step(&mut pixels, &mut state, &p);
    assert_eq!(pixels, vec![c(4, 4, 4); 2]);
    assert_eq!(state.counter, 8);
    // Counts up to 508, then wraps.
    let mut state = EffectState { counter: 508, aux: 0 };
    Effect::Fade.step(&mut pixels, &mut state, &p);
    assert_eq!(state.counter, 0);
    assert_eq!(pixels, vec![c(3, 3, 3); 2]);
}

#[test]
fn rainbow_cycle_spreads_the_wheel() {
    let mut pixels = vec![B; 4];
    let mut state = EffectState::default();
    Effect::RainbowCycle.step(&mut pixels, &mut state, &params());
    assert_eq!(pixels, vec![c(255, 0, 0), c(63, 192, 0), c(0, 126, 129), c(66, 0, 189)]);
    assert_eq!(state.counter, 1);
    // At full intensity the strip shows the wheel twice.
    let mut state = EffectState::default();
    Effect::RainbowCycle.step(&mut pixels, &mut state, &params().intensity(255));
    assert_eq!(pixels[0], color_wheel(0));
    assert_eq!(pixels[2], color_wheel(255));
}

#[test]
fn color_wipe_fills_then_clears() {
    let mut pixels = vec![B; 3];
    let mut state = EffectState::default();
    let p = params();
    run(Effect::ColorWipe, &mut pixels, &mut state, &p, 3);
    assert_eq!(pixels, vec![RED; 3]);
    Effect::ColorWipe.step(&mut pixels, &mut state, &p);
    assert_eq!(pixels, vec![GREEN, RED, RED]);
    run(Effect::ColorWipe, &mut pixels, &mut state, &p, 2);
    assert_eq!(pixels, vec![GREEN; 3]);
    // The inverse wipe swaps the two colors.
    let mut pixels = vec![B; 3];
    let mut state = EffectState::default();
    Effect::ColorWipeInv.step(&mut pixels, &mut state, &p);
    assert_eq!(pixels, vec![GREEN, B, B]);
}

#[test]
fn scan_bounces() {
    let mut pixels = vec![B; 4];
    let mut state = EffectState::default();
    let p = params();
    let mut dots = Vec::new();
    for _ in 0..8 {
        Effect::Scan.step(&mut pixels, &mut state, &p);
        dots.push(pixels.iter().position(|x| *x == RED).unwrap());
        assert_eq!(pixels.iter().filter(|x| **x == GREEN).count(), 3);
    }
    assert_eq!(dots, vec![0, 1, 2, 3, 2, 1, 0, 1]);
}

#[test]
fn bicolor_chase_moves_one_step() {
    let mut pixels = vec![B; 8];
    let mut state = EffectState::default();
    let p = params();
    Effect::BicolorChase.step(&mut pixels, &mut state, &p);
    assert_eq!(pixels, vec![RED, GREEN, BLUE, BLUE, BLUE, BLUE, BLUE, BLUE]);
    Effect::BicolorChase.step(&mut pixels, &mut state, &p);
    assert_eq!(pixels, vec![GREEN, BLUE, BLUE, BLUE, BLUE, BLUE, BLUE, RED]);
}

#[test]
fn running_shifts_bands_in() {
    let mut pixels = vec![B; 3];
    let mut state = EffectState::default();
    run(Effect::RunningColor, &mut pixels, &mut state, &params(), 3);
    assert_eq!(pixels, vec![RED, GREEN, GREEN]);
    // Running Red Blue has colors of its own.
    let mut pixels = vec![B; 3];
    let mut state = EffectState::default();
    run(Effect::RunningRedBlue, &mut pixels, &mut state, &params(), 3);
    assert_eq!(pixels, vec![c(255, 0, 0), c(0, 0, 255), c(0, 0, 255)]);
}

#[test]
fn solid_pattern_repeats() {
    let mut pixels = vec![B; 8];
    let mut state = EffectState::default();
    Effect::SolidPattern.step(&mut pixels, &mut state, &params());
    // Width 48 lights 4 pixels, gap 48 leaves 3 dark: a period of 7.
    assert_eq!(pixels, vec![RED, RED, RED, RED, GREEN, GREEN, GREEN, RED]);
}

#[test]
fn percent_grows_to_its_target() {
    let mut pixels = vec![B; 10];
    let mut state = EffectState::default();
    let p = params();
    Effect::Percent.step(&mut pixels, &mut state, &p);
    assert_eq!(state.counter, 1);
    run(Effect::Percent, &mut pixels, &mut state, &p, 10);
    // Fill 128 of 255 on ten pixels lights five.
    assert_eq!(state.counter, 5);
    assert_eq!(&pixels[..5], &[RED; 5]);
    assert_eq!(&pixels[5..], &[GREEN; 5]);
    // Lower fill shrinks it one pixel a step.
    Effect::Percent.step(&mut pixels, &mut state, &p.with(Setting::Fill, 0));
    assert_eq!(state.counter, 4);
}

#[test]
fn grouping_spreads_each_pixel() {
    let mut pixels = vec![B; 4];
    let mut state = EffectState::default();
    Effect::ColorWipe.step(&mut pixels, &mut state, &params().size(1));
    assert_eq!(pixels, vec![RED, RED, B, B]);
    // A partial last group is drawn too.
    let mut pixels = vec![B; 5];
    let mut state = EffectState { counter: 2, aux: 0 };
    Effect::ColorWipe.step(&mut pixels, &mut state, &params().size(1));
    assert_eq!(pixels, vec![B, B, B, B, RED]);
}

#[test]
fn reverse_draws_back_to_front() {
    let mut pixels = vec![B; 3];
    let mut state = EffectState::default();
    Effect::ColorWipe.step(&mut pixels, &mut state, &params().reverse(true));
    assert_eq!(pixels, vec![B, B, RED]);
}

#[test]
fn render_uses_the_config() {
    let config = EffectConfig { colors: [BLUE, B, B], speed: 10 };
    let mut pixels = vec![B; 2];
    let mut state = EffectState::default();
    Effect::Static.render(&mut pixels, &mut state, &config);
    assert_eq!(pixels, vec![BLUE; 2]);
}

#[test]
fn heartbeat_beats_in_the_middle() {
    let mut pixels = vec![B; 8];
    let mut state = EffectState::default();
    Effect::Heartbeat.step(&mut pixels, &mut state, &params());
    assert_eq!(pixels, vec![B, B, RED, RED, RED, RED, B, B]);
    assert_eq!(state.counter, 1);
    let mut state = EffectState { counter: 59, aux: 0 };
    Effect::Heartbeat.step(&mut pixels, &mut state, &params());
    assert_eq!(state.counter, 0);
}

#[test]
fn trifade_fades_through_black() {
    let mut pixels = vec![B; 2];
    let mut state = EffectState::default();
    let p = Params::new([RED, GREEN, B]);
    Effect::TriFade.step(&mut pixels, &mut state, &p);
    assert_eq!(pixels, vec![RED; 2]);
    assert_eq!((state.counter, state.aux), (4, 0));
    run(Effect::TriFade, &mut pixels, &mut state, &p, 63);
    assert_eq!((state.counter, state.aux), (256, 1));
}

#[test]
fn icu_settles_on_its_target() {
    let mut pixels = vec![B; 4];
    let mut state = EffectState::default();
    Effect::Icu.step(&mut pixels, &mut state, &params());
    assert_eq!(pixels, vec![RED, B, RED, B]);
    assert_eq!((state.counter, state.aux), (0, 65536));
}

#[test]
fn filler_up_drops_and_fills() {
    let mut pixels = vec![B; 4];
    let mut state = EffectState::default();
    let p = params();
    Effect::FillerUp.step(&mut pixels, &mut state, &p);
    assert_eq!(pixels, vec![RED, GREEN, GREEN, GREEN]);
    run(Effect::FillerUp, &mut pixels, &mut state, &p, 3);
    assert_eq!(pixels, vec![GREEN, GREEN, GREEN, RED]);
    assert_eq!((state.counter, state.aux), (0, 1));
    Effect::FillerUp.step(&mut pixels, &mut state, &p);
    assert_eq!(pixels, vec![RED, GREEN, GREEN, RED]);
}

#[test]
fn rainbow_fireworks_spread_through_the_spectrum() {
    let mut pixels = vec![B, B, c(254, 0, 0), B, B];
    let mut state = EffectState::default();
    Effect::RainbowFireworks.step(&mut pixels, &mut state, &params());
    assert_eq!(pixels, vec![B, c(255, 127, 0), c(127, 0, 0), c(127, 63, 0), B]);
    assert_eq!(state.aux, next_rand(0));
}

#[test]
fn hyper_sparkle_lights_white_pixels() {
    let mut pixels = vec![B; 40];
    let mut state = EffectState::default();
    Effect::HyperSparkle.step(&mut pixels, &mut state, &params());
    let white = pixels.iter().filter(|x| **x == c(255, 255, 255)).count();
    assert!(white >= 1 && white <= 8);
    assert!(pixels.iter().all(|x| *x == RED || *x == c(255, 255, 255)));
    // Eight draws of the generator at the default intensity.
    let mut rng = 0;
    for _ in 0..8 {
        rng = next_rand(rng);
    }
    assert_eq!(state.aux, rng);
}

#[test]
fn fixed_color_effects_ignore_the_palette() {
    let mut entries = [c(0, 0, 0); 16];
    for (i, e) in entries.iter_mut().enumerate() {
        *e = c(i as u8 * 8, 100, 200);
    }
    let with = params().palette(smart_leds_fx::params::Palette16 { entries });
    for e in [Effect::RunningRedBlue, Effect::MerryChristmas, Effect::Halloween, Effect::CircusCombustus] {
        let mut a = vec![B; 6];
        let mut b = vec![B; 6];
        let mut sa = EffectState::default();
        let mut sb = EffectState::default();
        run(e, &mut a, &mut sa, &params(), 5);
        run(e, &mut b, &mut sb, &with, 5);
        assert_eq!(a, b);
    }
    // An effect that draws the primary color follows the palette instead.
    let mut a = vec![B; 6];
    let mut sa = EffectState::default();
    Effect::Static.step(&mut a, &mut sa, &with);
    assert_ne!(a, vec![RED; 6]);
}

#[test]
fn time_driven_effects_follow_the_clock_alone() {
    for e in [Effect::Sine, Effect::Bpm, Effect::Wavesins] {
        let p = params().now_ms(123_456);
        let mut a = vec![B; 9];
        let mut b = vec![c(9, 9, 9); 9];
        let mut sa = EffectState::default();
        let mut sb = EffectState { counter: 77, aux: 5 };
        e.step(&mut a, &mut sa, &p);
        e.step(&mut b, &mut sb, &p);
        assert_eq!(a, b);
        assert_eq!((sa.counter, sa.aux), (0, 0));
        assert_eq!((sb.counter, sb.aux), (77, 5));
        // Another moment draws another frame.
        let mut later = vec![B; 9];
        e.step(&mut later, &mut sa, &p.now_ms(124_000));
        assert_ne!(a, later);
    }
}

#[test]
fn whole_strip_effects_accept_an_empty_strip() {
    let p = params();
    let mut pixels: Vec<RGB8> = Vec::new();
    let mut state = EffectState::default();
    color::blink(&mut pixels, &mut state, &p);
    assert_eq!(state.counter, 1);
    color::fade(&mut pixels, &mut state, &p);
    rainbow::rainbow_cycle(&mut pixels, &mut state, &p);
    wave::percent(&mut pixels, &mut state, &p);
    assert!(pixels.is_empty());
    assert_eq!(state.counter, 0);
}

#[test]
fn strobe_periods_and_breath_levels() {
    assert_eq!(color::strobe_period(255), 2);
    assert_eq!(color::strobe_period(128), 5);
    assert_eq!(color::strobe_period(0), 9);
    assert_eq!(color::breath_level(0), 0);
    assert_eq!(color::breath_level(127), 254);
    assert_eq!(color::breath_level(128), 255);
    assert_eq!(color::breath_level(129), 253);
    assert_eq!(color::breath_level(255), 1);
}

#[test]
fn grouped_reversed_frames_carry_over() {
    let mut pixels = vec![B; 5];
    let mut state = EffectState::default();
    let p = params().size(1).reverse(true);
    run(Effect::ColorWipe, &mut pixels, &mut state, &p, 1);
    assert_eq!(pixels, vec![B, B, B, B, RED]);
    run(Effect::ColorWipe, &mut pixels, &mut state, &p, 2);
    assert_eq!(pixels, vec![RED; 5]);
    Effect::ColorWipe.step(&mut pixels, &mut state, &p);
    assert_eq!(pixels, vec![RED, RED, RED, RED, GREEN]);
}

#[test]
fn unlisted_settings_change_nothing() {
    let all_settings = [
        Setting::Intensity,
        Setting::Rate,
        Setting::Scale,
        Setting::Fill,
        Setting::OneColor,
        Setting::Width,
        Setting::Gap,
        Setting::Variation,
        Setting::PaletteStart,
        Setting::PaletteSpan,
        Setting::PaletteStep,
        Setting::Spread,
        Setting::Count,
        Setting::Smoothness,
    ];
    let p = params().now_ms(5_000);
    for e in Effect::iter() {
        let listed = e.settings();
        for s in all_settings {
            if listed.contains(&s) {
                continue;
            }
            let mut a = vec![c(1, 2, 3); 12];
            let mut b = a.clone();
            let mut sa = EffectState::default();
            let mut sb = EffectState::default();
            run(e, &mut a, &mut sa, &p, 7);
            run(e, &mut b, &mut sb, &p.with(s, 201), 7);
            assert_eq!(a, b, "{:?} {:?}", e, s);
            assert_eq!((sa.counter, sa.aux), (sb.counter, sb.aux));
        }
    }
    // A listed setting does change the frame.
    let mut a = vec![B; 12];
    let mut b = vec![B; 12];
    Effect::Sine.step(&mut a, &mut EffectState::default(), &p);
    Effect::Sine.step(&mut b, &mut EffectState::default(), &p.with(Setting::Scale, 255));
    assert_ne!(a, b);
}

#[test]
fn states_an_effect_can_step_from() {
    let s = |counter: u32, aux: u32| EffectState { counter, aux };
    assert!(Effect::Fade.can_step_from(s(508, 0), 3));
    assert!(!Effect::Fade.can_step_from(s(512, 0), 3));
    assert!(!Effect::Strobe.can_step_from(s(u32::MAX, 0), 3));
    assert!(Effect::Scan.can_step_from(s(u32::MAX, 1), 3));
    assert!(!Effect::Sparkle.can_step_from(s(3, 1), 3));
    assert!(Effect::Sparkle.can_step_from(s(3, 0), 3));
    assert!(!Effect::SparkleRandom.can_step_from(s(1, 0x0300), 3));
    assert!(Effect::SparkleRandom.can_step_from(s(1, 0x0200), 3));
    assert!(Effect::Static.can_step_from(s(u32::MAX, u32::MAX), 0));
    for e in Effect::iter() {
        assert!(e.can_step_from(EffectState::default(), 7));
    }
}

#[test]
fn solid_pattern_tri_stripes() {
    let mut pixels = vec![B; 10];
    let mut state = EffectState::default();
    let p = params().with(Setting::Width, 16);
    Effect::SolidPatternTri.step(&mut pixels, &mut state, &p);
    assert_eq!(pixels, vec![RED, RED, GREEN, GREEN, BLUE, BLUE, RED, RED, GREEN, GREEN]);
}

#[test]
fn hue_wheel_effects_follow_the_palette() {
    let black = smart_leds_fx::params::Palette16 { entries: [B; 16] };
    let p = params().palette(black);
    for e in [Effect::RainbowCycle, Effect::RandomColor, Effect::MultiDynamic, Effect::Rainbow] {
        let mut pixels = vec![c(5, 5, 5); 6];
        let mut state = EffectState::default();
        e.step(&mut pixels, &mut state, &p);
        assert_eq!(pixels, vec![B; 6], "{:?}", e);
    }
    let mut pixels = vec![B; 6];
    let mut state = EffectState::default();
    run(Effect::ColorWipeRandom, &mut pixels, &mut state, &p, 6);
    assert_eq!(pixels, vec![B; 6]);
}

#[test]
fn new_time_driven_effects_follow_the_clock() {
    for e in [Effect::Lake, Effect::Plasma, Effect::TwinkleUp, Effect::Saw, Effect::Flow] {
        let p = params().now_ms(40_000);
        let mut a = vec![B; 9];
        let mut b = vec![c(7, 7, 7); 9];
        e.step(&mut a, &mut EffectState::default(), &p);
        e.step(&mut b, &mut EffectState { counter: 9, aux: 9 }, &p);
        assert_eq!(a, b, "{:?}", e);
    }
}

#[test]
fn intensity_shortens_the_scanner_trail() {
    let mut soft = vec![c(200, 200, 200); 6];
    let mut hard = soft.clone();
    Effect::LarsonScanner.step(&mut soft, &mut EffectState { counter: 0, aux: 0 }, &params());
    Effect::LarsonScanner.step(&mut hard, &mut EffectState { counter: 0, aux: 0 }, &params().intensity(255));
    // At the default intensity the trail fades by 64/255; at full, faster.
    assert_eq!(soft[3], c(149, 149, 149));
    assert!(hard[3].r < soft[3].r);
}

#[test]
fn which_effects_use_the_palette() {
    let ignoring = [
        Effect::CircusCombustus,
        Effect::ChaseWhite,
        Effect::RunningRedBlue,
        Effect::MerryChristmas,
        Effect::Halloween,
        Effect::RainbowFireworks,
        Effect::RunningRandom2,
        Effect::Stream2,
        Effect::SolidPatternTri,
        Effect::SolidGlitter,
    ];
    let mut users = 0;
    for effect in Effect::iter() {
        assert_eq!(effect.uses_palette(), !ignoring.contains(&effect));
        if effect.uses_palette() {
            users += 1;
        }
    }
    assert_eq!(users, 81);
    assert!(Effect::Comet.uses_palette());
    assert!(!Effect::Halloween.uses_palette());
}

#[test]
fn reverse_draws_the_mirror() {
    let mut reversed = vec![B; 5];
    let mut state = EffectState::default();
    let mut forward = vec![B; 5];
    let mut forward_state = EffectState::default();
    for _ in 0..3 {
        Effect::ColorWipe.step(&mut reversed, &mut state, &params().reverse(true));
        Effect::ColorWipe.step(&mut forward, &mut forward_state, &params());
        let expected: Vec<RGB8> = forward.iter().rev().cloned().collect();
        assert_eq!(reversed, expected);
        assert_eq!(state.counter, forward_state.counter);
        assert_eq!(state.aux, forward_state.aux);
    }
    assert_ne!(reversed, vec![B; 5]);
}

#[test]
fn block_dissolve_changes_one_pixel_per_step() {
    let mut pixels = vec![B; 8];
    let mut state = EffectState::default();
    let mut changes = 0;
    for _ in 0..40 {
        let before = pixels.clone();
        Effect::BlockDissolve.step(&mut pixels, &mut state, &params());
        let changed: Vec<usize> = (0..8).filter(|&i| before[i] != pixels[i]).collect();
        assert!(changed.len() <= 1);
        changes += changed.len();
    }
    assert!(changes > 0);
}

#[test]
fn icu_eyes_stay_half_a_strip_apart() {
    let mut pixels = vec![B; 10];
    let mut state = EffectState::default();
    let mut last = 0i64;
    for _ in 0..200 {
        Effect::Icu.step(&mut pixels, &mut state, &params());
        let lit: Vec<usize> = (0..10).filter(|&i| pixels[i] != B).collect();
        assert_eq!(lit.len(), 2);
        assert_eq!(lit[1] - lit[0], 5);
        assert!(lit[0] < 5);
        let pos = state.counter as i64;
        assert!((pos - last).abs() <= 1);
        last = pos;
    }
}

#[test]
fn rainbow_fireworks_light_one_spark_at_most() {
    let red = c(255, 0, 0);
    let mut pixels = vec![B; 30];
    let mut state = EffectState::default();
    let mut sparks = 0;
    for _ in 0..100 {
        Effect::RainbowFireworks.step(&mut pixels, &mut state, &params());
        let reds: Vec<usize> = (0..30).filter(|&i| pixels[i] == red).collect();
        assert!(reds.len() <= 1);
        for &i in &reds {
            assert!(6 <= i && i < 24);
        }
        sparks += reds.len();
    }
    assert!(sparks > 0);
}

#[test]
fn rainbow_cycle_bounds_follow_its_products() {
    let full = params().intensity(255);
    assert!(Effect::RainbowCycle.can_draw_on(8_421_505, &full));
    assert!(!Effect::RainbowCycle.can_draw_on(8_421_506, &full));
    let none = params().intensity(0);
    assert!(Effect::RainbowCycle.can_draw_on(100_000_000, &none));
    assert!(Effect::Gradient.can_draw_on(100_000_000, &params()));
    assert!(Effect::ChaseRainbowWhite.can_draw_on(100_000_000, &params()));
    assert!(Effect::Static.can_draw_on(100_000_000, &params()));
}

#[test]
fn color_sweep_random_changes_one_pixel_per_step() {
    let mut pixels = vec![B; 5];
    let mut state = EffectState::default();
    for step in 0..30u32 {
        let before = pixels.clone();
        let aux = state.aux;
        Effect::ColorSweepRandom.step(&mut pixels, &mut state, &params());
        let changed = (0..5).filter(|&i| before[i] != pixels[i]).count();
        assert!(changed <= 1);
        assert_eq!(state.counter, step + 1);
        if step % 10 != 0 {
            assert_eq!(state.aux, aux);
        }
    }
}

#[test]
fn trifade_wraps_its_colour_index() {
    let mut pixels = vec![B; 2];
    let mut state = EffectState { counter: 252, aux: u32::MAX };
    Effect::TriFade.step(&mut pixels, &mut state, &params());
    // Three colours: u32::MAX % 3 == 0, so the next index is 1.
    assert_eq!(state.counter, 256);
    assert_eq!(state.aux, 1);
    assert!(Effect::TriFade.can_step_from(EffectState { counter: 0, aux: u32::MAX }, 2));
}

#[test]
fn strobe_rainbow_hue_wraps_without_overflow() {
    let mut pixels = vec![B; 2];
    let mut state = EffectState { counter: 0, aux: u32::MAX };
    assert!(Effect::StrobeRainbow.can_step_from(state, 2));
    Effect::StrobeRainbow.step(&mut pixels, &mut state, &params());
    assert_eq!(state.aux, 15);
    assert_eq!(state.counter, 1);
    assert_eq!(pixels, vec![color_wheel(255); 2]);
}

#[test]
fn rainbow_fireworks_on_an_empty_strip() {
    let mut pixels: Vec<RGB8> = Vec::new();
    let mut state = EffectState { counter: 7, aux: 42 };
    complex::rainbow_fireworks(&mut pixels, &mut state, &params());
    assert!(pixels.is_empty());
    assert_eq!(state.counter, 7);
    assert_eq!(state.aux, next_rand(42));
}

#[test]
fn next_rand_is_one_wyrand_step() {
    // One WyRand step from the seed `state | state << 32` (0xdead_beef for 0),
    // cut to 32 bits.
    assert_eq!(next_rand(42), 335_812_705);
    assert_eq!(next_rand(0), 2_412_355_517);
    assert_eq!(next_rand(1), 1_031_370_279);
}

#[test]
fn scan_bounces_between_the_ends() {
    let mut pixels = vec![B; 4];
    let mut state = EffectState::default();
    let mut positions = Vec::new();
    for _ in 0..8 {
        let at = state.counter as usize;
        Effect::Scan.step(&mut pixels, &mut state, &params());
        assert_eq!(pixels[at], RED);
        assert_eq!((0..4).filter(|&i| pixels[i] == RED).count(), 1);
        positions.push(at);
    }
    assert_eq!(positions, vec![0, 1, 2, 3, 2, 1, 0, 1]);
}

#[test]
fn dual_larson_heads_mirror() {
    let mut pixels = vec![B; 6];
    let mut state = EffectState::default();
    for _ in 0..5 {
        let pos = state.counter as usize;
        Effect::DualLarson.step(&mut pixels, &mut state, &params());
        assert_eq!(pixels[pos], RED);
        assert_eq!(pixels[5 - pos], BLUE);
    }
}

#[test]
fn block_dissolve_from_index_three_uses_the_first_colour() {
    let mut pixels = vec![B; 6];
    let mut state = EffectState { counter: 0, aux: 3 };
    Effect::BlockDissolve.step(&mut pixels, &mut state, &params());
    let changed: Vec<usize> = (0..6).filter(|&i| pixels[i] != B).collect();
    assert_eq!(changed.len(), 1);
    assert_eq!(pixels[changed[0]], RED);
    assert_eq!(state.aux & 3, 0);
}
