use smart_leds_fx::params::{Params, Setting};
use smart_leds_fx::pixel::RGB8;
use smart_leds_fx::segment::{EffectConfig, SegmentOptions};
use smart_leds_fx::utils::color_wheel;

fn c(r: u8, g: u8, b: u8) -> RGB8 {
    RGB8 { r, g, b }
}

#[test]
fn new_defaults() {
    let p = Params::new([c(1, 2, 3), c(4, 5, 6), c(7, 8, 9)]);
    assert_eq!(p.colors, [c(1, 2, 3), c(4, 5, 6), c(7, 8, 9)]);
    assert!(p.palette.is_none());
    assert_eq!(p.speed, 200);
    assert_eq!(p.intensity, Params::DEFAULT_INTENSITY);
    assert_eq!(p.intensity, 128);
    assert_eq!(p.size, 0);
    assert!(!p.reverse);
    assert_eq!(p.now_ms, 0);
    assert_eq!((p.rate, p.scale, p.fill), (128, 128, 128));
    assert!(!p.one_color);
    assert_eq!((p.width, p.gap, p.variation), (48, 48, 128));
    assert_eq!((p.palette_start, p.palette_span, p.palette_step), (0, 255, 16));
    assert_eq!((p.spread, p.count, p.smoothness), (64, 64, 128));
    assert!(!p.overlay);
}

#[test]
fn builders_set_one_field() {
    let base = Params::new([c(1, 1, 1); 3]);
    let p = base.speed(50).intensity(7).size(2).now_ms(99).reverse(true);
    assert_eq!(p.speed, 50);
    assert_eq!(p.intensity, 7);
    assert_eq!(p.size, 2);
    assert_eq!(p.now_ms, 99);
    assert!(p.reverse);
    assert_eq!(p.rate, base.rate);
}

#[test]
fn with_sets_each_setting() {
    let p = Params::new([c(0, 0, 0); 3]);
    assert_eq!(p.with(Setting::Intensity, 9).intensity, 9);
    assert_eq!(p.with(Setting::Rate, 9).rate, 9);
    assert_eq!(p.with(Setting::Scale, 9).scale, 9);
    assert_eq!(p.with(Setting::Fill, 9).fill, 9);
    assert!(p.with(Setting::OneColor, 9).one_color);
    assert!(!p.with(Setting::OneColor, 9).with(Setting::OneColor, 0).one_color);
    assert_eq!(p.with(Setting::Width, 9).width, 9);
    assert_eq!(p.with(Setting::Gap, 9).gap, 9);
    assert_eq!(p.with(Setting::Variation, 9).variation, 9);
    assert_eq!(p.with(Setting::PaletteStart, 9).palette_start, 9);
    assert_eq!(p.with(Setting::PaletteSpan, 9).palette_span, 9);
    assert_eq!(p.with(Setting::PaletteStep, 9).palette_step, 9);
    assert_eq!(p.with(Setting::Spread, 9).spread, 9);
    assert_eq!(p.with(Setting::Count, 9).count, 9);
    assert_eq!(p.with(Setting::Smoothness, 9).smoothness, 9);
    // The last value set wins, and different settings commute.
    assert_eq!(p.with(Setting::Rate, 1).with(Setting::Rate, 2), p.with(Setting::Rate, 2));
    assert_eq!(
        p.with(Setting::Rate, 1).with(Setting::Gap, 2),
        p.with(Setting::Gap, 2).with(Setting::Rate, 1)
    );
}

#[test]
fn from_config_and_segment() {
    let config = EffectConfig { colors: [c(9, 9, 9), c(1, 1, 1), c(2, 2, 2)], speed: 33 };
    let p = Params::from(config);
    assert_eq!(p.colors, config.colors);
    assert_eq!(p.speed, 33);
    assert_eq!(p.size, 0);
    assert!(!p.reverse);
    assert_eq!(Params::from(&config), p);
    let options = SegmentOptions { size: 3, reverse: true };
    let q = Params::from_segment(&config, &options);
    assert_eq!(q.size, 3);
    assert!(q.reverse);
    assert_eq!(q.speed, 33);
}

#[test]
fn defaults_match_config_default() {
    let d = Params::default();
    let e = EffectConfig::default();
    assert_eq!(d.colors, e.colors);
    assert_eq!(e.colors, [c(255, 0, 0), c(0, 0, 0), c(0, 0, 0)]);
    assert_eq!(e.speed, 200);
    let o = SegmentOptions::default();
    assert_eq!((o.size, o.reverse), (0, false));
}

#[test]
fn group_lengths() {
    let p = Params::new([c(0, 0, 0); 3]);
    assert_eq!(p.group_len(), 1);
    assert_eq!(p.size(1).group_len(), 2);
    assert_eq!(p.size(2).group_len(), 4);
    assert_eq!(p.size(3).group_len(), 8);
    assert_eq!(p.size(200).group_len(), 8);
}

#[test]
fn no_palette_draws_primary_and_wheel() {
    let p = Params::new([c(5, 6, 7), c(0, 0, 0), c(0, 0, 0)]);
    assert_eq!(p.primary(77), c(5, 6, 7));
    assert_eq!(p.primary_at(3, 10), c(5, 6, 7));
    assert_eq!(p.wheel(77), color_wheel(77));
}
