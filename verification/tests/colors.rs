use smart_leds_fx::effect::Effect;
use smart_leds_fx::params::Params;
use smart_leds_fx::pixel::{Pixel, RGB8};
use smart_leds_fx::segment::EffectState;
use smart_leds_fx::utils::{
    black, blue, color_blend, color_is_black, color_wheel, dim, green, orange, purple, red, rgb,
    scaled, white,
};

fn c(r: u8, g: u8, b: u8) -> RGB8 {
    RGB8 { r, g, b }
}

#[test]
fn named_colors() {
    assert_eq!(black(), c(0, 0, 0));
    assert_eq!(white(), c(255, 255, 255));
    assert_eq!(red(), c(255, 0, 0));
    assert_eq!(green(), c(0, 255, 0));
    assert_eq!(blue(), c(0, 0, 255));
    assert_eq!(purple(), c(128, 0, 128));
    assert_eq!(orange(), c(255, 165, 0));
    assert_eq!(rgb(1, 2, 3), c(1, 2, 3));
}

#[test]
fn black_test() {
    assert!(color_is_black(c(0, 0, 0)));
    assert!(!color_is_black(c(0, 0, 1)));
}

#[test]
fn wheel_positions() {
    assert_eq!(color_wheel(0), c(255, 0, 0));
    assert_eq!(color_wheel(85), c(0, 255, 0));
    assert_eq!(color_wheel(170), c(0, 0, 255));
    assert_eq!(color_wheel(255), c(255, 0, 0));
    assert_eq!(color_wheel(64), c(63, 192, 0));
    assert_eq!(color_wheel(128), c(0, 126, 129));
    assert_eq!(color_wheel(192), c(66, 0, 189));
}

#[test]
fn blend_endpoints_and_middle() {
    let a = c(10, 200, 30);
    let b = c(250, 0, 90);
    assert_eq!(color_blend(a, b, 0), a);
    assert_eq!(color_blend(a, b, 255), b);
    // (10*128 + 250*127) / 255 = 129, (200*128)/255 = 100, (30*128 + 90*127)/255 = 59
    assert_eq!(color_blend(a, b, 127), c(129, 100, 59));
}

#[test]
fn dim_levels() {
    let x = c(200, 100, 50);
    assert_eq!(dim(x, 255), x);
    assert_eq!(dim(x, 127), c(100, 50, 25));
    assert_eq!(dim(x, 0), c(0, 0, 0));
}

#[test]
fn scaled_by_intensity() {
    assert_eq!(scaled(100, 128), 100);
    assert_eq!(scaled(100, 64), 50);
    assert_eq!(scaled(200, 255), 255);
    assert_eq!(scaled(0, 255), 0);
}

#[test]
fn pixel_roundtrip() {
    let x = c(1, 2, 3);
    assert_eq!(RGB8::from_rgb8(x).to_rgb8(), x);
}

/// A pixel stored green-first, as some drivers want it.
#[derive(Clone, Copy, Debug, PartialEq)]
struct Grb {
    g: u8,
    r: u8,
    b: u8,
}

impl Pixel for Grb {
    fn shown(self) -> RGB8 {
        self.to_rgb8()
    }

    fn from_rgb8(color: RGB8) -> Self {
        Grb { g: color.g, r: color.r, b: color.b }
    }

    fn to_rgb8(self) -> RGB8 {
        RGB8 { r: self.r, g: self.g, b: self.b }
    }
}

#[test]
fn effects_draw_into_any_pixel_type() {
    let params = Params::new([c(255, 0, 0), c(0, 0, 0), c(0, 0, 0)]);
    let mut plain = vec![c(0, 0, 0); 6];
    let mut grb = vec![Grb { g: 0, r: 0, b: 0 }; 6];
    let mut state = EffectState::default();
    let mut grb_state = EffectState::default();
    for _ in 0..5 {
        Effect::LarsonScanner.step(&mut plain, &mut state, &params);
        Effect::LarsonScanner.step_pixels(&mut grb, &mut grb_state, &params);
        let shown: Vec<RGB8> = grb.iter().map(|p| p.to_rgb8()).collect();
        assert_eq!(shown, plain);
    }
    assert!(grb.iter().any(|p| p.r > 0));
}

#[test]
fn effects_draw_into_color8_pixels() {
    let params = Params::new([c(0, 0, 255), c(10, 0, 0), c(0, 0, 0)]);
    let mut plain = vec![c(0, 0, 0); 5];
    let mut crgb = vec![color8::Crgb::new(0, 0, 0); 5];
    let mut state = EffectState::default();
    let mut crgb_state = EffectState::default();
    for _ in 0..4 {
        Effect::ColorWipe.step(&mut plain, &mut state, &params);
        Effect::ColorWipe.step_pixels(&mut crgb, &mut crgb_state, &params);
        let shown: Vec<RGB8> = crgb.iter().map(|p| p.to_rgb8()).collect();
        assert_eq!(shown, plain);
    }
    assert_eq!(color8::Crgb::from_rgb8(c(1, 2, 3)), color8::Crgb::new(1, 2, 3));
    assert_eq!(color8::Crgb::new(4, 5, 6).to_rgb8(), c(4, 5, 6));
    assert!(crgb.iter().any(|p| p.b == 255));
}
