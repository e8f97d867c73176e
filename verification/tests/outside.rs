use smart_leds_fx::params::{Palette16, Params};
use smart_leds_fx::pixel::RGB8;
use smart_leds_fx::utils::{beatsin8, next_rand, rand_wheel_index, sine8, triwave8};

fn c(r: u8, g: u8, b: u8) -> RGB8 {
    RGB8 { r, g, b }
}

#[test]
fn sine_matches_lib8tion() {
    assert_eq!(sine8(0), 128);
    assert_eq!(sine8(64), 255);
    assert_eq!(sine8(192), 1);
    for x in 0..=255u8 {
        assert_eq!(sine8(x), lib8tion::sin8(x));
    }
}

#[test]
fn triwave_folds() {
    assert_eq!(triwave8(0), 0);
    assert_eq!(triwave8(64), 128);
    assert_eq!(triwave8(127), 254);
    assert_eq!(triwave8(128), 254);
    assert_eq!(triwave8(192), 126);
    assert_eq!(triwave8(255), 0);
}

#[test]
fn beat_matches_lib8tion() {
    for now in [0u32, 500, 1234, 99_999] {
        let v = beatsin8(60, 64, 255, 0, 17, now);
        assert_eq!(v, lib8tion::beatsin8(60, 64, 255, 0, 17, now));
        assert!(v >= 64);
    }
}

#[test]
fn next_rand_seeds_from_state() {
    assert_eq!(next_rand(0), fastrand::Rng::with_seed(0xdead_beef).u32(..));
    let s: u32 = 0x1234_5678;
    let seed = (s as u64) | ((s as u64) << 32);
    assert_eq!(next_rand(s), fastrand::Rng::with_seed(seed).u32(..));
    assert_eq!(next_rand(7), next_rand(7));
}

#[test]
fn wheel_index_is_far_away() {
    let mut rng = 1u32;
    for current in [0u8, 10, 100, 200, 255] {
        let (idx, next) = rand_wheel_index(current, rng);
        let x = (current as i16 - idx as i16).unsigned_abs() as u8;
        let d = x.min(255 - x);
        assert!(d >= 42);
        assert_eq!(idx, next as u8);
        rng = next;
    }
}

fn ramp() -> Palette16 {
    let mut entries = [c(0, 0, 0); 16];
    for (i, e) in entries.iter_mut().enumerate() {
        *e = c((i * 16) as u8, 255 - (i * 16) as u8, 7);
    }
    Palette16 { entries }
}

fn color8_palette(p: &Palette16) -> color8::CrgbPalette16 {
    color8::CrgbPalette16(p.entries.map(|e| color8::Crgb { r: e.r, g: e.g, b: e.b }))
}

#[test]
fn palette_sampling_matches_color8() {
    let pal = ramp();
    let params = Params::new([c(1, 1, 1), c(0, 0, 0), c(0, 0, 0)]).palette(pal);
    assert_eq!(params.primary(0), pal.entries[0]);
    assert_eq!(params.primary(16), pal.entries[1]);
    let theirs = color8_palette(&pal);
    for pos in [3u8, 40, 128, 250] {
        let want = color8::color_from_palette16(&theirs, pos, 255, color8::ColorBlend::LinearBlend);
        assert_eq!(params.primary(pos), c(want.r, want.g, want.b));
        assert_eq!(params.wheel(pos), c(want.r, want.g, want.b));
    }
    // Along a strip of 10 pixels, pixel 9 sits at the end of the palette.
    let want = color8::color_from_palette16(&theirs, 255, 255, color8::ColorBlend::LinearBlendNoWrap);
    assert_eq!(params.primary_at(9, 10), c(want.r, want.g, want.b));
    assert_eq!(params.primary_at(0, 10), pal.entries[0]);
    assert_eq!(params.primary_at(0, 1), pal.entries[0]);
}
