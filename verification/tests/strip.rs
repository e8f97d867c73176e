use smart_leds_fx::effect::Effect;
use smart_leds_fx::pixel::RGB8;
use smart_leds_fx::segment::{EffectState, Segment, SegmentOptions};
use smart_leds_fx::Ws2812Fx;

const B: RGB8 = RGB8 { r: 0, g: 0, b: 0 };
const RED: RGB8 = RGB8 { r: 255, g: 0, b: 0 };
const GREEN: RGB8 = RGB8 { r: 0, g: 255, b: 0 };

#[test]
fn new_strip_is_dark_with_one_segment() {
    let fx: Ws2812Fx<4> = Ws2812Fx::new(128);
    assert_eq!(fx.segment_count(), 1);
    assert_eq!(fx.iter(), vec![B; 4]);
}

#[test]
fn service_waits_for_the_speed() {
    let mut fx: Ws2812Fx<4> = Ws2812Fx::new(255);
    assert!(!fx.service(0));
    assert!(!fx.service(199));
    assert_eq!(fx.iter(), vec![B; 4]);
    assert!(fx.service(200));
    assert_eq!(fx.iter(), vec![RED; 4]);
    assert!(!fx.service(300));
    assert!(fx.service(400));
}

#[test]
fn brightness_scales_the_output() {
    let mut fx: Ws2812Fx<3> = Ws2812Fx::new(128);
    assert!(fx.service(200));
    assert_eq!(fx.iter(), vec![RGB8 { r: 128, g: 0, b: 0 }; 3]);
    fx.set_brightness(0);
    assert_eq!(fx.iter(), vec![B; 3]);
    fx.set_brightness(255);
    assert_eq!(fx.iter(), vec![RED; 3]);
}

#[test]
fn set_effect_restarts_the_animation() {
    let mut fx: Ws2812Fx<2> = Ws2812Fx::new(255);
    fx.set_effect(0, Effect::Blink);
    fx.set_speed(0, 10);
    assert!(fx.service(10));
    assert_eq!(fx.iter(), vec![RED; 2]);
    assert!(fx.service(20));
    assert_eq!(fx.iter(), vec![B; 2]);
    fx.set_effect(0, Effect::Blink);
    assert!(fx.service(30));
    assert_eq!(fx.iter(), vec![RED; 2]);
    // An index past the segments changes nothing.
    fx.set_effect(5, Effect::Static);
    fx.set_color(5, GREEN);
    fx.set_speed(5, 1);
    assert!(!fx.service(35));
}

#[test]
fn set_color_changes_the_primary() {
    let mut fx: Ws2812Fx<2> = Ws2812Fx::new(255);
    fx.set_color(0, GREEN);
    assert!(fx.service(1000));
    assert_eq!(fx.iter(), vec![GREEN; 2]);
}

#[test]
fn segments_fill_up() {
    let mut fx: Ws2812Fx<6> = Ws2812Fx::new(255);
    for k in 0..9 {
        assert!(fx.add_segment(Segment::new(k % 6, 5, Effect::Static)).is_ok());
    }
    assert_eq!(fx.segment_count(), 10);
    let rejected = fx.add_segment(Segment::new(2, 3, Effect::Blink));
    let s = rejected.err().unwrap();
    assert_eq!((s.start, s.stop, s.effect), (2, 3, Effect::Blink));
    assert_eq!(fx.segment_count(), 10);
}

#[test]
fn segments_render_their_own_range() {
    let mut fx: Ws2812Fx<4> = Ws2812Fx::new(255);
    fx.set_color(0, GREEN);
    assert!(fx.add_segment(Segment::new(2, 3, Effect::Static)).is_ok());
    assert!(fx.service(200));
    assert_eq!(fx.iter(), vec![GREEN, GREEN, RED, RED]);
}

#[test]
fn clock_wrapping_still_services() {
    let mut fx: Ws2812Fx<1> = Ws2812Fx::new(255);
    assert!(fx.service(u64::MAX));
    // Elapsed time wraps: from u64::MAX to 199 is 200 ms.
    assert!(fx.service(199));
    assert!(!fx.service(300));
}

#[test]
fn idle_segments_keep_their_pixels() {
    let mut fx: Ws2812Fx<6> = Ws2812Fx::new(255);
    // The first segment covers LEDs 0..=2 only.
    let mut first = Segment::new(0, 2, Effect::Static);
    first.config.speed = 100;
    assert!(fx.add_segment(Segment::new(3, 5, Effect::Blink)).is_ok());
    assert!(fx.add_segment(first).is_ok());
    assert!(fx.service(200));
    let frame = fx.iter();
    assert_eq!(frame, vec![RED; 6]);
    fx.set_speed(0, 1000);
    fx.set_speed(1, 1000);
    fx.set_color(2, GREEN);
    // Only the first segment is due at 300: LEDs 3..=5 keep their colour.
    assert!(fx.service(300));
    assert_eq!(fx.iter(), vec![GREEN, GREEN, GREEN, RED, RED, RED]);
}

#[test]
fn an_empty_strip_still_services() {
    let mut fx: Ws2812Fx<0> = Ws2812Fx::new(255);
    assert_eq!(fx.segment_count(), 1);
    assert!(fx.service(500));
    assert!(fx.iter().is_empty());
}

#[test]
fn which_segments_fit() {
    assert!(Ws2812Fx::<4>::fits(&Segment::new(2, 9, Effect::Static)));
    assert!(Ws2812Fx::<4>::fits(&Segment::new(4, 9, Effect::Static)));
    assert!(!Ws2812Fx::<4>::fits(&Segment::new(5, 9, Effect::Static)));
    assert!(!Ws2812Fx::<4>::fits(&Segment::new(0, usize::MAX, Effect::Static)));
    let mut s = Segment::new(0, 3, Effect::Fade);
    assert!(Ws2812Fx::<4>::fits(&s));
    s.state.counter = 600;
    assert!(!Ws2812Fx::<4>::fits(&s));
}

#[test]
fn segments_past_the_strip_are_kept_but_not_drawn() {
    let mut fx: Ws2812Fx<4> = Ws2812Fx::new(255);
    assert!(fx.add_segment(Segment::new(6, 9, Effect::Blink)).is_ok());
    assert_eq!(fx.segment_count(), 2);
    fx.set_color(0, GREEN);
    assert!(fx.service(200));
    assert_eq!(fx.iter(), vec![GREEN; 4]);
}

#[test]
fn set_segment_replaces_or_appends() {
    let mut fx: smart_leds_fx::StripFx<6> = smart_leds_fx::StripFx::new(255);
    fx.set_segment(0, Segment::new(0, 2, Effect::Static).speed(50).color(GREEN));
    assert_eq!(fx.segment_count(), 1);
    fx.set_segment(1, Segment::new(3, 5, Effect::Static).speed(100));
    assert_eq!(fx.segment_count(), 2);
    // Past one beyond the last segment nothing is added.
    fx.set_segment(5, Segment::new(0, 5, Effect::Static));
    assert_eq!(fx.segment_count(), 2);
    assert!(fx.service(50));
    assert_eq!(fx.iter(), vec![GREEN, GREEN, GREEN, B, B, B]);
    assert!(fx.service(100));
    assert_eq!(fx.iter(), vec![GREEN, GREEN, GREEN, RED, RED, RED]);
}

#[test]
fn segment_builder_sets_speed_and_color() {
    let segment = Segment::new(0, 9, Effect::Blink).speed(30).color(GREEN);
    assert_eq!(segment.config.speed, 30);
    assert_eq!(segment.config.colors[0], GREEN);
    assert_eq!(segment.config.colors[1], B);
    assert!(!segment.is_empty());
}

#[test]
fn set_palette_replaces_the_primary() {
    let mut fx: Ws2812Fx<3> = Ws2812Fx::new(255);
    let dark = smart_leds_fx::Palette16 { entries: [B; 16] };
    fx.set_palette(0, Some(dark));
    assert!(fx.service(200));
    assert_eq!(fx.iter(), vec![B; 3]);
    fx.set_palette(0, None);
    assert!(fx.service(400));
    assert_eq!(fx.iter(), vec![RED; 3]);
    // A palette on a segment that does not exist changes nothing.
    fx.set_palette(4, Some(dark));
    assert_eq!(fx.segment_count(), 1);
}

#[test]
fn segment_options_group_and_reverse_the_run() {
    let options = SegmentOptions { size: 1, reverse: true };
    let segment = Segment::new(0, 3, Effect::ColorWipe).speed(10).options(options);
    let mut fx: Ws2812Fx<4> = Ws2812Fx::new(255);
    fx.set_segment(0, segment);
    assert!(fx.service(10));

    let mut grouped = vec![B; 4];
    let mut state = EffectState::default();
    Effect::ColorWipe.step(&mut grouped, &mut state, &segment.params());
    assert_eq!(fx.iter(), grouped);

    let mut plain = vec![B; 4];
    let mut plain_state = EffectState::default();
    Effect::ColorWipe.step(&mut plain, &mut plain_state, &Segment::new(0, 3, Effect::ColorWipe).params());
    assert_ne!(grouped, plain);
    assert_eq!(grouped[2], grouped[3]);
    assert_eq!(grouped[0], grouped[1]);
}

#[test]
fn segment_builder_sets_palette() {
    let dark = smart_leds_fx::Palette16 { entries: [B; 16] };
    let segment = Segment::new(0, 9, Effect::Comet).palette(dark);
    assert_eq!(segment.palette, Some(dark));
    assert_eq!(segment.params().palette, Some(dark));
    assert_eq!(Segment::new(0, 9, Effect::Comet).palette, None);
}

#[test]
fn tri_fade_steps_from_the_last_colour_index() {
    let mut fx: Ws2812Fx<3> = Ws2812Fx::new(255);
    let mut segment = Segment::new(0, 2, Effect::TriFade);
    segment.state = EffectState { counter: 0, aux: u32::MAX };
    assert!(Ws2812Fx::<3>::fits(&segment));
    fx.set_segment(0, segment);
    assert!(fx.service(200));
    // u32::MAX % 6 == 3: black, fading toward colors[2], black too.
    assert_eq!(fx.iter(), vec![B; 3]);
}

#[test]
fn an_empty_run_still_steps() {
    let mut fx: Ws2812Fx<3> = Ws2812Fx::new(255);
    let mut segment = Segment::new(3, 5, Effect::Sparkle).speed(10);
    segment.state = EffectState { counter: 100, aux: 1 };
    assert!(Ws2812Fx::<3>::fits(&segment));
    fx.set_segment(0, segment);
    assert!(fx.service(10));
    assert_eq!(fx.iter(), vec![B; 3]);
}
