//! Segments of a strip: an effect, its colours and its animation state.

use vstd::prelude::*;

use crate::effect::Effect;
use crate::params::{Palette16, Params};
use crate::pixel::RGB8;

verus! {

/// The animation state an effect carries from one step to the next.
#[derive(Clone, Copy, Debug)]
pub struct EffectState {
    pub counter: u32,
    pub aux: u32,
}

impl EffectState {
    /// The state every effect starts from.
    pub open spec fn start() -> EffectState {
        EffectState { counter: 0, aux: 0 }
    }
}

impl Default for EffectState {
    fn default() -> (state: Self)
        ensures
            state == EffectState::start(),
    {
        EffectState { counter: 0, aux: 0 }
    }
}

/// What a segment's effect is configured with.
#[derive(Clone, Copy, Debug)]
pub struct EffectConfig {
    /// Up to three colors the effect can use (primary, secondary, background).
    pub colors: [RGB8; 3],
    /// Milliseconds between effect steps.
    pub speed: u16,
}

impl EffectConfig {
    /// Red over black, stepping every 200 ms.
    pub open spec fn default_spec() -> EffectConfig {
        EffectConfig {
            colors: [RGB8 { r: 255, g: 0, b: 0 }, RGB8 { r: 0, g: 0, b: 0 }, RGB8 { r: 0, g: 0, b: 0 }],
            speed: 200,
        }
    }
}

impl Default for EffectConfig {
    fn default() -> (config: Self)
        ensures
            config == EffectConfig::default_spec(),
    {
        EffectConfig {
            colors: [RGB8 { r: 255, g: 0, b: 0 }, RGB8 { r: 0, g: 0, b: 0 }, RGB8 { r: 0, g: 0, b: 0 }],
            speed: 200,
        }
    }
}

/// How a segment lays its effect out on the strip.
#[derive(Clone, Copy, Debug)]
pub struct SegmentOptions {
    /// Pixel grouping: each drawn pixel covers `2^size` LEDs.
    pub size: u8,
    /// Draw from the far end of the segment.
    pub reverse: bool,
}

impl SegmentOptions {
    /// No grouping, forward.
    pub open spec fn default_spec() -> SegmentOptions {
        SegmentOptions { size: 0, reverse: false }
    }
}

impl Default for SegmentOptions {
    fn default() -> (options: Self)
        ensures
            options == SegmentOptions::default_spec(),
    {
        SegmentOptions { size: 0, reverse: false }
    }
}

/// A run of the strip animated by one effect.
#[derive(Clone, Copy, Debug)]
pub struct Segment {
    /// First pixel index on the strip (inclusive).
    pub start: usize,
    /// Last pixel index on the strip (inclusive).
    pub stop: usize,
    pub effect: Effect,
    pub config: EffectConfig,
    /// Grouping and direction of the effect on the run.
    pub options: SegmentOptions,
    /// A palette that replaces the primary colour, if any.
    pub palette: Option<Palette16>,
    pub state: EffectState,
    pub last_update: u64,
}

impl Segment {
    /// The segment [`Segment::new`] builds.
    pub open spec fn new_spec(start: usize, stop: usize, effect: Effect) -> Segment {
        Segment {
            start,
            stop,
            effect,
            config: EffectConfig::default_spec(),
            options: SegmentOptions::default_spec(),
            palette: None,
            state: EffectState::start(),
            last_update: 0,
        }
    }

    pub fn new(start: usize, stop: usize, effect: Effect) -> (segment: Self)
        ensures
            segment == Self::new_spec(start, stop, effect),
    {
        Segment {
            start,
            stop,
            effect,
            config: EffectConfig::default(),
            options: SegmentOptions::default(),
            palette: None,
            state: EffectState::default(),
            last_update: 0,
        }
    }

    /// This segment stepping every `speed` milliseconds.
    pub fn speed(self, speed: u16) -> (segment: Self)
        ensures
            segment == (Segment { config: EffectConfig { speed, ..self.config }, ..self }),
    {
        Segment { config: EffectConfig { speed, ..self.config }, ..self }
    }

    /// This segment with `color` as its primary colour.
    pub fn color(self, color: RGB8) -> (segment: Self)
        ensures
            segment == (Segment {
                config: EffectConfig {
                    colors: [color, self.config.colors[1], self.config.colors[2]],
                    ..self.config
                },
                ..self
            }),
    {
        let colors = [color, self.config.colors[1], self.config.colors[2]];
        Segment { config: EffectConfig { colors, ..self.config }, ..self }
    }

    /// This segment drawing `palette` in place of its primary colour.
    pub fn palette(self, palette: Palette16) -> (segment: Self)
        ensures
            segment == (Segment { palette: Some(palette), ..self }),
    {
        Segment { palette: Some(palette), ..self }
    }

    /// This segment laid out with `options`.
    pub fn options(self, options: SegmentOptions) -> (segment: Self)
        ensures
            segment == (Segment { options, ..self }),
    {
        Segment { options, ..self }
    }

    /// The parameters this segment's effect steps with: its colours and
    /// speed, its options and its palette.
    pub open spec fn params_spec(self) -> Params {
        Params { palette: self.palette, ..Params::from_segment_spec(self.config, self.options) }
    }

    /// The parameters this segment's effect steps with.
    pub fn params(&self) -> (params: Params)
        ensures
            params == self.params_spec(),
    {
        let p = Params::from_segment(&self.config, &self.options);
        Params { palette: self.palette, ..p }
    }

    /// Segments are inclusive ranges, so none is empty.
    pub fn is_empty(&self) -> (empty: bool)
        ensures
            !empty,
    {
        false
    }
}

} // verus!
