//! What an effect reads on each step.

use vstd::prelude::*;

use crate::pixel::RGB8;
use crate::segment::{EffectConfig, SegmentOptions};
use crate::utils::{color_wheel, wheel_color};

verus! {

/// A 16-entry colour palette that can stand in for the primary colour.
#[derive(Clone, Copy, Debug, PartialEq, Eq)]
pub struct Palette16 {
    pub entries: [RGB8; 16],
}

/// What `color8::color_from_palette16` returns for a palette with `entries`,
/// sampled at `index` and `brightness`, with `LinearBlendNoWrap` when
/// `no_wrap` holds and `LinearBlend` otherwise.
pub uninterp spec fn palette16_color(entries: Seq<RGB8>, index: u8, brightness: u8, no_wrap: bool) -> RGB8;

/// Calls `color8::color_from_palette16` on `palette`; the claim is only that
/// the result is the colour the palette function gives for these arguments.
#[verifier::external_body]
fn sample(palette: &Palette16, position: u8, brightness: u8, no_wrap: bool) -> (color: RGB8)
    ensures
        color == palette16_color(palette.entries@, position, brightness, no_wrap),
{
    let pal = color8::CrgbPalette16(palette.entries.map(|c| color8::Crgb { r: c.r, g: c.g, b: c.b }));
    let blend = if no_wrap {
        color8::ColorBlend::LinearBlendNoWrap
    } else {
        color8::ColorBlend::LinearBlend
    };
    let out = color8::color_from_palette16(&pal, position, brightness, blend);
    RGB8 { r: out.r, g: out.g, b: out.b }
}

/// Everything an effect reads on each step: a superset of [`EffectConfig`]
/// and [`SegmentOptions`].
///
/// Build one with [`Params::new`] and the builder methods, or convert from an
/// [`EffectConfig`].
#[derive(Clone, Copy, Debug, PartialEq, Eq)]
#[non_exhaustive]
pub struct Params {
    /// Up to three colors the effect can use (primary, secondary, background).
    /// With a [`palette`](Self::palette), the palette replaces the primary.
    pub colors: [RGB8; 3],
    /// A palette for the primary color. `None` draws `colors[0]` and the hue
    /// wheel.
    pub palette: Option<Palette16>,
    /// Milliseconds between steps.
    pub speed: u16,
    /// Effect-specific strength, `0`–`255`.
    pub intensity: u8,
    /// Pixel grouping: each drawn pixel covers `2^size` LEDs. Values above 3
    /// are treated as 3.
    pub size: u8,
    /// Draw from the far end of the strip.
    pub reverse: bool,
    /// The caller's clock when this step is drawn, in milliseconds, wrapping.
    pub now_ms: u32,
    /// How fast a time-driven effect moves, `0`–`255`.
    pub rate: u8,
    /// How tightly a wave repeats along the strip, `0`–`255`.
    pub scale: u8,
    /// How much of the strip is lit, from none at `0` to all at `255`.
    pub fill: u8,
    /// Draw the lit part in the primary color alone, not the palette.
    pub one_color: bool,
    /// Length of each stripe, `0`–`255` for 1 to 16 pixels.
    pub width: u8,
    /// Length of each gap between stripes, `0`–`255` for 0 to 15 pixels.
    pub gap: u8,
    /// How deep brightness dips, `0`–`255`.
    pub variation: u8,
    /// Where on the palette an effect's colors start, `0`–`255`.
    pub palette_start: u8,
    /// How far along the palette an effect's colors reach, `0`–`255`.
    pub palette_span: u8,
    /// How far apart on the palette neighbouring pixels are, `0`–`255`.
    pub palette_step: u8,
    /// How far a soft spot or tail reaches, `0`–`255`.
    pub spread: u8,
    /// How many zones an effect divides the strip into, `0`–`255`.
    pub count: u8,
    /// How gradually colors cross over, `0` for a sharp swap to `255` for a
    /// slow fade.
    pub smoothness: u8,
    /// Highlight effects leave their background black, for a caller that
    /// blends the result onto something else.
    pub overlay: bool,
}

/// A setting an effect can read: for callers that map controls of their own
/// onto effects.
#[derive(Clone, Copy, Debug, PartialEq, Eq, Hash, Structural)]
#[non_exhaustive]
pub enum Setting {
    Intensity,
    Rate,
    Scale,
    Fill,
    OneColor,
    Width,
    Gap,
    Variation,
    PaletteStart,
    PaletteSpan,
    PaletteStep,
    Spread,
    Count,
    Smoothness,
}

/// The primary colour's position along the palette for pixel `index` of
/// `len`: the palette spread once from the first pixel to the last.
pub open spec fn spread_position(index: int, len: int) -> u8 {
    if len > 1 {
        let at = if index < len - 1 {
            index
        } else {
            len - 1
        };
        (at * 255 / (len - 1)) as u8
    } else {
        0
    }
}

impl Params {
    /// The intensity at which every effect draws its classic look.
    pub const DEFAULT_INTENSITY: u8 = 128;

    /// The parameters [`Params::new`] builds for `colors`.
    pub open spec fn new_spec(colors: [RGB8; 3]) -> Params {
        Params {
            colors,
            palette: None,
            speed: 200,
            intensity: 128,
            size: 0,
            reverse: false,
            now_ms: 0,
            rate: 128,
            scale: 128,
            fill: 128,
            one_color: false,
            width: 48,
            gap: 48,
            variation: 128,
            palette_start: 0,
            palette_span: 255,
            palette_step: 16,
            spread: 64,
            count: 64,
            smoothness: 128,
            overlay: false,
        }
    }

    /// Default parameters with the given colors: 200 ms steps, default
    /// intensity, no grouping, forward, the clock at zero, and every other
    /// setting at a middle value that draws its effect's classic look.
    pub fn new(colors: [RGB8; 3]) -> (params: Self)
        ensures
            params == Self::new_spec(colors),
    {
        Params {
            colors,
            palette: None,
            speed: 200,
            intensity: Self::DEFAULT_INTENSITY,
            size: 0,
            reverse: false,
            now_ms: 0,
            rate: 128,
            scale: 128,
            fill: 128,
            one_color: false,
            width: 48,
            gap: 48,
            variation: 128,
            palette_start: 0,
            palette_span: 255,
            palette_step: 16,
            spread: 64,
            count: 64,
            smoothness: 128,
            overlay: false,
        }
    }

    /// With `palette` in place of the primary color.
    pub fn palette(self, palette: Palette16) -> (params: Self)
        ensures
            params == (Params { palette: Some(palette), ..self }),
    {
        let mut p = self;
        p.palette = Some(palette);
        p
    }

    /// With `speed` milliseconds between steps.
    pub fn speed(self, speed: u16) -> (params: Self)
        ensures
            params == (Params { speed, ..self }),
    {
        let mut p = self;
        p.speed = speed;
        p
    }

    /// With `intensity`.
    pub fn intensity(self, intensity: u8) -> (params: Self)
        ensures
            params == (Params { intensity, ..self }),
    {
        let mut p = self;
        p.intensity = intensity;
        p
    }

    /// With pixel grouping `size`.
    pub fn size(self, size: u8) -> (params: Self)
        ensures
            params == (Params { size, ..self }),
    {
        let mut p = self;
        p.size = size;
        p
    }

    /// Drawn at `now_ms` on the caller's clock.
    pub fn now_ms(self, now_ms: u32) -> (params: Self)
        ensures
            params == (Params { now_ms, ..self }),
    {
        let mut p = self;
        p.now_ms = now_ms;
        p
    }

    /// Drawn in reverse.
    pub fn reverse(self, reverse: bool) -> (params: Self)
        ensures
            params == (Params { reverse, ..self }),
    {
        let mut p = self;
        p.reverse = reverse;
        p
    }

    /// The parameters with `setting` at `value`.
    pub open spec fn with_spec(self, setting: Setting, value: u8) -> Params {
        match setting {
            Setting::Intensity => Params { intensity: value, ..self },
            Setting::Rate => Params { rate: value, ..self },
            Setting::Scale => Params { scale: value, ..self },
            Setting::Fill => Params { fill: value, ..self },
            Setting::OneColor => Params { one_color: value != 0, ..self },
            Setting::Width => Params { width: value, ..self },
            Setting::Gap => Params { gap: value, ..self },
            Setting::Variation => Params { variation: value, ..self },
            Setting::PaletteStart => Params { palette_start: value, ..self },
            Setting::PaletteSpan => Params { palette_span: value, ..self },
            Setting::PaletteStep => Params { palette_step: value, ..self },
            Setting::Spread => Params { spread: value, ..self },
            Setting::Count => Params { count: value, ..self },
            Setting::Smoothness => Params { smoothness: value, ..self },
        }
    }

    /// With `setting` at `value`; a switch is on for any nonzero value.
    pub fn with(self, setting: Setting, value: u8) -> (params: Self)
        ensures
            params == self.with_spec(setting, value),
    {
        let mut p = self;
        match setting {
            Setting::Intensity => p.intensity = value,
            Setting::Rate => p.rate = value,
            Setting::Scale => p.scale = value,
            Setting::Fill => p.fill = value,
            Setting::OneColor => p.one_color = value != 0,
            Setting::Width => p.width = value,
            Setting::Gap => p.gap = value,
            Setting::Variation => p.variation = value,
            Setting::PaletteStart => p.palette_start = value,
            Setting::PaletteSpan => p.palette_span = value,
            Setting::PaletteStep => p.palette_step = value,
            Setting::Spread => p.spread = value,
            Setting::Count => p.count = value,
            Setting::Smoothness => p.smoothness = value,
        }
        p
    }

    /// The parameters [`Params::from_segment`] builds.
    pub open spec fn from_segment_spec(config: EffectConfig, options: SegmentOptions) -> Params {
        Params {
            speed: config.speed,
            size: options.size,
            reverse: options.reverse,
            ..Self::new_spec(config.colors)
        }
    }

    /// `config` with `options` applied.
    pub fn from_segment(config: &EffectConfig, options: &SegmentOptions) -> (params: Self)
        ensures
            params == Self::from_segment_spec(*config, *options),
    {
        Self::new(config.colors).speed(config.speed).size(options.size).reverse(options.reverse)
    }

    /// The primary colour at `position` along the palette.
    pub open spec fn primary_spec(self, position: u8) -> RGB8 {
        match self.palette {
            Some(palette) => palette16_color(palette.entries@, position, 255, false),
            None => self.colors[0],
        }
    }

    /// The primary color at `position` along the palette, blending from its
    /// last entry back into its first: `colors[0]` without a palette.
    pub fn primary(&self, position: u8) -> (color: RGB8)
        ensures
            color == self.primary_spec(position),
    {
        match &self.palette {
            Some(palette) => sample(palette, position, 255, false),
            None => self.colors[0],
        }
    }

    /// Whether the palette can be spread along a strip of `len` pixels: the
    /// position arithmetic of [`Params::primary_at`] stays within `usize`.
    pub open spec fn fits_palette(self, len: nat) -> bool {
        self.palette is Some && len > 1 ==> (len - 1) * 255 <= usize::MAX
    }

    /// The primary colour of pixel `index` on a strip of `len` pixels.
    pub open spec fn primary_at_spec(self, index: int, len: int) -> RGB8 {
        match self.palette {
            Some(palette) => palette16_color(palette.entries@, spread_position(index, len), 255, true),
            None => self.colors[0],
        }
    }

    /// The primary color of pixel `index` on a strip of `len` pixels: the
    /// palette spread once from the first pixel to the last, or `colors[0]`
    /// without a palette.
    pub fn primary_at(&self, index: usize, len: usize) -> (color: RGB8)
        requires
            self.palette is Some && len > 1 ==> (len - 1) * 255 <= usize::MAX,
        ensures
            color == self.primary_at_spec(index as int, len as int),
    {
        match &self.palette {
            Some(palette) => {
                let position: u8 = if len > 1 {
                    let at = if index < len - 1 {
                        index
                    } else {
                        len - 1
                    };
                    assert(at * 255 <= (len - 1) * 255) by (nonlinear_arith)
                        requires
                            at <= len - 1,
                    ;
                    assert(at * 255 / (len - 1) <= 255) by (nonlinear_arith)
                        requires
                            at <= len - 1,
                            len > 1,
                    ;
                    (at * 255 / (len - 1)) as u8
                } else {
                    0
                };
                sample(palette, position, 255, true)
            },
            None => self.colors[0],
        }
    }

    /// The colour at `position` around the hue wheel, or along the palette.
    pub open spec fn wheel_spec(self, position: u8) -> RGB8 {
        match self.palette {
            Some(palette) => palette16_color(palette.entries@, position, 255, false),
            None => wheel_color(position),
        }
    }

    /// The color at `position` around the hue wheel, or along the palette
    /// when there is one.
    pub fn wheel(&self, position: u8) -> (color: RGB8)
        ensures
            color == self.wheel_spec(position),
    {
        match &self.palette {
            Some(palette) => sample(palette, position, 255, false),
            None => color_wheel(position),
        }
    }

    /// LEDs covered by each drawn pixel.
    pub open spec fn group_len_spec(self) -> nat {
        if self.size >= 3 {
            8
        } else if self.size == 2 {
            4
        } else if self.size == 1 {
            2
        } else {
            1
        }
    }

    /// LEDs covered by each drawn pixel: `2^size`, with `size` capped at 3.
    pub fn group_len(&self) -> (group: usize)
        ensures
            group == self.group_len_spec(),
    {
        if self.size >= 3 {
            8
        } else if self.size == 2 {
            4
        } else if self.size == 1 {
            2
        } else {
            1
        }
    }
}

impl Default for Params {
    fn default() -> (params: Self)
        ensures
            params == Params::new_spec(EffectConfig::default_spec().colors),
    {
        Params::from(EffectConfig::default())
    }
}

impl From<EffectConfig> for Params {
    fn from(config: EffectConfig) -> (params: Self)
        ensures
            params == Params::from_segment_spec(config, SegmentOptions::default_spec()),
    {
        let options = SegmentOptions::default();
        Self::from_segment(&config, &options)
    }
}

impl<'a> From<&'a EffectConfig> for Params {
    fn from(config: &'a EffectConfig) -> (params: Self)
        ensures
            params == Params::from_segment_spec(*config, SegmentOptions::default_spec()),
    {
        Self::from(*config)
    }
}

impl<'a> vstd::std_specs::convert::FromSpecImpl<&'a EffectConfig> for Params {
    open spec fn obeys_from_spec() -> bool {
        true
    }

    open spec fn from_spec(config: &'a EffectConfig) -> Params {
        Params::from_segment_spec(*config, SegmentOptions::default_spec())
    }
}

impl vstd::std_specs::convert::FromSpecImpl<EffectConfig> for Params {
    open spec fn obeys_from_spec() -> bool {
        true
    }

    open spec fn from_spec(config: EffectConfig) -> Params {
        Params::from_segment_spec(config, SegmentOptions::default_spec())
    }
}

} // verus!
