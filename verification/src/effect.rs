//! The built-in effects and how one step of each is drawn.

use vstd::prelude::*;

use crate::effects::{chase, color, complex, dynamic, fire, motion, rainbow, scanner, spots, twinkle, wave, Frame};
use crate::params::{Params, Setting};
use crate::pixel::{shown_colors, Pixel, RGB8};
use crate::segment::{EffectConfig, EffectState, SegmentOptions};
use crate::utils::{
    black, blue, green, next_rand, next_rand_of, orange, purple, red, rgb_of, white,
};

verus! {

/// A built-in effect.
///
/// New effects may be added in minor releases, so a `match` over effects needs
/// a wildcard arm; [`Effect::iter`] always lists every one.
#[derive(Clone, Copy, Debug, PartialEq, Eq, Structural)]
#[non_exhaustive]
pub enum Effect {
    Static,
    Blink,
    BlinkRainbow,
    Strobe,
    StrobeRainbow,
    Breath,
    Rainbow,
    Fade,
    HyperSparkle,
    MultiStrobe,
    RainbowCycle,
    ColorWipe,
    ColorWipeInv,
    ColorWipeRandom,
    ColorSweepRandom,
    Scan,
    DualScan,
    TricolorChase,
    CircusCombustus,
    TheaterChase,
    TheaterChaseRainbow,
    BicolorChase,
    ChaseColor,
    ChaseBlackout,
    ChaseWhite,
    ChaseRandom,
    ChaseRainbowWhite,
    ChaseRainbow,
    ChaseBlackoutRainbow,
    ChaseFlash,
    ChaseFlashRandom,
    RunningColor,
    RunningRedBlue,
    MerryChristmas,
    Halloween,
    RunningRandom,
    RunningRandom2,
    RunningLights,
    RandomColor,
    SingleDynamic,
    MultiDynamic,
    BlockDissolve,
    Twinkle,
    TwinkleRandom,
    TwinkleFade,
    TwinkleFadeRandom,
    Sparkle,
    FlashSparkle,
    SparkleRandom,
    LarsonScanner,
    Comet,
    DualLarson,
    RainbowLarson,
    MultiComet,
    Fireworks,
    FireworksRandom,
    FireFlicker,
    FireFlickerSoft,
    FireFlickerIntense,
    TwinkleFox,
    Rain,
    Icu,
    FillerUp,
    TriFade,
    Heartbeat,
    RainbowFireworks,
    Sine,
    Bpm,
    Percent,
    Wavesins,
    SolidPattern,
    Saw,
    Bands,
    Stream,
    Stream2,
    Gradient,
    Loading,
    RunningDual,
    Flow,
    Railway,
    TriWipe,
    TwoDots,
    Lightning,
    Spots,
    SpotsFade,
    Glitter,
    SolidGlitter,
    Lake,
    Plasma,
    TwinkleUp,
    SolidPatternTri,
}

/// `params` with `colors` in place of its own.
pub open spec fn recolored(params: Params, colors: [RGB8; 3]) -> Params {
    Params { colors, ..params }
}

/// `params` with `colors` in place of its own and no palette: for effects
/// with colours of their own.
pub open spec fn repainted(params: Params, colors: [RGB8; 3]) -> Params {
    Params { colors, palette: None, ..params }
}

/// How many pixels an effect draws on a strip of `len` LEDs grouped by
/// `group`: one per group, the last group possibly short.
pub open spec fn view_len(len: nat, group: nat) -> nat {
    ((len + group - 1) / (group as int)) as nat
}

/// The strip as an effect sees it: the first LED of each group.
pub open spec fn collapsed(pixels: Seq<RGB8>, group: nat) -> Seq<RGB8> {
    Seq::new(view_len(pixels.len(), group), |i: int| pixels[i * group])
}

/// `pixels` back to front when `reverse` holds.
pub open spec fn flipped(pixels: Seq<RGB8>, reverse: bool) -> Seq<RGB8> {
    if reverse {
        Seq::new(pixels.len(), |i: int| pixels[pixels.len() - 1 - i])
    } else {
        pixels
    }
}

/// `len` LEDs, each showing the drawn pixel of its group.
pub open spec fn spread(view: Seq<RGB8>, group: nat, len: nat) -> Seq<RGB8> {
    Seq::new(len, |j: int| view[j / (group as int)])
}

impl Effect {
    /// Total number of available effects.
    pub open spec fn total() -> nat {
        91
    }

    /// The effect at `index` in definition order.
    pub open spec fn at(index: int) -> Effect {
        if index == 0 {
            Effect::Static
        } else if index == 1 {
            Effect::Blink
        } else if index == 2 {
            Effect::BlinkRainbow
        } else if index == 3 {
            Effect::Strobe
        } else if index == 4 {
            Effect::StrobeRainbow
        } else if index == 5 {
            Effect::Breath
        } else if index == 6 {
            Effect::Rainbow
        } else if index == 7 {
            Effect::Fade
        } else if index == 8 {
            Effect::HyperSparkle
        } else if index == 9 {
            Effect::MultiStrobe
        } else if index == 10 {
            Effect::RainbowCycle
        } else if index == 11 {
            Effect::ColorWipe
        } else if index == 12 {
            Effect::ColorWipeInv
        } else if index == 13 {
            Effect::ColorWipeRandom
        } else if index == 14 {
            Effect::ColorSweepRandom
        } else if index == 15 {
            Effect::Scan
        } else if index == 16 {
            Effect::DualScan
        } else if index == 17 {
            Effect::TricolorChase
        } else if index == 18 {
            Effect::CircusCombustus
        } else if index == 19 {
            Effect::TheaterChase
        } else if index == 20 {
            Effect::TheaterChaseRainbow
        } else if index == 21 {
            Effect::BicolorChase
        } else if index == 22 {
            Effect::ChaseColor
        } else if index == 23 {
            Effect::ChaseBlackout
        } else if index == 24 {
            Effect::ChaseWhite
        } else if index == 25 {
            Effect::ChaseRandom
        } else if index == 26 {
            Effect::ChaseRainbowWhite
        } else if index == 27 {
            Effect::ChaseRainbow
        } else if index == 28 {
            Effect::ChaseBlackoutRainbow
        } else if index == 29 {
            Effect::ChaseFlash
        } else if index == 30 {
            Effect::ChaseFlashRandom
        } else if index == 31 {
            Effect::RunningColor
        } else if index == 32 {
            Effect::RunningRedBlue
        } else if index == 33 {
            Effect::MerryChristmas
        } else if index == 34 {
            Effect::Halloween
        } else if index == 35 {
            Effect::RunningRandom
        } else if index == 36 {
            Effect::RunningRandom2
        } else if index == 37 {
            Effect::RunningLights
        } else if index == 38 {
            Effect::RandomColor
        } else if index == 39 {
            Effect::SingleDynamic
        } else if index == 40 {
            Effect::MultiDynamic
        } else if index == 41 {
            Effect::BlockDissolve
        } else if index == 42 {
            Effect::Twinkle
        } else if index == 43 {
            Effect::TwinkleRandom
        } else if index == 44 {
            Effect::TwinkleFade
        } else if index == 45 {
            Effect::TwinkleFadeRandom
        } else if index == 46 {
            Effect::Sparkle
        } else if index == 47 {
            Effect::FlashSparkle
        } else if index == 48 {
            Effect::SparkleRandom
        } else if index == 49 {
            Effect::LarsonScanner
        } else if index == 50 {
            Effect::Comet
        } else if index == 51 {
            Effect::DualLarson
        } else if index == 52 {
            Effect::RainbowLarson
        } else if index == 53 {
            Effect::MultiComet
        } else if index == 54 {
            Effect::Fireworks
        } else if index == 55 {
            Effect::FireworksRandom
        } else if index == 56 {
            Effect::FireFlicker
        } else if index == 57 {
            Effect::FireFlickerSoft
        } else if index == 58 {
            Effect::FireFlickerIntense
        } else if index == 59 {
            Effect::TwinkleFox
        } else if index == 60 {
            Effect::Rain
        } else if index == 61 {
            Effect::Icu
        } else if index == 62 {
            Effect::FillerUp
        } else if index == 63 {
            Effect::TriFade
        } else if index == 64 {
            Effect::Heartbeat
        } else if index == 65 {
            Effect::RainbowFireworks
        } else if index == 66 {
            Effect::Sine
        } else if index == 67 {
            Effect::Bpm
        } else if index == 68 {
            Effect::Percent
        } else if index == 69 {
            Effect::Wavesins
        } else if index == 70 {
            Effect::SolidPattern
        } else if index == 71 {
            Effect::Saw
        } else if index == 72 {
            Effect::Bands
        } else if index == 73 {
            Effect::Stream
        } else if index == 74 {
            Effect::Stream2
        } else if index == 75 {
            Effect::Gradient
        } else if index == 76 {
            Effect::Loading
        } else if index == 77 {
            Effect::RunningDual
        } else if index == 78 {
            Effect::Flow
        } else if index == 79 {
            Effect::Railway
        } else if index == 80 {
            Effect::TriWipe
        } else if index == 81 {
            Effect::TwoDots
        } else if index == 82 {
            Effect::Lightning
        } else if index == 83 {
            Effect::Spots
        } else if index == 84 {
            Effect::SpotsFade
        } else if index == 85 {
            Effect::Glitter
        } else if index == 86 {
            Effect::SolidGlitter
        } else if index == 87 {
            Effect::Lake
        } else if index == 88 {
            Effect::Plasma
        } else if index == 89 {
            Effect::TwinkleUp
        } else {
            Effect::SolidPatternTri
        }
    }

    /// This effect's place in definition order.
    pub open spec fn index_of(self) -> nat {
        match self {
            Effect::Static => 0,
            Effect::Blink => 1,
            Effect::BlinkRainbow => 2,
            Effect::Strobe => 3,
            Effect::StrobeRainbow => 4,
            Effect::Breath => 5,
            Effect::Rainbow => 6,
            Effect::Fade => 7,
            Effect::HyperSparkle => 8,
            Effect::MultiStrobe => 9,
            Effect::RainbowCycle => 10,
            Effect::ColorWipe => 11,
            Effect::ColorWipeInv => 12,
            Effect::ColorWipeRandom => 13,
            Effect::ColorSweepRandom => 14,
            Effect::Scan => 15,
            Effect::DualScan => 16,
            Effect::TricolorChase => 17,
            Effect::CircusCombustus => 18,
            Effect::TheaterChase => 19,
            Effect::TheaterChaseRainbow => 20,
            Effect::BicolorChase => 21,
            Effect::ChaseColor => 22,
            Effect::ChaseBlackout => 23,
            Effect::ChaseWhite => 24,
            Effect::ChaseRandom => 25,
            Effect::ChaseRainbowWhite => 26,
            Effect::ChaseRainbow => 27,
            Effect::ChaseBlackoutRainbow => 28,
            Effect::ChaseFlash => 29,
            Effect::ChaseFlashRandom => 30,
            Effect::RunningColor => 31,
            Effect::RunningRedBlue => 32,
            Effect::MerryChristmas => 33,
            Effect::Halloween => 34,
            Effect::RunningRandom => 35,
            Effect::RunningRandom2 => 36,
            Effect::RunningLights => 37,
            Effect::RandomColor => 38,
            Effect::SingleDynamic => 39,
            Effect::MultiDynamic => 40,
            Effect::BlockDissolve => 41,
            Effect::Twinkle => 42,
            Effect::TwinkleRandom => 43,
            Effect::TwinkleFade => 44,
            Effect::TwinkleFadeRandom => 45,
            Effect::Sparkle => 46,
            Effect::FlashSparkle => 47,
            Effect::SparkleRandom => 48,
            Effect::LarsonScanner => 49,
            Effect::Comet => 50,
            Effect::DualLarson => 51,
            Effect::RainbowLarson => 52,
            Effect::MultiComet => 53,
            Effect::Fireworks => 54,
            Effect::FireworksRandom => 55,
            Effect::FireFlicker => 56,
            Effect::FireFlickerSoft => 57,
            Effect::FireFlickerIntense => 58,
            Effect::TwinkleFox => 59,
            Effect::Rain => 60,
            Effect::Icu => 61,
            Effect::FillerUp => 62,
            Effect::TriFade => 63,
            Effect::Heartbeat => 64,
            Effect::RainbowFireworks => 65,
            Effect::Sine => 66,
            Effect::Bpm => 67,
            Effect::Percent => 68,
            Effect::Wavesins => 69,
            Effect::SolidPattern => 70,
            Effect::Saw => 71,
            Effect::Bands => 72,
            Effect::Stream => 73,
            Effect::Stream2 => 74,
            Effect::Gradient => 75,
            Effect::Loading => 76,
            Effect::RunningDual => 77,
            Effect::Flow => 78,
            Effect::Railway => 79,
            Effect::TriWipe => 80,
            Effect::TwoDots => 81,
            Effect::Lightning => 82,
            Effect::Spots => 83,
            Effect::SpotsFade => 84,
            Effect::Glitter => 85,
            Effect::SolidGlitter => 86,
            Effect::Lake => 87,
            Effect::Plasma => 88,
            Effect::TwinkleUp => 89,
            Effect::SolidPatternTri => 90,
        }
    }

    /// The effect at `index` in definition order, for `index` below
    /// [`Effect::count`].
    pub fn from_index(index: usize) -> (effect: Effect)
        requires
            index < Self::total(),
        ensures
            effect == Self::at(index as int),
    {
        match index {
            0 => Effect::Static,
            1 => Effect::Blink,
            2 => Effect::BlinkRainbow,
            3 => Effect::Strobe,
            4 => Effect::StrobeRainbow,
            5 => Effect::Breath,
            6 => Effect::Rainbow,
            7 => Effect::Fade,
            8 => Effect::HyperSparkle,
            9 => Effect::MultiStrobe,
            10 => Effect::RainbowCycle,
            11 => Effect::ColorWipe,
            12 => Effect::ColorWipeInv,
            13 => Effect::ColorWipeRandom,
            14 => Effect::ColorSweepRandom,
            15 => Effect::Scan,
            16 => Effect::DualScan,
            17 => Effect::TricolorChase,
            18 => Effect::CircusCombustus,
            19 => Effect::TheaterChase,
            20 => Effect::TheaterChaseRainbow,
            21 => Effect::BicolorChase,
            22 => Effect::ChaseColor,
            23 => Effect::ChaseBlackout,
            24 => Effect::ChaseWhite,
            25 => Effect::ChaseRandom,
            26 => Effect::ChaseRainbowWhite,
            27 => Effect::ChaseRainbow,
            28 => Effect::ChaseBlackoutRainbow,
            29 => Effect::ChaseFlash,
            30 => Effect::ChaseFlashRandom,
            31 => Effect::RunningColor,
            32 => Effect::RunningRedBlue,
            33 => Effect::MerryChristmas,
            34 => Effect::Halloween,
            35 => Effect::RunningRandom,
            36 => Effect::RunningRandom2,
            37 => Effect::RunningLights,
            38 => Effect::RandomColor,
            39 => Effect::SingleDynamic,
            40 => Effect::MultiDynamic,
            41 => Effect::BlockDissolve,
            42 => Effect::Twinkle,
            43 => Effect::TwinkleRandom,
            44 => Effect::TwinkleFade,
            45 => Effect::TwinkleFadeRandom,
            46 => Effect::Sparkle,
            47 => Effect::FlashSparkle,
            48 => Effect::SparkleRandom,
            49 => Effect::LarsonScanner,
            50 => Effect::Comet,
            51 => Effect::DualLarson,
            52 => Effect::RainbowLarson,
            53 => Effect::MultiComet,
            54 => Effect::Fireworks,
            55 => Effect::FireworksRandom,
            56 => Effect::FireFlicker,
            57 => Effect::FireFlickerSoft,
            58 => Effect::FireFlickerIntense,
            59 => Effect::TwinkleFox,
            60 => Effect::Rain,
            61 => Effect::Icu,
            62 => Effect::FillerUp,
            63 => Effect::TriFade,
            64 => Effect::Heartbeat,
            65 => Effect::RainbowFireworks,
            66 => Effect::Sine,
            67 => Effect::Bpm,
            68 => Effect::Percent,
            69 => Effect::Wavesins,
            70 => Effect::SolidPattern,
            71 => Effect::Saw,
            72 => Effect::Bands,
            73 => Effect::Stream,
            74 => Effect::Stream2,
            75 => Effect::Gradient,
            76 => Effect::Loading,
            77 => Effect::RunningDual,
            78 => Effect::Flow,
            79 => Effect::Railway,
            80 => Effect::TriWipe,
            81 => Effect::TwoDots,
            82 => Effect::Lightning,
            83 => Effect::Spots,
            84 => Effect::SpotsFade,
            85 => Effect::Glitter,
            86 => Effect::SolidGlitter,
            87 => Effect::Lake,
            88 => Effect::Plasma,
            89 => Effect::TwinkleUp,
            _ => Effect::SolidPatternTri,
        }
    }

    /// The display name of this effect.
    pub open spec fn display_name(self) -> Seq<char> {
        match self {
            Effect::Static => "Static"@,
            Effect::Blink => "Blink"@,
            Effect::BlinkRainbow => "Blink Rainbow"@,
            Effect::Strobe => "Strobe"@,
            Effect::StrobeRainbow => "Strobe Rainbow"@,
            Effect::Breath => "Breath"@,
            Effect::Rainbow => "Rainbow"@,
            Effect::Fade => "Fade"@,
            Effect::HyperSparkle => "Hyper Sparkle"@,
            Effect::MultiStrobe => "Multi Strobe"@,
            Effect::RainbowCycle => "Rainbow Cycle"@,
            Effect::ColorWipe => "Color Wipe"@,
            Effect::ColorWipeInv => "Color Wipe Inv"@,
            Effect::ColorWipeRandom => "Color Wipe Random"@,
            Effect::ColorSweepRandom => "Color Sweep Random"@,
            Effect::Scan => "Scan"@,
            Effect::DualScan => "Dual Scan"@,
            Effect::TricolorChase => "Tricolor Chase"@,
            Effect::CircusCombustus => "Circus Combustus"@,
            Effect::TheaterChase => "Theater Chase"@,
            Effect::TheaterChaseRainbow => "Theater Chase Rainbow"@,
            Effect::BicolorChase => "Bicolor Chase"@,
            Effect::ChaseColor => "Chase Color"@,
            Effect::ChaseBlackout => "Chase Blackout"@,
            Effect::ChaseWhite => "Chase White"@,
            Effect::ChaseRandom => "Chase Random"@,
            Effect::ChaseRainbowWhite => "Chase Rainbow White"@,
            Effect::ChaseRainbow => "Chase Rainbow"@,
            Effect::ChaseBlackoutRainbow => "Chase Blackout Rainbow"@,
            Effect::ChaseFlash => "Chase Flash"@,
            Effect::ChaseFlashRandom => "Chase Flash Random"@,
            Effect::RunningColor => "Running Color"@,
            Effect::RunningRedBlue => "Running Red Blue"@,
            Effect::MerryChristmas => "Merry Christmas"@,
            Effect::Halloween => "Halloween"@,
            Effect::RunningRandom => "Running Random"@,
            Effect::RunningRandom2 => "Running Random 2"@,
            Effect::RunningLights => "Running Lights"@,
            Effect::RandomColor => "Random Color"@,
            Effect::SingleDynamic => "Single Dynamic"@,
            Effect::MultiDynamic => "Multi Dynamic"@,
            Effect::BlockDissolve => "Block Dissolve"@,
            Effect::Twinkle => "Twinkle"@,
            Effect::TwinkleRandom => "Twinkle Random"@,
            Effect::TwinkleFade => "Twinkle Fade"@,
            Effect::TwinkleFadeRandom => "Twinkle Fade Random"@,
            Effect::Sparkle => "Sparkle"@,
            Effect::FlashSparkle => "Flash Sparkle"@,
            Effect::SparkleRandom => "Sparkle Random"@,
            Effect::LarsonScanner => "Larson Scanner"@,
            Effect::Comet => "Comet"@,
            Effect::DualLarson => "Dual Larson"@,
            Effect::RainbowLarson => "Rainbow Larson"@,
            Effect::MultiComet => "Multi Comet"@,
            Effect::Fireworks => "Fireworks"@,
            Effect::FireworksRandom => "Fireworks Random"@,
            Effect::FireFlicker => "Fire Flicker"@,
            Effect::FireFlickerSoft => "Fire Flicker (Soft)"@,
            Effect::FireFlickerIntense => "Fire Flicker (Intense)"@,
            Effect::TwinkleFox => "TwinkleFOX"@,
            Effect::Rain => "Rain"@,
            Effect::Icu => "ICU"@,
            Effect::FillerUp => "Filler Up"@,
            Effect::TriFade => "Tri Fade"@,
            Effect::Heartbeat => "Heartbeat"@,
            Effect::RainbowFireworks => "Rainbow Fireworks"@,
            Effect::Sine => "Sine"@,
            Effect::Bpm => "Bpm"@,
            Effect::Percent => "Percent"@,
            Effect::Wavesins => "Wavesins"@,
            Effect::SolidPattern => "Solid Pattern"@,
            Effect::Saw => "Saw"@,
            Effect::Bands => "Bands"@,
            Effect::Stream => "Stream"@,
            Effect::Stream2 => "Stream 2"@,
            Effect::Gradient => "Gradient"@,
            Effect::Loading => "Loading"@,
            Effect::RunningDual => "Running Dual"@,
            Effect::Flow => "Flow"@,
            Effect::Railway => "Railway"@,
            Effect::TriWipe => "Tri Wipe"@,
            Effect::TwoDots => "Two Dots"@,
            Effect::Lightning => "Lightning"@,
            Effect::Spots => "Spots"@,
            Effect::SpotsFade => "Spots Fade"@,
            Effect::Glitter => "Glitter"@,
            Effect::SolidGlitter => "Solid Glitter"@,
            Effect::Lake => "Lake"@,
            Effect::Plasma => "Plasma"@,
            Effect::TwinkleUp => "Twinkle Up"@,
            Effect::SolidPatternTri => "Solid Pattern Tri"@,
        }
    }

    /// Human-readable name for display or debugging.
    pub fn name(self) -> (name: &'static str)
        ensures
            name@ == self.display_name(),
    {
        match self {
            Effect::Static => "Static",
            Effect::Blink => "Blink",
            Effect::BlinkRainbow => "Blink Rainbow",
            Effect::Strobe => "Strobe",
            Effect::StrobeRainbow => "Strobe Rainbow",
            Effect::Breath => "Breath",
            Effect::Rainbow => "Rainbow",
            Effect::Fade => "Fade",
            Effect::HyperSparkle => "Hyper Sparkle",
            Effect::MultiStrobe => "Multi Strobe",
            Effect::RainbowCycle => "Rainbow Cycle",
            Effect::ColorWipe => "Color Wipe",
            Effect::ColorWipeInv => "Color Wipe Inv",
            Effect::ColorWipeRandom => "Color Wipe Random",
            Effect::ColorSweepRandom => "Color Sweep Random",
            Effect::Scan => "Scan",
            Effect::DualScan => "Dual Scan",
            Effect::TricolorChase => "Tricolor Chase",
            Effect::CircusCombustus => "Circus Combustus",
            Effect::TheaterChase => "Theater Chase",
            Effect::TheaterChaseRainbow => "Theater Chase Rainbow",
            Effect::BicolorChase => "Bicolor Chase",
            Effect::ChaseColor => "Chase Color",
            Effect::ChaseBlackout => "Chase Blackout",
            Effect::ChaseWhite => "Chase White",
            Effect::ChaseRandom => "Chase Random",
            Effect::ChaseRainbowWhite => "Chase Rainbow White",
            Effect::ChaseRainbow => "Chase Rainbow",
            Effect::ChaseBlackoutRainbow => "Chase Blackout Rainbow",
            Effect::ChaseFlash => "Chase Flash",
            Effect::ChaseFlashRandom => "Chase Flash Random",
            Effect::RunningColor => "Running Color",
            Effect::RunningRedBlue => "Running Red Blue",
            Effect::MerryChristmas => "Merry Christmas",
            Effect::Halloween => "Halloween",
            Effect::RunningRandom => "Running Random",
            Effect::RunningRandom2 => "Running Random 2",
            Effect::RunningLights => "Running Lights",
            Effect::RandomColor => "Random Color",
            Effect::SingleDynamic => "Single Dynamic",
            Effect::MultiDynamic => "Multi Dynamic",
            Effect::BlockDissolve => "Block Dissolve",
            Effect::Twinkle => "Twinkle",
            Effect::TwinkleRandom => "Twinkle Random",
            Effect::TwinkleFade => "Twinkle Fade",
            Effect::TwinkleFadeRandom => "Twinkle Fade Random",
            Effect::Sparkle => "Sparkle",
            Effect::FlashSparkle => "Flash Sparkle",
            Effect::SparkleRandom => "Sparkle Random",
            Effect::LarsonScanner => "Larson Scanner",
            Effect::Comet => "Comet",
            Effect::DualLarson => "Dual Larson",
            Effect::RainbowLarson => "Rainbow Larson",
            Effect::MultiComet => "Multi Comet",
            Effect::Fireworks => "Fireworks",
            Effect::FireworksRandom => "Fireworks Random",
            Effect::FireFlicker => "Fire Flicker",
            Effect::FireFlickerSoft => "Fire Flicker (Soft)",
            Effect::FireFlickerIntense => "Fire Flicker (Intense)",
            Effect::TwinkleFox => "TwinkleFOX",
            Effect::Rain => "Rain",
            Effect::Icu => "ICU",
            Effect::FillerUp => "Filler Up",
            Effect::TriFade => "Tri Fade",
            Effect::Heartbeat => "Heartbeat",
            Effect::RainbowFireworks => "Rainbow Fireworks",
            Effect::Sine => "Sine",
            Effect::Bpm => "Bpm",
            Effect::Percent => "Percent",
            Effect::Wavesins => "Wavesins",
            Effect::SolidPattern => "Solid Pattern",
            Effect::Saw => "Saw",
            Effect::Bands => "Bands",
            Effect::Stream => "Stream",
            Effect::Stream2 => "Stream 2",
            Effect::Gradient => "Gradient",
            Effect::Loading => "Loading",
            Effect::RunningDual => "Running Dual",
            Effect::Flow => "Flow",
            Effect::Railway => "Railway",
            Effect::TriWipe => "Tri Wipe",
            Effect::TwoDots => "Two Dots",
            Effect::Lightning => "Lightning",
            Effect::Spots => "Spots",
            Effect::SpotsFade => "Spots Fade",
            Effect::Glitter => "Glitter",
            Effect::SolidGlitter => "Solid Glitter",
            Effect::Lake => "Lake",
            Effect::Plasma => "Plasma",
            Effect::TwinkleUp => "Twinkle Up",
            Effect::SolidPatternTri => "Solid Pattern Tri",
        }
    }

    /// Total number of available effects.
    pub fn count() -> (n: usize)
        ensures
            n == Self::total(),
    {
        91
    }

    /// Every effect variant, in definition order.
    pub open spec fn all() -> Seq<Effect> {
        Seq::new(Self::total(), |i: int| Self::at(i))
    }

    /// Every effect variant, in definition order.
    pub fn iter() -> (effects: Vec<Effect>)
        ensures
            effects@ == Self::all(),
    {
        let mut effects: Vec<Effect> = Vec::new();
        let mut i: usize = 0;
        while i < 91
            invariant
                i <= 91,
                effects@.len() == i,
                forall|j: int| 0 <= j < i ==> effects@[j] == Self::at(j),
            decreases 91 - i,
        {
            effects.push(Self::from_index(i));
            i = i + 1;
        }
        assert(effects@ =~= Self::all());
        effects
    }

    /// The settings this effect reads, beyond its colors, palette, grouping,
    /// direction and — for time-driven effects — the clock.
    pub open spec fn settings_spec(self) -> Seq<Setting> {
        match self {
            Effect::Strobe | Effect::StrobeRainbow | Effect::HyperSparkle | Effect::RainbowCycle | Effect::TwinkleFade | Effect::TwinkleFadeRandom | Effect::LarsonScanner | Effect::Comet | Effect::DualLarson | Effect::RainbowLarson | Effect::MultiComet | Effect::Fireworks | Effect::FireworksRandom | Effect::FireFlicker | Effect::FireFlickerSoft | Effect::FireFlickerIntense | Effect::Rain | Effect::Heartbeat => seq![Setting::Intensity],
            Effect::Sine => seq![Setting::Rate, Setting::Scale],
            Effect::Bpm => seq![Setting::Rate],
            Effect::Percent => seq![Setting::Fill, Setting::OneColor],
            Effect::Wavesins => seq![Setting::Rate, Setting::Variation, Setting::PaletteStart, Setting::PaletteSpan, Setting::PaletteStep],
            Effect::SolidPattern => seq![Setting::Width, Setting::Gap],
            Effect::Saw => seq![Setting::Rate, Setting::Width],
            Effect::Bands => seq![Setting::Rate, Setting::Width],
            Effect::Stream => seq![Setting::Rate, Setting::Width],
            Effect::Stream2 => seq![Setting::Rate],
            Effect::Gradient => seq![Setting::Rate, Setting::Spread],
            Effect::Loading => seq![Setting::Rate, Setting::Spread],
            Effect::RunningDual => seq![Setting::Rate, Setting::Scale],
            Effect::Flow => seq![Setting::Rate, Setting::Count],
            Effect::Railway => seq![Setting::Rate, Setting::Smoothness],
            Effect::TwoDots => seq![Setting::Rate, Setting::Width],
            Effect::Lightning => seq![Setting::Rate, Setting::Intensity],
            Effect::Spots => seq![Setting::Spread, Setting::Width],
            Effect::SpotsFade => seq![Setting::Spread, Setting::Width],
            Effect::Glitter => seq![Setting::Rate, Setting::Intensity],
            Effect::SolidGlitter => seq![Setting::Intensity],
            Effect::Lake => seq![Setting::Rate],
            Effect::Plasma => seq![Setting::Rate, Setting::Scale],
            Effect::TwinkleUp => seq![Setting::Rate, Setting::Intensity],
            Effect::SolidPatternTri => seq![Setting::Width],
            _ => Seq::empty(),
        }
    }

    /// The settings this effect reads, beyond its colors, palette, grouping,
    /// direction and — for time-driven effects — the clock.
    ///
    /// For callers that map controls of their own onto effects: a control
    /// mapped to a setting not listed here changes nothing.
    pub fn settings(self) -> (settings: Vec<Setting>)
        ensures
            settings@ == self.settings_spec(),
    {
        match self {
            Effect::Strobe | Effect::StrobeRainbow | Effect::HyperSparkle | Effect::RainbowCycle | Effect::TwinkleFade | Effect::TwinkleFadeRandom | Effect::LarsonScanner | Effect::Comet | Effect::DualLarson | Effect::RainbowLarson | Effect::MultiComet | Effect::Fireworks | Effect::FireworksRandom | Effect::FireFlicker | Effect::FireFlickerSoft | Effect::FireFlickerIntense | Effect::Rain | Effect::Heartbeat => vec![Setting::Intensity],
            Effect::Sine => vec![Setting::Rate, Setting::Scale],
            Effect::Bpm => vec![Setting::Rate],
            Effect::Percent => vec![Setting::Fill, Setting::OneColor],
            Effect::Wavesins => vec![Setting::Rate, Setting::Variation, Setting::PaletteStart, Setting::PaletteSpan, Setting::PaletteStep],
            Effect::SolidPattern => vec![Setting::Width, Setting::Gap],
            Effect::Saw => vec![Setting::Rate, Setting::Width],
            Effect::Bands => vec![Setting::Rate, Setting::Width],
            Effect::Stream => vec![Setting::Rate, Setting::Width],
            Effect::Stream2 => vec![Setting::Rate],
            Effect::Gradient => vec![Setting::Rate, Setting::Spread],
            Effect::Loading => vec![Setting::Rate, Setting::Spread],
            Effect::RunningDual => vec![Setting::Rate, Setting::Scale],
            Effect::Flow => vec![Setting::Rate, Setting::Count],
            Effect::Railway => vec![Setting::Rate, Setting::Smoothness],
            Effect::TwoDots => vec![Setting::Rate, Setting::Width],
            Effect::Lightning => vec![Setting::Rate, Setting::Intensity],
            Effect::Spots => vec![Setting::Spread, Setting::Width],
            Effect::SpotsFade => vec![Setting::Spread, Setting::Width],
            Effect::Glitter => vec![Setting::Rate, Setting::Intensity],
            Effect::SolidGlitter => vec![Setting::Intensity],
            Effect::Lake => vec![Setting::Rate],
            Effect::Plasma => vec![Setting::Rate, Setting::Scale],
            Effect::TwinkleUp => vec![Setting::Rate, Setting::Intensity],
            Effect::SolidPatternTri => vec![Setting::Width],
            _ => Vec::new(),
        }
    }

    /// Whether this effect follows [`Params::palette`]. Effects with fixed
    /// colours of their own, those whose colours are random RGB and those
    /// that draw their own colours ignore it.
    pub open spec fn follows_palette(self) -> bool {
        !(self == Effect::CircusCombustus || self == Effect::ChaseWhite || self
            == Effect::RunningRedBlue || self == Effect::MerryChristmas || self
            == Effect::Halloween || self == Effect::RainbowFireworks || self
            == Effect::RunningRandom2 || self == Effect::Stream2 || self
            == Effect::SolidPatternTri || self == Effect::SolidGlitter)
    }

    /// Whether this effect follows a palette given in its [`Params`].
    pub fn uses_palette(self) -> (uses: bool)
        ensures
            uses == self.follows_palette(),
    {
        match self {
            Effect::CircusCombustus | Effect::ChaseWhite | Effect::RunningRedBlue
            | Effect::MerryChristmas | Effect::Halloween | Effect::RainbowFireworks
            | Effect::RunningRandom2 | Effect::Stream2 | Effect::SolidPatternTri
            | Effect::SolidGlitter => false,
            _ => true,
        }
    }

    /// The states this effect can step from on a strip of `len` drawn
    /// pixels: those on which its arithmetic stays in range. Every state it
    /// steps to is one of them again.
    pub open spec fn accepts(self, state: EffectState, len: nat) -> bool {
        match self {
            Effect::Fade => color::fade_accepts(state),
            Effect::Strobe => color::strobe_accepts(state),
            Effect::StrobeRainbow => color::strobe_rainbow_accepts(state),
            Effect::MultiStrobe => color::multi_strobe_accepts(state),
            Effect::Scan => chase::scan_accepts(state),
            Effect::DualScan => chase::scan_accepts(state),
            Effect::DualLarson => scanner::larson_accepts(state),
            Effect::RainbowLarson => scanner::larson_accepts(state),
            Effect::Sparkle => twinkle::sparkle_accepts(state, len),
            Effect::FlashSparkle => twinkle::sparkle_accepts(state, len),
            Effect::SparkleRandom => twinkle::sparkle_random_accepts(state, len),
            Effect::Heartbeat => complex::heartbeat_accepts(state),
            _ => true,
        }
    }

    /// Whether this effect can step from `state` on a strip of `len` drawn
    /// pixels: for callers that build a state of their own.
    pub fn can_step_from(self, state: EffectState, len: usize) -> (ok: bool)
        ensures
            ok == self.accepts(state, len as nat),
    {
        match self {
            Effect::Fade => (state.counter as u16) <= 511 && state.counter <= u32::MAX - 4,
            Effect::Strobe | Effect::MultiStrobe | Effect::Heartbeat => state.counter < u32::MAX,
            Effect::StrobeRainbow => state.counter < u32::MAX,
            Effect::Scan | Effect::DualScan => state.aux != 0 || state.counter < u32::MAX,
            Effect::DualLarson | Effect::RainbowLarson => state.aux & 1 != 0 || state.counter < u32::MAX,
            Effect::Sparkle | Effect::FlashSparkle => state.aux == 0 || (state.counter as usize) < len,
            Effect::SparkleRandom => state.counter == 0 || (((state.aux >> 8u32) & 0xFF) as usize) < len,
            _ => true,
        }
    }

    /// The strips of `len` drawn pixels this effect can draw on with
    /// `params`: those on which its arithmetic stays within its integer types.
    pub open spec fn len_ok(self, len: nat, params: Params) -> bool {
        &&& params.fits_palette(len)
        &&& match self {
            Effect::RainbowCycle => len <= u32::MAX && (len > 0 ==> (len - 1) * (2 * params.intensity) <= u32::MAX),
            Effect::Scan | Effect::DualLarson | Effect::RainbowLarson => len <= 0x1_0000_0000,
            Effect::DualScan => len <= 0x1_FFFF_FFFF,
            Effect::ColorSweepRandom => len < 0x8000_0000,
            Effect::HyperSparkle | Effect::RainbowFireworks | Effect::BlockDissolve => len <= u32::MAX,
            Effect::Twinkle | Effect::TwinkleRandom | Effect::TwinkleFade | Effect::TwinkleFadeRandom | Effect::Sparkle | Effect::FlashSparkle | Effect::SparkleRandom | Effect::SingleDynamic | Effect::Rain | Effect::Icu | Effect::MultiComet | Effect::Fireworks | Effect::FireworksRandom => len <= u32::MAX,
            Effect::Saw | Effect::Bands | Effect::Stream | Effect::Stream2 | Effect::Spots | Effect::SpotsFade => len <= u32::MAX,
            Effect::LarsonScanner | Effect::ColorWipe | Effect::ColorWipeInv | Effect::ColorWipeRandom | Effect::TwoDots | Effect::Lightning => len * 2 <= usize::MAX,
            Effect::Percent => len * 255 + 127 <= usize::MAX,
            Effect::Gradient | Effect::Loading | Effect::Flow | Effect::Glitter | Effect::SolidGlitter => len * 255 <= usize::MAX,
            Effect::ChaseFlashRandom => len < 0x4000_0000,
            Effect::TriWipe => len * 3 <= usize::MAX,
            Effect::Bpm | Effect::ChaseRainbowWhite => len > 0 ==> (len - 1) * 256 <= usize::MAX,
            _ => true,
        }
    }

    /// Whether this effect can draw on a strip of `len` pixels with
    /// `params`: for callers that build a strip of their own.
    pub fn can_draw_on(self, len: usize, params: &Params) -> (ok: bool)
        ensures
            ok == self.len_ok(len as nat, *params),
    {
        let palette_ok = params.palette.is_none() || len <= 1 || (len - 1) <= usize::MAX / 255;
        proof {
            if len > 1 {
                let m = usize::MAX as int;
                assert(((len - 1) <= m / 255) == ((len - 1) * 255 <= m)) by (nonlinear_arith)
                    requires
                        len >= 2,
                        m > 0,
                ;
            }
        }
        proof {
            let m = usize::MAX as int;
            assert((len <= m / 2) == (len * 2 <= m)) by (nonlinear_arith)
                requires
                    m > 0,
                    len >= 0,
            ;
            assert((len <= m / 255) == (len * 255 <= m)) by (nonlinear_arith)
                requires
                    m > 0,
                    len >= 0,
            ;
            assert((len <= m / 3) == (len * 3 <= m)) by (nonlinear_arith)
                requires
                    m > 0,
                    len >= 0,
            ;
            assert((len <= (m - 127) / 255) == (len * 255 + 127 <= m)) by (nonlinear_arith)
                requires
                    m > 127,
                    len >= 0,
            ;
            if len > 0 {
                assert((len - 1 <= m / 256) == ((len - 1) * 256 <= m)) by (nonlinear_arith)
                    requires
                        m > 0,
                        len >= 1,
                ;
            }
        }
        let bound_ok = match self {
            Effect::RainbowCycle => {
                if (len as u64) > 0xFFFF_FFFF {
                    false
                } else if len == 0 {
                    true
                } else {
                    let span = 2 * (params.intensity as u64);
                    let last = (len - 1) as u64;
                    assert(last * span <= 0xFFFF_FFFF * 510) by (nonlinear_arith)
                        requires
                            last <= 0xFFFF_FFFF,
                            span <= 510,
                    ;
                    last * span <= 0xFFFF_FFFF
                }
            },
            Effect::Scan | Effect::DualLarson | Effect::RainbowLarson => (len as u64) <= 0x1_0000_0000,
            Effect::DualScan => (len as u64) <= 0x1_FFFF_FFFF,
            Effect::ColorSweepRandom => len < 0x8000_0000,
            Effect::HyperSparkle | Effect::RainbowFireworks | Effect::BlockDissolve => (len as u64) <= 0xFFFF_FFFF,
            Effect::Twinkle | Effect::TwinkleRandom | Effect::TwinkleFade | Effect::TwinkleFadeRandom | Effect::Sparkle | Effect::FlashSparkle | Effect::SparkleRandom | Effect::SingleDynamic | Effect::Rain | Effect::Icu | Effect::MultiComet | Effect::Fireworks | Effect::FireworksRandom => (len as u64) <= 0xFFFF_FFFF,
            Effect::Saw | Effect::Bands | Effect::Stream | Effect::Stream2 | Effect::Spots | Effect::SpotsFade => (len as u64) <= 0xFFFF_FFFF,
            Effect::LarsonScanner | Effect::ColorWipe | Effect::ColorWipeInv | Effect::ColorWipeRandom | Effect::TwoDots | Effect::Lightning => len <= usize::MAX / 2,
            Effect::Percent => len <= (usize::MAX - 127) / 255,
            Effect::Gradient | Effect::Loading | Effect::Flow | Effect::Glitter | Effect::SolidGlitter => len <= usize::MAX / 255,
            Effect::ChaseFlashRandom => len < 0x4000_0000,
            Effect::TriWipe => len <= usize::MAX / 3,
            Effect::Bpm | Effect::ChaseRainbowWhite => len == 0 || len - 1 <= usize::MAX / 256,
            _ => true,
        };
        palette_ok && bound_ok
    }

    /// One step of this effect on the strip as it sees it.
    pub open spec fn draw_frame(self, pixels: Seq<RGB8>, state: EffectState, params: Params) -> Frame {
        match self {
            Effect::Static => color::static_frame(pixels, state, params),
            Effect::Blink => color::blink_frame(pixels, state, params),
            Effect::BlinkRainbow => color::blink_rainbow_frame(pixels, state, params),
            Effect::Strobe => color::strobe_frame(pixels, state, params),
            Effect::StrobeRainbow => color::strobe_rainbow_frame(pixels, state, params),
            Effect::Breath => color::breath_frame(pixels, state, params),
            Effect::Rainbow => color::rainbow_frame(pixels, state, params),
            Effect::Fade => color::fade_frame(pixels, state, params),
            Effect::HyperSparkle => color::hyper_sparkle_frame(pixels, state, params),
            Effect::MultiStrobe => color::multi_strobe_frame(pixels, state, params),
            Effect::RainbowCycle => rainbow::rainbow_cycle_frame(pixels, state, params),
            Effect::ColorWipe => chase::color_wipe_frame(pixels, state, params),
            Effect::ColorWipeInv => chase::color_wipe_inv_frame(pixels, state, params),
            Effect::ColorWipeRandom => chase::color_wipe_random_frame(pixels, state, params),
            Effect::ColorSweepRandom => chase::color_sweep_random_frame(pixels, state, params),
            Effect::Scan => chase::scan_frame(pixels, state, params),
            Effect::DualScan => chase::dual_scan_frame(pixels, state, params),
            Effect::TricolorChase => chase::tricolor_chase_frame(pixels, state, params),
            Effect::CircusCombustus => chase::tricolor_chase_frame(pixels, state, repainted(params, [rgb_of(255, 0, 0), rgb_of(255, 255, 255), rgb_of(0, 0, 0)])),
            Effect::TheaterChase => chase::tricolor_chase_frame(pixels, state, recolored(params, [params.colors[0], params.colors[1], params.colors[1]])),
            Effect::TheaterChaseRainbow => chase::theater_chase_rainbow_frame(pixels, state, params),
            Effect::BicolorChase => chase::chase_frame(pixels, state, params),
            Effect::ChaseColor => chase::chase_frame(pixels, state, recolored(params, [params.colors[0], rgb_of(255, 255, 255), rgb_of(255, 255, 255)])),
            Effect::ChaseBlackout => chase::chase_frame(pixels, state, recolored(params, [params.colors[0], rgb_of(0, 0, 0), rgb_of(0, 0, 0)])),
            Effect::ChaseWhite => chase::chase_frame(pixels, state, repainted(params, [rgb_of(255, 255, 255), params.colors[0], params.colors[0]])),
            Effect::ChaseRandom => chase::chase_random_frame(pixels, state, params),
            Effect::ChaseRainbowWhite => chase::chase_rainbow_white_frame(pixels, state, params),
            Effect::ChaseRainbow => chase::chase_rainbow_frame(pixels, state, params),
            Effect::ChaseBlackoutRainbow => chase::chase_blackout_rainbow_frame(pixels, state, params),
            Effect::ChaseFlash => chase::chase_flash_frame(pixels, state, recolored(params, [params.colors[0], rgb_of(255, 255, 255), params.colors[2]])),
            Effect::ChaseFlashRandom => chase::chase_flash_random_frame(pixels, state, params),
            Effect::RunningColor => chase::running_frame(pixels, state, params),
            Effect::RunningRedBlue => chase::running_frame(pixels, state, repainted(params, [rgb_of(255, 0, 0), rgb_of(0, 0, 255), rgb_of(0, 0, 0)])),
            Effect::MerryChristmas => chase::running_frame(pixels, state, repainted(params, [rgb_of(255, 0, 0), rgb_of(0, 255, 0), rgb_of(0, 0, 0)])),
            Effect::Halloween => chase::running_frame(pixels, state, repainted(params, [rgb_of(128, 0, 128), rgb_of(255, 165, 0), rgb_of(0, 0, 0)])),
            Effect::RunningRandom => chase::running_random_frame(pixels, state, params),
            Effect::RunningRandom2 => chase::running_random2_frame(pixels, state, params),
            Effect::RunningLights => dynamic::running_lights_frame(pixels, state, params),
            Effect::RandomColor => dynamic::random_color_frame(pixels, state, params),
            Effect::SingleDynamic => dynamic::single_dynamic_frame(pixels, state, params),
            Effect::MultiDynamic => dynamic::multi_dynamic_frame(pixels, state, params),
            Effect::BlockDissolve => dynamic::block_dissolve_frame(pixels, state, params),
            Effect::Twinkle => twinkle::twinkle_frame(pixels, state, params),
            Effect::TwinkleRandom => twinkle::twinkle_random_frame(pixels, state, params),
            Effect::TwinkleFade => twinkle::twinkle_fade_frame(pixels, state, params),
            Effect::TwinkleFadeRandom => twinkle::twinkle_fade_random_frame(pixels, state, params),
            Effect::Sparkle => twinkle::sparkle_frame(pixels, state, params),
            Effect::FlashSparkle => twinkle::flash_sparkle_frame(pixels, state, params),
            Effect::SparkleRandom => twinkle::sparkle_random_frame(pixels, state, params),
            Effect::LarsonScanner => scanner::larson_scanner_frame(pixels, state, params),
            Effect::Comet => scanner::comet_frame(pixels, state, params),
            Effect::DualLarson => scanner::dual_larson_frame(pixels, state, params),
            Effect::RainbowLarson => scanner::rainbow_larson_frame(pixels, state, params),
            Effect::MultiComet => scanner::multi_comet_frame(pixels, state, params),
            Effect::Fireworks => fire::fireworks_frame(pixels, state, params),
            Effect::FireworksRandom => {
                let rng = next_rand_of(state.aux);
                fire::fireworks_frame(
                    pixels,
                    EffectState { aux: rng, ..state },
                    repainted(params, [params.wheel_spec(rng as u8), params.colors[1], params.colors[2]]),
                )
            },
            Effect::FireFlicker => fire::fire_flicker_intensity_frame(pixels, state, params, 3),
            Effect::FireFlickerSoft => fire::fire_flicker_intensity_frame(pixels, state, params, 6),
            Effect::FireFlickerIntense => fire::fire_flicker_intensity_frame(pixels, state, params, 1),
            Effect::TwinkleFox => complex::twinkle_fox_frame(pixels, state, params),
            Effect::Rain => complex::rain_frame(pixels, state, params),
            Effect::Icu => complex::icu_frame(pixels, state, params),
            Effect::FillerUp => complex::filler_up_frame(pixels, state, params),
            Effect::TriFade => complex::trifade_frame(pixels, state, params),
            Effect::Heartbeat => complex::heartbeat_frame(pixels, state, params),
            Effect::RainbowFireworks => complex::rainbow_fireworks_frame(pixels, state, params),
            Effect::Sine => wave::sine_frame(pixels, state, params),
            Effect::Bpm => wave::bpm_frame(pixels, state, params),
            Effect::Percent => wave::percent_frame(pixels, state, params),
            Effect::Wavesins => wave::wavesins_frame(pixels, state, params),
            Effect::SolidPattern => wave::solid_pattern_frame(pixels, state, params),
            Effect::Saw => motion::saw_frame(pixels, state, params),
            Effect::Bands => motion::bands_frame(pixels, state, params),
            Effect::Stream => motion::stream_frame(pixels, state, params),
            Effect::Stream2 => motion::stream2_frame(pixels, state, params),
            Effect::Gradient => motion::gradient_frame(pixels, state, params),
            Effect::Loading => motion::loading_frame(pixels, state, params),
            Effect::RunningDual => motion::running_dual_frame(pixels, state, params),
            Effect::Flow => motion::flow_frame(pixels, state, params),
            Effect::Railway => motion::railway_frame(pixels, state, params),
            Effect::TriWipe => motion::tri_wipe_frame(pixels, state, params),
            Effect::TwoDots => spots::two_dots_frame(pixels, state, params),
            Effect::Lightning => spots::lightning_frame(pixels, state, params),
            Effect::Spots => spots::spots_frame(pixels, state, params),
            Effect::SpotsFade => spots::spots_fade_frame(pixels, state, params),
            Effect::Glitter => spots::glitter_frame(pixels, state, params),
            Effect::SolidGlitter => spots::solid_glitter_frame(pixels, state, params),
            Effect::Lake => wave::lake_frame(pixels, state, params),
            Effect::Plasma => wave::plasma_frame(pixels, state, params),
            Effect::TwinkleUp => wave::twinkle_up_frame(pixels, state, params),
            Effect::SolidPatternTri => wave::solid_pattern_tri_frame(pixels, state, params),
        }
    }

    /// Draws one step on the strip as the effect sees it.
    fn draw(self, pixels: &mut Vec<RGB8>, state: &mut EffectState, params: &Params)
        requires
            old(pixels)@.len() > 0,
            self.len_ok(old(pixels)@.len(), *params),
            self.accepts(*old(state), old(pixels)@.len()),
        ensures
            final(pixels)@ == self.draw_frame(old(pixels)@, *old(state), *params).0,
            *final(state) == self.draw_frame(old(pixels)@, *old(state), *params).1,
            final(pixels)@.len() == old(pixels)@.len(),
            self.accepts(*final(state), old(pixels)@.len()),
    {
        match self {
            Effect::Static => color::static_color(pixels, state, params),
            Effect::Blink => color::blink(pixels, state, params),
            Effect::BlinkRainbow => color::blink_rainbow(pixels, state, params),
            Effect::Strobe => color::strobe(pixels, state, params),
            Effect::StrobeRainbow => color::strobe_rainbow(pixels, state, params),
            Effect::Breath => color::breath(pixels, state, params),
            Effect::Rainbow => color::rainbow(pixels, state, params),
            Effect::Fade => color::fade(pixels, state, params),
            Effect::HyperSparkle => color::hyper_sparkle(pixels, state, params),
            Effect::MultiStrobe => color::multi_strobe(pixels, state, params),
            Effect::RainbowCycle => rainbow::rainbow_cycle(pixels, state, params),
            Effect::ColorWipe => chase::color_wipe(pixels, state, params),
            Effect::ColorWipeInv => chase::color_wipe_inv(pixels, state, params),
            Effect::ColorWipeRandom => chase::color_wipe_random(pixels, state, params),
            Effect::ColorSweepRandom => chase::color_sweep_random(pixels, state, params),
            Effect::Scan => chase::scan(pixels, state, params),
            Effect::DualScan => chase::dual_scan(pixels, state, params),
            Effect::TricolorChase => chase::tricolor_chase(pixels, state, params),
            Effect::CircusCombustus => {
                let p = Params { colors: [red(), white(), black()], palette: None, ..*params };
                chase::tricolor_chase(pixels, state, &p);
            },
            Effect::TheaterChase => {
                let p = Params { colors: [params.colors[0], params.colors[1], params.colors[1]], ..*params };
                chase::tricolor_chase(pixels, state, &p);
            },
            Effect::TheaterChaseRainbow => chase::theater_chase_rainbow(pixels, state, params),
            Effect::BicolorChase => chase::chase(pixels, state, params),
            Effect::ChaseColor => {
                let p = Params { colors: [params.colors[0], white(), white()], ..*params };
                chase::chase(pixels, state, &p);
            },
            Effect::ChaseBlackout => {
                let p = Params { colors: [params.colors[0], black(), black()], ..*params };
                chase::chase(pixels, state, &p);
            },
            Effect::ChaseWhite => {
                let p = Params { colors: [white(), params.colors[0], params.colors[0]], palette: None, ..*params };
                chase::chase(pixels, state, &p);
            },
            Effect::ChaseRandom => chase::chase_random(pixels, state, params),
            Effect::ChaseRainbowWhite => chase::chase_rainbow_white(pixels, state, params),
            Effect::ChaseRainbow => chase::chase_rainbow(pixels, state, params),
            Effect::ChaseBlackoutRainbow => chase::chase_blackout_rainbow(pixels, state, params),
            Effect::ChaseFlash => {
                let p = Params { colors: [params.colors[0], white(), params.colors[2]], ..*params };
                chase::chase_flash(pixels, state, &p);
            },
            Effect::ChaseFlashRandom => chase::chase_flash_random(pixels, state, params),
            Effect::RunningColor => chase::running(pixels, state, params),
            Effect::RunningRedBlue => {
                let p = Params { colors: [red(), blue(), black()], palette: None, ..*params };
                chase::running(pixels, state, &p);
            },
            Effect::MerryChristmas => {
                let p = Params { colors: [red(), green(), black()], palette: None, ..*params };
                chase::running(pixels, state, &p);
            },
            Effect::Halloween => {
                let p = Params { colors: [purple(), orange(), black()], palette: None, ..*params };
                chase::running(pixels, state, &p);
            },
            Effect::RunningRandom => chase::running_random(pixels, state, params),
            Effect::RunningRandom2 => chase::running_random2(pixels, state, params),
            Effect::RunningLights => dynamic::running_lights(pixels, state, params),
            Effect::RandomColor => dynamic::random_color(pixels, state, params),
            Effect::SingleDynamic => dynamic::single_dynamic(pixels, state, params),
            Effect::MultiDynamic => dynamic::multi_dynamic(pixels, state, params),
            Effect::BlockDissolve => dynamic::block_dissolve(pixels, state, params),
            Effect::Twinkle => twinkle::twinkle(pixels, state, params),
            Effect::TwinkleRandom => twinkle::twinkle_random(pixels, state, params),
            Effect::TwinkleFade => twinkle::twinkle_fade(pixels, state, params),
            Effect::TwinkleFadeRandom => twinkle::twinkle_fade_random(pixels, state, params),
            Effect::Sparkle => twinkle::sparkle(pixels, state, params),
            Effect::FlashSparkle => twinkle::flash_sparkle(pixels, state, params),
            Effect::SparkleRandom => twinkle::sparkle_random(pixels, state, params),
            Effect::LarsonScanner => scanner::larson_scanner(pixels, state, params),
            Effect::Comet => scanner::comet(pixels, state, params),
            Effect::DualLarson => scanner::dual_larson(pixels, state, params),
            Effect::RainbowLarson => scanner::rainbow_larson(pixels, state, params),
            Effect::MultiComet => scanner::multi_comet(pixels, state, params),
            Effect::Fireworks => fire::fireworks(pixels, state, params),
            Effect::FireworksRandom => {
                let rng = next_rand(state.aux);
                state.aux = rng;
                let p = Params { colors: [params.wheel(rng as u8), params.colors[1], params.colors[2]], palette: None, ..*params };
                fire::fireworks(pixels, state, &p);
            },
            Effect::FireFlicker => {
                fire::fire_flicker(pixels, state, params);
            },
            Effect::FireFlickerSoft => {
                fire::fire_flicker_soft(pixels, state, params);
            },
            Effect::FireFlickerIntense => {
                fire::fire_flicker_intense(pixels, state, params);
            },
            Effect::TwinkleFox => complex::twinkle_fox(pixels, state, params),
            Effect::Rain => complex::rain(pixels, state, params),
            Effect::Icu => complex::icu(pixels, state, params),
            Effect::FillerUp => complex::filler_up(pixels, state, params),
            Effect::TriFade => complex::trifade(pixels, state, params),
            Effect::Heartbeat => complex::heartbeat(pixels, state, params),
            Effect::RainbowFireworks => complex::rainbow_fireworks(pixels, state, params),
            Effect::Sine => wave::sine(pixels, state, params),
            Effect::Bpm => wave::bpm(pixels, state, params),
            Effect::Percent => wave::percent(pixels, state, params),
            Effect::Wavesins => wave::wavesins(pixels, state, params),
            Effect::SolidPattern => wave::solid_pattern(pixels, state, params),
            Effect::Saw => motion::saw(pixels, state, params),
            Effect::Bands => motion::bands(pixels, state, params),
            Effect::Stream => motion::stream(pixels, state, params),
            Effect::Stream2 => motion::stream2(pixels, state, params),
            Effect::Gradient => motion::gradient(pixels, state, params),
            Effect::Loading => motion::loading(pixels, state, params),
            Effect::RunningDual => motion::running_dual(pixels, state, params),
            Effect::Flow => motion::flow(pixels, state, params),
            Effect::Railway => motion::railway(pixels, state, params),
            Effect::TriWipe => motion::tri_wipe(pixels, state, params),
            Effect::TwoDots => spots::two_dots(pixels, state, params),
            Effect::Lightning => spots::lightning(pixels, state, params),
            Effect::Spots => spots::spots(pixels, state, params),
            Effect::SpotsFade => spots::spots_fade(pixels, state, params),
            Effect::Glitter => spots::glitter(pixels, state, params),
            Effect::SolidGlitter => spots::solid_glitter(pixels, state, params),
            Effect::Lake => wave::lake(pixels, state, params),
            Effect::Plasma => wave::plasma(pixels, state, params),
            Effect::TwinkleUp => wave::twinkle_up(pixels, state, params),
            Effect::SolidPatternTri => wave::solid_pattern_tri(pixels, state, params),
        }
    }

    /// One step of this effect on `pixels` laid out by `params`: drawn on the
    /// strip as the effect sees it — one pixel per group of
    /// `params.group_len()` LEDs, back to front when reversed — and spread
    /// back over the LEDs. An empty strip is left as it is.
    pub open spec fn step_frame(self, pixels: Seq<RGB8>, state: EffectState, params: Params) -> Frame {
        if pixels.len() == 0 {
            (pixels, state)
        } else {
            let g = params.group_len_spec();
            let (drawn, s) = self.draw_frame(flipped(collapsed(pixels, g), params.reverse), state, params);
            (spread(flipped(drawn, params.reverse), g, pixels.len()), s)
        }
    }

    /// Renders one step of this effect into `pixels`.
    ///
    /// Each call advances the animation by one step, drawing over what the
    /// buffer held after the previous step — many effects fade, shift or
    /// restore those pixels — so pass the same buffer and `state` every time.
    /// Grouping ([`Params::size`]) and direction ([`Params::reverse`]) apply
    /// to every effect: it draws on the grouped, possibly reversed strip and
    /// the result is spread back over `pixels`.
    pub fn step(self, pixels: &mut Vec<RGB8>, state: &mut EffectState, params: &Params)
        requires
            old(pixels)@.len() > 0 ==> self.len_ok(view_len(old(pixels)@.len(), params.group_len_spec()), *params),
            old(pixels)@.len() > 0 ==> self.accepts(*old(state), view_len(old(pixels)@.len(), params.group_len_spec())),
        ensures
            final(pixels)@ == self.step_frame(old(pixels)@, *old(state), *params).0,
            *final(state) == self.step_frame(old(pixels)@, *old(state), *params).1,
            final(pixels)@.len() == old(pixels)@.len(),
            old(pixels)@.len() > 0 ==> self.accepts(*final(state), view_len(old(pixels)@.len(), params.group_len_spec())),
    {
        // Effects index and divide by the length; an empty strip has nothing to draw.
        if pixels.len() == 0 {
            return;
        }
        self.with_layout(pixels, state, params);
    }

    /// [`Effect::step`] on a buffer of any [`Pixel`] type: the buffer shows
    /// exactly the frame `step` draws on the colours it showed.
    pub fn step_pixels<P: Pixel>(self, pixels: &mut Vec<P>, state: &mut EffectState, params: &Params)
        requires
            old(pixels)@.len() > 0 ==> self.len_ok(view_len(old(pixels)@.len(), params.group_len_spec()), *params),
            old(pixels)@.len() > 0 ==> self.accepts(*old(state), view_len(old(pixels)@.len(), params.group_len_spec())),
        ensures
            shown_colors(final(pixels)@) == self.step_frame(shown_colors(old(pixels)@), *old(state), *params).0,
            *final(state) == self.step_frame(shown_colors(old(pixels)@), *old(state), *params).1,
            final(pixels)@.len() == old(pixels)@.len(),
    {
        let len = pixels.len();
        let mut colors: Vec<RGB8> = Vec::new();
        let mut i: usize = 0;
        while i < len
            invariant
                len == pixels@.len(),
                pixels@ == old(pixels)@,
                i <= len,
                colors@ == shown_colors(old(pixels)@).subrange(0, i as int),
            decreases len - i,
        {
            let c = pixels[i].to_rgb8();
            colors.push(c);
            i = i + 1;
        }
        assert(colors@ =~= shown_colors(old(pixels)@));
        self.step(&mut colors, state, params);
        let mut j: usize = 0;
        while j < len
            invariant
                len == pixels@.len(),
                len == colors@.len(),
                j <= len,
                forall|k: int| 0 <= k < j ==> #[trigger] pixels@[k].shown() == colors@[k],
            decreases len - j,
        {
            let p = P::from_rgb8(colors[j]);
            pixels.set(j, p);
            j = j + 1;
        }
        assert(shown_colors(pixels@) =~= colors@);
    }

    /// Renders one step of this effect into `pixels`: [`Effect::step`] with
    /// parameters converted from `config` — default intensity, no grouping,
    /// forward.
    pub fn render(self, pixels: &mut Vec<RGB8>, state: &mut EffectState, config: &EffectConfig)
        requires
            old(pixels)@.len() > 0 ==> self.len_ok(old(pixels)@.len(), Params::from_segment_spec(*config, SegmentOptions::default_spec())),
            old(pixels)@.len() > 0 ==> self.accepts(*old(state), old(pixels)@.len()),
        ensures
            final(pixels)@ == self.step_frame(
                old(pixels)@,
                *old(state),
                Params::from_segment_spec(*config, SegmentOptions::default_spec()),
            ).0,
            *final(state) == self.step_frame(
                old(pixels)@,
                *old(state),
                Params::from_segment_spec(*config, SegmentOptions::default_spec()),
            ).1,
            final(pixels)@.len() == old(pixels)@.len(),
            old(pixels)@.len() > 0 ==> self.accepts(*final(state), old(pixels)@.len()),
    {
        let params = Params::from(*config);
        proof {
            lemma_view_len_ungrouped(old(pixels)@.len());
        }
        self.step(pixels, state, &params);
    }

    /// Runs `draw` on the strip as the effect sees it: `params.group_len()`
    /// LEDs per drawn pixel and, if reversed, back to front.
    ///
    /// Between steps `pixels` holds the displayed frame, so the effect's view
    /// is rebuilt from it first: effects that read back their previous frame
    /// find it exactly as they drew it.
    fn with_layout(self, pixels: &mut Vec<RGB8>, state: &mut EffectState, params: &Params)
        requires
            0 < old(pixels)@.len(),
            self.len_ok(view_len(old(pixels)@.len(), params.group_len_spec()), *params),
            self.accepts(*old(state), view_len(old(pixels)@.len(), params.group_len_spec())),
        ensures
            final(pixels)@ == self.step_frame(old(pixels)@, *old(state), *params).0,
            *final(state) == self.step_frame(old(pixels)@, *old(state), *params).1,
            final(pixels)@.len() == old(pixels)@.len(),
            self.accepts(*final(state), view_len(old(pixels)@.len(), params.group_len_spec())),
    {
        let group = params.group_len();
        let len = pixels.len();
        proof {
            lemma_view_bounds(len as nat, group as nat);
            lemma_view_len_split(len as nat, group as nat);
        }
        let drawn = len / group + if len % group != 0 {
            1
        } else {
            0
        };
        // The first LED of each group.
        let mut view: Vec<RGB8> = Vec::new();
        let mut i: usize = 0;
        while i < drawn
            invariant
                len == pixels@.len(),
                pixels@ == old(pixels)@,
                1 <= group <= 8,
                drawn == view_len(len as nat, group as nat),
                i <= drawn,
                view@.len() == i,
                forall|k: int| 0 <= k < i ==> view@[k] == old(pixels)@[k * group],
            decreases drawn - i,
        {
            proof {
                lemma_first_led(len as nat, group as nat, i as int);
            }
            view.push(pixels[i * group]);
            i = i + 1;
        }
        assert(view@ =~= collapsed(old(pixels)@, group as nat));
        if params.reverse {
            view = reversed(view);
        }
        self.draw(&mut view, state, params);
        if params.reverse {
            view = reversed(view);
        }
        let ghost shown = view@;
        // Spread each drawn pixel over its group.
        let mut j: usize = 0;
        while j < len
            invariant
                len == pixels@.len(),
                1 <= group <= 8,
                drawn == view_len(len as nat, group as nat),
                view@.len() == drawn,
                view@ == shown,
                j <= len,
                forall|k: int| 0 <= k < j ==> pixels@[k] == shown[k / (group as int)],
            decreases len - j,
        {
            proof {
                lemma_led_group(len as nat, group as nat, j as int);
            }
            let c = view[j / group];
            pixels.set(j, c);
            j = j + 1;
        }
        assert(pixels@ =~= spread(shown, group as nat, len as nat));
    }
}

/// An effect draws at least one pixel on a non-empty strip, and no more
/// than there are LEDs.
pub proof fn lemma_view_bounds(len: nat, group: nat)
    requires
        len > 0,
        1 <= group <= 8,
    ensures
        1 <= view_len(len, group) <= len,
{
    let d = view_len(len, group);
    assert(1 <= d <= len) by (nonlinear_arith)
        requires
            d == (len + group - 1) / (group as int),
            len > 0,
            group >= 1,
    ;
}

/// The first LED of drawn pixel `k`'s group lies on the strip.
pub proof fn lemma_first_led(len: nat, group: nat, k: int)
    requires
        1 <= group,
        0 <= k < view_len(len, group),
    ensures
        k * group < len,
{
    let d = view_len(len, group);
    assert(k * group < len) by (nonlinear_arith)
        requires
            d == (len + group - 1) / (group as int),
            0 <= k < d,
            group >= 1,
    ;
}

/// LED `k`'s group has a drawn pixel.
pub proof fn lemma_led_group(len: nat, group: nat, k: int)
    requires
        1 <= group,
        0 <= k < len,
    ensures
        0 <= k / (group as int) < view_len(len, group),
{
    let d = view_len(len, group);
    assert(0 <= k / (group as int) < d) by (nonlinear_arith)
        requires
            d == (len + group - 1) / (group as int),
            0 <= k < len,
            group >= 1,
    ;
}

/// Every effect can step from the state it starts in, on a strip of any
/// length.
pub proof fn lemma_start_accepted(effect: Effect, len: nat)
    ensures
        effect.accepts(EffectState::start(), len),
{
    assert(0u32 & 1u32 == 0u32) by (bit_vector);
    assert((0u32 >> 8u32) & 0xFFu32 == 0u32) by (bit_vector);
}

/// How many pixels an effect draws, counted without overflow: one per full
/// group and one for a short last group.
pub proof fn lemma_view_len_split(len: nat, group: nat)
    requires
        1 <= group <= 8,
    ensures
        view_len(len, group) == len / group + if len % group != 0 { 1int } else { 0int },
{
    let q = len / group;
    let r = len % group;
    assert(len == q * group + r && 0 <= r < group) by (nonlinear_arith)
        requires
            q == len / group,
            r == len % group,
            group >= 1,
    ;
    assert((len + group - 1) / (group as int) == q + if r != 0 { 1int } else { 0int }) by (nonlinear_arith)
        requires
            len == q * group + r,
            0 <= r < group,
            group >= 1,
            q >= 0,
    ;
}

/// Without grouping an effect draws one pixel per LED.
pub proof fn lemma_view_len_ungrouped(len: nat)
    ensures
        view_len(len, 1) == len,
{
}

/// `pixels` back to front.
fn reversed(pixels: Vec<RGB8>) -> (out: Vec<RGB8>)
    ensures
        out@ == flipped(pixels@, true),
{
    let len = pixels.len();
    let mut out: Vec<RGB8> = Vec::new();
    let mut i: usize = 0;
    while i < len
        invariant
            len == pixels@.len(),
            i <= len,
            out@.len() == i,
            forall|k: int| 0 <= k < i ==> out@[k] == pixels@[len - 1 - k],
        decreases len - i,
    {
        out.push(pixels[len - 1 - i]);
        i = i + 1;
    }
    assert(out@ =~= flipped(pixels@, true));
    out
}

} // verus!
