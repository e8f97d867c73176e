//! Pixel types the effects can draw into.

use vstd::prelude::*;

verus! {

/// An 8-bit-per-channel RGB colour, the value every effect computes.
#[derive(Clone, Copy, Debug, PartialEq, Eq, Structural)]
pub struct RGB8 {
    pub r: u8,
    pub g: u8,
    pub b: u8,
}

/// A pixel an effect can draw into and read back.
///
/// Effects compute colours as [`RGB8`]; a buffer of another pixel type converts
/// only where it touches the colour. An implementation keeps the colour it
/// was made from: `from_rgb8` gives a pixel that shows `color`, and
/// `to_rgb8` reads back the colour a pixel shows. In compiled code `shown`
/// is an ordinary method; an implementation outside this crate writes it as
/// `to_rgb8`.
pub trait Pixel: Copy + Sized {
    /// The colour this pixel shows.
    spec fn shown(self) -> RGB8;

    /// The pixel for `color`.
    fn from_rgb8(color: RGB8) -> (pixel: Self)
        ensures
            pixel.shown() == color,
    ;

    /// This pixel's colour.
    fn to_rgb8(self) -> (color: RGB8)
        ensures
            color == self.shown(),
    ;
}

impl Pixel for RGB8 {
    open spec fn shown(self) -> RGB8 {
        self
    }

    fn from_rgb8(color: RGB8) -> (pixel: Self) {
        color
    }

    fn to_rgb8(self) -> (color: RGB8) {
        self
    }
}

#[verifier::external_type_specification]
#[verifier::external_body]
pub struct ExCrgb(color8::Crgb);

/// The colour a `color8::Crgb` holds: its red, green and blue channels.
pub uninterp spec fn crgb_channels(pixel: color8::Crgb) -> RGB8;

/// Calls `color8::Crgb::new`, which stores the three channels as given.
#[verifier::external_body]
fn crgb_new(color: RGB8) -> (pixel: color8::Crgb)
    ensures
        crgb_channels(pixel) == color,
{
    color8::Crgb::new(color.r, color.g, color.b)
}

/// Reads the public `r`, `g` and `b` fields of a `color8::Crgb`.
#[verifier::external_body]
fn crgb_read(pixel: color8::Crgb) -> (color: RGB8)
    ensures
        color == crgb_channels(pixel),
{
    RGB8 { r: pixel.r, g: pixel.g, b: pixel.b }
}

impl Pixel for color8::Crgb {
    open spec fn shown(self) -> RGB8 {
        crgb_channels(self)
    }

    fn from_rgb8(color: RGB8) -> (pixel: Self) {
        crgb_new(color)
    }

    fn to_rgb8(self) -> (color: RGB8) {
        crgb_read(self)
    }
}

/// The colours a buffer of pixels shows.
pub open spec fn shown_colors<P: Pixel>(pixels: Seq<P>) -> Seq<RGB8> {
    Seq::new(pixels.len(), |i: int| pixels[i].shown())
}

} // verus!
