//! Colours with four independent channels.

use vstd::prelude::*;
use crate::fixed::{lerp, lerp_spec};

verus! {

/// A colour of four channels, each in millionths of full intensity.
///
/// No range is enforced: while a colour is blended past one of its end
/// points a channel may drop below zero or rise above `UNIT`.
#[derive(Clone, Copy, Debug, PartialEq, Eq, Structural)]
pub struct Color {
    /// Red.
    pub r: i64,
    /// Green.
    pub g: i64,
    /// Blue.
    pub b: i64,
    /// Opacity.
    pub a: i64,
}

impl Color {
    /// Opaque red.
    pub open spec fn red_spec() -> Color {
        Color { r: 1_000_000, g: 0, b: 0, a: 1_000_000 }
    }

    /// Opaque red.
    pub fn red() -> (color: Color)
        ensures
            color == Self::red_spec(),
    {
        Color { r: 1_000_000, g: 0, b: 0, a: 1_000_000 }
    }

    /// The colour whose every channel is the blend of that channel of `self`
    /// and of `other`, each taken on its own.
    pub open spec fn mix(self, other: Color, weight: int) -> Color {
        Color {
            r: lerp_spec(self.r, other.r, weight),
            g: lerp_spec(self.g, other.g, weight),
            b: lerp_spec(self.b, other.b, weight),
            a: lerp_spec(self.a, other.a, weight),
        }
    }

    /// Blends from `self` (weight zero) towards `other` (weight `UNIT`),
    /// channel by channel.
    pub fn interpolate(&self, other: &Color, weight: i64) -> (mixed: Color)
        ensures
            mixed == self.mix(*other, weight as int),
    {
        Color {
            r: lerp(self.r, other.r, weight),
            g: lerp(self.g, other.g, weight),
            b: lerp(self.b, other.b, weight),
            a: lerp(self.a, other.a, weight),
        }
    }
}

} // verus!
