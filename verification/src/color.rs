//! Colours of four 8-bit channels.

use vstd::prelude::*;
use crate::gamma::{correct_gamma, decodes_to, LINEAR_LEVELS};

verus! {

/// A colour: red, green, blue and opacity, each from 0 to 255.
#[derive(Clone, Copy, PartialEq, Eq, Debug, Structural)]
pub struct Rgba {
    pub r: u8,
    pub g: u8,
    pub b: u8,
    pub a: u8,
}

impl Rgba {
    pub open spec fn spec_new(r: u8, g: u8, b: u8, a: u8) -> Rgba {
        Rgba { r, g, b, a }
    }

    #[verifier::when_used_as_spec(spec_new)]
    pub fn new(r: u8, g: u8, b: u8, a: u8) -> (color: Rgba)
        ensures
            color == Self::spec_new(r, g, b, a),
    {
        Rgba { r, g, b, a }
    }

    pub open spec fn spec_white() -> Rgba {
        Rgba { r: 255, g: 255, b: 255, a: 255 }
    }

    /// Opaque white, the tint that leaves a texture as it is.
    #[verifier::when_used_as_spec(spec_white)]
    pub fn white() -> (color: Rgba)
        ensures
            color == Self::spec_white(),
    {
        Rgba { r: 255, g: 255, b: 255, a: 255 }
    }

    pub open spec fn spec_red(saturation: u8) -> Rgba {
        Rgba { r: 255, g: saturation, b: saturation, a: 255 }
    }

    /// The opaque red with full red and `saturation` in both other
    /// channels: the lower `saturation` is, the purer the red.
    #[verifier::when_used_as_spec(spec_red)]
    pub fn red(saturation: u8) -> (color: Rgba)
        ensures
            color == Self::spec_red(saturation),
    {
        Rgba { r: 255, g: saturation, b: saturation, a: 255 }
    }

    /// Whether the colour is fully opaque. A pixel that is only nearly
    /// opaque does not count.
    pub open spec fn spec_is_opaque(&self) -> bool {
        self.a == 255
    }

    /// Whether the colour is fully opaque.
    #[verifier::when_used_as_spec(spec_is_opaque)]
    pub fn is_opaque(&self) -> (opaque: bool)
        ensures
            opaque == self.spec_is_opaque(),
    {
        self.a == 255
    }

    /// The colour in linear light: each colour channel is the decoded value
    /// of this colour's channel, and the opacity is kept.
    pub open spec fn linear(&self) -> Rgba {
        Rgba {
            r: LINEAR_LEVELS[self.r as int],
            g: LINEAR_LEVELS[self.g as int],
            b: LINEAR_LEVELS[self.b as int],
            a: self.a,
        }
    }

    /// Decodes the colour from sRGB to linear light. The opacity is not a
    /// colour channel and stays as it is.
    pub fn to_linear(&self) -> (color: Rgba)
        ensures
            color == self.linear(),
            decodes_to(self.r as int, color.r as int),
            decodes_to(self.g as int, color.g as int),
            decodes_to(self.b as int, color.b as int),
            color.a == self.a,
    {
        Rgba {
            r: correct_gamma(self.r),
            g: correct_gamma(self.g),
            b: correct_gamma(self.b),
            a: self.a,
        }
    }
}

} // verus!
