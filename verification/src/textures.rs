//! Optical effects of a surface, and the choice between the two colors of
//! a checked pattern.

use vstd::prelude::*;
use crate::colors::Color;
use crate::scalar::{Scalar, ONE_BITS};

verus! {

/// Bits of `0.8`.
pub const MIRROR_DEFAULT_COEFF_BITS: u64 = 0x3FE9_9999_9999_999A;

/// Bits of `0.5`.
pub const HALF_BITS: u64 = 0x3FE0_0000_0000_0000;

/// Bits of `10.0`.
pub const CHECKED_DEFAULT_COUNT_BITS: u64 = 0x4024_0000_0000_0000;

/// Bits of `0.95`.
pub const CHECKED_LIGHT_BITS: u64 = 0x3FEE_6666_6666_6666;

/// Bits of `0.05`.
pub const CHECKED_DARK_BITS: u64 = 0x3FA9_9999_9999_999A;

/// A surface that sends back part of the light like a mirror.
#[derive(Clone, Copy, Debug)]
pub struct Mirror {
    /// The share of the reflected light that is kept, between zero and one.
    pub coeff: Scalar,
}

impl Default for Mirror {
    /// A mirror that keeps `0.8` of the reflected light.
    fn default() -> (m: Mirror)
        ensures
            m.coeff.bits == MIRROR_DEFAULT_COEFF_BITS,
    {
        Mirror { coeff: Scalar { bits: MIRROR_DEFAULT_COEFF_BITS } }
    }
}

/// A surface that lets part of the light through.
#[derive(Clone, Copy, Debug)]
pub struct Transparency {
    pub refractive_index: Scalar,
    /// The share of the refracted light that is kept, between zero and one.
    pub alpha: Scalar,
}

impl Default for Transparency {
    /// A refractive index of `1.0` and an alpha of `0.5`.
    fn default() -> (t: Transparency)
        ensures
            t.refractive_index.bits == ONE_BITS,
            t.alpha.bits == HALF_BITS,
    {
        Transparency {
            refractive_index: Scalar { bits: ONE_BITS },
            alpha: Scalar { bits: HALF_BITS },
        }
    }
}

/// A surface with a specular highlight.
#[derive(Clone, Copy, Debug)]
pub struct Phong {
    /// The exponent of the highlight.
    pub size: u32,
    /// The strength of the highlight, between zero and one.
    pub lum_coeff: Scalar,
}

impl Phong {
    /// The exponent of the highlight as a signed number of 32 bits: the
    /// size itself while it fits, and the size less `2^32` beyond.
    pub open spec fn spec_exponent(&self) -> i32 {
        if self.size <= i32::MAX {
            self.size as i32
        } else {
            (self.size - 0x1_0000_0000) as i32
        }
    }

    /// The exponent of the highlight as a signed number of 32 bits, as a
    /// power of a double-precision number takes it.
    #[verifier::when_used_as_spec(spec_exponent)]
    pub fn exponent(&self) -> (e: i32)
        ensures
            e == self.spec_exponent(),
            self.size <= i32::MAX ==> e == self.size,
            self.size > i32::MAX ==> e == self.size - 0x1_0000_0000,
    {
        if self.size <= 0x7FFF_FFFF {
            self.size as i32
        } else {
            ((self.size - 0x8000_0000) as i32) + i32::MIN
        }
    }
}

impl Default for Phong {
    /// An exponent of 50 and a strength of `0.5`.
    fn default() -> (p: Phong)
        ensures
            p.size == 50,
            p.lum_coeff.bits == HALF_BITS,
    {
        Phong { size: 50, lum_coeff: Scalar { bits: HALF_BITS } }
    }
}

/// The optical effects of a surface.  An effect that is absent is not
/// computed at all.
#[derive(Clone, Copy, Debug)]
pub struct TextureEffects {
    pub phong: Option<Phong>,
    pub transparency: Option<Transparency>,
    pub mirror: Option<Mirror>,
}

impl Default for TextureEffects {
    /// No effect at all.
    fn default() -> (e: TextureEffects)
        ensures
            e.phong is None,
            e.transparency is None,
            e.mirror is None,
    {
        TextureEffects { phong: None, transparency: None, mirror: None }
    }
}

/// A texture of one color.
#[derive(Clone, Copy, Debug)]
pub struct PlainColorTexture {
    pub color: Color,
}

impl PlainColorTexture {
    /// The color of the texture, whatever the point.
    pub fn color_at(&self) -> (c: Color)
        ensures
            c == self.color,
    {
        self.color
    }
}

impl Default for PlainColorTexture {
    /// White.
    fn default() -> (t: PlainColorTexture)
        ensures
            t.color.spec_red().bits == ONE_BITS,
            t.color.spec_green().bits == ONE_BITS,
            t.color.spec_blue().bits == ONE_BITS,
    {
        PlainColorTexture { color: Color::named(crate::colors::ColorName::White) }
    }
}

/// A texture of two colors laid out like a chessboard of `count` by `count`
/// squares.
#[derive(Clone, Copy, Debug)]
pub struct CheckedPattern {
    pub primary_color: Color,
    pub secondary_color: Color,
    pub count: Scalar,
}

impl CheckedPattern {
    /// Whether the pattern has a color at the point of the surface with
    /// the coordinates `u` and `v`.  Both run from zero to one, and both
    /// are accepted up to the machine epsilon beyond either end.
    pub fn on_texture(u: Scalar, v: Scalar) -> (r: bool)
        ensures
            r == (u.spec_near_unit_interval() && v.spec_near_unit_interval()),
    {
        u.near_unit_interval() && v.near_unit_interval()
    }

    /// The color of a square, from the sum of the column and of the row in
    /// which it stands: the primary color where the sum is even, the
    /// secondary color where it is odd.
    pub fn color_at(&self, square: u64) -> (c: Color)
        ensures
            c == (if square % 2 == 0 {
                self.primary_color
            } else {
                self.secondary_color
            }),
    {
        if square % 2 == 0 {
            self.primary_color
        } else {
            self.secondary_color
        }
    }
}

impl Default for CheckedPattern {
    /// Ten squares a side, of a light and of a dark grey.
    fn default() -> (t: CheckedPattern)
        ensures
            t.count.bits == CHECKED_DEFAULT_COUNT_BITS,
            t.primary_color.has_channels(
                Scalar { bits: CHECKED_LIGHT_BITS },
                Scalar { bits: CHECKED_LIGHT_BITS },
                Scalar { bits: CHECKED_LIGHT_BITS },
            ),
            t.secondary_color.has_channels(
                Scalar { bits: CHECKED_DARK_BITS },
                Scalar { bits: CHECKED_DARK_BITS },
                Scalar { bits: CHECKED_DARK_BITS },
            ),
    {
        let light = Scalar { bits: CHECKED_LIGHT_BITS };
        let dark = Scalar { bits: CHECKED_DARK_BITS };
        CheckedPattern {
            primary_color: Color::new(light, light, light),
            secondary_color: Color::new(dark, dark, dark),
            count: Scalar { bits: CHECKED_DEFAULT_COUNT_BITS },
        }
    }
}

} // verus!
