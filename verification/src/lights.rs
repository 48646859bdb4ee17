//! The lights of a scene.

use vstd::prelude::*;
use crate::colors::{Color, ColorName};
use crate::scalar::{Scalar, ONE_BITS};
use crate::vector::Vec3;

verus! {

/// A light that shines from one point, the same in every direction.
#[derive(Clone, Copy, Debug)]
pub struct LightPoint {
    pub source: Vec3,
    pub color: Color,
}

impl LightPoint {
    /// A white light at `source`.
    pub fn new(source: Vec3) -> (light: LightPoint)
        ensures
            light.source == source,
            light.color.spec_red().bits == ONE_BITS,
            light.color.spec_green().bits == ONE_BITS,
            light.color.spec_blue().bits == ONE_BITS,
    {
        LightPoint { source, color: Color::named(ColorName::White) }
    }

    /// A light of the given color at `source`.
    pub fn with_color(source: Vec3, color: Color) -> (light: LightPoint)
        ensures
            light.source == source,
            light.color == color,
    {
        LightPoint { source, color }
    }

    /// The point that the light shines from.
    pub fn source(&self) -> (source: Vec3)
        ensures
            source == self.source,
    {
        self.source
    }

    /// The color that the light sends along a ray: its own, whatever the
    /// ray.
    pub fn color_for_ray(&self) -> (color: Color)
        ensures
            color == self.color,
    {
        self.color
    }
}

/// The light that reaches every surface.
#[derive(Clone, Copy, Debug)]
pub struct AmbientLight {
    pub power: Scalar,
}

/// A light that shines in a cone.  Within the inner angle of the axis it
/// shines in full; beyond the outer angle it does not shine; in between it
/// fades.  The angles are in radians.
#[derive(Clone, Copy, Debug)]
pub struct SpotLight {
    pub source: Vec3,
    pub color: Color,
    pub direction: Vec3,
    pub inner_angle: Scalar,
    pub outer_angle: Scalar,
}

/// Where a ray stands in the cone of a spot light.
#[derive(Clone, Copy, Debug, PartialEq, Eq, Structural)]
pub enum SpotZone {
    /// Within the inner angle: the light has its full color.
    Full,
    /// Beyond the outer angle: the light is black.
    Dark,
    /// Between the two: the light fades from its color to black.
    Fading,
}

impl SpotLight {
    /// The zone of a ray that makes the given angle with the axis of the
    /// light.
    pub open spec fn spec_zone(&self, angle: Scalar) -> SpotZone {
        if angle.spec_le(self.inner_angle) {
            SpotZone::Full
        } else if angle.spec_ge(self.outer_angle) {
            SpotZone::Dark
        } else {
            SpotZone::Fading
        }
    }

    /// The point that the light shines from.
    pub fn source(&self) -> (source: Vec3)
        ensures
            source == self.source,
    {
        self.source
    }

    /// The zone of a ray that makes the given angle with the axis of the
    /// light.
    #[verifier::when_used_as_spec(spec_zone)]
    pub fn zone(&self, angle: Scalar) -> (zone: SpotZone)
        ensures
            zone == self.spec_zone(angle),
    {
        if angle.le(self.inner_angle) {
            SpotZone::Full
        } else if angle.ge(self.outer_angle) {
            SpotZone::Dark
        } else {
            SpotZone::Fading
        }
    }

    /// The color that the light sends along a ray that makes the given
    /// angle with its axis, where that color needs no arithmetic: the
    /// color of the light in the full zone, black in the dark zone, `None`
    /// in the fading zone.
    pub fn color_for_ray(&self, angle: Scalar) -> (color: Option<Color>)
        ensures
            self.spec_zone(angle) is Full ==> color == Some(self.color),
            self.spec_zone(angle) is Dark ==> (color matches Some(c) && c.spec_red().bits == 0
                && c.spec_green().bits == 0 && c.spec_blue().bits == 0),
            self.spec_zone(angle) is Fading ==> color is None,
    {
        match self.zone(angle) {
            SpotZone::Full => Some(self.color),
            SpotZone::Dark => Some(Color::named(ColorName::Black)),
            SpotZone::Fading => None,
        }
    }
}

} // verus!
