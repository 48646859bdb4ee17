//! The shapes of a scene, and what decides whether a ray meets them.
//!
//! The sums and products of the intersection formulas are left to the
//! caller; this module takes their results and decides on them.

use vstd::prelude::*;
use crate::scalar::{Scalar, ONE_BITS};
use crate::vector::Vec3;

verus! {

/// Bits of `1e-6`.  A ray whose direction times the normal of a plane is
/// smaller than this, in absolute value, runs along the plane.
pub const PARALLEL_EPSILON_BITS: u64 = 0x3EB0_C6F7_A0B5_ED8D;

/// Bits of `50.0`, the side of the square on which the texture of an
/// infinite plane repeats.
pub const UV_MAPPING_WIDTH_BITS: u64 = 0x4049_0000_0000_0000;

/// A sphere.
#[derive(Clone, Copy, Debug)]
pub struct Sphere {
    pub center: Vec3,
    pub radius: Scalar,
}

/// How a ray meets a sphere.
#[derive(Clone, Copy, Debug, PartialEq, Eq, Structural)]
pub enum SphereHit {
    /// The ray does not meet the sphere.
    Miss,
    /// The ray starts outside and meets the sphere at the nearer of the two
    /// points.
    Near,
    /// The ray starts inside, or on the sphere, and leaves it at the
    /// farther of the two points.
    Far,
}

impl Sphere {
    /// The origin of a ray lies outside the sphere: the square of its
    /// distance to the center is larger than that of the radius.
    pub open spec fn outside(l_square: Scalar, r_square: Scalar) -> bool {
        l_square.spec_gt(r_square)
    }

    /// The ray passes the sphere by: the sphere lies behind an origin that
    /// is outside of it, or the line of the ray stays farther from the
    /// center than the radius.
    pub open spec fn misses(d: Scalar, l_square: Scalar, m_square: Scalar, r_square: Scalar) -> bool {
        ||| d.spec_lt(Scalar::zero()) && Sphere::outside(l_square, r_square)
        ||| m_square.spec_gt(r_square)
    }

    /// Decides how a ray meets the sphere.
    ///
    /// `d` is the distance along the ray to the point that is nearest to
    /// the center, negative where that point lies behind the origin;
    /// `l_square` is the square of the distance from the origin to the
    /// center, `m_square` the square of the distance from the line of the
    /// ray to the center, `r_square` the square of the radius.
    pub fn check_collision(d: Scalar, l_square: Scalar, m_square: Scalar, r_square: Scalar) -> (hit:
        SphereHit)
        ensures
            hit is Miss <==> Sphere::misses(d, l_square, m_square, r_square),
            hit is Near <==> !Sphere::misses(d, l_square, m_square, r_square) && Sphere::outside(
                l_square,
                r_square,
            ),
            hit is Far <==> !Sphere::misses(d, l_square, m_square, r_square) && !Sphere::outside(
                l_square,
                r_square,
            ),
    {
        let outside = l_square.gt(r_square);
        if d.lt(Scalar { bits: 0 }) && outside {
            SphereHit::Miss
        } else if m_square.gt(r_square) {
            SphereHit::Miss
        } else if outside {
            SphereHit::Near
        } else {
            SphereHit::Far
        }
    }
}

impl Default for Sphere {
    /// The sphere of radius one around the origin.
    fn default() -> (s: Sphere)
        ensures
            s.center.x.bits == 0,
            s.center.y.bits == 0,
            s.center.z.bits == 0,
            s.radius.bits == ONE_BITS,
    {
        Sphere { center: Vec3::zero(), radius: Scalar { bits: ONE_BITS } }
    }
}

/// A plane without bounds.
#[derive(Clone, Copy, Debug)]
pub struct InfinitePlan {
    pub center: Vec3,
    pub normal_normalized: Vec3,
    pub u_vec: Vec3,
    pub v_vec: Vec3,
    pub uv_mapping_width: Scalar,
}

/// A ray meets a plane: it does not run along the plane, and the plane
/// lies ahead of its origin.  `denom` is the normal of the plane times the
/// direction of the ray, `t` the distance along the ray to the plane.
pub open spec fn meets_plane(denom: Scalar, t: Scalar) -> bool {
    &&& !denom.abs_spec().spec_lt(Scalar { bits: PARALLEL_EPSILON_BITS })
    &&& t.spec_gt(Scalar::zero())
}

impl InfinitePlan {
    /// Decides whether a ray meets the plane.  `denom` is the normal of the
    /// plane times the direction of the ray, `t` the distance along the
    /// ray to the plane.
    pub fn check_collision(denom: Scalar, t: Scalar) -> (hit: bool)
        ensures
            hit == meets_plane(denom, t),
    {
        if denom.abs().lt(Scalar { bits: PARALLEL_EPSILON_BITS }) {
            return false;
        }
        t.gt(Scalar { bits: 0 })
    }

    /// Whether a coordinate of the texture has to be brought back into the
    /// unit interval by adding one to it: it has, unless it is at least
    /// zero.
    pub fn wraps(coordinate: Scalar) -> (r: bool)
        ensures
            r == !coordinate.spec_ge(Scalar::zero()),
    {
        !coordinate.ge(Scalar { bits: 0 })
    }
}

/// A square in a plane.
#[derive(Clone, Copy, Debug)]
pub struct SquarePlan {
    pub center: Vec3,
    pub normal_normalized: Vec3,
    pub u_vec: Vec3,
    pub v_vec: Vec3,
    pub width: Scalar,
}

/// A point of the plane of a square lies within the square: neither of its
/// two coordinates, taken from the center along the sides, is below
/// `-radius` or above `radius`.
pub open spec fn within_square(local_x: Scalar, local_y: Scalar, radius: Scalar) -> bool {
    &&& !local_x.spec_lt(radius.neg_spec())
    &&& !local_x.spec_gt(radius)
    &&& !local_y.spec_lt(radius.neg_spec())
    &&& !local_y.spec_gt(radius)
}

impl SquarePlan {
    /// The coordinates of a point of the plane, where it lies within the
    /// square; `None` where it does not.  `radius` is half the width.
    pub fn to_plan_coords(local_x: Scalar, local_y: Scalar, radius: Scalar) -> (coords: Option<
        (Scalar, Scalar),
    >)
        ensures
            coords == (if within_square(local_x, local_y, radius) {
                Some((local_x, local_y))
            } else {
                None
            }),
    {
        let low = radius.neg();
        if local_x.lt(low) || local_x.gt(radius) || local_y.lt(low) || local_y.gt(radius) {
            None
        } else {
            Some((local_x, local_y))
        }
    }

    /// Decides whether a ray meets the square: it meets the plane of the
    /// square, at a point within the square.  `denom` and `t` are as for an
    /// infinite plane; `local_x` and `local_y` are the coordinates of the
    /// point where the ray meets the plane, `radius` is half the width.
    pub fn check_collision(
        denom: Scalar,
        t: Scalar,
        local_x: Scalar,
        local_y: Scalar,
        radius: Scalar,
    ) -> (hit: bool)
        ensures
            hit == (meets_plane(denom, t) && within_square(local_x, local_y, radius)),
    {
        InfinitePlan::check_collision(denom, t) && SquarePlan::to_plan_coords(
            local_x,
            local_y,
            radius,
        ).is_some()
    }
}

} // verus!
