//! Vectors of three scalars and matrices of three rows of three, as far as
//! they are built and told apart from zero.

use vstd::prelude::*;
use crate::scalar::{Scalar, ONE_BITS};

verus! {

/// A point or a direction of space.
#[derive(Clone, Copy, Debug)]
pub struct Vec3 {
    pub x: Scalar,
    pub y: Scalar,
    pub z: Scalar,
}

impl Vec3 {
    /// Each coordinate is zero up to the machine epsilon.
    pub open spec fn spec_is_null(self) -> bool {
        self.x.spec_negligible() && self.y.spec_negligible() && self.z.spec_negligible()
    }

    /// The vector of the three given coordinates.
    pub fn new(x: Scalar, y: Scalar, z: Scalar) -> (v: Vec3)
        ensures
            v.x == x,
            v.y == y,
            v.z == z,
    {
        Vec3 { x, y, z }
    }

    /// The vector whose coordinates are all `0.0`.
    pub fn zero() -> (v: Vec3)
        ensures
            v.x.bits == 0,
            v.y.bits == 0,
            v.z.bits == 0,
            v.spec_is_null(),
    {
        Vec3 { x: Scalar { bits: 0 }, y: Scalar { bits: 0 }, z: Scalar { bits: 0 } }
    }

    /// Whether the vector is the zero vector, up to the machine epsilon on
    /// each coordinate.
    #[verifier::when_used_as_spec(spec_is_null)]
    pub fn is_null(self) -> (r: bool)
        ensures
            r == self.spec_is_null(),
    {
        self.x.negligible() && self.y.negligible() && self.z.negligible()
    }
}

impl Default for Vec3 {
    /// The zero vector.
    fn default() -> (v: Vec3)
        ensures
            v.x.bits == 0,
            v.y.bits == 0,
            v.z.bits == 0,
    {
        Vec3::zero()
    }
}

/// A matrix, row by row.
#[derive(Clone, Copy, Debug)]
pub struct Mat3(pub [[Scalar; 3]; 3]);

impl Mat3 {
    /// The entry of row `i` and column `j`.
    pub open spec fn entry(self, i: int, j: int) -> Scalar {
        self.0[i][j]
    }

    /// Each entry is zero up to the machine epsilon.
    pub open spec fn spec_is_null(self) -> bool {
        forall|i: int, j: int|
            0 <= i < 3 && 0 <= j < 3 ==> (#[trigger] self.entry(i, j)).spec_negligible()
    }

    /// The zero matrix.
    pub fn new() -> (m: Mat3)
        ensures
            forall|i: int, j: int| 0 <= i < 3 && 0 <= j < 3 ==> (#[trigger] m.entry(i, j)).bits == 0,
    {
        Mat3::zero()
    }

    /// The identity: `1.0` on the diagonal and `0.0` elsewhere.
    pub fn id() -> (m: Mat3)
        ensures
            forall|i: int, j: int|
                0 <= i < 3 && 0 <= j < 3 ==> (#[trigger] m.entry(i, j)).bits == (if i == j {
                    ONE_BITS
                } else {
                    0
                }),
    {
        let o = Scalar { bits: 0 };
        let l = Scalar { bits: ONE_BITS };
        Mat3([[l, o, o], [o, l, o], [o, o, l]])
    }

    /// The matrix whose entries are all `0.0`.
    pub fn zero() -> (m: Mat3)
        ensures
            forall|i: int, j: int| 0 <= i < 3 && 0 <= j < 3 ==> (#[trigger] m.entry(i, j)).bits == 0,
    {
        let o = Scalar { bits: 0 };
        Mat3([[o, o, o], [o, o, o], [o, o, o]])
    }

    /// Whether the matrix is the zero matrix, up to the machine epsilon on
    /// each entry.
    #[verifier::when_used_as_spec(spec_is_null)]
    pub fn is_null(self) -> (r: bool)
        ensures
            r == self.spec_is_null(),
    {
        let mut i: usize = 0;
        while i < 3
            invariant
                0 <= i <= 3,
                forall|a: int, b: int|
                    0 <= a < i && 0 <= b < 3 ==> (#[trigger] self.entry(a, b)).spec_negligible(),
            decreases 3 - i,
        {
            let mut j: usize = 0;
            while j < 3
                invariant
                    0 <= i < 3,
                    0 <= j <= 3,
                    forall|a: int, b: int|
                        0 <= a < i && 0 <= b < 3 ==> (#[trigger] self.entry(
                            a,
                            b,
                        )).spec_negligible(),
                    forall|b: int|
                        0 <= b < j ==> (#[trigger] self.entry(i as int, b)).spec_negligible(),
                decreases 3 - j,
            {
                if !self.0[i][j].negligible() {
                    assert(!self.entry(i as int, j as int).spec_negligible());
                    return false;
                }
                j = j + 1;
            }
            i = i + 1;
        }
        true
    }
}

} // verus!
