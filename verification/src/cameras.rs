//! What a camera asks of the point of the canvas through which it is to
//! send a ray.

use vstd::prelude::*;
use crate::scalar::Scalar;

verus! {

/// Whether a camera sends a ray through the point of the canvas with the
/// coordinates `canvas_x` and `canvas_y`.  Both run from zero to one over
/// the canvas, and both are accepted up to the machine epsilon beyond
/// either end.
pub fn on_canvas(canvas_x: Scalar, canvas_y: Scalar) -> (r: bool)
    ensures
        r == (canvas_x.spec_near_unit_interval() && canvas_y.spec_near_unit_interval()),
        canvas_x.in_unit_interval() && canvas_y.in_unit_interval() ==> r,
{
    canvas_x.near_unit_interval() && canvas_y.near_unit_interval()
}

} // verus!
