//! The decisions of a recursive ray-tracing renderer, verified.
//!
//! A renderer of this kind computes with double-precision numbers: it
//! intersects rays with shapes, reflects and refracts directions, and adds
//! up colors.  This library holds what such a renderer decides and leaves
//! to its caller what it computes.  The caller hands in numbers as
//! [`scalar::Scalar`]s, that is by their bit patterns, and closures for the
//! work that only it can do; the library answers which object a ray meets,
//! whether a light is hidden, what is added to a color and in which order,
//! how deep rays are followed, which pixel comes next and when a rendering
//! is over.
//!
//! - [`scalar`]: the order of double-precision numbers, stated on their bits.
//! - [`colors`]: colors whose channels are clamped to the unit interval.
//! - [`vector`], [`primitives`], [`lights`], [`textures`], [`cameras`],
//!   [`scene`]: what a scene is made of, and what decides a hit.
//! - [`ray_algorithm`]: the nearest hit, the shadows, the terms of a color,
//!   the depth of the recursion, the sampling of a pixel.
//! - [`renderer`]: the pixels of a canvas, one after the other or as
//!   independent units of work, and the end of a rendering.
//! - [`result`], [`utils`]: the errors, and the sinks for pixels and
//!   progress.

pub mod cameras;
pub mod colors;
pub mod lights;
pub mod primitives;
pub mod ray_algorithm;
pub mod renderer;
pub mod result;
pub mod scalar;
pub mod scene;
pub mod textures;
pub mod utils;
pub mod vector;
