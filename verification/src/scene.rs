//! What a scene is made of.

use vstd::prelude::*;
use crate::colors::{Color, ColorName};
use crate::scalar::{Scalar, ONE_BITS};
use crate::textures::TextureEffects;

verus! {

/// Bits of `0.2`.
pub const AMBIENT_DEFAULT_BITS: u64 = 0x3FC9_9999_9999_999A;

/// What holds for the whole scene.
#[derive(Clone, Copy, Debug)]
pub struct SceneConfiguration {
    /// The color of a ray that meets nothing.
    pub world_color: Color,
    pub world_refractive_index: Scalar,
    /// The light that reaches every surface, if there is any.
    pub ambient_light: Option<Color>,
    /// The largest depth at which a ray is still traced.
    pub maximum_light_recursion: u8,
}

impl Default for SceneConfiguration {
    /// A black world of refractive index `1.0`, an ambient light of `0.2`
    /// on each channel, and two levels of recursion.
    fn default() -> (config: SceneConfiguration)
        ensures
            config.world_color.spec_red().bits == 0,
            config.world_color.spec_green().bits == 0,
            config.world_color.spec_blue().bits == 0,
            config.world_refractive_index.bits == ONE_BITS,
            config.ambient_light matches Some(ambient) && ambient.has_channels(
                Scalar { bits: AMBIENT_DEFAULT_BITS },
                Scalar { bits: AMBIENT_DEFAULT_BITS },
                Scalar { bits: AMBIENT_DEFAULT_BITS },
            ),
            config.maximum_light_recursion == 2,
    {
        let ambient = Scalar { bits: AMBIENT_DEFAULT_BITS };
        SceneConfiguration {
            world_color: Color::named(ColorName::Black),
            world_refractive_index: Scalar { bits: ONE_BITS },
            ambient_light: Some(Color::new(ambient, ambient, ambient)),
            maximum_light_recursion: 2,
        }
    }
}

/// A shape with its texture and its optical effects.
pub struct SceneObject<T, S> {
    pub texture: T,
    pub shape: S,
    pub effects: TextureEffects,
}

impl<T, S> SceneObject<T, S> {
    /// The optical effects of the object.
    pub fn effects(&self) -> (e: &TextureEffects)
        ensures
            *e == self.effects,
    {
        &self.effects
    }
}

/// A camera, lights, objects, and what holds for all of them.  A scene is
/// built once and only read while it is rendered.
pub struct Scene<K, L, O> {
    pub camera: K,
    pub lights: Vec<L>,
    pub objects: Vec<O>,
    pub config: SceneConfiguration,
}

} // verus!
