//! The decisions of the light-transport algorithm.

use vstd::prelude::*;
use crate::colors::{Color, ColorName};
use crate::result::RaytracerError;
use crate::scalar::{Scalar, INFINITY_BITS};
use crate::scene::{SceneConfiguration, SceneObject};
use crate::textures::{Mirror, Phong, TextureEffects, Transparency};

verus! {

/// Bits of `1e-12`.  A hit that is no farther than this from the origin of
/// its ray is the ray touching the surface that it starts from.
pub const SELF_HIT_EPSILON_BITS: u64 = 0x3D71_9799_812D_EA11;

/// The distance below which a hit is not told apart from the origin of the
/// ray.
pub open spec fn self_hit_epsilon() -> Scalar {
    Scalar { bits: SELF_HIT_EPSILON_BITS }
}

/// The distance that lies beyond every finite one: positive infinity.
pub open spec fn farthest() -> Scalar {
    Scalar { bits: INFINITY_BITS }
}

/// The nearest object that a ray meets.
#[derive(Clone, Copy, Debug)]
pub struct CollisionContext {
    /// The index of the object in the scene.
    pub array_index: usize,
    /// The distance from the origin of the ray to the point of the hit.
    pub distance: Scalar,
}

/// A hit at this distance counts: the distance is finite and lies beyond
/// the self-hit epsilon.
pub open spec fn eligible(distance: Option<Scalar>) -> bool {
    distance matches Some(d) && d.spec_gt(self_hit_epsilon()) && d.spec_lt(farthest())
}

/// Among the hits that count, the one at `index` is the nearest, and the
/// first of those that are as near.
pub open spec fn is_nearest(distances: Seq<Option<Scalar>>, index: int) -> bool {
    &&& 0 <= index < distances.len()
    &&& eligible(distances[index])
    &&& forall|j: int|
        0 <= j < distances.len() && eligible(#[trigger] distances[j]) ==> {
            &&& distances[index]->0.spec_le(distances[j]->0)
            &&& j < index ==> distances[index]->0.spec_lt(distances[j]->0)
        }
}

/// Finds the nearest object that a ray meets.  `distances` holds, for each
/// object of the scene, the distance from the origin of the ray to the
/// point where the ray meets the object, or `None` where it does not meet
/// it.  Hits within the self-hit epsilon are left out.  Of two hits at the
/// same distance the first one wins.
pub fn search_object_collision(distances: &Vec<Option<Scalar>>) -> (nearest: Option<
    CollisionContext,
>)
    ensures
        nearest is None <==> forall|j: int|
            0 <= j < distances@.len() ==> !eligible(#[trigger] distances@[j]),
        nearest matches Some(hit) ==> is_nearest(distances@, hit.array_index as int)
            && distances@[hit.array_index as int] == Some(hit.distance),
{
    let mut shortest = Scalar { bits: INFINITY_BITS };
    let mut nearest: Option<CollisionContext> = None;
    let mut index: usize = 0;
    while index < distances.len()
        invariant
            0 <= index <= distances@.len(),
            !shortest.nan(),
            shortest.spec_le(farthest()),
            nearest is None ==> shortest == farthest() && forall|j: int|
                0 <= j < index ==> !eligible(#[trigger] distances@[j]),
            nearest matches Some(hit) ==> {
                &&& hit.array_index < index
                &&& hit.distance == shortest
                &&& distances@[hit.array_index as int] == Some(shortest)
                &&& eligible(Some(shortest))
                &&& forall|j: int|
                    0 <= j < index && eligible(#[trigger] distances@[j]) ==> {
                        &&& shortest.spec_le(distances@[j]->0)
                        &&& j < hit.array_index ==> shortest.spec_lt(distances@[j]->0)
                    }
            },
        decreases distances@.len() - index,
    {
        match distances[index] {
            Some(distance) => {
                if distance.le(Scalar { bits: SELF_HIT_EPSILON_BITS }) {
                } else if distance.lt(shortest) {
                    shortest = distance;
                    nearest = Some(CollisionContext { array_index: index, distance });
                }
            },
            None => {},
        }
        index = index + 1;
    }
    nearest
}

/// An object at this distance along the ray to a light stands between the
/// surface and the light: it lies beyond the self-hit epsilon and nearer
/// than the light.
pub open spec fn blocks(distance: Option<Scalar>, light_distance: Scalar) -> bool {
    distance matches Some(d) && d.spec_gt(self_hit_epsilon()) && d.spec_lt(light_distance)
}

/// Whether an object other than the lit one stands between a surface and a
/// light.  `distances` holds, for each object of the scene, the distance
/// from the surface to the point where the ray to the light meets the
/// object, or `None` where it does not meet it; `lit_object` is the index
/// of the object that the surface belongs to.
pub fn ray_encounter_obstacle(
    distances: &Vec<Option<Scalar>>,
    light_distance: Scalar,
    lit_object: usize,
) -> (hidden: bool)
    ensures
        hidden <==> exists|j: int|
            0 <= j < distances@.len() && j != lit_object && blocks(
                #[trigger] distances@[j],
                light_distance,
            ),
{
    let mut index: usize = 0;
    while index < distances.len()
        invariant
            0 <= index <= distances@.len(),
            forall|j: int|
                0 <= j < index && j != lit_object ==> !blocks(
                    #[trigger] distances@[j],
                    light_distance,
                ),
        decreases distances@.len() - index,
    {
        if index != lit_object {
            match distances[index] {
                Some(distance) => {
                    if distance.gt(Scalar { bits: SELF_HIT_EPSILON_BITS }) && distance.lt(
                        light_distance,
                    ) {
                        return true;
                    }
                },
                None => {},
            }
        }
        index = index + 1;
    }
    false
}

/// What is known of one light at a point of a surface.
#[derive(Clone, Copy, Debug)]
pub struct LightSample {
    /// An object stands between the surface and the light.
    pub hidden: bool,
    /// The direction to the light times the normal of the surface.
    pub reflection_angle: Scalar,
    /// The direction to the light times the direction in which the surface
    /// reflects the ray of the camera.
    pub specular_angle: Scalar,
}

/// What one light adds to the color of a point.
#[derive(Clone, Copy, Debug, PartialEq, Eq, Structural)]
pub struct LightTerms {
    /// The diffuse term is added.
    pub diffuse: bool,
    /// The specular term is added.
    pub specular: bool,
}

/// What the light of `sample` adds: nothing where the light is hidden;
/// else the diffuse term where the light stands on the side of the normal,
/// and the specular term where the surface has a highlight and the light
/// stands on the side of the reflected ray.
pub open spec fn terms_of(sample: LightSample, phong: Option<Phong>) -> LightTerms {
    LightTerms {
        diffuse: !sample.hidden && sample.reflection_angle.spec_gt(Scalar::zero()),
        specular: !sample.hidden && phong is Some && sample.specular_angle.spec_gt(
            Scalar::zero(),
        ),
    }
}

/// Decides, light by light, what is added to the color of a point of the
/// object at `array_index`.
///
/// A light that is hidden adds nothing and asks for nothing.  A light that
/// is not hidden needs the normal of the surface: where the object has
/// none at the point (`has_normal` is false), the point cannot be shaded,
/// and the error names the object.
pub fn illumination_from_lights(
    samples: &Vec<LightSample>,
    has_normal: bool,
    phong: Option<Phong>,
    array_index: usize,
) -> (terms: Result<Vec<LightTerms>, RaytracerError>)
    ensures
        terms is Err <==> !has_normal && exists|j: int|
            0 <= j < samples@.len() && !(#[trigger] samples@[j]).hidden,
        terms matches Err(error) ==> error == RaytracerError::NormalNotFound(array_index),
        terms matches Ok(list) ==> list@ == samples@.map_values(
            |sample: LightSample| terms_of(sample, phong),
        ),
{
    let mut list: Vec<LightTerms> = Vec::new();
    let mut index: usize = 0;
    while index < samples.len()
        invariant
            0 <= index <= samples@.len(),
            list@.len() == index,
            forall|j: int| 0 <= j < index ==> #[trigger] list@[j] == terms_of(samples@[j], phong),
            !has_normal ==> forall|j: int| 0 <= j < index ==> (#[trigger] samples@[j]).hidden,
        decreases samples@.len() - index,
    {
        let sample = samples[index];
        if sample.hidden {
            list.push(LightTerms { diffuse: false, specular: false });
        } else {
            if !has_normal {
                return Err(RaytracerError::NormalNotFound(array_index));
            }
            let zero = Scalar { bits: 0 };
            list.push(
                LightTerms {
                    diffuse: sample.reflection_angle.gt(zero),
                    specular: phong.is_some() && sample.specular_angle.gt(zero),
                },
            );
        }
        index = index + 1;
    }
    assert(list@ =~= samples@.map_values(|sample: LightSample| terms_of(sample, phong)));
    Ok(list)
}

/// What becomes of a ray.
#[derive(Clone, Copy, Debug)]
pub enum Trace {
    /// The ray is not followed, or meets nothing: it has the color of the
    /// world.
    Background(Color),
    /// The ray meets an object, which is to be shaded.
    Shade(Shading),
}

/// What goes into the color of a point of an object, besides the lights.
#[derive(Clone, Copy, Debug)]
pub struct Shading {
    /// The object, and how far along the ray it was met.
    pub hit: CollisionContext,
    /// The light that comes through the object, where it is transparent.
    pub refraction: Option<Transparency>,
    /// The light that the object mirrors, where it is a mirror.
    pub reflection: Option<Mirror>,
    /// The ambient light of the scene, where it has one.
    pub ambient: Option<Color>,
    /// The depth at which the refracted and the reflected ray are traced;
    /// `None` where no depth is left, in which case each of them has the
    /// color of the world.
    pub secondary_depth: Option<u8>,
}

/// One of the terms that add up to the color of a point.
#[derive(Clone, Copy, Debug)]
pub enum ShadingTerm {
    /// What the lights of the scene give, light after light.
    Lights,
    /// What comes through the object.
    Refraction(Transparency),
    /// What the object mirrors.
    Reflection(Mirror),
    /// What the ambient light gives.
    Ambient(Color),
}

impl Shading {
    /// The terms of the color, in the order in which they are added.
    pub open spec fn spec_terms(&self) -> Seq<ShadingTerm> {
        seq![ShadingTerm::Lights] + (match self.refraction {
            Some(transparency) => seq![ShadingTerm::Refraction(transparency)],
            None => Seq::empty(),
        }) + (match self.reflection {
            Some(mirror) => seq![ShadingTerm::Reflection(mirror)],
            None => Seq::empty(),
        }) + (match self.ambient {
            Some(color) => seq![ShadingTerm::Ambient(color)],
            None => Seq::empty(),
        })
    }

    /// The terms of the color, in the order in which they are added: the
    /// lights first, then the refraction, the reflection and the ambient
    /// light, each of the three where there is one.  The color is clamped
    /// after each addition, so the order counts.
    pub fn terms(&self) -> (terms: Vec<ShadingTerm>)
        ensures
            terms@ == self.spec_terms(),
    {
        let mut terms: Vec<ShadingTerm> = Vec::new();
        terms.push(ShadingTerm::Lights);
        if let Some(transparency) = self.refraction {
            terms.push(ShadingTerm::Refraction(transparency));
        }
        if let Some(mirror) = self.reflection {
            terms.push(ShadingTerm::Reflection(mirror));
        }
        if let Some(color) = self.ambient {
            terms.push(ShadingTerm::Ambient(color));
        }
        assert(terms@ =~= self.spec_terms());
        terms
    }
}

/// The light that comes through a transparent object: where the ray that
/// went through the object leaves it, how much of what comes from there is
/// kept, and the depth at which the ray from there is traced.
#[derive(Clone, Copy, Debug)]
pub struct Refraction {
    /// The object that the refracted ray meets, and how far along that ray.
    pub exit: CollisionContext,
    /// The share of the light that is kept.
    pub alpha: Scalar,
    /// The depth at which the ray from the exit is traced; `None` where no
    /// depth is left, in which case that ray has the color of the world.
    pub depth: Option<u8>,
}

impl Shading {
    /// What `refraction` answers.
    pub open spec fn spec_refraction(&self, exit: Option<CollisionContext>) -> Option<
        Refraction,
    > {
        match (self.refraction, exit) {
            (Some(transparency), Some(exit)) => Some(
                Refraction { exit, alpha: transparency.alpha, depth: self.secondary_depth },
            ),
            _ => None,
        }
    }

    /// Decides whether the refraction adds a term to the color.  `exit` is
    /// the nearest object that the refracted ray meets, as
    /// `search_object_collision` finds it.
    ///
    /// A term is added where the object is transparent and the refracted
    /// ray meets an object.  Where the refracted ray meets nothing, nothing
    /// is added, and the color is what it is without the refraction.
    #[verifier::when_used_as_spec(spec_refraction)]
    pub fn refraction(&self, exit: Option<CollisionContext>) -> (term: Option<Refraction>)
        ensures
            term == self.spec_refraction(exit),
            self.refraction is None || exit is None <==> term is None,
    {
        match (self.refraction, exit) {
            (Some(transparency), Some(exit)) => Some(
                Refraction { exit, alpha: transparency.alpha, depth: self.secondary_depth },
            ),
            _ => None,
        }
    }
}

/// The color of a ray that is not followed because it is deeper than the
/// scene allows: the color of the world.  `None` for a ray that is
/// followed.
pub open spec fn cut_off(depth: u8, config: SceneConfiguration) -> Option<Color> {
    if depth > config.maximum_light_recursion {
        Some(config.world_color)
    } else {
        None
    }
}

/// Decides, before anything is computed for a ray, whether the ray is
/// followed: one that is deeper than the scene allows is not, and has the
/// color of the world.
pub fn depth_cutoff(depth: u8, config: &SceneConfiguration) -> (color: Option<Color>)
    ensures
        color == cut_off(depth, *config),
{
    if depth > config.maximum_light_recursion {
        Some(config.world_color)
    } else {
        None
    }
}

/// What `launch_ray` answers for a ray at `depth` of which `nearest` is the
/// nearest hit, if it has one.
pub open spec fn traced(
    depth: u8,
    config: SceneConfiguration,
    effects: Seq<TextureEffects>,
    nearest: Option<CollisionContext>,
) -> Trace {
    if depth > config.maximum_light_recursion {
        Trace::Background(config.world_color)
    } else {
        match nearest {
            None => Trace::Background(config.world_color),
            Some(hit) => Trace::Shade(
                Shading {
                    hit,
                    refraction: effects[hit.array_index as int].transparency,
                    reflection: effects[hit.array_index as int].mirror,
                    ambient: config.ambient_light,
                    secondary_depth: if depth < u8::MAX {
                        Some((depth + 1) as u8)
                    } else {
                        None
                    },
                },
            ),
        }
    }
}

/// The effects of each object of a scene.
pub open spec fn effects_of<T, S>(objects: Seq<SceneObject<T, S>>) -> Seq<TextureEffects> {
    objects.map_values(|object: SceneObject<T, S>| object.effects)
}

/// Decides what becomes of a ray at `depth`.  `distances` holds, for each
/// object of the scene, the distance from the origin of the ray to the
/// point where the ray meets the object, or `None` where it does not.
///
/// A ray deeper than the scene allows is not followed, and one that meets
/// nothing ends: both have the color of the world.  Any other ray is
/// shaded at the nearest object that it meets, with the effects of that
/// object and the ambient light of the scene; the rays that the effects
/// send out are one level deeper.
pub fn launch_ray<T, S>(
    depth: u8,
    config: &SceneConfiguration,
    objects: &Vec<SceneObject<T, S>>,
    distances: &Vec<Option<Scalar>>,
) -> (trace: Trace)
    requires
        distances@.len() == objects@.len(),
    ensures
        depth > config.maximum_light_recursion ==> trace == Trace::Background(
            config.world_color,
        ),
        depth <= config.maximum_light_recursion ==> match trace {
            Trace::Background(color) => {
                &&& color == config.world_color
                &&& forall|j: int|
                    0 <= j < distances@.len() ==> !eligible(#[trigger] distances@[j])
            },
            Trace::Shade(shading) => {
                &&& is_nearest(distances@, shading.hit.array_index as int)
                &&& distances@[shading.hit.array_index as int] == Some(shading.hit.distance)
                &&& trace == traced(depth, *config, effects_of(objects@), Some(shading.hit))
            },
        },
{
    if depth > config.maximum_light_recursion {
        return Trace::Background(config.world_color);
    }
    match search_object_collision(distances) {
        None => Trace::Background(config.world_color),
        Some(hit) => {
            let effects = objects[hit.array_index].effects();
            Trace::Shade(
                Shading {
                    hit,
                    refraction: effects.transparency,
                    reflection: effects.mirror,
                    ambient: config.ambient_light,
                    secondary_depth: if depth < u8::MAX {
                        Some(depth + 1)
                    } else {
                        None
                    },
                },
            )
        },
    }
}

/// The nearest hit is one object and no other: two indices that both
/// stand for the nearest hit are the same index.
pub proof fn lemma_nearest_is_unique(distances: Seq<Option<Scalar>>, first: int, second: int)
    requires
        is_nearest(distances, first),
        is_nearest(distances, second),
    ensures
        first == second,
{
    if first < second {
        assert(eligible(distances[first]));
    } else if second < first {
        assert(eligible(distances[second]));
    }
}

/// Rays are followed to a bounded depth.  Take a ray of the camera, the
/// ray that the object it meets sends out, the ray that the next object
/// sends out, and so on, each of them shaded and each one level deeper
/// than the one before: there are at most as many of them as the scene
/// allows levels, and one more for the ray of the camera.
pub proof fn lemma_bounces_are_bounded(
    config: SceneConfiguration,
    effects: Seq<TextureEffects>,
    depths: Seq<u8>,
    hits: Seq<Option<CollisionContext>>,
)
    requires
        hits.len() == depths.len(),
        depths.len() > 0 ==> depths[0] == 0,
        forall|i: int|
            0 <= i < depths.len() ==> (#[trigger] traced(depths[i], config, effects, hits[i]))
                is Shade,
        forall|i: int|
            0 <= i < depths.len() - 1 ==> (#[trigger] traced(
                depths[i],
                config,
                effects,
                hits[i],
            ))->Shade_0.secondary_depth == Some(depths[i + 1]),
    ensures
        depths.len() <= config.maximum_light_recursion + 1,
{
    if depths.len() > 0 {
        lemma_depth_of_bounce(config, effects, depths, hits, depths.len() - 1);
        assert(traced(
            depths[depths.len() - 1],
            config,
            effects,
            hits[depths.len() - 1],
        ) is Shade);
    }
}

/// In a chain of rays, each one level deeper than the one before, the ray
/// of index `at` is at depth `at`.
proof fn lemma_depth_of_bounce(
    config: SceneConfiguration,
    effects: Seq<TextureEffects>,
    depths: Seq<u8>,
    hits: Seq<Option<CollisionContext>>,
    at: int,
)
    requires
        hits.len() == depths.len(),
        0 <= at < depths.len(),
        depths[0] == 0,
        forall|i: int|
            0 <= i < depths.len() ==> (#[trigger] traced(depths[i], config, effects, hits[i]))
                is Shade,
        forall|i: int|
            0 <= i < depths.len() - 1 ==> (#[trigger] traced(
                depths[i],
                config,
                effects,
                hits[i],
            ))->Shade_0.secondary_depth == Some(depths[i + 1]),
    ensures
        depths[at] == at,
    decreases at,
{
    if at > 0 {
        lemma_depth_of_bounce(config, effects, depths, hits, at - 1);
        assert(traced(depths[at - 1], config, effects, hits[at - 1]) is Shade);
    }
}

/// The normal of the object at `array_index`, where it has one at the
/// point of the hit; the error that names the object, where it has none.
pub fn normal_or_error<V>(normal: Option<V>, array_index: usize) -> (r: Result<
    V,
    RaytracerError,
>)
    ensures
        r == (match normal {
            Some(vector) => Ok::<V, RaytracerError>(vector),
            None => Err::<V, RaytracerError>(RaytracerError::NormalNotFound(array_index)),
        }),
{
    match normal {
        Some(vector) => Ok(vector),
        None => Err(RaytracerError::NormalNotFound(array_index)),
    }
}

/// Traces one ray through the center of the pixel.
#[derive(Clone, Copy, Debug)]
pub struct StandardRenderStrategy;

/// Traces `rays_per_pixel` rays spread at random over the pixel and
/// averages what they bring back.
#[derive(Clone, Copy, Debug)]
pub struct RandomAntiAliasingRenderStrategy {
    pub rays_per_pixel: u32,
}

impl StandardRenderStrategy {
    /// The color of a pixel: that of the one ray through its center, which
    /// `trace_center` sends.
    pub fn render_pixel<T: FnOnce() -> Result<Color, RaytracerError>>(
        &self,
        trace_center: T,
    ) -> (color: Result<Color, RaytracerError>)
        requires
            trace_center.requires(()),
        ensures
            trace_center.ensures((), color),
    {
        trace_center()
    }
}

/// The standard strategy adds nothing of its own to what its one ray
/// brings back.  Where tracing the ray through the center of a pixel can
/// have one outcome only, two renderings of the pixel have the same
/// outcome: the same error, or colors that are equal bit for bit.
pub proof fn lemma_standard_strategy_adds_no_randomness<
    T: FnOnce() -> Result<Color, RaytracerError>,
>(trace_center: T, first: Result<Color, RaytracerError>, second: Result<Color, RaytracerError>)
    requires
        forall|a: Result<Color, RaytracerError>, b: Result<Color, RaytracerError>|
            #![trigger trace_center.ensures((), a), trace_center.ensures((), b)]
            trace_center.ensures((), a) && trace_center.ensures((), b) ==> a == b,
        trace_center.ensures((), first),
        trace_center.ensures((), second),
    ensures
        first == second,
{
}

/// `color` is what the rays through the points `draws` of a pixel leave in
/// it: black where there is no ray; else what `blend` makes of what the
/// rays before the last one left and of the color that `trace` brought
/// back for the last one.
pub open spec fn averaged<
    T: Fn(Scalar, Scalar) -> Result<Color, RaytracerError>,
    A: Fn(Color, Color) -> Color,
>(trace: T, blend: A, draws: Seq<(Scalar, Scalar)>, color: Color) -> bool
    decreases draws.len(),
{
    if draws.len() == 0 {
        color.is_named(ColorName::Black)
    } else {
        exists|before: Color, sample: Color|
            #![trigger blend.ensures((before, sample), color)]
            {
                &&& averaged(trace, blend, draws.drop_last(), before)
                &&& trace.ensures(draws.last(), Ok(sample))
                &&& blend.ensures((before, sample), color)
            }
    }
}

/// Each of the points `draws` is one that `draw` gave.
pub open spec fn drawn<D: Fn() -> (Scalar, Scalar)>(draw: D, draws: Seq<(Scalar, Scalar)>) -> bool {
    forall|i: int| 0 <= i < draws.len() ==> draw.ensures((), #[trigger] draws[i])
}

/// `color` is what `rays` rays leave in a pixel, each of them sent through
/// a point that `draw` gave.
pub open spec fn sampled<
    D: Fn() -> (Scalar, Scalar),
    T: Fn(Scalar, Scalar) -> Result<Color, RaytracerError>,
    A: Fn(Color, Color) -> Color,
>(draw: D, trace: T, blend: A, rays: nat, color: Color) -> bool {
    exists|draws: Seq<(Scalar, Scalar)>|
        #![trigger averaged(trace, blend, draws, color)]
        {
            &&& draws.len() == rays
            &&& drawn(draw, draws)
            &&& averaged(trace, blend, draws, color)
        }
}

/// `error` is what `trace` gave for a ray through a point that `draw` gave.
pub open spec fn failed<
    D: Fn() -> (Scalar, Scalar),
    T: Fn(Scalar, Scalar) -> Result<Color, RaytracerError>,
>(draw: D, trace: T, error: RaytracerError) -> bool {
    exists|point: (Scalar, Scalar)|
        #![trigger trace.ensures(point, Err(error))]
        draw.ensures((), point) && trace.ensures(point, Err(error))
}

impl RandomAntiAliasingRenderStrategy {
    /// The color of a pixel.  For one ray after the other, `draw` gives
    /// two numbers drawn at random, which stand for a point of the pixel,
    /// `trace` sends the ray through that point, and `blend` adds the share
    /// of the ray to what the rays before it left, starting from black.
    /// The first ray that fails ends the pixel with its error.
    pub fn render_pixel<
        D: Fn() -> (Scalar, Scalar),
        T: Fn(Scalar, Scalar) -> Result<Color, RaytracerError>,
        A: Fn(Color, Color) -> Color,
    >(&self, draw: &D, trace: &T, blend: &A) -> (color: Result<Color, RaytracerError>)
        requires
            draw.requires(()),
            forall|u: Scalar, v: Scalar| trace.requires((u, v)),
            forall|before: Color, sample: Color| blend.requires((before, sample)),
        ensures
            match color {
                Ok(c) => sampled(*draw, *trace, *blend, self.rays_per_pixel as nat, c),
                Err(error) => self.rays_per_pixel > 0 && failed(*draw, *trace, error),
            },
    {
        let mut result_color = Color::named(ColorName::Black);
        let mut ray: u32 = 0;
        let ghost mut draws: Seq<(Scalar, Scalar)> = Seq::empty();
        while ray < self.rays_per_pixel
            invariant
                0 <= ray <= self.rays_per_pixel,
                draw.requires(()),
                forall|u: Scalar, v: Scalar| trace.requires((u, v)),
                forall|before: Color, sample: Color| blend.requires((before, sample)),
                draws.len() == ray,
                drawn(*draw, draws),
                averaged(*trace, *blend, draws, result_color),
            decreases self.rays_per_pixel - ray,
        {
            let point = draw();
            match trace(point.0, point.1) {
                Ok(sample) => {
                    let ghost before = result_color;
                    let ghost earlier = draws;
                    result_color = blend(result_color, sample);
                    proof {
                        draws = earlier.push(point);
                        assert(draws.drop_last() == earlier);
                        assert(draws.last() == point);
                        assert(averaged(*trace, *blend, draws.drop_last(), before)
                            && trace.ensures(draws.last(), Ok(sample)) && blend.ensures(
                            (before, sample),
                            result_color,
                        ));
                    }
                },
                Err(error) => {
                    assert(draw.ensures((), point) && trace.ensures(point, Err(error)));
                    return Err(error);
                },
            }
            ray = ray + 1;
        }
        assert(draws.len() == self.rays_per_pixel && drawn(*draw, draws) && averaged(
            *trace,
            *blend,
            draws,
            result_color,
        ));
        Ok(result_color)
    }
}

/// The color of a pixel depends on its rays alone.  Where tracing a ray
/// through a point can have one outcome only, and blending two colors one
/// result only, two renderings of a pixel through the same points, in the
/// same order, leave colors in it that are equal bit for bit.
pub proof fn lemma_equal_draws_give_equal_colors<
    T: Fn(Scalar, Scalar) -> Result<Color, RaytracerError>,
    A: Fn(Color, Color) -> Color,
>(trace: T, blend: A, draws: Seq<(Scalar, Scalar)>, first: Color, second: Color)
    requires
        forall|
            point: (Scalar, Scalar),
            a: Result<Color, RaytracerError>,
            b: Result<Color, RaytracerError>,
        |
            #![trigger trace.ensures(point, a), trace.ensures(point, b)]
            trace.ensures(point, a) && trace.ensures(point, b) ==> a == b,
        forall|colors: (Color, Color), a: Color, b: Color|
            #![trigger blend.ensures(colors, a), blend.ensures(colors, b)]
            blend.ensures(colors, a) && blend.ensures(colors, b) ==> a == b,
        averaged(trace, blend, draws, first),
        averaged(trace, blend, draws, second),
    ensures
        first == second,
    decreases draws.len(),
{
    if draws.len() == 0 {
        Color::lemma_named_is_one_color(first, second, ColorName::Black);
    } else {
        let (before_1, sample_1) = choose|before: Color, sample: Color|
            #![trigger blend.ensures((before, sample), first)]
            {
                &&& averaged(trace, blend, draws.drop_last(), before)
                &&& trace.ensures(draws.last(), Ok(sample))
                &&& blend.ensures((before, sample), first)
            };
        let (before_2, sample_2) = choose|before: Color, sample: Color|
            #![trigger blend.ensures((before, sample), second)]
            {
                &&& averaged(trace, blend, draws.drop_last(), before)
                &&& trace.ensures(draws.last(), Ok(sample))
                &&& blend.ensures((before, sample), second)
            };
        lemma_equal_draws_give_equal_colors(trace, blend, draws.drop_last(), before_1, before_2);
        assert(Ok::<Color, RaytracerError>(sample_1) == Ok::<Color, RaytracerError>(sample_2));
    }
}

/// The way a pixel is sampled.
#[derive(Clone, Copy, Debug)]
pub enum RenderStrategy {
    Standard(StandardRenderStrategy),
    RandomAntiAliasing(RandomAntiAliasingRenderStrategy),
}

impl RenderStrategy {
    /// The number of rays traced for one pixel.
    pub open spec fn spec_rays_per_pixel(&self) -> u32 {
        match *self {
            RenderStrategy::Standard(_) => 1,
            RenderStrategy::RandomAntiAliasing(s) => s.rays_per_pixel,
        }
    }

    /// The number of rays traced for one pixel: one for the standard
    /// strategy, as many as asked for otherwise.
    #[verifier::when_used_as_spec(spec_rays_per_pixel)]
    pub fn rays_per_pixel(&self) -> (n: u32)
        ensures
            n == self.spec_rays_per_pixel(),
    {
        match self {
            RenderStrategy::Standard(_) => 1,
            RenderStrategy::RandomAntiAliasing(s) => s.rays_per_pixel,
        }
    }

    /// Whether the strategy is the standard one, which draws nothing at
    /// random.
    pub fn is_deterministic(&self) -> (d: bool)
        ensures
            d == (*self is Standard),
    {
        match self {
            RenderStrategy::Standard(_) => true,
            RenderStrategy::RandomAntiAliasing(_) => false,
        }
    }
}

} // verus!
