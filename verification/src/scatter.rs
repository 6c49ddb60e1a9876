//! What becomes of a ray at a surface: for each kind of material, the color
//! that the surface takes from the light and the ray that goes on, or that the
//! ray ends there.
//!
//! The caller draws the random numbers and computes the candidate directions;
//! the rules here pick among them.

use vstd::prelude::*;
use crate::material::Material;
use crate::scalar::{Scalar, ONE_BITS};
use crate::scene::Intersection;
use crate::texture::{
    lemma_lookup_stays_inside, texel_at, texture_lookup, Texture, TextureDescriptor, LAST_CELL,
};
use crate::vector::{Ray, Vec3};

verus! {

/// What becomes of a ray at a surface.
#[derive(Clone, Copy, Debug)]
pub enum ScatterOutcome {
    /// The ray ends at the surface.
    Absorbed,
    /// The ray goes on as `ray`, and the surface takes `attenuation` of its
    /// light, channel by channel.
    Scattered { attenuation: Vec3, ray: Ray },
    /// The surface coordinates lead to a texel outside the array of texels:
    /// the texture's descriptor and the array do not belong together.
    TexelOutOfRange,
}

/// What the caller computed for the scattering at one hit. Each kind of
/// material reads its own part and no other.
#[derive(Clone, Copy, Debug)]
pub struct ScatterSample {
    /// For a surface that scatters evenly: the normal plus a random unit
    /// vector.
    pub diffuse: Vec3,
    /// For a mirror: the incoming direction mirrored at the normal,
    /// `d - 2 dot(d, n) n`.
    pub mirrored: Vec3,
    /// The dot product of `mirrored` and the normal.
    pub mirrored_facing: Scalar,
    /// For a fuzzy mirror: `mirrored` plus the fuzz times a random point of the
    /// unit ball.
    pub fuzzed: Vec3,
    /// The dot product of `fuzzed` and the normal.
    pub fuzzed_facing: Scalar,
    /// For glass: the incoming direction bent by Snell's law.
    pub refracted: Vec3,
    /// For glass: the ratio of the refraction indices times the sine of the
    /// angle of incidence. Above one, no light passes.
    pub sine_ratio: Scalar,
    /// For glass: the share of light that is mirrored, by Schlick's
    /// approximation.
    pub reflectance: Scalar,
    /// For glass: a random number from 0 to 1, against which the reflectance
    /// is held.
    pub toss: Scalar,
    /// For a checkerboard: the checker function at the hit point, whose sign
    /// tells the two textures apart.
    pub pattern: Scalar,
    /// For a textured surface: the column of the albedo texture (of the even
    /// texture of a checkerboard) at the hit, `u * width` with the hit's `u`
    /// held to the span from zero to one.
    pub column: Scalar,
    /// The row there, `(1 - v) * height` with `v` held to the same span.
    pub row: Scalar,
    /// For a checkerboard: column and row of the odd texture at the hit.
    pub odd_column: Scalar,
    pub odd_row: Scalar,
}

/// The outcome for a ray that goes on in `direction` from the hit and is
/// colored by the texel of the texture `albedo` in the given column and row:
/// absorbed where the direction has a NaN or no length.
pub open spec fn textured_outcome(
    albedo: TextureDescriptor,
    textures: Seq<[Scalar; 3]>,
    column: Scalar,
    row: Scalar,
    hit: Intersection,
    direction: Vec3,
) -> ScatterOutcome {
    if direction.degenerate() {
        ScatterOutcome::Absorbed
    } else {
        match texel_at(albedo, textures, column, row) {
            Some(attenuation) => ScatterOutcome::Scattered {
                attenuation,
                ray: Ray { origin: hit.point, direction },
            },
            None => ScatterOutcome::TexelOutOfRange,
        }
    }
}

/// The direction that a metal sends the ray in: the mirrored one where the
/// fuzz is not above zero, else the fuzzed one.
pub open spec fn metal_direction(fuzz: Scalar, sample: ScatterSample) -> Vec3 {
    if fuzz.above_zero() {
        sample.fuzzed
    } else {
        sample.mirrored
    }
}

/// The dot product of the direction that a metal sends the ray in and the
/// normal.
pub open spec fn metal_facing(fuzz: Scalar, sample: ScatterSample) -> Scalar {
    if fuzz.above_zero() {
        sample.fuzzed_facing
    } else {
        sample.mirrored_facing
    }
}

/// What becomes of a ray at a metal: it is absorbed unless it leaves the
/// surface (the dot product of its direction and the normal is above zero).
pub open spec fn metal_outcome(
    albedo: TextureDescriptor,
    fuzz: Scalar,
    textures: Seq<[Scalar; 3]>,
    hit: Intersection,
    sample: ScatterSample,
) -> ScatterOutcome {
    if metal_facing(fuzz, sample).above_zero() {
        textured_outcome(
            albedo,
            textures,
            sample.column,
            sample.row,
            hit,
            metal_direction(fuzz, sample),
        )
    } else {
        ScatterOutcome::Absorbed
    }
}

/// Glass mirrors the ray where no light can pass or the reflectance is above
/// the toss; else it bends it.
pub open spec fn glass_mirrors(sample: ScatterSample) -> bool {
    Scalar { bits: ONE_BITS }.less(sample.sine_ratio) || sample.toss.less(sample.reflectance)
}

/// The color white.
pub open spec fn white() -> Vec3 {
    Vec3 { x: Scalar { bits: ONE_BITS }, y: Scalar { bits: ONE_BITS }, z: Scalar { bits: ONE_BITS } }
}

/// What becomes of a ray at glass: it is mirrored or bent, and keeps all its
/// light.
pub open spec fn dielectric_outcome(hit: Intersection, sample: ScatterSample) -> ScatterOutcome {
    let direction = if glass_mirrors(sample) {
        sample.mirrored
    } else {
        sample.refracted
    };
    if direction.degenerate() {
        ScatterOutcome::Absorbed
    } else {
        ScatterOutcome::Scattered { attenuation: white(), ray: Ray { origin: hit.point, direction } }
    }
}

/// What becomes of a ray at a checkerboard: as at a Lambertian surface,
/// colored by the odd texture where the checker function is below zero, else
/// by the even one.
pub open spec fn checkerboard_outcome(
    even: TextureDescriptor,
    odd: TextureDescriptor,
    textures: Seq<[Scalar; 3]>,
    hit: Intersection,
    sample: ScatterSample,
) -> ScatterOutcome {
    if sample.pattern.below_zero() {
        textured_outcome(odd, textures, sample.odd_column, sample.odd_row, hit, sample.diffuse)
    } else {
        textured_outcome(even, textures, sample.column, sample.row, hit, sample.diffuse)
    }
}

fn textured(
    albedo: TextureDescriptor,
    textures: &[[Scalar; 3]],
    column: Scalar,
    row: Scalar,
    hit: &Intersection,
    direction: Vec3,
) -> (r: ScatterOutcome)
    ensures
        r == textured_outcome(albedo, textures@, column, row, *hit, direction),
{
    if direction.is_degenerate() {
        return ScatterOutcome::Absorbed;
    }
    match texture_lookup(albedo, textures, column, row) {
        Some(attenuation) => ScatterOutcome::Scattered {
            attenuation,
            ray: Ray::new(hit.point, direction),
        },
        None => ScatterOutcome::TexelOutOfRange,
    }
}

/// Scatters a ray at a Lambertian surface: it goes on in the sampled diffuse
/// direction, colored by the albedo's texel in the sampled column and row.
pub fn scatter_lambertian(
    albedo: TextureDescriptor,
    textures: &[[Scalar; 3]],
    hit: &Intersection,
    sample: &ScatterSample,
) -> (r: ScatterOutcome)
    ensures
        r == textured_outcome(albedo, textures@, sample.column, sample.row, *hit, sample.diffuse),
{
    textured(albedo, textures, sample.column, sample.row, hit, sample.diffuse)
}

/// Scatters a ray at a metal: it goes on mirrored, or fuzzed where the fuzz is
/// above zero, colored by the albedo; it is absorbed where that direction does
/// not leave the surface.
pub fn scatter_metal(
    albedo: TextureDescriptor,
    fuzz: Scalar,
    textures: &[[Scalar; 3]],
    hit: &Intersection,
    sample: &ScatterSample,
) -> (r: ScatterOutcome)
    ensures
        r == metal_outcome(albedo, fuzz, textures@, *hit, *sample),
        r is Scattered ==> metal_facing(fuzz, *sample).above_zero(),
{
    let fuzzy = fuzz.is_above_zero();
    let facing = if fuzzy {
        sample.fuzzed_facing
    } else {
        sample.mirrored_facing
    };
    if !facing.is_above_zero() {
        return ScatterOutcome::Absorbed;
    }
    let direction = if fuzzy {
        sample.fuzzed
    } else {
        sample.mirrored
    };
    textured(albedo, textures, sample.column, sample.row, hit, direction)
}

/// Scatters a ray at glass: it is mirrored where no light can pass or the
/// reflectance is above the toss, else bent; it keeps all its light.
pub fn scatter_dielectric(hit: &Intersection, sample: &ScatterSample) -> (r: ScatterOutcome)
    ensures
        r == dielectric_outcome(*hit, *sample),
        r !is TexelOutOfRange,
{
    let one = Scalar::from_bits(ONE_BITS);
    let direction = if one.below(sample.sine_ratio) || sample.toss.below(sample.reflectance) {
        sample.mirrored
    } else {
        sample.refracted
    };
    if direction.is_degenerate() {
        return ScatterOutcome::Absorbed;
    }
    ScatterOutcome::Scattered {
        attenuation: Vec3::new(one, one, one),
        ray: Ray::new(hit.point, direction),
    }
}

/// Scatters a ray at a checkerboard: as at a Lambertian surface, colored by
/// the odd texture where the checker function is below zero, else by the even
/// one.
pub fn scatter_checkerboard(
    even: TextureDescriptor,
    odd: TextureDescriptor,
    textures: &[[Scalar; 3]],
    hit: &Intersection,
    sample: &ScatterSample,
) -> (r: ScatterOutcome)
    ensures
        r == checkerboard_outcome(even, odd, textures@, *hit, *sample),
{
    if sample.pattern.is_below_zero() {
        textured(odd, textures, sample.odd_column, sample.odd_row, hit, sample.diffuse)
    } else {
        textured(even, textures, sample.column, sample.row, hit, sample.diffuse)
    }
}

/// The descriptor of a texture that is stored by itself.
pub open spec fn alone(texture: Texture) -> TextureDescriptor {
    TextureDescriptor { width: texture.size().0, height: texture.size().1, offset: 0 }
}

/// What becomes of a ray at a surface of the given material.
pub open spec fn outcome(material: Material, hit: Intersection, sample: ScatterSample) -> ScatterOutcome {
    match material {
        Material::Lambertian { albedo } => textured_outcome(
            alone(albedo),
            albedo@,
            sample.column,
            sample.row,
            hit,
            sample.diffuse,
        ),
        Material::Metal { albedo, fuzz } => metal_outcome(alone(albedo), fuzz, albedo@, hit, sample),
        Material::Dielectric { refraction_index } => dielectric_outcome(hit, sample),
        Material::Checkerboard { even, odd } => if sample.pattern.below_zero() {
            textured_outcome(
                alone(odd),
                odd@,
                sample.odd_column,
                sample.odd_row,
                hit,
                sample.diffuse,
            )
        } else {
            textured_outcome(alone(even), even@, sample.column, sample.row, hit, sample.diffuse)
        },
    }
}

fn own_descriptor(texture: &Texture) -> (d: TextureDescriptor)
    ensures
        d == alone(*texture),
{
    let dimensions = texture.dimensions();
    TextureDescriptor { width: dimensions.0, height: dimensions.1, offset: 0 }
}

/// Scatters a ray at a surface of the given material, by the rule of the
/// material's kind.
pub fn scatter(material: &Material, hit: &Intersection, sample: &ScatterSample) -> (r:
    ScatterOutcome)
    ensures
        r == outcome(*material, *hit, *sample),
{
    match material {
        Material::Lambertian { albedo } => scatter_lambertian(
            own_descriptor(albedo),
            albedo.as_slice(),
            hit,
            sample,
        ),
        Material::Metal { albedo, fuzz } => scatter_metal(
            own_descriptor(albedo),
            *fuzz,
            albedo.as_slice(),
            hit,
            sample,
        ),
        Material::Dielectric { refraction_index } => scatter_dielectric(hit, sample),
        Material::Checkerboard { even, odd } => {
            if sample.pattern.is_below_zero() {
                textured(
                    own_descriptor(odd),
                    odd.as_slice(),
                    sample.odd_column,
                    sample.odd_row,
                    hit,
                    sample.diffuse,
                )
            } else {
                textured(
                    own_descriptor(even),
                    even.as_slice(),
                    sample.column,
                    sample.row,
                    hit,
                    sample.diffuse,
                )
            }
        },
    }
}

/// A metal without fuzz sends the ray on exactly where the mirrored direction
/// leaves the surface, has a length and finds its texel; the ray then goes on
/// in the mirrored direction itself.
pub proof fn lemma_sharp_metal_mirrors(
    albedo: TextureDescriptor,
    fuzz: Scalar,
    textures: Seq<[Scalar; 3]>,
    hit: Intersection,
    sample: ScatterSample,
)
    requires
        !fuzz.above_zero(),
    ensures
        metal_outcome(albedo, fuzz, textures, hit, sample) is Scattered <==> {
            &&& sample.mirrored_facing.above_zero()
            &&& !sample.mirrored.degenerate()
            &&& texel_at(albedo, textures, sample.column, sample.row) is Some
        },
        metal_outcome(albedo, fuzz, textures, hit, sample) is Scattered ==> metal_outcome(
            albedo,
            fuzz,
            textures,
            hit,
            sample,
        )->ray.direction == sample.mirrored && metal_outcome(
            albedo,
            fuzz,
            textures,
            hit,
            sample,
        )->ray.origin == hit.point,
{
}

/// A metal without fuzz whose mirrored direction leaves the surface sends the
/// ray on from the hit point in that direction, which leaves the surface too.
/// This holds of a direction with a length and of a texture that lies in the
/// array and has the sampled column and row: a direction without a length is
/// absorbed, and a texel outside the array is reported.
pub proof fn lemma_sharp_metal_scatters(
    albedo: TextureDescriptor,
    fuzz: Scalar,
    textures: Seq<[Scalar; 3]>,
    hit: Intersection,
    sample: ScatterSample,
)
    requires
        !fuzz.above_zero(),
        sample.mirrored_facing.above_zero(),
        !sample.mirrored.degenerate(),
        albedo.fits(textures.len() as int),
        sample.column.truncated(LAST_CELL as nat) < albedo.width,
        sample.row.truncated(LAST_CELL as nat) < albedo.height,
    ensures
        metal_outcome(albedo, fuzz, textures, hit, sample) is Scattered,
        metal_outcome(albedo, fuzz, textures, hit, sample)->ray == (Ray {
            origin: hit.point,
            direction: sample.mirrored,
        }),
        metal_facing(fuzz, sample).above_zero(),
{
    lemma_lookup_stays_inside(albedo, textures.len() as int, sample.column, sample.row);
}

/// A metal without fuzz takes no chance: whatever random direction the caller
/// drew, the outcome is the same.
pub proof fn lemma_sharp_metal_is_deterministic(
    albedo: TextureDescriptor,
    fuzz: Scalar,
    textures: Seq<[Scalar; 3]>,
    hit: Intersection,
    sample: ScatterSample,
    other: ScatterSample,
)
    requires
        !fuzz.above_zero(),
        sample.mirrored == other.mirrored,
        sample.mirrored_facing == other.mirrored_facing,
        sample.column == other.column,
        sample.row == other.row,
    ensures
        metal_outcome(albedo, fuzz, textures, hit, sample) == metal_outcome(
            albedo,
            fuzz,
            textures,
            hit,
            other,
        ),
{
}

} // verus!
