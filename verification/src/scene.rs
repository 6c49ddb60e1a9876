//! Spheres, and the test of a ray against them: which root of the quadratic
//! counts as the hit, what the hit record holds, and which hit of a scene is
//! the closest.
//!
//! The caller solves the quadratic `a t^2 + 2 half_b t + c = 0` of a ray and a
//! sphere and hands in the discriminant, the two roots and the surface data at
//! each root, as a [`SphereProbe`].

use vstd::prelude::*;
use vstd::arithmetic::power2::lemma2_to64;
use crate::material::Material;
use crate::scalar::{lemma_one_is_unit, lemma_whole_number, unit, Scalar, ONE_BITS};
use crate::texture::Texture;
use crate::vector::Vec3;

verus! {

/// A sphere of the scene.
#[derive(Clone, Copy, Debug)]
pub struct Sphere {
    pub center: Vec3,
    /// Above zero.
    pub radius: Scalar,
    /// The place of the sphere's material among the scene's materials.
    pub material_idx: u32,
}

/// How a ray meets a surface.
#[derive(Clone, Copy, Debug)]
pub struct Intersection {
    /// The point that is hit.
    pub point: Vec3,
    /// The surface normal at the point, turned against the ray.
    pub normal: Vec3,
    /// The surface coordinates of the point; each from 0 to 1 in a
    /// well-formed record.
    pub u: Scalar,
    pub v: Scalar,
    /// The ray parameter of the point; not below zero in a well-formed
    /// record.
    pub t: Scalar,
    /// The ray comes from outside.
    pub front_face: bool,
    /// The place of the surface's material among the scene's materials.
    pub material_index: u32,
}

/// What the caller computed at one root of the quadratic.
#[derive(Clone, Copy, Debug)]
pub struct RootSample {
    /// The root: the ray parameter.
    pub t: Scalar,
    /// `origin + t * direction`.
    pub point: Vec3,
    /// `(point - center) / radius`.
    pub outward_normal: Vec3,
    /// The dot product of the ray's direction and the outward normal.
    pub facing: Scalar,
    /// The surface coordinates of the point.
    pub u: Scalar,
    pub v: Scalar,
}

/// What the caller computed for one ray and one sphere.
#[derive(Clone, Copy, Debug)]
pub struct SphereProbe {
    /// `half_b^2 - a c`.
    pub discriminant: Scalar,
    /// At the root `(-half_b - sqrt(discriminant)) / a`.
    pub near: RootSample,
    /// At the root `(-half_b + sqrt(discriminant)) / a`.
    pub far: RootSample,
}

impl Intersection {
    /// The record is that of a point of a sphere ahead on the ray: surface
    /// coordinates from 0 to 1 and a ray parameter that is a number not below
    /// zero.
    pub open spec fn well_formed(self) -> bool {
        &&& self.u.within(0, 1)
        &&& self.v.within(0, 1)
        &&& !self.t.nan()
        &&& !self.t.below_zero()
    }

    pub fn is_well_formed(&self) -> (r: bool)
        ensures
            r == self.well_formed(),
    {
        let zero = Scalar::from_u8(0);
        let one = Scalar::from_u8(1);
        self.u.is_within(zero, one) && self.v.is_within(zero, one) && !self.t.is_nan()
            && !self.t.is_below_zero()
    }

    /// The record of no hit: the origin, no normal, and the largest finite
    /// ray parameter.
    pub fn new() -> (r: Intersection)
        ensures
            r.point == Vec3::zeros_spec(),
            r.normal == Vec3::zeros_spec(),
            r.u.bits == 0 && r.v.bits == 0,
            r.t.bits == 0x7f7f_ffff,
            !r.front_face,
            r.material_index == 0,
    {
        Intersection {
            point: Vec3::zeros(),
            normal: Vec3::zeros(),
            u: Scalar::from_bits(0),
            v: Scalar::from_bits(0),
            t: Scalar::from_bits(0x7f7f_ffff),
            front_face: false,
            material_index: 0,
        }
    }

    /// Sets the side and the normal from the outward normal and from `facing`,
    /// the dot product of the ray's direction and the outward normal: the ray
    /// comes from outside where `facing < 0`, and the normal kept is the
    /// outward one then, its opposite else.
    pub fn set_face_normal(&mut self, facing: Scalar, outward_normal: Vec3)
        ensures
            final(self).front_face == facing.below_zero(),
            final(self).normal == turned_normal(facing, outward_normal),
            final(self).point == old(self).point,
            final(self).u == old(self).u,
            final(self).v == old(self).v,
            final(self).t == old(self).t,
            final(self).material_index == old(self).material_index,
    {
        self.front_face = facing.is_below_zero();
        if self.front_face {
            self.normal = outward_normal;
        } else {
            self.normal = outward_normal.neg();
        }
    }
}

/// The normal turned against the ray.
pub open spec fn turned_normal(facing: Scalar, outward_normal: Vec3) -> Vec3 {
    if facing.below_zero() {
        outward_normal
    } else {
        outward_normal.negated()
    }
}

impl RootSample {
    /// The root lies strictly between the bounds.
    pub open spec fn accepted(self, tmin: Scalar, tmax: Scalar) -> bool {
        tmin.less(self.t) && self.t.less(tmax)
    }

    /// The surface coordinates lie from 0 to 1, as those of a point of the
    /// sphere do.
    pub open spec fn on_surface(self) -> bool {
        self.u.within(0, 1) && self.v.within(0, 1)
    }

    /// The record of a hit at this sample on a surface of the given material.
    pub open spec fn record(self, material_index: u32) -> Intersection {
        Intersection {
            point: self.point,
            normal: turned_normal(self.facing, self.outward_normal),
            u: self.u,
            v: self.v,
            t: self.t,
            front_face: self.facing.below_zero(),
            material_index,
        }
    }

    fn is_accepted(&self, tmin: Scalar, tmax: Scalar) -> (r: bool)
        ensures
            r == self.accepted(tmin, tmax),
    {
        tmin.below(self.t) && self.t.below(tmax)
    }

    fn to_record(&self, material_index: u32) -> (r: Intersection)
        ensures
            r == self.record(material_index),
    {
        let mut rec = Intersection::new();
        rec.material_index = material_index;
        rec.point = self.point;
        rec.set_face_normal(self.facing, self.outward_normal);
        rec.u = self.u;
        rec.v = self.v;
        rec.t = self.t;
        rec
    }
}

impl SphereProbe {
    /// The sample at the root that counts: the near root where it is
    /// accepted, else the far root where that one is; none where the
    /// discriminant is negative or neither root is accepted.
    pub open spec fn chosen(self, tmin: Scalar, tmax: Scalar) -> Option<RootSample> {
        if self.discriminant.below_zero() {
            None
        } else if self.near.accepted(tmin, tmax) {
            Some(self.near)
        } else if self.far.accepted(tmin, tmax) {
            Some(self.far)
        } else {
            None
        }
    }
}

impl Sphere {
    /// The hit of the probed ray on this sphere between `tmin` and `tmax`, if
    /// there is one: the record at the chosen root.
    pub open spec fn hit(self, probe: SphereProbe, tmin: Scalar, tmax: Scalar) -> Option<
        Intersection,
    > {
        match probe.chosen(tmin, tmax) {
            Some(sample) => Some(sample.record(self.material_idx)),
            None => None,
        }
    }

    pub fn new(center: Vec3, radius: Scalar, material_idx: u32) -> (s: Sphere)
        ensures
            s.center == center,
            s.radius == radius,
            s.material_idx == material_idx,
    {
        Sphere { center, radius, material_idx }
    }

    pub fn material_idx(&self) -> (m: u32)
        ensures
            m == self.material_idx,
    {
        self.material_idx
    }

    /// Fills `hit` with the record of a hit at `sample`, and says whether it
    /// did: it does not where the ray parameter is below zero, and leaves
    /// `hit` as it was then.
    pub fn update_ray_hit_info(&self, sample: &RootSample, hit: &mut Intersection) -> (r: bool)
        ensures
            r == !sample.t.below_zero(),
            r ==> *final(hit) == sample.record(self.material_idx),
            !r ==> *final(hit) == *old(hit),
    {
        if sample.t.is_below_zero() {
            return false;
        }
        *hit = sample.to_record(self.material_idx);
        true
    }

    /// The hit of the probed ray on this sphere between `tmin` and `tmax`.
    ///
    /// There is none where the discriminant is negative. Else the near root
    /// counts where it lies strictly between the bounds, else the far root
    /// where that one does, and the hit is the record at that root, its
    /// normal turned against the ray. So the ray parameter of a hit is not
    /// below zero where `tmin` is not, and the record is well formed where,
    /// besides, the surface coordinates handed in for that root lie from 0 to
    /// 1.
    pub fn closest_hit(&self, probe: &SphereProbe, tmin: Scalar, tmax: Scalar) -> (r: Option<
        Intersection,
    >)
        ensures
            r == self.hit(*probe, tmin, tmax),
            r == (match probe.chosen(tmin, tmax) {
                Some(s) => Some(s.record(self.material_idx)),
                None => None,
            }),
            r is Some <==> !probe.discriminant.below_zero() && (probe.near.accepted(tmin, tmax)
                || probe.far.accepted(tmin, tmax)),
            r matches Some(h) ==> {
                &&& tmin.less(h.t) && h.t.less(tmax)
                &&& h.material_index == self.material_idx
                &&& (h.t == probe.near.t || h.t == probe.far.t)
                &&& probe.near.accepted(tmin, tmax) ==> h.t == probe.near.t
            },
            !tmin.below_zero() ==> (r matches Some(h) ==> !h.t.below_zero()),
            !tmin.below_zero() && probe.chosen(tmin, tmax) is Some && probe.chosen(
                tmin,
                tmax,
            )->0.on_surface() ==> (r matches Some(h) ==> h.well_formed()),
    {
        if probe.discriminant.is_below_zero() {
            return None;
        }
        if probe.near.is_accepted(tmin, tmax) {
            return Some(probe.near.to_record(self.material_idx));
        }
        if probe.far.is_accepted(tmin, tmax) {
            return Some(probe.far.to_record(self.material_idx));
        }
        None
    }
}

/// A ray that meets a sphere from outside is recorded at the near root: where
/// the discriminant is not negative, the near root lies strictly between the
/// bounds and the ray runs against the outward normal there, the hit is at the
/// near root's point, its normal is the outward normal itself, which looks
/// back along the ray, and it counts as from outside.
pub proof fn lemma_hit_from_outside(sphere: Sphere, probe: SphereProbe, tmin: Scalar, tmax: Scalar)
    requires
        !probe.discriminant.below_zero(),
        probe.near.accepted(tmin, tmax),
        probe.near.facing.below_zero(),
    ensures
        sphere.hit(probe, tmin, tmax) is Some,
        sphere.hit(probe, tmin, tmax)->0.t == probe.near.t,
        sphere.hit(probe, tmin, tmax)->0.point == probe.near.point,
        sphere.hit(probe, tmin, tmax)->0.normal == probe.near.outward_normal,
        sphere.hit(probe, tmin, tmax)->0.front_face,
{
}

/// The spheres of a scene and what they are made of.
#[derive(Debug)]
pub struct Scene {
    pub spheres: Vec<Sphere>,
    pub materials: Vec<Material>,
}

impl Scene {
    /// Every sphere has a radius above zero and a material of the scene, and
    /// every material's numbers are in range.
    pub open spec fn well_formed(&self) -> bool {
        &&& forall|i: int|
            0 <= i < self.spheres@.len() ==> {
                &&& (#[trigger] self.spheres@[i]).radius.above_zero()
                &&& self.spheres@[i].material_idx < self.materials@.len()
            }
        &&& forall|i: int| 0 <= i < self.materials@.len() ==> (#[trigger] self.materials@[i]).valid()
    }

    /// The hit of the probed ray on sphere `i`.
    pub open spec fn hit(&self, probes: Seq<SphereProbe>, tmin: Scalar, tmax: Scalar, i: int) -> Option<
        Intersection,
    > {
        self.spheres@[i].hit(probes[i], tmin, tmax)
    }

    /// Sphere `i` is hit, no sphere is hit closer, and no sphere before it is
    /// hit as close.
    pub open spec fn closest(&self, probes: Seq<SphereProbe>, tmin: Scalar, tmax: Scalar, i: int) -> bool {
        &&& 0 <= i < self.spheres@.len()
        &&& self.hit(probes, tmin, tmax, i) is Some
        &&& forall|j: int|
            0 <= j < self.spheres@.len() && (#[trigger] self.hit(probes, tmin, tmax, j)) is Some ==> {
                let mine = self.hit(probes, tmin, tmax, i)->0.t;
                let other = self.hit(probes, tmin, tmax, j)->0.t;
                if j < i {
                    mine.less(other)
                } else {
                    !other.less(mine)
                }
            }
    }

    pub fn is_well_formed(&self) -> (r: bool)
        ensures
            r == self.well_formed(),
    {
        let mut i: usize = 0;
        while i < self.spheres.len()
            invariant
                i <= self.spheres@.len(),
                forall|j: int|
                    0 <= j < i ==> {
                        &&& (#[trigger] self.spheres@[j]).radius.above_zero()
                        &&& self.spheres@[j].material_idx < self.materials@.len()
                    },
            decreases self.spheres@.len() - i,
        {
            let sphere = &self.spheres[i];
            if !sphere.radius.is_above_zero() || sphere.material_idx as usize
                >= self.materials.len() {
                return false;
            }
            i = i + 1;
        }
        let mut k: usize = 0;
        while k < self.materials.len()
            invariant
                k <= self.materials@.len(),
                forall|j: int| 0 <= j < k ==> (#[trigger] self.materials@[j]).valid(),
            decreases self.materials@.len() - k,
        {
            if !self.materials[k].is_valid() {
                return false;
            }
            k = k + 1;
        }
        true
    }
}

/// At most one sphere is the closest that is hit.
pub proof fn lemma_closest_is_unique(
    scene: Scene,
    probes: Seq<SphereProbe>,
    tmin: Scalar,
    tmax: Scalar,
    i: int,
    j: int,
)
    requires
        scene.closest(probes, tmin, tmax, i),
        scene.closest(probes, tmin, tmax, j),
    ensures
        i == j,
{
    if i < j {
        assert(scene.hit(probes, tmin, tmax, i) is Some);
        assert(scene.hit(probes, tmin, tmax, j) is Some);
    }
    if j < i {
        assert(scene.hit(probes, tmin, tmax, i) is Some);
        assert(scene.hit(probes, tmin, tmax, j) is Some);
    }
}

/// The closest hit of the probed ray in the scene between `tmin` and `tmax`:
/// of the hits of the single spheres the one with the least ray parameter, and
/// among equals that on the sphere that comes first; none exactly where no
/// sphere is hit. `probes` holds one probe for each sphere, in the order of
/// the spheres.
pub fn ray_hit_world(scene: &Scene, probes: &Vec<SphereProbe>, tmin: Scalar, tmax: Scalar) -> (r:
    Option<Intersection>)
    requires
        probes@.len() == scene.spheres@.len(),
    ensures
        r is None <==> forall|i: int|
            0 <= i < scene.spheres@.len() ==> (#[trigger] scene.hit(probes@, tmin, tmax, i)) is None,
        r matches Some(h) ==> exists|i: int|
            #[trigger] scene.closest(probes@, tmin, tmax, i) && scene.hit(probes@, tmin, tmax, i)
                == Some(h),
        r matches Some(h) ==> tmin.less(h.t) && h.t.less(tmax),
        !tmin.below_zero() ==> (r matches Some(h) ==> !h.t.below_zero()),
        !tmin.below_zero() && (forall|i: int|
            0 <= i < probes@.len() ==> (#[trigger] probes@[i]).near.on_surface()
                && probes@[i].far.on_surface()) ==> (r matches Some(h) ==> h.well_formed()),
        scene.spheres@.len() == 0 ==> r is None,
{
    let mut best: Option<Intersection> = None;
    let ghost mut best_i: int = 0;
    let mut i: usize = 0;
    while i < scene.spheres.len()
        invariant
            i <= scene.spheres@.len(),
            probes@.len() == scene.spheres@.len(),
            best is None ==> forall|j: int|
                0 <= j < i ==> (#[trigger] scene.hit(probes@, tmin, tmax, j)) is None,
            best matches Some(h) ==> {
                &&& 0 <= best_i < i
                &&& scene.hit(probes@, tmin, tmax, best_i) == Some(h)
                &&& tmin.less(h.t) && h.t.less(tmax)
                &&& forall|j: int|
                    0 <= j < i && (#[trigger] scene.hit(probes@, tmin, tmax, j)) is Some ==> {
                        let other = scene.hit(probes@, tmin, tmax, j)->0.t;
                        if j < best_i {
                            h.t.less(other)
                        } else {
                            !other.less(h.t)
                        }
                    }
            },
        decreases scene.spheres@.len() - i,
    {
        let found = scene.spheres[i].closest_hit(&probes[i], tmin, tmax);
        assert(found == scene.hit(probes@, tmin, tmax, i as int));
        match found {
            Some(h) => {
                let closer = match best {
                    Some(b) => h.t.below(b.t),
                    None => true,
                };
                if closer {
                    best = Some(h);
                    proof {
                        best_i = i as int;
                    }
                }
            },
            None => {},
        }
        i = i + 1;
    }
    proof {
        if best is Some {
            assert(scene.closest(probes@, tmin, tmax, best_i));
        }
    }
    best
}

/// The vector whose components have the given bit patterns.
pub open spec fn vec3_of_bits(x: u32, y: u32, z: u32) -> Vec3 {
    Vec3 { x: Scalar { bits: x }, y: Scalar { bits: y }, z: Scalar { bits: z } }
}

/// The sphere whose centre and radius have the given bit patterns.
pub open spec fn ball(x: u32, y: u32, z: u32, radius: u32, material_idx: u32) -> Sphere {
    Sphere { center: vec3_of_bits(x, y, z), radius: Scalar { bits: radius }, material_idx }
}

/// The texture is the plain color whose channels have the given bit patterns.
pub open spec fn plain(texture: Texture, r: u32, g: u32, b: u32) -> bool {
    &&& texture.well_formed()
    &&& texture.size() == (1u32, 1u32)
    &&& texture@ == seq![[Scalar { bits: r }, Scalar { bits: g }, Scalar { bits: b }]]
}

fn at(x: u32, y: u32, z: u32) -> (v: Vec3)
    ensures
        v == vec3_of_bits(x, y, z),
{
    Vec3::new(Scalar::from_bits(x), Scalar::from_bits(y), Scalar::from_bits(z))
}

/// The scene of five spheres, each binary32 the nearest to the number given:
///
/// | sphere | centre | radius | material |
/// |---|---|---|---|
/// | ground | (0, -500, -1) | 500 | 0: checkerboard, even (0.5, 0.7, 0.8), odd (0.9, 0.9, 0.9) |
/// | glass ball | (0, 1, 0) | 1 | 3: dielectric, refraction index 1.5 |
/// | metal ball | (-5, 1, 0) | 1 | 2: metal, albedo (1, 0.85, 0.57), fuzz 0.4 |
/// | moon | (5, 0.8, 1.5) | 0.8 | 1: Lambertian, the image `moon` |
/// | earth | (5, 1.2, -1.5) | 1.2 | 4: Lambertian, the image `earth` |
pub fn scene(moon: Texture, earth: Texture) -> (s: Scene)
    ensures
        s.well_formed(),
        s.spheres@ == seq![
            ball(0, 0xc3fa_0000, 0xbf80_0000, 0x43fa_0000, 0),
            ball(0, 0x3f80_0000, 0, 0x3f80_0000, 3),
            ball(0xc0a0_0000, 0x3f80_0000, 0, 0x3f80_0000, 2),
            ball(0x40a0_0000, 0x3f4c_cccd, 0x3fc0_0000, 0x3f4c_cccd, 1),
            ball(0x40a0_0000, 0x3f99_999a, 0xbfc0_0000, 0x3f99_999a, 4),
        ],
        s.materials@.len() == 5,
        s.materials@[0] is Checkerboard,
        plain(s.materials@[0]->even, 0x3f00_0000, 0x3f33_3333, 0x3f4c_cccd),
        plain(s.materials@[0]->odd, 0x3f66_6666, 0x3f66_6666, 0x3f66_6666),
        s.materials@[1] == (Material::Lambertian { albedo: moon }),
        s.materials@[2] is Metal,
        plain(s.materials@[2]->Metal_albedo, 0x3f80_0000, 0x3f59_999a, 0x3f11_eb85),
        s.materials@[2]->fuzz == (Scalar { bits: 0x3ecc_cccd }),
        s.materials@[3] == (Material::Dielectric {
            refraction_index: (Scalar { bits: 0x3fc0_0000 }),
        }),
        s.materials@[4] == (Material::Lambertian { albedo: earth }),
        s.spheres@[0].radius.whole(500) && s.spheres@[1].radius.whole(1) && s.spheres@[2].radius.whole(
            1,
        ),
{
    let mut materials: Vec<Material> = Vec::new();
    materials.push(
        Material::Checkerboard {
            even: Texture::new_from_color(at(0x3f00_0000, 0x3f33_3333, 0x3f4c_cccd)),
            odd: Texture::new_from_color(at(0x3f66_6666, 0x3f66_6666, 0x3f66_6666)),
        },
    );
    materials.push(Material::Lambertian { albedo: moon });
    materials.push(
        Material::Metal {
            albedo: Texture::new_from_color(at(ONE_BITS, 0x3f59_999a, 0x3f11_eb85)),
            fuzz: Scalar::from_bits(0x3ecc_cccd),
        },
    );
    materials.push(Material::Dielectric { refraction_index: Scalar::from_bits(0x3fc0_0000) });
    materials.push(Material::Lambertian { albedo: earth });
    let mut spheres: Vec<Sphere> = Vec::new();
    spheres.push(Sphere::new(at(0, 0xc3fa_0000, 0xbf80_0000), Scalar::from_bits(0x43fa_0000), 0));
    spheres.push(Sphere::new(at(0, ONE_BITS, 0), Scalar::from_bits(ONE_BITS), 3));
    spheres.push(Sphere::new(at(0xc0a0_0000, ONE_BITS, 0), Scalar::from_bits(ONE_BITS), 2));
    spheres.push(
        Sphere::new(at(0x40a0_0000, 0x3f4c_cccd, 0x3fc0_0000), Scalar::from_bits(0x3f4c_cccd), 1),
    );
    spheres.push(
        Sphere::new(at(0x40a0_0000, 0x3f99_999a, 0xbfc0_0000), Scalar::from_bits(0x3f99_999a), 4),
    );
    let s = Scene { spheres, materials };
    proof {
        assert(s.spheres@ =~= seq![
            ball(0, 0xc3fa_0000, 0xbf80_0000, 0x43fa_0000, 0),
            ball(0, 0x3f80_0000, 0, 0x3f80_0000, 3),
            ball(0xc0a0_0000, 0x3f80_0000, 0, 0x3f80_0000, 2),
            ball(0x40a0_0000, 0x3f4c_cccd, 0x3fc0_0000, 0x3f4c_cccd, 1),
            ball(0x40a0_0000, 0x3f99_999a, 0xbfc0_0000, 0x3f99_999a, 4),
        ]);
        lemma2_to64();
        lemma_whole_number(0x43fa_0000, 500, 8);
        lemma_whole_number(ONE_BITS, 1, 0);
        let zero = Scalar { bits: 0 };
        s.spheres@[0].radius.lemma_key_order(zero);
        s.spheres@[1].radius.lemma_key_order(zero);
        s.spheres@[2].radius.lemma_key_order(zero);
        s.spheres@[3].radius.lemma_key_order(zero);
        s.spheres@[4].radius.lemma_key_order(zero);
        assert(zero.scaled() == 0);
        let fuzz = Scalar { bits: 0x3ecc_cccd };
        let index = Scalar { bits: 0x3fc0_0000 };
        let one = Scalar { bits: ONE_BITS };
        fuzz.lemma_key_order(zero);
        fuzz.lemma_key_order(one);
        index.lemma_key_order(zero);
        lemma_one_is_unit();
        assert(0 * unit() == 0 && 1 * unit() == unit()) by (nonlinear_arith);
        assert(s.materials@[2].valid());
        assert(s.materials@[3].valid());
    }
    s
}

} // verus!
