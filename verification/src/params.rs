//! What a render is asked to be, and the test that admits it.

use vstd::prelude::*;
use vstd::arithmetic::power2::lemma2_to64;
use vstd::std_specs::cmp::PartialEqSpecImpl;
use crate::sampling::SamplingParams;
use crate::scalar::{lemma_one_is_unit, lemma_whole_number, unit, Scalar, ONE_BITS};
use crate::vector::Vec3;

verus! {

/// An angle, kept in degrees.
#[derive(Clone, Copy, Debug)]
pub struct Angle {
    pub in_degrees: Scalar,
}

impl Angle {
    /// The angle of `value` degrees.
    pub fn degrees(value: Scalar) -> (a: Angle)
        ensures
            a.in_degrees == value,
    {
        Angle { in_degrees: value }
    }

    pub fn as_degrees(&self) -> (d: Scalar)
        ensures
            d == self.in_degrees,
    {
        self.in_degrees
    }
}

/// The camera as its user sets it.
#[derive(Clone, Copy, Debug)]
pub struct Camera {
    pub eye_pos: Vec3,
    pub eye_dir: Vec3,
    pub up: Vec3,
    /// The vertical field of view: from 0 to 90 degrees.
    pub vfov: Angle,
    /// From 0 to 1.
    pub aperture: Scalar,
    /// Not negative.
    pub focus_distance: Scalar,
}

impl Camera {
    /// Equal as IEEE-754 has it, field by field.
    pub open spec fn same(self, other: Camera) -> bool {
        &&& self.eye_pos.same(other.eye_pos)
        &&& self.eye_dir.same(other.eye_dir)
        &&& self.up.same(other.up)
        &&& self.vfov.in_degrees.same(other.vfov.in_degrees)
        &&& self.aperture.same(other.aperture)
        &&& self.focus_distance.same(other.focus_distance)
    }

    /// The camera at `(0, 0, 2)` that looks along `(1, 0, 0)` with `(0, 1, 0)`
    /// up, a field of view of 30 degrees, an aperture of 0.8 (the nearest
    /// binary32) and a focus distance of 3.
    pub fn new() -> (c: Camera)
        ensures
            c.eye_pos.x.bits == 0 && c.eye_pos.y.bits == 0 && c.eye_pos.z.whole(2),
            c.eye_dir.x.whole(1) && c.eye_dir.y.bits == 0 && c.eye_dir.z.bits == 0,
            c.up.x.bits == 0 && c.up.y.whole(1) && c.up.z.bits == 0,
            c.vfov.in_degrees.whole(30),
            c.aperture.bits == 0x3f4c_cccd,
            c.aperture.within(0, 1),
            c.focus_distance.whole(3),
    {
        let zero = Scalar { bits: 0 };
        let one = Scalar { bits: ONE_BITS };
        let c = Camera {
            eye_pos: Vec3 { x: zero, y: zero, z: Scalar { bits: 0x4000_0000 } },
            eye_dir: Vec3 { x: one, y: zero, z: zero },
            up: Vec3 { x: zero, y: one, z: zero },
            vfov: Angle { in_degrees: Scalar { bits: 0x41f0_0000 } },
            aperture: Scalar { bits: 0x3f4c_cccd },
            focus_distance: Scalar { bits: 0x4040_0000 },
        };
        proof {
            lemma2_to64();
            lemma_one_is_unit();
            lemma_whole_number(ONE_BITS, 1, 0);
            lemma_whole_number(0x4000_0000, 2, 1);
            lemma_whole_number(0x4040_0000, 3, 1);
            lemma_whole_number(0x41f0_0000, 30, 4);
            c.aperture.lemma_key_order(one);
            c.aperture.lemma_key_order(zero);
            assert(0 * unit() == 0 && 1 * unit() == unit()) by (nonlinear_arith);
        }
        c
    }
}

impl PartialEq for Camera {
    fn eq(&self, other: &Camera) -> (r: bool) {
        self.eye_pos == other.eye_pos && self.eye_dir == other.eye_dir && self.up == other.up
            && self.vfov.in_degrees.equals(other.vfov.in_degrees) && self.aperture.equals(
            other.aperture,
        ) && self.focus_distance.equals(other.focus_distance)
    }
}

impl PartialEqSpecImpl for Camera {
    open spec fn obeys_eq_spec() -> bool {
        true
    }

    open spec fn eq_spec(&self, other: &Camera) -> bool {
        self.same(*other)
    }
}

/// Where the sun stands and how hazy the sky is. The library hands these on as
/// they are.
#[derive(Clone, Copy, Debug)]
pub struct SkyParams {
    /// From 0 to 360 degrees.
    pub azimuth_degrees: Scalar,
    /// From 0 to 90 degrees.
    pub zenith_degrees: Scalar,
    /// From 1 to 10.
    pub turbidity: Scalar,
    /// Each from 0 to 1.
    pub albedo: [Scalar; 3],
}

impl SkyParams {
    /// Equal as IEEE-754 has it, field by field.
    pub open spec fn same(self, other: SkyParams) -> bool {
        &&& self.azimuth_degrees.same(other.azimuth_degrees)
        &&& self.zenith_degrees.same(other.zenith_degrees)
        &&& self.turbidity.same(other.turbidity)
        &&& self.albedo[0].same(other.albedo[0])
        &&& self.albedo[1].same(other.albedo[1])
        &&& self.albedo[2].same(other.albedo[2])
    }
}

impl Default for SkyParams {
    /// The sun at azimuth 0, 85 degrees from the zenith, turbidity 4, a white
    /// ground.
    fn default() -> (s: SkyParams)
        ensures
            s.azimuth_degrees.bits == 0,
            s.zenith_degrees.whole(85),
            s.turbidity.whole(4),
            s.albedo[0].whole(1) && s.albedo[1].whole(1) && s.albedo[2].whole(1),
    {
        let one = Scalar { bits: ONE_BITS };
        proof {
            lemma2_to64();
            lemma_whole_number(ONE_BITS, 1, 0);
            lemma_whole_number(0x4080_0000, 4, 2);
            lemma_whole_number(0x42aa_0000, 85, 6);
        }
        SkyParams {
            azimuth_degrees: Scalar { bits: 0 },
            zenith_degrees: Scalar { bits: 0x42aa_0000 },
            turbidity: Scalar { bits: 0x4080_0000 },
            albedo: [one, one, one],
        }
    }
}

impl PartialEq for SkyParams {
    fn eq(&self, other: &SkyParams) -> (r: bool) {
        self.azimuth_degrees.equals(other.azimuth_degrees) && self.zenith_degrees.equals(
            other.zenith_degrees,
        ) && self.turbidity.equals(other.turbidity) && self.albedo[0].equals(other.albedo[0])
            && self.albedo[1].equals(other.albedo[1]) && self.albedo[2].equals(other.albedo[2])
    }
}

impl PartialEqSpecImpl for SkyParams {
    open spec fn obeys_eq_spec() -> bool {
        true
    }

    open spec fn eq_spec(&self, other: &SkyParams) -> bool {
        self.same(*other)
    }
}

/// Why the sky model refuses its parameters.
#[derive(Clone, Copy, Debug)]
pub enum SkyModelError {
    /// The sun's elevation is not between 0 and a quarter turn.
    ElevationOutOfRange(Scalar),
    /// The turbidity is not between 1 and 10.
    TurbidityOutOfRange(Scalar),
    /// Some albedo is not between 0 and 1.
    AlbedoOutOfRange([Scalar; 3]),
}

/// Why a set of render parameters is refused.
#[derive(Clone, Copy, Debug)]
pub enum RenderParamsValidationError {
    /// `max_samples_per_pixel` (first) is not a multiple of
    /// `num_samples_per_pixel` (second).
    MaxSampleCountNotMultiple(u32, u32),
    /// The viewport is zero pixels wide or high.
    ViewportSize(u32, u32),
    /// The field of view is not between 0 and 90 degrees.
    VfovOutOfRange(Scalar),
    /// The aperture is not between 0 and 1.
    ApertureOutOfRange(Scalar),
    /// The focus distance is negative.
    FocusDistanceOutOfRange(Scalar),
    /// The sky model refused the sky parameters.
    HwSkyModelValidationError(SkyModelError),
}

/// Everything that a render depends on.
#[derive(Clone, Copy, Debug)]
pub struct RenderParams {
    pub camera: Camera,
    pub sky: SkyParams,
    pub sampling: SamplingParams,
    /// Width and height in pixels.
    pub viewport_size: (u32, u32),
}

impl RenderParams {
    /// Each round adds something and the rounds add up to the maximum.
    pub open spec fn samples_divide(self) -> bool {
        self.sampling.num_samples_per_pixel != 0 && self.sampling.max_samples_per_pixel
            % self.sampling.num_samples_per_pixel == 0
    }

    pub open spec fn viewport_not_empty(self) -> bool {
        self.viewport_size.0 != 0 && self.viewport_size.1 != 0
    }

    /// `0 <= vfov <= 90` degrees.
    pub open spec fn vfov_in_range(self) -> bool {
        self.camera.vfov.in_degrees.within(0, 90)
    }

    /// `0 <= aperture <= 1`.
    pub open spec fn aperture_in_range(self) -> bool {
        self.camera.aperture.within(0, 1)
    }

    /// Not `focus_distance < 0`.
    pub open spec fn focus_distance_in_range(self) -> bool {
        !self.camera.focus_distance.below_zero()
    }

    /// What `validate` admits.
    pub open spec fn valid(self) -> bool {
        &&& self.samples_divide()
        &&& self.viewport_not_empty()
        &&& self.vfov_in_range()
        &&& self.aperture_in_range()
        &&& self.focus_distance_in_range()
    }

    /// The first of the five conditions that fails, in the order in which they
    /// are tested, with the values it is about.
    pub open spec fn first_error(self) -> Option<RenderParamsValidationError> {
        if !self.samples_divide() {
            Some(
                RenderParamsValidationError::MaxSampleCountNotMultiple(
                    self.sampling.max_samples_per_pixel,
                    self.sampling.num_samples_per_pixel,
                ),
            )
        } else if !self.viewport_not_empty() {
            Some(
                RenderParamsValidationError::ViewportSize(
                    self.viewport_size.0,
                    self.viewport_size.1,
                ),
            )
        } else if !self.vfov_in_range() {
            Some(RenderParamsValidationError::VfovOutOfRange(self.camera.vfov.in_degrees))
        } else if !self.aperture_in_range() {
            Some(RenderParamsValidationError::ApertureOutOfRange(self.camera.aperture))
        } else if !self.focus_distance_in_range() {
            Some(
                RenderParamsValidationError::FocusDistanceOutOfRange(self.camera.focus_distance),
            )
        } else {
            None
        }
    }

    /// Equal as IEEE-754 has it, field by field.
    pub open spec fn same(self, other: RenderParams) -> bool {
        &&& self.camera.same(other.camera)
        &&& self.sky.same(other.sky)
        &&& self.sampling.max_samples_per_pixel == other.sampling.max_samples_per_pixel
        &&& self.sampling.num_samples_per_pixel == other.sampling.num_samples_per_pixel
        &&& self.sampling.num_bounces == other.sampling.num_bounces
        &&& self.viewport_size == other.viewport_size
    }

    /// Admits the parameters, or names the first condition they break. A
    /// round size of zero divides nothing and is refused with the sample
    /// counts.
    pub fn validate(&self) -> (r: Result<(), RenderParamsValidationError>)
        ensures
            r is Ok <==> self.valid(),
            r == (match self.first_error() {
                Some(e) => Err(e),
                None => Ok(()),
            }),
    {
        if self.sampling.num_samples_per_pixel == 0 || self.sampling.max_samples_per_pixel
            % self.sampling.num_samples_per_pixel != 0 {
            return Err(
                RenderParamsValidationError::MaxSampleCountNotMultiple(
                    self.sampling.max_samples_per_pixel,
                    self.sampling.num_samples_per_pixel,
                ),
            );
        }
        if self.viewport_size.0 == 0 || self.viewport_size.1 == 0 {
            return Err(
                RenderParamsValidationError::ViewportSize(
                    self.viewport_size.0,
                    self.viewport_size.1,
                ),
            );
        }
        let zero = Scalar::from_u8(0);
        if !self.camera.vfov.in_degrees.is_within(zero, Scalar::from_u8(90)) {
            return Err(RenderParamsValidationError::VfovOutOfRange(self.camera.vfov.as_degrees()));
        }
        if !self.camera.aperture.is_within(zero, Scalar::from_u8(1)) {
            return Err(RenderParamsValidationError::ApertureOutOfRange(self.camera.aperture));
        }
        if self.camera.focus_distance.is_below_zero() {
            return Err(
                RenderParamsValidationError::FocusDistanceOutOfRange(self.camera.focus_distance),
            );
        }
        Ok(())
    }
}

impl PartialEq for RenderParams {
    fn eq(&self, other: &RenderParams) -> (r: bool) {
        self.camera == other.camera && self.sky == other.sky && self.sampling == other.sampling
            && self.viewport_size.0 == other.viewport_size.0 && self.viewport_size.1
            == other.viewport_size.1
    }
}

impl PartialEqSpecImpl for RenderParams {
    open spec fn obeys_eq_spec() -> bool {
        true
    }

    open spec fn eq_spec(&self, other: &RenderParams) -> bool {
        self.same(*other)
    }
}

} // verus!
