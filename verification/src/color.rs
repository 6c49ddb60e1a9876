//! Colors: the accumulator of a pixel, colors of eight bits a channel, and the
//! passage between them and vectors.

use vstd::prelude::*;
use crate::scalar::{lemma_one_is_unit, unit, Scalar};
use crate::vector::{Ray, Vec3};

verus! {

/// The color that a pixel accumulates.
#[derive(Clone, Copy, Debug)]
pub struct Color {
    pub data: Vec3,
}

impl Color {
    /// Black: three positive zeros.
    pub fn new() -> (c: Color)
        ensures
            c.data == Vec3::zeros_spec(),
    {
        Color { data: Vec3::zeros() }
    }
}

/// A color of eight bits a channel: red, green, blue.
#[derive(Clone, Copy, Debug, PartialEq, Eq, Structural)]
pub struct Rgb8 {
    pub r: u8,
    pub g: u8,
    pub b: u8,
}

/// The color whose channels are the whole parts of the components of `v`,
/// each held to the span from 0 to 255; a NaN gives 0.
pub fn vec3_to_rgb8(v: Vec3) -> (c: Rgb8)
    ensures
        c.r == v.x.truncated(255),
        c.g == v.y.truncated(255),
        c.b == v.z.truncated(255),
{
    Rgb8 { r: v.x.to_u8(), g: v.y.to_u8(), b: v.z.to_u8() }
}

/// The vector whose components are the channels of `color`, exactly.
pub fn rgb8_to_vec3(color: Rgb8) -> (v: Vec3)
    ensures
        v.x.whole(color.r as int),
        v.y.whole(color.g as int),
        v.z.whole(color.b as int),
{
    Vec3 {
        x: Scalar::from_u8(color.r),
        y: Scalar::from_u8(color.g),
        z: Scalar::from_u8(color.b),
    }
}

/// The sum of two colors, channel by channel. No channel's sum may pass 255.
pub fn plus_rgb8(color1: Rgb8, color2: Rgb8) -> (c: Rgb8)
    requires
        color1.r + color2.r <= 255,
        color1.g + color2.g <= 255,
        color1.b + color2.b <= 255,
    ensures
        c.r == color1.r + color2.r,
        c.g == color1.g + color2.g,
        c.b == color1.b + color2.b,
{
    Rgb8 { r: color1.r + color2.r, g: color1.g + color2.g, b: color1.b + color2.b }
}

/// The difference of two colors, channel by channel. No channel of the second
/// may be above that of the first.
pub fn minus_rgb8(color1: Rgb8, color2: Rgb8) -> (c: Rgb8)
    requires
        color1.r >= color2.r,
        color1.g >= color2.g,
        color1.b >= color2.b,
    ensures
        c.r == color1.r - color2.r,
        c.g == color1.g - color2.g,
        c.b == color1.b - color2.b,
{
    Rgb8 { r: color1.r - color2.r, g: color1.g - color2.g, b: color1.b - color2.b }
}

/// The color with each channel multiplied. No product may pass 255.
pub fn mult_rgb8(color1: Rgb8, multiplier: u8) -> (c: Rgb8)
    requires
        color1.r * multiplier <= 255,
        color1.g * multiplier <= 255,
        color1.b * multiplier <= 255,
    ensures
        c.r == color1.r * multiplier,
        c.g == color1.g * multiplier,
        c.b == color1.b * multiplier,
{
    Rgb8 { r: color1.r * multiplier, g: color1.g * multiplier, b: color1.b * multiplier }
}

/// The color with each channel divided, the quotients rounded down. The
/// divisor may not be zero.
pub fn div_rgb8(color1: Rgb8, dinominator: u8) -> (c: Rgb8)
    requires
        dinominator != 0,
    ensures
        c.r == color1.r / dinominator,
        c.g == color1.g / dinominator,
        c.b == color1.b / dinominator,
{
    Rgb8 { r: color1.r / dinominator, g: color1.g / dinominator, b: color1.b / dinominator }
}

/// The background that shows where a ray points: red from the upward part of
/// its direction, green from the part along x, each cut to a whole number from
/// 0 to 255, and a blue of 50.
pub fn gradient_background(ray: &Ray) -> (c: Rgb8)
    ensures
        c.r == ray.direction.y.truncated(255),
        c.g == ray.direction.x.truncated(255),
        c.b == 50,
{
    Rgb8 { r: ray.direction.y.to_u8(), g: ray.direction.x.to_u8(), b: 50 }
}

/// A component that is a whole number from 0 to 255 passes into a channel and
/// back unchanged.
pub proof fn lemma_whole_channel_is_kept(s: Scalar, n: int)
    requires
        0 <= n <= 255,
        s.whole(n),
    ensures
        s.truncated(255) == n,
{
    lemma_one_is_unit();
    let un = unit() as int;
    assert((n * un) / un == n) by (nonlinear_arith)
        requires
            un > 0,
    ;
    assert(n * un >= 0) by (nonlinear_arith)
        requires
            n >= 0,
            un > 0,
    ;
}

} // verus!
