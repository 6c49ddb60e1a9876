//! The core of a Monte-Carlo path tracer for scenes of spheres: the rules that
//! decide which root of a ray/sphere quadratic counts as a hit, which hit is
//! the closest, how a hit is shaded, how deep a path may bounce, how textures
//! are addressed, which render parameters are acceptable, and how many samples
//! each round of a progressive render adds.
//!
//! Every number that is a binary32 floating-point value elsewhere is held here
//! by its bit pattern, in a [`scalar::Scalar`]. The library compares, negates,
//! truncates and classifies such values exactly; it never rounds. Arithmetic
//! that rounds (sums, products, roots, trigonometry) is left to the caller, who
//! hands the results in.

pub mod color;
pub mod material;
pub mod order;
pub mod params;
pub mod sampling;
pub mod scalar;
pub mod scatter;
pub mod scene;
pub mod session;
pub mod texture;
pub mod trace;
pub mod vector;
