//! The course of one light path: when it ends in the background, when it is
//! cut, and how many bounces it has made.
//!
//! The caller follows the ray. After each test of the ray against the scene it
//! asks [`Path::after_probe`] what to do, and after each scattering it tells
//! [`Path::after_scatter`] how that went. The color of the path is the product
//! of the attenuations of its bounces and of what it ends in.

use vstd::prelude::*;
use crate::scalar::{Scalar, INFINITY_BITS};

verus! {

/// What to do after the ray was tested against the scene.
#[derive(Clone, Copy, Debug, PartialEq, Eq, Structural)]
pub enum ProbeStep {
    /// Nothing was hit: the path ends in the background.
    Background,
    /// Something was hit but the path has no bounce left: it ends in black.
    Black,
    /// Scatter the ray at what was hit.
    Scatter,
}

/// What to do after the ray was scattered.
#[derive(Clone, Copy, Debug, PartialEq, Eq, Structural)]
pub enum BounceStep {
    /// The ray was absorbed, or the path has no bounce left: it ends in
    /// black.
    Black,
    /// Follow the scattered ray.
    Continue,
}

/// The step after a test of the ray against the scene, for a path that has
/// made `bounces` of its `max_depth` bounces.
pub open spec fn probe_step(max_depth: u32, bounces: u32, hit: bool) -> ProbeStep {
    if !hit {
        ProbeStep::Background
    } else if bounces >= max_depth {
        ProbeStep::Black
    } else {
        ProbeStep::Scatter
    }
}

/// The step after a scattering.
pub open spec fn bounce_step(max_depth: u32, bounces: u32, scattered: bool) -> BounceStep {
    if scattered && bounces < max_depth {
        BounceStep::Continue
    } else {
        BounceStep::Black
    }
}

/// The bounces made after a scattering: one more where the path goes on.
pub open spec fn bounces_then(max_depth: u32, bounces: u32, scattered: bool) -> u32 {
    if scattered && bounces < max_depth {
        (bounces + 1) as u32
    } else {
        bounces
    }
}

/// The bounces made after a run of scatterings, from a fresh path.
pub open spec fn bounces_after(max_depth: u32, scatterings: Seq<bool>) -> u32
    decreases scatterings.len(),
{
    if scatterings.len() == 0 {
        0
    } else {
        bounces_then(max_depth, bounces_after(max_depth, scatterings.drop_last()), scatterings.last())
    }
}

/// The bits of the least ray parameter at which a hit counts: the binary32
/// nearest to 0.001. A ray that leaves a surface is not caught by the same
/// surface again.
pub const NEAREST_HIT_BITS: u32 = 0x3a83_126f;

/// The bounds between which a path's ray is tested against the scene: from
/// just above the ray's origin to infinity, ends excluded.
pub fn probe_bounds() -> (r: (Scalar, Scalar))
    ensures
        r.0.bits == NEAREST_HIT_BITS,
        r.0.above_zero() && r.0.finite(),
        r.1.bits == INFINITY_BITS,
        forall|t: Scalar| t.finite() ==> #[trigger] t.less(r.1),
{
    let tmin = Scalar::from_bits(NEAREST_HIT_BITS);
    let tmax = Scalar::from_bits(INFINITY_BITS);
    proof {
        tmin.lemma_key_order(Scalar { bits: 0 });
        assert forall|t: Scalar| t.finite() implies #[trigger] t.less(tmax) by {
            t.lemma_key_order(tmax);
        }
    }
    (tmin, tmax)
}

/// One light path.
#[derive(Clone, Copy, Debug)]
pub struct Path {
    max_depth: u32,
    bounces: u32,
}

impl Path {
    #[verifier::type_invariant]
    spec fn within_depth(self) -> bool {
        self.bounces <= self.max_depth
    }

    /// The number of bounces that the path may make.
    pub closed spec fn max_depth(&self) -> u32 {
        self.max_depth
    }

    /// The number of bounces that the path has made.
    pub closed spec fn bounces(&self) -> u32 {
        self.bounces
    }

    /// A fresh path that may make `max_depth` bounces.
    pub fn new(max_depth: u32) -> (p: Path)
        ensures
            p.max_depth() == max_depth,
            p.bounces() == 0,
    {
        Path { max_depth, bounces: 0 }
    }

    /// The number of bounces made so far: never more than `max_depth`.
    pub fn bounces_made(&self) -> (n: u32)
        ensures
            n == self.bounces(),
            n <= self.max_depth(),
    {
        proof {
            use_type_invariant(self);
        }
        self.bounces
    }

    /// What to do after the ray was tested against the scene. A ray that hit
    /// nothing ends in the background, whatever the depth. A ray that hit
    /// something ends in black where no bounce is left, and is scattered else.
    pub fn after_probe(&self, hit: bool) -> (r: ProbeStep)
        ensures
            r == probe_step(self.max_depth(), self.bounces(), hit),
    {
        if !hit {
            ProbeStep::Background
        } else if self.bounces >= self.max_depth {
            ProbeStep::Black
        } else {
            ProbeStep::Scatter
        }
    }

    /// Takes note of a scattering. Where the ray was scattered and a bounce
    /// was left, the path has made one bounce more and goes on; else it ends
    /// in black and its count stays.
    pub fn after_scatter(&mut self, scattered: bool) -> (r: BounceStep)
        ensures
            r == bounce_step(old(self).max_depth(), old(self).bounces(), scattered),
            final(self).bounces() == bounces_then(
                old(self).max_depth(),
                old(self).bounces(),
                scattered,
            ),
            final(self).max_depth() == old(self).max_depth(),
            final(self).bounces() <= final(self).max_depth(),
    {
        proof {
            use_type_invariant(&*self);
        }
        if scattered && self.bounces < self.max_depth {
            self.bounces = self.bounces + 1;
            BounceStep::Continue
        } else {
            BounceStep::Black
        }
    }
}

/// However the scatterings go, a path makes no more bounces than its depth
/// allows and no more than there were scatterings.
pub proof fn lemma_bounces_are_bounded(max_depth: u32, scatterings: Seq<bool>)
    ensures
        bounces_after(max_depth, scatterings) <= max_depth,
        bounces_after(max_depth, scatterings) <= scatterings.len(),
    decreases scatterings.len(),
{
    if scatterings.len() > 0 {
        lemma_bounces_are_bounded(max_depth, scatterings.drop_last());
    }
}

/// Where every scattering succeeds, each one is one bounce until the depth is
/// used up; from then on the next hit ends the path in black.
pub proof fn lemma_path_is_cut(max_depth: u32, scatterings: Seq<bool>)
    requires
        forall|i: int| 0 <= i < scatterings.len() ==> scatterings[i],
    ensures
        scatterings.len() <= max_depth ==> bounces_after(max_depth, scatterings)
            == scatterings.len(),
        scatterings.len() >= max_depth ==> bounces_after(max_depth, scatterings) == max_depth,
        scatterings.len() >= max_depth ==> probe_step(
            max_depth,
            bounces_after(max_depth, scatterings),
            true,
        ) == ProbeStep::Black,
    decreases scatterings.len(),
{
    if scatterings.len() > 0 {
        lemma_path_is_cut(max_depth, scatterings.drop_last());
    }
}

/// A ray that hits nothing ends in the background: at once for a fresh path,
/// and whatever the depth.
pub proof fn lemma_miss_is_background(max_depth: u32, bounces: u32)
    ensures
        probe_step(max_depth, bounces, false) == ProbeStep::Background,
{
}

} // verus!
