//! The state of one render: the parameters in force, the progress of the
//! sampling and the number of the frame.
//!
//! The caller owns the device. It asks the sky model whether it accepts the sky
//! parameters and hands the answer in; it uploads what the steps here return.

use vstd::prelude::*;
use crate::params::{RenderParams, RenderParamsValidationError, SkyModelError};
use crate::sampling::{
    lemma_round_keeps_bound, lemma_round_keeps_multiple, next_accumulated, next_contribution,
    GpuSamplingParams, RenderProgress,
};

verus! {

/// What a new set of parameters did to the render.
#[derive(Clone, Copy, Debug, PartialEq, Eq, Structural)]
pub enum ParamsChange {
    /// The parameters are those in force already: nothing changed.
    Unchanged,
    /// The parameters are in force now and the sampling starts over: the
    /// camera and the sky must be uploaded again.
    Replaced,
}

/// What one frame is drawn with.
#[derive(Clone, Copy, Debug)]
pub struct FrameData {
    /// What the sampling does in this frame.
    pub sampling: GpuSamplingParams,
    /// The viewport's width, its height, and the number of the frame.
    pub frame: [u32; 3],
}

/// The state of one render.
#[derive(Clone, Copy, Debug)]
pub struct Raytracer {
    latest_render_params: RenderParams,
    render_progress: RenderProgress,
    frame_number: u32,
}

/// The error that a set of parameters is refused with, if it is: the first
/// condition of its own that it breaks, else what the sky model objects to.
pub open spec fn refusal(render_params: RenderParams, sky: Result<(), SkyModelError>) -> Option<
    RenderParamsValidationError,
> {
    match render_params.first_error() {
        Some(e) => Some(e),
        None => match sky {
            Err(e) => Some(RenderParamsValidationError::HwSkyModelValidationError(e)),
            Ok(_) => None,
        },
    }
}

impl Raytracer {
    #[verifier::type_invariant]
    spec fn sound(self) -> bool {
        let sampling = self.latest_render_params.sampling;
        &&& self.latest_render_params.valid()
        &&& self.render_progress.accumulated() % sampling.num_samples_per_pixel == 0
        &&& sampling.max_samples_per_pixel > 0 ==> self.render_progress.accumulated()
            <= sampling.max_samples_per_pixel
    }

    /// The parameters in force.
    pub closed spec fn params(&self) -> RenderParams {
        self.latest_render_params
    }

    /// The samples per pixel accumulated since the parameters came into force.
    pub closed spec fn accumulated(&self) -> u32 {
        self.render_progress.accumulated()
    }

    /// The number of the next frame.
    pub closed spec fn frame_number(&self) -> u32 {
        self.frame_number
    }

    /// Starts a render with the given parameters, where they are valid and the
    /// sky model accepted the sky (`sky` is its answer). Nothing is
    /// accumulated yet and the first frame has the number 1.
    pub fn new(render_params: &RenderParams, sky: Result<(), SkyModelError>) -> (r: Result<
        Raytracer,
        RenderParamsValidationError,
    >)
        ensures
            r is Ok <==> render_params.valid() && sky is Ok,
            r matches Err(e) ==> refusal(*render_params, sky) == Some(e),
            r matches Ok(t) ==> t.params() == *render_params && t.accumulated() == 0
                && t.frame_number() == 1,
    {
        match render_params.validate() {
            Ok(_) => {},
            Err(err) => return Err(err),
        }
        match sky {
            Ok(_) => {},
            Err(err) => return Err(RenderParamsValidationError::HwSkyModelValidationError(err)),
        }
        Ok(
            Raytracer {
                latest_render_params: *render_params,
                render_progress: RenderProgress::new(),
                frame_number: 1,
            },
        )
    }

    /// Starts the next frame: the sampling goes one round on, and the frame
    /// number, which the frame is drawn with, counts up (and starts again at 0
    /// after the largest).
    pub fn render_frame(&mut self) -> (r: FrameData)
        ensures
            final(self).params() == old(self).params(),
            final(self).accumulated() == next_accumulated(
                old(self).accumulated(),
                old(self).params().sampling,
            ),
            r.sampling.num_samples_per_pixel == next_contribution(
                old(self).accumulated(),
                old(self).params().sampling,
            ),
            r.sampling.num_bounces == old(self).params().sampling.num_bounces,
            r.sampling.accumulated_samples_per_pixel == final(self).accumulated(),
            r.sampling.clear_accumulated_samples == (if old(self).accumulated() == 0 {
                1u32
            } else {
                0u32
            }),
            r.frame[0] == old(self).params().viewport_size.0,
            r.frame[1] == old(self).params().viewport_size.1,
            r.frame[2] == old(self).frame_number(),
            final(self).frame_number() == (if old(self).frame_number() == u32::MAX {
                0u32
            } else {
                (old(self).frame_number() + 1) as u32
            }),
    {
        proof {
            use_type_invariant(&*self);
            let p = self.latest_render_params.sampling;
            lemma_round_keeps_multiple(self.render_progress.accumulated(), p);
            if p.max_samples_per_pixel > 0 {
                assert(p.num_samples_per_pixel <= p.max_samples_per_pixel) by (nonlinear_arith)
                    requires
                        p.num_samples_per_pixel > 0,
                        p.max_samples_per_pixel > 0,
                        p.max_samples_per_pixel as int % p.num_samples_per_pixel as int == 0,
                ;
                lemma_round_keeps_bound(self.render_progress.accumulated(), p);
            }
        }
        let mut progress = self.render_progress;
        let sampling = progress.next_frame(&self.latest_render_params.sampling);
        self.render_progress = progress;
        let frame = [
            self.latest_render_params.viewport_size.0,
            self.latest_render_params.viewport_size.1,
            self.frame_number,
        ];
        self.frame_number = if self.frame_number == u32::MAX {
            0
        } else {
            self.frame_number + 1
        };
        FrameData { sampling, frame }
    }

    /// Puts new parameters in force. Parameters that equal those in force
    /// change nothing, and nothing is tested then. Else they are refused where
    /// they are not valid or the sky model did not accept the sky (`sky` is
    /// its answer), and the render stays as it was. Else they are in force
    /// from now on and the sampling starts over.
    pub fn set_render_params(
        &mut self,
        render_params: &RenderParams,
        sky: Result<(), SkyModelError>,
    ) -> (r: Result<ParamsChange, RenderParamsValidationError>)
        ensures
            final(self).frame_number() == old(self).frame_number(),
            render_params.same(old(self).params()) ==> r == Ok::<
                ParamsChange,
                RenderParamsValidationError,
            >(ParamsChange::Unchanged) && *final(self) == *old(self),
            !render_params.same(old(self).params()) ==> {
                &&& r is Ok <==> render_params.valid() && sky is Ok
                &&& r matches Err(e) ==> refusal(*render_params, sky) == Some(e) && *final(self)
                    == *old(self)
                &&& r matches Ok(c) ==> c == ParamsChange::Replaced && final(self).params()
                    == *render_params && final(self).accumulated() == 0
            },
    {
        if *render_params == self.latest_render_params {
            return Ok(ParamsChange::Unchanged);
        }
        match render_params.validate() {
            Ok(_) => {},
            Err(err) => return Err(err),
        }
        match sky {
            Ok(_) => {},
            Err(err) => return Err(RenderParamsValidationError::HwSkyModelValidationError(err)),
        }
        let fresh = RenderProgress::new();
        let frame_number = self.frame_number;
        assert(fresh.accumulated() == 0 && 0u32 % render_params.sampling.num_samples_per_pixel == 0);
        *self = Raytracer { latest_render_params: *render_params, render_progress: fresh, frame_number };
        Ok(ParamsChange::Replaced)
    }

    /// How far the render is: the samples per pixel accumulated, and the
    /// number at which the render is complete. Their quotient is the share
    /// that is done: from 0 to 1, but where the render is complete at 0
    /// samples. The first is a multiple of the round size.
    pub fn progress(&self) -> (r: (u32, u32))
        ensures
            r.0 == self.accumulated(),
            r.1 == self.params().sampling.max_samples_per_pixel,
            r.1 > 0 ==> r.0 <= r.1,
            self.params().sampling.num_samples_per_pixel > 0,
            r.0 % self.params().sampling.num_samples_per_pixel == 0,
    {
        proof {
            use_type_invariant(self);
        }
        (
            self.render_progress.accumulated_samples(),
            self.latest_render_params.sampling.max_samples_per_pixel,
        )
    }

    /// The parameters in force: valid ones.
    pub fn render_params(&self) -> (r: RenderParams)
        ensures
            r == self.params(),
            r.valid(),
    {
        proof {
            use_type_invariant(self);
        }
        self.latest_render_params
    }
}

} // verus!
