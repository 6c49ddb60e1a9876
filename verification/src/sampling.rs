//! Progressive sampling: how many samples each round adds to a pixel, and when
//! what was accumulated before must be cleared.

use vstd::prelude::*;
use vstd::std_specs::cmp::PartialEqSpecImpl;

verus! {

/// How a render is sampled.
#[derive(Clone, Copy, Debug)]
pub struct SamplingParams {
    /// The number of samples per pixel at which the render is complete.
    pub max_samples_per_pixel: u32,
    /// The number of samples per pixel that one round adds.
    pub num_samples_per_pixel: u32,
    /// The number of bounces after which a path is cut.
    pub num_bounces: u32,
}

impl SamplingParams {
    /// The rounds add up to the maximum exactly: each round adds something,
    /// and the maximum is a positive multiple of it.
    pub open spec fn divides_evenly(self) -> bool {
        &&& self.num_samples_per_pixel > 0
        &&& self.max_samples_per_pixel > 0
        &&& self.max_samples_per_pixel % self.num_samples_per_pixel == 0
    }
}

impl Default for SamplingParams {
    fn default() -> (r: SamplingParams)
        ensures
            r.max_samples_per_pixel == 128,
            r.num_samples_per_pixel == 2,
            r.num_bounces == 8,
    {
        SamplingParams { max_samples_per_pixel: 128, num_samples_per_pixel: 2, num_bounces: 8 }
    }
}

impl PartialEq for SamplingParams {
    fn eq(&self, other: &SamplingParams) -> (r: bool) {
        self.max_samples_per_pixel == other.max_samples_per_pixel
            && self.num_samples_per_pixel == other.num_samples_per_pixel
            && self.num_bounces == other.num_bounces
    }
}

impl PartialEqSpecImpl for SamplingParams {
    open spec fn obeys_eq_spec() -> bool {
        true
    }

    open spec fn eq_spec(&self, other: &SamplingParams) -> bool {
        self.max_samples_per_pixel == other.max_samples_per_pixel
            && self.num_samples_per_pixel == other.num_samples_per_pixel
            && self.num_bounces == other.num_bounces
    }
}

/// What one round is told to do, laid out as the shader reads it.
#[derive(Clone, Copy, Debug)]
pub struct GpuSamplingParams {
    /// The number of fresh samples per pixel to take this round; 0 once the
    /// render is complete.
    pub num_samples_per_pixel: u32,
    pub num_bounces: u32,
    /// The number of samples per pixel that the image holds after this round.
    pub accumulated_samples_per_pixel: u32,
    /// 1 where the image must be cleared before this round's samples are
    /// added, else 0.
    pub clear_accumulated_samples: u32,
}

/// The number of samples per pixel accumulated after one more round.
pub open spec fn next_accumulated(accumulated: u32, params: SamplingParams) -> u32 {
    if accumulated == 0 {
        params.num_samples_per_pixel
    } else if accumulated + params.num_samples_per_pixel <= params.max_samples_per_pixel {
        (accumulated + params.num_samples_per_pixel) as u32
    } else {
        accumulated
    }
}

/// The number of fresh samples per pixel that one more round takes.
pub open spec fn next_contribution(accumulated: u32, params: SamplingParams) -> u32 {
    if accumulated == 0 || accumulated + params.num_samples_per_pixel
        <= params.max_samples_per_pixel {
        params.num_samples_per_pixel
    } else {
        0
    }
}

/// The number of samples per pixel accumulated after `rounds` rounds from a
/// reset.
pub open spec fn accumulated_after(params: SamplingParams, rounds: nat) -> u32
    decreases rounds,
{
    if rounds == 0 {
        0
    } else {
        next_accumulated(accumulated_after(params, (rounds - 1) as nat), params)
    }
}

/// Counts the samples per pixel accumulated since the last reset.
#[derive(Clone, Copy, Debug)]
pub struct RenderProgress {
    accumulated_samples_per_pixel: u32,
}

impl RenderProgress {
    /// The number of samples per pixel accumulated so far.
    pub closed spec fn accumulated(&self) -> u32 {
        self.accumulated_samples_per_pixel
    }

    pub fn new() -> (r: RenderProgress)
        ensures
            r.accumulated() == 0,
    {
        RenderProgress { accumulated_samples_per_pixel: 0 }
    }

    /// Starts the next round. The first round after a reset takes
    /// `num_samples_per_pixel` samples and asks for the image to be cleared. A
    /// later round takes as many unless that would pass
    /// `max_samples_per_pixel`; then it takes none and the count stays.
    pub fn next_frame(&mut self, sampling_params: &SamplingParams) -> (r: GpuSamplingParams)
        ensures
            final(self).accumulated() == next_accumulated(old(self).accumulated(), *sampling_params),
            r.num_samples_per_pixel == next_contribution(old(self).accumulated(), *sampling_params),
            r.num_bounces == sampling_params.num_bounces,
            r.accumulated_samples_per_pixel == final(self).accumulated(),
            r.clear_accumulated_samples == (if old(self).accumulated() == 0 {
                1u32
            } else {
                0u32
            }),
    {
        let current: u32 = self.accumulated_samples_per_pixel;
        let step: u32 = sampling_params.num_samples_per_pixel;
        if current == 0 {
            self.accumulated_samples_per_pixel = step;
            GpuSamplingParams {
                num_samples_per_pixel: step,
                num_bounces: sampling_params.num_bounces,
                accumulated_samples_per_pixel: step,
                clear_accumulated_samples: 1,
            }
        } else if current <= sampling_params.max_samples_per_pixel && step
            <= sampling_params.max_samples_per_pixel - current {
            let next: u32 = current + step;
            self.accumulated_samples_per_pixel = next;
            GpuSamplingParams {
                num_samples_per_pixel: step,
                num_bounces: sampling_params.num_bounces,
                accumulated_samples_per_pixel: next,
                clear_accumulated_samples: 0,
            }
        } else {
            GpuSamplingParams {
                num_samples_per_pixel: 0,
                num_bounces: sampling_params.num_bounces,
                accumulated_samples_per_pixel: current,
                clear_accumulated_samples: 0,
            }
        }
    }

    pub fn reset(&mut self)
        ensures
            final(self).accumulated() == 0,
    {
        self.accumulated_samples_per_pixel = 0;
    }

    pub fn accumulated_samples(&self) -> (r: u32)
        ensures
            r == self.accumulated(),
    {
        self.accumulated_samples_per_pixel
    }
}

/// A round never takes samples away, and what it adds is what it reports: the
/// count after the round is the count before plus the round's contribution.
pub proof fn lemma_round_adds_contribution(accumulated: u32, params: SamplingParams)
    ensures
        next_accumulated(accumulated, params) >= accumulated,
        next_accumulated(accumulated, params) == accumulated + next_contribution(
            accumulated,
            params,
        ),
{
}

/// Where the count is a multiple of the round size, it is one after the next
/// round too.
pub proof fn lemma_round_keeps_multiple(accumulated: u32, params: SamplingParams)
    requires
        params.num_samples_per_pixel > 0,
        accumulated % params.num_samples_per_pixel == 0,
    ensures
        next_accumulated(accumulated, params) % params.num_samples_per_pixel == 0,
{
    let n = params.num_samples_per_pixel as int;
    let a = accumulated as int;
    assert((a + n) % n == 0) by (nonlinear_arith)
        requires
            n > 0,
            a % n == 0,
    ;
    assert(n % n == 0) by (nonlinear_arith)
        requires
            n > 0,
    ;
}

/// Where one round does not pass the maximum by itself, no round takes the
/// count past the maximum.
pub proof fn lemma_round_keeps_bound(accumulated: u32, params: SamplingParams)
    requires
        params.num_samples_per_pixel <= params.max_samples_per_pixel,
        accumulated <= params.max_samples_per_pixel,
    ensures
        next_accumulated(accumulated, params) <= params.max_samples_per_pixel,
{
}

/// Once the maximum is reached, a round adds nothing and clears nothing.
pub proof fn lemma_converged_stays(params: SamplingParams)
    requires
        params.divides_evenly(),
    ensures
        next_accumulated(params.max_samples_per_pixel, params) == params.max_samples_per_pixel,
        next_contribution(params.max_samples_per_pixel, params) == 0,
{
}

/// Where the round size divides the maximum, the count after `rounds` rounds
/// from a reset is `rounds` times the round size, held to the maximum: it
/// climbs in equal steps, reaches the maximum exactly and stays there.
pub proof fn lemma_accumulated_after(params: SamplingParams, rounds: nat)
    requires
        params.divides_evenly(),
    ensures
        rounds * params.num_samples_per_pixel <= params.max_samples_per_pixel
            ==> accumulated_after(params, rounds) == rounds * params.num_samples_per_pixel,
        rounds * params.num_samples_per_pixel > params.max_samples_per_pixel
            ==> accumulated_after(params, rounds) == params.max_samples_per_pixel,
    decreases rounds,
{
    let n = params.num_samples_per_pixel as int;
    let m = params.max_samples_per_pixel as int;
    if rounds == 0 {
        assert(0 * n == 0) by (nonlinear_arith);
    } else {
        let k = (rounds - 1) as nat;
        lemma_accumulated_after(params, k);
        assert(rounds * n == k * n + n) by (nonlinear_arith)
            requires
                rounds == k + 1,
        ;
        assert(k * n >= 0) by (nonlinear_arith)
            requires
                n > 0,
        ;
        if rounds == 1 {
            assert(k * n == 0) by (nonlinear_arith)
                requires
                    k == 0,
            ;
            assert(n <= m) by (nonlinear_arith)
                requires
                    n > 0,
                    m > 0,
                    m % n == 0,
            ;
        } else if k * n <= m && rounds * n > m {
            // The count stands at the last multiple that fits, which is the
            // maximum, a multiple itself.
            let q = m / n;
            assert(m == q * n) by (nonlinear_arith)
                requires
                    n > 0,
                    m % n == 0,
                    q == m / n,
            ;
            assert(q == k) by (nonlinear_arith)
                requires
                    n > 0,
                    k * n <= q * n,
                    q * n < k * n + n,
            ;
            assert(k * n > 0) by (nonlinear_arith)
                requires
                    k >= 1,
                    n > 0,
            ;
        } else if k * n <= m {
            assert(k * n > 0) by (nonlinear_arith)
                requires
                    k >= 1,
                    n > 0,
            ;
        }
    }
}

} // verus!
