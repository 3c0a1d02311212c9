//! The angle-to-duty mapper: linear interpolation from an angle range into a
//! hardware duty-cycle range, and the duty range derived from the hardware's
//! maximum duty value.

use vstd::prelude::*;
use vstd::arithmetic::mul::lemma_mul_inequality;
use vstd::arithmetic::div_mod::lemma_div_is_ordered;
use vstd::arithmetic::div_mod::lemma_div_of0;
use vstd::arithmetic::div_mod::lemma_div_multiples_vanish;
use vstd::arithmetic::div_mod::lemma_hoist_over_denominator;

verus! {

/// Smallest angle the servo accepts, in degrees.
pub const ANGLE_MIN: u32 = 0;

/// Largest angle the servo accepts, in degrees.
pub const ANGLE_MAX: u32 = 180;

/// The linear interpolation that maps `angle` within `[in_min, in_max]` to a
/// duty value within `[min_limit, max_limit]`.
pub open spec fn spec_duty(angle: int, in_min: int, in_max: int, min_limit: int, max_limit: int) -> int {
    (angle - in_min) * (max_limit - min_limit) / (in_max - in_min) + min_limit
}

/// Maps an angle to a PWM duty value by linear interpolation: `in_min` maps
/// to `min_limit`, `in_max` maps to `max_limit`, and the result never leaves
/// `[min_limit, max_limit]`.
pub fn compute_duty(angle: u32, in_min: u32, in_max: u32, min_limit: u32, max_limit: u32) -> (duty: u32)
    requires
        in_min <= angle <= in_max,
        in_min < in_max,
        min_limit <= max_limit,
        (in_max - in_min) * (max_limit - min_limit) <= u32::MAX,
    ensures
        duty == spec_duty(angle as int, in_min as int, in_max as int, min_limit as int, max_limit as int),
        min_limit <= duty <= max_limit,
{
    let span: u32 = in_max - in_min;
    let duty_span: u32 = max_limit - min_limit;
    let offset: u32 = angle - in_min;
    proof {
        lemma_mul_inequality(offset as int, span as int, duty_span as int);
    }
    let scaled: u32 = offset * duty_span;
    let quotient: u32 = scaled / span;
    proof {
        lemma_div_is_ordered(scaled as int, (span * duty_span) as int, span as int);
        lemma_div_multiples_vanish(duty_span as int, span as int);
    }
    quotient + min_limit
}

/// Monotonicity of the mapper: with the ranges held fixed, a larger angle
/// never yields a smaller duty value.
pub proof fn lemma_duty_monotonic(a1: int, a2: int, in_min: int, in_max: int, min_limit: int, max_limit: int)
    requires
        in_min <= a1 <= a2 <= in_max,
        in_min < in_max,
        min_limit <= max_limit,
    ensures
        spec_duty(a1, in_min, in_max, min_limit, max_limit)
            <= spec_duty(a2, in_min, in_max, min_limit, max_limit),
{
    let d = max_limit - min_limit;
    lemma_mul_inequality(a1 - in_min, a2 - in_min, d);
    lemma_div_is_ordered((a1 - in_min) * d, (a2 - in_min) * d, in_max - in_min);
}

/// Boundary exactness of the mapper: the low end of the angle range maps to
/// exactly the low duty limit, and the high end to exactly the high limit.
pub proof fn lemma_duty_boundaries(in_min: int, in_max: int, min_limit: int, max_limit: int)
    requires
        in_min < in_max,
        min_limit <= max_limit,
    ensures
        spec_duty(in_min, in_min, in_max, min_limit, max_limit) == min_limit,
        spec_duty(in_max, in_min, in_max, min_limit, max_limit) == max_limit,
{
    let n = in_max - in_min;
    let d = max_limit - min_limit;
    assert(0int * d == 0) by (nonlinear_arith);
    lemma_div_of0(n);
    assert(n * d == d * n) by (nonlinear_arith);
    lemma_div_multiples_vanish(d, n);
    assert(n * d / n == d);
}

/// The duty limits the controller works within, derived once at startup from
/// the hardware's maximum duty value.
#[derive(Clone, Copy)]
pub struct DutyRange {
    pub min_limit: u32,
    pub max_limit: u32,
}

impl DutyRange {
    /// A usable range: the limits are ordered, and the whole angle span maps
    /// through `compute_duty` without overflow.
    pub open spec fn wf(self) -> bool {
        &&& self.min_limit < self.max_limit
        &&& (ANGLE_MAX - ANGLE_MIN) * (self.max_limit - self.min_limit) <= u32::MAX
    }

    /// Derives the duty limits from the hardware's maximum duty value:
    /// 2.5% of the full duty scale at the low end (a 0.5 ms pulse at 50 Hz)
    /// and 12.5% at the high end (a 2.5 ms pulse).
    pub fn from_max_duty(max_duty: u32) -> (r: DutyRange)
        requires
            10 <= max_duty,
            max_duty <= u32::MAX / 125,
        ensures
            r.min_limit == max_duty * 25 / 1000,
            r.max_limit == max_duty * 125 / 1000,
            r.max_limit <= max_duty,
            r.wf(),
    {
        let min_limit: u32 = max_duty * 25 / 1000;
        let max_limit: u32 = max_duty * 125 / 1000;
        proof {
            lemma_hoist_over_denominator(max_duty * 25 as int, 1, 1000nat);
            lemma_div_is_ordered(max_duty * 25 + 1000, max_duty * 125 as int, 1000);
        }
        DutyRange { min_limit, max_limit }
    }
}

} // verus!
