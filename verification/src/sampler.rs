//! The weighted sampler's exact arithmetic.
//!
//! A sample is drawn in three steps: the burned amount is clamped to a
//! ceiling, the clamped amount is turned into a weight in `[0, 1]` by
//! dividing by the fixed scale constant `100` and clamping, and the weight
//! then biases a uniform random draw toward the top of the target range
//! (`biased = u^(1 - w)`, `result = min + biased * (max - min)`). The first
//! two steps are exact on integers: a weight is a whole number of
//! hundredths. They are computed and proved here. The remaining steps are
//! floating-point arithmetic on the random draw and live with the host
//! shell, outside the verified library.
//!
//! The divisor `100` is a fixed scale constant, independent of the clamp
//! ceiling; that is deliberate and must not be re-derived from the ceiling.

use vstd::prelude::*;

verus! {

/// The weight, in hundredths, that a burned amount `input` produces under a
/// clamp ceiling: `input` is clamped to `ceiling`, and the result of
/// dividing by the scale constant `100` is clamped to `[0, 1]`.
pub open spec fn weight_hundredths_spec(input: u64, ceiling: u64) -> int {
    let clamped: int = if input > ceiling { ceiling as int } else { input as int };
    if clamped > 100 { 100 } else { clamped }
}

/// Weight of a burned amount, in hundredths: `clamp(min(input, ceiling) / 100, 0, 1)`
/// scaled by `100`, computed exactly on integers.
pub fn weight_hundredths(input: u64, ceiling: u64) -> (w: u64)
    requires
        ceiling > 0,
    ensures
        w == weight_hundredths_spec(input, ceiling),
        w <= 100,
{
    let clamped: u64 = if input > ceiling { ceiling } else { input };
    if clamped > 100 {
        100
    } else {
        clamped
    }
}

/// The weight always lies in `[0, 1]`: as hundredths, in `[0, 100]`.
pub proof fn lemma_weight_bounds(input: u64, ceiling: u64)
    ensures
        0 <= weight_hundredths_spec(input, ceiling) <= 100,
{
}

/// Monotonicity of the bias: with the random draw held fixed, a larger
/// burned amount never produces a smaller weight, so it never weakens the
/// bias toward the top of the target range.
pub proof fn lemma_weight_monotone(a: u64, b: u64, ceiling: u64)
    requires
        a <= b,
    ensures
        weight_hundredths_spec(a, ceiling) <= weight_hundredths_spec(b, ceiling),
{
}

/// Clamp idempotence: every burned amount at or above the ceiling produces
/// the same weight as the ceiling itself, and hence the same sample for the
/// same random draw, since the sample is a function of the weight and the
/// draw alone.
pub proof fn lemma_weight_clamp_ceiling(input: u64, ceiling: u64)
    requires
        input >= ceiling,
    ensures
        weight_hundredths_spec(input, ceiling) == weight_hundredths_spec(ceiling, ceiling),
{
}

} // verus!
