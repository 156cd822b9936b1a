//! Sample validation and the counts behind the bandwidth heuristic and the grid.

use vstd::prelude::*;

verus! {

/// Why an estimate is refused.
#[derive(Debug, Clone, Copy, PartialEq, Eq, Structural)]
pub enum KdeError {
    /// The sample holds no point.
    EmptySample,
}

impl KdeError {
    /// The text shown to a caller whose request was refused.
    pub fn message(&self) -> (text: &'static str)
        ensures
            text@ == "Data cannot be empty"@,
    {
        match self {
            KdeError::EmptySample => "Data cannot be empty",
        }
    }
}

/// Decides whether a sample of `sample_size` points may be estimated from.
///
/// The only sample that is refused is the empty one, and it is refused with
/// [`KdeError::EmptySample`]; every other size is accepted.
pub fn check_sample(sample_size: usize) -> (outcome: Result<(), KdeError>)
    ensures
        outcome is Err <==> sample_size == 0,
        outcome is Err ==> outcome == Err::<(), KdeError>(KdeError::EmptySample),
        outcome is Ok ==> outcome == Ok::<(), KdeError>(()),
{
    if sample_size == 0 {
        Err(KdeError::EmptySample)
    } else {
        Ok(())
    }
}

/// The divisor of the sample variance under Bessel's correction.
///
/// A sample of at least two points has `sample_size - 1` degrees of freedom.
/// A sample of one point or none has no spread to measure: the answer is
/// `None`, and the standard deviation of such a sample is taken to be zero.
pub fn degrees_of_freedom(sample_size: usize) -> (dof: Option<usize>)
    ensures
        dof is None <==> sample_size <= 1,
        dof matches Some(d) ==> d == sample_size - 1,
{
    if sample_size <= 1 {
        None
    } else {
        Some(sample_size - 1)
    }
}

/// The number of equal intervals between the first and the last position of a
/// grid of `num_points` positions.
///
/// The step of the grid is the width of its window divided by this number. A
/// grid of a single position has no interval at all, so its step is not finite.
pub fn grid_intervals(num_points: usize) -> (intervals: usize)
    requires
        num_points >= 1,
    ensures
        intervals == num_points - 1,
{
    num_points - 1
}

} // verus!
