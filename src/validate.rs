use vstd::prelude::*;

verus! {

/// Why a periodogram request was refused before any computation started.
#[derive(Debug, Clone, Copy, PartialEq, Eq, Structural)]
pub enum InvalidInput {
    /// The time series holds no samples.
    EmptyTime,
    /// `signal` does not hold one value per time point.
    SignalLengthMismatch,
    /// `weights` holds fewer values than there are time points.
    WeightsTooShort,
    /// The frequency step is not strictly positive.
    NonPositiveStep,
    /// The frequency grid holds no points.
    NoFrequencies,
}

/// The refusal (if any) for a request with the given shape, checked in a fixed order.
pub open spec fn input_error(
    n_time: nat,
    n_signal: nat,
    n_weights: nat,
    step_positive: bool,
    num_freq: nat,
) -> Option<InvalidInput> {
    if n_time == 0 {
        Some(InvalidInput::EmptyTime)
    } else if n_signal != n_time {
        Some(InvalidInput::SignalLengthMismatch)
    } else if n_weights < n_time {
        Some(InvalidInput::WeightsTooShort)
    } else if !step_positive {
        Some(InvalidInput::NonPositiveStep)
    } else if num_freq == 0 {
        Some(InvalidInput::NoFrequencies)
    } else {
        None
    }
}

/// Checks the shape of a periodogram request: array lengths, the sign of the
/// frequency step (decided by the caller) and the size of the grid.
pub fn check_input(
    n_time: usize,
    n_signal: usize,
    n_weights: usize,
    step_positive: bool,
    num_freq: usize,
) -> (r: Result<(), InvalidInput>)
    ensures
        match input_error(n_time as nat, n_signal as nat, n_weights as nat, step_positive, num_freq as nat) {
            Some(e) => r == Err::<(), InvalidInput>(e),
            None => r is Ok,
        },
{
    if n_time == 0 {
        Err(InvalidInput::EmptyTime)
    } else if n_signal != n_time {
        Err(InvalidInput::SignalLengthMismatch)
    } else if n_weights < n_time {
        Err(InvalidInput::WeightsTooShort)
    } else if !step_positive {
        Err(InvalidInput::NonPositiveStep)
    } else if num_freq == 0 {
        Err(InvalidInput::NoFrequencies)
    } else {
        Ok(())
    }
}

} // verus!
