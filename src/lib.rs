use vstd::prelude::*;

mod number;
mod periodogram;
mod validate;

pub use number::Real;
pub use periodogram::{
    accumulate_sample, advanced, angle_at, bin_sums, center, centered, empty_sums, has_bins,
    holds_point, lemma_offset_without_constant, lombscargle, lombscargle_with_resync, mean_of, paired, point_at,
    recompute_after, resync_due, rotation_at, solve_bin, solve_spectrum, solved, weighted_mean,
    with_sample, wsum, wsum_sq, zero_sums, BinSums, Rotation, Spectrum, SpectrumPoint,
    DEFAULT_RESYNC_PERIOD,
};
pub use validate::{check_input, input_error, InvalidInput};

verus! {

} // verus!
