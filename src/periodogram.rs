use vstd::prelude::*;

use crate::number::Real;
use crate::validate::{check_input, input_error, InvalidInput};

verus! {

/// How many frequency bins the sine/cosine recurrence runs between two exact
/// evaluations. The rotation that advances the angle from one bin to the next
/// is exact in real arithmetic but gathers rounding error in floating point;
/// recomputing from `sin`/`cos` every so many bins bounds that drift at the
/// cost of one trigonometric evaluation. The value is a trade-off chosen by
/// experience, not derived from an error bound.
pub const DEFAULT_RESYNC_PERIOD: usize = 5000;

/// Whether, after bin `j`, the angle for bin `j + 1` is recomputed exactly
/// rather than rotated. A period of zero never recomputes.
pub open spec fn resync_due(j: nat, period: nat) -> bool {
    period > 0 && j % period == 0
}

/// Decides between an exact evaluation and a rotation after bin `j`.
pub fn recompute_after(j: usize, period: usize) -> (r: bool)
    ensures
        r == resync_due(j as nat, period as nat),
{
    period > 0 && j % period == 0
}

/// `sin` and `cos` of the angle `ω t` for the current bin of one sample.
#[derive(Clone, Copy)]
pub struct Rotation<R> {
    pub sin: R,
    pub cos: R,
}

/// The weighted moment sums that one frequency bin gathers over all samples.
#[derive(Clone, Copy)]
pub struct BinSums<R> {
    /// Σ w·y·sin(ωt)
    pub y_sin: R,
    /// Σ w·y·cos(ωt)
    pub y_cos: R,
    /// Σ w·sin(ωt)
    pub sin: R,
    /// Σ w·cos(ωt)
    pub cos: R,
    /// Σ w·sin²(ωt)
    pub sin_sin: R,
    /// Σ w·sin(ωt)·cos(ωt)
    pub sin_cos: R,
}

/// The fit at one frequency bin.
#[derive(Clone, Copy)]
pub struct SpectrumPoint<R> {
    /// The fractional chi-square reduction `(χ²₀ − χ²(ω)) / χ²₀`.
    pub power: R,
    pub amp_cos: R,
    pub amp_sin: R,
    /// The fitted offset, or the weighted mean when no offset is fitted.
    pub constant: R,
}

/// `Σ signal[i]·weights[i]` over the first `n` samples, summed in order.
pub open spec fn wsum<R: Real>(signal: Seq<R>, weights: Seq<R>, n: nat) -> R
    decreases n,
{
    if n == 0 {
        R::spec_zero()
    } else {
        R::spec_plus(
            wsum(signal, weights, (n - 1) as nat),
            R::spec_times(signal[n - 1], weights[n - 1]),
        )
    }
}

/// The number of samples that both `signal` and `weights` hold.
pub open spec fn paired<R>(signal: Seq<R>, weights: Seq<R>) -> nat {
    if signal.len() < weights.len() {
        signal.len()
    } else {
        weights.len()
    }
}

/// The weighted mean of `signal`: the weighted sum over the paired samples.
pub open spec fn mean_of<R: Real>(signal: Seq<R>, weights: Seq<R>) -> R {
    wsum(signal, weights, paired(signal, weights))
}

/// `signal` with `mean` taken off every sample.
pub open spec fn centered<R: Real>(signal: Seq<R>, mean: R) -> Seq<R> {
    Seq::new(signal.len(), |i: int| R::spec_minus(signal[i], mean))
}

/// The weighted mean `Σ signal[n]·weights[n]`, over the samples that both
/// arrays hold. The weights are taken as already normalised to sum to one.
pub fn weighted_mean<R: Real>(signal: &[R], weights: &[R]) -> (r: R)
    ensures
        r == mean_of(signal@, weights@),
{
    let n: usize = if signal.len() < weights.len() {
        signal.len()
    } else {
        weights.len()
    };
    let mut acc = R::zero();
    let mut i: usize = 0;
    while i < n
        invariant
            n == paired(signal@, weights@),
            i <= n,
            acc == wsum(signal@, weights@, i as nat),
        decreases n - i,
    {
        let p = signal[i].times(&weights[i]);
        acc = acc.plus(&p);
        i = i + 1;
    }
    acc
}

/// The signal with `mean` taken off every sample.
pub fn center<R: Real>(signal: &[R], mean: R) -> (y: Vec<R>)
    ensures
        y@ == centered(signal@, mean),
{
    let mut y: Vec<R> = Vec::with_capacity(signal.len());
    let mut i: usize = 0;
    while i < signal.len()
        invariant
            i <= signal@.len(),
            y@ == centered(signal@, mean).take(i as int),
        decreases signal@.len() - i,
    {
        y.push(signal[i].minus(&mean));
        i = i + 1;
        assert(y@ =~= centered(signal@, mean).take(i as int));
    }
    assert(y@ =~= centered(signal@, mean));
    y
}

/// Moment sums that hold no sample yet.
pub open spec fn empty_sums<R: Real>() -> BinSums<R> {
    let z = R::spec_zero();
    BinSums { y_sin: z, y_cos: z, sin: z, cos: z, sin_sin: z, sin_cos: z }
}

/// Moment sums for `num_freq` bins, all zero.
pub fn zero_sums<R: Real>(num_freq: usize) -> (sums: Vec<BinSums<R>>)
    ensures
        sums@.len() == num_freq,
        forall|k: int| 0 <= k < num_freq ==> #[trigger] sums@[k] == empty_sums::<R>(),
{
    let z = R::zero();
    let empty = BinSums { y_sin: z, y_cos: z, sin: z, cos: z, sin_sin: z, sin_cos: z };
    let mut sums: Vec<BinSums<R>> = Vec::with_capacity(num_freq);
    let mut j: usize = 0;
    while j < num_freq
        invariant
            j <= num_freq,
            empty == empty_sums::<R>(),
            sums@.len() == j,
            forall|k: int| 0 <= k < j ==> sums@[k] == empty,
        decreases num_freq - j,
    {
        sums.push(empty);
        j = j + 1;
    }
    sums
}

/// `sin` and `cos` of `angle`.
pub open spec fn rotation_at<R: Real>(angle: R) -> Rotation<R> {
    Rotation { sin: R::spec_sin(angle), cos: R::spec_cos(angle) }
}

/// The angle after bin `j`: the exact angle `t·(omega_start + (j + 1)·omega_step)`
/// when a resynchronisation is due, else `r` turned by the step whose sine
/// and cosine are `step_sin` and `step_cos`.
pub open spec fn advanced<R: Real>(
    r: Rotation<R>,
    j: usize,
    t: R,
    omega_start: R,
    omega_step: R,
    step_sin: R,
    step_cos: R,
    period: nat,
) -> Rotation<R> {
    if resync_due(j as nat, period) {
        let bins = R::spec_plus(R::spec_from_index(j), R::spec_one());
        rotation_at(R::spec_times(t, R::spec_plus(omega_start, R::spec_times(bins, omega_step))))
    } else {
        Rotation {
            sin: R::spec_plus(R::spec_times(r.sin, step_cos), R::spec_times(r.cos, step_sin)),
            cos: R::spec_minus(R::spec_times(r.cos, step_cos), R::spec_times(r.sin, step_sin)),
        }
    }
}

/// The `sin`/`cos` pair that a sample at time `t` uses in bin `j`: the exact
/// value at bin 0, then advanced bin by bin.
pub open spec fn angle_at<R: Real>(t: R, omega_start: R, omega_step: R, period: nat, j: nat) -> Rotation<R>
    decreases j,
{
    if j == 0 {
        rotation_at(R::spec_times(omega_start, t))
    } else {
        let step = R::spec_times(omega_step, t);
        advanced(
            angle_at(t, omega_start, omega_step, period, (j - 1) as nat),
            (j - 1) as usize,
            t,
            omega_start,
            omega_step,
            R::spec_sin(step),
            R::spec_cos(step),
            period,
        )
    }
}

impl<R: Real> Rotation<R> {
    /// `sin` and `cos` of `angle`, evaluated directly.
    pub fn at(angle: R) -> (r: Self)
        ensures
            r == rotation_at(angle),
    {
        Rotation { sin: angle.sin(), cos: angle.cos() }
    }

    /// The angle of the bin after bin `j` for a sample at time `t`: rotated
    /// by the step `(step_sin, step_cos)` through the angle-addition formulas,
    /// or, when a resynchronisation is due, evaluated exactly at
    /// `t·(omega_start + (j + 1)·omega_step)`.
    pub fn advance(
        self,
        j: usize,
        t: R,
        omega_start: R,
        omega_step: R,
        step_sin: R,
        step_cos: R,
        resync_period: usize,
    ) -> (r: Self)
        ensures
            r == advanced(
                self,
                j,
                t,
                omega_start,
                omega_step,
                step_sin,
                step_cos,
                resync_period as nat,
            ),
    {
        if recompute_after(j, resync_period) {
            let bins = R::from_index(j).plus(&R::one());
            let omega = omega_start.plus(&bins.times(&omega_step));
            Rotation::at(t.times(&omega))
        } else {
            let cos = self.cos.times(&step_cos).minus(&self.sin.times(&step_sin));
            let sin = self.sin.times(&step_cos).plus(&self.cos.times(&step_sin));
            Rotation { sin, cos }
        }
    }
}

/// `s` with the terms of one sample added: weight `w`, weighted value `wy`
/// (`w·y`), at the angle whose sine and cosine `r` holds.
pub open spec fn with_sample<R: Real>(s: BinSums<R>, r: Rotation<R>, w: R, wy: R) -> BinSums<R> {
    BinSums {
        y_sin: R::spec_plus(s.y_sin, R::spec_times(wy, r.sin)),
        y_cos: R::spec_plus(s.y_cos, R::spec_times(wy, r.cos)),
        sin: R::spec_plus(s.sin, R::spec_times(w, r.sin)),
        cos: R::spec_plus(s.cos, R::spec_times(w, r.cos)),
        sin_sin: R::spec_plus(s.sin_sin, R::spec_times(R::spec_times(w, r.sin), r.sin)),
        sin_cos: R::spec_plus(s.sin_cos, R::spec_times(R::spec_times(w, r.sin), r.cos)),
    }
}

/// Adds one sample (time `t`, centred value `y`, weight `w`) to the moment
/// sums of every bin of the grid `omega_start + j·omega_step`.
pub fn accumulate_sample<R: Real>(
    sums: &mut Vec<BinSums<R>>,
    t: R,
    y: R,
    w: R,
    omega_start: R,
    omega_step: R,
    resync_period: usize,
)
    ensures
        final(sums)@.len() == old(sums)@.len(),
        forall|j: int|
            0 <= j < old(sums)@.len() ==> #[trigger] final(sums)@[j] == with_sample(
                old(sums)@[j],
                angle_at(t, omega_start, omega_step, resync_period as nat, j as nat),
                w,
                R::spec_times(w, y),
            ),
{
    let step_angle = omega_step.times(&t);
    let step_sin = step_angle.sin();
    let step_cos = step_angle.cos();
    let mut rot = Rotation::at(omega_start.times(&t));
    let wy = w.times(&y);
    let n = sums.len();
    let mut j: usize = 0;
    while j < n
        invariant
            sums@.len() == n,
            n == old(sums)@.len(),
            j <= n,
            step_sin == R::spec_sin(R::spec_times(omega_step, t)),
            step_cos == R::spec_cos(R::spec_times(omega_step, t)),
            wy == R::spec_times(w, y),
            rot == angle_at(t, omega_start, omega_step, resync_period as nat, j as nat),
            forall|k: int|
                0 <= k < j ==> #[trigger] sums@[k] == with_sample(
                    old(sums)@[k],
                    angle_at(t, omega_start, omega_step, resync_period as nat, k as nat),
                    w,
                    wy,
                ),
            forall|k: int| j <= k < n ==> #[trigger] sums@[k] == old(sums)@[k],
        decreases n - j,
    {
        let s = sums[j];
        let next = BinSums {
            y_sin: s.y_sin.plus(&wy.times(&rot.sin)),
            y_cos: s.y_cos.plus(&wy.times(&rot.cos)),
            sin: s.sin.plus(&w.times(&rot.sin)),
            cos: s.cos.plus(&w.times(&rot.cos)),
            sin_sin: s.sin_sin.plus(&w.times(&rot.sin).times(&rot.sin)),
            sin_cos: s.sin_cos.plus(&w.times(&rot.sin).times(&rot.cos)),
        };
        sums.set(j, next);
        rot = rot.advance(j, t, omega_start, omega_step, step_sin, step_cos, resync_period);
        j = j + 1;
    }
}

/// The closed-form weighted least-squares fit of one bin from its moment
/// sums, the global sum `sum_y`, the centred variance `yy` and the weighted
/// mean of the raw signal.
pub open spec fn solved<R: Real>(s: BinSums<R>, sum_y: R, yy: R, mean: R, with_constant: bool) -> SpectrumPoint<R> {
    let ys = R::spec_minus(s.y_sin, R::spec_times(sum_y, s.sin));
    let yc = R::spec_minus(s.y_cos, R::spec_times(sum_y, s.cos));
    let one = R::spec_one();
    let two = R::spec_plus(one, one);
    let ss = if with_constant {
        R::spec_minus(s.sin_sin, R::spec_times(s.sin, s.sin))
    } else {
        s.sin_sin
    };
    let cc = if with_constant {
        R::spec_minus(R::spec_minus(one, s.sin_sin), R::spec_times(s.cos, s.cos))
    } else {
        R::spec_minus(one, s.sin_sin)
    };
    let cs = if with_constant {
        R::spec_minus(s.sin_cos, R::spec_times(s.cos, s.sin))
    } else {
        s.sin_cos
    };
    let d = R::spec_minus(R::spec_times(cc, ss), R::spec_times(cs, cs));
    let num = R::spec_minus(
        R::spec_plus(R::spec_times(R::spec_times(ss, yc), yc), R::spec_times(R::spec_times(cc, ys), ys)),
        R::spec_times(R::spec_times(R::spec_times(two, cs), yc), ys),
    );
    let amp_cos = R::spec_over(R::spec_minus(R::spec_times(yc, ss), R::spec_times(ys, cs)), d);
    let amp_sin = R::spec_over(R::spec_minus(R::spec_times(ys, cc), R::spec_times(yc, cs)), d);
    SpectrumPoint {
        power: R::spec_over(num, R::spec_times(yy, d)),
        amp_cos,
        amp_sin,
        constant: if with_constant {
            R::spec_plus(
                R::spec_minus(R::spec_minus(sum_y, R::spec_times(amp_cos, s.cos)), R::spec_times(amp_sin, s.sin)),
                mean,
            )
        } else {
            mean
        },
    }
}

/// Solves the weighted least-squares fit of one bin from its moment sums,
/// the global sum `sum_y`, the centred variance `yy = Σwy² − (Σwy)²` and the
/// weighted mean of the raw signal.
///
/// With a floating constant the sums are taken about their means and the
/// offset is reconstructed; without one the offset reported is `mean`.
/// A singular design (`d = 0`) gives whatever division by zero gives.
pub fn solve_bin<R: Real>(s: &BinSums<R>, sum_y: R, yy: R, mean: R, with_constant: bool) -> (p:
    SpectrumPoint<R>)
    ensures
        p == solved(*s, sum_y, yy, mean, with_constant),
        !with_constant ==> p.constant == mean,
{
    let ys = s.y_sin.minus(&sum_y.times(&s.sin));
    let yc = s.y_cos.minus(&sum_y.times(&s.cos));
    let one = R::one();
    let two = one.plus(&one);
    let (ss, cc, cs) = if with_constant {
        (
            s.sin_sin.minus(&s.sin.times(&s.sin)),
            one.minus(&s.sin_sin).minus(&s.cos.times(&s.cos)),
            s.sin_cos.minus(&s.cos.times(&s.sin)),
        )
    } else {
        (s.sin_sin, one.minus(&s.sin_sin), s.sin_cos)
    };
    let d = cc.times(&ss).minus(&cs.times(&cs));
    let num = ss.times(&yc).times(&yc).plus(&cc.times(&ys).times(&ys)).minus(
        &two.times(&cs).times(&yc).times(&ys),
    );
    let power = num.over(&yy.times(&d));
    let amp_cos = yc.times(&ss).minus(&ys.times(&cs)).over(&d);
    let amp_sin = ys.times(&cc).minus(&yc.times(&cs)).over(&d);
    let constant = if with_constant {
        sum_y.minus(&amp_cos.times(&s.cos)).minus(&amp_sin.times(&s.sin)).plus(&mean)
    } else {
        mean
    };
    SpectrumPoint { power, amp_cos, amp_sin, constant }
}

/// `Σ w[i]·y[i]·y[i]` over the first `n` samples, summed in order.
pub open spec fn wsum_sq<R: Real>(w: Seq<R>, y: Seq<R>, n: nat) -> R
    decreases n,
{
    if n == 0 {
        R::spec_zero()
    } else {
        R::spec_plus(
            wsum_sq(w, y, (n - 1) as nat),
            R::spec_times(R::spec_times(w[n - 1], y[n - 1]), y[n - 1]),
        )
    }
}

/// The moment sums of bin `j` over the first `n` samples (times `time`,
/// centred values `y`, weights `w`), added sample by sample.
pub open spec fn bin_sums<R: Real>(
    time: Seq<R>,
    y: Seq<R>,
    w: Seq<R>,
    omega_start: R,
    omega_step: R,
    period: nat,
    n: nat,
    j: nat,
) -> BinSums<R>
    decreases n,
{
    if n == 0 {
        empty_sums()
    } else {
        let i = n - 1;
        with_sample(
            bin_sums(time, y, w, omega_start, omega_step, period, (n - 1) as nat, j),
            angle_at(time[i], omega_start, omega_step, period, j),
            w[i],
            R::spec_times(w[i], y[i]),
        )
    }
}

/// The fit at bin `j` of the periodogram of the given series, on the grid
/// whose frequencies are `freq_start + j·freq_step`. It depends on the bin
/// index alone, not on how many bins the grid holds.
pub open spec fn point_at<R: Real>(
    time: Seq<R>,
    signal: Seq<R>,
    weights: Seq<R>,
    freq_start: R,
    freq_step: R,
    with_constant: bool,
    period: nat,
    j: nat,
) -> SpectrumPoint<R> {
    let mean = mean_of(signal, weights);
    let y = centered(signal, mean);
    let omega_start = R::spec_times(freq_start, R::spec_two_pi());
    let omega_step = R::spec_times(freq_step, R::spec_two_pi());
    let n = time.len();
    let sum_y = wsum(weights, y, n);
    let yy = R::spec_minus(wsum_sq(weights, y, n), R::spec_times(sum_y, sum_y));
    solved(bin_sums(time, y, weights, omega_start, omega_step, period, n, j), sum_y, yy, mean, with_constant)
}

/// Without a fitted constant, the offset reported at every bin is the
/// weighted mean of the signal: it is the same at every bin and does not
/// depend on the times, the frequency grid or the resynchronisation period.
pub proof fn lemma_offset_without_constant<R: Real>(
    time: Seq<R>,
    signal: Seq<R>,
    weights: Seq<R>,
    freq_start: R,
    freq_step: R,
    period: nat,
    j: nat,
    k: nat,
)
    ensures
        point_at(time, signal, weights, freq_start, freq_step, false, period, j).constant
            == mean_of(signal, weights),
        point_at(time, signal, weights, freq_start, freq_step, false, period, j).constant
            == point_at(time, signal, weights, freq_start, freq_step, false, period, k).constant,
{
}

/// The four output sequences of a periodogram: power, cosine amplitude, sine
/// amplitude and offset, one entry per frequency bin.
pub type Spectrum<R> = (Vec<R>, Vec<R>, Vec<R>, Vec<R>);

/// Whether the four sequences of `out` each hold `num_freq` entries.
pub open spec fn has_bins<R>(out: Spectrum<R>, num_freq: nat) -> bool {
    &&& out.0@.len() == num_freq
    &&& out.1@.len() == num_freq
    &&& out.2@.len() == num_freq
    &&& out.3@.len() == num_freq
}

/// Whether entry `j` of the four sequences of `out` is the fit `p`.
pub open spec fn holds_point<R>(out: Spectrum<R>, j: int, p: SpectrumPoint<R>) -> bool {
    &&& out.0@[j] == p.power
    &&& out.1@[j] == p.amp_cos
    &&& out.2@[j] == p.amp_sin
    &&& out.3@[j] == p.constant
}

/// Solves every bin from its moment sums (see `solve_bin`) and collects the
/// results, bin `j` at index `j` of each sequence. The centred variance is
/// `sum_yy − sum_y²`.
pub fn solve_spectrum<R: Real>(
    sums: &Vec<BinSums<R>>,
    sum_y: R,
    sum_yy: R,
    mean: R,
    with_constant: bool,
) -> (out: Spectrum<R>)
    ensures
        has_bins(out, sums@.len()),
        forall|j: int|
            0 <= j < sums@.len() ==> holds_point(
                out,
                j,
                solved(
                    #[trigger] sums@[j],
                    sum_y,
                    R::spec_minus(sum_yy, R::spec_times(sum_y, sum_y)),
                    mean,
                    with_constant,
                ),
            ),
        !with_constant ==> forall|j: int| 0 <= j < sums@.len() ==> #[trigger] out.3@[j] == mean,
{
    let n = sums.len();
    let mut spectrum: Vec<R> = Vec::with_capacity(n);
    let mut amp_cos: Vec<R> = Vec::with_capacity(n);
    let mut amp_sin: Vec<R> = Vec::with_capacity(n);
    let mut constant: Vec<R> = Vec::with_capacity(n);
    let yy = sum_yy.minus(&sum_y.times(&sum_y));
    let mut j: usize = 0;
    while j < n
        invariant
            n == sums@.len(),
            j <= n,
            yy == R::spec_minus(sum_yy, R::spec_times(sum_y, sum_y)),
            spectrum@.len() == j,
            amp_cos@.len() == j,
            amp_sin@.len() == j,
            constant@.len() == j,
            forall|k: int|
                0 <= k < j ==> {
                    let p = solved(#[trigger] sums@[k], sum_y, yy, mean, with_constant);
                    &&& spectrum@[k] == p.power
                    &&& amp_cos@[k] == p.amp_cos
                    &&& amp_sin@[k] == p.amp_sin
                    &&& constant@[k] == p.constant
                },
        decreases n - j,
    {
        let p = solve_bin(&sums[j], sum_y, yy, mean, with_constant);
        spectrum.push(p.power);
        amp_cos.push(p.amp_cos);
        amp_sin.push(p.amp_sin);
        constant.push(p.constant);
        j = j + 1;
    }
    let out = (spectrum, amp_cos, amp_sin, constant);
    assert forall|j: int| 0 <= j < n implies holds_point(
        out,
        j,
        solved(sums@[j], sum_y, R::spec_minus(sum_yy, R::spec_times(sum_y, sum_y)), mean, with_constant),
    ) by {
        let _ = sums@[j];
    }
    assert forall|j: int| 0 <= j < n && !with_constant implies out.3@[j] == mean by {
        let _ = sums@[j];
    }
    out
}

/// Generalised Lomb-Scargle periodogram with an explicit resynchronisation
/// period for the sine/cosine recurrence (see `DEFAULT_RESYNC_PERIOD`).
///
/// `time` need not be equidistant and is used as given (no epoch is taken
/// off); `weights` must already sum to one. The grid runs over the
/// frequencies `freq_start + j·freq_step`, `j < num_freq`, in cycles per unit
/// of `time`. With `with_constant` the model is a sinusoid plus a fitted
/// offset, otherwise a sinusoid about the weighted mean.
///
/// The request is refused, before any computation, for an empty `time`, a
/// `signal` of another length, too few `weights`, a step that is not
/// strictly positive, or an empty grid, in that order of precedence.
/// Otherwise bin `j` of the result is `point_at(.., j)`.
pub fn lombscargle_with_resync<R: Real>(
    time: &[R],
    signal: &[R],
    weights: &[R],
    freq_start: R,
    freq_step: R,
    num_freq: usize,
    with_constant: bool,
    resync_period: usize,
) -> (r: Result<Spectrum<R>, InvalidInput>)
    ensures
        r is Ok <==> input_error(
            time@.len(),
            signal@.len(),
            weights@.len(),
            R::spec_positive(freq_step),
            num_freq as nat,
        ) is None,
        r matches Err(e) ==> input_error(
            time@.len(),
            signal@.len(),
            weights@.len(),
            R::spec_positive(freq_step),
            num_freq as nat,
        ) == Some(e),
        r matches Ok(out) ==> has_bins(out, num_freq as nat),
        r matches Ok(out) ==> forall|j: int|
            0 <= j < num_freq ==> holds_point(
                out,
                j,
                #[trigger] point_at(
                    time@,
                    signal@,
                    weights@,
                    freq_start,
                    freq_step,
                    with_constant,
                    resync_period as nat,
                    j as nat,
                ),
            ),
        r matches Ok(out) ==> (!with_constant ==> forall|j: int|
            0 <= j < num_freq ==> #[trigger] out.3@[j] == mean_of(signal@, weights@)),
{
    let step_positive = freq_step.is_positive();
    let checked = check_input(time.len(), signal.len(), weights.len(), step_positive, num_freq);
    match checked {
        Err(e) => {
            return Err(e);
        },
        Ok(()) => {},
    }
    let mean = weighted_mean(signal, weights);
    let y = center(signal, mean);
    let two_pi = R::two_pi();
    let omega_start = freq_start.times(&two_pi);
    let omega_step = freq_step.times(&two_pi);
    let mut sum_y = R::zero();
    let mut sum_yy = R::zero();
    let mut sums: Vec<BinSums<R>> = zero_sums(num_freq);
    let mut n: usize = 0;
    while n < time.len()
        invariant
            n <= time@.len(),
            y@ == centered(signal@, mean),
            signal@.len() == time@.len(),
            weights@.len() >= time@.len(),
            sums@.len() == num_freq,
            sum_y == wsum(weights@, y@, n as nat),
            sum_yy == wsum_sq(weights@, y@, n as nat),
            forall|j: int|
                0 <= j < num_freq ==> #[trigger] sums@[j] == bin_sums(
                    time@,
                    y@,
                    weights@,
                    omega_start,
                    omega_step,
                    resync_period as nat,
                    n as nat,
                    j as nat,
                ),
        decreases time@.len() - n,
    {
        let wy = weights[n].times(&y[n]);
        sum_y = sum_y.plus(&wy);
        sum_yy = sum_yy.plus(&wy.times(&y[n]));
        accumulate_sample(&mut sums, time[n], y[n], weights[n], omega_start, omega_step, resync_period);
        n = n + 1;
    }
    let out = solve_spectrum(&sums, sum_y, sum_yy, mean, with_constant);
    assert forall|j: int| 0 <= j < num_freq implies holds_point(
        out,
        j,
        #[trigger] point_at(
            time@,
            signal@,
            weights@,
            freq_start,
            freq_step,
            with_constant,
            resync_period as nat,
            j as nat,
        ),
    ) by {
        let _ = sums@[j];
    }
    Ok(out)
}

/// Generalised Lomb-Scargle periodogram with the default resynchronisation
/// period; see `lombscargle_with_resync`.
pub fn lombscargle<R: Real>(
    time: &[R],
    signal: &[R],
    weights: &[R],
    freq_start: R,
    freq_step: R,
    num_freq: usize,
    with_constant: bool,
) -> (r: Result<Spectrum<R>, InvalidInput>)
    ensures
        r is Ok <==> input_error(
            time@.len(),
            signal@.len(),
            weights@.len(),
            R::spec_positive(freq_step),
            num_freq as nat,
        ) is None,
        r matches Err(e) ==> input_error(
            time@.len(),
            signal@.len(),
            weights@.len(),
            R::spec_positive(freq_step),
            num_freq as nat,
        ) == Some(e),
        r matches Ok(out) ==> has_bins(out, num_freq as nat),
        r matches Ok(out) ==> forall|j: int|
            0 <= j < num_freq ==> holds_point(
                out,
                j,
                #[trigger] point_at(
                    time@,
                    signal@,
                    weights@,
                    freq_start,
                    freq_step,
                    with_constant,
                    DEFAULT_RESYNC_PERIOD as nat,
                    j as nat,
                ),
            ),
        r matches Ok(out) ==> (!with_constant ==> forall|j: int|
            0 <= j < num_freq ==> #[trigger] out.3@[j] == mean_of(signal@, weights@)),
{
    lombscargle_with_resync(
        time,
        signal,
        weights,
        freq_start,
        freq_step,
        num_freq,
        with_constant,
        DEFAULT_RESYNC_PERIOD,
    )
}

} // verus!
