use lombscargle::{
    accumulate_sample, center, check_input, lombscargle, lombscargle_with_resync,
    recompute_after, solve_bin, solve_spectrum, weighted_mean, zero_sums, BinSums, InvalidInput,
    Real, Rotation, DEFAULT_RESYNC_PERIOD,
};

#[derive(Clone, Copy, Debug, PartialEq)]
struct F(f64);

impl Real for F {
    fn spec_zero() -> F {
        F(0.0)
    }
    fn spec_one() -> F {
        F(1.0)
    }
    fn spec_two_pi() -> F {
        F(2.0 * std::f64::consts::PI)
    }
    fn spec_from_index(i: usize) -> F {
        F(i as f64)
    }
    fn spec_plus(a: F, b: F) -> F {
        F(a.0 + b.0)
    }
    fn spec_minus(a: F, b: F) -> F {
        F(a.0 - b.0)
    }
    fn spec_times(a: F, b: F) -> F {
        F(a.0 * b.0)
    }
    fn spec_over(a: F, b: F) -> F {
        F(a.0 / b.0)
    }
    fn spec_sin(a: F) -> F {
        F(a.0.sin())
    }
    fn spec_cos(a: F) -> F {
        F(a.0.cos())
    }
    fn spec_positive(a: F) -> bool {
        a.0 > 0.0
    }
    fn zero() -> F {
        Self::spec_zero()
    }
    fn one() -> F {
        Self::spec_one()
    }
    fn two_pi() -> F {
        Self::spec_two_pi()
    }
    fn from_index(i: usize) -> F {
        Self::spec_from_index(i)
    }
    fn plus(&self, o: &F) -> F {
        Self::spec_plus(*self, *o)
    }
    fn minus(&self, o: &F) -> F {
        Self::spec_minus(*self, *o)
    }
    fn times(&self, o: &F) -> F {
        Self::spec_times(*self, *o)
    }
    fn over(&self, o: &F) -> F {
        Self::spec_over(*self, *o)
    }
    fn sin(&self) -> F {
        Self::spec_sin(*self)
    }
    fn cos(&self) -> F {
        Self::spec_cos(*self)
    }
    fn is_positive(&self) -> bool {
        Self::spec_positive(*self)
    }
}

fn fs(v: &[f64]) -> Vec<F> {
    v.iter().map(|x| F(*x)).collect()
}

fn raw(v: &[F]) -> Vec<f64> {
    v.iter().map(|x| x.0).collect()
}

fn close(a: f64, b: f64, tol: f64) -> bool {
    (a - b).abs() <= tol
}

fn sample_series() -> (Vec<F>, Vec<F>, Vec<F>) {
    let t = [0.0, 0.7, 1.3, 2.9, 3.4, 5.1, 6.6, 8.2];
    let y: Vec<f64> = t
        .iter()
        .map(|x: &f64| 1.5 + 0.8 * (2.0 * std::f64::consts::PI * 0.31 * x + 0.4).sin())
        .collect();
    let w = vec![0.125; t.len()];
    (fs(&t), fs(&y), fs(&w))
}

#[test]
fn output_lengths_equal_num_freq() {
    let (t, y, w) = sample_series();
    for with_constant in [false, true] {
        for nf in [1usize, 2, 17] {
            let (p, c, s, k) =
                lombscargle(&t, &y, &w, F(0.05), F(0.01), nf, with_constant).unwrap();
            assert_eq!(p.len(), nf);
            assert_eq!(c.len(), nf);
            assert_eq!(s.len(), nf);
            assert_eq!(k.len(), nf);
        }
    }
}

#[test]
fn constant_without_offset_is_weighted_mean() {
    let t = fs(&[0.0, 1.0, 2.5, 4.0]);
    let y = fs(&[1.0, 2.0, 3.0, 4.0]);
    let w = fs(&[0.1, 0.2, 0.3, 0.4]);
    let (_, _, _, k) = lombscargle(&t, &y, &w, F(0.1), F(0.05), 6, false).unwrap();
    let mean = 0.1 * 1.0 + 0.2 * 2.0 + 0.3 * 3.0 + 0.4 * 4.0;
    for v in &k {
        assert_eq!(v.0, k[0].0);
        assert!(close(v.0, mean, 1e-12));
    }
}

#[test]
fn single_sinusoid_is_recovered() {
    let time = [0.0, 1.0, 2.0, 3.0];
    let signal: Vec<f64> =
        time.iter().map(|x: &f64| (2.0 * std::f64::consts::PI * 0.25 * x).sin()).collect();
    let (p, c, s, _) = lombscargle(
        &fs(&time),
        &fs(&signal),
        &fs(&[0.25, 0.25, 0.25, 0.25]),
        F(0.25),
        F(0.1),
        1,
        false,
    )
    .unwrap();
    assert!(close(s[0].0, 1.0, 1e-9));
    assert!(close(c[0].0, 0.0, 1e-9));
    assert!(close(p[0].0, 1.0, 1e-9));
}

#[test]
fn offset_is_fitted_with_constant() {
    let time = [0.0, 1.0, 2.0, 3.0];
    let signal: Vec<f64> = time
        .iter()
        .map(|x: &f64| 3.0 + (2.0 * std::f64::consts::PI * 0.25 * x).sin())
        .collect();
    let (p, c, s, k) = lombscargle(
        &fs(&time),
        &fs(&signal),
        &fs(&[0.25, 0.25, 0.25, 0.25]),
        F(0.25),
        F(0.1),
        1,
        true,
    )
    .unwrap();
    assert!(close(s[0].0, 1.0, 1e-9));
    assert!(close(c[0].0, 0.0, 1e-9));
    assert!(close(k[0].0, 3.0, 1e-9));
    assert!(close(p[0].0, 1.0, 1e-9));
}

#[test]
fn power_is_non_negative_for_well_posed_bins() {
    let (t, y, w) = sample_series();
    for with_constant in [false, true] {
        let (p, _, _, _) = lombscargle(&t, &y, &w, F(0.05), F(0.013), 40, with_constant).unwrap();
        for v in &p {
            assert!(v.0.is_finite());
            assert!(v.0 >= -1e-12);
        }
    }
}

#[test]
fn resync_cadence_changes_results_only_by_drift() {
    let (t, y, w) = sample_series();
    let nf = 12000;
    let a = lombscargle_with_resync(&t, &y, &w, F(0.01), F(0.0001), nf, true, 1).unwrap();
    let b = lombscargle_with_resync(&t, &y, &w, F(0.01), F(0.0001), nf, true, 5000).unwrap();
    for (x, z) in [(&a.0, &b.0), (&a.1, &b.1), (&a.2, &b.2), (&a.3, &b.3)] {
        for j in 0..nf {
            let scale = x[j].0.abs().max(1.0);
            assert!(close(x[j].0, z[j].0, 1e-6 * scale), "bin {}", j);
        }
    }
}

#[test]
fn never_resyncing_still_tracks_the_angle() {
    let (t, y, w) = sample_series();
    let a = lombscargle_with_resync(&t, &y, &w, F(0.05), F(0.01), 50, false, 0).unwrap();
    let b = lombscargle_with_resync(&t, &y, &w, F(0.05), F(0.01), 50, false, 1).unwrap();
    for j in 0..50 {
        assert!(close(a.0[j].0, b.0[j].0, 1e-9));
    }
}

#[test]
fn refusals_come_before_any_work() {
    let t = fs(&[0.0, 1.0]);
    let y = fs(&[1.0, 2.0]);
    let w = fs(&[0.5, 0.5]);
    assert_eq!(
        lombscargle(&[], &[], &[], F(0.1), F(0.1), 3, false).unwrap_err(),
        InvalidInput::EmptyTime
    );
    assert_eq!(
        lombscargle(&t, &y[..1], &w, F(0.1), F(0.1), 3, false).unwrap_err(),
        InvalidInput::SignalLengthMismatch
    );
    assert_eq!(
        lombscargle(&t, &y, &w[..1], F(0.1), F(0.1), 3, false).unwrap_err(),
        InvalidInput::WeightsTooShort
    );
    assert_eq!(
        lombscargle(&t, &y, &w, F(0.1), F(0.0), 3, false).unwrap_err(),
        InvalidInput::NonPositiveStep
    );
    assert_eq!(
        lombscargle(&t, &y, &w, F(0.1), F(-0.5), 3, true).unwrap_err(),
        InvalidInput::NonPositiveStep
    );
    assert_eq!(
        lombscargle(&t, &y, &w, F(0.1), F(f64::NAN), 3, true).unwrap_err(),
        InvalidInput::NonPositiveStep
    );
    assert_eq!(
        lombscargle(&t, &y, &w, F(0.1), F(0.1), 0, false).unwrap_err(),
        InvalidInput::NoFrequencies
    );
}

#[test]
fn check_input_order_of_precedence() {
    assert_eq!(check_input(0, 5, 0, false, 0), Err(InvalidInput::EmptyTime));
    assert_eq!(check_input(3, 2, 0, false, 0), Err(InvalidInput::SignalLengthMismatch));
    assert_eq!(check_input(3, 3, 2, false, 0), Err(InvalidInput::WeightsTooShort));
    assert_eq!(check_input(3, 3, 3, false, 0), Err(InvalidInput::NonPositiveStep));
    assert_eq!(check_input(3, 3, 4, true, 0), Err(InvalidInput::NoFrequencies));
    assert_eq!(check_input(3, 3, 3, true, 1), Ok(()));
}

#[test]
fn singular_bin_is_non_finite_and_neighbours_are_not() {
    let t = fs(&[0.0, 0.25, 0.5, 0.75]);
    let y = fs(&[1.0, -0.5, 0.25, 2.0]);
    let w = fs(&[0.25, 0.25, 0.25, 0.25]);
    // The middle bin has frequency zero, where the sine column vanishes.
    let (p, c, s, _) = lombscargle(&t, &y, &w, F(-0.5), F(0.5), 3, false).unwrap();
    assert!(p[1].0.is_nan());
    assert!(!c[1].0.is_finite());
    assert!(!s[1].0.is_finite());
    for j in [0usize, 2] {
        assert!(p[j].0.is_finite());
        assert!(c[j].0.is_finite());
        assert!(s[j].0.is_finite());
    }
    let (p2, _, _, _) = lombscargle(&t, &y, &w, F(-0.5), F(0.5), 1, false).unwrap();
    assert_eq!(p2[0].0, p[0].0);
}

#[test]
fn resync_schedule() {
    assert!(recompute_after(0, DEFAULT_RESYNC_PERIOD));
    assert!(!recompute_after(1, DEFAULT_RESYNC_PERIOD));
    assert!(!recompute_after(4999, DEFAULT_RESYNC_PERIOD));
    assert!(recompute_after(5000, DEFAULT_RESYNC_PERIOD));
    assert!(recompute_after(7, 1));
    assert!(!recompute_after(0, 0));
    assert_eq!(DEFAULT_RESYNC_PERIOD, 5000);
}

#[test]
fn weighted_mean_and_centering() {
    let y = fs(&[1.0, 2.0, 3.0, 4.0]);
    let w = fs(&[0.25, 0.25, 0.25, 0.25]);
    let m = weighted_mean(&y, &w);
    assert_eq!(m.0, 2.5);
    assert_eq!(raw(&center(&y, m)), vec![-1.5, -0.5, 0.5, 1.5]);
}

#[test]
fn rotation_advances_by_angle_addition() {
    let step = 0.3f64;
    let r = Rotation::at(F(0.5));
    let rotated = r.advance(1, F(1.0), F(0.5), F(step), F(step.sin()), F(step.cos()), 5000);
    assert!(close(rotated.sin.0, 0.8f64.sin(), 1e-15));
    assert!(close(rotated.cos.0, 0.8f64.cos(), 1e-15));
    let exact = r.advance(0, F(2.0), F(0.5), F(step), F(9.0), F(9.0), 5000);
    assert_eq!(exact.sin.0, (2.0f64 * (0.5 + 1.0 * step)).sin());
    assert_eq!(exact.cos.0, (2.0f64 * (0.5 + 1.0 * step)).cos());
}

#[test]
fn one_sample_fills_every_bin() {
    let mut sums = zero_sums::<F>(3);
    accumulate_sample(&mut sums, F(0.0), F(2.0), F(0.5), F(1.0), F(1.0), 5000);
    for b in &sums {
        assert_eq!(b.cos.0, 0.5);
        assert_eq!(b.y_cos.0, 1.0);
        assert_eq!(b.sin.0, 0.0);
        assert_eq!(b.sin_sin.0, 0.0);
    }
}

#[test]
fn solve_from_hand_sums() {
    let s = BinSums {
        y_sin: F(0.5),
        y_cos: F(0.0),
        sin: F(0.0),
        cos: F(0.0),
        sin_sin: F(0.5),
        sin_cos: F(0.0),
    };
    let p = solve_bin(&s, F(0.0), F(0.5), F(7.0), false);
    assert_eq!(p.power.0, 1.0);
    assert_eq!(p.amp_sin.0, 1.0);
    assert_eq!(p.amp_cos.0, 0.0);
    assert_eq!(p.constant.0, 7.0);
    let q = solve_bin(&s, F(0.0), F(0.5), F(7.0), true);
    assert_eq!(q.amp_sin.0, 1.0);
    assert_eq!(q.constant.0, 7.0);
    let (pw, _, _, k) = solve_spectrum(&vec![s, s], F(0.0), F(0.5), F(-2.0), false);
    assert_eq!(raw(&pw), vec![1.0, 1.0]);
    assert_eq!(raw(&k), vec![-2.0, -2.0]);
}
