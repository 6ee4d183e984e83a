use vstd::prelude::*;

verus! {

/// The arithmetic that the periodogram needs from its number type.
///
/// The periodogram is written once over this trait; an implementation for
/// IEEE doubles gives the usual floating-point periodogram. Each operation is
/// tied to a spec function of the same name, so that the periodogram's
/// contracts can say which value is computed from which; nothing is assumed
/// of the arithmetic beyond that each operation is a function of its
/// arguments. An implementation outside verified code defines each spec
/// function as the operation itself and lets the method call it.
pub trait Real: Copy {
    spec fn spec_zero() -> Self;

    spec fn spec_one() -> Self;

    spec fn spec_two_pi() -> Self;

    spec fn spec_from_index(i: usize) -> Self;

    spec fn spec_plus(a: Self, b: Self) -> Self;

    spec fn spec_minus(a: Self, b: Self) -> Self;

    spec fn spec_times(a: Self, b: Self) -> Self;

    spec fn spec_over(a: Self, b: Self) -> Self;

    spec fn spec_sin(a: Self) -> Self;

    spec fn spec_cos(a: Self) -> Self;

    spec fn spec_positive(a: Self) -> bool;

    /// The additive identity.
    fn zero() -> (r: Self)
        ensures
            r == Self::spec_zero(),
    ;

    /// The multiplicative identity.
    fn one() -> (r: Self)
        ensures
            r == Self::spec_one(),
    ;

    /// The number `2π`, which turns a frequency into an angular frequency.
    fn two_pi() -> (r: Self)
        ensures
            r == Self::spec_two_pi(),
    ;

    /// The index `i` as a number.
    fn from_index(i: usize) -> (r: Self)
        ensures
            r == Self::spec_from_index(i),
    ;

    fn plus(&self, o: &Self) -> (r: Self)
        ensures
            r == Self::spec_plus(*self, *o),
    ;

    fn minus(&self, o: &Self) -> (r: Self)
        ensures
            r == Self::spec_minus(*self, *o),
    ;

    fn times(&self, o: &Self) -> (r: Self)
        ensures
            r == Self::spec_times(*self, *o),
    ;

    fn over(&self, o: &Self) -> (r: Self)
        ensures
            r == Self::spec_over(*self, *o),
    ;

    fn sin(&self) -> (r: Self)
        ensures
            r == Self::spec_sin(*self),
    ;

    fn cos(&self) -> (r: Self)
        ensures
            r == Self::spec_cos(*self),
    ;

    /// Whether the value is strictly greater than zero (false for a NaN).
    fn is_positive(&self) -> (r: bool)
        ensures
            r == Self::spec_positive(*self),
    ;
}

} // verus!
