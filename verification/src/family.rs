use vstd::prelude::*;

verus! {

/// The exponential families the fitter knows.  A closed sum type with one
/// stateless case per family: every use site matches exhaustively, so adding
/// a family is a compile-time-checked change.
///
/// Each family's distributional behavior — link, inverse link, link
/// derivative, variance, deviance, and the shared initial-mean heuristic —
/// is a pure elementwise function over double-precision vectors and is
/// evaluated by the numeric kernel at the host boundary; the variant chosen
/// here decides which formulas that kernel applies:
///
/// * Gaussian: identity link, unit variance, deviance `sum((y - mu)^2)`.
/// * Poisson: log link, variance `mu`, deviance
///   `2 * sum(y * ln(y / mu) - (y - mu))` with a zero outcome's log term
///   defined as zero.
#[derive(Clone, Copy, Debug, PartialEq, Eq, Structural)]
pub enum ExpFamily {
    Gaussian,
    Poisson,
}

impl ExpFamily {
    /// Whether this family's mean must stay strictly positive for its
    /// variance, link derivative, and deviance to remain finite.  The
    /// numeric kernel clamps the inverse link away from zero exactly for
    /// the families named here, so that a mean drifting to the boundary of
    /// its domain cannot start NaN propagation.
    pub fn requires_positive_mean(&self) -> (r: bool)
        ensures
            r == (*self is Poisson),
    {
        match self {
            ExpFamily::Gaussian => false,
            ExpFamily::Poisson => true,
        }
    }
}

} // verus!
