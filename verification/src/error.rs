use vstd::prelude::*;

verus! {

/// The typed failures of a GLM fit.  Every failure is fatal to the call and
/// is returned to the caller; the fitter never logs, prints, or aborts.
///
/// `RankDeficient` reports a failure of the weighted least-squares solve
/// (the QR factorization or the triangular back-substitution rejected the
/// design, as it does on a collinear or all-zero column, or when there are
/// more features than observations).  Surfacing it as its own variant keeps
/// a numeric failure distinct from a missing input and guarantees a typed
/// result instead of a crash or silent NaN coefficients.
#[derive(Clone, Copy, Debug, PartialEq, Eq, Structural)]
pub enum GLMFitError {
    NoPredictors,
    NoOutcome,
    NoFamily,
    RankDeficient,
    ModelFittingError,
}

impl GLMFitError {
    /// The user-facing description of this failure.
    pub open spec fn spec_message(self) -> Seq<char> {
        match self {
            GLMFitError::NoPredictors => "Cannot fit GLM without predictors"@,
            GLMFitError::NoOutcome => "Cannot fit GLM without an outcome"@,
            GLMFitError::NoFamily => "Cannot fit GLM without a family"@,
            GLMFitError::RankDeficient => "Weighted least-squares solve failed on a rank-deficient design"@,
            GLMFitError::ModelFittingError => "Something went wrong"@,
        }
    }

    /// Describes the failure; what a diagnostic printer at the host boundary
    /// shows for it.
    pub fn message(&self) -> (r: &'static str)
        ensures
            r@ == self.spec_message(),
    {
        match self {
            GLMFitError::NoPredictors => "Cannot fit GLM without predictors",
            GLMFitError::NoOutcome => "Cannot fit GLM without an outcome",
            GLMFitError::NoFamily => "Cannot fit GLM without a family",
            GLMFitError::RankDeficient => "Weighted least-squares solve failed on a rank-deficient design",
            GLMFitError::ModelFittingError => "Something went wrong",
        }
    }
}

} // verus!
