use vstd::prelude::*;
use crate::error::GLMFitError;

verus! {

/// How many times one step-halving search may evaluate a trial before the
/// fit is declared divergent.
pub const MAX_HALVING: u32 = 10;

/// What the line search decides about one trial update.
///
/// The numeric kernel evaluates the trial's relative deviance change
/// `rel_delta = (dev_new - dev_old) / (0.1 + |dev_new|)` and reports two
/// exclusive classifications of it against the convergence threshold
/// `epsilon`: `within_band` for `|rel_delta| < epsilon` and `worsened` for
/// `rel_delta >= epsilon`.  The decision made from them is fixed here.
#[derive(Clone, Copy, Debug, PartialEq, Eq, Structural)]
pub enum StepAssessment {
    /// The trial left the deviance inside the epsilon band: adopt it and
    /// stop the outer iteration.
    Converged,
    /// The trial lowered the deviance by more than the band: adopt it and
    /// keep iterating.
    Improved,
    /// The trial worsened the deviance (or improved it too little) and the
    /// attempt budget is not exhausted: halve the step and try again.
    HalveAgain,
    /// The last allowed trial still worsened the deviance: the fit
    /// diverged.
    Diverged,
}

/// The decision the line search takes for a trial, given how many trials
/// came before it and the kernel's two classifications of its relative
/// deviance change.  The branch order is deliberate: the convergence band
/// is tested first, so a small decrease inside the band counts as
/// convergence, not as an improvement.
pub open spec fn spec_assess(attempts_before: u32, within_band: bool, worsened: bool) -> StepAssessment {
    if within_band {
        StepAssessment::Converged
    } else if worsened {
        if attempts_before + 1 < MAX_HALVING {
            StepAssessment::HalveAgain
        } else {
            StepAssessment::Diverged
        }
    } else {
        StepAssessment::Improved
    }
}

/// The state of one step-halving line search.  A fresh search is made for
/// every outer IRLS iteration; `attempts` counts the trials assessed so
/// far, and the next trial scales the proposed update by `2^-attempts`.
pub struct StepHalver {
    pub attempts: u32,
}

impl StepHalver {
    pub fn new() -> (r: Self)
        ensures
            r.attempts == 0,
    {
        StepHalver { attempts: 0 }
    }

    /// Whether another trial may still be evaluated.
    pub fn can_try(&self) -> (r: bool)
        ensures
            r == (self.attempts < MAX_HALVING),
    {
        self.attempts < MAX_HALVING
    }

    /// The exponent of the next trial's step size: the trial coefficient
    /// vector is `beta_old + 2^-exponent * (beta_candidate - beta_old)`,
    /// so the search starts at a full step and halves it on every retry.
    pub fn step_exponent(&self) -> (r: u32)
        ensures
            r == self.attempts,
    {
        self.attempts
    }

    /// Judges one trial.  `within_band` and `worsened` are the kernel's
    /// exclusive classifications of the trial's relative deviance change
    /// (see [`StepAssessment`]); they cannot hold together since
    /// `|rel_delta| < epsilon` and `rel_delta >= epsilon` exclude each
    /// other for the positive `epsilon` the options demand.
    pub fn assess(&mut self, within_band: bool, worsened: bool) -> (d: StepAssessment)
        requires
            old(self).attempts < MAX_HALVING,
            !(within_band && worsened),
        ensures
            final(self).attempts == old(self).attempts + 1,
            d == spec_assess(old(self).attempts, within_band, worsened),
    {
        self.attempts = self.attempts + 1;
        if within_band {
            StepAssessment::Converged
        } else if worsened {
            if self.attempts < MAX_HALVING {
                StepAssessment::HalveAgain
            } else {
                StepAssessment::Diverged
            }
        } else {
            StepAssessment::Improved
        }
    }
}

/// Law: the line search never accepts a worsening step.  An accepted
/// outcome — convergence or improvement — can only arise from a trial whose
/// relative deviance change stayed below the epsilon band, so the deviance
/// adopted by the outer iteration never exceeds the prior deviance by more
/// than the epsilon-scaled tolerance, and no unbounded deviance growth can
/// persist across iterations.
pub proof fn lemma_step_never_accepts_worsened(attempts_before: u32, within_band: bool, worsened: bool)
    requires
        !(within_band && worsened),
    ensures
        ({
            let d = spec_assess(attempts_before, within_band, worsened);
            d == StepAssessment::Converged || d == StepAssessment::Improved
        }) ==> !worsened,
{
}

/// Law: the convergence band is tested before the improvement branch, so a
/// trial whose deviance moved but stayed inside the band — a small decrease
/// included — is classified as convergence, never as an improvement.
pub proof fn lemma_band_decrease_is_convergence(attempts_before: u32)
    ensures
        spec_assess(attempts_before, true, false) == StepAssessment::Converged,
{
}

/// Law: the line search is bounded.  A trial is only ever judged while the
/// attempt budget is open, and every judgment spends one attempt, so a
/// search judges at most [`MAX_HALVING`] trials; the divergent verdict
/// falls exactly on the last of them.
pub proof fn lemma_step_budget(attempts_before: u32, within_band: bool, worsened: bool)
    requires
        attempts_before < MAX_HALVING,
        !(within_band && worsened),
    ensures
        spec_assess(attempts_before, within_band, worsened) == StepAssessment::Diverged
            <==> (worsened && attempts_before + 1 == MAX_HALVING),
{
}

/// The state of the outer IRLS iteration: how many iterations have begun,
/// the cap on them, and whether the line search has signalled convergence.
pub struct IrlsController {
    pub max_iter: u32,
    pub n_iter: u32,
    pub converged: bool,
}

impl IrlsController {
    /// The controller's invariant: the iteration count never passes its cap.
    pub open spec fn wf(self) -> bool {
        self.n_iter <= self.max_iter
    }

    pub fn new(max_iter: u32) -> (r: Self)
        ensures
            r.max_iter == max_iter,
            r.n_iter == 0,
            !r.converged,
            r.wf(),
    {
        IrlsController { max_iter, n_iter: 0, converged: false }
    }

    /// Whether another outer iteration should run: the cap is not reached
    /// and convergence has not been signalled.  Convergence is the loop's
    /// only normal early exit.
    pub fn should_iterate(&self) -> (r: bool)
        ensures
            r == (self.n_iter < self.max_iter && !self.converged),
    {
        self.n_iter < self.max_iter && !self.converged
    }

    /// Opens one outer iteration, spending one unit of the iteration cap.
    pub fn begin_iteration(&mut self)
        requires
            old(self).n_iter < old(self).max_iter,
            !old(self).converged,
        ensures
            final(self).n_iter == old(self).n_iter + 1,
            final(self).max_iter == old(self).max_iter,
            !final(self).converged,
            final(self).wf(),
    {
        self.n_iter = self.n_iter + 1;
    }

    /// Closes one outer iteration with the line search's final verdict.
    /// An accepted trial — converged or improved — is adopted and the loop
    /// goes on or stops accordingly; a divergent search makes the whole
    /// fit fail with the fitting-divergence error.  The verdict can never
    /// be [`StepAssessment::HalveAgain`]: that one keeps the line search
    /// itself running and never reaches the outer loop.
    pub fn conclude_iteration(&mut self, assessment: StepAssessment) -> (r: Result<(), GLMFitError>)
        requires
            assessment != StepAssessment::HalveAgain,
        ensures
            final(self).max_iter == old(self).max_iter,
            final(self).n_iter == old(self).n_iter,
            old(self).wf() ==> final(self).wf(),
            assessment == StepAssessment::Converged ==> r == Ok::<(), GLMFitError>(())
                && final(self).converged,
            assessment == StepAssessment::Improved ==> r == Ok::<(), GLMFitError>(())
                && final(self).converged == old(self).converged,
            assessment == StepAssessment::Diverged ==> r == Err::<(), GLMFitError>(
                GLMFitError::ModelFittingError,
            ),
    {
        match assessment {
            StepAssessment::Converged => {
                self.converged = true;
                Ok(())
            },
            StepAssessment::Improved => Ok(()),
            StepAssessment::Diverged => Err(GLMFitError::ModelFittingError),
            StepAssessment::HalveAgain => Err(GLMFitError::ModelFittingError),
        }
    }

    /// The number of outer iterations actually consumed; what the fitted
    /// model reports.
    pub fn iterations_used(&self) -> (r: u32)
        ensures
            r == self.n_iter,
    {
        self.n_iter
    }
}

/// The error surfaced when the linear-algebra collaborator reports that the
/// QR factorization or the triangular solve failed.  The failure report
/// becomes a typed result for the caller — never a process abort and never
/// silently returned NaN coefficients.
pub fn solve_failure_error() -> (r: GLMFitError)
    ensures
        r == GLMFitError::RankDeficient,
{
    GLMFitError::RankDeficient
}

} // verus!
