use glmreg::GLMFitError;
use glmreg::IrlsController;
use glmreg::StepAssessment;
use glmreg::StepHalver;
use glmreg::control::MAX_HALVING;
use glmreg::control::solve_failure_error;

#[test]
fn trial_inside_the_band_converges_at_once() {
    let mut halver = StepHalver::new();
    assert_eq!(halver.step_exponent(), 0);
    let decision = halver.assess(true, false);
    assert_eq!(decision, StepAssessment::Converged);
}

#[test]
fn improving_trial_is_accepted_without_further_shrinking() {
    let mut halver = StepHalver::new();
    let decision = halver.assess(false, false);
    assert_eq!(decision, StepAssessment::Improved);
    assert_eq!(halver.step_exponent(), 1);
}

#[test]
fn worsening_trial_halves_the_step() {
    let mut halver = StepHalver::new();
    let decision = halver.assess(false, true);
    assert_eq!(decision, StepAssessment::HalveAgain);
    // the next trial scales the update by 2^-1
    assert_eq!(halver.step_exponent(), 1);
}

#[test]
fn ten_worsening_trials_exhaust_the_budget() {
    let mut halver = StepHalver::new();
    for attempt in 0..MAX_HALVING {
        assert!(halver.can_try());
        assert_eq!(halver.step_exponent(), attempt);
        let decision = halver.assess(false, true);
        if attempt + 1 < MAX_HALVING {
            assert_eq!(decision, StepAssessment::HalveAgain);
        } else {
            assert_eq!(decision, StepAssessment::Diverged);
        }
    }
    assert!(!halver.can_try());
}

#[test]
fn band_decrease_counts_as_convergence_not_improvement() {
    // a small decrease inside the epsilon band: within_band holds, worsened
    // does not, and the branch order classifies it as convergence
    let mut halver = StepHalver::new();
    let decision = halver.assess(true, false);
    assert_eq!(decision, StepAssessment::Converged);
    assert_ne!(decision, StepAssessment::Improved);
}

#[test]
fn accepted_trials_never_come_from_a_worsening_classification() {
    // every classification a trial can carry, and what is accepted of them
    let cases = [(true, false), (false, false), (false, true)];
    for (within_band, worsened) in cases {
        let mut halver = StepHalver::new();
        let decision = halver.assess(within_band, worsened);
        let accepted =
            decision == StepAssessment::Converged || decision == StepAssessment::Improved;
        if accepted {
            assert!(!worsened);
        }
    }
}

#[test]
fn controller_runs_to_the_iteration_cap() {
    let mut controller = IrlsController::new(3);
    let mut rounds: u32 = 0;
    while controller.should_iterate() {
        controller.begin_iteration();
        let outcome = controller.conclude_iteration(StepAssessment::Improved);
        assert_eq!(outcome, Ok(()));
        rounds += 1;
    }
    assert_eq!(rounds, 3);
    assert_eq!(controller.iterations_used(), 3);
}

#[test]
fn convergence_is_the_only_early_exit() {
    let mut controller = IrlsController::new(25);
    controller.begin_iteration();
    assert_eq!(controller.conclude_iteration(StepAssessment::Improved), Ok(()));
    assert!(controller.should_iterate());
    controller.begin_iteration();
    assert_eq!(controller.conclude_iteration(StepAssessment::Converged), Ok(()));
    assert!(!controller.should_iterate());
    assert_eq!(controller.iterations_used(), 2);
}

#[test]
fn divergent_search_fails_the_fit() {
    let mut controller = IrlsController::new(25);
    controller.begin_iteration();
    let outcome = controller.conclude_iteration(StepAssessment::Diverged);
    assert_eq!(outcome, Err(GLMFitError::ModelFittingError));
}

#[test]
fn zero_iteration_cap_never_iterates() {
    let controller = IrlsController::new(0);
    assert!(!controller.should_iterate());
    assert_eq!(controller.iterations_used(), 0);
}

#[test]
fn solve_failure_surfaces_the_rank_deficiency_error() {
    assert_eq!(solve_failure_error(), GLMFitError::RankDeficient);
}
