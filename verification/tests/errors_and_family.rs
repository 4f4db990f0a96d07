use glmreg::ExpFamily;
use glmreg::GLMFitError;

#[test]
fn messages_name_each_failure() {
    assert_eq!(
        GLMFitError::NoPredictors.message(),
        "Cannot fit GLM without predictors"
    );
    assert_eq!(
        GLMFitError::NoOutcome.message(),
        "Cannot fit GLM without an outcome"
    );
    assert_eq!(
        GLMFitError::NoFamily.message(),
        "Cannot fit GLM without a family"
    );
    assert_eq!(
        GLMFitError::RankDeficient.message(),
        "Weighted least-squares solve failed on a rank-deficient design"
    );
    assert_eq!(GLMFitError::ModelFittingError.message(), "Something went wrong");
}

#[test]
fn errors_compare_by_variant() {
    assert_eq!(GLMFitError::NoPredictors, GLMFitError::NoPredictors);
    assert_ne!(GLMFitError::NoPredictors, GLMFitError::NoOutcome);
    assert_ne!(GLMFitError::RankDeficient, GLMFitError::ModelFittingError);
}

#[test]
fn poisson_alone_needs_a_positive_mean() {
    assert!(!ExpFamily::Gaussian.requires_positive_mean());
    assert!(ExpFamily::Poisson.requires_positive_mean());
}

#[test]
fn families_compare_by_variant() {
    assert_eq!(ExpFamily::Gaussian, ExpFamily::Gaussian);
    assert_ne!(ExpFamily::Gaussian, ExpFamily::Poisson);
}
