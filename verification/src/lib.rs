//! Fits generalized linear models by iteratively reweighted least squares.
//!
//! The verified core of the fitter is everything that does not touch
//! floating-point arithmetic: the typed fit errors, the exponential-family
//! sum type, the staged model builder with its input validation, the
//! degrees-of-freedom bookkeeping, and the decision automata that drive the
//! outer IRLS iteration and the step-halving line search.  The
//! double-precision kernel (link and variance evaluation, the weighted QR
//! solve, deviance sums) runs outside, hands each discrete decision to the
//! controllers here, and obeys their verified contracts.

pub mod control;
pub mod error;
pub mod family;
pub mod glm_spec;
pub mod model;

pub use control::IrlsController;
pub use control::StepAssessment;
pub use control::StepHalver;
pub use error::GLMFitError;
pub use family::ExpFamily;
pub use glm_spec::GLMFitOptions;
pub use glm_spec::GLMProblem;
pub use glm_spec::GLMSpec;
pub use model::GLMModel;
