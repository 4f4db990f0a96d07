use vstd::prelude::*;
use crate::error::GLMFitError;
use crate::family::ExpFamily;

verus! {

/// The default cap on outer IRLS iterations.
pub const DEFAULT_MAX_ITER: u32 = 25;

/// Configuration of one fit: pure values, no behavior.
///
/// The numeric payloads are type parameters because they are
/// double-precision data the verified core never computes with: `E` is the
/// scalar convergence threshold (relative deviance change, positive) and
/// `V` the vector type of the optional warm starts.  The host boundary
/// instantiates both with its floating-point types.
pub struct GLMFitOptions<E, V> {
    /// Convergence threshold for the relative deviance change; must be
    /// positive (the boundary's default is `1e-8`).
    pub epsilon: E,
    /// Cap on outer IRLS iterations; must be positive.
    pub max_iter: u32,
    /// Overrides the computed initial mean vector when present; length
    /// `n_obs`.
    pub mu_start: Option<V>,
    /// Overrides the zero initial coefficient vector when present; length
    /// `n_features`.
    pub beta_start: Option<V>,
}

impl<E, V> GLMFitOptions<E, V> {
    /// The stock options: the caller supplies only the convergence
    /// threshold (an opaque floating-point scalar here), everything else
    /// takes its default — [`DEFAULT_MAX_ITER`] iterations and no warm
    /// starts.
    pub fn with_defaults(epsilon: E) -> (r: Self)
        ensures
            r.epsilon == epsilon,
            r.max_iter == DEFAULT_MAX_ITER,
            r.mu_start is None,
            r.beta_start is None,
    {
        GLMFitOptions { epsilon, max_iter: DEFAULT_MAX_ITER, mu_start: None, beta_start: None }
    }
}

/// Accumulates the inputs of one fit.  Every setter overwrites its field —
/// the last write wins — and `validate` closes the stage: it demands the
/// design matrix, the outcome vector, and the family all present, in that
/// order, and hands back a [`GLMProblem`] no longer missing anything.  The
/// spec is consumed by validation and not reusable afterward.
///
/// `M` and `V` are the host boundary's matrix and vector types (an
/// `n_obs x n_features` design and length-`n_obs` vectors of
/// double-precision values), opaque to the verified core.
pub struct GLMSpec<M, V, E> {
    pub parameters: Option<M>,
    pub parameter_names: Option<Vec<String>>,
    pub outcome: Option<V>,
    pub outcome_name: Option<String>,
    pub family: Option<ExpFamily>,
    pub fit_options: GLMFitOptions<E, V>,
}

impl<M, V, E> GLMSpec<M, V, E> {
    /// An empty spec.  The options are supplied up front because their
    /// threshold is a floating-point scalar the core cannot make up; a
    /// later `fit_options` call overwrites them.
    pub fn new(fit_options: GLMFitOptions<E, V>) -> (r: Self)
        ensures
            r.parameters is None,
            r.parameter_names is None,
            r.outcome is None,
            r.outcome_name is None,
            r.family is None,
            r.fit_options == fit_options,
    {
        GLMSpec {
            parameters: None,
            parameter_names: None,
            outcome: None,
            outcome_name: None,
            family: None,
            fit_options,
        }
    }

    /// Sets the design matrix and its optional column names.
    pub fn parameters(self, parameter_names: Option<Vec<String>>, parameters: M) -> (r: Self)
        ensures
            r.parameters == Some(parameters),
            r.parameter_names == parameter_names,
            r.outcome == self.outcome,
            r.outcome_name == self.outcome_name,
            r.family == self.family,
            r.fit_options == self.fit_options,
    {
        GLMSpec {
            parameters: Some(parameters),
            parameter_names,
            outcome: self.outcome,
            outcome_name: self.outcome_name,
            family: self.family,
            fit_options: self.fit_options,
        }
    }

    /// Sets the outcome vector and its optional name.
    pub fn outcome(self, outcome_name: Option<String>, outcome: V) -> (r: Self)
        ensures
            r.outcome == Some(outcome),
            r.outcome_name == outcome_name,
            r.parameters == self.parameters,
            r.parameter_names == self.parameter_names,
            r.family == self.family,
            r.fit_options == self.fit_options,
    {
        GLMSpec {
            parameters: self.parameters,
            parameter_names: self.parameter_names,
            outcome: Some(outcome),
            outcome_name,
            family: self.family,
            fit_options: self.fit_options,
        }
    }

    /// Selects the exponential family.
    pub fn family(self, family: ExpFamily) -> (r: Self)
        ensures
            r.family == Some(family),
            r.parameters == self.parameters,
            r.parameter_names == self.parameter_names,
            r.outcome == self.outcome,
            r.outcome_name == self.outcome_name,
            r.fit_options == self.fit_options,
    {
        GLMSpec {
            parameters: self.parameters,
            parameter_names: self.parameter_names,
            outcome: self.outcome,
            outcome_name: self.outcome_name,
            family: Some(family),
            fit_options: self.fit_options,
        }
    }

    /// Replaces the fit options.
    pub fn fit_options(self, fit_options: GLMFitOptions<E, V>) -> (r: Self)
        ensures
            r.fit_options == fit_options,
            r.parameters == self.parameters,
            r.parameter_names == self.parameter_names,
            r.outcome == self.outcome,
            r.outcome_name == self.outcome_name,
            r.family == self.family,
    {
        GLMSpec {
            parameters: self.parameters,
            parameter_names: self.parameter_names,
            outcome: self.outcome,
            outcome_name: self.outcome_name,
            family: self.family,
            fit_options,
        }
    }

    /// Consumes the spec and checks that everything a fit needs was
    /// supplied.  A missing design matrix, outcome, or family is reported
    /// by exactly its own error, tested in that order; with all three
    /// present the result carries every field over unchanged.
    pub fn validate(self) -> (r: Result<GLMProblem<M, V, E>, GLMFitError>)
        ensures
            self.parameters is None ==> r == Err::<GLMProblem<M, V, E>, GLMFitError>(
                GLMFitError::NoPredictors,
            ),
            self.parameters is Some && self.outcome is None ==> r == Err::<
                GLMProblem<M, V, E>,
                GLMFitError,
            >(GLMFitError::NoOutcome),
            self.parameters is Some && self.outcome is Some && self.family is None ==> r == Err::<
                GLMProblem<M, V, E>,
                GLMFitError,
            >(GLMFitError::NoFamily),
            (self.parameters matches Some(m) ==> (self.outcome matches Some(y) ==> (
            self.family matches Some(f) ==> (r matches Ok(p) && p.parameters == m && p.outcome == y
                && p.family == f && p.parameter_names == self.parameter_names && p.outcome_name
                == self.outcome_name && p.fit_options == self.fit_options)))),
    {
        let GLMSpec { parameters, parameter_names, outcome, outcome_name, family, fit_options } =
            self;
        let parameters = match parameters {
            Some(m) => m,
            None => {
                return Err(GLMFitError::NoPredictors);
            },
        };
        let outcome = match outcome {
            Some(y) => y,
            None => {
                return Err(GLMFitError::NoOutcome);
            },
        };
        let family = match family {
            Some(f) => f,
            None => {
                return Err(GLMFitError::NoFamily);
            },
        };
        Ok(GLMProblem { parameters, parameter_names, outcome, outcome_name, family, fit_options })
    }
}

/// A fully supplied fitting problem: what [`GLMSpec::validate`] produces
/// once nothing is missing.  The missing-input errors cannot arise past
/// this point; only the numeric solve can still fail.
pub struct GLMProblem<M, V, E> {
    pub parameters: M,
    pub parameter_names: Option<Vec<String>>,
    pub outcome: V,
    pub outcome_name: Option<String>,
    pub family: ExpFamily,
    pub fit_options: GLMFitOptions<E, V>,
}

/// Checks the shape of the supplied data before the iteration starts.
/// The design must have at least one feature column, the outcome at least
/// one observation, and no more features than observations — with more
/// features than observations the weighted least-squares system is
/// rank-deficient before any arithmetic is done, and that is reported as
/// the same typed error a failed factorization produces.  A square system
/// (`n_features == n_obs`) is allowed: its residual degrees of freedom are
/// zero and the fit still returns a result.
pub fn check_dimensions(n_obs: usize, n_features: usize) -> (r: Result<(), GLMFitError>)
    ensures
        n_features == 0 ==> r == Err::<(), GLMFitError>(GLMFitError::NoPredictors),
        n_features > 0 && n_obs == 0 ==> r == Err::<(), GLMFitError>(GLMFitError::NoOutcome),
        n_features > 0 && n_obs > 0 && n_features > n_obs ==> r == Err::<(), GLMFitError>(
            GLMFitError::RankDeficient,
        ),
        0 < n_features <= n_obs ==> r == Ok::<(), GLMFitError>(()),
{
    if n_features == 0 {
        Err(GLMFitError::NoPredictors)
    } else if n_obs == 0 {
        Err(GLMFitError::NoOutcome)
    } else if n_features > n_obs {
        Err(GLMFitError::RankDeficient)
    } else {
        Ok(())
    }
}

} // verus!
