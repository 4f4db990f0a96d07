use vstd::prelude::*;
use crate::glm_spec::GLMFitOptions;

verus! {

/// The immutable snapshot a finished fit emits.  `V` and `E` are the host
/// boundary's double-precision vector and scalar types, carried through
/// opaquely; the integer statistics are computed and checked here.
pub struct GLMModel<V, E> {
    pub coefficients: V,
    pub coefficient_names: Option<Vec<String>>,
    pub outcome_name: Option<String>,
    pub fitted_values: V,
    pub residuals: V,
    pub null_deviance: E,
    pub residual_deviance: E,
    pub null_df: u32,
    pub residual_df: u32,
    pub iterations: u32,
    pub fit_options: GLMFitOptions<E, V>,
}

/// Degrees of freedom of the null model: one mean is estimated from
/// `n_obs` observations.
pub fn null_df(n_obs: usize) -> (r: u32)
    requires
        1 <= n_obs <= u32::MAX as usize,
    ensures
        r == n_obs - 1,
{
    (n_obs - 1) as u32
}

/// Residual degrees of freedom of the fitted model: `n_features`
/// coefficients are estimated from `n_obs` observations.  A square system
/// leaves exactly zero of them.
pub fn residual_df(n_obs: usize, n_features: usize) -> (r: u32)
    requires
        n_features <= n_obs <= u32::MAX as usize,
    ensures
        r == n_obs - n_features,
        n_features == n_obs ==> r == 0,
{
    (n_obs - n_features) as u32
}

impl<V, E> GLMModel<V, E> {
    /// Assembles the terminal snapshot from the accepted iteration state
    /// and the fit's bookkeeping.  The numeric payloads pass through
    /// unchanged; both degrees of freedom are derived here from the
    /// problem's dimensions, so a model cannot carry inconsistent ones.
    pub fn assemble(
        coefficients: V,
        coefficient_names: Option<Vec<String>>,
        outcome_name: Option<String>,
        fitted_values: V,
        residuals: V,
        null_deviance: E,
        residual_deviance: E,
        n_obs: usize,
        n_features: usize,
        iterations: u32,
        fit_options: GLMFitOptions<E, V>,
    ) -> (r: Self)
        requires
            1 <= n_obs <= u32::MAX as usize,
            n_features <= n_obs,
        ensures
            r.coefficients == coefficients,
            r.coefficient_names == coefficient_names,
            r.outcome_name == outcome_name,
            r.fitted_values == fitted_values,
            r.residuals == residuals,
            r.null_deviance == null_deviance,
            r.residual_deviance == residual_deviance,
            r.null_df == n_obs - 1,
            r.residual_df == n_obs - n_features,
            n_features == n_obs ==> r.residual_df == 0,
            r.iterations == iterations,
            r.fit_options == fit_options,
    {
        let null_df = null_df(n_obs);
        let residual_df = residual_df(n_obs, n_features);
        GLMModel {
            coefficients,
            coefficient_names,
            outcome_name,
            fitted_values,
            residuals,
            null_deviance,
            residual_deviance,
            null_df,
            residual_df,
            iterations,
            fit_options,
        }
    }
}

} // verus!
