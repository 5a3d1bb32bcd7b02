//! The problem bundle: a compiled equation model, initial conditions, and a
//! mutable parameter vector of fixed dimensionality.

use vstd::prelude::*;

use crate::errors::ParamsError;

verus! {

/// An immutable-shape bundle of a compiled equation model (opaque to this
/// crate), the initial time `t0`, the initial step size `h0` (both as opaque
/// 64-bit scalar words), and a mutable parameter vector.
///
/// `nparams` is the dimensionality the equation model expects; the parameter
/// vector, once set, always has exactly that length.
pub struct Problem<M> {
    pub model: M,
    pub t0: u64,
    pub h0: u64,
    pub nparams: usize,
    pub params: Option<Vec<u64>>,
}

impl<M> Problem<M> {
    /// Bundle a compiled model with its initial conditions.  The parameter
    /// vector starts unset: the model's own defaults are in effect until
    /// [`Problem::set_params`] succeeds.
    pub fn new(model: M, t0: u64, h0: u64, nparams: usize) -> (r: Problem<M>)
        ensures
            r.model == model,
            r.t0 == t0,
            r.h0 == h0,
            r.nparams == nparams,
            r.params is None,
    {
        Problem { model, t0, h0, nparams, params: None }
    }

    /// Replace the parameter vector.  Succeeds exactly when `p` has the
    /// dimensionality the model expects; a mismatch is rejected with the
    /// exact lengths and changes nothing.
    pub fn set_params(&mut self, p: Vec<u64>) -> (r: Result<(), ParamsError>)
        ensures
            p@.len() == old(self).nparams ==> {
                &&& r == Ok::<(), ParamsError>(())
                &&& final(self).params == Some(p)
                &&& final(self).model == old(self).model
                &&& final(self).t0 == old(self).t0
                &&& final(self).h0 == old(self).h0
                &&& final(self).nparams == old(self).nparams
            },
            p@.len() != old(self).nparams ==> {
                &&& r == Err::<(), ParamsError>(
                    ParamsError::DimensionMismatch {
                        expected: old(self).nparams,
                        actual: p.len(),
                    },
                )
                &&& *final(self) == *old(self)
            },
    {
        if p.len() == self.nparams {
            self.params = Some(p);
            Ok(())
        } else {
            Err(ParamsError::DimensionMismatch { expected: self.nparams, actual: p.len() })
        }
    }
}

/// A builder for the construction-time configuration a problem is made
/// with: the initial time and the initial step size, each as an opaque
/// 64-bit scalar word.  An unset field means the algorithm-chosen default.
pub struct Builder {
    pub t0: Option<u64>,
    pub h0: Option<u64>,
}

impl Builder {
    /// A builder with every field left to its default.
    pub fn new() -> (r: Builder)
        ensures
            r.t0 is None,
            r.h0 is None,
    {
        Builder { t0: None, h0: None }
    }

    /// Choose the initial time.
    pub fn t0(self, t0: u64) -> (r: Builder)
        ensures
            r.t0 == Some(t0),
            r.h0 == self.h0,
    {
        Builder { t0: Some(t0), ..self }
    }

    /// Choose the initial step size.
    pub fn h0(self, h0: u64) -> (r: Builder)
        ensures
            r.h0 == Some(h0),
            r.t0 == self.t0,
    {
        Builder { h0: Some(h0), ..self }
    }
}

} // verus!
