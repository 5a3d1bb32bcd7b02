//! Typed failure values surfaced by the capsule protocol.

use vstd::prelude::*;

verus! {

/// An invalid-state failure: the capsule cannot currently yield or give up a
/// physical state.
#[derive(Clone, Copy, Debug, PartialEq, Eq, Structural)]
pub enum StateError {
    /// The capsule is in the transient-empty mode (a previous solve failed or
    /// never completed), or it is of the wrong algorithm family for the
    /// requested operation.
    InvalidState,
    /// The capsule is attached to an integrator that currently owns no
    /// physical state (it was taken by another capsule's solve and never
    /// given back).
    SolverHasNoState,
}

/// A failed solve call: either the ownership-transfer protocol refused the
/// supplied capsule, or the delegated stepping routine reported a numerical
/// failure of type `E`.
#[derive(Debug)]
pub enum SolveError<E> {
    State(StateError),
    Numerical(E),
}

/// A rejected parameter update: the supplied vector does not match the
/// dimensionality the equation model expects.
#[derive(Clone, Copy, Debug, PartialEq, Eq, Structural)]
pub enum ParamsError {
    DimensionMismatch { expected: usize, actual: usize },
}

} // verus!
