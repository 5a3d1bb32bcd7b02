//! The state capsule: the central data object of the crate.
//!
//! A capsule is in exactly one of three ownership modes:
//! owned-standalone (it physically holds the integration variables),
//! attached (it is a live view onto the state slot of a registered
//! integrator), or transient-empty (its state was moved out by a solve call
//! and never returned; every read fails).

use vstd::prelude::*;

use crate::errors::StateError;
use crate::system::System;

verus! {

/// The physical integration state.
///
/// `y` is the solution vector and `dy` the derivative vector, element for
/// element; `t` is the current time and `h` the current step size.  All
/// scalars are opaque 64-bit words (IEEE-754 bit patterns): the protocol
/// moves them between owners and never interprets them.  `extra` is the
/// stepping algorithm's own remainder of the state (order and history
/// bookkeeping), opaque to this crate.
pub struct StateVars<X> {
    pub y: Vec<u64>,
    pub dy: Vec<u64>,
    pub t: u64,
    pub h: u64,
    pub extra: X,
}

/// What a successful read of a capsule yields, at the specification level.
pub struct ReadView {
    pub y: Seq<u64>,
    pub dy: Seq<u64>,
    pub t: u64,
    pub h: u64,
}

impl<X> StateVars<X> {
    /// The readable fields of this physical state.
    pub open spec fn read_view(self) -> ReadView {
        ReadView { y: self.y@, dy: self.dy@, t: self.t, h: self.h }
    }
}

/// A state capsule, tagged with its ownership mode.
///
/// The two stepping-algorithm families (a variable-order multistep method
/// and a singly diagonally implicit Runge-Kutta method) share this one
/// external state representation; `A` and `B` are their respective opaque
/// state remainders.  An attached capsule holds the index of its integrator
/// inside the [`System`] it was created from.
pub enum Capsule<A, B> {
    OwnedMultistep(StateVars<A>),
    OwnedSdirk(StateVars<B>),
    AttachedMultistep(usize),
    AttachedSdirk(usize),
    TransientEmpty,
}

impl<A, B> Capsule<A, B> {
    /// What a read of this capsule yields against `sys`: the readable fields
    /// of the physical state the capsule currently designates, or the exact
    /// invalid-state error.
    pub open spec fn read(self, sys: System<A, B>) -> Result<ReadView, StateError> {
        match self {
            Capsule::OwnedMultistep(s) => Ok(s.read_view()),
            Capsule::OwnedSdirk(s) => Ok(s.read_view()),
            Capsule::AttachedMultistep(i) => match sys.multistep_slot(i) {
                Some(s) => Ok(s.read_view()),
                None => Err(StateError::SolverHasNoState),
            },
            Capsule::AttachedSdirk(i) => match sys.sdirk_slot(i) {
                Some(s) => Ok(s.read_view()),
                None => Err(StateError::SolverHasNoState),
            },
            Capsule::TransientEmpty => Err(StateError::InvalidState),
        }
    }

    /// The solution vector `y`, or an invalid-state error.
    pub fn y(&self, sys: &System<A, B>) -> (r: Result<Vec<u64>, StateError>)
        ensures
            match self.read(*sys) {
                Ok(v) => r matches Ok(u) && u@ == v.y,
                Err(e) => r == Err::<Vec<u64>, StateError>(e),
            },
    {
        match self {
            Capsule::OwnedMultistep(s) => Ok(copy_bits(&s.y)),
            Capsule::OwnedSdirk(s) => Ok(copy_bits(&s.y)),
            Capsule::AttachedMultistep(i) => match sys.multistep_state(*i) {
                Some(s) => Ok(copy_bits(&s.y)),
                None => Err(StateError::SolverHasNoState),
            },
            Capsule::AttachedSdirk(i) => match sys.sdirk_state(*i) {
                Some(s) => Ok(copy_bits(&s.y)),
                None => Err(StateError::SolverHasNoState),
            },
            Capsule::TransientEmpty => Err(StateError::InvalidState),
        }
    }

    /// The derivative vector `dy`, or an invalid-state error.
    pub fn dy(&self, sys: &System<A, B>) -> (r: Result<Vec<u64>, StateError>)
        ensures
            match self.read(*sys) {
                Ok(v) => r matches Ok(u) && u@ == v.dy,
                Err(e) => r == Err::<Vec<u64>, StateError>(e),
            },
    {
        match self {
            Capsule::OwnedMultistep(s) => Ok(copy_bits(&s.dy)),
            Capsule::OwnedSdirk(s) => Ok(copy_bits(&s.dy)),
            Capsule::AttachedMultistep(i) => match sys.multistep_state(*i) {
                Some(s) => Ok(copy_bits(&s.dy)),
                None => Err(StateError::SolverHasNoState),
            },
            Capsule::AttachedSdirk(i) => match sys.sdirk_state(*i) {
                Some(s) => Ok(copy_bits(&s.dy)),
                None => Err(StateError::SolverHasNoState),
            },
            Capsule::TransientEmpty => Err(StateError::InvalidState),
        }
    }

    /// The current time `t`, or an invalid-state error.
    pub fn t(&self, sys: &System<A, B>) -> (r: Result<u64, StateError>)
        ensures
            match self.read(*sys) {
                Ok(v) => r == Ok::<u64, StateError>(v.t),
                Err(e) => r == Err::<u64, StateError>(e),
            },
    {
        match self {
            Capsule::OwnedMultistep(s) => Ok(s.t),
            Capsule::OwnedSdirk(s) => Ok(s.t),
            Capsule::AttachedMultistep(i) => match sys.multistep_state(*i) {
                Some(s) => Ok(s.t),
                None => Err(StateError::SolverHasNoState),
            },
            Capsule::AttachedSdirk(i) => match sys.sdirk_state(*i) {
                Some(s) => Ok(s.t),
                None => Err(StateError::SolverHasNoState),
            },
            Capsule::TransientEmpty => Err(StateError::InvalidState),
        }
    }

    /// The current step size `h`, or an invalid-state error.
    pub fn h(&self, sys: &System<A, B>) -> (r: Result<u64, StateError>)
        ensures
            match self.read(*sys) {
                Ok(v) => r == Ok::<u64, StateError>(v.h),
                Err(e) => r == Err::<u64, StateError>(e),
            },
    {
        match self {
            Capsule::OwnedMultistep(s) => Ok(s.h),
            Capsule::OwnedSdirk(s) => Ok(s.h),
            Capsule::AttachedMultistep(i) => match sys.multistep_state(*i) {
                Some(s) => Ok(s.h),
                None => Err(StateError::SolverHasNoState),
            },
            Capsule::AttachedSdirk(i) => match sys.sdirk_state(*i) {
                Some(s) => Ok(s.h),
                None => Err(StateError::SolverHasNoState),
            },
            Capsule::TransientEmpty => Err(StateError::InvalidState),
        }
    }
}

impl<A, B> Default for Capsule<A, B> {
    /// The placeholder mode a capsule is left in while its state is away:
    /// transient-empty.
    fn default() -> (r: Self)
        ensures
            r is TransientEmpty,
    {
        Capsule::TransientEmpty
    }
}

/// Copy a vector of scalar words.
fn copy_bits(v: &Vec<u64>) -> (r: Vec<u64>)
    ensures
        r@ == v@,
{
    let mut r: Vec<u64> = Vec::new();
    let mut i: usize = 0;
    while i < v.len()
        invariant
            i <= v@.len(),
            r@ == v@.subrange(0, i as int),
        decreases v@.len() - i,
    {
        r.push(v[i]);
        i += 1;
        proof {
            assert(r@ =~= v@.subrange(0, i as int));
        }
    }
    proof {
        assert(r@ =~= v@);
    }
    r
}

} // verus!
