//! The integrator registry and the ownership-transfer protocol.
//!
//! A [`System`] holds one state slot per registered stepping-algorithm
//! instance; an integrator handle is an index into the registry of its
//! algorithm family.  Any number of attached capsules may designate one
//! integrator, but the registry owns at most one physical state per
//! integrator, and every solve call funnels that state through a single
//! take, step, give back choreography: see [`System::solve_multistep`] and
//! [`System::solve_sdirk`].

use vstd::prelude::*;

use crate::errors::{SolveError, StateError};
use crate::state::{Capsule, StateVars};

verus! {

/// The registry of stepping-algorithm instances, holding each one's state
/// slot.  A slot is `None` before a first attachment and while a solve call
/// has taken the state out; it is `Some` while the integrator owns a state.
pub struct System<A, B> {
    pub multistep: Vec<Option<StateVars<A>>>,
    pub sdirk: Vec<Option<StateVars<B>>>,
}

impl<A, B> System<A, B> {
    /// The state the multistep integrator `i` currently owns, if any.
    pub open spec fn multistep_slot(self, i: usize) -> Option<StateVars<A>> {
        if i < self.multistep@.len() {
            self.multistep@[i as int]
        } else {
            None
        }
    }

    /// The state the SDIRK integrator `i` currently owns, if any.
    pub open spec fn sdirk_slot(self, i: usize) -> Option<StateVars<B>> {
        if i < self.sdirk@.len() {
            self.sdirk@[i as int]
        } else {
            None
        }
    }

    /// An empty registry: no integrators, no states.
    pub fn new() -> (r: System<A, B>)
        ensures
            r.multistep@.len() == 0,
            r.sdirk@.len() == 0,
    {
        System { multistep: Vec::new(), sdirk: Vec::new() }
    }

    /// Register a new multistep integrator; its slot starts empty.
    pub fn new_multistep(&mut self) -> (id: usize)
        ensures
            id == old(self).multistep@.len(),
            final(self).multistep@ == old(self).multistep@.push(None),
            final(self).sdirk@ == old(self).sdirk@,
    {
        let id = self.multistep.len();
        self.multistep.push(None);
        id
    }

    /// Register a new SDIRK integrator; its slot starts empty.
    pub fn new_sdirk(&mut self) -> (id: usize)
        ensures
            id == old(self).sdirk@.len(),
            final(self).sdirk@ == old(self).sdirk@.push(None),
            final(self).multistep@ == old(self).multistep@,
    {
        let id = self.sdirk.len();
        self.sdirk.push(None);
        id
    }

    /// A new attached capsule: a live, shared view onto whatever state the
    /// multistep integrator `solver` currently owns or will come to own.
    pub fn state_multistep(&self, solver: usize) -> (r: Capsule<A, B>)
        ensures
            r == Capsule::<A, B>::AttachedMultistep(solver),
    {
        Capsule::AttachedMultistep(solver)
    }

    /// A new attached capsule onto the SDIRK integrator `solver`.
    pub fn state_sdirk(&self, solver: usize) -> (r: Capsule<A, B>)
        ensures
            r == Capsule::<A, B>::AttachedSdirk(solver),
    {
        Capsule::AttachedSdirk(solver)
    }

    /// A borrow of the state the multistep integrator `i` currently owns.
    pub fn multistep_state(&self, i: usize) -> (r: Option<&StateVars<A>>)
        ensures
            match self.multistep_slot(i) {
                Some(s) => r matches Some(p) && *p == s,
                None => r is None,
            },
    {
        if i < self.multistep.len() {
            match &self.multistep[i] {
                Some(s) => Some(s),
                None => None,
            }
        } else {
            None
        }
    }

    /// A borrow of the state the SDIRK integrator `i` currently owns.
    pub fn sdirk_state(&self, i: usize) -> (r: Option<&StateVars<B>>)
        ensures
            match self.sdirk_slot(i) {
                Some(s) => r matches Some(p) && *p == s,
                None => r is None,
            },
    {
        if i < self.sdirk.len() {
            match &self.sdirk[i] {
                Some(s) => Some(s),
                None => None,
            }
        } else {
            None
        }
    }

    /// Whether a solve through a multistep integrator can take a physical
    /// state out of `c`: either `c` owns one of the multistep family, or it
    /// is attached to a multistep integrator whose slot is occupied.
    pub open spec fn multistep_acquirable(self, c: Capsule<A, B>) -> bool {
        match c {
            Capsule::OwnedMultistep(_) => true,
            Capsule::AttachedMultistep(j) => self.multistep_slot(j) is Some,
            _ => false,
        }
    }

    /// The state a multistep solve takes out of `c` (meaningful only when
    /// `multistep_acquirable` holds).
    pub open spec fn multistep_acquired(self, c: Capsule<A, B>) -> StateVars<A> {
        match c {
            Capsule::OwnedMultistep(s) => s,
            Capsule::AttachedMultistep(j) => self.multistep_slot(j).unwrap(),
            _ => arbitrary(),
        }
    }

    /// The exact invalid-state error a multistep solve reports when it
    /// cannot acquire a state from `c`.
    pub open spec fn multistep_acquire_error(self, c: Capsule<A, B>) -> StateError {
        match c {
            Capsule::AttachedMultistep(_) => StateError::SolverHasNoState,
            _ => StateError::InvalidState,
        }
    }

    /// The multistep slots right after a state is acquired from `c`: taking
    /// a state out of an attached capsule leaves its integrator's slot
    /// empty; taking it out of an owned capsule touches no slot.
    pub open spec fn multistep_after_acquire(
        self,
        c: Capsule<A, B>,
    ) -> Seq<Option<StateVars<A>>> {
        match c {
            Capsule::AttachedMultistep(j) => self.multistep@.update(j as int, None),
            _ => self.multistep@,
        }
    }

    /// Whether a solve through an SDIRK integrator can take a state out of `c`.
    pub open spec fn sdirk_acquirable(self, c: Capsule<A, B>) -> bool {
        match c {
            Capsule::OwnedSdirk(_) => true,
            Capsule::AttachedSdirk(j) => self.sdirk_slot(j) is Some,
            _ => false,
        }
    }

    /// The state an SDIRK solve takes out of `c`.
    pub open spec fn sdirk_acquired(self, c: Capsule<A, B>) -> StateVars<B> {
        match c {
            Capsule::OwnedSdirk(s) => s,
            Capsule::AttachedSdirk(j) => self.sdirk_slot(j).unwrap(),
            _ => arbitrary(),
        }
    }

    /// The exact invalid-state error an SDIRK solve reports when it cannot
    /// acquire a state from `c`.
    pub open spec fn sdirk_acquire_error(self, c: Capsule<A, B>) -> StateError {
        match c {
            Capsule::AttachedSdirk(_) => StateError::SolverHasNoState,
            _ => StateError::InvalidState,
        }
    }

    /// The SDIRK slots right after a state is acquired from `c`.
    pub open spec fn sdirk_after_acquire(self, c: Capsule<A, B>) -> Seq<Option<StateVars<B>>> {
        match c {
            Capsule::AttachedSdirk(j) => self.sdirk@.update(j as int, None),
            _ => self.sdirk@,
        }
    }

    /// A solve to completion through the multistep integrator `solver`,
    /// performing the ownership-transfer protocol around the delegated
    /// stepping routine `step` (which receives the acquired state and
    /// either returns the stepped-forward state with an output trajectory,
    /// or fails).
    ///
    /// Acquire: the physical state is moved out of `capsule`, which is left
    /// transient-empty; if `capsule` was attached, the referenced
    /// integrator's slot is emptied.  If no state can be acquired, nothing
    /// else changes and the exact invalid-state error is returned.
    /// Delegate: `step` runs on the acquired state.  Release: on success the
    /// slot of `solver` receives the stepped-forward state and `capsule`
    /// becomes a live view attached to `solver`; on failure `capsule` stays
    /// transient-empty (a failed solve invalidates it) and the numerical
    /// error is surfaced unchanged.
    pub fn solve_multistep<O, E, F: FnOnce(StateVars<A>) -> Result<(StateVars<A>, O), E>>(
        &mut self,
        solver: usize,
        capsule: &mut Capsule<A, B>,
        step: F,
    ) -> (r: Result<O, SolveError<E>>)
        requires
            solver < old(self).multistep@.len(),
            old(self).multistep_acquirable(*old(capsule)) ==> call_requires(
                step,
                (old(self).multistep_acquired(*old(capsule)),),
            ),
        ensures
            !old(self).multistep_acquirable(*old(capsule)) ==> {
                &&& *final(self) == *old(self)
                &&& *final(capsule) is TransientEmpty
                &&& r == Err::<O, SolveError<E>>(
                    SolveError::State(old(self).multistep_acquire_error(*old(capsule))),
                )
            },
            old(self).multistep_acquirable(*old(capsule)) ==> exists|
                sr: Result<(StateVars<A>, O), E>,
            |
                {
                    &&& #[trigger] call_ensures(
                        step,
                        (old(self).multistep_acquired(*old(capsule)),),
                        sr,
                    )
                    &&& match sr {
                        Ok((s1, out)) => {
                            &&& r == Ok::<O, SolveError<E>>(out)
                            &&& *final(capsule) == Capsule::<A, B>::AttachedMultistep(solver)
                            &&& final(self).multistep@ == old(self).multistep_after_acquire(
                                *old(capsule),
                            ).update(solver as int, Some(s1))
                            &&& final(self).sdirk@ == old(self).sdirk@
                        },
                        Err(e) => {
                            &&& r == Err::<O, SolveError<E>>(SolveError::Numerical(e))
                            &&& *final(capsule) is TransientEmpty
                            &&& final(self).multistep@ == old(self).multistep_after_acquire(
                                *old(capsule),
                            )
                            &&& final(self).sdirk@ == old(self).sdirk@
                        },
                    }
                },
    {
        let mut taken = Capsule::TransientEmpty;
        core::mem::swap(&mut taken, capsule);
        let s0 = match taken {
            Capsule::OwnedMultistep(s) => s,
            Capsule::AttachedMultistep(j) => {
                if j < self.multistep.len() && self.multistep[j].is_some() {
                    match take_slot(&mut self.multistep, j) {
                        Some(s) => s,
                        None => {
                            return Err(SolveError::State(StateError::SolverHasNoState));
                        },
                    }
                } else {
                    return Err(SolveError::State(StateError::SolverHasNoState));
                }
            },
            _ => {
                return Err(SolveError::State(StateError::InvalidState));
            },
        };
        match step(s0) {
            Ok((s1, out)) => {
                put_slot(&mut self.multistep, solver, s1);
                *capsule = Capsule::AttachedMultistep(solver);
                Ok(out)
            },
            Err(e) => Err(SolveError::Numerical(e)),
        }
    }

    /// A solve to completion through the SDIRK integrator `solver`: the same
    /// ownership-transfer protocol as [`System::solve_multistep`], for the
    /// other algorithm family.
    pub fn solve_sdirk<O, E, F: FnOnce(StateVars<B>) -> Result<(StateVars<B>, O), E>>(
        &mut self,
        solver: usize,
        capsule: &mut Capsule<A, B>,
        step: F,
    ) -> (r: Result<O, SolveError<E>>)
        requires
            solver < old(self).sdirk@.len(),
            old(self).sdirk_acquirable(*old(capsule)) ==> call_requires(
                step,
                (old(self).sdirk_acquired(*old(capsule)),),
            ),
        ensures
            !old(self).sdirk_acquirable(*old(capsule)) ==> {
                &&& *final(self) == *old(self)
                &&& *final(capsule) is TransientEmpty
                &&& r == Err::<O, SolveError<E>>(
                    SolveError::State(old(self).sdirk_acquire_error(*old(capsule))),
                )
            },
            old(self).sdirk_acquirable(*old(capsule)) ==> exists|
                sr: Result<(StateVars<B>, O), E>,
            |
                {
                    &&& #[trigger] call_ensures(
                        step,
                        (old(self).sdirk_acquired(*old(capsule)),),
                        sr,
                    )
                    &&& match sr {
                        Ok((s1, out)) => {
                            &&& r == Ok::<O, SolveError<E>>(out)
                            &&& *final(capsule) == Capsule::<A, B>::AttachedSdirk(solver)
                            &&& final(self).sdirk@ == old(self).sdirk_after_acquire(
                                *old(capsule),
                            ).update(solver as int, Some(s1))
                            &&& final(self).multistep@ == old(self).multistep@
                        },
                        Err(e) => {
                            &&& r == Err::<O, SolveError<E>>(SolveError::Numerical(e))
                            &&& *final(capsule) is TransientEmpty
                            &&& final(self).sdirk@ == old(self).sdirk_after_acquire(
                                *old(capsule),
                            )
                            &&& final(self).multistep@ == old(self).multistep@
                        },
                    }
                },
    {
        let mut taken = Capsule::TransientEmpty;
        core::mem::swap(&mut taken, capsule);
        let s0 = match taken {
            Capsule::OwnedSdirk(s) => s,
            Capsule::AttachedSdirk(j) => {
                if j < self.sdirk.len() && self.sdirk[j].is_some() {
                    match take_slot(&mut self.sdirk, j) {
                        Some(s) => s,
                        None => {
                            return Err(SolveError::State(StateError::SolverHasNoState));
                        },
                    }
                } else {
                    return Err(SolveError::State(StateError::SolverHasNoState));
                }
            },
            _ => {
                return Err(SolveError::State(StateError::InvalidState));
            },
        };
        match step(s0) {
            Ok((s1, out)) => {
                put_slot(&mut self.sdirk, solver, s1);
                *capsule = Capsule::AttachedSdirk(solver);
                Ok(out)
            },
            Err(e) => Err(SolveError::Numerical(e)),
        }
    }
}

/// Move the value out of slot `j`, leaving the slot empty.
fn take_slot<T>(v: &mut Vec<Option<T>>, j: usize) -> (r: Option<T>)
    requires
        j < old(v)@.len(),
    ensures
        r == old(v)@[j as int],
        final(v)@ == old(v)@.update(j as int, None::<T>),
{
    let mut tmp: Option<T> = None;
    core::mem::swap(&mut tmp, &mut v[j]);
    tmp
}

/// Fill slot `j` with `s`, dropping whatever the slot held.
fn put_slot<T>(v: &mut Vec<Option<T>>, j: usize, s: T)
    requires
        j < old(v)@.len(),
    ensures
        final(v)@ == old(v)@.update(j as int, Some(s)),
{
    let mut tmp: Option<T> = Some(s);
    core::mem::swap(&mut v[j], &mut tmp);
}

} // verus!
