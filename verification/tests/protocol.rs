//! Ownership-transfer protocol tests with a dummy stepping routine: the
//! protocol never interprets the physical state, so these drive it with
//! small placeholder payloads.

use ode_capsule::errors::{ParamsError, SolveError, StateError};
use ode_capsule::problem::{Builder, Problem};
use ode_capsule::state::{Capsule, StateVars};
use ode_capsule::system::System;

fn vars(y: Vec<u64>, t: u64) -> StateVars<u8> {
    let dy = y.iter().map(|b| b + 1).collect();
    StateVars { y, dy, t, h: 1, extra: 0u8 }
}

#[test]
fn owned_capsule_reads_its_fields() {
    let sys: System<u8, u8> = System::new();
    let c = Capsule::OwnedMultistep(vars(vec![10, 20], 5));
    assert_eq!(c.y(&sys).unwrap(), vec![10, 20]);
    assert_eq!(c.dy(&sys).unwrap(), vec![11, 21]);
    assert_eq!(c.t(&sys).unwrap(), 5);
    assert_eq!(c.h(&sys).unwrap(), 1);
}

#[test]
fn attached_capsules_are_views_not_snapshots() {
    let mut sys: System<u8, u8> = System::new();
    let bdf = sys.new_multistep();
    // a view created before the integrator ever owned a state reads as invalid
    let c_pre = sys.state_multistep(bdf);
    assert_eq!(c_pre.y(&sys), Err(StateError::SolverHasNoState));

    let mut c1 = Capsule::OwnedMultistep(vars(vec![10, 20], 5));
    let out = sys
        .solve_multistep(bdf, &mut c1, |s: StateVars<u8>| {
            let stepped = StateVars { y: vec![30, 40], dy: vec![31, 41], t: 9, h: 2, extra: s.extra };
            Ok::<_, ()>((stepped, "trajectory"))
        })
        .unwrap();
    assert_eq!(out, "trajectory");

    // the returned capsule is attached and reads the stepped-forward state
    assert!(matches!(c1, Capsule::AttachedMultistep(0)));
    assert_eq!(c1.y(&sys).unwrap(), vec![30, 40]);
    assert_eq!(c1.t(&sys).unwrap(), 9);
    // every view onto the same integrator reads the post-solve state,
    // whether created before or after the solve
    assert_eq!(c_pre.y(&sys).unwrap(), vec![30, 40]);
    let c_post = sys.state_multistep(bdf);
    assert_eq!(c_post.y(&sys).unwrap(), vec![30, 40]);
    assert_eq!(c_post.h(&sys).unwrap(), 2);
}

#[test]
fn failed_solve_invalidates_capsule() {
    let mut sys: System<u8, u8> = System::new();
    let bdf = sys.new_multistep();
    let mut c = Capsule::OwnedMultistep(vars(vec![1], 0));
    let r = sys.solve_multistep(bdf, &mut c, |_s: StateVars<u8>| {
        Err::<(StateVars<u8>, ()), &str>("no convergence")
    });
    assert!(matches!(r, Err(SolveError::Numerical("no convergence"))));
    // the capsule is transient-empty: reads fail with invalid state, not stale data
    assert!(matches!(c, Capsule::TransientEmpty));
    assert_eq!(c.y(&sys), Err(StateError::InvalidState));
    assert_eq!(c.dy(&sys), Err(StateError::InvalidState));
    assert_eq!(c.t(&sys), Err(StateError::InvalidState));
    assert_eq!(c.h(&sys), Err(StateError::InvalidState));
}

#[test]
fn solve_twice_on_invalidated_capsule_fails_both_times() {
    let mut sys: System<u8, u8> = System::new();
    let bdf = sys.new_multistep();
    let mut c = Capsule::OwnedMultistep(vars(vec![1], 0));
    let r = sys.solve_multistep(bdf, &mut c, |_s: StateVars<u8>| {
        Err::<(StateVars<u8>, ()), &str>("step-size underflow")
    });
    assert!(matches!(r, Err(SolveError::Numerical(_))));
    // both further solves report an invalid state, never a numerical error
    let r1 = sys.solve_multistep(bdf, &mut c, |s: StateVars<u8>| Ok::<_, &str>((s, ())));
    assert!(matches!(r1, Err(SolveError::State(StateError::InvalidState))));
    let r2 = sys.solve_multistep(bdf, &mut c, |s: StateVars<u8>| Ok::<_, &str>((s, ())));
    assert!(matches!(r2, Err(SolveError::State(StateError::InvalidState))));
}

#[test]
fn mid_transfer_views_read_invalid_not_stale() {
    let mut sys: System<u8, u8> = System::new();
    let bdf = sys.new_multistep();
    let mut c1 = Capsule::OwnedMultistep(vars(vec![7], 1));
    sys.solve_multistep(bdf, &mut c1, |s: StateVars<u8>| Ok::<_, ()>((s, ())))
        .unwrap();
    let c2 = sys.state_multistep(bdf);
    assert_eq!(c2.y(&sys).unwrap(), vec![7]);

    // a failed solve through c1 takes the state out of the integrator for
    // good: c1 is transient-empty, and the still-attached c2 sees an
    // integrator that holds no state
    let r = sys.solve_multistep(bdf, &mut c1, |_s: StateVars<u8>| {
        Err::<(StateVars<u8>, ()), &str>("diverged")
    });
    assert!(matches!(r, Err(SolveError::Numerical(_))));
    assert_eq!(c1.y(&sys), Err(StateError::InvalidState));
    assert_eq!(c2.y(&sys), Err(StateError::SolverHasNoState));
    assert_eq!(c2.t(&sys), Err(StateError::SolverHasNoState));

    // a solve through another attached view also fails with an invalid-state error
    let mut c3 = sys.state_multistep(bdf);
    let r2 = sys.solve_multistep(bdf, &mut c3, |s: StateVars<u8>| Ok::<_, &str>((s, ())));
    assert!(matches!(r2, Err(SolveError::State(StateError::SolverHasNoState))));
    assert!(matches!(c3, Capsule::TransientEmpty));
}

#[test]
fn wrong_family_capsule_is_invalid_state() {
    let mut sys: System<u8, u8> = System::new();
    let _bdf = sys.new_multistep();
    let sdirk = sys.new_sdirk();
    let mut c = Capsule::OwnedMultistep(vars(vec![1], 0));
    // an owned multistep state handed to an SDIRK solve is refused
    let r = sys.solve_sdirk(sdirk, &mut c, |s: StateVars<u8>| Ok::<_, &str>((s, ())));
    assert!(matches!(r, Err(SolveError::State(StateError::InvalidState))));
    assert!(matches!(c, Capsule::TransientEmpty));
}

#[test]
fn state_migrates_between_integrators_of_one_family() {
    let mut sys: System<u8, u8> = System::new();
    let a = sys.new_multistep();
    let b = sys.new_multistep();
    let mut c = Capsule::OwnedMultistep(vars(vec![3], 2));
    sys.solve_multistep(a, &mut c, |s: StateVars<u8>| Ok::<_, ()>((s, ())))
        .unwrap();
    assert!(matches!(c, Capsule::AttachedMultistep(0)));
    // solving through integrator b takes the state out of a and gives it to b
    sys.solve_multistep(b, &mut c, |s: StateVars<u8>| Ok::<_, ()>((s, ())))
        .unwrap();
    assert!(matches!(c, Capsule::AttachedMultistep(1)));
    assert_eq!(sys.state_multistep(a).y(&sys), Err(StateError::SolverHasNoState));
    assert_eq!(sys.state_multistep(b).y(&sys).unwrap(), vec![3]);
}

#[test]
fn set_params_checks_dimensionality() {
    let mut p: Problem<()> = Problem::new((), 0, 0, 2);
    assert_eq!(p.params, None);
    let err = p.set_params(vec![1, 2, 3]).unwrap_err();
    assert_eq!(err, ParamsError::DimensionMismatch { expected: 2, actual: 3 });
    assert_eq!(p.params, None);
    p.set_params(vec![4, 5]).unwrap();
    assert_eq!(p.params, Some(vec![4, 5]));
    // a later update of the right length replaces the vector
    p.set_params(vec![6, 7]).unwrap();
    assert_eq!(p.params, Some(vec![6, 7]));
    let err = p.set_params(vec![]).unwrap_err();
    assert_eq!(err, ParamsError::DimensionMismatch { expected: 2, actual: 0 });
    assert_eq!(p.params, Some(vec![6, 7]));
}

#[test]
fn builder_records_choices() {
    let b = Builder::new();
    assert_eq!(b.t0, None);
    assert_eq!(b.h0, None);
    let b = b.t0(17).h0(23);
    assert_eq!(b.t0, Some(17));
    assert_eq!(b.h0, Some(23));
}

#[test]
fn default_capsule_is_transient_empty() {
    let c: Capsule<u8, u8> = Default::default();
    assert!(matches!(c, Capsule::TransientEmpty));
    let sys: System<u8, u8> = System::new();
    assert_eq!(c.t(&sys), Err(StateError::InvalidState));
}
