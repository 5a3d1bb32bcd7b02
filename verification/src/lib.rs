//! Solver state capsules for an ODE integration front end.
//!
//! A numerical integration state (solution vector, derivative vector, current
//! time, current step size) is owned by exactly one place at any instant:
//! either a standalone capsule, or the slot of a stepping-algorithm instance
//! registered in a [`system::System`].  Every solve call moves the state out
//! of the caller's capsule, hands it to a delegated stepping routine, and on
//! success re-attaches the stepped-forward state to the integrator, turning
//! the capsule into a live view.  A failed solve leaves the capsule in a
//! transient-empty mode that every later read or solve rejects with an
//! invalid-state error.
//!
//! The numerical stepping itself (truncation-error control, Newton iteration)
//! and the compiled right-hand-side model are collaborators outside this
//! crate: they are passed in as opaque payloads and callbacks.  Scalars cross
//! this crate as opaque 64-bit words (IEEE-754 bit patterns); the protocol
//! moves them and never interprets them.

pub mod errors;
pub mod laws;
pub mod problem;
pub mod state;
pub mod system;
