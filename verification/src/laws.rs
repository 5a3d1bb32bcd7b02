//! The crate's laws: properties of the ownership-transfer protocol that
//! relate several operations, stated and proved over the specification
//! functions the operations' own contracts use.

use vstd::prelude::*;

use crate::errors::StateError;
use crate::state::{Capsule, ReadView, StateVars};
use crate::system::System;

verus! {

/// Attached capsules are views, not snapshots: a capsule attached to a
/// multistep integrator reads exactly the physical state that integrator
/// currently holds.  In particular, after a successful solve through any
/// capsule refills integrator `j`'s slot with the stepped-forward state,
/// every capsule attached to `j` — whenever it was created — reads that
/// post-solve state, time and step size included.
pub proof fn attached_multistep_is_view<A, B>(
    sys: System<A, B>,
    c: Capsule<A, B>,
    j: usize,
    s: StateVars<A>,
)
    requires
        c == Capsule::<A, B>::AttachedMultistep(j),
        j < sys.multistep@.len(),
        sys.multistep@[j as int] == Some(s),
    ensures
        c.read(sys) == Ok::<ReadView, StateError>(s.read_view()),
{
}

/// The same view law for the SDIRK family.
pub proof fn attached_sdirk_is_view<A, B>(
    sys: System<A, B>,
    c: Capsule<A, B>,
    j: usize,
    s: StateVars<B>,
)
    requires
        c == Capsule::<A, B>::AttachedSdirk(j),
        j < sys.sdirk@.len(),
        sys.sdirk@[j as int] == Some(s),
    ensures
        c.read(sys) == Ok::<ReadView, StateError>(s.read_view()),
{
}

/// After a successful multistep solve the released state is what every view
/// reads: if `post` is the registry a solve through integrator `solver` left
/// behind (the acquired slots with `solver`'s slot refilled by the
/// stepped-forward state `s1`, exactly as [`crate::system::System::solve_multistep`]
/// ensures), then the capsule the solve returned — and any other capsule
/// attached to `solver` — reads `s1` itself: its `t()` is exactly the final
/// time the stepping routine reported.
pub proof fn post_solve_reads_released_state<A, B>(
    pre: System<A, B>,
    post: System<A, B>,
    acquired_from: Capsule<A, B>,
    solver: usize,
    s1: StateVars<A>,
    c: Capsule<A, B>,
)
    requires
        solver < pre.multistep@.len(),
        pre.multistep_acquirable(acquired_from),
        post.multistep@ == pre.multistep_after_acquire(acquired_from).update(
            solver as int,
            Some(s1),
        ),
        c == Capsule::<A, B>::AttachedMultistep(solver),
    ensures
        c.read(post) == Ok::<ReadView, StateError>(s1.read_view()),
{
    assert(pre.multistep_after_acquire(acquired_from).len() == pre.multistep@.len());
    assert(post.multistep@[solver as int] == Some(s1));
}

/// A transient-empty capsule never yields data and never re-enters a solve:
/// every read fails with the invalid-state error, and a solve through
/// either algorithm family refuses it with the invalid-state error — never
/// with stale data and never with a numerical error.  Since a failed solve
/// leaves its capsule transient-empty, every later read or solve on that
/// capsule keeps failing this way.
pub proof fn transient_empty_rejects<A, B>(sys: System<A, B>, c: Capsule<A, B>)
    requires
        c is TransientEmpty,
    ensures
        c.read(sys) == Err::<ReadView, StateError>(StateError::InvalidState),
        !sys.multistep_acquirable(c),
        !sys.sdirk_acquirable(c),
        sys.multistep_acquire_error(c) == StateError::InvalidState,
        sys.sdirk_acquire_error(c) == StateError::InvalidState,
{
}

/// An attached capsule whose integrator's slot is empty (the state is away
/// in another capsule or was never given back) reads as invalid rather than
/// producing stale or zeroed data.
pub proof fn detached_slot_rejects<A, B>(sys: System<A, B>, c: Capsule<A, B>, j: usize)
    requires
        c == Capsule::<A, B>::AttachedMultistep(j),
        sys.multistep_slot(j) is None,
    ensures
        c.read(sys) == Err::<ReadView, StateError>(StateError::SolverHasNoState),
        !sys.multistep_acquirable(c),
        sys.multistep_acquire_error(c) == StateError::SolverHasNoState,
{
}

} // verus!
