//! The laws both layouts obey, stated over the shared model: layout
//! equivalence, determinism of construction, composition of the full step,
//! and the empty system as a fixed point.

use vstd::prelude::*;

use crate::model::{
    full_step, gravity_applied, gravity_step, ke_fold, positions_updated, seed_seq,
    updated, PState,
};
use crate::Vec3;

verus! {

/// Composition law: one full step is `apply_gravity` followed by
/// `update_positions`, over any system state.
pub proof fn lemma_update_composes(m: Seq<PState>, g: Vec3, dt: u32)
    ensures
        updated(m, g, dt) == positions_updated(gravity_applied(m, g, dt), dt),
{
    assert forall|i: int| 0 <= i < m.len() implies positions_updated(
        gravity_applied(m, g, dt),
        dt,
    )[i] == full_step(m[i], g, dt) by {
        assert(gravity_applied(m, g, dt)[i] == gravity_step(m[i], g, dt));
    }
    assert(updated(m, g, dt) =~= positions_updated(gravity_applied(m, g, dt), dt));
}

/// Layout equivalence: an array-of-structures system and a
/// structure-of-arrays system whose states agree produce the same state
/// after each operation, and the same kinetic energy, accumulated in the
/// same order.
pub proof fn lemma_layout_equivalence(
    a: crate::aos::ParticleSystem,
    b: crate::soa::ParticleSystem,
    g: Vec3,
    dt: u32,
)
    requires
        a@ == b@,
    ensures
        positions_updated(a@, dt) == positions_updated(b@, dt),
        gravity_applied(a@, g, dt) == gravity_applied(b@, g, dt),
        updated(a@, g, dt) == updated(b@, g, dt),
        ke_fold(a@, a@.len() as int) == ke_fold(b@, b@.len() as int),
{
}

/// Determinism: two freshly constructed systems of the same count have
/// identical state — the seed data is a function of the index alone.
pub proof fn lemma_construction_deterministic(m1: Seq<PState>, m2: Seq<PState>, n: usize)
    requires
        m1 == seed_seq(n),
        m2 == seed_seq(n),
    ensures
        m1 == m2,
{
}

/// Boundary: a system of zero particles is empty, every operation leaves it
/// empty, and its kinetic energy is `0.0`.
pub proof fn lemma_empty_system_noop(g: Vec3, dt: u32)
    ensures
        seed_seq(0) == Seq::<PState>::empty(),
        positions_updated(Seq::<PState>::empty(), dt) == Seq::<PState>::empty(),
        gravity_applied(Seq::<PState>::empty(), g, dt) == Seq::<PState>::empty(),
        updated(Seq::<PState>::empty(), g, dt) == Seq::<PState>::empty(),
        ke_fold(Seq::<PState>::empty(), 0) == crate::fbits::zero_bits(),
{
    assert(seed_seq(0) =~= Seq::<PState>::empty());
    assert(positions_updated(Seq::<PState>::empty(), dt) =~= Seq::<PState>::empty());
    assert(gravity_applied(Seq::<PState>::empty(), g, dt) =~= Seq::<PState>::empty());
    assert(updated(Seq::<PState>::empty(), g, dt) =~= Seq::<PState>::empty());
}

} // verus!
