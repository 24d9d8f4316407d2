//! The mathematical model shared by both layouts: a particle state is a
//! `(position, velocity, mass)` triple, a system's state is a sequence of
//! them, and each operation is a pure function on such sequences.

use vstd::prelude::*;

use crate::fbits::{
    add_bits, add_keeps, f32_of_usize, fifth_bits, half_bits, hundredth_bits, is_finite_bits,
    mul_bits, one_bits, sign_bit, tenth_bits, three_bits, three_tenths_bits, two_bits, zero_bits,
    zero_of_sign,
};
use crate::{add3, scale3, Vec3};

verus! {

/// The state of one particle: position, velocity, and mass (a binary32
/// scalar, as a bit pattern).
pub type PState = (Vec3, Vec3, u32);

/// Seed position of particle `i`: `(i, 2 i, 3 i)`.
pub open spec fn seed_position(i: usize) -> Vec3 {
    Vec3 {
        x: f32_of_usize(i),
        y: mul_bits(f32_of_usize(i), two_bits()),
        z: mul_bits(f32_of_usize(i), three_bits()),
    }
}

/// Seed velocity of particle `i`: `(0.1 i, 0.2 i, 0.3 i)`.
pub open spec fn seed_velocity(i: usize) -> Vec3 {
    Vec3 {
        x: mul_bits(f32_of_usize(i), tenth_bits()),
        y: mul_bits(f32_of_usize(i), fifth_bits()),
        z: mul_bits(f32_of_usize(i), three_tenths_bits()),
    }
}

/// Seed mass of particle `i`: `1 + 0.01 i`.
pub open spec fn seed_mass(i: usize) -> u32 {
    add_bits(one_bits(), mul_bits(f32_of_usize(i), hundredth_bits()))
}

/// The deterministic initial state of particle `i`.
pub open spec fn seed_state(i: usize) -> PState {
    (seed_position(i), seed_velocity(i), seed_mass(i))
}

/// The initial state of a system of `n` particles.
pub open spec fn seed_seq(n: usize) -> Seq<PState> {
    Seq::new(n as nat, |i: int| seed_state(i as usize))
}

/// One explicit-Euler position step: `position + velocity * dt`.
pub open spec fn position_step(s: PState, dt: u32) -> PState {
    (add3(s.0, scale3(s.1, dt)), s.1, s.2)
}

/// One gravity step: `velocity + gravity * dt`.
pub open spec fn gravity_step(s: PState, g: Vec3, dt: u32) -> PState {
    (s.0, add3(s.1, scale3(g, dt)), s.2)
}

/// One full step: gravity first, then position integration with the already
/// updated velocity.
pub open spec fn full_step(s: PState, g: Vec3, dt: u32) -> PState {
    (add3(s.0, scale3(add3(s.1, scale3(g, dt)), dt)), add3(s.1, scale3(g, dt)), s.2)
}

/// `update_positions(dt)` over a whole system.
pub open spec fn positions_updated(m: Seq<PState>, dt: u32) -> Seq<PState> {
    m.map_values(|s: PState| position_step(s, dt))
}

/// `apply_gravity(g, dt)` over a whole system.
pub open spec fn gravity_applied(m: Seq<PState>, g: Vec3, dt: u32) -> Seq<PState> {
    m.map_values(|s: PState| gravity_step(s, g, dt))
}

/// `update(g, dt)` over a whole system.
pub open spec fn updated(m: Seq<PState>, g: Vec3, dt: u32) -> Seq<PState> {
    m.map_values(|s: PState| full_step(s, g, dt))
}

/// Squared euclidean norm of `v`, accumulated as `((x x + y y) + z z)`.
pub open spec fn sq_norm(v: Vec3) -> u32 {
    add_bits(add_bits(mul_bits(v.x, v.x), mul_bits(v.y, v.y)), mul_bits(v.z, v.z))
}

/// Kinetic-energy contribution of one particle: `(0.5 * mass) * |v|^2`.
pub open spec fn ke_term(mass: u32, v: Vec3) -> u32 {
    mul_bits(mul_bits(half_bits(), mass), sq_norm(v))
}

/// Kinetic energy of the first `n` particles, accumulated left to right in
/// index order, starting from `0.0`. The order matters: binary32 addition
/// does not associate, and both layouts must accumulate identically.
pub open spec fn ke_fold(m: Seq<PState>, n: int) -> u32
    decreases n,
{
    if n <= 0 {
        zero_bits()
    } else {
        add_bits(ke_fold(m, n - 1), ke_term(m[n - 1].2, m[n - 1].1))
    }
}

/// Applying a zero of sign `sign_bit(dt)` (the product `0.0 * dt` for finite
/// `dt`) to the velocity `v` leaves every component unchanged.
pub open spec fn gravity_noop_vel(v: Vec3, dt: u32) -> bool {
    add_keeps(v.x, zero_of_sign(sign_bit(dt))) && add_keeps(v.y, zero_of_sign(sign_bit(dt)))
        && add_keeps(v.z, zero_of_sign(sign_bit(dt)))
}

/// With `dt = 0.0`, the scaled velocity is a signed zero per component, and
/// adding it to the position leaves the position unchanged: the velocity
/// must be finite and the position must absorb a zero of that sign.
pub open spec fn position_noop(p: Vec3, v: Vec3) -> bool {
    is_finite_bits(v.x) && is_finite_bits(v.y) && is_finite_bits(v.z)
        && add_keeps(p.x, zero_of_sign(sign_bit(v.x)))
        && add_keeps(p.y, zero_of_sign(sign_bit(v.y)))
        && add_keeps(p.z, zero_of_sign(sign_bit(v.z)))
}

/// Every velocity in `m` absorbs the zero gravity impulse for this `dt`.
pub open spec fn all_gravity_noop(m: Seq<PState>, dt: u32) -> bool {
    forall|i: int| 0 <= i < m.len() ==> gravity_noop_vel(#[trigger] m[i].1, dt)
}

/// Every particle in `m` keeps its position under a `dt = 0.0` step.
pub open spec fn all_position_noop(m: Seq<PState>) -> bool {
    forall|i: int| 0 <= i < m.len() ==> position_noop(#[trigger] m[i].0, m[i].1)
}

} // verus!
