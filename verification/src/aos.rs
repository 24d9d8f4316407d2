//! Array-of-structures layout: one contiguous sequence of particle records,
//! each holding position, velocity and mass together. Every pass over the
//! sequence loads whole records, whether or not an operation uses all three
//! fields — the cache behaviour this layout is meant to exhibit.

use vstd::prelude::*;

use crate::fbits::{
    f32_add, f32_div, f32_from_usize, f32_mul, fifth_bits, half_bits, hundredth_bits,
    is_finite_bits, one_bits, tenth_bits, three_bits, three_tenths_bits, two_bits,
};
use crate::model::{
    all_gravity_noop, all_position_noop, gravity_applied, ke_fold, ke_term, positions_updated,
    seed_mass, seed_position, seed_seq, seed_velocity, updated, PState,
};
use crate::{add3, scale3, zero3, Vec3};

verus! {

/// One particle record: position, velocity, and mass (a binary32 scalar,
/// as a bit pattern).
#[derive(Clone, Copy, Debug, PartialEq, Eq, Structural)]
pub struct Particle {
    pub position: Vec3,
    pub velocity: Vec3,
    pub mass: u32,
}

impl Particle {
    /// Pure construction.
    pub fn new(position: Vec3, velocity: Vec3, mass: u32) -> (p: Particle)
        ensures
            p == (Particle { position, velocity, mass }),
    {
        Particle { position, velocity, mass }
    }
}

/// The particle state a record denotes.
pub open spec fn pstate_of(p: Particle) -> PState {
    (p.position, p.velocity, p.mass)
}

/// A system of particles, one record per particle, in simulation order.
pub struct ParticleSystem {
    pub particles: Vec<Particle>,
}

impl View for ParticleSystem {
    type V = Seq<PState>;

    open spec fn view(&self) -> Seq<PState> {
        self.particles@.map_values(|p: Particle| pstate_of(p))
    }
}

impl ParticleSystem {
    /// Builds `count` particles with the deterministic seed state
    /// `seed_state(i)` at index `i`.
    pub fn new(count: usize) -> (s: ParticleSystem)
        ensures
            s@ == seed_seq(count),
            s@.len() == count,
    {
        let one: u32 = f32_from_usize(1);
        let two: u32 = f32_from_usize(2);
        let three: u32 = f32_from_usize(3);
        let tenth: u32 = f32_div(one, f32_from_usize(10));
        let fifth: u32 = f32_div(one, f32_from_usize(5));
        let three_tenths: u32 = f32_div(three, f32_from_usize(10));
        let hundredth: u32 = f32_div(one, f32_from_usize(100));
        let mut particles: Vec<Particle> = Vec::new();
        for i in 0..count
            invariant
                particles@.len() == i,
                forall|j: int|
                    0 <= j < i ==> #[trigger] particles@[j] == (Particle {
                        position: seed_position(j as usize),
                        velocity: seed_velocity(j as usize),
                        mass: seed_mass(j as usize),
                    }),
                one == one_bits(),
                two == two_bits(),
                three == three_bits(),
                tenth == tenth_bits(),
                fifth == fifth_bits(),
                three_tenths == three_tenths_bits(),
                hundredth == hundredth_bits(),
        {
            let fi: u32 = f32_from_usize(i);
            let position = Vec3::new(fi, f32_mul(fi, two), f32_mul(fi, three));
            let velocity = Vec3::new(
                f32_mul(fi, tenth),
                f32_mul(fi, fifth),
                f32_mul(fi, three_tenths),
            );
            let mass: u32 = f32_add(one, f32_mul(fi, hundredth));
            particles.push(Particle::new(position, velocity, mass));
        }
        let s = ParticleSystem { particles };
        proof {
            assert(s@ =~= seed_seq(count));
        }
        s
    }

    /// For every particle, `position <- position + velocity * dt`, in index
    /// order. With `dt = 0.0` and positions that absorb the signed zero
    /// impulse, the system is unchanged.
    pub fn update_positions(&mut self, dt: u32)
        ensures
            final(self)@ == positions_updated(old(self)@, dt),
            dt == 0u32 && all_position_noop(old(self)@) ==> final(self)@ == old(self)@,
    {
        let n: usize = self.particles.len();
        let mut i: usize = 0;
        while i < n
            invariant
                i <= n,
                n == self.particles@.len(),
                self.particles@.len() == old(self).particles@.len(),
                forall|j: int| i <= j < n ==> self.particles@[j] == old(self).particles@[j],
                forall|j: int|
                    0 <= j < i ==> #[trigger] self.particles@[j] == (Particle {
                        position: add3(
                            old(self).particles@[j].position,
                            scale3(old(self).particles@[j].velocity, dt),
                        ),
                        velocity: old(self).particles@[j].velocity,
                        mass: old(self).particles@[j].mass,
                    }),
                dt == 0u32 && all_position_noop(old(self)@) ==> forall|j: int|
                    0 <= j < i ==> self.particles@[j] == old(self).particles@[j],
            decreases n - i,
        {
            let p: Particle = self.particles[i];
            let scaled: Vec3 = p.velocity.scale(dt);
            let moved: Vec3 = p.position.add(&scaled);
            proof {
                if dt == 0u32 && all_position_noop(old(self)@) {
                    assert(old(self)@[i as int].0 == p.position);
                    assert(old(self)@[i as int].1 == p.velocity);
                    assert(crate::model::position_noop(p.position, p.velocity));
                    assert(moved == p.position);
                }
            }
            self.particles[i] = Particle { position: moved, velocity: p.velocity, mass: p.mass };
            i = i + 1;
        }
        proof {
            assert(final(self)@ =~= positions_updated(old(self)@, dt));
            if dt == 0u32 && all_position_noop(old(self)@) {
                assert(final(self)@ =~= old(self)@);
            }
        }
    }

    /// The total kinetic energy `sum of (0.5 * mass) * |velocity|^2`,
    /// accumulated in index order starting from `0.0`.
    pub fn compute_kinetic_energy(&self) -> (r: u32)
        ensures
            r == ke_fold(self@, self@.len() as int),
    {
        let one: u32 = f32_from_usize(1);
        let half: u32 = f32_div(one, f32_from_usize(2));
        let mut total: u32 = f32_from_usize(0);
        let n: usize = self.particles.len();
        let mut i: usize = 0;
        while i < n
            invariant
                i <= n,
                n == self.particles@.len(),
                half == half_bits(),
                total == ke_fold(self@, i as int),
            decreases n - i,
        {
            let p: Particle = self.particles[i];
            let vx2: u32 = f32_mul(p.velocity.x, p.velocity.x);
            let vy2: u32 = f32_mul(p.velocity.y, p.velocity.y);
            let vz2: u32 = f32_mul(p.velocity.z, p.velocity.z);
            let v2: u32 = f32_add(f32_add(vx2, vy2), vz2);
            let term: u32 = f32_mul(f32_mul(half, p.mass), v2);
            total = f32_add(total, term);
            proof {
                assert(self@[i as int] == pstate_of(p));
                assert(term == ke_term(self@[i as int].2, self@[i as int].1));
            }
            i = i + 1;
        }
        total
    }

    /// For every particle, `velocity <- velocity + gravity * dt`, in index
    /// order. With a zero gravity vector, a finite `dt`, and velocities that
    /// absorb the signed zero impulse, the system is unchanged.
    pub fn apply_gravity(&mut self, gravity: Vec3, dt: u32)
        ensures
            final(self)@ == gravity_applied(old(self)@, gravity, dt),
            gravity == zero3() && is_finite_bits(dt) && all_gravity_noop(old(self)@, dt)
                ==> final(self)@ == old(self)@,
    {
        let n: usize = self.particles.len();
        let mut i: usize = 0;
        while i < n
            invariant
                i <= n,
                n == self.particles@.len(),
                self.particles@.len() == old(self).particles@.len(),
                forall|j: int| i <= j < n ==> self.particles@[j] == old(self).particles@[j],
                forall|j: int|
                    0 <= j < i ==> #[trigger] self.particles@[j] == (Particle {
                        position: old(self).particles@[j].position,
                        velocity: add3(old(self).particles@[j].velocity, scale3(gravity, dt)),
                        mass: old(self).particles@[j].mass,
                    }),
                gravity == zero3() && is_finite_bits(dt) && all_gravity_noop(old(self)@, dt)
                    ==> forall|j: int| 0 <= j < i ==> self.particles@[j] == old(
                    self,
                ).particles@[j],
            decreases n - i,
        {
            let p: Particle = self.particles[i];
            let impulse: Vec3 = gravity.scale(dt);
            let pushed: Vec3 = p.velocity.add(&impulse);
            proof {
                if gravity == zero3() && is_finite_bits(dt) && all_gravity_noop(old(self)@, dt) {
                    assert(old(self)@[i as int].1 == p.velocity);
                    assert(crate::model::gravity_noop_vel(p.velocity, dt));
                    assert(pushed == p.velocity);
                }
            }
            self.particles[i] = Particle { position: p.position, velocity: pushed, mass: p.mass };
            i = i + 1;
        }
        proof {
            assert(final(self)@ =~= gravity_applied(old(self)@, gravity, dt));
            if gravity == zero3() && is_finite_bits(dt) && all_gravity_noop(old(self)@, dt) {
                assert(final(self)@ =~= old(self)@);
            }
        }
    }

    /// One full step: `apply_gravity(gravity, dt)` followed by
    /// `update_positions(dt)`, so gravity reaches a velocity before that
    /// velocity integrates the position within the same timestep.
    pub fn update(&mut self, gravity: Vec3, dt: u32)
        ensures
            final(self)@ == updated(old(self)@, gravity, dt),
    {
        self.apply_gravity(gravity, dt);
        self.update_positions(dt);
        proof {
            crate::laws::lemma_update_composes(old(self)@, gravity, dt);
        }
    }
}

} // verus!
