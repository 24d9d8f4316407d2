//! Structure-of-arrays layout: three parallel sequences — positions,
//! velocities, masses — sharing one particle index. Each operation touches
//! only the sequences it needs, the cache-locality contrast with the
//! array-of-structures layout. The core invariant is that the three
//! sequences always have the same length.

use vstd::prelude::*;

use crate::fbits::{
    f32_add, f32_div, f32_from_usize, f32_mul, fifth_bits, half_bits, hundredth_bits,
    is_finite_bits, one_bits, tenth_bits, three_bits, three_tenths_bits, two_bits,
};
use crate::model::{
    all_gravity_noop, all_position_noop, gravity_applied, ke_fold, ke_term, positions_updated,
    seed_mass, seed_position, seed_seq, seed_velocity, updated, PState,
};
use crate::{add3, scale3, zero3, Vec3};

verus! {

/// A system of particles as three parallel sequences; particle `i` is the
/// triple `(positions[i], velocities[i], masses[i])`.
pub struct ParticleSystem {
    pub positions: Vec<Vec3>,
    pub velocities: Vec<Vec3>,
    pub masses: Vec<u32>,
}

impl View for ParticleSystem {
    type V = Seq<PState>;

    open spec fn view(&self) -> Seq<PState> {
        Seq::new(
            self.positions@.len(),
            |i: int| (self.positions@[i], self.velocities@[i], self.masses@[i]),
        )
    }
}

impl ParticleSystem {
    /// Well-formedness: the three parallel sequences have equal length.
    pub open spec fn wf(&self) -> bool {
        self.velocities@.len() == self.positions@.len() && self.masses@.len()
            == self.positions@.len()
    }

    /// Builds `count` particles with the deterministic seed state
    /// `seed_state(i)` at index `i`, distributed over the three sequences.
    pub fn new(count: usize) -> (s: ParticleSystem)
        ensures
            s.wf(),
            s@ == seed_seq(count),
            s@.len() == count,
    {
        let one: u32 = f32_from_usize(1);
        let two: u32 = f32_from_usize(2);
        let three: u32 = f32_from_usize(3);
        let tenth: u32 = f32_div(one, f32_from_usize(10));
        let fifth: u32 = f32_div(one, f32_from_usize(5));
        let three_tenths: u32 = f32_div(three, f32_from_usize(10));
        let hundredth: u32 = f32_div(one, f32_from_usize(100));
        let mut positions: Vec<Vec3> = Vec::new();
        let mut velocities: Vec<Vec3> = Vec::new();
        let mut masses: Vec<u32> = Vec::new();
        for i in 0..count
            invariant
                positions@.len() == i,
                velocities@.len() == i,
                masses@.len() == i,
                forall|j: int| 0 <= j < i ==> #[trigger] positions@[j] == seed_position(j as usize),
                forall|j: int|
                    0 <= j < i ==> #[trigger] velocities@[j] == seed_velocity(j as usize),
                forall|j: int| 0 <= j < i ==> #[trigger] masses@[j] == seed_mass(j as usize),
                one == one_bits(),
                two == two_bits(),
                three == three_bits(),
                tenth == tenth_bits(),
                fifth == fifth_bits(),
                three_tenths == three_tenths_bits(),
                hundredth == hundredth_bits(),
        {
            let fi: u32 = f32_from_usize(i);
            positions.push(Vec3::new(fi, f32_mul(fi, two), f32_mul(fi, three)));
            velocities.push(
                Vec3::new(f32_mul(fi, tenth), f32_mul(fi, fifth), f32_mul(fi, three_tenths)),
            );
            masses.push(f32_add(one, f32_mul(fi, hundredth)));
        }
        let s = ParticleSystem { positions, velocities, masses };
        proof {
            assert(s@ =~= seed_seq(count));
        }
        s
    }

    /// For every particle, `position <- position + velocity * dt`, in index
    /// order; only the position and velocity sequences are touched. With
    /// `dt = 0.0` and positions that absorb the signed zero impulse, the
    /// system is unchanged.
    pub fn update_positions(&mut self, dt: u32)
        requires
            old(self).wf(),
        ensures
            final(self).wf(),
            final(self)@ == positions_updated(old(self)@, dt),
            final(self).velocities == old(self).velocities,
            final(self).masses == old(self).masses,
            dt == 0u32 && all_position_noop(old(self)@) ==> final(self)@ == old(self)@,
    {
        let n: usize = self.positions.len();
        let mut i: usize = 0;
        while i < n
            invariant
                i <= n,
                old(self).wf(),
                n == self.positions@.len(),
                self.positions@.len() == old(self).positions@.len(),
                self.velocities == old(self).velocities,
                self.masses == old(self).masses,
                forall|j: int| i <= j < n ==> self.positions@[j] == old(self).positions@[j],
                forall|j: int|
                    0 <= j < i ==> #[trigger] self.positions@[j] == add3(
                        old(self).positions@[j],
                        scale3(old(self).velocities@[j], dt),
                    ),
                dt == 0u32 && all_position_noop(old(self)@) ==> forall|j: int|
                    0 <= j < i ==> self.positions@[j] == old(self).positions@[j],
            decreases n - i,
        {
            let p: Vec3 = self.positions[i];
            let v: Vec3 = self.velocities[i];
            let scaled: Vec3 = v.scale(dt);
            let moved: Vec3 = p.add(&scaled);
            proof {
                if dt == 0u32 && all_position_noop(old(self)@) {
                    assert(old(self)@[i as int].0 == p);
                    assert(old(self)@[i as int].1 == v);
                    assert(crate::model::position_noop(p, v));
                    assert(moved == p);
                }
            }
            self.positions[i] = moved;
            i = i + 1;
        }
        proof {
            assert(final(self)@ =~= positions_updated(old(self)@, dt));
            if dt == 0u32 && all_position_noop(old(self)@) {
                assert(final(self)@ =~= old(self)@);
            }
        }
    }

    /// The total kinetic energy `sum of (0.5 * mass) * |velocity|^2`,
    /// accumulated in index order starting from `0.0`; only the velocity
    /// and mass sequences are touched.
    pub fn compute_kinetic_energy(&self) -> (r: u32)
        requires
            self.wf(),
        ensures
            r == ke_fold(self@, self@.len() as int),
    {
        let one: u32 = f32_from_usize(1);
        let half: u32 = f32_div(one, f32_from_usize(2));
        let mut total: u32 = f32_from_usize(0);
        let n: usize = self.velocities.len();
        let mut i: usize = 0;
        while i < n
            invariant
                i <= n,
                self.wf(),
                n == self.velocities@.len(),
                half == half_bits(),
                total == ke_fold(self@, i as int),
            decreases n - i,
        {
            let v: Vec3 = self.velocities[i];
            let vx2: u32 = f32_mul(v.x, v.x);
            let vy2: u32 = f32_mul(v.y, v.y);
            let vz2: u32 = f32_mul(v.z, v.z);
            let v2: u32 = f32_add(f32_add(vx2, vy2), vz2);
            let term: u32 = f32_mul(f32_mul(half, self.masses[i]), v2);
            total = f32_add(total, term);
            proof {
                assert(term == ke_term(self@[i as int].2, self@[i as int].1));
            }
            i = i + 1;
        }
        total
    }

    /// For every particle, `velocity <- velocity + gravity * dt`, in index
    /// order; only the velocity sequence is touched. With a zero gravity
    /// vector, a finite `dt`, and velocities that absorb the signed zero
    /// impulse, the system is unchanged.
    pub fn apply_gravity(&mut self, gravity: Vec3, dt: u32)
        requires
            old(self).wf(),
        ensures
            final(self).wf(),
            final(self)@ == gravity_applied(old(self)@, gravity, dt),
            final(self).positions == old(self).positions,
            final(self).masses == old(self).masses,
            gravity == zero3() && is_finite_bits(dt) && all_gravity_noop(old(self)@, dt)
                ==> final(self)@ == old(self)@,
    {
        let n: usize = self.velocities.len();
        let mut i: usize = 0;
        while i < n
            invariant
                i <= n,
                old(self).wf(),
                n == self.velocities@.len(),
                self.velocities@.len() == old(self).velocities@.len(),
                self.positions == old(self).positions,
                self.masses == old(self).masses,
                forall|j: int| i <= j < n ==> self.velocities@[j] == old(self).velocities@[j],
                forall|j: int|
                    0 <= j < i ==> #[trigger] self.velocities@[j] == add3(
                        old(self).velocities@[j],
                        scale3(gravity, dt),
                    ),
                gravity == zero3() && is_finite_bits(dt) && all_gravity_noop(old(self)@, dt)
                    ==> forall|j: int| 0 <= j < i ==> self.velocities@[j] == old(
                    self,
                ).velocities@[j],
            decreases n - i,
        {
            let v: Vec3 = self.velocities[i];
            let impulse: Vec3 = gravity.scale(dt);
            let pushed: Vec3 = v.add(&impulse);
            proof {
                if gravity == zero3() && is_finite_bits(dt) && all_gravity_noop(old(self)@, dt) {
                    assert(old(self)@[i as int].1 == v);
                    assert(crate::model::gravity_noop_vel(v, dt));
                    assert(pushed == v);
                }
            }
            self.velocities[i] = pushed;
            i = i + 1;
        }
        proof {
            assert(final(self)@ =~= gravity_applied(old(self)@, gravity, dt));
            if gravity == zero3() && is_finite_bits(dt) && all_gravity_noop(old(self)@, dt) {
                assert(final(self)@ =~= old(self)@);
            }
        }
    }

    /// One full step: `apply_gravity(gravity, dt)` followed by
    /// `update_positions(dt)`, so gravity reaches a velocity before that
    /// velocity integrates the position within the same timestep.
    pub fn update(&mut self, gravity: Vec3, dt: u32)
        requires
            old(self).wf(),
        ensures
            final(self).wf(),
            final(self)@ == updated(old(self)@, gravity, dt),
    {
        self.apply_gravity(gravity, dt);
        self.update_positions(dt);
        proof {
            crate::laws::lemma_update_composes(old(self)@, gravity, dt);
        }
    }
}

} // verus!
