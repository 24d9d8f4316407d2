//! End-to-end tests of both layouts against native `f32` arithmetic: the
//! library carries every scalar as a binary32 bit pattern, so every result
//! can be compared bit-for-bit with what hardware floats compute.

use cache_patterns::{aos, soa, Vec3};

fn bits(x: f32) -> u32 {
    x.to_bits()
}

fn val(b: u32) -> f32 {
    f32::from_bits(b)
}

fn vec3(x: f32, y: f32, z: f32) -> Vec3 {
    Vec3::new(bits(x), bits(y), bits(z))
}

/// The seed formulas of both layouts, in native `f32`.
fn seed_f32(i: usize) -> ([f32; 3], [f32; 3], f32) {
    let fi = i as f32;
    (
        [fi, fi * 2.0, fi * 3.0],
        [fi * 0.1, fi * 0.2, fi * 0.3],
        1.0 + fi * 0.01,
    )
}

#[test]
fn seeds_match_hardware_f32() {
    let a = aos::ParticleSystem::new(50);
    let s = soa::ParticleSystem::new(50);
    for i in 0..50 {
        let (p, v, m) = seed_f32(i);
        let ap = &a.particles[i];
        assert_eq!([ap.position.x, ap.position.y, ap.position.z], p.map(bits));
        assert_eq!([ap.velocity.x, ap.velocity.y, ap.velocity.z], v.map(bits));
        assert_eq!(ap.mass, bits(m));
        assert_eq!([s.positions[i].x, s.positions[i].y, s.positions[i].z], p.map(bits));
        assert_eq!([s.velocities[i].x, s.velocities[i].y, s.velocities[i].z], v.map(bits));
        assert_eq!(s.masses[i], bits(m));
    }
}

#[test]
fn fresh_systems_are_deterministic() {
    let a1 = aos::ParticleSystem::new(100);
    let a2 = aos::ParticleSystem::new(100);
    for i in 0..100 {
        assert_eq!(a1.particles[i], a2.particles[i]);
    }
    let s1 = soa::ParticleSystem::new(100);
    let s2 = soa::ParticleSystem::new(100);
    assert_eq!(s1.positions, s2.positions);
    assert_eq!(s1.velocities, s2.velocities);
    assert_eq!(s1.masses, s2.masses);
}

#[test]
fn layouts_agree_after_operations() {
    let n = 64;
    let mut a = aos::ParticleSystem::new(n);
    let mut s = soa::ParticleSystem::new(n);
    let g = vec3(0.0, -9.81, 0.0);
    let dt = bits(0.016);

    a.apply_gravity(g, dt);
    s.apply_gravity(g, dt);
    a.update_positions(dt);
    s.update_positions(dt);
    a.update(g, dt);
    s.update(g, dt);

    for i in 0..n {
        let p = &a.particles[i];
        assert_eq!(p.position, s.positions[i]);
        assert_eq!(p.velocity, s.velocities[i]);
        assert_eq!(p.mass, s.masses[i]);
    }
    assert_eq!(a.compute_kinetic_energy(), s.compute_kinetic_energy());
}

#[test]
fn update_is_gravity_then_positions() {
    let n = 32;
    let g = vec3(1.25, -9.81, 3.5);
    let dt = bits(0.25);

    let mut one_call = aos::ParticleSystem::new(n);
    one_call.update(g, dt);
    let mut two_calls = aos::ParticleSystem::new(n);
    two_calls.apply_gravity(g, dt);
    two_calls.update_positions(dt);
    for i in 0..n {
        assert_eq!(one_call.particles[i], two_calls.particles[i]);
    }

    let mut one_call = soa::ParticleSystem::new(n);
    one_call.update(g, dt);
    let mut two_calls = soa::ParticleSystem::new(n);
    two_calls.apply_gravity(g, dt);
    two_calls.update_positions(dt);
    assert_eq!(one_call.positions, two_calls.positions);
    assert_eq!(one_call.velocities, two_calls.velocities);
}

#[test]
fn zero_gravity_keeps_velocities() {
    for &dt in &[0.016f32, 0.0, 1.5, -2.0, 1.0e30] {
        let mut a = aos::ParticleSystem::new(20);
        let before: Vec<Vec3> = a.particles.iter().map(|p| p.velocity).collect();
        a.apply_gravity(vec3(0.0, 0.0, 0.0), bits(dt));
        let after: Vec<Vec3> = a.particles.iter().map(|p| p.velocity).collect();
        assert_eq!(before, after);

        let mut s = soa::ParticleSystem::new(20);
        let before = s.velocities.clone();
        s.apply_gravity(vec3(0.0, 0.0, 0.0), bits(dt));
        assert_eq!(before, s.velocities);
    }
}

#[test]
fn zero_dt_keeps_positions() {
    let mut a = aos::ParticleSystem::new(20);
    let before: Vec<Vec3> = a.particles.iter().map(|p| p.position).collect();
    a.update_positions(bits(0.0));
    let after: Vec<Vec3> = a.particles.iter().map(|p| p.position).collect();
    assert_eq!(before, after);

    let mut s = soa::ParticleSystem::new(20);
    let before = s.positions.clone();
    s.update_positions(bits(0.0));
    assert_eq!(before, s.positions);
}

#[test]
fn empty_system_is_noop() {
    let mut a = aos::ParticleSystem::new(0);
    assert_eq!(a.particles.len(), 0);
    a.update_positions(bits(0.016));
    a.apply_gravity(vec3(0.0, -9.81, 0.0), bits(0.016));
    a.update(vec3(0.0, -9.81, 0.0), bits(0.016));
    assert_eq!(a.particles.len(), 0);
    assert_eq!(val(a.compute_kinetic_energy()), 0.0);

    let mut s = soa::ParticleSystem::new(0);
    assert_eq!(s.positions.len(), 0);
    s.update_positions(bits(0.016));
    s.apply_gravity(vec3(0.0, -9.81, 0.0), bits(0.016));
    s.update(vec3(0.0, -9.81, 0.0), bits(0.016));
    assert_eq!(s.positions.len(), 0);
    assert_eq!(s.velocities.len(), 0);
    assert_eq!(s.masses.len(), 0);
    assert_eq!(val(s.compute_kinetic_energy()), 0.0);
}

#[test]
fn example_scenario() {
    let mut s = aos::ParticleSystem::new(3);
    let p1 = &s.particles[1];
    assert_eq!(p1.position, vec3(1.0, 2.0, 3.0));
    assert_eq!(p1.velocity, vec3(0.1, 0.2, 0.3));
    assert!((val(p1.mass) - 1.01).abs() < 1.0e-6);

    s.apply_gravity(vec3(0.0, -9.81, 0.0), bits(0.016));
    let vy = val(s.particles[1].velocity.y);
    assert_eq!(vy.to_bits(), (0.2f32 + (-9.81f32 * 0.016f32)).to_bits());
    assert!((vy - 0.04304).abs() < 1.0e-6);

    s.update_positions(bits(0.016));
    let py = val(s.particles[1].position.y);
    assert_eq!(py.to_bits(), (2.0f32 + vy * 0.016f32).to_bits());
    assert!((py - 2.000689).abs() < 1.0e-5);
}

#[test]
fn kinetic_energy_matches_hardware_f32() {
    let n = 50;
    let s = soa::ParticleSystem::new(n);
    let mut expected = 0.0f32;
    for i in 0..n {
        let (_, v, m) = seed_f32(i);
        let v2 = v[0] * v[0] + v[1] * v[1] + v[2] * v[2];
        expected += 0.5 * m * v2;
    }
    assert_eq!(s.compute_kinetic_energy(), bits(expected));
    assert!(expected > 0.0);

    let a = aos::ParticleSystem::new(n);
    assert_eq!(a.compute_kinetic_energy(), bits(expected));
}

#[test]
fn operations_match_hardware_f32() {
    let n = 40;
    let (gx, gy, gz) = (1.25f32, -9.81f32, 3.5f32);
    let dt = 0.25f32;
    let mut a = aos::ParticleSystem::new(n);
    a.apply_gravity(vec3(gx, gy, gz), bits(dt));
    a.update_positions(bits(dt));
    for i in 0..n {
        let (p, v, _) = seed_f32(i);
        let vx = v[0] + gx * dt;
        let vy = v[1] + gy * dt;
        let vz = v[2] + gz * dt;
        let px = p[0] + vx * dt;
        let py = p[1] + vy * dt;
        let pz = p[2] + vz * dt;
        assert_eq!(a.particles[i].velocity, Vec3::new(bits(vx), bits(vy), bits(vz)));
        assert_eq!(a.particles[i].position, Vec3::new(bits(px), bits(py), bits(pz)));
    }
}

#[test]
fn vec3_operations_match_hardware_f32() {
    let a = vec3(1.5, -2.25, 1.0e-3);
    let b = vec3(0.375, 4.0, -7.5);
    let sum = a.add(&b);
    assert_eq!(sum, vec3(1.5 + 0.375, -2.25 + 4.0, 1.0e-3 + -7.5));
    let scaled = a.scale(bits(-3.0));
    assert_eq!(scaled, vec3(1.5 * -3.0, -2.25 * -3.0, 1.0e-3 * -3.0));
    let kept = Vec3::new(bits(1.0), bits(2.0), bits(3.0));
    assert_eq!(kept, vec3(1.0, 2.0, 3.0));
}
