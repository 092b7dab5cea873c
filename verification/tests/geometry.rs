use particle_transport::particle::Particle;
use particle_transport::particle::ParticleType;
use particle_transport::vec3::Vec3Bits;
use particle_transport::volume::Volume;

fn v3(x: f64, y: f64, z: f64) -> Vec3Bits {
    Vec3Bits::new(x.to_bits(), y.to_bits(), z.to_bits())
}

fn cube(size: f64, x0: f64) -> Volume {
    Volume::new(size.to_bits(), x0.to_bits())
}

#[test]
fn test_volume_creation() {
    let v1 = cube(5.0, 53.2);
    let v2 = cube(15.0, 53.2);
    let v3 = cube(62.3, 53.2);
    assert_eq!(v1.size, (5.0f64).to_bits());
    assert_eq!(v2.size, (15.0f64).to_bits());
    assert_eq!(v3.size, (62.3f64).to_bits());
}

#[test]
fn test_volume_half_edge_is_float_halving() {
    for &s in &[5.0f64, 10.0, 15.0, 28.4, 62.3, 100.0] {
        let v = cube(s, 53.2);
        assert_eq!(v.half, (s / 2.0).to_bits());
    }
}

#[test]
fn test_volume_contains() {
    let v1 = cube(10.0, 53.2);
    let v2 = cube(28.4, 60.0);
    let p1 = Particle::new(v3(1.0, 2.0, -3.0), v3(5.0, 0.0, 0.0), ParticleType::Electron);
    let p2 = Particle::new(v3(4.2, -1.5, 5.1), v3(3.4, -2.0, 0.7), ParticleType::Muon);
    let p3 = Particle::new(v3(20.1, -10.3, -9.7), v3(-100.0, 0.0, -52.1), ParticleType::Gamma);
    assert_eq!(v1.contains(&p1), true);
    assert_eq!(v1.contains(&p2), false);
    assert_eq!(v1.contains(&p3), false);
    assert_eq!(v2.contains(&p1), true);
    assert_eq!(v2.contains(&p2), true);
    assert_eq!(v2.contains(&p3), false);
}

#[test]
fn test_containment_is_inclusive_at_the_boundary() {
    let v = cube(10.0, 53.2);
    let on_face = Particle::new(v3(5.0, 0.0, 0.0), v3(1.0, 0.0, 0.0), ParticleType::Electron);
    let epsilon_out = f64::from_bits((5.0f64).to_bits() + 1);
    let outside = Particle::new(
        v3(epsilon_out, 0.0, 0.0),
        v3(1.0, 0.0, 0.0),
        ParticleType::Electron,
    );
    assert!(v.contains(&on_face));
    assert!(!v.contains(&outside));
    // The same holds on the negative face and on the other axes.
    assert!(v.contains(&Particle::new(v3(-5.0, 0.0, 0.0), v3(1.0, 0.0, 0.0), ParticleType::Muon)));
    assert!(v.contains(&Particle::new(v3(0.0, 5.0, -5.0), v3(1.0, 0.0, 0.0), ParticleType::Muon)));
    assert!(!v.contains(&Particle::new(
        v3(0.0, 0.0, -epsilon_out),
        v3(1.0, 0.0, 0.0),
        ParticleType::Muon
    )));
}
