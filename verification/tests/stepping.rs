use particle_transport::particle::Particle;
use particle_transport::particle::ParticleState;
use particle_transport::particle::ParticleType;
use particle_transport::vec3::Vec3Bits;
use particle_transport::volume::Volume;
use particle_transport::world::InteractionOutcome;
use particle_transport::world::TickInput;
use particle_transport::world::World;

fn v3(x: f64, y: f64, z: f64) -> Vec3Bits {
    Vec3Bits::new(x.to_bits(), y.to_bits(), z.to_bits())
}

fn cube(size: f64, x0: f64) -> Volume {
    Volume::new(size.to_bits(), x0.to_bits())
}

fn no_interaction(ke: f64, moved: Vec3Bits) -> TickInput {
    TickInput { ke: ke.to_bits(), moved_r: moved, interaction: None }
}

#[test]
fn test_world_creation() {
    let v1 = cube(10.0, 53.2);
    let v2 = cube(28.4, 60.0);
    let p1 = Particle::new(v3(1.0, 2.0, -3.0), v3(5.0, 0.0, 0.0), ParticleType::Electron);
    let p2 = Particle::new(v3(4.2, -1.5, 5.1), v3(3.4, -2.0, 0.7), ParticleType::Muon);
    let p3 = Particle::new(v3(20.1, -10.3, -9.7), v3(-100.0, 0.0, -52.1), ParticleType::Gamma);
    let w1 = World::new(vec![p1.clone(), p2.clone(), p3.clone()], v1.clone(), (0.1f64).to_bits());
    let w2 = World::new(vec![p1.clone(), p3.clone()], v2.clone(), (0.01f64).to_bits());
    let w3 = World::new(vec![p2], v2, (0.005f64).to_bits());
    let w4 = World::new(vec![], v1, (1.0f64).to_bits());
    assert_eq!(w1.particles.len(), 3);
    assert_eq!(w2.particles.len(), 2);
    assert_eq!(w3.particles.len(), 1);
    assert_eq!(w4.particles.len(), 0);
}

#[test]
fn test_world_has_alive_particles() {
    let v1 = cube(10.0, 53.2);
    let v2 = cube(28.4, 60.0);
    let p1 = Particle::new(v3(1.0, 2.0, -3.0), v3(5.0, 0.0, 0.0), ParticleType::Electron);
    let p2 = Particle::new(v3(4.2, -1.5, 5.1), v3(3.4, -2.0, 0.7), ParticleType::Muon);
    let p3 = Particle::new(v3(20.1, -10.3, -9.7), v3(-100.0, 0.0, -52.1), ParticleType::Gamma);
    let w1 = World::new(vec![p1, p2.clone(), p3], v1.clone(), (0.1f64).to_bits());
    let w2 = World::new(vec![], v2.clone(), (0.01f64).to_bits());
    let w3 = World::new(vec![p2], v2, (0.005f64).to_bits());
    let w4 = World::new(vec![], v1, (1.0f64).to_bits());
    assert!(w1.has_alive_particles());
    assert!(!w2.has_alive_particles());
    assert!(w3.has_alive_particles());
    assert!(!w4.has_alive_particles());
}

// A gamma that starts at the origin with momentum (0, 0, 1) in a 10 mm cube,
// ticked once with dt = 1 ns and no interaction, flies one light-nanosecond
// along z, is recorded there, and dies for leaving the volume.
#[test]
fn test_gamma_escapes_small_volume_in_one_tick() {
    let volume = cube(10.0, 53.2);
    let gamma = Particle::new(v3(0.0, 0.0, 0.0), v3(0.0, 0.0, 1.0), ParticleType::Gamma);
    let mut world = World::new(vec![gamma], volume, (1.0f64).to_bits());

    // The tick's arithmetic, as the unverified driver performs it: kinetic
    // energy sqrt(|p|^2 + m^2) - m, displacement dir * beta * c * dt.
    let ke = (1.0f64 * 1.0 + 0.0 * 0.0).sqrt() - 0.0;
    let moved_z = 0.0 + 1.0 * 1.0 * 299.792458 * 1.0;
    let inputs = vec![no_interaction(ke, v3(0.0, 0.0, moved_z))];
    world.step(&inputs);

    assert_eq!(world.particles[0].state.r, v3(0.0, 0.0, 299.792458));
    assert!(!world.particles[0].state.alive);
    assert_eq!(world.position_history.len(), 1);
    assert_eq!(world.position_history[0], v3(0.0, 0.0, 299.792458));
}

// A particle already below the 0.01 MeV cutoff at the start of a tick is
// marked dead and is not propagated: its position stays put and nothing is
// recorded.
#[test]
fn test_cutoff_kills_without_moving() {
    let volume = cube(100.0, 53.2);
    let electron = Particle::new(v3(1.0, 2.0, 3.0), v3(0.001, 0.0, 0.0), ParticleType::Electron);
    let mut world = World::new(vec![electron], volume, (1.0f64).to_bits());

    let inputs = vec![no_interaction(0.0099, v3(9.0, 9.0, 9.0))];
    world.step(&inputs);

    assert!(!world.particles[0].state.alive);
    assert_eq!(world.particles[0].state.r, v3(1.0, 2.0, 3.0));
    assert_eq!(world.particles[0].state.p, v3(0.001, 0.0, 0.0));
    assert_eq!(world.position_history.len(), 0);
}

// A kinetic energy exactly at the cutoff is not below it: the particle
// survives and moves.
#[test]
fn test_cutoff_is_strict() {
    let volume = cube(100.0, 53.2);
    let electron = Particle::new(v3(0.0, 0.0, 0.0), v3(0.1, 0.0, 0.0), ParticleType::Electron);
    let mut world = World::new(vec![electron], volume, (1.0f64).to_bits());

    let inputs = vec![no_interaction(0.01, v3(2.0, 0.0, 0.0))];
    world.step(&inputs);

    assert!(world.particles[0].state.alive);
    assert_eq!(world.particles[0].state.r, v3(2.0, 0.0, 0.0));
    assert_eq!(world.position_history.len(), 1);
}

// Dead particles are left entirely alone: not moved, not recorded, never
// resurrected.
#[test]
fn test_dead_particles_are_skipped() {
    let volume = cube(100.0, 53.2);
    let dead = Particle {
        species: ParticleType::Muon,
        state: ParticleState {
            r: v3(1.0, 1.0, 1.0),
            p: v3(8.0, 0.0, 0.0),
            m: (105.66f64).to_bits(),
            alive: false,
        },
    };
    let mut world = World::new(vec![dead], volume, (1.0f64).to_bits());

    let inputs = vec![no_interaction(5.0, v3(7.0, 7.0, 7.0))];
    world.step(&inputs);

    assert!(!world.particles[0].state.alive);
    assert_eq!(world.particles[0].state.r, v3(1.0, 1.0, 1.0));
    assert_eq!(world.position_history.len(), 0);
}

// A surviving particle takes the sampled interaction: position and momentum
// come from the interaction outcome, while the history records the
// post-propagation position, not the post-interaction one.
#[test]
fn test_interaction_outcome_is_applied() {
    let volume = cube(100.0, 53.2);
    let muon = Particle::new(v3(0.0, 0.0, 0.0), v3(20.0, 0.0, 0.0), ParticleType::Muon);
    let mut world = World::new(vec![muon], volume, (0.1f64).to_bits());

    let moved = v3(3.0, 0.0, 0.0);
    let scattered = InteractionOutcome { r: v3(3.1, 0.05, 0.0), p: v3(19.0, 0.4, 0.0) };
    let inputs = vec![TickInput { ke: (2.0f64).to_bits(), moved_r: moved, interaction: Some(scattered) }];
    world.step(&inputs);

    assert!(world.particles[0].state.alive);
    assert_eq!(world.particles[0].state.r, v3(3.1, 0.05, 0.0));
    assert_eq!(world.particles[0].state.p, v3(19.0, 0.4, 0.0));
    assert_eq!(world.position_history.len(), 1);
    assert_eq!(world.position_history[0], moved);
}

// A particle whose propagation leaves the volume dies there: it keeps the
// moved position and its momentum, its interaction is discarded, and the
// moved position is still recorded.
#[test]
fn test_leaving_the_volume_kills() {
    let volume = cube(10.0, 53.2);
    let muon = Particle::new(v3(4.0, 0.0, 0.0), v3(20.0, 0.0, 0.0), ParticleType::Muon);
    let mut world = World::new(vec![muon], volume, (1.0f64).to_bits());

    let moved = v3(6.0, 0.0, 0.0);
    let ignored = InteractionOutcome { r: v3(0.0, 0.0, 0.0), p: v3(1.0, 0.0, 0.0) };
    let inputs = vec![TickInput { ke: (2.0f64).to_bits(), moved_r: moved, interaction: Some(ignored) }];
    world.step(&inputs);

    assert!(!world.particles[0].state.alive);
    assert_eq!(world.particles[0].state.r, moved);
    assert_eq!(world.particles[0].state.p, v3(20.0, 0.0, 0.0));
    assert_eq!(world.position_history.len(), 1);
    assert_eq!(world.position_history[0], moved);
}

// The history only grows, in tick order then collection order, across steps.
#[test]
fn test_history_accumulates_in_order() {
    let volume = cube(1000.0, 53.2);
    let a = Particle::new(v3(0.0, 0.0, 0.0), v3(5.0, 0.0, 0.0), ParticleType::Electron);
    let b = Particle::new(v3(1.0, 0.0, 0.0), v3(0.0, 5.0, 0.0), ParticleType::Muon);
    let mut world = World::new(vec![a, b], volume, (1.0f64).to_bits());

    let first = vec![
        no_interaction(1.0, v3(2.0, 0.0, 0.0)),
        no_interaction(1.0, v3(1.0, 3.0, 0.0)),
    ];
    world.step(&first);
    let second = vec![
        no_interaction(1.0, v3(4.0, 0.0, 0.0)),
        no_interaction(1.0, v3(1.0, 6.0, 0.0)),
    ];
    world.step(&second);

    assert_eq!(world.position_history.len(), 4);
    assert_eq!(world.position_history[0], v3(2.0, 0.0, 0.0));
    assert_eq!(world.position_history[1], v3(1.0, 3.0, 0.0));
    assert_eq!(world.position_history[2], v3(4.0, 0.0, 0.0));
    assert_eq!(world.position_history[3], v3(1.0, 6.0, 0.0));
}
