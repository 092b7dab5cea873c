//! A discrete-time Monte Carlo particle-transport engine: electrons, muons
//! and photons advance through a bounded cubic volume under relativistic
//! kinematics, energy-dependent stopping power and stochastic interaction,
//! until each falls below a kinetic-energy cutoff or leaves the volume.
//!
//! This library is the verified half of the simulator. Scalars (positions,
//! momenta, masses, energies) are IEEE-754 binary64 bit patterns carried as
//! `u64`, with an exact integer value model (`scalar::scaled`); everything
//! that depends only on the exact value or order of such scalars is decided
//! and proved here: species dispatch and the rest-mass table, the survival
//! cutoff, the stopping-power regimes and their fitted coefficient tables,
//! volume containment with its inclusive boundary, and the per-tick lifecycle
//! of every particle. The rounded floating-point arithmetic of a tick —
//! norms, square roots, the log-polynomial fits, interaction sampling — is
//! performed by the unverified driver around this library and handed in as
//! plain values; the stepper's contract pins exactly what becomes of them.

pub mod particle;
pub mod physics;
pub mod scalar;
pub mod vec3;
pub mod volume;
pub mod world;
