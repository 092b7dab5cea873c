//! Particles: a species tag, a kinematic state, and the species' rest mass.
//! The species set is closed — electron, muon, gamma — and every kinematic
//! rule dispatches exhaustively on it, so adding a species means revisiting
//! every match site.

use vstd::prelude::*;
use vstd::string::StrSliceExecFns;
use crate::vec3::Vec3Bits;

verus! {

/// The closed set of supported particle species.
#[derive(Clone, Copy, PartialEq, Eq, Structural, Debug)]
pub enum ParticleType {
    Electron,
    Muon,
    Gamma,
}

/// Electron rest mass, 0.511 MeV.
pub const ELECTRON_MASS_BITS: u64 = 0x3FE0_5A1C_AC08_3127;

/// Muon rest mass, 105.66 MeV.
pub const MUON_MASS_BITS: u64 = 0x405A_6A3D_70A3_D70A;

/// Gamma rest mass, exactly zero.
pub const GAMMA_MASS_BITS: u64 = 0x0000_0000_0000_0000;

/// The rest mass each species carries, fixed for the species' lifetime.
pub open spec fn mass_bits_of(t: ParticleType) -> u64 {
    match t {
        ParticleType::Electron => ELECTRON_MASS_BITS,
        ParticleType::Muon => MUON_MASS_BITS,
        ParticleType::Gamma => GAMMA_MASS_BITS,
    }
}

/// Parses a species name as accepted at particle injection: `"e-"`, `"mu-"`
/// and `"gamma"` name the three species; any other name is rejected with
/// `None`, and injection must fail fast on it rather than default.
pub fn species_from_name(name: &str) -> (r: Option<ParticleType>)
    ensures
        (r == Some(ParticleType::Electron)) <==> name@ == "e-"@,
        (r == Some(ParticleType::Muon)) <==> name@ == "mu-"@,
        (r == Some(ParticleType::Gamma)) <==> name@ == "gamma"@,
        (r is None) <==> (name@ != "e-"@ && name@ != "mu-"@ && name@ != "gamma"@),
{
    proof {
        reveal_strlit("e-");
        reveal_strlit("mu-");
        reveal_strlit("gamma");
    }
    let len = name.unicode_len();
    if len == 2 && name.get_char(0) == 'e' && name.get_char(1) == '-' {
        proof {
            assert(name@ =~= "e-"@);
        }
        Some(ParticleType::Electron)
    } else if len == 3 && name.get_char(0) == 'm' && name.get_char(1) == 'u' && name.get_char(2)
        == '-' {
        proof {
            assert(name@ =~= "mu-"@);
        }
        Some(ParticleType::Muon)
    } else if len == 5 && name.get_char(0) == 'g' && name.get_char(1) == 'a' && name.get_char(2)
        == 'm' && name.get_char(3) == 'm' && name.get_char(4) == 'a' {
        proof {
            assert(name@ =~= "gamma"@);
        }
        Some(ParticleType::Gamma)
    } else {
        None
    }
}

/// The mutable state of one particle: position `r` (mm), momentum `p`
/// (MeV/c), rest mass `m` (MeV), and whether it is still being transported.
/// `alive` starts true and falls to false exactly once; dead is terminal.
#[derive(Clone, Copy, PartialEq, Eq, Structural, Debug)]
pub struct ParticleState {
    pub r: Vec3Bits,
    pub p: Vec3Bits,
    pub m: u64,
    pub alive: bool,
}

impl ParticleState {
    /// A freshly created state is alive.
    pub fn new(pos: Vec3Bits, mom: Vec3Bits, mass: u64) -> (s: ParticleState)
        ensures
            s == (ParticleState { r: pos, p: mom, m: mass, alive: true }),
    {
        ParticleState { r: pos, p: mom, m: mass, alive: true }
    }
}

/// A species tag paired with its state. The mass is derived from the species
/// at construction and stored on the state for fast access.
#[derive(Clone, Copy, PartialEq, Eq, Structural, Debug)]
pub struct Particle {
    pub species: ParticleType,
    pub state: ParticleState,
}

impl Particle {
    /// Builds an alive particle of the given species at `pos` with momentum
    /// `mom`; the stored mass is exactly the species' rest mass.
    pub fn new(pos: Vec3Bits, mom: Vec3Bits, part_type: ParticleType) -> (p: Particle)
        ensures
            p.species == part_type,
            p.state == (ParticleState {
                r: pos,
                p: mom,
                m: mass_bits_of(part_type),
                alive: true,
            }),
    {
        let mass = match part_type {
            ParticleType::Electron => ELECTRON_MASS_BITS,
            ParticleType::Muon => MUON_MASS_BITS,
            ParticleType::Gamma => GAMMA_MASS_BITS,
        };
        let particle_state = ParticleState::new(pos, mom, mass);
        Particle { species: part_type, state: particle_state }
    }
}

} // verus!
