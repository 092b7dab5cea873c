//! Kinematic rules that depend only on the species tag and on exact
//! comparisons of scalars: which species the Lorentz factor applies to, the
//! kinetic-energy survival cutoff, and the choice of stopping-power regime
//! over momentum magnitude. The rounded arithmetic inside each regime
//! (logarithms, polynomial evaluation, square roots) is floating-point work
//! and lives outside the verified library; the constants it consumes — the
//! fitted coefficient tables, the flat energy loss, the speed of light — are
//! pinned here bit for bit.

use vstd::prelude::*;
use crate::particle::ParticleType;
use crate::particle::mass_bits_of;
use crate::scalar::key_of;
use crate::scalar::order_key;
use crate::scalar::scaled;
use crate::scalar::sign_of;
use crate::scalar::exp_of;

verus! {

/// Speed of light, 299.792458 mm/ns.
pub const LIGHT_SPEED_BITS: u64 = 0x4072_BCAD_E870_9742;

/// Kinetic-energy survival cutoff, 0.01 MeV: below this a particle counts as
/// absorbed.
pub const KE_CUTOFF_BITS: u64 = 0x3F84_7AE1_47AE_147B;

/// The velocity fraction of every massless particle: exactly 1.
pub const UNIT_BETA_BITS: u64 = 0x3FF0_0000_0000_0000;

/// Flat energy loss below the fitted momentum ranges, 0.8 MeV/mm.
pub const FLAT_STOPPING_BITS: u64 = 0x3FE9_9999_9999_999A;

/// Lowest momentum (MeV/c) the electron fit covers: 0.103.
pub const ELECTRON_FIT_MIN_BITS: u64 = 0x3FBA_5E35_3F7C_ED91;

/// Lowest momentum the mid-range muon fit covers: 7.1.
pub const MUON_MID_FIT_MIN_BITS: u64 = 0x401C_6666_6666_6666;

/// Lowest momentum the high-range muon fit covers: 50.0.
pub const MUON_HIGH_FIT_MIN_BITS: u64 = 0x4049_0000_0000_0000;

/// Whether the Lorentz factor is defined for a species: it is the ratio of
/// energy to rest mass, so it applies exactly to the species with positive
/// rest mass and is "not applicable" for the massless gamma.
pub fn gamma_applicable(t: ParticleType) -> (r: bool)
    ensures
        r == (t != ParticleType::Gamma),
        r == (scaled(mass_bits_of(t)) > 0),
{
    proof {
        lemma_masses_positive();
    }
    match t {
        ParticleType::Gamma => false,
        _ => true,
    }
}

/// The electron and muon rest masses are positive values; the gamma mass is
/// exactly zero.
pub proof fn lemma_masses_positive()
    ensures
        scaled(crate::particle::ELECTRON_MASS_BITS) > 0,
        scaled(crate::particle::MUON_MASS_BITS) > 0,
        scaled(crate::particle::GAMMA_MASS_BITS) == 0,
{
    assert(sign_of(0x3FE0_5A1C_AC08_3127u64) == 0 && exp_of(0x3FE0_5A1C_AC08_3127u64) != 0)
        by (bit_vector);
    assert(sign_of(0x405A_6A3D_70A3_D70Au64) == 0 && exp_of(0x405A_6A3D_70A3_D70Au64) != 0)
        by (bit_vector);
    assert(sign_of(0u64) == 0 && exp_of(0u64) == 0 && crate::scalar::frac_of(0u64) == 0)
        by (bit_vector);
    crate::scalar::lemma_mag_scaled_nonneg(0x3FE0_5A1C_AC08_3127u64);
    crate::scalar::lemma_mag_scaled_nonneg(0x405A_6A3D_70A3_D70Au64);
}

/// True when a kinetic energy is below the survival cutoff, in the total
/// order of scalars.
pub open spec fn below_cutoff_spec(ke: u64) -> bool {
    key_of(ke) < key_of(KE_CUTOFF_BITS)
}

/// Compares a kinetic energy against the 0.01 MeV survival cutoff.
pub fn below_cutoff(ke: u64) -> (r: bool)
    ensures
        r == below_cutoff_spec(ke),
{
    order_key(ke) < order_key(KE_CUTOFF_BITS)
}

/// What the cutoff comparison means in exact values: a finite kinetic energy
/// is below the cutoff exactly when its value is strictly below 0.01 MeV.
pub proof fn lemma_below_cutoff_means(ke: u64)
    requires
        crate::scalar::is_finite(ke),
    ensures
        below_cutoff_spec(ke) <==> scaled(ke) < scaled(KE_CUTOFF_BITS),
{
    assert(sign_of(0x3F84_7AE1_47AE_147Bu64) == 0 && exp_of(0x3F84_7AE1_47AE_147Bu64) != 0
        && exp_of(0x3F84_7AE1_47AE_147Bu64) != 0x7FF) by (bit_vector);
    crate::scalar::lemma_mag_scaled_nonneg(KE_CUTOFF_BITS);
    crate::scalar::lemma_key_orders_values(ke, KE_CUTOFF_BITS);
    if below_cutoff_spec(ke) && scaled(ke) == scaled(KE_CUTOFF_BITS) {
        crate::scalar::lemma_scaled_injective(ke, KE_CUTOFF_BITS);
    }
}

/// The stopping-power regimes: a flat energy loss below the fitted momentum
/// ranges, and one fitted log-polynomial per species and range.
#[derive(Clone, Copy, PartialEq, Eq, Structural, Debug)]
pub enum StoppingRegime {
    Flat,
    ElectronFit,
    MuonMidFit,
    MuonHighFit,
}

/// Which regime governs a charged particle's energy loss, by species and
/// momentum magnitude. Gammas have no stopping power; the value here for
/// them is immaterial, and `stopping_regime` refuses them.
pub open spec fn regime_of(t: ParticleType, momentum: u64) -> StoppingRegime {
    match t {
        ParticleType::Electron => if key_of(momentum) < key_of(ELECTRON_FIT_MIN_BITS) {
            StoppingRegime::Flat
        } else {
            StoppingRegime::ElectronFit
        },
        ParticleType::Muon => if key_of(momentum) < key_of(MUON_MID_FIT_MIN_BITS) {
            StoppingRegime::Flat
        } else if key_of(momentum) < key_of(MUON_HIGH_FIT_MIN_BITS) {
            StoppingRegime::MuonMidFit
        } else {
            StoppingRegime::MuonHighFit
        },
        ParticleType::Gamma => StoppingRegime::Flat,
    }
}

/// Selects the stopping-power regime for a charged particle. A gamma reaching
/// energy loss is a defect of the model, not a runtime condition, so massless
/// species are excluded outright.
pub fn stopping_regime(t: ParticleType, momentum: u64) -> (r: StoppingRegime)
    requires
        t != ParticleType::Gamma,
    ensures
        r == regime_of(t, momentum),
{
    match t {
        ParticleType::Electron => if order_key(momentum) < order_key(ELECTRON_FIT_MIN_BITS) {
            StoppingRegime::Flat
        } else {
            StoppingRegime::ElectronFit
        },
        ParticleType::Muon => if order_key(momentum) < order_key(MUON_MID_FIT_MIN_BITS) {
            StoppingRegime::Flat
        } else if order_key(momentum) < order_key(MUON_HIGH_FIT_MIN_BITS) {
            StoppingRegime::MuonMidFit
        } else {
            StoppingRegime::MuonHighFit
        },
        ParticleType::Gamma => {
            proof {
                assert(false);
            }
            StoppingRegime::Flat
        },
    }
}

/// The nine coefficients of the electron fit, MeV/cm per power of
/// ln(momentum): 1.97185875, -0.490322067, 0.567984147, -0.378515229,
/// 0.196937857, -0.0669875048, 0.0130714285, -0.00131646064, 0.0000529555090.
pub open spec fn electron_fit_coefficients() -> Seq<u64> {
    seq![
        0x3FFF_8CBB_C2B9_4D94u64,
        0xBFDF_616F_CE91_6A6Du64,
        0x3FE2_2CED_1700_5DDAu64,
        0xBFD8_3997_F065_F2E8u64,
        0x3FC9_3542_7B94_64C0u64,
        0xBFB1_2617_D65B_4CF5u64,
        0x3F8A_C531_6F5B_240Au64,
        0xBF55_91A2_D94C_1FB3u64,
        0x3F0B_C391_6F33_CEB7u64,
    ]
}

/// The nine coefficients of the mid-range muon fit: -419708.069, 1096019.02,
/// -1247957.01, 809428.64, -327064.065, 84292.2022, -13529.1466, 1236.25151,
/// -49.2348947.
pub open spec fn muon_mid_fit_coefficients() -> Seq<u64> {
    seq![
        0xC119_9DF0_46A7_EF9Eu64,
        0x4130_B953_051E_B852u64,
        0xC133_0AD5_028F_5C29u64,
        0x4128_B3A9_47AE_147Bu64,
        0xC113_F660_428F_5C29u64,
        0x40F4_9443_3C36_1134u64,
        0xC0CA_6C92_C3C9_EECCu64,
        0x4093_5101_8BD6_6278u64,
        0xC048_9E11_078F_407Au64,
    ]
}

/// The nine coefficients of the high-range muon fit: 1137.54387, -1136.42381,
/// 496.588219, -123.563655, 19.1190645, -1.88126582, 0.114850292,
/// -0.00397495919, 0.0000596940644.
pub open spec fn muon_high_fit_coefficients() -> Seq<u64> {
    seq![
        0x4091_C62C_EC41_DD1Au64,
        0xC091_C1B1_FB3F_A6DFu64,
        0x407F_0969_5853_7E2Cu64,
        0xC05E_E412_EC6B_CE85u64,
        0x4033_1E7B_02D5_9D56u64,
        0xBFFE_19AA_303F_B8D3u64,
        0x3FBD_66D4_2813_780Bu64,
        0xBF70_480B_FB95_70EEu64,
        0x3F0F_4C00_6F56_0903u64,
    ]
}

/// The coefficient table of a fitted regime, lowest power first. The fits are
/// empirical; their exact binary64 coefficients are part of the observable
/// behaviour and are reproduced bit for bit.
pub open spec fn fit_coefficients_of(r: StoppingRegime) -> Seq<u64> {
    match r {
        StoppingRegime::Flat => seq![],
        StoppingRegime::ElectronFit => electron_fit_coefficients(),
        StoppingRegime::MuonMidFit => muon_mid_fit_coefficients(),
        StoppingRegime::MuonHighFit => muon_high_fit_coefficients(),
    }
}

/// Hands out the coefficient table of a fitted regime; the flat regime has no
/// table (its loss is the constant `FLAT_STOPPING_BITS`).
pub fn fit_coefficients(r: StoppingRegime) -> (cs: Vec<u64>)
    requires
        r != StoppingRegime::Flat,
    ensures
        cs@ == fit_coefficients_of(r),
{
    let cs: Vec<u64> = match r {
        StoppingRegime::Flat => {
            proof {
                assert(false);
            }
            vec![]
        },
        StoppingRegime::ElectronFit => vec![
            0x3FFF_8CBB_C2B9_4D94u64,
            0xBFDF_616F_CE91_6A6Du64,
            0x3FE2_2CED_1700_5DDAu64,
            0xBFD8_3997_F065_F2E8u64,
            0x3FC9_3542_7B94_64C0u64,
            0xBFB1_2617_D65B_4CF5u64,
            0x3F8A_C531_6F5B_240Au64,
            0xBF55_91A2_D94C_1FB3u64,
            0x3F0B_C391_6F33_CEB7u64,
        ],
        StoppingRegime::MuonMidFit => vec![
            0xC119_9DF0_46A7_EF9Eu64,
            0x4130_B953_051E_B852u64,
            0xC133_0AD5_028F_5C29u64,
            0x4128_B3A9_47AE_147Bu64,
            0xC113_F660_428F_5C29u64,
            0x40F4_9443_3C36_1134u64,
            0xC0CA_6C92_C3C9_EECCu64,
            0x4093_5101_8BD6_6278u64,
            0xC048_9E11_078F_407Au64,
        ],
        StoppingRegime::MuonHighFit => vec![
            0x4091_C62C_EC41_DD1Au64,
            0xC091_C1B1_FB3F_A6DFu64,
            0x407F_0969_5853_7E2Cu64,
            0xC05E_E412_EC6B_CE85u64,
            0x4033_1E7B_02D5_9D56u64,
            0xBFFE_19AA_303F_B8D3u64,
            0x3FBD_66D4_2813_780Bu64,
            0xBF70_480B_FB95_70EEu64,
            0x3F0F_4C00_6F56_0903u64,
        ],
    };
    proof {
        assert(cs@ =~= fit_coefficients_of(r));
    }
    cs
}

} // verus!
