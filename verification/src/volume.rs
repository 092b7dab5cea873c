//! The detector volume: an axis-aligned cube centred at the origin, given by
//! its edge length, plus the radiation-length parameter the interaction model
//! consumes. Containment is decided exactly, component by component, in the
//! total order of scalars; the boundary counts as inside.

use vstd::prelude::*;
use crate::particle::Particle;
use crate::scalar::half_bits;
use crate::scalar::is_finite;
use crate::scalar::key_of;
use crate::scalar::mag_scaled;
use crate::scalar::neg_bits;
use crate::scalar::neg_of;
use crate::scalar::order_key;
use crate::scalar::scaled;
use crate::scalar::sign_of;
use crate::scalar::lemma_key_orders_values;
use crate::scalar::lemma_mag_scaled_nonneg;
use crate::scalar::lemma_neg_scaled;
use crate::scalar::lemma_scaled_injective;
use crate::scalar::lemma_zero_scaled;
use crate::vec3::Vec3Bits;

verus! {

/// A cube of edge `size` (mm) centred at the origin. `half` is the half edge
/// `size / 2` computed once at construction; `x0` is the radiation length
/// (mm) of the material filling the cube. Immutable after construction.
#[derive(Clone, Copy, PartialEq, Eq, Structural, Debug)]
pub struct Volume {
    pub size: u64,
    pub half: u64,
    pub x0: u64,
}

/// Whether one position component lies within `[-half, half]`, inclusive, in
/// the total order of scalars.
pub open spec fn component_in(half: u64, c: u64) -> bool {
    key_of(neg_of(half)) <= key_of(c) && key_of(c) <= key_of(half)
}

/// Whether a position lies inside the cube: every component within the half
/// edge, boundary included.
pub open spec fn in_cube(v: Volume, r: Vec3Bits) -> bool {
    component_in(v.half, r.x) && component_in(v.half, r.y) && component_in(v.half, r.z)
}

impl Volume {
    /// Builds a cube of edge `s` with radiation length `x0`. The stored half
    /// edge is exactly `s` halved under IEEE-754 round-to-nearest-even (see
    /// `half_bits`); halving is exact for every edge length outside the two
    /// lowest exponent ranges.
    pub fn new(s: u64, x0: u64) -> (v: Volume)
        requires
            is_finite(s),
        ensures
            v.size == s,
            v.x0 == x0,
            is_finite(v.half),
            sign_of(v.half) == sign_of(s),
            mag_scaled(s) % 2 == 0 ==> 2 * mag_scaled(v.half) == mag_scaled(s),
            mag_scaled(s) % 2 == 1 ==> mag_scaled(v.half) % 2 == 0 && (2 * mag_scaled(v.half)
                == mag_scaled(s) - 1 || 2 * mag_scaled(v.half) == mag_scaled(s) + 1),
            mag_scaled(s) % 2 == 0 ==> 2 * scaled(v.half) == scaled(s),
    {
        let half = half_bits(s);
        Volume { size: s, half, x0 }
    }

    /// Whether a position is inside the cube, boundary included.
    pub fn contains_point(&self, r: &Vec3Bits) -> (c: bool)
        ensures
            c == in_cube(*self, *r),
    {
        let lo = order_key(neg_bits(self.half));
        let hi = order_key(self.half);
        let kx = order_key(r.x);
        let ky = order_key(r.y);
        let kz = order_key(r.z);
        lo <= kx && kx <= hi && lo <= ky && ky <= hi && lo <= kz && kz <= hi
    }

    /// Whether a particle's position is inside the cube, boundary included.
    pub fn contains(&self, particle: &Particle) -> (c: bool)
        ensures
            c == in_cube(*self, particle.state.r),
    {
        self.contains_point(&particle.state.r)
    }
}

/// What one component's containment means in exact values: for a finite,
/// non-negative half edge and a finite component, the key-order test is the
/// closed interval `[-half, half]`.
pub proof fn lemma_component_in_means(h: u64, c: u64)
    requires
        sign_of(h) == 0,
        is_finite(h),
        is_finite(c),
    ensures
        component_in(h, c) <==> (-scaled(h) <= scaled(c) && scaled(c) <= scaled(h)),
{
    lemma_neg_scaled(h);
    let nh = neg_of(h);
    lemma_key_orders_values(nh, c);
    lemma_key_orders_values(c, h);
    lemma_mag_scaled_nonneg(h);
    // The negative zero pattern carries the sign bit, so a zero half edge
    // with a clear sign bit is the zero pattern itself.
    assert(0x8000_0000_0000_0000u64 >> 63 == 1) by (bit_vector);
    if -scaled(h) <= scaled(c) && scaled(c) <= scaled(h) {
        if scaled(c) == scaled(h) {
            if scaled(h) != 0 {
                lemma_scaled_injective(c, h);
            } else {
                lemma_zero_scaled(h);
                lemma_zero_scaled(c);
                assert((c == 0 || c == 0x8000_0000_0000_0000u64) ==> key_of(c) <= key_of(0u64))
                    by (bit_vector);
            }
        }
        if scaled(c) == -scaled(h) {
            if scaled(h) != 0 {
                lemma_scaled_injective(c, nh);
            } else {
                lemma_zero_scaled(h);
                lemma_zero_scaled(c);
                assert((c == 0 || c == 0x8000_0000_0000_0000u64) ==> key_of(
                    neg_of(0u64),
                ) <= key_of(c)) by (bit_vector);
            }
        }
    }
}

/// What containment means in exact values: for finite positions in a cube
/// with a finite, non-negative half edge, a position is inside exactly when
/// every component lies in the closed interval `[-half, half]`.
pub proof fn lemma_in_cube_means(v: Volume, r: Vec3Bits)
    requires
        sign_of(v.half) == 0,
        is_finite(v.half),
        is_finite(r.x),
        is_finite(r.y),
        is_finite(r.z),
    ensures
        in_cube(v, r) <==> (-scaled(v.half) <= scaled(r.x) && scaled(r.x) <= scaled(v.half)
            && -scaled(v.half) <= scaled(r.y) && scaled(r.y) <= scaled(v.half) && -scaled(v.half)
            <= scaled(r.z) && scaled(r.z) <= scaled(v.half)),
{
    lemma_component_in_means(v.half, r.x);
    lemma_component_in_means(v.half, r.y);
    lemma_component_in_means(v.half, r.z);
}

/// Containment is inclusive at the boundary: with a non-negative half edge, a
/// position exactly at `(half, 0, 0)` lies inside, while any finite
/// x-component strictly beyond the half edge lies outside.
pub proof fn lemma_boundary_inclusive(v: Volume, x: u64)
    requires
        sign_of(v.half) == 0,
        is_finite(v.half),
        is_finite(x),
    ensures
        in_cube(v, Vec3Bits { x: v.half, y: 0, z: 0 }),
        scaled(x) > scaled(v.half) ==> !in_cube(v, Vec3Bits { x, y: 0, z: 0 }),
{
    let h = v.half;
    assert(h >> 63 == 0 ==> key_of(neg_of(h)) <= key_of(h) && key_of(neg_of(h)) <= key_of(0u64)
        && key_of(0u64) <= key_of(h)) by (bit_vector);
    if scaled(x) > scaled(h) {
        lemma_key_orders_values(h, x);
    }
}

} // verus!
