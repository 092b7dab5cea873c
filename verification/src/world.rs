//! The world: the particle collection, the volume, the time step, the
//! position-history log, and the tick that advances every particle once, in
//! collection order. Each particle's tick follows the lifecycle of the
//! transport model: kinetic-energy cutoff first, then propagation, then the
//! containment check, then the stochastic interaction — with death terminal
//! at every stage.
//!
//! The rounded per-particle arithmetic of a tick — kinetic energy,
//! displacement, interaction sampling — is floating-point work done outside
//! the verified library and handed in as one `TickInput` per particle, in
//! collection order. `step` makes every decision that depends on those
//! values: who dies at the cutoff, who is moved, whose position is recorded,
//! who leaves the volume, and who keeps the sampled interaction.

use vstd::prelude::*;
use vstd::pervasive::VecAdditionalExecFns;
use crate::particle::Particle;
use crate::particle::ParticleState;
use crate::physics::below_cutoff;
use crate::physics::below_cutoff_spec;
use crate::vec3::Vec3Bits;
use crate::volume::Volume;
use crate::volume::in_cube;

verus! {

/// What a sampled interaction did to one particle: its position and momentum
/// after energy loss and scattering.
#[derive(Clone, Copy, Debug)]
pub struct InteractionOutcome {
    pub r: Vec3Bits,
    pub p: Vec3Bits,
}

/// One particle's share of a tick, computed against its state at the start
/// of the tick: its kinetic energy `ke`, its post-propagation position
/// `moved_r`, and the outcome of its stochastic interaction, or `None` when
/// no interaction is applied this tick.
#[derive(Clone, Copy, Debug)]
pub struct TickInput {
    pub ke: u64,
    pub moved_r: Vec3Bits,
    pub interaction: Option<InteractionOutcome>,
}

/// One particle's tick. In order: a particle whose kinetic energy is below
/// the cutoff is marked dead and not moved; an already dead particle is left
/// alone; otherwise the particle moves to its post-propagation position, dies
/// there if that position left the volume, and otherwise takes the sampled
/// interaction, if any.
pub open spec fn tick_particle(p: Particle, inp: TickInput, vol: Volume) -> Particle {
    if below_cutoff_spec(inp.ke) {
        Particle { species: p.species, state: ParticleState { alive: false, ..p.state } }
    } else if !p.state.alive {
        p
    } else if !in_cube(vol, inp.moved_r) {
        Particle {
            species: p.species,
            state: ParticleState { r: inp.moved_r, alive: false, ..p.state },
        }
    } else {
        match inp.interaction {
            Option::Some(o) => Particle {
                species: p.species,
                state: ParticleState { r: o.r, p: o.p, ..p.state },
            },
            Option::None => Particle {
                species: p.species,
                state: ParticleState { r: inp.moved_r, ..p.state },
            },
        }
    }
}

/// What a particle's tick appends to the position history: its
/// post-propagation position if it was alive and above the cutoff — whether
/// or not it then survives the containment check — and nothing otherwise.
pub open spec fn tick_recorded(p: Particle, inp: TickInput) -> Seq<Vec3Bits> {
    if p.state.alive && !below_cutoff_spec(inp.ke) {
        seq![inp.moved_r]
    } else {
        Seq::empty()
    }
}

/// The positions recorded by the first `n` particles of a tick, in
/// collection order.
pub open spec fn recorded_prefix(ps: Seq<Particle>, ins: Seq<TickInput>, n: int) -> Seq<Vec3Bits>
    decreases n,
{
    if n <= 0 {
        Seq::empty()
    } else {
        recorded_prefix(ps, ins, n - 1) + tick_recorded(ps[n - 1], ins[n - 1])
    }
}

/// The positions a whole tick records, in collection order.
pub open spec fn recorded_positions(ps: Seq<Particle>, ins: Seq<TickInput>) -> Seq<Vec3Bits> {
    recorded_prefix(ps, ins, ps.len() as int)
}

/// The simulation world: elapsed time and time step (ns), the particle
/// collection, the growing position-history log, and the volume. The seeded
/// random generator that drives interaction sampling is owned by the driver
/// that computes each tick's inputs; consuming it particle by particle, in
/// collection order, is what makes runs with one seed reproducible.
pub struct World {
    pub time: u64,
    pub dt: u64,
    pub particles: Vec<Particle>,
    pub position_history: Vec<Vec3Bits>,
    pub volume: Volume,
}

impl World {
    /// A new world at time zero with an empty history.
    pub fn new(particle_list: Vec<Particle>, vol: Volume, timestep: u64) -> (w: World)
        ensures
            w.time == 0,
            w.dt == timestep,
            w.particles@ == particle_list@,
            w.position_history@ == Seq::<Vec3Bits>::empty(),
            w.volume == vol,
    {
        World {
            time: 0,
            dt: timestep,
            particles: particle_list,
            position_history: Vec::new(),
            volume: vol,
        }
    }

    /// Whether at least one particle is still alive: the driver's termination
    /// signal.
    pub fn has_alive_particles(&self) -> (r: bool)
        ensures
            r == exists|i: int|
                0 <= i < self.particles@.len() && self.particles@[i].state.alive,
    {
        let n = self.particles.len();
        let mut i: usize = 0;
        while i < n
            invariant
                i <= n,
                n == self.particles@.len(),
                forall|j: int| 0 <= j < i ==> !self.particles@[j].state.alive,
            decreases n - i,
        {
            if self.particles[i].state.alive {
                return true;
            }
            i = i + 1;
        }
        false
    }

    /// Advances the world by one tick: every particle is processed exactly
    /// once, in collection order, by `tick_particle`, and the history grows
    /// by exactly the positions of the particles that were alive and above
    /// the cutoff, in that same order. Nothing else about the world changes.
    pub fn step(&mut self, inputs: &Vec<TickInput>)
        requires
            inputs@.len() == old(self).particles@.len(),
        ensures
            final(self).time == old(self).time,
            final(self).dt == old(self).dt,
            final(self).volume == old(self).volume,
            final(self).particles@.len() == old(self).particles@.len(),
            forall|i: int|
                0 <= i < old(self).particles@.len() ==> final(self).particles@[i]
                    == tick_particle(old(self).particles@[i], inputs@[i], old(self).volume),
            final(self).position_history@ == old(self).position_history@ + recorded_positions(
                old(self).particles@,
                inputs@,
            ),
    {
        let ghost old_particles = self.particles@;
        let ghost old_history = self.position_history@;
        let n = self.particles.len();
        let mut i: usize = 0;
        while i < n
            invariant
                i <= n,
                n == old_particles.len(),
                inputs@.len() == n,
                self.time == old(self).time,
                self.dt == old(self).dt,
                self.volume == old(self).volume,
                self.particles@.len() == n,
                forall|j: int|
                    0 <= j < i ==> self.particles@[j] == tick_particle(
                        old_particles[j],
                        inputs@[j],
                        old(self).volume,
                    ),
                forall|j: int| i <= j < n ==> self.particles@[j] == old_particles[j],
                self.position_history@ == old_history + recorded_prefix(
                    old_particles,
                    inputs@,
                    i as int,
                ),
            decreases n - i,
        {
            let inp = inputs[i];
            let mut p = self.particles[i];
            if below_cutoff(inp.ke) {
                p.state.alive = false;
                self.particles.set(i, p);
            } else if p.state.alive {
                p.state.r = inp.moved_r;
                self.position_history.push(inp.moved_r);
                if !self.volume.contains_point(&p.state.r) {
                    p.state.alive = false;
                } else {
                    match inp.interaction {
                        Option::Some(o) => {
                            p.state.r = o.r;
                            p.state.p = o.p;
                        },
                        Option::None => {},
                    }
                }
                self.particles.set(i, p);
            }
            i = i + 1;
        }
        proof {
            assert(self.position_history@ == old_history + recorded_positions(
                old_particles,
                inputs@,
            ));
        }
    }
}

/// Death is terminal: a tick leaves a dead particle entirely unchanged and
/// records nothing for it.
pub proof fn lemma_death_is_terminal(p: Particle, inp: TickInput, vol: Volume)
    requires
        !p.state.alive,
    ensures
        tick_particle(p, inp, vol) == p,
        tick_recorded(p, inp) == Seq::<Vec3Bits>::empty(),
{
}

/// A particle whose kinetic energy is below the cutoff at the start of a
/// tick is marked dead and is not propagated: its position and momentum are
/// unchanged, and no position is recorded for it.
pub proof fn lemma_cutoff_stops_particle(p: Particle, inp: TickInput, vol: Volume)
    requires
        below_cutoff_spec(inp.ke),
    ensures
        !tick_particle(p, inp, vol).state.alive,
        tick_particle(p, inp, vol).state.r == p.state.r,
        tick_particle(p, inp, vol).state.p == p.state.p,
        tick_recorded(p, inp) == Seq::<Vec3Bits>::empty(),
{
}

/// A tick never resurrects: a particle alive after it was alive before it.
pub proof fn lemma_no_resurrection(p: Particle, inp: TickInput, vol: Volume)
    ensures
        tick_particle(p, inp, vol).state.alive ==> p.state.alive,
{
}

/// A tick never changes what a particle is: species and rest mass persist.
pub proof fn lemma_tick_preserves_identity(p: Particle, inp: TickInput, vol: Volume)
    ensures
        tick_particle(p, inp, vol).species == p.species,
        tick_particle(p, inp, vol).state.m == p.state.m,
{
}

/// The recording of a tick whose particles are all dead, up to any prefix
/// length, is empty.
proof fn lemma_recorded_prefix_of_dead(ps: Seq<Particle>, ins: Seq<TickInput>, n: int)
    requires
        n <= ps.len(),
        ins.len() == ps.len(),
        forall|i: int| 0 <= i < ps.len() ==> !ps[i].state.alive,
    ensures
        recorded_prefix(ps, ins, n) == Seq::<Vec3Bits>::empty(),
    decreases n,
{
    if n > 0 {
        lemma_recorded_prefix_of_dead(ps, ins, n - 1);
        assert(recorded_prefix(ps, ins, n) =~= Seq::<Vec3Bits>::empty());
    }
}

/// Once no particle is alive the world is quiescent: a tick leaves every
/// particle unchanged and records nothing. The driver that repeats `step`
/// until `has_alive_particles` is false therefore misses nothing by stopping.
pub proof fn lemma_dead_world_is_quiescent(ps: Seq<Particle>, ins: Seq<TickInput>, vol: Volume)
    requires
        ins.len() == ps.len(),
        forall|i: int| 0 <= i < ps.len() ==> !ps[i].state.alive,
    ensures
        forall|i: int| 0 <= i < ps.len() ==> tick_particle(ps[i], ins[i], vol) == ps[i],
        recorded_positions(ps, ins) == Seq::<Vec3Bits>::empty(),
{
    assert forall|i: int| 0 <= i < ps.len() implies tick_particle(ps[i], ins[i], vol)
        == ps[i] by {
        lemma_death_is_terminal(ps[i], ins[i], vol);
    }
    lemma_recorded_prefix_of_dead(ps, ins, ps.len() as int);
}

/// The position history only grows: what a step appends leaves the previous
/// log in place as a prefix.
pub proof fn lemma_history_monotone(h: Seq<Vec3Bits>, rec: Seq<Vec3Bits>)
    ensures
        (h + rec).len() >= h.len(),
        (h + rec).subrange(0, h.len() as int) == h,
{
    assert((h + rec).subrange(0, h.len() as int) =~= h);
}

} // verus!
