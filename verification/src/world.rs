//! One generation of particle state.
//!
//! A [`WorldState`] is an ordered sequence of particles — position,
//! velocity, type index — together with the torus dimensions they live on.
//! Positions always lie inside the torus, velocities inside the proved
//! bound, and type indices inside the type count: the constructors
//! establish it and every tick preserves it.

use vstd::prelude::*;
use crate::config::{
    ConfigError, SimConfig, MAX_DIMENSION, MAX_PARTICLES,
};
use crate::fixed::SCALE;
use crate::params::MAX_TYPES;
use crate::rng::{draw_in_range, spec_draw, SeedStream};
use crate::vector::Vec2;

verus! {

/// Velocities are kept within this magnitude on both axes; the force law's
/// damping is proved never to push a particle past it.
pub const VELOCITY_LIMIT: i64 = 0x40_0000_0000;

/// One particle of a generation.
#[derive(Clone, Copy, PartialEq, Eq, Structural, Debug)]
pub struct Particle {
    /// Position, each axis in `[0, dimension)` in fixed point.
    pub pos: Vec2,
    /// Velocity in fixed-point units per tick.
    pub vel: Vec2,
    /// Which particle type this is; immutable over the particle's life.
    pub type_index: usize,
}

impl Particle {
    /// A resting particle of type zero at the torus origin.
    pub fn new() -> (p: Particle)
        ensures
            p.pos.x == 0 && p.pos.y == 0,
            p.vel.x == 0 && p.vel.y == 0,
            p.type_index == 0,
    {
        Particle { pos: Vec2::zero(), vel: Vec2::zero(), type_index: 0 }
    }
}

/// Whether one particle fits a torus of `width` by `height` with
/// `type_count` types: position on the torus, velocity within the proved
/// bound, type index in range.
pub open spec fn valid_particle(p: Particle, width: i64, height: i64, type_count: usize) -> bool {
    &&& 0 <= p.pos.x < width
    &&& 0 <= p.pos.y < height
    &&& -VELOCITY_LIMIT <= p.vel.x <= VELOCITY_LIMIT
    &&& -VELOCITY_LIMIT <= p.vel.y <= VELOCITY_LIMIT
    &&& p.type_index < type_count
}

/// One complete, immutable generation of the simulation.
pub struct WorldState {
    particles: Vec<Particle>,
    width: i64,
    height: i64,
    type_count: usize,
}

impl View for WorldState {
    type V = Seq<Particle>;

    closed spec fn view(&self) -> Seq<Particle> {
        self.particles@
    }
}

impl WorldState {
    /// Torus width in fixed point.
    pub closed spec fn spec_width(&self) -> i64 {
        self.width
    }

    /// Torus height in fixed point.
    pub closed spec fn spec_height(&self) -> i64 {
        self.height
    }

    /// Number of particle types this world was built for.
    pub closed spec fn spec_type_count(&self) -> usize {
        self.type_count
    }

    /// The torus invariant and friends: dimensions and population in the
    /// proved ranges, and every particle valid for them.
    pub open spec fn wf(&self) -> bool {
        &&& SCALE <= self.spec_width() <= MAX_DIMENSION
        &&& SCALE <= self.spec_height() <= MAX_DIMENSION
        &&& 1 <= self.spec_type_count() <= MAX_TYPES
        &&& 1 <= self@.len() <= MAX_PARTICLES
        &&& forall|i: int| 0 <= i < self@.len()
            ==> valid_particle(#[trigger] self@[i], self.spec_width(), self.spec_height(),
                self.spec_type_count())
    }

    /// Seeds a fresh world: every position drawn uniformly from the torus
    /// (x then y, particle by particle), every velocity zero, then every
    /// type index drawn uniformly from the types.
    pub fn init(config: &SimConfig, seed: u64) -> (w: WorldState)
        requires
            config.wf(),
        ensures
            w.wf(),
            w@.len() == config.spec_particle_count(),
            w.spec_width() == config.spec_width(),
            w.spec_height() == config.spec_height(),
            w.spec_type_count() == config.spec_type_count(),
            forall|i: int| 0 <= i < w@.len() ==> {
                &&& (#[trigger] w@[i]).pos.x == spec_draw(seed, 2 * i, 0, config.spec_width())
                &&& w@[i].pos.y == spec_draw(seed, 2 * i + 1, 0, config.spec_height())
                &&& w@[i].vel.x == 0 && w@[i].vel.y == 0
                &&& w@[i].type_index
                    == spec_draw(seed, 2 * config.spec_particle_count() + i, 0,
                        config.spec_type_count() as i64)
            },
    {
        let n: usize = config.particle_count();
        let width: i64 = config.width();
        let height: i64 = config.height();
        let k: usize = config.type_count();
        let mut stream: SeedStream = SeedStream::new(seed);
        let mut particles: Vec<Particle> = Vec::new();
        let mut i: usize = 0;
        while i < n
            invariant
                i <= n <= MAX_PARTICLES,
                SCALE <= width <= MAX_DIMENSION,
                SCALE <= height <= MAX_DIMENSION,
                stream.spec_seed() == seed,
                stream.spec_drawn() == 2 * i,
                particles@.len() == i,
                forall|j: int| 0 <= j < i ==> {
                    &&& (#[trigger] particles@[j]).pos.x == spec_draw(seed, 2 * j, 0, width)
                    &&& particles@[j].pos.y == spec_draw(seed, 2 * j + 1, 0, height)
                    &&& particles@[j].vel.x == 0 && particles@[j].vel.y == 0
                    &&& particles@[j].type_index == 0
                },
            decreases n - i,
        {
            let x: i64 = draw_in_range(&mut stream, 0, width);
            let y: i64 = draw_in_range(&mut stream, 0, height);
            particles.push(Particle {
                pos: Vec2 { x, y },
                vel: Vec2 { x: 0, y: 0 },
                type_index: 0,
            });
            i += 1;
        }
        let mut j: usize = 0;
        while j < n
            invariant
                j <= n <= MAX_PARTICLES,
                1 <= k <= MAX_TYPES,
                SCALE <= width <= MAX_DIMENSION,
                SCALE <= height <= MAX_DIMENSION,
                stream.spec_seed() == seed,
                stream.spec_drawn() == 2 * n + j,
                particles@.len() == n,
                forall|t: int| 0 <= t < n ==> {
                    &&& (#[trigger] particles@[t]).pos.x == spec_draw(seed, 2 * t, 0, width)
                    &&& particles@[t].pos.y == spec_draw(seed, 2 * t + 1, 0, height)
                    &&& particles@[t].vel.x == 0 && particles@[t].vel.y == 0
                },
                forall|t: int| 0 <= t < j
                    ==> (#[trigger] particles@[t]).type_index
                        == spec_draw(seed, 2 * n + t, 0, k as i64),
                forall|t: int| j <= t < n ==> (#[trigger] particles@[t]).type_index == 0,
            decreases n - j,
        {
            let t: i64 = draw_in_range(&mut stream, 0, k as i64);
            let mut p: Particle = particles[j];
            p.type_index = t as usize;
            particles.set(j, p);
            j += 1;
        }
        WorldState { particles, width, height, type_count: k }
    }

    /// Wraps an explicit particle list into a world on the configured
    /// torus. Returns the world exactly when every particle is valid for
    /// the configuration.
    pub fn from_parts(config: &SimConfig, particles: Vec<Particle>) -> (r: Result<
        WorldState,
        ConfigError,
    >)
        requires
            config.wf(),
        ensures
            r is Ok <==> {
                &&& particles@.len() == config.spec_particle_count()
                &&& forall|i: int| 0 <= i < particles@.len()
                    ==> valid_particle(#[trigger] particles@[i], config.spec_width(),
                        config.spec_height(), config.spec_type_count())
            },
            r matches Ok(w) ==> {
                &&& w.wf()
                &&& w@ == particles@
                &&& w.spec_width() == config.spec_width()
                &&& w.spec_height() == config.spec_height()
                &&& w.spec_type_count() == config.spec_type_count()
            },
            r matches Err(e) ==> e == ConfigError::InvalidParticle,
    {
        let n: usize = config.particle_count();
        let width: i64 = config.width();
        let height: i64 = config.height();
        let k: usize = config.type_count();
        if particles.len() != n {
            return Err(ConfigError::InvalidParticle);
        }
        let mut i: usize = 0;
        while i < n
            invariant
                i <= n,
                particles@.len() == n,
                forall|j: int| 0 <= j < i
                    ==> valid_particle(#[trigger] particles@[j], width, height, k),
                width == config.spec_width(),
                height == config.spec_height(),
                k == config.spec_type_count(),
            decreases n - i,
        {
            let p: Particle = particles[i];
            let ok: bool = 0 <= p.pos.x && p.pos.x < width && 0 <= p.pos.y && p.pos.y < height
                && -VELOCITY_LIMIT <= p.vel.x && p.vel.x <= VELOCITY_LIMIT
                && -VELOCITY_LIMIT <= p.vel.y && p.vel.y <= VELOCITY_LIMIT
                && p.type_index < k;
            if !ok {
                return Err(ConfigError::InvalidParticle);
            }
            i += 1;
        }
        Ok(WorldState { particles, width, height, type_count: k })
    }

    /// Number of particles.
    pub fn len(&self) -> (r: usize)
        ensures
            r == self@.len(),
    {
        self.particles.len()
    }

    /// Torus width in fixed point.
    pub fn width(&self) -> (r: i64)
        requires
            self.wf(),
        ensures
            r == self.spec_width(),
            SCALE <= r <= MAX_DIMENSION,
    {
        self.width
    }

    /// Torus height in fixed point.
    pub fn height(&self) -> (r: i64)
        requires
            self.wf(),
        ensures
            r == self.spec_height(),
            SCALE <= r <= MAX_DIMENSION,
    {
        self.height
    }

    /// Number of particle types this world was built for.
    pub fn type_count(&self) -> (r: usize)
        requires
            self.wf(),
        ensures
            r == self.spec_type_count(),
            1 <= r <= MAX_TYPES,
    {
        self.type_count
    }

    /// The particle at index `i`.
    pub fn get(&self, i: usize) -> (p: Particle)
        requires
            self.wf(),
            i < self@.len(),
        ensures
            p == self@[i as int],
            valid_particle(p, self.spec_width(), self.spec_height(), self.spec_type_count()),
    {
        self.particles[i]
    }

    /// A copy of the current generation, for display. The copy aliases no
    /// internal state: equal calls without an intervening tick return
    /// equal data.
    pub fn snapshot(&self) -> (r: Vec<Particle>)
        requires
            self.wf(),
        ensures
            r@ == self@,
    {
        let n: usize = self.particles.len();
        let mut out: Vec<Particle> = Vec::new();
        let mut i: usize = 0;
        while i < n
            invariant
                i <= n,
                self.particles@.len() == n,
                out@.len() == i,
                forall|j: int| 0 <= j < i ==> #[trigger] out@[j] == self.particles@[j],
            decreases n - i,
        {
            out.push(self.particles[i]);
            i += 1;
        }
        proof {
            assert(out@ =~= self@);
        }
        out
    }

    /// The same torus and type count carrying a new generation: the tick's
    /// way of publishing its fully materialized output.
    pub fn with_generation(&self, particles: Vec<Particle>) -> (w: WorldState)
        requires
            self.wf(),
            particles@.len() == self@.len(),
            forall|i: int| 0 <= i < particles@.len()
                ==> valid_particle(#[trigger] particles@[i], self.spec_width(),
                    self.spec_height(), self.spec_type_count()),
        ensures
            w.wf(),
            w@ == particles@,
            w.spec_width() == self.spec_width(),
            w.spec_height() == self.spec_height(),
            w.spec_type_count() == self.spec_type_count(),
    {
        WorldState {
            particles,
            width: self.width,
            height: self.height,
            type_count: self.type_count,
        }
    }
}

/// Idempotent snapshot: two snapshots taken without an intervening tick
/// hold identical data — `snapshot` returns exactly the generation's
/// particle sequence (and borrows the world immutably, so taking one
/// changes nothing).
pub proof fn lemma_snapshot_idempotent(first: Seq<Particle>, second: Seq<Particle>, w: WorldState)
    requires
        first == w@,
        second == w@,
    ensures
        first == second,
{
}

} // verus!
