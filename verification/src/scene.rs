//! The engine that owns one running world.
//!
//! An [`UpdateEngine`] couples a validated configuration, a
//! type-parameter table, the current generation and one execution
//! strategy, fixed at construction. Each `advance` call is one atomic
//! tick: the previous generation stays untouched until the next one is
//! fully materialized, then replaces it.

use vstd::prelude::*;
use crate::config::{ConfigError, SimConfig, MAX_THREADS};
use crate::engine::{spec_next_gen, ParallelBackend, SequentialBackend};
use crate::params::{Color, ParticleTypeManager, DEFAULT_SEED};
use crate::rng::spec_draw;
use crate::world::{Particle, WorldState};

verus! {

/// One of the interchangeable execution strategies.
pub enum Backend {
    /// Single-threaded reference strategy.
    Sequential(SequentialBackend),
    /// Chunked fork-join strategy.
    Parallel(ParallelBackend),
}

/// Whether a backend value is usable: a parallel strategy must carry a
/// worker count its constructor accepts.
pub open spec fn backend_ok(b: Backend) -> bool {
    match b {
        Backend::Sequential(_) => true,
        Backend::Parallel(p) => 1 <= p.spec_workers() <= MAX_THREADS,
    }
}

/// A running simulation: configuration, type parameters, current
/// generation and the chosen execution strategy.
pub struct UpdateEngine {
    /// The validated construction-time settings.
    pub config: SimConfig,
    /// The type scalars and interaction matrices in force.
    pub params: ParticleTypeManager,
    /// The current generation.
    pub world: WorldState,
    /// The execution strategy, fixed for the run.
    pub backend: Backend,
}

impl UpdateEngine {
    /// All components are sound and agree with each other.
    pub open spec fn wf(&self) -> bool {
        &&& self.config.wf()
        &&& self.params.wf()
        &&& self.world.wf()
        &&& self.params.spec_type_count() == self.config.spec_type_count()
        &&& self.world.spec_type_count() == self.config.spec_type_count()
        &&& self.world.spec_width() == self.config.spec_width()
        &&& self.world.spec_height() == self.config.spec_height()
        &&& self.world@.len() == self.config.spec_particle_count()
        &&& backend_ok(self.backend)
    }

    /// Builds a running engine: type parameters derived from the fixed
    /// seed, a fresh world seeded from `world_seed`, and the given
    /// strategy.
    pub fn new(config: SimConfig, backend: Backend, world_seed: u64) -> (e: UpdateEngine)
        requires
            config.wf(),
            backend_ok(backend),
        ensures
            e.wf(),
            e.config == config,
            e.backend == backend,
            e.params.derived_from(DEFAULT_SEED),
            e.world@.len() == config.spec_particle_count(),
            forall|i: int| 0 <= i < e.world@.len() ==> {
                &&& (#[trigger] e.world@[i]).pos.x
                    == spec_draw(world_seed, 2 * i, 0, config.spec_width())
                &&& e.world@[i].pos.y == spec_draw(world_seed, 2 * i + 1, 0, config.spec_height())
                &&& e.world@[i].vel.x == 0 && e.world@[i].vel.y == 0
                &&& e.world@[i].type_index
                    == spec_draw(world_seed, 2 * config.spec_particle_count() + i, 0,
                        config.spec_type_count() as i64)
            },
    {
        let params: ParticleTypeManager = ParticleTypeManager::new(config.type_count());
        let world: WorldState = WorldState::init(&config, world_seed);
        UpdateEngine { config, params, world, backend }
    }

    /// Performs exactly one tick: the world becomes the next generation of
    /// the force law, computed by the configured strategy; parameters,
    /// configuration and strategy are untouched. Every position of the new
    /// generation again lies inside the torus.
    pub fn advance(&mut self)
        requires
            old(self).wf(),
        ensures
            final(self).wf(),
            final(self).world@ == spec_next_gen(old(self).world@, old(self).params,
                old(self).world.spec_width() as int, old(self).world.spec_height() as int),
            final(self).world.spec_width() == old(self).world.spec_width(),
            final(self).world.spec_height() == old(self).world.spec_height(),
            final(self).world.spec_type_count() == old(self).world.spec_type_count(),
            final(self).params == old(self).params,
            final(self).config == old(self).config,
            final(self).backend == old(self).backend,
    {
        let next: WorldState = match &self.backend {
            Backend::Sequential(b) => b.advance(&self.world, &self.params),
            Backend::Parallel(b) => b.advance(&self.world, &self.params),
        };
        self.world = next;
    }

    /// A copy of the current generation for display; repeated calls
    /// without an intervening tick return identical data.
    pub fn snapshot(&self) -> (r: Vec<Particle>)
        requires
            self.wf(),
        ensures
            r@ == self.world@,
    {
        self.world.snapshot()
    }

    /// Regenerates all type parameters from an explicit seed; positions
    /// and velocities are left untouched. The same policy holds whichever
    /// strategy the engine runs.
    pub fn new_world(&mut self, seed: u64)
        requires
            old(self).wf(),
        ensures
            final(self).wf(),
            final(self).params.derived_from(seed),
            final(self).params.spec_type_count() == old(self).params.spec_type_count(),
            final(self).world == old(self).world,
            final(self).config == old(self).config,
            final(self).backend == old(self).backend,
    {
        self.params = ParticleTypeManager::with_seed(self.config.type_count(), seed);
    }

    /// The display color of a type, a pure function of the static type
    /// data.
    pub fn type_color(&self, type_index: usize) -> (c: Color)
        requires
            self.wf(),
            type_index < self.config.spec_type_count(),
        ensures
            c == self.params.color_at(type_index as int),
    {
        self.params.get_particle_color(type_index)
    }
}

/// Construction helper: turns a worker-count choice into a backend,
/// rejecting counts the parallel strategy does not accept; `None` asks for
/// the sequential strategy.
pub fn choose_backend(workers: Option<usize>) -> (r: Result<Backend, ConfigError>)
    ensures
        r matches Ok(b) ==> backend_ok(b),
        match workers {
            None => r matches Ok(b) && b is Sequential,
            Some(w) => if 1 <= w <= MAX_THREADS {
                r matches Ok(b) && b matches Backend::Parallel(p) && p.spec_workers() == w
            } else {
                r matches Err(e) && e == (if w == 0 {
                    ConfigError::ThreadCountZero
                } else {
                    ConfigError::ThreadCountTooLarge
                })
            },
        },
{
    match workers {
        None => Ok(Backend::Sequential(SequentialBackend)),
        Some(w) => {
            match ParallelBackend::new(w) {
                Ok(p) => Ok(Backend::Parallel(p)),
                Err(e) => Err(e),
            }
        },
    }
}

} // verus!
