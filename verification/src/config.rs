//! Validated simulation configuration.
//!
//! Structural mistakes — an empty world, no types, a torus with no area, or
//! sizes past what the fixed-point arithmetic is proved safe for — are
//! rejected here, at construction, never discovered mid-tick.

use vstd::prelude::*;
use crate::fixed::SCALE;
use crate::params::MAX_TYPES;

verus! {

/// Largest supported number of particles.
pub const MAX_PARTICLES: usize = 65536;

/// Largest torus side length, in whole units (pixels).
pub const MAX_DIMENSION_UNITS: u32 = 0x10_0000;

/// Largest torus side length in fixed point:
/// `MAX_DIMENSION_UNITS` times [`SCALE`].
pub const MAX_DIMENSION: i64 = 0x4000_0000;

/// Largest supported worker count for the parallel backend.
pub const MAX_THREADS: usize = 64;

/// Why a configuration was rejected.
#[derive(Clone, Copy, PartialEq, Eq, Structural, Debug)]
pub enum ConfigError {
    /// The world must hold at least one particle.
    ParticleCountZero,
    /// More particles than the arithmetic is proved safe for.
    ParticleCountTooLarge,
    /// At least one particle type is needed.
    TypeCountZero,
    /// More types than [`MAX_TYPES`].
    TypeCountTooLarge,
    /// A torus side of zero units has no interior.
    DimensionZero,
    /// A torus side past [`MAX_DIMENSION_UNITS`].
    DimensionTooLarge,
    /// The parallel backend needs at least one worker.
    ThreadCountZero,
    /// More workers than [`MAX_THREADS`].
    ThreadCountTooLarge,
    /// A hand-built type-parameter table had a wrong length or a value
    /// outside its documented range.
    InvalidTypeParameters,
    /// A hand-built particle lies outside the torus, moves faster than the
    /// proved velocity bound, or names a type that does not exist.
    InvalidParticle,
}

/// Whether the four raw settings describe a world this engine accepts.
pub open spec fn spec_settings_ok(
    width_units: u32,
    height_units: u32,
    particle_count: usize,
    type_count: usize,
) -> bool {
    &&& 1 <= particle_count <= MAX_PARTICLES
    &&& 1 <= type_count <= MAX_TYPES
    &&& 1 <= width_units <= MAX_DIMENSION_UNITS
    &&& 1 <= height_units <= MAX_DIMENSION_UNITS
}

/// Screen/torus dimensions and population of one world, held in fixed
/// point and known valid.
pub struct SimConfig {
    width: i64,
    height: i64,
    particle_count: usize,
    type_count: usize,
}

impl SimConfig {
    /// Torus width in fixed point.
    pub closed spec fn spec_width(&self) -> i64 {
        self.width
    }

    /// Torus height in fixed point.
    pub closed spec fn spec_height(&self) -> i64 {
        self.height
    }

    /// Number of particles per generation.
    pub closed spec fn spec_particle_count(&self) -> usize {
        self.particle_count
    }

    /// Number of particle types.
    pub closed spec fn spec_type_count(&self) -> usize {
        self.type_count
    }

    /// Every stored value is in the range the engine's overflow proofs
    /// assume.
    pub open spec fn wf(&self) -> bool {
        &&& SCALE <= self.spec_width() <= MAX_DIMENSION
        &&& SCALE <= self.spec_height() <= MAX_DIMENSION
        &&& 1 <= self.spec_particle_count() <= MAX_PARTICLES
        &&& 1 <= self.spec_type_count() <= MAX_TYPES
    }

    /// Validates raw settings, in units (pixels) for the torus sides.
    ///
    /// Returns the configuration exactly when `spec_settings_ok` holds of
    /// the inputs; each error names the first offending setting, checked in
    /// the order: particle count, type count, width, height.
    pub fn new(
        width_units: u32,
        height_units: u32,
        particle_count: usize,
        type_count: usize,
    ) -> (r: Result<SimConfig, ConfigError>)
        ensures
            r is Ok <==> spec_settings_ok(width_units, height_units, particle_count, type_count),
            r matches Ok(c) ==> {
                &&& c.wf()
                &&& c.spec_width() == width_units * SCALE
                &&& c.spec_height() == height_units * SCALE
                &&& c.spec_particle_count() == particle_count
                &&& c.spec_type_count() == type_count
            },
            r matches Err(e) ==> e == spec_settings_error(
                width_units, height_units, particle_count, type_count),
    {
        if particle_count == 0 {
            Err(ConfigError::ParticleCountZero)
        } else if particle_count > MAX_PARTICLES {
            Err(ConfigError::ParticleCountTooLarge)
        } else if type_count == 0 {
            Err(ConfigError::TypeCountZero)
        } else if type_count > MAX_TYPES {
            Err(ConfigError::TypeCountTooLarge)
        } else if width_units == 0 || height_units == 0 {
            Err(ConfigError::DimensionZero)
        } else if width_units > MAX_DIMENSION_UNITS || height_units > MAX_DIMENSION_UNITS {
            Err(ConfigError::DimensionTooLarge)
        } else {
            Ok(SimConfig {
                width: (width_units as i64) * SCALE,
                height: (height_units as i64) * SCALE,
                particle_count,
                type_count,
            })
        }
    }

    /// Torus width in fixed point.
    pub fn width(&self) -> (r: i64)
        requires
            self.wf(),
        ensures
            r == self.spec_width(),
            SCALE <= r <= MAX_DIMENSION,
    {
        self.width
    }

    /// Torus height in fixed point.
    pub fn height(&self) -> (r: i64)
        requires
            self.wf(),
        ensures
            r == self.spec_height(),
            SCALE <= r <= MAX_DIMENSION,
    {
        self.height
    }

    /// Number of particles per generation.
    pub fn particle_count(&self) -> (r: usize)
        requires
            self.wf(),
        ensures
            r == self.spec_particle_count(),
            1 <= r <= MAX_PARTICLES,
    {
        self.particle_count
    }

    /// Number of particle types.
    pub fn type_count(&self) -> (r: usize)
        requires
            self.wf(),
        ensures
            r == self.spec_type_count(),
            1 <= r <= MAX_TYPES,
    {
        self.type_count
    }
}

/// The error `SimConfig::new` reports for the given settings: the checks
/// run in a fixed order and the first failure wins.
pub open spec fn spec_settings_error(
    width_units: u32,
    height_units: u32,
    particle_count: usize,
    type_count: usize,
) -> ConfigError {
    if particle_count == 0 {
        ConfigError::ParticleCountZero
    } else if particle_count > MAX_PARTICLES {
        ConfigError::ParticleCountTooLarge
    } else if type_count == 0 {
        ConfigError::TypeCountZero
    } else if type_count > MAX_TYPES {
        ConfigError::TypeCountTooLarge
    } else if width_units == 0 || height_units == 0 {
        ConfigError::DimensionZero
    } else {
        ConfigError::DimensionTooLarge
    }
}

} // verus!
