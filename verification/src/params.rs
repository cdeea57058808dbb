//! Per-type scalars and type-pair interaction matrices.
//!
//! A [`ParticleTypeManager`] holds, for `K` particle types, each type's mass,
//! drag and display color, and three `K`×`K` matrices: the signed force
//! coefficient, the minimum (repulsion) distance and the interaction radius
//! of every ordered type pair. All of it is derived from one seeded word
//! stream in a fixed draw order — per-type mass then drag, then the force
//! matrix row-major, then the minimum distances, then the radii — so a seed
//! reproduces the same world bit for bit.

use vstd::prelude::*;
use crate::rng::{draw_in_range, spec_draw, SeedStream};

verus! {

/// Seed used by [`ParticleTypeManager::new`].
pub const DEFAULT_SEED: u64 = 1;

/// Largest supported number of particle types.
pub const MAX_TYPES: usize = 256;

/// Smallest mass, 0.3 in fixed point (rounded up).
pub const MASS_MIN: i64 = 307;

/// Exclusive upper mass bound, 2.0 in fixed point.
pub const MASS_MAX: i64 = 2048;

/// Smallest drag factor, 0.9 in fixed point (rounded up).
pub const DRAG_MIN: i64 = 922;

/// Exclusive upper drag bound, 1.0 in fixed point: velocities never grow
/// from drag alone.
pub const DRAG_MAX: i64 = 1024;

/// Smallest force coefficient, -1.0 in fixed point.
pub const FORCE_MIN: i64 = -1024;

/// Exclusive upper force-coefficient bound, 1.0 in fixed point.
pub const FORCE_MAX: i64 = 1024;

/// Smallest minimum distance, 10 torus units in fixed point.
pub const MIN_DISTANCE_MIN: i64 = 10240;

/// Exclusive upper minimum-distance bound, 30 torus units in fixed point.
pub const MIN_DISTANCE_MAX: i64 = 30720;

/// Smallest interaction radius, 90 torus units in fixed point.
pub const RADIUS_MIN: i64 = 92160;

/// Exclusive upper interaction-radius bound, 350 torus units in fixed point.
pub const RADIUS_MAX: i64 = 358400;

/// A display color with fixed-point channels in `[0, 1024]`.
#[derive(Clone, Copy, PartialEq, Eq, Structural, Debug)]
pub struct Color {
    pub red: i64,
    pub green: i64,
    pub blue: i64,
    pub alpha: i64,
}

/// The mass of type `i`: draw `2 i` of the stream.
pub open spec fn spec_mass(seed: u64, i: int) -> int {
    spec_draw(seed, 2 * i, MASS_MIN, MASS_MAX)
}

/// The drag of type `i`: draw `2 i + 1` of the stream.
pub open spec fn spec_drag(seed: u64, i: int) -> int {
    spec_draw(seed, 2 * i + 1, DRAG_MIN, DRAG_MAX)
}

/// The force coefficient of the pair `(a, b)` among `k` types: the matrix is
/// drawn row-major right after the `2 k` per-type draws.
pub open spec fn spec_force(seed: u64, k: int, a: int, b: int) -> int {
    spec_draw(seed, 2 * k + a * k + b, FORCE_MIN, FORCE_MAX)
}

/// The minimum distance of the pair `(a, b)`: drawn after the force matrix.
pub open spec fn spec_min_distance(seed: u64, k: int, a: int, b: int) -> int {
    spec_draw(seed, 2 * k + k * k + a * k + b, MIN_DISTANCE_MIN, MIN_DISTANCE_MAX)
}

/// The interaction radius of the pair `(a, b)`: drawn last.
pub open spec fn spec_radius(seed: u64, k: int, a: int, b: int) -> int {
    spec_draw(seed, 2 * k + 2 * (k * k) + a * k + b, RADIUS_MIN, RADIUS_MAX)
}

/// The display color of type `i` among `k`: the hue wheel starting at pure
/// red, walked in `k` even steps, at full saturation and value. `h6` is the
/// hue scaled so one sextant of the wheel spans 1024 steps.
pub open spec fn spec_type_color(i: int, k: int) -> Color {
    let h6 = i * 6 * 1024 / k;
    let sector = h6 / 1024;
    let frac = h6 % 1024;
    if sector == 0 {
        Color { red: 1024, green: frac as i64, blue: 0, alpha: 1024 }
    } else if sector == 1 {
        Color { red: (1024 - frac) as i64, green: 1024, blue: 0, alpha: 1024 }
    } else if sector == 2 {
        Color { red: 0, green: 1024, blue: frac as i64, alpha: 1024 }
    } else if sector == 3 {
        Color { red: 0, green: (1024 - frac) as i64, blue: 1024, alpha: 1024 }
    } else if sector == 4 {
        Color { red: frac as i64, green: 0, blue: 1024, alpha: 1024 }
    } else {
        Color { red: 1024, green: 0, blue: (1024 - frac) as i64, alpha: 1024 }
    }
}

/// A grid cell's flat index lies inside the flattened matrix, which in turn
/// never outgrows `MAX_TYPES` squared.
pub proof fn lemma_grid_index(a: int, b: int, k: int)
    requires
        0 <= a < k,
        0 <= b < k,
        k <= MAX_TYPES as int,
    ensures
        0 <= a * k + b < k * k <= 65536,
{
    assert(a * k + b < k * k) by (nonlinear_arith)
        requires 0 <= a && a < k && 0 <= b && b < k;
    assert(0 <= a * k) by (nonlinear_arith)
        requires 0 <= a && 0 <= k;
    assert(k * k <= 65536) by (nonlinear_arith)
        requires 0 <= k && k <= 256;
}

/// The display color of type `i` among `k` types.
pub fn type_color_of(i: usize, k: usize) -> (c: Color)
    requires
        1 <= k <= MAX_TYPES,
        i < k,
    ensures
        c == spec_type_color(i as int, k as int),
{
    let h6: usize = i * 6 * 1024 / k;
    let sector: usize = h6 / 1024;
    let frac: i64 = (h6 % 1024) as i64;
    if sector == 0 {
        Color { red: 1024, green: frac, blue: 0, alpha: 1024 }
    } else if sector == 1 {
        Color { red: 1024 - frac, green: 1024, blue: 0, alpha: 1024 }
    } else if sector == 2 {
        Color { red: 0, green: 1024, blue: frac, alpha: 1024 }
    } else if sector == 3 {
        Color { red: 0, green: 1024 - frac, blue: 1024, alpha: 1024 }
    } else if sector == 4 {
        Color { red: frac, green: 0, blue: 1024, alpha: 1024 }
    } else {
        Color { red: 1024, green: 0, blue: 1024 - frac, alpha: 1024 }
    }
}

/// Derives and serves the per-type scalars and the interaction matrices.
pub struct ParticleTypeManager {
    type_count: usize,
    masses: Vec<i64>,
    drags: Vec<i64>,
    colors: Vec<Color>,
    forces: Vec<i64>,
    min_distances: Vec<i64>,
    radii: Vec<i64>,
}

impl ParticleTypeManager {
    /// The number of particle types.
    pub closed spec fn spec_type_count(&self) -> usize {
        self.type_count
    }

    /// The mass of type `i`.
    pub closed spec fn mass_at(&self, i: int) -> i64 {
        self.masses@[i]
    }

    /// The drag of type `i`.
    pub closed spec fn drag_at(&self, i: int) -> i64 {
        self.drags@[i]
    }

    /// The display color of type `i`.
    pub closed spec fn color_at(&self, i: int) -> Color {
        self.colors@[i]
    }

    /// The force coefficient of the ordered pair `(a, b)`.
    pub closed spec fn force_at(&self, a: int, b: int) -> i64 {
        self.forces@[a * (self.type_count as int) + b]
    }

    /// The minimum distance of the ordered pair `(a, b)`.
    pub closed spec fn min_distance_at(&self, a: int, b: int) -> i64 {
        self.min_distances@[a * (self.type_count as int) + b]
    }

    /// The interaction radius of the ordered pair `(a, b)`.
    pub closed spec fn radius_at(&self, a: int, b: int) -> i64 {
        self.radii@[a * (self.type_count as int) + b]
    }

    /// Structural soundness: matching lengths and every entry in its
    /// documented range.
    pub closed spec fn wf(&self) -> bool {
        let k = self.type_count as int;
        &&& 1 <= k <= MAX_TYPES as int
        &&& self.masses@.len() == k
        &&& self.drags@.len() == k
        &&& self.colors@.len() == k
        &&& self.forces@.len() == k * k
        &&& self.min_distances@.len() == k * k
        &&& self.radii@.len() == k * k
        &&& forall|i: int| 0 <= i < k ==> MASS_MIN <= #[trigger] self.masses@[i] < MASS_MAX
        &&& forall|i: int| 0 <= i < k ==> DRAG_MIN <= #[trigger] self.drags@[i] < DRAG_MAX
        &&& forall|i: int| 0 <= i < k * k ==> FORCE_MIN <= #[trigger] self.forces@[i] < FORCE_MAX
        &&& forall|i: int| 0 <= i < k * k
            ==> MIN_DISTANCE_MIN <= #[trigger] self.min_distances@[i] < MIN_DISTANCE_MAX
        &&& forall|i: int| 0 <= i < k * k ==> RADIUS_MIN <= #[trigger] self.radii@[i] < RADIUS_MAX
    }

    /// Every entry equals its draw from the stream of `seed`, in the fixed
    /// draw order, and every color its hue-wheel value.
    pub closed spec fn derived_from(&self, seed: u64) -> bool {
        let k = self.type_count as int;
        &&& forall|i: int| 0 <= i < k ==> #[trigger] self.masses@[i] == spec_mass(seed, i)
        &&& forall|i: int| 0 <= i < k ==> #[trigger] self.drags@[i] == spec_drag(seed, i)
        &&& forall|i: int| 0 <= i < k ==> #[trigger] self.colors@[i] == spec_type_color(i, k)
        &&& forall|i: int| 0 <= i < k * k
            ==> #[trigger] self.forces@[i] == spec_draw(seed, 2 * k + i, FORCE_MIN, FORCE_MAX)
        &&& forall|i: int| 0 <= i < k * k
            ==> #[trigger] self.min_distances@[i]
                == spec_draw(seed, 2 * k + k * k + i, MIN_DISTANCE_MIN, MIN_DISTANCE_MAX)
        &&& forall|i: int| 0 <= i < k * k
            ==> #[trigger] self.radii@[i]
                == spec_draw(seed, 2 * k + 2 * (k * k) + i, RADIUS_MIN, RADIUS_MAX)
    }

    /// Derives all parameters for `particle_types_count` types from the
    /// fixed seed [`DEFAULT_SEED`]; repeated construction yields identical
    /// values.
    pub fn new(particle_types_count: usize) -> (m: ParticleTypeManager)
        requires
            1 <= particle_types_count <= MAX_TYPES,
        ensures
            m.wf(),
            m.derived_from(DEFAULT_SEED),
            m.spec_type_count() == particle_types_count,
    {
        ParticleTypeManager::with_seed(particle_types_count, DEFAULT_SEED)
    }

    /// Derives all parameters for `particle_types_count` types from an
    /// explicit seed.
    pub fn with_seed(particle_types_count: usize, seed: u64) -> (m: ParticleTypeManager)
        requires
            1 <= particle_types_count <= MAX_TYPES,
        ensures
            m.wf(),
            m.derived_from(seed),
            m.spec_type_count() == particle_types_count,
    {
        let k: usize = particle_types_count;
        let mut stream: SeedStream = SeedStream::new(seed);
        let mut masses: Vec<i64> = Vec::new();
        let mut drags: Vec<i64> = Vec::new();
        let mut colors: Vec<Color> = Vec::new();
        let mut i: usize = 0;
        while i < k
            invariant
                1 <= k <= MAX_TYPES,
                i <= k,
                stream.spec_seed() == seed,
                stream.spec_drawn() == 2 * i,
                masses@.len() == i,
                drags@.len() == i,
                colors@.len() == i,
                forall|j: int| 0 <= j < i ==> #[trigger] masses@[j] == spec_mass(seed, j),
                forall|j: int| 0 <= j < i ==> #[trigger] drags@[j] == spec_drag(seed, j),
                forall|j: int| 0 <= j < i
                    ==> #[trigger] colors@[j] == spec_type_color(j, k as int),
            decreases k - i,
        {
            masses.push(draw_in_range(&mut stream, MASS_MIN, MASS_MAX));
            drags.push(draw_in_range(&mut stream, DRAG_MIN, DRAG_MAX));
            colors.push(type_color_of(i, k));
            i += 1;
        }
        proof {
            assert(k * k <= 65536) by (nonlinear_arith)
                requires 0 <= k && k <= 256;
        }
        let square: usize = k * k;
        let forces: Vec<i64> = draw_matrix(&mut stream, square, FORCE_MIN, FORCE_MAX);
        let min_distances: Vec<i64> =
            draw_matrix(&mut stream, square, MIN_DISTANCE_MIN, MIN_DISTANCE_MAX);
        let radii: Vec<i64> = draw_matrix(&mut stream, square, RADIUS_MIN, RADIUS_MAX);
        ParticleTypeManager { type_count: k, masses, drags, colors, forces, min_distances, radii }
    }

    /// The number of particle types.
    pub fn type_count(&self) -> (k: usize)
        ensures
            k == self.spec_type_count(),
    {
        self.type_count
    }

    /// The drag factor of a type.
    pub fn get_particle_drag(&self, type_index: usize) -> (r: i64)
        requires
            self.wf(),
            type_index < self.spec_type_count(),
        ensures
            r == self.drag_at(type_index as int),
            DRAG_MIN <= r < DRAG_MAX,
    {
        self.drags[type_index]
    }

    /// The mass of a type.
    pub fn get_particle_mass(&self, type_index: usize) -> (r: i64)
        requires
            self.wf(),
            type_index < self.spec_type_count(),
        ensures
            r == self.mass_at(type_index as int),
            MASS_MIN <= r < MASS_MAX,
    {
        self.masses[type_index]
    }

    /// The display color of a type.
    pub fn get_particle_color(&self, type_index: usize) -> (r: Color)
        requires
            self.wf(),
            type_index < self.spec_type_count(),
        ensures
            r == self.color_at(type_index as int),
    {
        self.colors[type_index]
    }

    /// The minimum (repulsion) distance of an ordered type pair.
    pub fn get_min_distance(&self, type_a: usize, type_b: usize) -> (r: i64)
        requires
            self.wf(),
            type_a < self.spec_type_count(),
            type_b < self.spec_type_count(),
        ensures
            r == self.min_distance_at(type_a as int, type_b as int),
            MIN_DISTANCE_MIN <= r < MIN_DISTANCE_MAX,
    {
        proof {
            lemma_grid_index(type_a as int, type_b as int, self.type_count as int);
        }
        self.min_distances[type_a * self.type_count + type_b]
    }

    /// The signed force coefficient of an ordered type pair.
    pub fn get_forces(&self, type_a: usize, type_b: usize) -> (r: i64)
        requires
            self.wf(),
            type_a < self.spec_type_count(),
            type_b < self.spec_type_count(),
        ensures
            r == self.force_at(type_a as int, type_b as int),
            FORCE_MIN <= r < FORCE_MAX,
    {
        proof {
            lemma_grid_index(type_a as int, type_b as int, self.type_count as int);
        }
        self.forces[type_a * self.type_count + type_b]
    }

    /// The flattened (row-major) force matrix.
    pub closed spec fn forces_flat(&self) -> Seq<i64> {
        self.forces@
    }

    /// The flattened (row-major) minimum-distance matrix.
    pub closed spec fn min_distances_flat(&self) -> Seq<i64> {
        self.min_distances@
    }

    /// The flattened (row-major) radius matrix.
    pub closed spec fn radii_flat(&self) -> Seq<i64> {
        self.radii@
    }

    /// Builds a manager from explicit tables instead of a seed; colors are
    /// still derived from the type count. Returns the manager exactly when
    /// `masses` names the type count, every table has the matching length
    /// and every entry lies in its documented range.
    pub fn from_parts(
        masses: Vec<i64>,
        drags: Vec<i64>,
        forces: Vec<i64>,
        min_distances: Vec<i64>,
        radii: Vec<i64>,
    ) -> (r: Result<ParticleTypeManager, crate::config::ConfigError>)
        ensures
            r is Ok <==> spec_parts_ok(masses@, drags@, forces@, min_distances@, radii@),
            r matches Ok(m) ==> {
                &&& m.wf()
                &&& m.spec_type_count() == masses@.len()
                &&& forall|i: int| 0 <= i < masses@.len()
                    ==> #[trigger] m.mass_at(i) == masses@[i]
                &&& forall|i: int| 0 <= i < masses@.len()
                    ==> #[trigger] m.drag_at(i) == drags@[i]
                &&& forall|i: int| 0 <= i < masses@.len()
                    ==> #[trigger] m.color_at(i) == spec_type_color(i, masses@.len() as int)
                &&& m.forces_flat() == forces@
                &&& m.min_distances_flat() == min_distances@
                &&& m.radii_flat() == radii@
            },
            r matches Err(e) ==> e == crate::config::ConfigError::InvalidTypeParameters,
    {
        let k: usize = masses.len();
        if k == 0 || k > MAX_TYPES {
            return Err(crate::config::ConfigError::InvalidTypeParameters);
        }
        proof {
            assert(k * k <= 65536) by (nonlinear_arith)
                requires 0 <= k && k <= 256;
        }
        let square: usize = k * k;
        if drags.len() != k || forces.len() != square || min_distances.len() != square
            || radii.len() != square {
            return Err(crate::config::ConfigError::InvalidTypeParameters);
        }
        if !all_in_range(&masses, MASS_MIN, MASS_MAX) {
            return Err(crate::config::ConfigError::InvalidTypeParameters);
        }
        if !all_in_range(&drags, DRAG_MIN, DRAG_MAX) {
            return Err(crate::config::ConfigError::InvalidTypeParameters);
        }
        if !all_in_range(&forces, FORCE_MIN, FORCE_MAX) {
            return Err(crate::config::ConfigError::InvalidTypeParameters);
        }
        if !all_in_range(&min_distances, MIN_DISTANCE_MIN, MIN_DISTANCE_MAX) {
            return Err(crate::config::ConfigError::InvalidTypeParameters);
        }
        if !all_in_range(&radii, RADIUS_MIN, RADIUS_MAX) {
            return Err(crate::config::ConfigError::InvalidTypeParameters);
        }
        let mut colors: Vec<Color> = Vec::new();
        let mut i: usize = 0;
        while i < k
            invariant
                1 <= k <= MAX_TYPES,
                i <= k,
                colors@.len() == i,
                forall|j: int| 0 <= j < i
                    ==> #[trigger] colors@[j] == spec_type_color(j, k as int),
            decreases k - i,
        {
            colors.push(type_color_of(i, k));
            i += 1;
        }
        Ok(ParticleTypeManager { type_count: k, masses, drags, colors, forces, min_distances, radii })
    }

    /// The flattened force matrix, row-major, for device upload.
    pub fn get_forces_flattened(&self) -> (r: &Vec<i64>)
        ensures
            r@ == self.forces_flat(),
    {
        &self.forces
    }

    /// The flattened minimum-distance matrix, row-major, for device
    /// upload.
    pub fn get_min_distance_flattened(&self) -> (r: &Vec<i64>)
        ensures
            r@ == self.min_distances_flat(),
    {
        &self.min_distances
    }

    /// The flattened radius matrix, row-major, for device upload.
    pub fn get_radii_flattened(&self) -> (r: &Vec<i64>)
        ensures
            r@ == self.radii_flat(),
    {
        &self.radii
    }

    /// The per-type masses, for device upload.
    pub fn get_masses(&self) -> (r: &Vec<i64>)
        requires
            self.wf(),
        ensures
            r@.len() == self.spec_type_count(),
            forall|i: int| 0 <= i < r@.len() ==> #[trigger] r@[i] == self.mass_at(i),
    {
        &self.masses
    }

    /// The per-type drag factors, for device upload.
    pub fn get_drag(&self) -> (r: &Vec<i64>)
        requires
            self.wf(),
        ensures
            r@.len() == self.spec_type_count(),
            forall|i: int| 0 <= i < r@.len() ==> #[trigger] r@[i] == self.drag_at(i),
    {
        &self.drags
    }

    /// The interaction radius of an ordered type pair.
    pub fn get_radii(&self, type_a: usize, type_b: usize) -> (r: i64)
        requires
            self.wf(),
            type_a < self.spec_type_count(),
            type_b < self.spec_type_count(),
        ensures
            r == self.radius_at(type_a as int, type_b as int),
            RADIUS_MIN <= r < RADIUS_MAX,
    {
        proof {
            lemma_grid_index(type_a as int, type_b as int, self.type_count as int);
        }
        self.radii[type_a * self.type_count + type_b]
    }
}

/// Whether explicit parameter tables are acceptable: `masses` names the
/// type count, the lengths match, and every entry lies in its documented
/// range.
pub open spec fn spec_parts_ok(
    masses: Seq<i64>,
    drags: Seq<i64>,
    forces: Seq<i64>,
    min_distances: Seq<i64>,
    radii: Seq<i64>,
) -> bool {
    let k = masses.len() as int;
    &&& 1 <= k <= MAX_TYPES as int
    &&& drags.len() == k
    &&& forces.len() == k * k
    &&& min_distances.len() == k * k
    &&& radii.len() == k * k
    &&& forall|i: int| 0 <= i < k ==> MASS_MIN <= #[trigger] masses[i] < MASS_MAX
    &&& forall|i: int| 0 <= i < k ==> DRAG_MIN <= #[trigger] drags[i] < DRAG_MAX
    &&& forall|i: int| 0 <= i < k * k ==> FORCE_MIN <= #[trigger] forces[i] < FORCE_MAX
    &&& forall|i: int| 0 <= i < k * k
        ==> MIN_DISTANCE_MIN <= #[trigger] min_distances[i] < MIN_DISTANCE_MAX
    &&& forall|i: int| 0 <= i < k * k ==> RADIUS_MIN <= #[trigger] radii[i] < RADIUS_MAX
}

/// Whether every entry of `v` lies in `[lo, hi)`, checked.
fn all_in_range(v: &Vec<i64>, lo: i64, hi: i64) -> (r: bool)
    ensures
        r <==> forall|i: int| 0 <= i < v@.len() ==> lo <= #[trigger] v@[i] < hi,
{
    let n: usize = v.len();
    let mut i: usize = 0;
    while i < n
        invariant
            i <= n,
            n == v@.len(),
            forall|j: int| 0 <= j < i ==> lo <= #[trigger] v@[j] < hi,
        decreases n - i,
    {
        let x: i64 = v[i];
        if x < lo || x >= hi {
            return false;
        }
        i += 1;
    }
    true
}

/// The ranges that [`ParticleTypeManager::wf`] guarantees of every entry,
/// exposed for reasoning about a manager from outside.
pub proof fn lemma_entry_ranges(m: ParticleTypeManager, a: int, b: int)
    requires
        m.wf(),
        0 <= a < m.spec_type_count(),
        0 <= b < m.spec_type_count(),
    ensures
        MASS_MIN <= m.mass_at(a) < MASS_MAX,
        DRAG_MIN <= m.drag_at(a) < DRAG_MAX,
        FORCE_MIN <= m.force_at(a, b) < FORCE_MAX,
        MIN_DISTANCE_MIN <= m.min_distance_at(a, b) < MIN_DISTANCE_MAX,
        RADIUS_MIN <= m.radius_at(a, b) < RADIUS_MAX,
{
    lemma_grid_index(a, b, m.spec_type_count() as int);
}

/// Determinism of type parameters: two managers derived from the same
/// seed for the same number of types agree on every scalar, every color
/// and every matrix entry — repeated construction yields bit-identical
/// parameters, as the draw order is fixed.
pub proof fn lemma_type_parameters_deterministic(
    m1: ParticleTypeManager,
    m2: ParticleTypeManager,
    seed: u64,
)
    requires
        m1.wf(),
        m2.wf(),
        m1.derived_from(seed),
        m2.derived_from(seed),
        m1.spec_type_count() == m2.spec_type_count(),
    ensures
        forall|i: int| 0 <= i < m1.spec_type_count() ==> #[trigger] m1.mass_at(i)
            == m2.mass_at(i),
        forall|i: int| 0 <= i < m1.spec_type_count() ==> #[trigger] m1.drag_at(i)
            == m2.drag_at(i),
        forall|i: int| 0 <= i < m1.spec_type_count() ==> #[trigger] m1.color_at(i)
            == m2.color_at(i),
        forall|a: int, b: int|
            0 <= a < m1.spec_type_count() && 0 <= b < m1.spec_type_count()
                ==> #[trigger] m1.force_at(a, b) == m2.force_at(a, b),
        forall|a: int, b: int|
            0 <= a < m1.spec_type_count() && 0 <= b < m1.spec_type_count()
                ==> #[trigger] m1.min_distance_at(a, b) == m2.min_distance_at(a, b),
        forall|a: int, b: int|
            0 <= a < m1.spec_type_count() && 0 <= b < m1.spec_type_count()
                ==> #[trigger] m1.radius_at(a, b) == m2.radius_at(a, b),
{
    let k = m1.spec_type_count() as int;
    assert forall|a: int, b: int| 0 <= a < k && 0 <= b < k implies #[trigger] m1.force_at(a, b)
        == m2.force_at(a, b) by {
        lemma_grid_index(a, b, k);
    };
    assert forall|a: int, b: int| 0 <= a < k && 0 <= b < k implies
        #[trigger] m1.min_distance_at(a, b) == m2.min_distance_at(a, b) by {
        lemma_grid_index(a, b, k);
    };
    assert forall|a: int, b: int| 0 <= a < k && 0 <= b < k implies #[trigger] m1.radius_at(a, b)
        == m2.radius_at(a, b) by {
        lemma_grid_index(a, b, k);
    };
}

/// Fills a vector with `n` consecutive draws from the stream, all folded
/// into `[lo, hi)`.
fn draw_matrix(stream: &mut SeedStream, n: usize, lo: i64, hi: i64) -> (v: Vec<i64>)
    requires
        lo < hi,
        -0x2000_0000_0000_0000 <= lo,
        hi <= 0x2000_0000_0000_0000,
    ensures
        v@.len() == n,
        forall|j: int| 0 <= j < n
            ==> #[trigger] v@[j] == spec_draw(old(stream).spec_seed(), old(stream).spec_drawn() + j, lo, hi),
        forall|j: int| 0 <= j < n ==> lo <= #[trigger] v@[j] < hi,
        final(stream).spec_seed() == old(stream).spec_seed(),
        final(stream).spec_drawn() == old(stream).spec_drawn() + n,
{
    let ghost seed: u64 = stream.spec_seed();
    let ghost start: int = stream.spec_drawn();
    let mut v: Vec<i64> = Vec::new();
    let mut j: usize = 0;
    while j < n
        invariant
            j <= n,
            v@.len() == j,
            stream.spec_seed() == seed,
            stream.spec_drawn() == start + j,
            forall|t: int| 0 <= t < j ==> #[trigger] v@[t] == spec_draw(seed, start + t, lo, hi),
            forall|t: int| 0 <= t < j ==> lo <= #[trigger] v@[t] < hi,
            lo < hi,
            -0x2000_0000_0000_0000 <= lo,
            hi <= 0x2000_0000_0000_0000,
        decreases n - j,
    {
        v.push(draw_in_range(stream, lo, hi));
        j += 1;
    }
    v
}

} // verus!
