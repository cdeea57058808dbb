//! The per-tick interaction update.
//!
//! For every particle the engine sums, over all other particles, a
//! close-range repulsion and a mid-range attraction/repulsion given by the
//! type-pair matrices, divides by mass, damps by drag and moves the
//! particle on the torus. The force law here is the single definition all
//! execution strategies compute; backends differ only in how the particle
//! set is partitioned, never in arithmetic.

use vstd::prelude::*;
use crate::config::{ConfigError, MAX_DIMENSION, MAX_THREADS};
use crate::fixed::{
    div_floor, fixed_mul, int_sqrt, isqrt, lemma_component_within_sqrt, lemma_div_magnitude,
    lemma_div_shrink, mod_euclid, remap, SCALE,
};
use crate::params::ParticleTypeManager;
use crate::vector::{lemma_sqrt_magnitude, Vec2};
use crate::world::{valid_particle, Particle, WorldState, VELOCITY_LIMIT};

verus! {

/// Global force scale, roughly 0.05 in fixed point: every pairwise term is
/// damped by this factor.
pub const FORCE_SCALE: i64 = 51;

/// Peak of the close-range repulsion ramp, 1.1 in fixed point.
pub const REPULSION_PEAK: i64 = 1126;

/// Per-axis bound on one pair's contribution to the force sum.
pub const PAIR_TERM_LIMIT: i64 = 1024;

/// Per-axis bound on a whole force sum: `MAX_PARTICLES` pair terms.
pub const NET_FORCE_LIMIT: i64 = 0x400_0000;

/// Per-axis bound on a mass-weighted acceleration.
pub const ACCEL_LIMIT: i64 = 0x1000_0000;

/// The shortest signed way from `a` to `b` on a circle of circumference
/// `dim`: the raw difference, folded by one turn when it exceeds half the
/// circumference in either direction.
pub open spec fn spec_torus_delta(a: int, b: int, dim: int) -> int {
    let d = b - a;
    if 2 * d > dim {
        d - dim
    } else if 2 * d < -dim {
        d + dim
    } else {
        d
    }
}

/// One multiplicative chain of the force law: a unit-vector component times
/// a signed coefficient, a proximity strength and the global scale, each
/// product renormalized by [`SCALE`].
pub open spec fn spec_term(u: int, coeff: int, strength: int) -> int {
    let t1 = u * coeff / (SCALE as int);
    let t2 = t1 * strength / (SCALE as int);
    t2 * (FORCE_SCALE as int) / (SCALE as int)
}

/// The distance between two particles along the torus's shortest path.
pub open spec fn spec_pair_distance(p: Particle, q: Particle, width: int, height: int) -> int {
    let dx = spec_torus_delta(p.pos.x as int, q.pos.x as int, width);
    let dy = spec_torus_delta(p.pos.y as int, q.pos.y as int, height);
    int_sqrt(dx * dx + dy * dy)
}

/// The force the particle `q` exerts on the particle `p`, per axis.
///
/// Both the close-range and the mid-range term use the unit direction from
/// `p` to `q` along the torus's shortest path and a strength that ramps
/// linearly from its peak at distance zero down to zero at the term's
/// reach. The close-range term is always repulsive: its coefficient is six
/// times the magnitude of the pair's, negated. Coincident particles
/// (distance zero) exert nothing.
pub open spec fn spec_pair_force(
    p: Particle,
    q: Particle,
    m: ParticleTypeManager,
    width: int,
    height: int,
) -> (int, int) {
    let dx = spec_torus_delta(p.pos.x as int, q.pos.x as int, width);
    let dy = spec_torus_delta(p.pos.y as int, q.pos.y as int, height);
    let dist = spec_pair_distance(p, q, width, height);
    if dist == 0 {
        (0, 0)
    } else {
        let ux = dx * (SCALE as int) / dist;
        let uy = dy * (SCALE as int) / dist;
        let a = p.type_index as int;
        let b = q.type_index as int;
        let coeff = m.force_at(a, b) as int;
        let md = m.min_distance_at(a, b) as int;
        let rad = m.radius_at(a, b) as int;
        let ca = if coeff < 0 { -coeff } else { coeff };
        let close_strength = (REPULSION_PEAK as int) + dist * (0 - REPULSION_PEAK as int) / md;
        let mid_strength = (SCALE as int) + dist * (0 - SCALE as int) / rad;
        let cx = if dist < md { spec_term(ux, -6 * ca, close_strength) } else { 0 };
        let cy = if dist < md { spec_term(uy, -6 * ca, close_strength) } else { 0 };
        let mx = if dist < rad { spec_term(ux, coeff, mid_strength) } else { 0 };
        let my = if dist < rad { spec_term(uy, coeff, mid_strength) } else { 0 };
        (cx + mx, cy + my)
    }
}

/// The shortest signed way from `a` to `b`, on a circle of circumference
/// `dim`, computed.
pub fn torus_delta(a: i64, b: i64, dim: i64) -> (d: i64)
    requires
        0 <= a < dim,
        0 <= b < dim,
        dim <= MAX_DIMENSION,
    ensures
        d == spec_torus_delta(a as int, b as int, dim as int),
        -dim <= 2 * d <= dim,
        -dim < d < dim,
{
    let raw: i64 = b - a;
    if 2 * raw > dim {
        raw - dim
    } else if 2 * raw < -dim {
        raw + dim
    } else {
        raw
    }
}

/// The force the particle `q` exerts on the particle `p`, computed; each
/// axis matches the force law and stays within [`PAIR_TERM_LIMIT`].
pub fn pair_force(
    p: Particle,
    q: Particle,
    m: &ParticleTypeManager,
    width: i64,
    height: i64,
) -> (f: Vec2)
    requires
        m.wf(),
        SCALE <= width <= MAX_DIMENSION,
        SCALE <= height <= MAX_DIMENSION,
        valid_particle(p, width, height, m.spec_type_count()),
        valid_particle(q, width, height, m.spec_type_count()),
    ensures
        f.x == spec_pair_force(p, q, *m, width as int, height as int).0,
        f.y == spec_pair_force(p, q, *m, width as int, height as int).1,
        -PAIR_TERM_LIMIT <= f.x <= PAIR_TERM_LIMIT,
        -PAIR_TERM_LIMIT <= f.y <= PAIR_TERM_LIMIT,
{
    let dx: i64 = torus_delta(p.pos.x, q.pos.x, width);
    let dy: i64 = torus_delta(p.pos.y, q.pos.y, height);
    proof {
        assert(0 <= dx * dx <= 0x1000_0000_0000_0000 && 0 <= dy * dy <= 0x1000_0000_0000_0000)
            by (nonlinear_arith)
            requires
                -0x4000_0000 <= dx <= 0x4000_0000,
                -0x4000_0000 <= dy <= 0x4000_0000;
    }
    let n2: i64 = dx * dx + dy * dy;
    let dist_w: u64 = isqrt(n2 as u64);
    proof {
        lemma_sqrt_magnitude(n2 as int, dist_w as int, 0x8000_0000);
    }
    let dist: i64 = dist_w as i64;
    if dist == 0 {
        return Vec2 { x: 0, y: 0 };
    }
    proof {
        lemma_component_within_sqrt(dx as int, n2 as int, dist as int);
        lemma_component_within_sqrt(dy as int, n2 as int, dist as int);
        lemma_div_shrink(dx * (SCALE as int), dist as int, SCALE as int);
        lemma_div_shrink(dy * (SCALE as int), dist as int, SCALE as int);
    }
    let ux: i64 = div_floor(dx * SCALE, dist);
    let uy: i64 = div_floor(dy * SCALE, dist);
    let coeff: i64 = m.get_forces(p.type_index, q.type_index);
    let md: i64 = m.get_min_distance(p.type_index, q.type_index);
    let rad: i64 = m.get_radii(p.type_index, q.type_index);
    let ca: i64 = if coeff < 0 { -coeff } else { coeff };
    let mut fx: i64 = 0;
    let mut fy: i64 = 0;
    if dist < md {
        let strength: i64 = remap(dist, 0, md, REPULSION_PEAK, 0);
        proof {
            lemma_div_shrink(dist * (0 - REPULSION_PEAK as int), md as int, REPULSION_PEAK as int);
            lemma_div_magnitude(dist * (0 - REPULSION_PEAK as int), md as int);
        }
        proof {
            assert(-6144 <= -6 * ca <= 6144);
        }
        let tx: i64 = term(ux, -6 * ca, strength, 6144, REPULSION_PEAK);
        let ty: i64 = term(uy, -6 * ca, strength, 6144, REPULSION_PEAK);
        fx = fx + tx;
        fy = fy + ty;
    }
    if dist < rad {
        let strength: i64 = remap(dist, 0, rad, SCALE, 0);
        proof {
            lemma_div_shrink(dist * (0 - SCALE as int), rad as int, SCALE as int);
            lemma_div_magnitude(dist * (0 - SCALE as int), rad as int);
        }
        let tx: i64 = term(ux, coeff, strength, 1024, SCALE);
        let ty: i64 = term(uy, coeff, strength, 1024, SCALE);
        fx = fx + tx;
        fy = fy + ty;
    }
    Vec2 { x: fx, y: fy }
}

/// One force term, computed; `coeff_limit` and `strength_limit` are the
/// caller's magnitude bounds, carried through the chain.
fn term(u: i64, coeff: i64, strength: i64, coeff_limit: i64, strength_limit: i64) -> (t: i64)
    requires
        -SCALE <= u <= SCALE,
        -coeff_limit <= coeff <= coeff_limit,
        0 <= strength <= strength_limit,
        0 < coeff_limit <= 6144,
        0 < strength_limit <= 1664,
    ensures
        t == spec_term(u as int, coeff as int, strength as int),
        -512 <= t <= 512,
{
    proof {
        assert(-1024 * 6144 <= u * coeff <= 1024 * 6144) by (nonlinear_arith)
            requires
                -1024 <= u <= 1024,
                -6144 <= coeff <= 6144;
        lemma_div_shrink(u * coeff, SCALE as int, 6144);
    }
    let t1: i64 = fixed_mul(u, coeff);
    proof {
        assert(-6144 * 1664 <= t1 * strength <= 6144 * 1664) by (nonlinear_arith)
            requires
                -6144 <= t1 <= 6144,
                0 <= strength <= 1664,
        ;
        lemma_div_shrink(t1 * strength, SCALE as int, 9984);
    }
    let t2: i64 = fixed_mul(t1, strength);
    proof {
        assert(-9984 * 51 <= t2 * FORCE_SCALE <= 9984 * 51) by (nonlinear_arith)
            requires -9984 <= t2 <= 9984 && FORCE_SCALE == 51;
        lemma_div_shrink(t2 * (FORCE_SCALE as int), SCALE as int, 498);
    }
    let t3: i64 = fixed_mul(t2, FORCE_SCALE);
    t3
}

/// The sum, over the first `upto` particles other than `i` itself, of the
/// forces they exert on particle `i`.
pub open spec fn spec_net_force(
    ps: Seq<Particle>,
    i: int,
    upto: int,
    m: ParticleTypeManager,
    width: int,
    height: int,
) -> (int, int)
    decreases upto,
{
    if upto <= 0 {
        (0, 0)
    } else {
        let rest = spec_net_force(ps, i, upto - 1, m, width, height);
        if upto - 1 == i {
            rest
        } else {
            let t = spec_pair_force(ps[i], ps[upto - 1], m, width, height);
            (rest.0 + t.0, rest.1 + t.1)
        }
    }
}

/// Particle `i` of the next generation: the full force sum divided by the
/// type's mass, integrated into the velocity, damped by the type's drag,
/// and the position moved by the new velocity and wrapped onto the torus.
pub open spec fn spec_next_particle(
    ps: Seq<Particle>,
    i: int,
    m: ParticleTypeManager,
    width: int,
    height: int,
) -> Particle {
    let p = ps[i];
    let f = spec_net_force(ps, i, ps.len() as int, m, width, height);
    let mass = m.mass_at(p.type_index as int) as int;
    let drag = m.drag_at(p.type_index as int) as int;
    let ax = f.0 * (SCALE as int) / mass;
    let ay = f.1 * (SCALE as int) / mass;
    let vx = (p.vel.x + ax) * drag / (SCALE as int);
    let vy = (p.vel.y + ay) * drag / (SCALE as int);
    let px = (p.pos.x + vx) % (width as int);
    let py = (p.pos.y + vy) % (height as int);
    Particle {
        pos: Vec2 { x: px as i64, y: py as i64 },
        vel: Vec2 { x: vx as i64, y: vy as i64 },
        type_index: p.type_index,
    }
}

/// The whole next generation.
pub open spec fn spec_next_gen(
    ps: Seq<Particle>,
    m: ParticleTypeManager,
    width: int,
    height: int,
) -> Seq<Particle> {
    Seq::new(ps.len(), |i: int| spec_next_particle(ps, i, m, width, height))
}

/// The net force on particle `i` of the previous generation, computed.
pub fn net_force(world: &WorldState, m: &ParticleTypeManager, i: usize) -> (f: Vec2)
    requires
        world.wf(),
        m.wf(),
        m.spec_type_count() == world.spec_type_count(),
        i < world@.len(),
    ensures
        f.x == spec_net_force(world@, i as int, world@.len() as int, *m,
            world.spec_width() as int, world.spec_height() as int).0,
        f.y == spec_net_force(world@, i as int, world@.len() as int, *m,
            world.spec_width() as int, world.spec_height() as int).1,
        -NET_FORCE_LIMIT <= f.x <= NET_FORCE_LIMIT,
        -NET_FORCE_LIMIT <= f.y <= NET_FORCE_LIMIT,
{
    let n: usize = world.len();
    let width: i64 = world.width();
    let height: i64 = world.height();
    let p: Particle = world.get(i);
    let mut fx: i64 = 0;
    let mut fy: i64 = 0;
    let mut j: usize = 0;
    while j < n
        invariant
            world.wf(),
            m.wf(),
            m.spec_type_count() == world.spec_type_count(),
            i < n,
            j <= n,
            n == world@.len(),
            width == world.spec_width(),
            height == world.spec_height(),
            p == world@[i as int],
            fx == spec_net_force(world@, i as int, j as int, *m, width as int, height as int).0,
            fy == spec_net_force(world@, i as int, j as int, *m, width as int, height as int).1,
            -1024 * j <= fx <= 1024 * j,
            -1024 * j <= fy <= 1024 * j,
        decreases n - j,
    {
        if j != i {
            let q: Particle = world.get(j);
            let t: Vec2 = pair_force(p, q, m, width, height);
            fx = fx + t.x;
            fy = fy + t.y;
        }
        j += 1;
    }
    Vec2 { x: fx, y: fy }
}

/// Particle `i` of the next generation, computed; the result is again a
/// valid particle of the same world — this carries the torus invariant
/// from one generation to the next.
pub fn step_particle(world: &WorldState, m: &ParticleTypeManager, i: usize) -> (p: Particle)
    requires
        world.wf(),
        m.wf(),
        m.spec_type_count() == world.spec_type_count(),
        i < world@.len(),
    ensures
        p == spec_next_particle(world@, i as int, *m, world.spec_width() as int,
            world.spec_height() as int),
        valid_particle(p, world.spec_width(), world.spec_height(), world.spec_type_count()),
{
    let width: i64 = world.width();
    let height: i64 = world.height();
    let old_p: Particle = world.get(i);
    let f: Vec2 = net_force(world, m, i);
    let mass: i64 = m.get_particle_mass(old_p.type_index);
    let drag: i64 = m.get_particle_drag(old_p.type_index);
    proof {
        lemma_div_shrink(f.x * (SCALE as int), mass as int, ACCEL_LIMIT as int);
        lemma_div_shrink(f.y * (SCALE as int), mass as int, ACCEL_LIMIT as int);
    }
    let ax: i64 = div_floor(f.x * SCALE, mass);
    let ay: i64 = div_floor(f.y * SCALE, mass);
    proof {
        assert((-(VELOCITY_LIMIT + ACCEL_LIMIT)) * 1023
            <= (old_p.vel.x + ax) * drag
            <= (VELOCITY_LIMIT + ACCEL_LIMIT) * 1023
            && (-(VELOCITY_LIMIT + ACCEL_LIMIT)) * 1023
            <= (old_p.vel.y + ay) * drag
            <= (VELOCITY_LIMIT + ACCEL_LIMIT) * 1023) by (nonlinear_arith)
            requires
                -(VELOCITY_LIMIT + ACCEL_LIMIT) <= old_p.vel.x + ax
                    <= VELOCITY_LIMIT + ACCEL_LIMIT,
                -(VELOCITY_LIMIT + ACCEL_LIMIT) <= old_p.vel.y + ay
                    <= VELOCITY_LIMIT + ACCEL_LIMIT,
                0 <= drag <= 1023;
        assert((VELOCITY_LIMIT + ACCEL_LIMIT) * 1023 <= VELOCITY_LIMIT * 1024 - 1024);
    }
    let vx: i64 = fixed_mul(old_p.vel.x + ax, drag);
    let vy: i64 = fixed_mul(old_p.vel.y + ay, drag);
    proof {
        lemma_div_shrink((old_p.vel.x + ax) * (drag as int), SCALE as int, VELOCITY_LIMIT as int);
        lemma_div_shrink((old_p.vel.y + ay) * (drag as int), SCALE as int, VELOCITY_LIMIT as int);
    }
    let px: i64 = mod_euclid(old_p.pos.x + vx, width);
    let py: i64 = mod_euclid(old_p.pos.y + vy, height);
    Particle {
        pos: Vec2 { x: px, y: py },
        vel: Vec2 { x: vx, y: vy },
        type_index: old_p.type_index,
    }
}

/// The next generation of the contiguous index range `[lo, hi)`, computed
/// against the entire previous generation.
pub fn advance_range(
    world: &WorldState,
    m: &ParticleTypeManager,
    lo: usize,
    hi: usize,
) -> (out: Vec<Particle>)
    requires
        world.wf(),
        m.wf(),
        m.spec_type_count() == world.spec_type_count(),
        lo <= hi <= world@.len(),
    ensures
        out@.len() == hi - lo,
        forall|t: int| 0 <= t < out@.len()
            ==> #[trigger] out@[t] == spec_next_particle(world@, lo + t, *m,
                world.spec_width() as int, world.spec_height() as int),
        forall|t: int| 0 <= t < out@.len()
            ==> valid_particle(#[trigger] out@[t], world.spec_width(), world.spec_height(),
                world.spec_type_count()),
{
    let mut out: Vec<Particle> = Vec::new();
    let mut i: usize = lo;
    while i < hi
        invariant
            world.wf(),
            m.wf(),
            m.spec_type_count() == world.spec_type_count(),
            lo <= i <= hi <= world@.len(),
            out@.len() == i - lo,
            forall|t: int| 0 <= t < out@.len()
                ==> #[trigger] out@[t] == spec_next_particle(world@, lo + t, *m,
                    world.spec_width() as int, world.spec_height() as int),
            forall|t: int| 0 <= t < out@.len()
                ==> valid_particle(#[trigger] out@[t], world.spec_width(),
                    world.spec_height(), world.spec_type_count()),
        decreases hi - i,
    {
        out.push(step_particle(world, m, i));
        i += 1;
    }
    out
}

/// The single-threaded reference strategy: one pass over all particles.
pub struct SequentialBackend;

impl SequentialBackend {
    /// Performs one tick, producing the fully materialized next generation.
    pub fn advance(&self, world: &WorldState, m: &ParticleTypeManager) -> (next: WorldState)
        requires
            world.wf(),
            m.wf(),
            m.spec_type_count() == world.spec_type_count(),
        ensures
            next.wf(),
            next@ == spec_next_gen(world@, *m, world.spec_width() as int,
                world.spec_height() as int),
            next.spec_width() == world.spec_width(),
            next.spec_height() == world.spec_height(),
            next.spec_type_count() == world.spec_type_count(),
    {
        let n: usize = world.len();
        let out: Vec<Particle> = advance_range(world, m, 0, n);
        let next: WorldState = world.with_generation(out);
        proof {
            let gen = spec_next_gen(world@, *m, world.spec_width() as int,
                world.spec_height() as int);
            assert forall|t: int| 0 <= t < next@.len() implies next@[t] == gen[t] by {
                assert(next@[t] == spec_next_particle(world@, 0 + t, *m,
                    world.spec_width() as int, world.spec_height() as int));
            };
            assert(next@ =~= gen);
        }
        next
    }
}

/// Where worker `c` of `workers` starts within `n` particles: the chunks
/// `[split(n, workers, c), split(n, workers, c + 1))` tile `[0, n)` in
/// order, so no particle is ever dropped, whatever the remainder of `n`
/// by `workers`.
pub open spec fn spec_split(n: int, workers: int, c: int) -> int {
    n * c / workers
}

/// The chunk boundaries are monotone and tile `[0, n]`.
pub proof fn lemma_split_range(n: int, workers: int, c: int)
    requires
        0 <= n,
        1 <= workers,
        0 <= c < workers,
    ensures
        0 <= spec_split(n, workers, c),
        spec_split(n, workers, c) <= spec_split(n, workers, c + 1),
        spec_split(n, workers, c + 1) <= n,
        spec_split(n, workers, 0) == 0,
        spec_split(n, workers, workers) == n,
{
    assert(n * 0 == 0 && n * c <= n * (c + 1) && n * (c + 1) <= n * workers)
        by (nonlinear_arith)
        requires 0 <= n && 0 <= c && c < workers;
    vstd::arithmetic::div_mod::lemma_div_is_ordered(n * c, n * (c + 1), workers);
    vstd::arithmetic::div_mod::lemma_div_is_ordered(n * 0, n * c, workers);
    vstd::arithmetic::div_mod::lemma_div_is_ordered(n * (c + 1), n * workers, workers);
    vstd::arithmetic::div_mod::lemma_div_multiples_vanish(n, workers);
    assert(n * workers == workers * n) by (nonlinear_arith);
    assert(spec_split(n, workers, 0) == 0) by {
        assert(n * 0 == 0) by (nonlinear_arith);
        vstd::arithmetic::div_mod::lemma_div_of0(workers);
    };
}

/// The fork-join strategy: the particle range is tiled into one contiguous
/// chunk per worker, every chunk is computed against the entire unmodified
/// previous generation, and the chunk outputs are concatenated in
/// partition order. A remainder of the division of particles by workers is
/// spread over the leading chunks rather than dropped.
pub struct ParallelBackend {
    workers: usize,
}

impl ParallelBackend {
    /// The configured worker count.
    pub closed spec fn spec_workers(&self) -> usize {
        self.workers
    }

    /// Accepts a worker count between one and [`MAX_THREADS`].
    pub fn new(workers: usize) -> (r: Result<ParallelBackend, ConfigError>)
        ensures
            r is Ok <==> 1 <= workers <= MAX_THREADS,
            r matches Ok(b) ==> b.spec_workers() == workers,
            r matches Err(e) ==> e == (if workers == 0 {
                ConfigError::ThreadCountZero
            } else {
                ConfigError::ThreadCountTooLarge
            }),
    {
        if workers == 0 {
            Err(ConfigError::ThreadCountZero)
        } else if workers > MAX_THREADS {
            Err(ConfigError::ThreadCountTooLarge)
        } else {
            Ok(ParallelBackend { workers })
        }
    }

    /// Performs one tick chunk by chunk; the joined result equals the
    /// sequential backend's, particle for particle.
    pub fn advance(&self, world: &WorldState, m: &ParticleTypeManager) -> (next: WorldState)
        requires
            world.wf(),
            m.wf(),
            m.spec_type_count() == world.spec_type_count(),
            1 <= self.spec_workers() <= MAX_THREADS,
        ensures
            next.wf(),
            next@ == spec_next_gen(world@, *m, world.spec_width() as int,
                world.spec_height() as int),
            next.spec_width() == world.spec_width(),
            next.spec_height() == world.spec_height(),
            next.spec_type_count() == world.spec_type_count(),
    {
        let n: usize = world.len();
        let workers: usize = self.workers;
        let mut out: Vec<Particle> = Vec::new();
        let mut c: usize = 0;
        while c < workers
            invariant
                world.wf(),
                m.wf(),
                m.spec_type_count() == world.spec_type_count(),
                1 <= workers <= MAX_THREADS,
                c <= workers,
                n == world@.len(),
                n <= 65536,
                out@.len() == spec_split(n as int, workers as int, c as int),
                out@.len() <= n,
                forall|j: int| 0 <= j < out@.len()
                    ==> #[trigger] out@[j] == spec_next_particle(world@, j, *m,
                        world.spec_width() as int, world.spec_height() as int),
                forall|j: int| 0 <= j < out@.len()
                    ==> valid_particle(#[trigger] out@[j], world.spec_width(),
                        world.spec_height(), world.spec_type_count()),
            decreases workers - c,
        {
            proof {
                lemma_split_range(n as int, workers as int, c as int);
                assert(n * c <= 65536 * 64 && n * (c + 1) <= 65536 * 64) by (nonlinear_arith)
                    requires 0 <= n <= 65536 && 0 <= c && c + 1 <= 64;
            }
            let lo: usize = n * c / workers;
            let hi: usize = n * (c + 1) / workers;
            let mut chunk: Vec<Particle> = advance_range(world, m, lo, hi);
            let ghost prefix: Seq<Particle> = out@;
            let ghost chunk0: Seq<Particle> = chunk@;
            out.append(&mut chunk);
            proof {
                assert forall|j: int| 0 <= j < out@.len() implies #[trigger] out@[j]
                    == spec_next_particle(world@, j, *m, world.spec_width() as int,
                        world.spec_height() as int) by {
                    if j < prefix.len() {
                        assert(out@[j] == prefix[j]);
                    } else {
                        assert(out@[j] == chunk0[j - prefix.len()]);
                        assert(out@[j] == spec_next_particle(world@, lo + (j - lo), *m,
                            world.spec_width() as int, world.spec_height() as int));
                    }
                };
                assert forall|j: int| 0 <= j < out@.len() implies valid_particle(
                    #[trigger] out@[j], world.spec_width(), world.spec_height(),
                    world.spec_type_count()) by {
                    if j < prefix.len() {
                        assert(out@[j] == prefix[j]);
                    } else {
                        assert(out@[j] == chunk0[j - prefix.len()]);
                    }
                };
            }
            c += 1;
        }
        proof {
            lemma_split_range(n as int, workers as int, 0);
        }
        let next: WorldState = world.with_generation(out);
        proof {
            let gen = spec_next_gen(world@, *m, world.spec_width() as int,
                world.spec_height() as int);
            assert(next@ =~= gen);
        }
        next
    }
}

/// How many size-64 workgroups a compute dispatch needs to cover `n`
/// particles: the ceiling of `n / 64`, so that `64` invocations per group
/// reach every particle.
pub fn workgroup_count(n: usize) -> (r: usize)
    requires
        n <= crate::config::MAX_PARTICLES,
    ensures
        r == (n + 63) / 64,
        64 * r >= n,
        n == 0 ==> r == 0,
{
    proof {
        vstd::arithmetic::div_mod::lemma_fundamental_div_mod(n + 63, 64);
    }
    (n + 63) / 64
}

/// Torus invariant: every particle of the next generation of any
/// generation lies inside the torus on both axes. Applied tick after
/// tick, positions never leave `[0, dimension)`.
pub proof fn lemma_torus_invariant(
    ps: Seq<Particle>,
    m: ParticleTypeManager,
    width: int,
    height: int,
    i: int,
)
    requires
        0 < width <= MAX_DIMENSION,
        0 < height <= MAX_DIMENSION,
        0 <= i < ps.len(),
    ensures
        0 <= spec_next_gen(ps, m, width, height)[i].pos.x < width,
        0 <= spec_next_gen(ps, m, width, height)[i].pos.y < height,
{
    let p = ps[i];
    let f = spec_net_force(ps, i, ps.len() as int, m, width, height);
    let mass = m.mass_at(p.type_index as int) as int;
    let drag = m.drag_at(p.type_index as int) as int;
    let ax = f.0 * (SCALE as int) / mass;
    let ay = f.1 * (SCALE as int) / mass;
    let vx = (p.vel.x + ax) * drag / (SCALE as int);
    let vy = (p.vel.y + ay) * drag / (SCALE as int);
    vstd::arithmetic::div_mod::lemma_mod_division_less_than_divisor(p.pos.x + vx, width);
    vstd::arithmetic::div_mod::lemma_mod_division_less_than_divisor(p.pos.y + vy, height);
}

/// Backend equivalence: two generations computed from the same previous
/// generation and the same type parameters are equal particle for
/// particle, because both `advance` operations are proved to return
/// exactly the force law's next generation — for every worker count,
/// whether or not it divides the particle count.
pub proof fn lemma_backends_agree(
    sequential_out: Seq<Particle>,
    parallel_out: Seq<Particle>,
    ps: Seq<Particle>,
    m: ParticleTypeManager,
    width: int,
    height: int,
)
    requires
        sequential_out == spec_next_gen(ps, m, width, height),
        parallel_out == spec_next_gen(ps, m, width, height),
    ensures
        sequential_out == parallel_out,
{
}

/// Wrap-around symmetry: the direction the force law uses is congruent to
/// the raw coordinate difference modulo the dimension, and it is the
/// short way around — never more than half the torus in magnitude. Two
/// particles one unit inside opposite edges are two units apart, not the
/// dimension minus two.
pub proof fn lemma_torus_delta_shortest(a: int, b: int, dim: int)
    requires
        0 < dim,
        0 <= a < dim,
        0 <= b < dim,
    ensures
        -dim <= 2 * spec_torus_delta(a, b, dim) <= dim,
        spec_torus_delta(a, b, dim) == b - a || spec_torus_delta(a, b, dim) == b - a - dim
            || spec_torus_delta(a, b, dim) == b - a + dim,
{
}

/// A neighbor at or past both the pair's interaction radius and its
/// minimum distance exerts nothing on a particle.
pub proof fn lemma_pair_out_of_range(
    p: Particle,
    q: Particle,
    m: ParticleTypeManager,
    width: int,
    height: int,
)
    requires
        spec_pair_distance(p, q, width, height)
            >= m.min_distance_at(p.type_index as int, q.type_index as int),
        spec_pair_distance(p, q, width, height)
            >= m.radius_at(p.type_index as int, q.type_index as int),
    ensures
        spec_pair_force(p, q, m, width, height) == (0int, 0int),
{
}

/// No-neighbor case, general form: when every other particle sits at or
/// past both the interaction radius and the minimum distance of its pair
/// with particle `i`, the net force on `i` over any prefix is zero.
pub proof fn lemma_no_neighbor_in_range(
    ps: Seq<Particle>,
    i: int,
    upto: int,
    m: ParticleTypeManager,
    width: int,
    height: int,
)
    requires
        0 <= i < ps.len(),
        upto <= ps.len(),
        forall|j: int| 0 <= j < ps.len() && j != i ==> {
            &&& spec_pair_distance(ps[i], #[trigger] ps[j], width, height)
                >= m.min_distance_at(ps[i].type_index as int, ps[j].type_index as int)
            &&& spec_pair_distance(ps[i], ps[j], width, height)
                >= m.radius_at(ps[i].type_index as int, ps[j].type_index as int)
        },
    ensures
        spec_net_force(ps, i, upto, m, width, height) == (0int, 0int),
    decreases upto,
{
    if upto > 0 {
        lemma_no_neighbor_in_range(ps, i, upto - 1, m, width, height);
        if upto - 1 != i {
            lemma_pair_out_of_range(ps[i], ps[upto - 1], m, width, height);
        }
    }
}

/// No-neighbor case, velocity form: a particle with no others in range
/// experiences zero net force, so one tick scales each velocity axis by
/// exactly the type's drag factor in fixed point.
pub proof fn lemma_isolated_particle_drag(
    ps: Seq<Particle>,
    i: int,
    m: ParticleTypeManager,
    width: int,
    height: int,
)
    requires
        0 <= i < ps.len(),
        m.wf(),
        ps[i].type_index < m.spec_type_count(),
        -VELOCITY_LIMIT <= ps[i].vel.x <= VELOCITY_LIMIT,
        -VELOCITY_LIMIT <= ps[i].vel.y <= VELOCITY_LIMIT,
        forall|j: int| 0 <= j < ps.len() && j != i ==> {
            &&& spec_pair_distance(ps[i], #[trigger] ps[j], width, height)
                >= m.min_distance_at(ps[i].type_index as int, ps[j].type_index as int)
            &&& spec_pair_distance(ps[i], ps[j], width, height)
                >= m.radius_at(ps[i].type_index as int, ps[j].type_index as int)
        },
    ensures
        spec_next_particle(ps, i, m, width, height).vel.x
            == ps[i].vel.x * m.drag_at(ps[i].type_index as int) / (SCALE as int),
        spec_next_particle(ps, i, m, width, height).vel.y
            == ps[i].vel.y * m.drag_at(ps[i].type_index as int) / (SCALE as int),
{
    crate::params::lemma_entry_ranges(m, ps[i].type_index as int, 0);
    lemma_no_neighbor_in_range(ps, i, ps.len() as int, m, width, height);
    let mass = m.mass_at(ps[i].type_index as int) as int;
    vstd::arithmetic::div_mod::lemma_div_of0(mass);
    assert(0 * (SCALE as int) == 0) by (nonlinear_arith);
    let drag = m.drag_at(ps[i].type_index as int) as int;
    assert(-VELOCITY_LIMIT * 1023 <= ps[i].vel.x * drag <= VELOCITY_LIMIT * 1023
        && -VELOCITY_LIMIT * 1023 <= ps[i].vel.y * drag <= VELOCITY_LIMIT * 1023)
        by (nonlinear_arith)
        requires
            -VELOCITY_LIMIT <= ps[i].vel.x <= VELOCITY_LIMIT,
            -VELOCITY_LIMIT <= ps[i].vel.y <= VELOCITY_LIMIT,
            0 <= drag <= 1023;
    lemma_div_shrink(ps[i].vel.x * drag, SCALE as int, VELOCITY_LIMIT as int);
    lemma_div_shrink(ps[i].vel.y * drag, SCALE as int, VELOCITY_LIMIT as int);
}

/// No-neighbor case: in a world of a single particle the net force is
/// zero, and one tick scales each velocity axis by exactly the type's
/// drag factor in fixed point.
pub proof fn lemma_single_particle_drag(
    ps: Seq<Particle>,
    m: ParticleTypeManager,
    width: int,
    height: int,
)
    requires
        ps.len() == 1,
        m.wf(),
        ps[0].type_index < m.spec_type_count(),
        -VELOCITY_LIMIT <= ps[0].vel.x <= VELOCITY_LIMIT,
        -VELOCITY_LIMIT <= ps[0].vel.y <= VELOCITY_LIMIT,
    ensures
        spec_net_force(ps, 0, 1, m, width, height) == (0int, 0int),
        spec_next_particle(ps, 0, m, width, height).vel.x
            == ps[0].vel.x * m.drag_at(ps[0].type_index as int) / (SCALE as int),
        spec_next_particle(ps, 0, m, width, height).vel.y
            == ps[0].vel.y * m.drag_at(ps[0].type_index as int) / (SCALE as int),
{
    lemma_no_neighbor_in_range(ps, 0, 1, m, width, height);
    lemma_isolated_particle_drag(ps, 0, m, width, height);
}

} // verus!
