use particle_life::config::SimConfig;
use particle_life::engine::{
    pair_force, torus_delta, workgroup_count, ParallelBackend, SequentialBackend,
};
use particle_life::params::ParticleTypeManager;
use particle_life::scene::{choose_backend, Backend, UpdateEngine};
use particle_life::vector::Vec2;
use particle_life::world::{Particle, WorldState};

#[test]
fn wraparound_takes_the_short_path() {
    // One particle one unit inside each of two opposite edges of a
    // 100-unit torus: the direction is two units, not ninety-eight.
    let dim: i64 = 100 * 1024;
    let d = torus_delta(1 * 1024, 99 * 1024, dim);
    assert_eq!(d, -2 * 1024);
    let d_back = torus_delta(99 * 1024, 1 * 1024, dim);
    assert_eq!(d_back, 2 * 1024);
    // Within half the torus the raw difference is kept.
    assert_eq!(torus_delta(10 * 1024, 40 * 1024, dim), 30 * 1024);
}

fn attraction_world() -> (SimConfig, ParticleTypeManager, WorldState) {
    // Two types; the only nonzero coefficient makes type 0 attracted to
    // type 1 with force 0.5 inside a 100-unit radius.
    let config = SimConfig::new(200, 200, 2, 2).expect("valid settings");
    let params = ParticleTypeManager::from_parts(
        vec![1024, 1024],                         // masses: 1.0
        vec![1023, 1023],                         // drag: just under 1.0
        vec![0, 512, 0, 0],                       // force(0,1) = 0.5
        vec![10240, 10240, 10240, 10240],         // min distance: 10 units
        vec![102400, 102400, 102400, 102400],     // radius: 100 units
    )
    .expect("tables are valid");
    let world = WorldState::from_parts(
        &config,
        vec![
            Particle {
                pos: Vec2 { x: 10 * 1024, y: 50 * 1024 },
                vel: Vec2 { x: 0, y: 0 },
                type_index: 0,
            },
            Particle {
                pos: Vec2 { x: 60 * 1024, y: 50 * 1024 },
                vel: Vec2 { x: 0, y: 0 },
                type_index: 1,
            },
        ],
    )
    .expect("particles are valid");
    (config, params, world)
}

#[test]
fn attraction_at_half_radius_matches_the_ramp() {
    // Distance 50 of radius 100: the ramp strength is 0.5, so the term is
    // unit * 0.5 (coefficient) * 0.5 (ramp) * 51/1024 (global scale):
    // floor(256 * 51 / 1024) = 12; after mass 1.0 and drag 1023/1024 the
    // velocity of the type-0 particle is +11 toward its neighbor.
    let (_config, params, world) = attraction_world();
    let next = SequentialBackend.advance(&world, &params);
    let snap = next.snapshot();
    assert_eq!(snap[0].vel, Vec2 { x: 11, y: 0 });
    assert_eq!(snap[0].pos, Vec2 { x: 10 * 1024 + 11, y: 50 * 1024 });
    // The reverse coefficient is zero: the type-1 particle never moves.
    assert_eq!(snap[1].vel, Vec2 { x: 0, y: 0 });
    assert_eq!(snap[1].pos, Vec2 { x: 60 * 1024, y: 50 * 1024 });
}

#[test]
fn pair_force_points_toward_the_attractor() {
    let (_config, params, world) = attraction_world();
    let snap = world.snapshot();
    let f = pair_force(snap[0], snap[1], &params, 200 * 1024, 200 * 1024);
    assert_eq!(f, Vec2 { x: 12, y: 0 });
}

#[test]
fn single_particle_keeps_only_damped_velocity() {
    let config = SimConfig::new(100, 100, 1, 1).expect("valid settings");
    let params = ParticleTypeManager::from_parts(
        vec![1024],
        vec![1023],
        vec![512],
        vec![10240],
        vec![102400],
    )
    .expect("tables are valid");
    let world = WorldState::from_parts(
        &config,
        vec![Particle {
            pos: Vec2 { x: 50 * 1024, y: 50 * 1024 },
            vel: Vec2 { x: 5000, y: -3000 },
            type_index: 0,
        }],
    )
    .expect("particle is valid");
    let next = SequentialBackend.advance(&world, &params);
    let snap = next.snapshot();
    // velocity * 1023 / 1024, rounded toward negative infinity
    assert_eq!(snap[0].vel, Vec2 { x: 4995, y: -2998 });
    assert_eq!(
        snap[0].pos,
        Vec2 { x: 50 * 1024 + 4995, y: 50 * 1024 - 2998 }
    );
}

#[test]
fn close_range_term_pushes_particles_apart() {
    // One type attracted to itself (coefficient 0.5), but the two
    // particles sit five units apart, inside the ten-unit minimum
    // distance: the sixfold repulsion outweighs the attraction and they
    // move apart along the axis that separates them.
    let config = SimConfig::new(200, 200, 2, 1).expect("valid settings");
    let params = ParticleTypeManager::from_parts(
        vec![1024],
        vec![1023],
        vec![512],
        vec![10240],
        vec![102400],
    )
    .expect("tables are valid");
    let world = WorldState::from_parts(
        &config,
        vec![
            Particle {
                pos: Vec2 { x: 50 * 1024, y: 50 * 1024 },
                vel: Vec2 { x: 0, y: 0 },
                type_index: 0,
            },
            Particle {
                pos: Vec2 { x: 55 * 1024, y: 50 * 1024 },
                vel: Vec2 { x: 0, y: 0 },
                type_index: 0,
            },
        ],
    )
    .expect("particles are valid");
    let next = SequentialBackend.advance(&world, &params);
    let snap = next.snapshot();
    assert!(snap[0].vel.x < 0, "the left particle must move further left");
    assert!(snap[1].vel.x > 0, "the right particle must move further right");
    assert_eq!(snap[0].vel, Vec2 { x: -61, y: 0 });
    assert_eq!(snap[1].vel, Vec2 { x: 58, y: 0 });
    assert_eq!(snap[0].pos, Vec2 { x: 50 * 1024 - 61, y: 50 * 1024 });
    assert_eq!(snap[1].pos, Vec2 { x: 55 * 1024 + 58, y: 50 * 1024 });
}

#[test]
fn backends_agree_even_with_a_remainder() {
    // Ten particles over three workers: the chunking has a remainder and
    // still no particle is dropped or changed differently.
    let config = SimConfig::new(300, 300, 10, 4).expect("valid settings");
    let params = ParticleTypeManager::new(4);
    let world = WorldState::init(&config, 77);
    let sequential = SequentialBackend.advance(&world, &params);
    let parallel = ParallelBackend::new(3)
        .expect("worker count is valid")
        .advance(&world, &params);
    assert_eq!(sequential.snapshot(), parallel.snapshot());
}

#[test]
fn backends_agree_for_every_worker_count() {
    let config = SimConfig::new(250, 180, 12, 3).expect("valid settings");
    let params = ParticleTypeManager::new(3);
    let world = WorldState::init(&config, 5);
    let reference = SequentialBackend.advance(&world, &params).snapshot();
    for workers in 1..=16 {
        let parallel = ParallelBackend::new(workers)
            .expect("worker count is valid")
            .advance(&world, &params);
        assert_eq!(parallel.snapshot(), reference);
    }
}

#[test]
fn a_tick_wraps_positions_across_the_edge() {
    let config = SimConfig::new(100, 100, 1, 1).expect("valid settings");
    let params = ParticleTypeManager::from_parts(
        vec![1024],
        vec![1023],
        vec![0],
        vec![10240],
        vec![102400],
    )
    .expect("tables are valid");
    let world = WorldState::from_parts(
        &config,
        vec![Particle {
            pos: Vec2 { x: 1000, y: 0 },
            vel: Vec2 { x: -5000, y: 0 },
            type_index: 0,
        }],
    )
    .expect("particle is valid");
    let next = SequentialBackend.advance(&world, &params);
    let snap = next.snapshot();
    // -5000 damped by 1023/1024 floors to -4996; the position leaves the
    // torus on the left and reappears on the right.
    assert_eq!(snap[0].vel, Vec2 { x: -4996, y: 0 });
    assert_eq!(snap[0].pos, Vec2 { x: 100 * 1024 - 3996, y: 0 });
}

#[test]
fn positions_stay_on_the_torus_over_many_ticks() {
    let config = SimConfig::new(160, 90, 30, 5).expect("valid settings");
    let backend = choose_backend(None).expect("sequential backend");
    let mut engine = UpdateEngine::new(config, backend, 42);
    for _ in 0..25 {
        engine.advance();
        for p in engine.snapshot() {
            assert!(0 <= p.pos.x && p.pos.x < 160 * 1024);
            assert!(0 <= p.pos.y && p.pos.y < 90 * 1024);
        }
    }
}

#[test]
fn engine_snapshot_is_stable_between_ticks() {
    let config = SimConfig::new(100, 100, 6, 2).expect("valid settings");
    let backend = choose_backend(Some(2)).expect("parallel backend");
    let mut engine = UpdateEngine::new(config, backend, 1);
    engine.advance();
    assert_eq!(engine.snapshot(), engine.snapshot());
}

#[test]
fn new_world_swaps_parameters_but_not_particles() {
    let config = SimConfig::new(100, 100, 6, 3).expect("valid settings");
    let backend = choose_backend(None).expect("sequential backend");
    let mut engine = UpdateEngine::new(config, backend, 8);
    let before = engine.snapshot();
    engine.new_world(99);
    assert_eq!(engine.snapshot(), before);
}

#[test]
fn backend_choice_validates_worker_counts() {
    assert!(matches!(choose_backend(None), Ok(Backend::Sequential(_))));
    assert!(matches!(choose_backend(Some(8)), Ok(Backend::Parallel(_))));
    assert!(choose_backend(Some(0)).is_err());
    assert!(choose_backend(Some(1000)).is_err());
}

#[test]
fn workgroups_cover_every_particle() {
    assert_eq!(workgroup_count(0), 0);
    assert_eq!(workgroup_count(1), 1);
    assert_eq!(workgroup_count(64), 1);
    assert_eq!(workgroup_count(65), 2);
    assert_eq!(workgroup_count(30_000), 469);
}
