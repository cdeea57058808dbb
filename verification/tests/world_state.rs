use particle_life::config::{ConfigError, SimConfig};
use particle_life::vector::Vec2;
use particle_life::world::{Particle, WorldState, VELOCITY_LIMIT};

#[test]
fn config_rejects_each_bad_setting() {
    assert_eq!(
        SimConfig::new(100, 100, 0, 3).err(),
        Some(ConfigError::ParticleCountZero)
    );
    assert_eq!(
        SimConfig::new(100, 100, 70000, 3).err(),
        Some(ConfigError::ParticleCountTooLarge)
    );
    assert_eq!(
        SimConfig::new(100, 100, 10, 0).err(),
        Some(ConfigError::TypeCountZero)
    );
    assert_eq!(
        SimConfig::new(100, 100, 10, 300).err(),
        Some(ConfigError::TypeCountTooLarge)
    );
    assert_eq!(
        SimConfig::new(0, 100, 10, 3).err(),
        Some(ConfigError::DimensionZero)
    );
    assert_eq!(
        SimConfig::new(100, 0, 10, 3).err(),
        Some(ConfigError::DimensionZero)
    );
    assert_eq!(
        SimConfig::new(0x20_0000, 100, 10, 3).err(),
        Some(ConfigError::DimensionTooLarge)
    );
}

#[test]
fn config_holds_fixed_point_dimensions() {
    let c = SimConfig::new(200, 150, 10, 3).expect("valid settings");
    assert_eq!(c.width(), 200 * 1024);
    assert_eq!(c.height(), 150 * 1024);
    assert_eq!(c.particle_count(), 10);
    assert_eq!(c.type_count(), 3);
}

#[test]
fn init_is_deterministic_in_the_seed() {
    let c = SimConfig::new(300, 200, 40, 4).expect("valid settings");
    let w1 = WorldState::init(&c, 9);
    let w2 = WorldState::init(&c, 9);
    assert_eq!(w1.snapshot(), w2.snapshot());
}

#[test]
fn init_places_particles_on_the_torus_at_rest() {
    let c = SimConfig::new(300, 200, 50, 4).expect("valid settings");
    let w = WorldState::init(&c, 123);
    let snap = w.snapshot();
    assert_eq!(snap.len(), 50);
    for p in &snap {
        assert!(0 <= p.pos.x && p.pos.x < 300 * 1024);
        assert!(0 <= p.pos.y && p.pos.y < 200 * 1024);
        assert_eq!(p.vel, Vec2 { x: 0, y: 0 });
        assert!(p.type_index < 4);
    }
}

#[test]
fn snapshot_is_idempotent() {
    let c = SimConfig::new(120, 120, 8, 2).expect("valid settings");
    let w = WorldState::init(&c, 5);
    assert_eq!(w.snapshot(), w.snapshot());
}

#[test]
fn from_parts_rejects_a_particle_off_the_torus() {
    let c = SimConfig::new(100, 100, 1, 1).expect("valid settings");
    let p = Particle {
        pos: Vec2 { x: 100 * 1024, y: 0 }, // exactly on the far edge: outside
        vel: Vec2 { x: 0, y: 0 },
        type_index: 0,
    };
    let r = WorldState::from_parts(&c, vec![p]);
    assert_eq!(r.err(), Some(ConfigError::InvalidParticle));
}

#[test]
fn from_parts_rejects_an_overfast_particle() {
    let c = SimConfig::new(100, 100, 1, 1).expect("valid settings");
    let p = Particle {
        pos: Vec2 { x: 0, y: 0 },
        vel: Vec2 { x: VELOCITY_LIMIT + 1, y: 0 },
        type_index: 0,
    };
    let r = WorldState::from_parts(&c, vec![p]);
    assert_eq!(r.err(), Some(ConfigError::InvalidParticle));
}

#[test]
fn from_parts_rejects_an_unknown_type() {
    let c = SimConfig::new(100, 100, 1, 2).expect("valid settings");
    let p = Particle {
        pos: Vec2 { x: 0, y: 0 },
        vel: Vec2 { x: 0, y: 0 },
        type_index: 2,
    };
    let r = WorldState::from_parts(&c, vec![p]);
    assert_eq!(r.err(), Some(ConfigError::InvalidParticle));
}

#[test]
fn from_parts_accepts_a_valid_generation() {
    let c = SimConfig::new(100, 100, 2, 2).expect("valid settings");
    let ps = vec![
        Particle { pos: Vec2 { x: 0, y: 0 }, vel: Vec2 { x: 10, y: -10 }, type_index: 0 },
        Particle { pos: Vec2 { x: 51199, y: 1 }, vel: Vec2 { x: 0, y: 0 }, type_index: 1 },
    ];
    let w = WorldState::from_parts(&c, ps.clone()).expect("particles are valid");
    assert_eq!(w.snapshot(), ps);
    assert_eq!(w.len(), 2);
    assert_eq!(w.width(), 100 * 1024);
}
