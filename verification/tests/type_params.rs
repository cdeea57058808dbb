use particle_life::config::ConfigError;
use particle_life::params::{
    ParticleTypeManager, DRAG_MAX, DRAG_MIN, FORCE_MAX, FORCE_MIN, MASS_MAX, MASS_MIN,
    MIN_DISTANCE_MAX, MIN_DISTANCE_MIN, RADIUS_MAX, RADIUS_MIN,
};

#[test]
fn repeated_construction_is_bit_identical() {
    let k: usize = 5;
    let m1 = ParticleTypeManager::new(k);
    let m2 = ParticleTypeManager::new(k);
    for i in 0..k {
        assert_eq!(m1.get_particle_mass(i), m2.get_particle_mass(i));
        assert_eq!(m1.get_particle_drag(i), m2.get_particle_drag(i));
        assert_eq!(m1.get_particle_color(i), m2.get_particle_color(i));
        for j in 0..k {
            assert_eq!(m1.get_forces(i, j), m2.get_forces(i, j));
            assert_eq!(m1.get_min_distance(i, j), m2.get_min_distance(i, j));
            assert_eq!(m1.get_radii(i, j), m2.get_radii(i, j));
        }
    }
}

#[test]
fn all_entries_lie_in_their_documented_ranges() {
    let k: usize = 7;
    let m = ParticleTypeManager::new(k);
    for i in 0..k {
        assert!(MASS_MIN <= m.get_particle_mass(i) && m.get_particle_mass(i) < MASS_MAX);
        assert!(DRAG_MIN <= m.get_particle_drag(i) && m.get_particle_drag(i) < DRAG_MAX);
        for j in 0..k {
            assert!(FORCE_MIN <= m.get_forces(i, j) && m.get_forces(i, j) < FORCE_MAX);
            assert!(
                MIN_DISTANCE_MIN <= m.get_min_distance(i, j)
                    && m.get_min_distance(i, j) < MIN_DISTANCE_MAX
            );
            assert!(RADIUS_MIN <= m.get_radii(i, j) && m.get_radii(i, j) < RADIUS_MAX);
        }
    }
}

#[test]
fn the_stream_is_not_constant() {
    let k: usize = 8;
    let m = ParticleTypeManager::new(k);
    let first = m.get_forces(0, 0);
    let mut all_equal = true;
    for i in 0..k {
        for j in 0..k {
            if m.get_forces(i, j) != first {
                all_equal = false;
            }
        }
    }
    assert!(!all_equal);
}

#[test]
fn different_seeds_give_different_matrices() {
    let k: usize = 6;
    let m1 = ParticleTypeManager::with_seed(k, 1);
    let m2 = ParticleTypeManager::with_seed(k, 2);
    let mut any_differ = false;
    for i in 0..k {
        for j in 0..k {
            if m1.get_forces(i, j) != m2.get_forces(i, j) {
                any_differ = true;
            }
        }
    }
    assert!(any_differ);
}

#[test]
fn colors_walk_the_hue_wheel_from_red() {
    let m = ParticleTypeManager::new(6);
    let c0 = m.get_particle_color(0);
    assert_eq!((c0.red, c0.green, c0.blue, c0.alpha), (1024, 0, 0, 1024));
    let c1 = m.get_particle_color(1);
    assert_eq!((c1.red, c1.green, c1.blue, c1.alpha), (1024, 1024, 0, 1024));
    let c2 = m.get_particle_color(2);
    assert_eq!((c2.red, c2.green, c2.blue, c2.alpha), (0, 1024, 0, 1024));
    let c3 = m.get_particle_color(3);
    assert_eq!((c3.red, c3.green, c3.blue, c3.alpha), (0, 1024, 1024, 1024));
}

fn small_tables() -> (Vec<i64>, Vec<i64>, Vec<i64>, Vec<i64>, Vec<i64>) {
    (
        vec![1024, 1536],
        vec![1000, 960],
        vec![0, 512, -512, 100],
        vec![10240, 10240, 10240, 10240],
        vec![102400, 102400, 102400, 102400],
    )
}

#[test]
fn from_parts_accepts_valid_tables() {
    let (masses, drags, forces, min_distances, radii) = small_tables();
    let m = ParticleTypeManager::from_parts(masses, drags, forces, min_distances, radii)
        .expect("tables are valid");
    assert_eq!(m.type_count(), 2);
    assert_eq!(m.get_particle_mass(1), 1536);
    assert_eq!(m.get_particle_drag(0), 1000);
    assert_eq!(m.get_forces(0, 1), 512);
    assert_eq!(m.get_forces(1, 0), -512);
    assert_eq!(m.get_min_distance(1, 1), 10240);
    assert_eq!(m.get_radii(0, 0), 102400);
}

#[test]
fn from_parts_rejects_wrong_lengths() {
    let (masses, drags, forces, min_distances, mut radii) = small_tables();
    radii.pop();
    let r = ParticleTypeManager::from_parts(masses, drags, forces, min_distances, radii);
    assert_eq!(r.err(), Some(ConfigError::InvalidTypeParameters));
}

#[test]
fn from_parts_rejects_out_of_range_entries() {
    let (masses, drags, mut forces, min_distances, radii) = small_tables();
    forces[2] = -2048; // below the force range
    let r = ParticleTypeManager::from_parts(masses, drags, forces, min_distances, radii);
    assert_eq!(r.err(), Some(ConfigError::InvalidTypeParameters));
}

#[test]
fn from_parts_rejects_empty_tables() {
    let r = ParticleTypeManager::from_parts(vec![], vec![], vec![], vec![], vec![]);
    assert_eq!(r.err(), Some(ConfigError::InvalidTypeParameters));
}
