use particle_life::rng::{draw_in_range, SeedStream};
use particle_life::vector::{random_vec, Vec2};

#[test]
fn equal_seeds_give_equal_streams() {
    let mut s1 = SeedStream::new(42);
    let mut s2 = SeedStream::new(42);
    for _ in 0..100 {
        assert_eq!(s1.next_word(), s2.next_word());
    }
}

#[test]
fn a_stream_is_not_constant() {
    let mut s = SeedStream::new(1);
    let first = s.next_word();
    let mut any_differ = false;
    for _ in 0..64 {
        if s.next_word() != first {
            any_differ = true;
        }
    }
    assert!(any_differ);
}

#[test]
fn draws_land_in_their_range() {
    let mut s = SeedStream::new(7);
    for _ in 0..200 {
        let v = draw_in_range(&mut s, -50, 50);
        assert!(-50 <= v && v < 50);
    }
}

#[test]
fn random_vectors_land_in_their_range() {
    let mut s = SeedStream::new(11);
    for _ in 0..100 {
        let v = random_vec(&mut s, 0, 1024);
        assert!(0 <= v.x && v.x < 1024);
        assert!(0 <= v.y && v.y < 1024);
    }
}

#[test]
fn vector_arithmetic_is_componentwise() {
    let a = Vec2 { x: 2048, y: -1024 };
    let b = Vec2 { x: 512, y: 512 };
    assert_eq!(a.add(b), Vec2 { x: 2560, y: -512 });
    assert_eq!(a.sub(b), Vec2 { x: 1536, y: -1536 });
    assert_eq!(a.add_scalar(10), Vec2 { x: 2058, y: -1014 });
    assert_eq!(a.sub_scalar(10), Vec2 { x: 2038, y: -1034 });
    // Fixed-point products scale back down by 1024.
    assert_eq!(a.mul_scalar(512), Vec2 { x: 1024, y: -512 });
    assert_eq!(a.mul_hadamard(b), Vec2 { x: 1024, y: -512 });
    // Fixed-point division: 2.0 / 2.0 == 1.0, -1.0 / 2.0 == -0.5.
    assert_eq!(a.div_scalar(2048), Vec2 { x: 1024, y: -512 });
}

#[test]
fn normalize_yields_a_fixed_point_unit_vector() {
    let v = Vec2 { x: 300, y: 400 }.normalize();
    assert_eq!(v, Vec2 { x: 614, y: 819 }); // 0.6 and 0.8 in fixed point
    let w = Vec2 { x: -5120, y: 0 }.normalize();
    assert_eq!(w, Vec2 { x: -1024, y: 0 });
}

#[test]
fn vector_length_is_the_integer_euclidean_norm() {
    assert_eq!(Vec2 { x: 3, y: 4 }.len(), 5);
    assert_eq!(Vec2 { x: -3, y: 4 }.len(), 5);
    assert_eq!(Vec2 { x: 0, y: 0 }.len(), 0);
    assert_eq!(Vec2 { x: 1024, y: 0 }.len(), 1024);
    // 1.0 by 1.0 has length just over 1.414.
    assert_eq!(Vec2 { x: 1024, y: 1024 }.len(), 1448);
}
