use noisy::simplex::{simplex2_middle, simplex3_middle};
use noisy::Simplex;
use rand::{Isaac64Rng, IsaacRng, OsRng, Rng, SeedableRng, StdRng, XorShiftRng};

#[test]
fn test_simplex_new() {
    for _ in 0..10000 {
        let simplex1 = Simplex::new();
        let simplex2 = Simplex::new();

        assert!(simplex1 != simplex2);
    }
}

#[test]
fn simplex_test_simplex_new() {
    Simplex::new();
}

#[test]
fn test_simplex_from_osrng() {
    for _ in 0..10 {
        let mut rng = match OsRng::new() {
            Ok(r) => r,
            Err(e) => panic!("Failed to create RNG: {}", e),
        };

        Simplex::from_rng(&mut rng);
    }
}

#[test]
fn test_simplex_from_stdrng() {
    for _ in 0..10 {
        let mut rng = match StdRng::new() {
            Ok(r) => r,
            Err(e) => panic!("Failed to create RNG: {}", e),
        };

        Simplex::from_rng(&mut rng);
    }
}

#[test]
fn test_simplex_from_isaacrng() {
    for _ in 0..10000 {
        let mut rng: IsaacRng = match OsRng::new() {
            Ok(mut r) => r.gen(),
            Err(e) => panic!("Failed to create seeded RNG: {}", e),
        };

        Simplex::from_rng(&mut rng);
    }
}

#[test]
fn test_simplex_from_isaac64rng() {
    for _ in 0..10000 {
        let mut rng: Isaac64Rng = match OsRng::new() {
            Ok(mut r) => r.gen(),
            Err(e) => panic!("Failed to create seeded RNG: {}", e),
        };

        Simplex::from_rng(&mut rng);
    }
}

#[test]
fn test_simplex_from_xorshiftrng() {
    for _ in 0..10000 {
        let mut rng: XorShiftRng = match OsRng::new() {
            Ok(mut r) => r.gen(),
            Err(e) => panic!("Failed to create seeded RNG: {}", e),
        };

        Simplex::from_rng(&mut rng);
    }
}

#[test]
fn test_simplex_from_taskrng() {
    for _ in 0..10 {
        let mut task_rng = rand::thread_rng();

        Simplex::from_rng(&mut task_rng);
    }
}

#[test]
fn test_simplex_from_threadrng() {
    let mut thread_rng = rand::thread_rng();

    Simplex::from_rng(&mut thread_rng);
}

#[test]
fn simplex_from_seeded_rng_is_deterministic() {
    let seed: &[usize] = &[1337];
    let mut rng1: StdRng = SeedableRng::from_seed(seed);
    let mut rng2: StdRng = SeedableRng::from_seed(seed);
    let simplex1 = Simplex::from_rng(&mut rng1);
    let simplex2 = Simplex::from_rng(&mut rng2);
    assert!(simplex1 == simplex2);
    for i in -16i64..16 {
        for j in -16i64..16 {
            assert_eq!(
                simplex1.hash2(i, 1, j, 0),
                simplex2.hash2(i, 1, j, 0)
            );
            assert_eq!(
                simplex1.hash3(i, 0, j, 1, j, 1),
                simplex2.hash3(i, 0, j, 1, j, 1)
            );
        }
    }
}

#[test]
fn simplex_hash_chains_are_exact() {
    let base: Vec<u8> = (0u16..256).map(|i| i as u8).collect();
    let simplex = Simplex::from_bytes(&base);
    // With the identity base, corner c hashes to c mod 256 at every depth.
    assert_eq!(simplex.hash1(41, 1), 42);
    assert_eq!(simplex.hash2(40, 1, 20, 1), 62);
    assert_eq!(simplex.hash3(10, 1, 20, 1, 30, 1), 63);
    // The offset form and the pre-stepped form hash alike.
    assert_eq!(simplex.hash2(40, 1, 20, 1), simplex.hash2(41, 0, 21, 0));
}

#[test]
fn simplex2_middle_picks_the_triangle() {
    assert_eq!(simplex2_middle(true), (1, 0));
    assert_eq!(simplex2_middle(false), (0, 1));
}

#[test]
fn simplex3_middle_picks_the_tetrahedron() {
    // x >= y >= z.
    assert_eq!(simplex3_middle(true, true, true), ((1, 0, 0), (1, 1, 0)));
    // x >= z > y.
    assert_eq!(simplex3_middle(true, false, true), ((1, 0, 0), (1, 0, 1)));
    // z > x >= y.
    assert_eq!(simplex3_middle(true, false, false), ((0, 0, 1), (1, 0, 1)));
    // z >= y > x.
    assert_eq!(simplex3_middle(false, false, false), ((0, 0, 1), (0, 1, 1)));
    // y >= z > x.
    assert_eq!(simplex3_middle(false, true, false), ((0, 1, 0), (0, 1, 1)));
    // y > x >= z.
    assert_eq!(simplex3_middle(false, true, true), ((0, 1, 0), (1, 1, 0)));
}
