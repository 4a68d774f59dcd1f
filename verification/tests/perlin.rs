use noisy::Perlin;
use rand::{Isaac64Rng, IsaacRng, OsRng, Rng, SeedableRng, StdRng, XorShiftRng};

#[test]
fn test_perlin_new() {
    Perlin::new();
}

#[test]
fn test_perlin_from_osrng() {
    let mut rng = match OsRng::new() {
        Ok(r) => r,
        Err(e) => panic!("Failed to create RNG: {}", e),
    };
    Perlin::from_rng(&mut rng);
}

#[test]
fn test_perlin_from_stdrng() {
    let mut rng = match StdRng::new() {
        Ok(r) => r,
        Err(e) => panic!("Failed to create RNG: {}", e),
    };
    Perlin::from_rng(&mut rng);
}

#[test]
fn test_perlin_from_isaacrng() {
    let mut rng: IsaacRng = match OsRng::new() {
        Ok(mut r) => r.gen(),
        Err(e) => panic!("Failed to create seeded RNG: {}", e),
    };
    Perlin::from_rng(&mut rng);
}

#[test]
fn test_perlin_from_isaac64rng() {
    let mut rng: Isaac64Rng = match OsRng::new() {
        Ok(mut r) => r.gen(),
        Err(e) => panic!("Failed to create seeded RNG: {}", e),
    };
    Perlin::from_rng(&mut rng);
}

#[test]
fn test_perlin_from_xorshiftrng() {
    let mut rng: XorShiftRng = match OsRng::new() {
        Ok(mut r) => r.gen(),
        Err(e) => panic!("Failed to create seeded RNG: {}", e),
    };
    Perlin::from_rng(&mut rng);
}

#[test]
fn test_perlin_from_taskrng() {
    let mut task_rng = rand::thread_rng();

    Perlin::from_rng(&mut task_rng);
}

#[test]
fn perlin_from_seeded_rng_is_deterministic() {
    let seed: &[usize] = &[1337];
    let mut rng1: StdRng = SeedableRng::from_seed(seed);
    let mut rng2: StdRng = SeedableRng::from_seed(seed);
    let perlin1 = Perlin::from_rng(&mut rng1);
    let perlin2 = Perlin::from_rng(&mut rng2);
    assert!(perlin1 == perlin2);
    for i in -16i64..16 {
        for j in -16i64..16 {
            assert_eq!(perlin1.hash2(i, 0, j, 0), perlin2.hash2(i, 0, j, 0));
            assert_eq!(
                perlin1.hash3(i, 0, j, 1, i, 0),
                perlin2.hash3(i, 0, j, 1, i, 0)
            );
        }
    }
}

#[test]
fn perlin_from_different_seeds_differs() {
    let seed1: &[usize] = &[1337];
    let seed2: &[usize] = &[7331];
    let mut rng1: StdRng = SeedableRng::from_seed(seed1);
    let mut rng2: StdRng = SeedableRng::from_seed(seed2);
    let perlin1 = Perlin::from_rng(&mut rng1);
    let perlin2 = Perlin::from_rng(&mut rng2);
    assert!(perlin1 != perlin2);
}

#[test]
fn perlin_from_bytes_pins_the_table() {
    // With the identity base table, every chained lookup can be computed by
    // hand: hashing corner c looks up base[c mod 256].
    let base: Vec<u8> = (0u16..256).map(|i| i as u8).collect();
    let perlin = Perlin::from_bytes(&base);

    assert_eq!(perlin.hash1(0, 0), 0);
    assert_eq!(perlin.hash1(17, 0), 17);
    assert_eq!(perlin.hash1(255, 0), 255);
    // An offset step past 255 lands in the duplicated half of the table.
    assert_eq!(perlin.hash1(255, 1), 0);
    assert_eq!(perlin.hash1(256, 0), 0);
    // Negative coordinates wrap like a mathematical remainder.
    assert_eq!(perlin.hash1(-1, 0), 255);
    assert_eq!(perlin.hash1(-256, 0), 0);

    // hash2 chains: base[(i + base[j mod 256]) mod 256].
    assert_eq!(perlin.hash2(3, 0, 5, 0), 8);
    assert_eq!(perlin.hash2(250, 0, 10, 0), 4);
    assert_eq!(perlin.hash2(255, 1, 255, 1), 0);

    // hash3 chains twice: k = 3 gives 3, j = 2 gives 5, i = 1 gives 6.
    assert_eq!(perlin.hash3(1, 0, 2, 0, 3, 0), 6);
    assert_eq!(perlin.hash3(-1, 0, -2, 0, -3, 0), ((255u16 + ((254 + 253) % 256)) % 256) as u8);
}

#[test]
fn perlin_wraps_at_the_extremes_of_the_coordinate_range() {
    let base: Vec<u8> = (0u16..256).map(|i| i as u8).collect();
    let perlin = Perlin::from_bytes(&base);
    // i64::MIN is a multiple of 256; i64::MAX is one short of the next.
    assert_eq!(perlin.hash1(i64::MIN, 0), 0);
    assert_eq!(perlin.hash1(i64::MIN, 1), 1);
    assert_eq!(perlin.hash1(i64::MAX, 0), 255);
    assert_eq!(perlin.hash1(i64::MAX, 1), 0);
}

#[test]
fn perlin_clone_hashes_like_the_original() {
    let perlin = Perlin::new();
    let copy = perlin.clone();
    assert!(copy == perlin);
    for i in -8i64..8 {
        assert_eq!(copy.hash1(i, 0), perlin.hash1(i, 0));
    }
}

#[test]
fn perlin_equality_is_table_equality() {
    let base1: Vec<u8> = vec![7u8; 256];
    let mut base2: Vec<u8> = vec![7u8; 256];
    base2[100] = 8;
    let perlin1 = Perlin::from_bytes(&base1);
    let perlin2 = Perlin::from_bytes(&base1);
    let perlin3 = Perlin::from_bytes(&base2);
    assert!(perlin1 == perlin2);
    assert!(perlin1 != perlin3);
}
