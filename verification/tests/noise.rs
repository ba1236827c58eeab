use weekend_tracer_rs::texture::perlin::{lattice_index, perlin_generate_perm, permutate, POINT_COUNT};

#[test]
fn a_shuffled_table_holds_every_number_once() {
    for _ in 0..20 {
        let table = perlin_generate_perm();
        assert_eq!(table.len(), POINT_COUNT);
        assert_eq!(POINT_COUNT, 256);
        let mut seen = [false; 256];
        for &entry in &table {
            assert!(!seen[entry as usize]);
            seen[entry as usize] = true;
        }
        assert!(seen.iter().all(|&s| s));
    }
}

#[test]
fn a_shuffle_moves_every_entry() {
    // Each entry is exchanged with one strictly before it, so two entries
    // always trade places.
    for _ in 0..20 {
        let mut pair = vec![0u8, 1];
        permutate(&mut pair, 2);
        assert_eq!(pair, vec![1, 0]);
    }
    let table = perlin_generate_perm();
    assert!(table.iter().enumerate().all(|(place, &entry)| place != entry as usize));
}

#[test]
fn a_shuffle_of_three_exchanges_the_last_and_then_the_second() {
    // The last entry goes to the first or the second place, then the first
    // two trade places.
    let mut seen = [false; 2];
    for _ in 0..200 {
        let mut table = vec![10u8, 20, 30];
        permutate(&mut table, 3);
        if table == vec![20, 30, 10] {
            seen[0] = true;
        } else {
            assert_eq!(table, vec![30, 10, 20]);
            seen[1] = true;
        }
    }
    assert!(seen[0] && seen[1]);
}

#[test]
fn a_shuffle_leaves_the_entries_behind_it_alone() {
    for _ in 0..20 {
        let mut table: Vec<u8> = (0..10).collect();
        permutate(&mut table, 4);
        assert_eq!(&table[4..], &[4, 5, 6, 7, 8, 9]);
        let mut front = table[..4].to_vec();
        front.sort_unstable();
        assert_eq!(front, vec![0, 1, 2, 3]);
    }
    let mut table: Vec<u8> = vec![7, 8, 9];
    permutate(&mut table, 0);
    assert_eq!(table, vec![7, 8, 9]);
    permutate(&mut table, 1);
    assert_eq!(table, vec![7, 8, 9]);
}

#[test]
fn shuffles_differ() {
    let tables: Vec<Vec<u8>> = (0..4).map(|_| perlin_generate_perm()).collect();
    assert!(tables.iter().any(|t| *t != tables[0]));
}

#[test]
fn a_lattice_corner_picks_by_the_three_tables() {
    let identity: Vec<u8> = (0..=255).collect();
    let reversed: Vec<u8> = (0..=255).rev().collect();
    let doubled: Vec<u8> = (0..=255u8).map(|i| i.wrapping_mul(2)).collect();
    assert_eq!(lattice_index(&identity, &identity, &identity, 1, 2, 4, 0, 0, 0), 1 ^ 2 ^ 4);
    assert_eq!(lattice_index(&identity, &identity, &identity, 1, 2, 4, 1, 1, 1), 2 ^ 3 ^ 5);
    assert_eq!(lattice_index(&identity, &reversed, &doubled, 3, 5, 7, 0, 1, 0), 3 ^ (255 - 6) ^ 14);
    // Coordinates wrap round every 256, below zero too.
    assert_eq!(lattice_index(&identity, &identity, &identity, 256, 513, -1, 0, 0, 0), 0 ^ 1 ^ 255);
    assert_eq!(lattice_index(&identity, &identity, &identity, -1, -256, 255, 1, 0, 1), 0);
    assert_eq!(
        lattice_index(&identity, &identity, &identity, i32::MIN, i32::MAX - 1, 0, 0, 1, 0),
        255
    );
}

#[test]
fn a_lattice_corner_always_lies_in_the_table() {
    let x = perlin_generate_perm();
    let y = perlin_generate_perm();
    let z = perlin_generate_perm();
    for i in -300..300 {
        for d in 0..8u8 {
            let place = lattice_index(&x, &y, &z, i, 3 * i, -7 * i, d & 1, (d >> 1) & 1, d >> 2);
            assert!(place < POINT_COUNT);
        }
    }
}
