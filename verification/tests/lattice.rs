use simplex_noise::lattice::middle_corner;
use simplex_noise::lattice::wrap_index;
use simplex_noise::Gradient;
use simplex_noise::Simplex;
use simplex_noise::XorShift;

fn seeded() -> Simplex {
    let mut rng = XorShift::from_seed([1, 2, 3, 4]).unwrap();
    Simplex::from_rng(&mut rng)
}

#[test]
fn wrap_index_is_the_remainder_modulo_256() {
    assert_eq!(wrap_index(0), 0);
    assert_eq!(wrap_index(255), 255);
    assert_eq!(wrap_index(256), 0);
    assert_eq!(wrap_index(513), 1);
    assert_eq!(wrap_index(-1), 255);
    assert_eq!(wrap_index(-256), 0);
    assert_eq!(wrap_index(-257), 255);
    assert_eq!(wrap_index(i64::MAX), 255);
    assert_eq!(wrap_index(i64::MIN), 0);
    for i in -1000i64..1000 {
        assert_eq!(wrap_index(i) as i64, i.rem_euclid(256));
    }
}

#[test]
fn middle_corner_follows_the_larger_offset() {
    assert_eq!(middle_corner(true), (1, 0));
    assert_eq!(middle_corner(false), (0, 1));
}

#[test]
fn corner_hashes_known_values() {
    let s = seeded();
    assert_eq!(s.corner_hashes(0, 0, true), [254, 75, 32]);
    assert_eq!(s.corner_hashes(0, 0, false), [254, 79, 32]);
    assert_eq!(s.corner_hashes(3, -2, true), [31, 4, 105]);
    assert_eq!(s.corner_hashes(-1, 255, false), [231, 137, 254]);
    assert_eq!(s.corner_hashes(255, 255, true), [231, 120, 254]);
}

#[test]
fn corner_hashes_are_the_table_lookups() {
    let s = seeded();
    let t = s.table();
    for i in -300i64..300 {
        for j in [-300i64, -257, -256, -1, 0, 1, 127, 255, 256, 299] {
            let ii = wrap_index(i);
            let jj = wrap_index(j);
            for lower in [true, false] {
                let (i1, j1) = middle_corner(lower);
                let expected = [
                    t[ii + t[jj] as usize],
                    t[ii + i1 + t[jj + j1] as usize],
                    t[ii + 1 + t[jj + 1] as usize],
                ];
                assert_eq!(s.corner_hashes(i, j, lower), expected);
            }
        }
    }
}

#[test]
fn the_two_triangles_of_a_cell_differ_in_the_middle_corner_only() {
    // base[k] = 2k mod 256: the point (a, b) hashes to 2a + 4b mod 256.
    let mut base = [0u8; 256];
    for k in 0..256usize {
        base[k] = (2 * k % 256) as u8;
    }
    let s = Simplex::from_bytes(&base);
    let lower = s.corner_hashes(10, 20, true);
    let upper = s.corner_hashes(10, 20, false);
    assert_eq!(lower, [100, 102, 106]);
    assert_eq!(upper, [100, 104, 106]);
}

#[test]
fn cells_agree_on_the_corners_they_share() {
    let s = seeded();
    for i in -260i64..260 {
        for j in [-257i64, -256, -2, -1, 0, 1, 254, 255, 256] {
            let here_lower = s.corner_hashes(i, j, true);
            let here_upper = s.corner_hashes(i, j, false);
            assert_eq!(here_lower[0], here_upper[0]);
            assert_eq!(here_lower[2], here_upper[2]);
            // The far corner is the origin of the cell diagonally above.
            assert_eq!(here_lower[2], s.corner_hashes(i + 1, j + 1, true)[0]);
            // The middle corners are the origins of the two neighbours.
            assert_eq!(here_lower[1], s.corner_hashes(i + 1, j, false)[0]);
            assert_eq!(here_upper[1], s.corner_hashes(i, j + 1, true)[0]);
        }
    }
}

#[test]
fn corner_hashes_repeat_every_256_cells() {
    let s = seeded();
    for i in -5i64..5 {
        for j in -5i64..5 {
            assert_eq!(s.corner_hashes(i, j, true), s.corner_hashes(i + 256, j - 512, true));
        }
    }
}

#[test]
fn corner_gradients_are_the_gradients_of_the_hashes() {
    let s = seeded();
    for i in -20i64..20 {
        for j in -20i64..20 {
            for lower in [true, false] {
                let h = s.corner_hashes(i, j, lower);
                let g = s.corner_gradients(i, j, lower);
                for k in 0..3 {
                    assert_eq!(g[k], Gradient::from_hash(h[k]));
                }
            }
        }
    }
    // Hashes 254, 75, 32 select forms 6, 3 and 0.
    assert_eq!(
        s.corner_gradients(0, 0, true),
        [Gradient { cx: -2, cy: 1 }, Gradient { cx: -1, cy: -2 }, Gradient { cx: 1, cy: 2 }]
    );
}

#[test]
fn all_zero_table_hashes_every_corner_to_zero() {
    let s = Simplex::from_bytes(&[0u8; 256]);
    assert!(s.table().iter().all(|&b| b == 0));
    assert_eq!(s.corner_hashes(0, 0, false), [0, 0, 0]);
    assert_eq!(s.corner_hashes(-9, 1234, true), [0, 0, 0]);
    assert_eq!(s.corner_gradients(0, 0, false), [Gradient { cx: 1, cy: 2 }; 3]);
}
