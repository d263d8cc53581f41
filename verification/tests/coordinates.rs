use hex_painter::cube::{hex_distance, CubeCoordinate};
use hex_painter::spiral::{
    checked_to_index, ring_first_index, ring_last_index, ring_of_index, to_cube, to_index,
    OUTERMOST_RING,
};
use hexgridspiral::{CCTile, TileIndex};

fn cell(q: i64, r: i64, s: i64) -> CubeCoordinate {
    CubeCoordinate::new(q, r, s).unwrap()
}

#[test]
fn index_round_trip_below_ten_thousand() {
    for i in 0..10000u64 {
        assert_eq!(to_index(to_cube(i)), i);
    }
}

#[test]
fn cube_round_trip_for_reachable_cells() {
    for i in 0..10000u64 {
        let c = to_cube(i);
        assert_eq!(to_cube(to_index(c)), c);
    }
}

#[test]
fn cube_round_trip_over_a_block_of_cells() {
    for q in -40i64..=40 {
        for r in -40i64..=40 {
            let c = cell(q, r, -q - r);
            assert_eq!(to_cube(to_index(c)), c);
        }
    }
}

#[test]
fn produced_cells_sum_to_zero() {
    for i in 0..10000u64 {
        let (q, r, s) = to_cube(i).into_qrs_tuple();
        assert_eq!(q + r + s, 0);
    }
}

#[test]
fn centre_is_index_zero() {
    assert_eq!(to_cube(0), CubeCoordinate::origin());
    assert_eq!(to_cube(0).into_qrs_tuple(), (0, 0, 0));
    assert_eq!(to_index(CubeCoordinate::origin()), 0);
}

#[test]
fn first_ring_walks_against_the_clock() {
    assert_eq!(to_cube(1).into_qrs_tuple(), (1, -1, 0));
    assert_eq!(to_cube(2).into_qrs_tuple(), (0, -1, 1));
    assert_eq!(to_cube(3).into_qrs_tuple(), (-1, 0, 1));
    assert_eq!(to_cube(4).into_qrs_tuple(), (-1, 1, 0));
    assert_eq!(to_cube(5).into_qrs_tuple(), (0, 1, -1));
    assert_eq!(to_cube(6).into_qrs_tuple(), (1, 0, -1));
}

#[test]
fn known_cells_of_outer_rings() {
    assert_eq!(to_cube(7).into_qrs_tuple(), (2, -1, -1));
    assert_eq!(to_cube(8).into_qrs_tuple(), (2, -2, 0));
    assert_eq!(to_cube(9).into_qrs_tuple(), (1, -2, 1));
    assert_eq!(to_cube(18).into_qrs_tuple(), (2, 0, -2));
    assert_eq!(to_cube(23).into_qrs_tuple(), (1, -3, 2));
    assert_eq!(to_cube(37).into_qrs_tuple(), (4, -1, -3));
    assert_eq!(to_index(cell(2, -1, -1)), 7);
    assert_eq!(to_index(cell(2, -2, 0)), 8);
    assert_eq!(to_index(cell(1, -2, 1)), 9);
    assert_eq!(to_index(cell(1, -3, 2)), 23);
    assert_eq!(to_index(cell(4, -1, -3)), 37);
}

#[test]
fn to_cube_agrees_with_hexgridspiral() {
    for i in 0..10000u64 {
        let theirs = CCTile::new(TileIndex(i)).into_qrs_tuple();
        assert_eq!(to_cube(i).into_qrs_tuple(), theirs);
    }
}

#[test]
fn to_index_agrees_with_hexgridspiral() {
    for q in -30i64..=30 {
        for r in -30i64..=30 {
            let theirs = CCTile::from_qrs(q, r, -q - r).spiral_index().value();
            assert_eq!(to_index(cell(q, r, -q - r)), theirs);
        }
    }
}

#[test]
fn ring_of_index_at_ring_borders() {
    assert_eq!(ring_of_index(0), 0);
    assert_eq!(ring_of_index(1), 1);
    assert_eq!(ring_of_index(6), 1);
    assert_eq!(ring_of_index(7), 2);
    assert_eq!(ring_of_index(18), 2);
    assert_eq!(ring_of_index(19), 3);
    assert_eq!(ring_of_index(60), 4);
    assert_eq!(ring_of_index(61), 5);
    assert_eq!(ring_of_index(u64::MAX), OUTERMOST_RING);
}

#[test]
fn ring_holds_one_cell_or_six_per_step() {
    let mut counts = [0u64; 12];
    for i in 0..=(3 * 11 * 12) as u64 {
        counts[ring_of_index(i) as usize] += 1;
    }
    assert_eq!(counts[0], 1);
    for r in 1..12u64 {
        assert_eq!(counts[r as usize], 6 * r);
    }
}

#[test]
fn ring_of_index_is_the_distance_from_the_centre() {
    for i in 0..2000u64 {
        assert_eq!(hex_distance(to_cube(i), CubeCoordinate::origin()), ring_of_index(i));
    }
}

#[test]
fn largest_index_round_trips() {
    let c = to_cube(u64::MAX);
    assert_eq!(hex_distance(c, CubeCoordinate::origin()), OUTERMOST_RING);
    assert_eq!(checked_to_index(c), Some(u64::MAX));
    let d = to_cube(u64::MAX - 1);
    assert_eq!(hex_distance(c, d), 1);
    assert_eq!(to_index(d), u64::MAX - 1);
}

#[test]
fn cells_beyond_the_last_index_have_none() {
    let n = OUTERMOST_RING as i64;
    assert_eq!(checked_to_index(cell(n, 0, -n)), None);
    assert_eq!(checked_to_index(cell(n + 1, -1, -n)), None);
    assert_eq!(checked_to_index(cell(i64::MAX, 0, -i64::MAX)), None);
    assert_eq!(checked_to_index(cell(i64::MIN, i64::MAX, 1)), None);
    assert_eq!(
        checked_to_index(cell(n, -1, 1 - n)),
        Some(3 * (n as u64) * (n as u64 - 1) + 1)
    );
}

#[test]
fn new_takes_only_lattice_points() {
    assert!(CubeCoordinate::new(1, 2, -3).is_some());
    assert!(CubeCoordinate::new(1, 2, 3).is_none());
    assert!(CubeCoordinate::new(i64::MAX, i64::MAX, 2).is_none());
    assert!(CubeCoordinate::new(i64::MAX, i64::MIN, 1).is_some());
    let c = cell(4, -1, -3);
    assert_eq!((c.q(), c.r(), c.s()), (4, -1, -3));
}

#[test]
fn from_qr_fills_in_the_third_coordinate() {
    assert_eq!(CubeCoordinate::from_qr(1, -2).unwrap().into_qrs_tuple(), (1, -2, 1));
    assert_eq!(CubeCoordinate::from_qr(0, 0).unwrap(), CubeCoordinate::origin());
    assert!(CubeCoordinate::from_qr(i64::MIN, 0).is_none());
    assert!(CubeCoordinate::from_qr(i64::MAX, i64::MAX).is_none());
    assert_eq!(
        CubeCoordinate::from_qr(i64::MIN, 1).unwrap().into_qrs_tuple(),
        (i64::MIN, 1, i64::MAX)
    );
}

#[test]
fn distance_is_half_the_sum_of_differences() {
    assert_eq!(hex_distance(cell(0, 0, 0), cell(0, 0, 0)), 0);
    assert_eq!(hex_distance(cell(0, 0, 0), cell(1, -1, 0)), 1);
    assert_eq!(hex_distance(cell(2, -1, -1), cell(-1, 3, -2)), 4);
    assert_eq!(hex_distance(cell(4, -1, -3), cell(0, 0, 0)), 4);
    assert_eq!(hex_distance(cell(i64::MAX, i64::MIN, 1), cell(i64::MIN, i64::MAX, 1)), u64::MAX);
}

#[test]
fn distance_agrees_with_hexgridspiral() {
    for i in 0..200u64 {
        for j in 0..200u64 {
            let theirs = CCTile::new(TileIndex(i)).grid_distance_to(&CCTile::new(TileIndex(j)));
            assert_eq!(hex_distance(to_cube(i), to_cube(j)), theirs);
        }
    }
}

#[test]
fn distance_is_a_metric_on_samples() {
    let cells: Vec<CubeCoordinate> = (0..60u64).map(|i| to_cube(i * 7)).collect();
    for a in &cells {
        assert_eq!(hex_distance(*a, *a), 0);
        for b in &cells {
            assert_eq!(hex_distance(*a, *b), hex_distance(*b, *a));
            if a != b {
                assert!(hex_distance(*a, *b) > 0);
            }
            for c in &cells {
                assert!(hex_distance(*a, *c) <= hex_distance(*a, *b) + hex_distance(*b, *c));
            }
        }
    }
}

#[test]
fn shares_axis_when_a_coordinate_agrees() {
    assert!(cell(2, -1, -1).shares_axis(&cell(2, 3, -5)));
    assert!(cell(2, -1, -1).shares_axis(&cell(0, -1, 1)));
    assert!(cell(2, -1, -1).shares_axis(&cell(-4, 5, -1)));
    assert!(!cell(2, -1, -1).shares_axis(&cell(0, 0, 0)));
    assert!(cell(0, 0, 0).shares_axis(&cell(0, 0, 0)));
}

#[test]
fn rings_start_and_end_where_the_formulas_say() {
    assert_eq!(ring_first_index(0), 0);
    assert_eq!(ring_last_index(0), 0);
    assert_eq!(ring_first_index(1), 1);
    assert_eq!(ring_last_index(1), 6);
    assert_eq!(ring_first_index(2), 7);
    assert_eq!(ring_last_index(2), 18);
    assert_eq!(ring_first_index(4), 37);
    assert_eq!(ring_last_index(4), 60);
    for r in 1..1000u64 {
        assert_eq!(ring_first_index(r), (3 * r * (r - 1) + 1) as u128);
        assert_eq!(ring_last_index(r), (3 * r * (r + 1)) as u128);
        assert_eq!(ring_last_index(r) - ring_first_index(r) + 1, (6 * r) as u128);
        assert_eq!(ring_first_index(r + 1), ring_last_index(r) + 1);
    }
}

#[test]
fn outermost_ring_straddles_the_largest_index() {
    assert_eq!(ring_first_index(OUTERMOST_RING), 18446744073616725301);
    assert_eq!(ring_last_index(OUTERMOST_RING), 18446744088494928450);
    assert!(ring_first_index(OUTERMOST_RING) <= u64::MAX as u128);
    assert!(ring_last_index(OUTERMOST_RING) > u64::MAX as u128);
    assert!(ring_last_index(OUTERMOST_RING - 1) < u64::MAX as u128);
}
