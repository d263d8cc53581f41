use hex_painter::cube::{hex_distance, CubeCoordinate};
use hex_painter::reach::movement_range;
use hex_painter::spiral::to_cube;
use hexgridspiral::CCTile;

fn cell(q: i64, r: i64, s: i64) -> CubeCoordinate {
    CubeCoordinate::new(q, r, s).unwrap()
}

fn cells_around(origin: CubeCoordinate, span: i64) -> Vec<CubeCoordinate> {
    let mut cells = Vec::new();
    for dq in -span..=span {
        for dr in -span..=span {
            cells.push(cell(origin.q() + dq, origin.r() + dr, origin.s() - dq - dr));
        }
    }
    cells
}

#[test]
fn range_holds_three_k_squared_plus_three_k_plus_one_cells() {
    let origin = cell(3, -5, 2);
    for k in 0..8i64 {
        let range = movement_range(origin, k);
        let found = cells_around(origin, 10).iter().filter(|c| range.contains(c)).count();
        assert_eq!(found as i64, 3 * k * k + 3 * k + 1);
        assert_eq!(range.count(), (3 * k * k + 3 * k + 1) as u128);
    }
}

#[test]
fn range_of_zero_steps_is_the_origin_alone() {
    let origin = cell(-2, 7, -5);
    let range = movement_range(origin, 0);
    assert_eq!(range.count(), 1);
    let found: Vec<CubeCoordinate> =
        cells_around(origin, 4).into_iter().filter(|c| range.contains(c)).collect();
    assert_eq!(found, vec![origin]);
}

#[test]
fn range_of_negative_steps_is_empty() {
    let origin = cell(1, 1, -2);
    for k in [-1i64, -2, -100, i64::MIN] {
        let range = movement_range(origin, k);
        assert_eq!(range.count(), 0);
        assert!(!range.contains(&origin));
        assert!(cells_around(origin, 3).iter().all(|c| !range.contains(c)));
    }
}

#[test]
fn range_holds_the_cells_within_its_steps() {
    let origin = cell(4, -1, -3);
    let range = movement_range(origin, 2);
    for c in cells_around(origin, 5) {
        assert_eq!(range.contains(&c), hex_distance(origin, c) <= 2);
    }
    assert!(range.contains(&cell(6, -1, -5)));
    assert!(range.contains(&cell(5, 0, -5)));
    assert!(!range.contains(&cell(7, -1, -6)));
    assert!(!range.contains(&cell(6, 1, -7)));
}

#[test]
fn range_remembers_origin_and_radius() {
    let origin = cell(0, -3, 3);
    let range = movement_range(origin, 5);
    assert_eq!(range.origin(), origin);
    assert_eq!(range.radius(), 5);
}

#[test]
fn range_agrees_with_hexgridspiral() {
    let origin = to_cube(37);
    let (q, r, s) = origin.into_qrs_tuple();
    let theirs = CCTile::from_qrs(q, r, s).movement_range(2);
    let ours = movement_range(origin, 2);
    for c in cells_around(origin, 6) {
        let (cq, cr, cs) = c.into_qrs_tuple();
        assert_eq!(ours.contains(&c), theirs.contains(&CCTile::from_qrs(cq, cr, cs)));
    }
}

#[test]
fn widest_range_counts_without_overflow() {
    let range = movement_range(CubeCoordinate::origin(), i64::MAX);
    let k = i64::MAX as u128;
    assert_eq!(range.count(), 3 * k * k + 3 * k + 1);
    assert!(range.contains(&cell(i64::MAX, 0, -i64::MAX)));
    assert!(!range.contains(&cell(i64::MIN, 1, i64::MAX)));
}
