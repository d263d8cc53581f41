//! The spiral numbering of the hexagonal lattice.
//!
//! Index 0 names the centre cell. Ring `r >= 1` holds the `6 * r` cells at
//! `r` steps from the centre, numbered on from the end of ring `r - 1`; the
//! numbering walks the six straight sides of the ring in turn. Each lattice
//! point has exactly one index, and the two conversions undo each other.

use vstd::prelude::*;
use vstd::arithmetic::div_mod::{
    lemma_fundamental_div_mod, lemma_fundamental_div_mod_converse, lemma_mod_bound,
};
use crate::cube::{hex_distance, norm_is_largest_coordinate, Cube, CubeCoordinate};

verus! {

/// The largest index of ring `r`.
pub open spec fn ring_last(r: nat) -> nat {
    3 * r * (r + 1)
}

/// The smallest index of ring `r`.
pub open spec fn ring_first(r: nat) -> nat {
    if r == 0 {
        0
    } else {
        (3 * r * (r - 1) + 1) as nat
    }
}

/// The number of cells of ring `r`.
pub open spec fn ring_size(r: nat) -> nat {
    if r == 0 {
        1
    } else {
        6 * r
    }
}

/// Whether index `i` belongs to ring `r`.
pub open spec fn in_ring(i: nat, r: nat) -> bool {
    ring_first(r) <= i <= ring_last(r)
}

/// The ring that index `i` belongs to.
pub open spec fn ring_of(i: nat) -> nat {
    choose|r: nat| in_ring(i, r)
}

/// The unit step from the centre towards corner `e` of a ring; the corners
/// are counted from 0 to 5 against the clock, starting on the right.
pub open spec fn corner_unit(e: int) -> Cube {
    if e == 0 {
        Cube { q: 1, r: 0, s: -1 }
    } else if e == 1 {
        Cube { q: 1, r: -1, s: 0 }
    } else if e == 2 {
        Cube { q: 0, r: -1, s: 1 }
    } else if e == 3 {
        Cube { q: -1, r: 0, s: 1 }
    } else if e == 4 {
        Cube { q: -1, r: 1, s: 0 }
    } else {
        Cube { q: 0, r: 1, s: -1 }
    }
}

/// The cell of ring `r` that lies `t` steps past corner `e` on the side
/// that leads to the next corner.
pub open spec fn ring_cell(r: int, e: int, t: int) -> Cube {
    corner_unit(e).scaled(r).plus(corner_unit((e + 2) % 6).scaled(t))
}

/// The cell that spiral index `i` names.
///
/// The first index of a ring names the cell one step past corner 0, and
/// each side of `r` cells ends on the next corner, so that the last index of
/// the ring names corner 0 itself.
pub open spec fn spiral_cube(i: nat) -> Cube {
    if i == 0 {
        Cube::origin()
    } else {
        let r = ring_of(i) as int;
        let offset = i - ring_first(r as nat);
        ring_cell(r, offset / r, offset % r + 1)
    }
}

/// The side of its ring on which a cell other than the centre lies: the
/// one that ends on corner `side + 1`.
pub open spec fn side_of(c: Cube) -> int {
    let n = c.norm() as int;
    if c.q == n && c.r < 0 {
        0
    } else if c.r == -n && c.s > 0 {
        1
    } else if c.s == n && c.q < 0 {
        2
    } else if c.q == -n && c.r > 0 {
        3
    } else if c.r == n && c.s < 0 {
        4
    } else {
        5
    }
}

/// How many steps past the corner that starts its side a cell lies.
pub open spec fn steps_along_side(c: Cube) -> int {
    let e = side_of(c);
    if e == 0 {
        -c.r
    } else if e == 1 {
        c.s
    } else if e == 2 {
        -c.q
    } else if e == 3 {
        c.r
    } else if e == 4 {
        -c.s
    } else {
        c.q
    }
}

/// The spiral index that names cell `c`.
pub open spec fn cube_spiral(c: Cube) -> nat {
    let n = c.norm();
    if n == 0 {
        0
    } else {
        (ring_first(n) + side_of(c) * n + steps_along_side(c) - 1) as nat
    }
}

/// The outermost ring that holds an index of 64 bits.
pub const OUTERMOST_RING: u64 = 2479700525;

/// The outermost ring ends beyond the largest index of 64 bits, and starts
/// below it.
pub proof fn outermost_ring_bounds()
    ensures
        ring_last(OUTERMOST_RING as nat) == 18446744088494928450,
        ring_first(OUTERMOST_RING as nat) == 18446744073616725301,
        ring_first(OUTERMOST_RING as nat) <= u64::MAX < ring_last(OUTERMOST_RING as nat),
{
    assert(3 * 2479700525 * (2479700525 + 1) == 18446744088494928450) by (nonlinear_arith);
    assert(3 * 2479700525 * (2479700525 - 1) + 1 == 18446744073616725301) by (nonlinear_arith);
}

/// The largest index of a ring.
pub fn ring_last_index(ring: u64) -> (last: u128)
    requires
        ring <= OUTERMOST_RING,
    ensures
        last == ring_last(ring as nat),
        last <= ring_last(OUTERMOST_RING as nat),
{
    let m: u128 = ring as u128;
    proof {
        outermost_ring_bounds();
        if ring < OUTERMOST_RING {
            ring_last_increases(ring as nat, OUTERMOST_RING as nat);
        }
    }
    assert(3 * m * (m + 1) == 3 * (ring as nat) * ((ring as nat) + 1)) by (nonlinear_arith)
        requires
            m == ring,
    ;
    assert(3 * m <= 3 * 2479700525);
    3 * m * (m + 1)
}

/// The smallest index of a ring.
pub fn ring_first_index(ring: u64) -> (first: u128)
    requires
        ring <= OUTERMOST_RING,
    ensures
        first == ring_first(ring as nat),
        first <= u64::MAX,
{
    proof {
        outermost_ring_bounds();
    }
    if ring == 0 {
        0
    } else {
        proof {
            ring_bounds((ring - 1) as nat);
            ring_bounds((OUTERMOST_RING - 1) as nat);
            if ring < OUTERMOST_RING {
                ring_last_increases((ring - 1) as nat, (OUTERMOST_RING - 1) as nat);
            }
        }
        ring_last_index(ring - 1) + 1
    }
}

/// The ring of an index.
pub fn ring_of_index(index: u64) -> (r: u64)
    ensures
        r == ring_of(index as nat),
        r <= OUTERMOST_RING,
{
    let mut lo: u64 = 0;
    let mut hi: u64 = OUTERMOST_RING;
    proof {
        outermost_ring_bounds();
    }
    while lo < hi
        invariant
            lo <= hi <= OUTERMOST_RING,
            index <= ring_last(hi as nat),
            lo == 0 || ring_last((lo - 1) as nat) < index,
        decreases hi - lo,
    {
        let mid: u64 = lo + (hi - lo) / 2;
        if (index as u128) <= ring_last_index(mid) {
            hi = mid;
        } else {
            lo = mid + 1;
        }
    }
    proof {
        if lo > 0 {
            ring_bounds((lo - 1) as nat);
        }
        ring_of_is(index as nat, lo as nat);
    }
    lo
}

/// The cell that an index names.
pub fn to_cube(index: u64) -> (c: CubeCoordinate)
    ensures
        c@ == spiral_cube(index as nat),
        c@.valid(),
{
    if index == 0 {
        return CubeCoordinate::origin();
    }
    let ring: u64 = ring_of_index(index);
    proof {
        ring_exists(index as nat);
        ring_bounds(ring as nat);
    }
    let offset: u64 = (index as u128 - ring_first_index(ring)) as u64;
    proof {
        offset_splits(offset as int, ring as int);
    }
    let e: u64 = offset / ring;
    let n: i64 = ring as i64;
    let t: i64 = (offset % ring) as i64 + 1;
    proof {
        ring_cell_coordinates(n as int, e as int, t as int);
    }
    let cell = if e == 0 {
        CubeCoordinate::new(n, -t, t - n)
    } else if e == 1 {
        CubeCoordinate::new(n - t, -n, t)
    } else if e == 2 {
        CubeCoordinate::new(-t, t - n, n)
    } else if e == 3 {
        CubeCoordinate::new(-n, t, n - t)
    } else if e == 4 {
        CubeCoordinate::new(t - n, n, -t)
    } else {
        CubeCoordinate::new(t, n - t, -n)
    };
    cell.unwrap()
}

/// The index of a cell, where it fits in 64 bits.
pub fn checked_to_index(c: CubeCoordinate) -> (i: Option<u64>)
    ensures
        i.is_some() <==> cube_spiral(c@) <= u64::MAX,
        i.is_some() ==> i.unwrap() == cube_spiral(c@) && spiral_cube(i.unwrap() as nat) == c@,
{
    let (q, r, s) = c.into_qrs_tuple();
    let ring: u64 = hex_distance(c, CubeCoordinate::origin());
    proof {
        norm_is_largest_coordinate(c@);
        cube_round_trip(c@);
        assert(c@.minus(Cube::origin()) == c@);
    }
    if ring == 0 {
        return Some(0);
    }
    proof {
        cell_is_ring_cell(c@);
        ring_bounds(ring as nat);
        assert(0 <= side_of(c@) * ring <= 5 * ring) by (nonlinear_arith)
            requires
                0 <= side_of(c@) < 6,
                ring > 0,
        ;
    }
    if ring > OUTERMOST_RING {
        proof {
            outermost_ring_bounds();
            if ring > OUTERMOST_RING + 1 {
                ring_last_increases(OUTERMOST_RING as nat, (ring - 1) as nat);
            }
            ring_bounds((ring - 1) as nat);
        }
        return None;
    }
    let m: u128 = ring as u128;
    let n: i64 = ring as i64;
    let (e, t): (u128, i64) = if q == n && r < 0 {
        (0, -r)
    } else if r == -n && s > 0 {
        (1, s)
    } else if s == n && q < 0 {
        (2, -q)
    } else if q == -n && r > 0 {
        (3, r)
    } else if r == n && s < 0 {
        (4, -s)
    } else {
        (5, q)
    };
    assert(e * m <= 5 * 2479700525) by (nonlinear_arith)
        requires
            0 <= e <= 5,
            1 <= m <= 2479700525,
    ;
    let index: u128 = ring_first_index(ring) + e * m + (t as u128 - 1);
    if index > u64::MAX as u128 {
        None
    } else {
        Some(index as u64)
    }
}

/// The index of a cell whose index fits in 64 bits.
pub fn to_index(c: CubeCoordinate) -> (i: u64)
    requires
        cube_spiral(c@) <= u64::MAX,
    ensures
        i == cube_spiral(c@),
        spiral_cube(i as nat) == c@,
{
    checked_to_index(c).unwrap()
}

/// Numbering a cell and looking the number up again gives the cell back:
/// every lattice point has an index, and that index names it.
pub proof fn cube_round_trip(c: Cube)
    requires
        c.valid(),
    ensures
        spiral_cube(cube_spiral(c)) == c,
{
    let n = c.norm();
    if n > 0 {
        cell_is_ring_cell(c);
        let e = side_of(c);
        let t = steps_along_side(c);
        let i = cube_spiral(c);
        assert(0 <= e * n <= 5 * n) by (nonlinear_arith)
            requires
                0 <= e < 6,
                n > 0,
        ;
        ring_bounds(n);
        ring_of_is(i, n);
        offset_joins(e, t - 1, n as int);
    }
}

/// Looking an index up and numbering the cell again gives the index back:
/// no two indices name the same cell.
pub proof fn index_round_trip(i: nat)
    ensures
        cube_spiral(spiral_cube(i)) == i,
        spiral_cube(i).valid(),
        spiral_cube(i).norm() == ring_of(i),
{
    ring_exists(i);
    if i > 0 {
        let r = ring_of(i);
        assert(r > 0) by {
            if r == 0 {
                assert(ring_last(0) == 0) by (nonlinear_arith);
            }
        }
        ring_bounds(r);
        let offset = i - ring_first(r);
        offset_splits(offset, r as int);
        ring_cell_coordinates(r as int, offset / (r as int), offset % (r as int) + 1);
        ring_cell_position(r as int, offset / (r as int), offset % (r as int) + 1);
    } else {
        assert(ring_last(0) == 0) by (nonlinear_arith);
        assert(in_ring(0, 0));
        ring_of_is(0, 0);
    }
}

/// Every cell that an index names is a lattice point: its coordinates sum
/// to zero.
pub proof fn spiral_cube_is_valid(i: nat)
    ensures
        spiral_cube(i).valid(),
{
    index_round_trip(i);
}

/// Different indices name different cells.
pub proof fn spiral_cube_is_injective(i: nat, j: nat)
    requires
        spiral_cube(i) == spiral_cube(j),
    ensures
        i == j,
{
    index_round_trip(i);
    index_round_trip(j);
}

/// The centre's ring is a single cell, and ring `r >= 1` holds exactly
/// `6 * r` indices: those from `ring_first(r)` to `ring_last(r)`.
pub proof fn ring_cardinality(r: nat)
    ensures
        Set::new(|i: nat| ring_of(i) == r) =~= Set::new(|i: nat| ring_first(r) <= i <= ring_last(r)),
        Set::new(|i: nat| ring_of(i) == r).finite(),
        Set::new(|i: nat| ring_of(i) == r).len() == ring_size(r),
{
    let members = Set::new(|i: nat| ring_of(i) == r);
    let span = Set::new(|i: nat| ring_first(r) <= i <= ring_last(r));
    assert forall|i: nat| members.contains(i) <==> span.contains(i) by {
        ring_exists(i);
        if in_ring(i, r) {
            ring_of_is(i, r);
        }
    }
    assert(members =~= span);
    ring_bounds(r);
    span_of_naturals(ring_first(r), ring_size(r));
    assert(span =~= Set::new(|i: nat| ring_first(r) <= i < ring_first(r) + ring_size(r)));
}

/// The naturals from `lo` up to, and without, `lo + count` are `count` many.
pub proof fn span_of_naturals(lo: nat, count: nat)
    ensures
        Set::new(|i: nat| lo <= i < lo + count).finite(),
        Set::new(|i: nat| lo <= i < lo + count).len() == count,
    decreases count,
{
    let span = Set::new(|i: nat| lo <= i < lo + count);
    if count == 0 {
        assert(span =~= Set::<nat>::empty());
    } else {
        let shorter = Set::new(|i: nat| lo <= i < lo + (count - 1) as nat);
        span_of_naturals(lo, (count - 1) as nat);
        assert(span =~= shorter.insert((lo + count - 1) as nat));
    }
}

/// A ring spans as many indices as it has cells, and the next ring starts
/// right behind it.
pub proof fn ring_bounds(r: nat)
    ensures
        ring_last(r) + 1 == ring_first(r) + ring_size(r),
        ring_first(r + 1) == ring_last(r) + 1,
{
    assert(3 * r * (r + 1) == 3 * r * (r - 1) + 6 * r) by (nonlinear_arith);
    assert(3 * (r + 1) * ((r + 1) - 1) == 3 * r * (r + 1)) by (nonlinear_arith);
}

/// Later rings end later.
pub proof fn ring_last_increases(a: nat, b: nat)
    requires
        a < b,
    ensures
        ring_last(a) < ring_last(b),
{
    assert(3 * a * (a + 1) < 3 * b * (b + 1)) by (nonlinear_arith)
        requires
            a < b,
    ;
}

/// An index belongs to at most one ring.
pub proof fn ring_unique(i: nat, a: nat, b: nat)
    requires
        in_ring(i, a),
        in_ring(i, b),
    ensures
        a == b,
{
    if a < b {
        ring_bounds((b - 1) as nat);
        if a < b - 1 {
            ring_last_increases(a, (b - 1) as nat);
        }
    } else if b < a {
        ring_bounds((a - 1) as nat);
        if b < a - 1 {
            ring_last_increases(b, (a - 1) as nat);
        }
    }
}

/// Every index belongs to a ring.
pub proof fn ring_exists(i: nat)
    ensures
        in_ring(i, ring_of(i)),
    decreases i,
{
    if i == 0 {
        assert(in_ring(0, 0));
    } else {
        ring_exists((i - 1) as nat);
        let p = ring_of((i - 1) as nat);
        if i <= ring_last(p) {
            assert(in_ring(i, p));
        } else {
            ring_bounds(p);
            ring_last_increases(p, p + 1);
            assert(in_ring(i, p + 1));
        }
    }
}

/// The ring of an index is the one whose bounds enclose it.
pub proof fn ring_of_is(i: nat, r: nat)
    requires
        in_ring(i, r),
    ensures
        ring_of(i) == r,
{
    ring_exists(i);
    ring_unique(i, r, ring_of(i));
}

/// The coordinates of a cell on each side of a ring.
pub proof fn ring_cell_coordinates(r: int, e: int, t: int)
    requires
        0 <= e < 6,
    ensures
        e == 0 ==> ring_cell(r, e, t) == (Cube { q: r, r: -t, s: t - r }),
        e == 1 ==> ring_cell(r, e, t) == (Cube { q: r - t, r: -r, s: t }),
        e == 2 ==> ring_cell(r, e, t) == (Cube { q: -t, r: t - r, s: r }),
        e == 3 ==> ring_cell(r, e, t) == (Cube { q: -r, r: t, s: r - t }),
        e == 4 ==> ring_cell(r, e, t) == (Cube { q: t - r, r: r, s: -t }),
        e == 5 ==> ring_cell(r, e, t) == (Cube { q: t, r: r - t, s: -r }),
        ring_cell(r, e, t).valid(),
{
    let start = corner_unit(e).scaled(r);
    let along = corner_unit((e + 2) % 6).scaled(t);
    if e == 0 {
        assert(start == (Cube { q: r, r: 0, s: -r }));
        assert(along == (Cube { q: 0, r: -t, s: t }));
    } else if e == 1 {
        assert(start == (Cube { q: r, r: -r, s: 0 }));
        assert(along == (Cube { q: -t, r: 0, s: t }));
    } else if e == 2 {
        assert(start == (Cube { q: 0, r: -r, s: r }));
        assert(along == (Cube { q: -t, r: t, s: 0 }));
    } else if e == 3 {
        assert(start == (Cube { q: -r, r: 0, s: r }));
        assert(along == (Cube { q: 0, r: t, s: -t }));
    } else if e == 4 {
        assert(start == (Cube { q: -r, r: r, s: 0 }));
        assert(along == (Cube { q: t, r: 0, s: -t }));
    } else {
        assert(start == (Cube { q: 0, r: r, s: -r }));
        assert(along == (Cube { q: t, r: -t, s: 0 }));
    }
}

/// A cell placed on a side of ring `r` lies in that ring, on that side, at
/// that many steps.
pub proof fn ring_cell_position(r: int, e: int, t: int)
    requires
        0 <= e < 6,
        1 <= t <= r,
    ensures
        ring_cell(r, e, t).norm() == r,
        side_of(ring_cell(r, e, t)) == e,
        steps_along_side(ring_cell(r, e, t)) == t,
{
    ring_cell_coordinates(r, e, t);
}

/// A cell other than the centre lies on the side and at the steps that
/// `side_of` and `steps_along_side` give.
pub proof fn cell_is_ring_cell(c: Cube)
    requires
        c.valid(),
        c.norm() > 0,
    ensures
        0 <= side_of(c) < 6,
        1 <= steps_along_side(c) <= c.norm(),
        ring_cell(c.norm() as int, side_of(c), steps_along_side(c)) == c,
{
    ring_cell_coordinates(c.norm() as int, side_of(c), steps_along_side(c));
}

/// The place of an index within its ring: its side and its steps along it.
pub proof fn offset_splits(offset: int, r: int)
    requires
        r > 0,
        0 <= offset < 6 * r,
    ensures
        0 <= offset / r < 6,
        0 <= offset % r < r,
        offset == (offset / r) * r + offset % r,
{
    lemma_fundamental_div_mod(offset, r);
    lemma_mod_bound(offset, r);
    let d = offset / r;
    assert(0 <= d < 6) by (nonlinear_arith)
        requires
            r > 0,
            0 <= offset < 6 * r,
            offset == r * d + offset % r,
            0 <= offset % r < r,
    ;
    assert(r * d == d * r) by (nonlinear_arith);
}

/// Side and steps are recovered from an offset built of them.
pub proof fn offset_joins(e: int, x: int, r: int)
    requires
        r > 0,
        0 <= x < r,
        0 <= e,
    ensures
        (e * r + x) / r == e,
        (e * r + x) % r == x,
{
    lemma_fundamental_div_mod_converse(e * r + x, r, e, x);
}

} // verus!
