//! Movement ranges: the cells within a number of steps of an origin.

use vstd::prelude::*;
use vstd::relations::injective_on;
use vstd::set_lib::lemma_map_size;
use crate::cube::{distance_zero_means_equal, hex_distance, Cube, CubeCoordinate};
use crate::spiral::{
    cube_round_trip, cube_spiral, index_round_trip, ring_bounds, ring_exists, ring_last,
    ring_last_increases, ring_of, span_of_naturals, spiral_cube,
};

verus! {

/// The lattice points within `radius` steps of `origin`; none where the
/// radius is negative.
pub open spec fn disk(origin: Cube, radius: int) -> Set<Cube> {
    Set::new(|c: Cube| c.valid() && c.distance(origin) <= radius)
}

/// The number of cells within `radius` steps of a cell.
pub open spec fn disk_size(radius: int) -> nat {
    if radius < 0 {
        0
    } else {
        (3 * radius * radius + 3 * radius + 1) as nat
    }
}

/// An index lies in one of the rings up to `k` exactly when it is at most
/// the last index of ring `k`.
pub proof fn rings_up_to(i: nat, k: nat)
    ensures
        ring_of(i) <= k <==> i <= ring_last(k),
{
    ring_exists(i);
    let r = ring_of(i);
    if r <= k {
        if r < k {
            ring_last_increases(r, k);
        }
    } else {
        ring_bounds((r - 1) as nat);
        if k < r - 1 {
            ring_last_increases(k, (r - 1) as nat);
        }
    }
}

/// A range of radius `k >= 0` holds exactly `3k^2 + 3k + 1` cells, one of
/// negative radius none, and one of radius 0 its origin alone.
pub proof fn disk_cardinality(origin: Cube, radius: int)
    requires
        origin.valid(),
    ensures
        disk(origin, radius).finite(),
        disk(origin, radius).len() == disk_size(radius),
        radius == 0 ==> disk(origin, radius) =~= set![origin],
        radius < 0 ==> disk(origin, radius) =~= Set::<Cube>::empty(),
{
    let d = disk(origin, radius);
    if radius < 0 {
        assert(d =~= Set::<Cube>::empty());
    } else {
        let k = radius as nat;
        let count = ring_last(k) + 1;
        assert(count == disk_size(radius)) by (nonlinear_arith)
            requires
                radius >= 0,
                k == radius,
                count == 3 * k * (k + 1) + 1,
                disk_size(radius) == 3 * radius * radius + 3 * radius + 1,
        ;
        let indices = Set::new(|i: nat| 0 <= i < 0 + count);
        span_of_naturals(0, count);
        let place = |i: nat| spiral_cube(i).plus(origin);
        assert(injective_on(place, indices)) by {
            assert forall|i: nat, j: nat| #[trigger] place(i) == #[trigger] place(j) implies i == j by {
                index_round_trip(i);
                index_round_trip(j);
                assert(spiral_cube(i) == place(i).minus(origin));
                assert(spiral_cube(j) == place(j).minus(origin));
            }
        }
        assert forall|c: Cube| indices.map(place).contains(c) <==> d.contains(c) by {
            if indices.map(place).contains(c) {
                let i = choose|i: nat| indices.contains(i) && c == place(i);
                index_round_trip(i);
                rings_up_to(i, k);
                assert(c.minus(origin) == spiral_cube(i));
            }
            if d.contains(c) {
                let local = c.minus(origin);
                let i = cube_spiral(local);
                cube_round_trip(local);
                index_round_trip(i);
                rings_up_to(i, k);
                assert(indices.contains(i));
                assert(place(i) == c);
            }
        }
        assert(indices.map(place) =~= d);
        lemma_map_size(indices, d, place);
        if radius == 0 {
            assert forall|c: Cube| d.contains(c) implies c == origin by {
                distance_zero_means_equal(c, origin);
            }
            assert(origin.distance(origin) == 0);
            assert(d =~= set![origin]);
        }
    }
}

/// The cells within a number of steps of an origin.
#[derive(Clone, Copy, Debug)]
pub struct MovementRange {
    origin: CubeCoordinate,
    radius: i64,
}

impl View for MovementRange {
    type V = Set<Cube>;

    closed spec fn view(&self) -> Set<Cube> {
        disk(self.origin@, self.radius as int)
    }
}

impl MovementRange {
    /// The cell that the range is drawn around.
    pub closed spec fn spec_origin(&self) -> Cube {
        self.origin@
    }

    /// The number of steps that the range reaches.
    pub closed spec fn spec_radius(&self) -> int {
        self.radius as int
    }

    /// A range holds the lattice points within its radius of its origin.
    pub proof fn view_is_disk(&self)
        ensures
            self@ == disk(self.spec_origin(), self.spec_radius()),
    {
    }

    pub fn origin(&self) -> (c: CubeCoordinate)
        ensures
            c@ == self.spec_origin(),
    {
        self.origin
    }

    pub fn radius(&self) -> (k: i64)
        ensures
            k == self.spec_radius(),
    {
        self.radius
    }

    /// Whether `cell` lies within the range.
    pub fn contains(&self, cell: &CubeCoordinate) -> (b: bool)
        ensures
            b == self@.contains(cell@),
            b == (cell@.distance(self.spec_origin()) <= self.spec_radius()),
    {
        proof {
            use_type_invariant(cell);
        }
        if self.radius < 0 {
            false
        } else {
            hex_distance(*cell, self.origin) <= self.radius as u64
        }
    }

    /// The number of cells in the range.
    pub fn count(&self) -> (n: u128)
        ensures
            n == self@.len(),
            n == disk_size(self.spec_radius()),
            self@.finite(),
    {
        proof {
            use_type_invariant(&self.origin);
            disk_cardinality(self.origin@, self.radius as int);
        }
        if self.radius < 0 {
            0
        } else {
            let k: u128 = self.radius as u128;
            assert(3 * k * k + 3 * k + 1 <= 3 * 0x8000_0000_0000_0000 * 0x8000_0000_0000_0000) by (nonlinear_arith)
                requires
                    0 <= k < 0x8000_0000_0000_0000,
            ;
            3 * k * k + 3 * k + 1
        }
    }
}

/// The cells within `radius` steps of `origin`; none where `radius` is
/// negative.
pub fn movement_range(origin: CubeCoordinate, radius: i64) -> (range: MovementRange)
    ensures
        range@ == disk(origin@, radius as int),
        range.spec_origin() == origin@,
        range.spec_radius() == radius,
{
    MovementRange { origin, radius }
}

} // verus!
