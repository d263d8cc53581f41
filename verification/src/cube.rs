//! Cube coordinates on the hexagonal lattice and the step metric between them.

use vstd::prelude::*;
use vstd::math::abs;

verus! {

/// A lattice point in cube form over the mathematical integers.
pub struct Cube {
    pub q: int,
    pub r: int,
    pub s: int,
}

impl Cube {
    /// The three coordinates of a lattice point sum to zero.
    pub open spec fn valid(self) -> bool {
        self.q + self.r + self.s == 0
    }

    pub open spec fn origin() -> Cube {
        Cube { q: 0, r: 0, s: 0 }
    }

    pub open spec fn plus(self, other: Cube) -> Cube {
        Cube { q: self.q + other.q, r: self.r + other.r, s: self.s + other.s }
    }

    pub open spec fn minus(self, other: Cube) -> Cube {
        Cube { q: self.q - other.q, r: self.r - other.r, s: self.s - other.s }
    }

    pub open spec fn scaled(self, k: int) -> Cube {
        Cube { q: self.q * k, r: self.r * k, s: self.s * k }
    }

    /// Number of lattice steps between this point and the origin.
    pub open spec fn norm(self) -> nat {
        (abs(self.q) + abs(self.r) + abs(self.s)) / 2
    }

    /// Number of lattice steps between two points.
    pub open spec fn distance(self, other: Cube) -> nat {
        self.minus(other).norm()
    }

    /// Two points share an axis when one of their coordinates agrees.
    pub open spec fn shares_axis(self, other: Cube) -> bool {
        self.q == other.q || self.r == other.r || self.s == other.s
    }
}

/// On a valid point the norm is the largest absolute coordinate.
pub proof fn norm_is_largest_coordinate(c: Cube)
    requires
        c.valid(),
    ensures
        c.norm() >= abs(c.q),
        c.norm() >= abs(c.r),
        c.norm() >= abs(c.s),
        c.norm() == abs(c.q) || c.norm() == abs(c.r) || c.norm() == abs(c.s),
{
}

/// The distance does not depend on the order of its arguments.
pub proof fn distance_symmetric(a: Cube, b: Cube)
    ensures
        a.distance(b) == b.distance(a),
{
}

/// A point is at distance zero from itself.
pub proof fn distance_to_self(a: Cube)
    ensures
        a.distance(a) == 0,
{
}

/// Two valid points at distance zero are the same point.
pub proof fn distance_zero_means_equal(a: Cube, b: Cube)
    requires
        a.valid(),
        b.valid(),
        a.distance(b) == 0,
    ensures
        a == b,
{
}

/// Going through a third point never shortens the way.
pub proof fn distance_triangle(a: Cube, b: Cube, c: Cube)
    requires
        a.valid(),
        b.valid(),
        c.valid(),
    ensures
        a.distance(c) <= a.distance(b) + b.distance(c),
{
    norm_is_largest_coordinate(a.minus(b));
    norm_is_largest_coordinate(b.minus(c));
    norm_is_largest_coordinate(a.minus(c));
}

/// A cell of the hexagonal lattice, held as three machine integers that
/// always sum to zero.
#[derive(Clone, Copy, Debug, PartialEq, Eq, Hash, Structural)]
pub struct CubeCoordinate {
    q: i64,
    r: i64,
    s: i64,
}

impl View for CubeCoordinate {
    type V = Cube;

    closed spec fn view(&self) -> Cube {
        Cube { q: self.q as int, r: self.r as int, s: self.s as int }
    }
}

impl CubeCoordinate {
    /// Every cell is a lattice point.
    #[verifier::type_invariant]
    pub open spec fn well_formed(self) -> bool {
        self@.valid()
    }

    /// The cell `(q, r, s)`, where the three sum to zero.
    pub fn new(q: i64, r: i64, s: i64) -> (c: Option<CubeCoordinate>)
        ensures
            c.is_some() <==> q + r + s == 0,
            c.is_some() ==> c.unwrap()@ == (Cube { q: q as int, r: r as int, s: s as int }),
    {
        let sum: i128 = q as i128 + r as i128 + s as i128;
        if sum == 0 {
            Some(CubeCoordinate { q, r, s })
        } else {
            None
        }
    }

    /// The cell with the given `q` and `r`, where the third coordinate fits.
    pub fn from_qr(q: i64, r: i64) -> (c: Option<CubeCoordinate>)
        ensures
            c.is_some() <==> i64::MIN <= -(q + r) <= i64::MAX,
            c.is_some() ==> c.unwrap()@ == (Cube { q: q as int, r: r as int, s: -(q + r) }),
    {
        let s: i128 = -(q as i128 + r as i128);
        if s < i64::MIN as i128 || s > i64::MAX as i128 {
            None
        } else {
            Some(CubeCoordinate { q, r, s: s as i64 })
        }
    }

    /// The centre cell.
    pub fn origin() -> (c: CubeCoordinate)
        ensures
            c@ == Cube::origin(),
    {
        CubeCoordinate { q: 0, r: 0, s: 0 }
    }

    pub fn q(&self) -> (v: i64)
        ensures
            v == self@.q,
    {
        self.q
    }

    pub fn r(&self) -> (v: i64)
        ensures
            v == self@.r,
    {
        self.r
    }

    pub fn s(&self) -> (v: i64)
        ensures
            v == self@.s,
    {
        self.s
    }

    /// The three coordinates, which sum to zero.
    pub fn into_qrs_tuple(&self) -> (t: (i64, i64, i64))
        ensures
            t.0 == self@.q,
            t.1 == self@.r,
            t.2 == self@.s,
            self@.valid(),
    {
        proof {
            use_type_invariant(self);
        }
        (self.q, self.r, self.s)
    }

    /// Whether the two cells lie on a common axis line.
    pub fn shares_axis(&self, other: &CubeCoordinate) -> (b: bool)
        ensures
            b == self@.shares_axis(other@),
    {
        self.q == other.q || self.r == other.r || self.s == other.s
    }
}

/// Cells with the same view are the same cell.
pub proof fn view_determines_cell(a: CubeCoordinate, b: CubeCoordinate)
    ensures
        a@ == b@ <==> a == b,
{
}

/// Number of lattice steps between two cells.
pub fn hex_distance(a: CubeCoordinate, b: CubeCoordinate) -> (d: u64)
    ensures
        d == a@.distance(b@),
{
    proof {
        use_type_invariant(&a);
        use_type_invariant(&b);
    }
    let dq: i128 = a.q as i128 - b.q as i128;
    let dr: i128 = a.r as i128 - b.r as i128;
    let ds: i128 = a.s as i128 - b.s as i128;
    let aq: i128 = if dq < 0 { -dq } else { dq };
    let ar: i128 = if dr < 0 { -dr } else { dr };
    let az: i128 = if ds < 0 { -ds } else { ds };
    let half: i128 = (aq + ar + az) / 2;
    half as u64
}

} // verus!
