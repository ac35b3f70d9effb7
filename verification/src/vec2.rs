use vstd::prelude::*;
use crate::fixed::{isqrt, sat, sat_add, sat_sub, sqrt_floor, Fixed};

verus! {

/// A coordinate on the grid.
pub type Coord = i64;

/// A coordinate in the continuous world.
pub type FCoord = Fixed;

/// A cell of the grid, or the difference of two cells.
#[derive(Debug, Clone, Copy, PartialEq, Eq, Structural, Hash)]
pub struct IVec2 {
    pub x: Coord,
    pub y: Coord,
}

/// A point of the continuous world, or the difference of two points.
#[derive(Debug, Clone, Copy, PartialEq, Eq, Structural, Hash)]
pub struct FVec2 {
    pub x: FCoord,
    pub y: FCoord,
}

/// A line segment between two points.
#[derive(Debug, Clone, Copy, PartialEq, Eq, Structural)]
pub struct Segment(pub FVec2, pub FVec2);

impl IVec2 {
    pub open spec fn spec_add(self, other: IVec2) -> IVec2 {
        IVec2 { x: sat(self.x + other.x), y: sat(self.y + other.y) }
    }

    pub open spec fn spec_sub(self, other: IVec2) -> IVec2 {
        IVec2 { x: sat(self.x - other.x), y: sat(self.y - other.y) }
    }

    pub open spec fn spec_to_fixed(self) -> FVec2 {
        FVec2 { x: Fixed::spec_from_int(self.x as int), y: Fixed::spec_from_int(self.y as int) }
    }

    pub fn new(x: Coord, y: Coord) -> (r: IVec2)
        ensures
            r == (IVec2 { x, y }),
    {
        IVec2 { x, y }
    }

    /// Componentwise saturating sum.
    pub fn add(self, other: IVec2) -> (r: IVec2)
        ensures
            r == self.spec_add(other),
    {
        IVec2 { x: sat_add(self.x, other.x), y: sat_add(self.y, other.y) }
    }

    /// Componentwise saturating difference.
    pub fn sub(self, other: IVec2) -> (r: IVec2)
        ensures
            r == self.spec_sub(other),
    {
        IVec2 { x: sat_sub(self.x, other.x), y: sat_sub(self.y, other.y) }
    }

    /// The same vector in the continuous world.
    pub fn to_fixed(self) -> (r: FVec2)
        ensures
            r == self.spec_to_fixed(),
    {
        FVec2 { x: Fixed::from_int(self.x), y: Fixed::from_int(self.y) }
    }
}

impl FVec2 {
    pub open spec fn spec_zero() -> FVec2 {
        FVec2 { x: Fixed { raw: 0 }, y: Fixed { raw: 0 } }
    }

    pub open spec fn spec_add(self, other: FVec2) -> FVec2 {
        FVec2 { x: self.x.spec_add(other.x), y: self.y.spec_add(other.y) }
    }

    pub open spec fn spec_sub(self, other: FVec2) -> FVec2 {
        FVec2 { x: self.x.spec_sub(other.x), y: self.y.spec_sub(other.y) }
    }

    pub open spec fn spec_scale(self, k: Fixed) -> FVec2 {
        FVec2 { x: self.x.spec_mul(k), y: self.y.spec_mul(k) }
    }

    pub open spec fn spec_mul(self, other: FVec2) -> FVec2 {
        FVec2 { x: self.x.spec_mul(other.x), y: self.y.spec_mul(other.y) }
    }

    pub open spec fn spec_div(self, other: FVec2) -> FVec2 {
        FVec2 { x: self.x.spec_div(other.x), y: self.y.spec_div(other.y) }
    }

    pub open spec fn spec_unscale(self, k: Fixed) -> FVec2 {
        FVec2 { x: self.x.spec_div(k), y: self.y.spec_div(k) }
    }

    pub open spec fn spec_dot(self, other: FVec2) -> Fixed {
        self.x.spec_mul(other.x).spec_add(self.y.spec_mul(other.y))
    }

    pub open spec fn spec_len_sqr(self) -> Fixed {
        self.spec_dot(self)
    }

    /// The Euclidean length: the integer square root of the sum of the squared
    /// counts of millionths.
    pub open spec fn spec_len(self) -> Fixed {
        Fixed {
            raw: sat(
                sqrt_floor((self.x.raw as int * self.x.raw as int
                    + self.y.raw as int * self.y.raw as int) as nat) as int,
            ),
        }
    }

    /// The vector of length one in the same direction, or zero for a vector of length zero.
    pub open spec fn spec_normalize_or_zero(self) -> FVec2 {
        if self.spec_len().raw == 0 {
            FVec2::spec_zero()
        } else {
            self.spec_unscale(self.spec_len())
        }
    }

    pub fn new(x: FCoord, y: FCoord) -> (r: FVec2)
        ensures
            r == (FVec2 { x, y }),
    {
        FVec2 { x, y }
    }

    pub fn zero() -> (r: FVec2)
        ensures
            r == FVec2::spec_zero(),
    {
        FVec2 { x: Fixed::zero(), y: Fixed::zero() }
    }

    pub fn add(self, other: FVec2) -> (r: FVec2)
        ensures
            r == self.spec_add(other),
    {
        FVec2 { x: self.x.add(other.x), y: self.y.add(other.y) }
    }

    pub fn sub(self, other: FVec2) -> (r: FVec2)
        ensures
            r == self.spec_sub(other),
    {
        FVec2 { x: self.x.sub(other.x), y: self.y.sub(other.y) }
    }

    /// Both components times `k`.
    pub fn scale(self, k: Fixed) -> (r: FVec2)
        ensures
            r == self.spec_scale(k),
    {
        FVec2 { x: self.x.mul(k), y: self.y.mul(k) }
    }

    /// Componentwise product.
    pub fn mul(self, other: FVec2) -> (r: FVec2)
        ensures
            r == self.spec_mul(other),
    {
        FVec2 { x: self.x.mul(other.x), y: self.y.mul(other.y) }
    }

    /// Componentwise quotient.
    pub fn div(self, other: FVec2) -> (r: FVec2)
        ensures
            r == self.spec_div(other),
    {
        FVec2 { x: self.x.div(other.x), y: self.y.div(other.y) }
    }

    /// Both components divided by `k`.
    pub fn unscale(self, k: Fixed) -> (r: FVec2)
        ensures
            r == self.spec_unscale(k),
    {
        FVec2 { x: self.x.div(k), y: self.y.div(k) }
    }

    pub fn dot(self, other: FVec2) -> (r: Fixed)
        ensures
            r == self.spec_dot(other),
    {
        self.x.mul(other.x).add(self.y.mul(other.y))
    }

    pub fn len_sqr(self) -> (r: Fixed)
        ensures
            r == self.spec_len_sqr(),
    {
        self.dot(self)
    }

    pub fn len(self) -> (r: Fixed)
        ensures
            r == self.spec_len(),
            r.raw >= 0,
    {
        let x: i128 = self.x.raw as i128;
        let y: i128 = self.y.raw as i128;
        assert(0 <= x * x <= 0x4000_0000_0000_0000_0000_0000_0000_0000) by (nonlinear_arith)
            requires
                -0x8000_0000_0000_0000 <= x <= 0x8000_0000_0000_0000,
        ;
        assert(0 <= y * y <= 0x4000_0000_0000_0000_0000_0000_0000_0000) by (nonlinear_arith)
            requires
                -0x8000_0000_0000_0000 <= y <= 0x8000_0000_0000_0000,
        ;
        let n: u128 = (x * x) as u128 + (y * y) as u128;
        let root: u128 = isqrt(n);
        if root > i64::MAX as u128 {
            Fixed { raw: i64::MAX }
        } else {
            Fixed { raw: root as i64 }
        }
    }

    pub fn normalize_or_zero(self) -> (r: FVec2)
        ensures
            r == self.spec_normalize_or_zero(),
    {
        let len = self.len();
        if len.raw == 0 {
            FVec2::zero()
        } else {
            self.unscale(len)
        }
    }
}

} // verus!
