//! Fixed-point vectors and axis-aligned bounding boxes.
//!
//! A coordinate counts `UNITS_PER_BLOCK` to the block.

use vstd::prelude::*;

verus! {

/// Coordinate units per block.
pub const UNITS_PER_BLOCK: i64 = 1000;

/// Whether `c` is a coordinate that a vector can hold.
pub open spec fn representable(c: int) -> bool {
    i64::MIN <= c <= i64::MAX
}

/// Half of `width`, rounded towards zero.
pub open spec fn half_of(width: i64) -> int {
    if width >= 0 {
        width / 2
    } else {
        -((-width) / 2)
    }
}

/// Whether `a + b` is a coordinate that a vector can hold.
fn sum_fits(a: i64, b: i64) -> (fits: bool)
    ensures
        fits == representable(a + b),
{
    let sum: i128 = a as i128 + b as i128;
    i64::MIN as i128 <= sum && sum <= i64::MAX as i128
}

/// Whether `a - b` is a coordinate that a vector can hold.
fn difference_fits(a: i64, b: i64) -> (fits: bool)
    ensures
        fits == representable(a - b),
{
    let difference: i128 = a as i128 - b as i128;
    i64::MIN as i128 <= difference && difference <= i64::MAX as i128
}

/// A point or an offset in fixed-point coordinates.
#[derive(Clone, Copy, Debug, PartialEq, Eq, Structural)]
pub struct Vec3 {
    pub x: i64,
    pub y: i64,
    pub z: i64,
}

impl Vec3 {
    /// Whether the sum with `other` can be held.
    pub open spec fn can_add(self, other: Vec3) -> bool {
        &&& representable(self.x + other.x)
        &&& representable(self.y + other.y)
        &&& representable(self.z + other.z)
    }

    /// Whether the vector that undoes this one can be held.
    pub open spec fn can_negate(self) -> bool {
        self.x > i64::MIN && self.y > i64::MIN && self.z > i64::MIN
    }

    /// The sum, coordinate by coordinate.
    pub open spec fn plus(self, other: Vec3) -> Vec3 {
        Vec3 {
            x: (self.x + other.x) as i64,
            y: (self.y + other.y) as i64,
            z: (self.z + other.z) as i64,
        }
    }

    /// The vector that undoes this one.
    pub open spec fn negated(self) -> Vec3 {
        Vec3 { x: (-self.x) as i64, y: (-self.y) as i64, z: (-self.z) as i64 }
    }

    /// The vector with the given coordinates.
    pub fn new(x: i64, y: i64, z: i64) -> (v: Vec3)
        ensures
            v == (Vec3 { x, y, z }),
    {
        Vec3 { x, y, z }
    }

    /// The vector of no length.
    pub fn zero() -> (v: Vec3)
        ensures
            v == (Vec3 { x: 0, y: 0, z: 0 }),
    {
        Vec3 { x: 0, y: 0, z: 0 }
    }

    /// Whether the sum with `other` can be held.
    pub fn fits_add(&self, other: &Vec3) -> (fits: bool)
        ensures
            fits == self.can_add(*other),
    {
        sum_fits(self.x, other.x) && sum_fits(self.y, other.y) && sum_fits(self.z, other.z)
    }

    /// The sum, coordinate by coordinate.
    pub fn add(self, other: Vec3) -> (sum: Vec3)
        requires
            self.can_add(other),
        ensures
            sum == self.plus(other),
            sum.x == self.x + other.x,
            sum.y == self.y + other.y,
            sum.z == self.z + other.z,
    {
        Vec3 { x: self.x + other.x, y: self.y + other.y, z: self.z + other.z }
    }

    /// The vector that undoes this one.
    pub fn neg(self) -> (v: Vec3)
        requires
            self.can_negate(),
        ensures
            v == self.negated(),
            v.x == -self.x,
            v.y == -self.y,
            v.z == -self.z,
    {
        Vec3 { x: -self.x, y: -self.y, z: -self.z }
    }
}

/// An axis-aligned bounding box; both corners belong to it.
#[derive(Clone, Copy, Debug, PartialEq, Eq, Structural)]
pub struct Aabb {
    /// The corner with the smallest coordinates.
    pub min: Vec3,
    /// The corner with the largest coordinates.
    pub max: Vec3,
}

impl Aabb {
    /// Whether the corners are in order, so that the box holds at least one
    /// point.
    pub open spec fn wf(self) -> bool {
        &&& self.min.x <= self.max.x
        &&& self.min.y <= self.max.y
        &&& self.min.z <= self.max.z
    }

    /// Whether the point `p` lies in the box.
    pub open spec fn contains_point(self, p: Vec3) -> bool {
        &&& self.min.x <= p.x <= self.max.x
        &&& self.min.y <= p.y <= self.max.y
        &&& self.min.z <= p.z <= self.max.z
    }

    /// Whether the whole of `inner` lies in the box.
    pub open spec fn encloses(self, inner: Aabb) -> bool {
        &&& self.min.x <= inner.min.x && inner.max.x <= self.max.x
        &&& self.min.y <= inner.min.y && inner.max.y <= self.max.y
        &&& self.min.z <= inner.min.z && inner.max.z <= self.max.z
    }

    /// Whether the two boxes overlap or touch: on every axis each begins no
    /// later than the other ends.
    pub open spec fn intersects(self, other: Aabb) -> bool {
        &&& self.min.x <= other.max.x && other.min.x <= self.max.x
        &&& self.min.y <= other.max.y && other.min.y <= self.max.y
        &&& self.min.z <= other.max.z && other.min.z <= self.max.z
    }

    /// The box of an entity that stands with its feet at `feet`: centred on
    /// the feet along x and z, and `height` high from the feet up. Half of
    /// `width`, rounded towards zero, is taken on each side, so the box is
    /// `width` wide and deep where `width` is even, and one unit less where
    /// it is odd.
    pub open spec fn around(feet: Vec3, width: i64, height: i64) -> Aabb {
        let half = half_of(width);
        Aabb {
            min: Vec3 { x: (feet.x - half) as i64, y: feet.y, z: (feet.z - half) as i64 },
            max: Vec3 {
                x: (feet.x + half) as i64,
                y: (feet.y + height) as i64,
                z: (feet.z + half) as i64,
            },
        }
    }

    /// The extent along x.
    pub open spec fn width(self) -> int {
        self.max.x - self.min.x
    }

    /// The extent along y.
    pub open spec fn height(self) -> int {
        self.max.y - self.min.y
    }

    /// The box shifted by `offset`.
    pub open spec fn shifted(self, offset: Vec3) -> Aabb {
        Aabb { min: self.min.plus(offset), max: self.max.plus(offset) }
    }

    /// Whether the corners of the box shifted by `offset` can be held.
    pub open spec fn can_shift(self, offset: Vec3) -> bool {
        self.min.can_add(offset) && self.max.can_add(offset)
    }

    /// Whether the corners of a box of these measures around `feet` can be held.
    pub open spec fn fits(feet: Vec3, width: i64, height: i64) -> bool {
        &&& representable(feet.x - half_of(width))
        &&& representable(feet.x + half_of(width))
        &&& representable(feet.z - half_of(width))
        &&& representable(feet.z + half_of(width))
        &&& representable(feet.y + height)
    }

    /// Whether the width and the height of the box can be held.
    pub open spec fn measurable(self) -> bool {
        representable(self.width()) && representable(self.height())
    }

    /// Whether the corners of the box shifted by `offset` can be held.
    pub fn fits_shift(&self, offset: &Vec3) -> (fits: bool)
        ensures
            fits == self.can_shift(*offset),
    {
        self.min.fits_add(offset) && self.max.fits_add(offset)
    }

    /// Whether the corners of a box of these measures around `feet` can be held.
    pub fn fits_around(feet: &Vec3, width: i64, height: i64) -> (fits: bool)
        ensures
            fits == Aabb::fits(*feet, width, height),
    {
        let half = width / 2;
        sum_fits(feet.x, half) && sum_fits(feet.z, half) && difference_fits(feet.x, half)
            && difference_fits(feet.z, half) && sum_fits(feet.y, height)
    }

    /// Whether the width and the height of the box can be held.
    pub fn fits_measures(&self) -> (fits: bool)
        ensures
            fits == self.measurable(),
    {
        difference_fits(self.max.x, self.min.x) && difference_fits(self.max.y, self.min.y)
    }

    /// The box of an entity that stands with its feet at `feet`. It is
    /// `height` high and twice the half of `width` wide and deep: as wide as
    /// `width` where that is even, one unit nearer to zero where it is odd.
    pub fn create(feet: Vec3, width: i64, height: i64) -> (aabb: Aabb)
        requires
            Aabb::fits(feet, width, height),
        ensures
            aabb == Aabb::around(feet, width, height),
            aabb.width() == 2 * half_of(width),
            aabb.max.z - aabb.min.z == 2 * half_of(width),
            aabb.height() == height,
            width % 2 == 0 ==> aabb.width() == width,
            width >= 0 && height >= 0 ==> aabb.wf(),
    {
        let half = width / 2;
        Aabb {
            min: Vec3 { x: feet.x - half, y: feet.y, z: feet.z - half },
            max: Vec3 { x: feet.x + half, y: feet.y + height, z: feet.z + half },
        }
    }

    /// The box shifted by `offset`.
    pub fn move_by(&self, offset: Vec3) -> (aabb: Aabb)
        requires
            self.can_shift(offset),
        ensures
            aabb == self.shifted(offset),
            self.wf() ==> aabb.wf(),
    {
        Aabb { min: self.min.add(offset), max: self.max.add(offset) }
    }

    /// The box of the same height around the feet at `feet`, as wide and
    /// deep as this one is wide where that width is even. A box of odd width
    /// comes out one unit narrower, for half the width is taken on each side
    /// of the feet, rounded towards zero.
    pub fn move_to(&self, feet: Vec3) -> (aabb: Aabb)
        requires
            self.measurable(),
            Aabb::fits(feet, self.width() as i64, self.height() as i64),
        ensures
            aabb == Aabb::around(feet, self.width() as i64, self.height() as i64),
            aabb.width() == 2 * half_of(self.width() as i64),
            aabb.max.z - aabb.min.z == 2 * half_of(self.width() as i64),
            aabb.height() == self.height(),
            self.width() % 2 == 0 ==> aabb.width() == self.width(),
            self.wf() ==> aabb.wf(),
    {
        Aabb::create(feet, self.max.x - self.min.x, self.max.y - self.min.y)
    }

    /// Whether the two boxes overlap or touch.
    pub fn collides(&self, other: &Aabb) -> (hit: bool)
        ensures
            hit == self.intersects(*other),
    {
        self.min.x <= other.max.x && other.min.x <= self.max.x && self.min.y <= other.max.y
            && other.min.y <= self.max.y && self.min.z <= other.max.z && other.min.z
            <= self.max.z
    }

    /// The smallest box that holds both.
    pub open spec fn hull(self, other: Aabb) -> Aabb {
        Aabb {
            min: Vec3 {
                x: if self.min.x <= other.min.x { self.min.x } else { other.min.x },
                y: if self.min.y <= other.min.y { self.min.y } else { other.min.y },
                z: if self.min.z <= other.min.z { self.min.z } else { other.min.z },
            },
            max: Vec3 {
                x: if self.max.x >= other.max.x { self.max.x } else { other.max.x },
                y: if self.max.y >= other.max.y { self.max.y } else { other.max.y },
                z: if self.max.z >= other.max.z { self.max.z } else { other.max.z },
            },
        }
    }

    /// The smallest box that holds both.
    pub fn union(&self, other: &Aabb) -> (aabb: Aabb)
        ensures
            aabb == self.hull(*other),
            aabb.encloses(*self),
            aabb.encloses(*other),
    {
        Aabb {
            min: Vec3 {
                x: if self.min.x <= other.min.x { self.min.x } else { other.min.x },
                y: if self.min.y <= other.min.y { self.min.y } else { other.min.y },
                z: if self.min.z <= other.min.z { self.min.z } else { other.min.z },
            },
            max: Vec3 {
                x: if self.max.x >= other.max.x { self.max.x } else { other.max.x },
                y: if self.max.y >= other.max.y { self.max.y } else { other.max.y },
                z: if self.max.z >= other.max.z { self.max.z } else { other.max.z },
            },
        }
    }
}

/// Two boxes that hold a point each intersect exactly if some point lies in
/// both.
pub proof fn lemma_intersects_iff_common_point(a: Aabb, b: Aabb)
    requires
        a.wf(),
        b.wf(),
    ensures
        a.intersects(b) <==> exists|p: Vec3| a.contains_point(p) && b.contains_point(p),
{
    if a.intersects(b) {
        let q = Vec3 {
            x: if a.min.x >= b.min.x { a.min.x } else { b.min.x },
            y: if a.min.y >= b.min.y { a.min.y } else { b.min.y },
            z: if a.min.z >= b.min.z { a.min.z } else { b.min.z },
        };
        assert(a.contains_point(q) && b.contains_point(q));
    }
}

/// A box that misses another misses everything that the other encloses.
pub proof fn lemma_miss_outer_miss_inner(query: Aabb, outer: Aabb, inner: Aabb)
    requires
        outer.encloses(inner),
        !outer.intersects(query),
    ensures
        !inner.intersects(query),
{
}

} // verus!
