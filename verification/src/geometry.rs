//! Integer points, offsets between them and the distance tests the tools rely on.

use vstd::prelude::*;

verus! {

/// A position in document space, in whole pixels.
#[derive(Clone, Copy, Debug, PartialEq, Eq, Hash, Structural)]
pub struct Point {
    pub x: i32,
    pub y: i32,
}

/// A displacement between two positions. Wide enough for the difference of any two points.
#[derive(Clone, Copy, Debug, PartialEq, Eq, Hash, Structural)]
pub struct Offset {
    pub dx: i64,
    pub dy: i64,
}

/// How large the document is drawn: a distance of `denominator` pixels in
/// the document takes `numerator` pixels on the screen.
#[derive(Clone, Copy, Debug, PartialEq, Eq, Hash, Structural)]
pub struct Scale {
    pub numerator: u16,
    pub denominator: u16,
}

impl Scale {
    pub open spec fn spec_one() -> Scale {
        Scale { numerator: 1, denominator: 1 }
    }

    /// The scale at which a pixel of the document is a pixel of the screen.
    #[verifier::when_used_as_spec(spec_one)]
    pub fn one() -> (scale: Scale)
        ensures
            scale == Scale::spec_one(),
    {
        Scale { numerator: 1, denominator: 1 }
    }
}

/// The coordinate nearest to `value`.
pub open spec fn clamp_coordinate(value: int) -> i32 {
    if value < i32::MIN {
        i32::MIN
    } else if value > i32::MAX {
        i32::MAX
    } else {
        value as i32
    }
}

fn clamped(value: i128) -> (c: i32)
    ensures
        c == clamp_coordinate(value as int),
{
    if value < i32::MIN as i128 {
        i32::MIN
    } else if value > i32::MAX as i128 {
        i32::MAX
    } else {
        value as i32
    }
}

impl Point {
    /// The square of the Euclidean distance between two points.
    pub open spec fn distance_squared(self, other: Point) -> int {
        (self.x - other.x) * (self.x - other.x) + (self.y - other.y) * (self.y - other.y)
    }

    /// Whether `other` lies at most `radius` pixels away on the screen, where
    /// the document is drawn at `scale` (the boundary counts).
    pub open spec fn within(self, other: Point, radius: int, scale: Scale) -> bool {
        self.distance_squared(other) * (scale.numerator * scale.numerator) <= radius * radius * (scale.denominator
            * scale.denominator)
    }

    /// Whether `other` lies less than `radius` pixels away on the screen, where
    /// the document is drawn at `scale` (the boundary does not count).
    pub open spec fn closer_than(self, other: Point, radius: int, scale: Scale) -> bool {
        self.distance_squared(other) * (scale.numerator * scale.numerator) < radius * radius * (scale.denominator
            * scale.denominator)
    }

    /// Whether the point lies in the axis-aligned rectangle spanned by two
    /// opposite corners, edges and corners included.
    pub open spec fn inside(self, a: Point, b: Point) -> bool {
        &&& (a.x <= self.x <= b.x || b.x <= self.x <= a.x)
        &&& (a.y <= self.y <= b.y || b.y <= self.y <= a.y)
    }

    /// The displacement that leads from `origin` to this point.
    pub open spec fn spec_offset_from(&self, origin: &Point) -> Offset {
        Offset { dx: (self.x - origin.x) as i64, dy: (self.y - origin.y) as i64 }
    }

    /// The point that `offset` leads to when followed backwards from this
    /// point, each coordinate kept within the range of a coordinate.
    pub open spec fn spec_minus(self, offset: Offset) -> Point {
        Point { x: clamp_coordinate(self.x - offset.dx), y: clamp_coordinate(self.y - offset.dy) }
    }

    pub fn new(x: i32, y: i32) -> (p: Point)
        ensures
            p == (Point { x, y }),
    {
        Point { x, y }
    }

    pub fn distance_squared_to(&self, other: &Point) -> (d: u128)
        ensures
            d == self.distance_squared(*other),
    {
        let dx: i128 = self.x as i128 - other.x as i128;
        let dy: i128 = self.y as i128 - other.y as i128;
        assert(0 <= dx * dx <= 0x1_0000_0000_0000_0000) by (nonlinear_arith)
            requires
                -0x1_0000_0000 <= dx <= 0x1_0000_0000,
        ;
        assert(0 <= dy * dy <= 0x1_0000_0000_0000_0000) by (nonlinear_arith)
            requires
                -0x1_0000_0000 <= dy <= 0x1_0000_0000,
        ;
        let sum: i128 = dx * dx + dy * dy;
        sum as u128
    }

    /// The two sides of the comparison of a screen distance with a radius:
    /// the squared distance times the square of the scale's numerator, and the
    /// squared radius times the square of its denominator.
    fn screen_sides(&self, other: &Point, radius: u32, scale: Scale) -> (sides: (u128, u128))
        ensures
            sides.0 == self.distance_squared(*other) * (scale.numerator * scale.numerator),
            sides.1 == radius * radius * (scale.denominator * scale.denominator),
    {
        let distance: u128 = self.distance_squared_to(other);
        let n: u128 = scale.numerator as u128;
        let d: u128 = scale.denominator as u128;
        let r: u128 = radius as u128;
        assert(self.distance_squared(*other) <= 0x2_0000_0000_0000_0000) by (nonlinear_arith)
            requires
                -0x1_0000_0000 <= self.x - other.x <= 0x1_0000_0000,
                -0x1_0000_0000 <= self.y - other.y <= 0x1_0000_0000,
                self.distance_squared(*other) == (self.x - other.x) * (self.x - other.x) + (self.y - other.y) * (
                self.y - other.y),
        ;
        assert(0 <= n * n <= 0x1_0000_0000) by (nonlinear_arith)
            requires
                0 <= n <= 0x1_0000,
        ;
        assert(0 <= d * d <= 0x1_0000_0000) by (nonlinear_arith)
            requires
                0 <= d <= 0x1_0000,
        ;
        assert(0 <= r * r <= 0x1_0000_0000_0000_0000) by (nonlinear_arith)
            requires
                0 <= r <= 0x1_0000_0000,
        ;
        let nn: u128 = n * n;
        let dd: u128 = d * d;
        let rr: u128 = r * r;
        assert(0 <= distance * nn <= 0x2_0000_0000_0000_0000 * 0x1_0000_0000) by (nonlinear_arith)
            requires
                0 <= distance <= 0x2_0000_0000_0000_0000,
                0 <= nn <= 0x1_0000_0000,
        ;
        assert(0 <= rr * dd <= 0x1_0000_0000_0000_0000 * 0x1_0000_0000) by (nonlinear_arith)
            requires
                0 <= rr <= 0x1_0000_0000_0000_0000,
                0 <= dd <= 0x1_0000_0000,
        ;
        (distance * nn, rr * dd)
    }

    pub fn is_within(&self, other: &Point, radius: u32, scale: Scale) -> (b: bool)
        ensures
            b == self.within(*other, radius as int, scale),
    {
        let sides = self.screen_sides(other, radius, scale);
        sides.0 <= sides.1
    }

    pub fn is_closer_than(&self, other: &Point, radius: u32, scale: Scale) -> (b: bool)
        ensures
            b == self.closer_than(*other, radius as int, scale),
    {
        let sides = self.screen_sides(other, radius, scale);
        sides.0 < sides.1
    }

    pub fn is_inside(&self, a: &Point, b: &Point) -> (r: bool)
        ensures
            r == self.inside(*a, *b),
    {
        ((a.x <= self.x && self.x <= b.x) || (b.x <= self.x && self.x <= a.x)) && ((a.y <= self.y
            && self.y <= b.y) || (b.y <= self.y && self.y <= a.y))
    }

    #[verifier::when_used_as_spec(spec_minus)]
    pub fn minus(self, offset: Offset) -> (p: Point)
        ensures
            p == self.spec_minus(offset),
    {
        Point { x: clamped(self.x as i128 - offset.dx as i128), y: clamped(self.y as i128 - offset.dy as i128) }
    }

    #[verifier::when_used_as_spec(spec_offset_from)]
    pub fn offset_from(&self, origin: &Point) -> (o: Offset)
        ensures
            o == self.spec_offset_from(origin),
            o.dx == self.x - origin.x,
            o.dy == self.y - origin.y,
    {
        Offset { dx: self.x as i64 - origin.x as i64, dy: self.y as i64 - origin.y as i64 }
    }
}

/// Going back by the offset from `origin` to a point leads to `origin`.
pub proof fn minus_undoes_offset(point: Point, origin: Point)
    ensures
        point.spec_minus(point.spec_offset_from(&origin)) == origin,
{
}

} // verus!
