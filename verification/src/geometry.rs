//! Points, sizes, rectangles and affine transforms over fixed-point numbers.
//!
//! Item geometry is given in logical pixels, as a [`Rect`] of an origin and a
//! size. What reaches the scene is in physical pixels: a [`PhysicalRect`] of
//! two corners, under an [`Affine`] transform.

use vstd::prelude::*;
use crate::fixed::Fixed;
use crate::fixed::{lemma_mul_one, lemma_mul_zero};
use crate::fixed::{MAX_RAW, MIN_RAW};

verus! {

/// A position in the plane.
#[derive(Clone, Copy, Debug, PartialEq, Eq, Structural)]
pub struct Point {
    pub x: Fixed,
    pub y: Fixed,
}

/// A displacement in the plane.
#[derive(Clone, Copy, Debug, PartialEq, Eq, Structural)]
pub struct Vector {
    pub x: Fixed,
    pub y: Fixed,
}

/// A width and a height.
#[derive(Clone, Copy, Debug, PartialEq, Eq, Structural)]
pub struct Size {
    pub width: Fixed,
    pub height: Fixed,
}

/// A rectangle in logical pixels, given by its origin and its size.
#[derive(Clone, Copy, Debug, PartialEq, Eq, Structural)]
pub struct Rect {
    pub origin: Point,
    pub size: Size,
}

/// A rectangle in physical pixels, given by two opposite corners.
#[derive(Clone, Copy, Debug, PartialEq, Eq, Structural)]
pub struct PhysicalRect {
    pub x0: Fixed,
    pub y0: Fixed,
    pub x1: Fixed,
    pub y1: Fixed,
}

/// A rectangle of whole pixels of an image, given by its origin and its size.
#[derive(Clone, Copy, Debug, PartialEq, Eq, Structural)]
pub struct IntRect {
    pub x: i32,
    pub y: i32,
    pub width: i32,
    pub height: i32,
}

/// The radii of the four corners of a rectangle.
#[derive(Clone, Copy, Debug, PartialEq, Eq, Structural)]
pub struct BorderRadius {
    pub top_left: Fixed,
    pub top_right: Fixed,
    pub bottom_right: Fixed,
    pub bottom_left: Fixed,
}

/// A rotation about zero, given by the sine and the cosine of its angle.
#[derive(Clone, Copy, Debug, PartialEq, Eq, Structural)]
pub struct Rotation {
    pub sin: Fixed,
    pub cos: Fixed,
}

/// An affine transform of the plane. A point `(x, y)` goes to
/// `(a*x + c*y + e, b*x + d*y + f)`.
#[derive(Clone, Copy, Debug, PartialEq, Eq, Structural)]
pub struct Affine {
    pub a: Fixed,
    pub b: Fixed,
    pub c: Fixed,
    pub d: Fixed,
    pub e: Fixed,
    pub f: Fixed,
}

impl Point {
    /// The point with the given coordinates.
    pub open spec fn spec_new(x: Fixed, y: Fixed) -> Point {
        Point { x, y }
    }

    /// The point with the given coordinates.
    #[verifier::when_used_as_spec(spec_new)]
    pub fn new(x: Fixed, y: Fixed) -> (r: Point)
        ensures
            r == Point::spec_new(x, y),
    {
        Point { x, y }
    }

    /// The point at zero.
    pub open spec fn spec_origin() -> Point {
        Point { x: Fixed::spec_zero(), y: Fixed::spec_zero() }
    }

    /// The point at zero.
    #[verifier::when_used_as_spec(spec_origin)]
    pub fn origin() -> (r: Point)
        ensures
            r == Point::spec_origin(),
    {
        Point { x: Fixed::zero(), y: Fixed::zero() }
    }

    /// The image of the point under a rotation about zero.
    pub open spec fn spec_rotated(self, rotation: Rotation) -> Point {
        Point {
            x: self.x.spec_mul(rotation.cos).spec_sub(self.y.spec_mul(rotation.sin)),
            y: self.x.spec_mul(rotation.sin).spec_add(self.y.spec_mul(rotation.cos)),
        }
    }

    /// The image of the point under a rotation about zero.
    #[verifier::when_used_as_spec(spec_rotated)]
    pub fn rotated(self, rotation: Rotation) -> (r: Point)
        ensures
            r == self.spec_rotated(rotation),
    {
        Point {
            x: self.x.mul(rotation.cos).sub(self.y.mul(rotation.sin)),
            y: self.x.mul(rotation.sin).add(self.y.mul(rotation.cos)),
        }
    }
}

impl Vector {
    /// The displacement with the given coordinates.
    pub open spec fn spec_new(x: Fixed, y: Fixed) -> Vector {
        Vector { x, y }
    }

    /// The displacement with the given coordinates.
    #[verifier::when_used_as_spec(spec_new)]
    pub fn new(x: Fixed, y: Fixed) -> (r: Vector)
        ensures
            r == Vector::spec_new(x, y),
    {
        Vector { x, y }
    }
}

impl Size {
    /// The size with the given extents.
    pub open spec fn spec_new(width: Fixed, height: Fixed) -> Size {
        Size { width, height }
    }

    /// The size with the given extents.
    #[verifier::when_used_as_spec(spec_new)]
    pub fn new(width: Fixed, height: Fixed) -> (r: Size)
        ensures
            r == Size::spec_new(width, height),
    {
        Size { width, height }
    }

    /// Whether the size covers no area.
    pub open spec fn spec_is_empty(self) -> bool {
        self.width.raw <= 0 || self.height.raw <= 0
    }

    /// Whether the size covers no area.
    #[verifier::when_used_as_spec(spec_is_empty)]
    pub fn is_empty(self) -> (r: bool)
        ensures
            r == self.spec_is_empty(),
    {
        self.width.raw <= 0 || self.height.raw <= 0
    }
}

impl BorderRadius {
    /// The same radius at all four corners.
    pub open spec fn spec_uniform(radius: Fixed) -> BorderRadius {
        BorderRadius {
            top_left: radius,
            top_right: radius,
            bottom_right: radius,
            bottom_left: radius,
        }
    }

    /// The same radius at all four corners.
    #[verifier::when_used_as_spec(spec_uniform)]
    pub fn uniform(radius: Fixed) -> (r: BorderRadius)
        ensures
            r == BorderRadius::spec_uniform(radius),
    {
        BorderRadius {
            top_left: radius,
            top_right: radius,
            bottom_right: radius,
            bottom_left: radius,
        }
    }
}

impl Rotation {
    /// The rotation by no angle.
    pub open spec fn spec_none() -> Rotation {
        Rotation { sin: Fixed::spec_zero(), cos: Fixed::spec_one() }
    }

    /// The rotation by no angle.
    #[verifier::when_used_as_spec(spec_none)]
    pub fn none() -> (r: Rotation)
        ensures
            r == Rotation::spec_none(),
    {
        Rotation { sin: Fixed::zero(), cos: Fixed::one() }
    }
}

impl Rect {
    /// The rectangle with the given origin and size.
    pub open spec fn spec_new(origin: Point, size: Size) -> Rect {
        Rect { origin, size }
    }

    /// The rectangle with the given origin and size.
    #[verifier::when_used_as_spec(spec_new)]
    pub fn new(origin: Point, size: Size) -> (r: Rect)
        ensures
            r == Rect::spec_new(origin, size),
    {
        Rect { origin, size }
    }

    /// The rectangle of the given size at zero.
    pub open spec fn spec_from_size(size: Size) -> Rect {
        Rect { origin: Point::spec_origin(), size }
    }

    /// The rectangle of the given size at zero.
    #[verifier::when_used_as_spec(spec_from_size)]
    pub fn from_size(size: Size) -> (r: Rect)
        ensures
            r == Rect::spec_from_size(size),
    {
        Rect { origin: Point::origin(), size }
    }

    /// The rectangle of no size at zero.
    pub open spec fn spec_zero() -> Rect {
        Rect {
            origin: Point::spec_origin(),
            size: Size { width: Fixed::spec_zero(), height: Fixed::spec_zero() },
        }
    }

    /// The rectangle of no size at zero.
    #[verifier::when_used_as_spec(spec_zero)]
    pub fn zero() -> (r: Rect)
        ensures
            r == Rect::spec_zero(),
    {
        Rect { origin: Point::origin(), size: Size { width: Fixed::zero(), height: Fixed::zero() } }
    }

    /// The horizontal end of the rectangle.
    pub open spec fn spec_max_x(self) -> Fixed {
        self.origin.x.spec_add(self.size.width)
    }

    /// The horizontal end of the rectangle.
    #[verifier::when_used_as_spec(spec_max_x)]
    pub fn max_x(self) -> (r: Fixed)
        ensures
            r == self.spec_max_x(),
    {
        self.origin.x.add(self.size.width)
    }

    /// The vertical end of the rectangle.
    pub open spec fn spec_max_y(self) -> Fixed {
        self.origin.y.spec_add(self.size.height)
    }

    /// The vertical end of the rectangle.
    #[verifier::when_used_as_spec(spec_max_y)]
    pub fn max_y(self) -> (r: Fixed)
        ensures
            r == self.spec_max_y(),
    {
        self.origin.y.add(self.size.height)
    }

    /// Whether the rectangle covers no area.
    pub open spec fn spec_is_empty(self) -> bool {
        self.size.spec_is_empty()
    }

    /// Whether the rectangle covers no area.
    #[verifier::when_used_as_spec(spec_is_empty)]
    pub fn is_empty(self) -> (r: bool)
        ensures
            r == self.spec_is_empty(),
    {
        self.size.is_empty()
    }

    /// Whether the two rectangles have a region of positive area in common.
    pub open spec fn overlaps(self, other: Rect) -> bool {
        self.origin.x.spec_max(other.origin.x).raw < self.spec_max_x().spec_min(
            other.spec_max_x(),
        ).raw && self.origin.y.spec_max(other.origin.y).raw < self.spec_max_y().spec_min(
            other.spec_max_y(),
        ).raw
    }

    /// The region that the two rectangles have in common, if it has any area.
    pub open spec fn spec_intersection(self, other: Rect) -> Option<Rect> {
        if self.overlaps(other) {
            let x0 = self.origin.x.spec_max(other.origin.x);
            let y0 = self.origin.y.spec_max(other.origin.y);
            let x1 = self.spec_max_x().spec_min(other.spec_max_x());
            let y1 = self.spec_max_y().spec_min(other.spec_max_y());
            Some(
                Rect {
                    origin: Point { x: x0, y: y0 },
                    size: Size { width: x1.spec_sub(x0), height: y1.spec_sub(y0) },
                },
            )
        } else {
            None
        }
    }

    /// The region that the two rectangles have in common, if it has any area.
    #[verifier::when_used_as_spec(spec_intersection)]
    pub fn intersection(self, other: Rect) -> (r: Option<Rect>)
        ensures
            r == self.spec_intersection(other),
    {
        let x0 = self.origin.x.max(other.origin.x);
        let y0 = self.origin.y.max(other.origin.y);
        let x1 = self.max_x().min(other.max_x());
        let y1 = self.max_y().min(other.max_y());
        if x1.raw > x0.raw && y1.raw > y0.raw {
            Some(
                Rect {
                    origin: Point { x: x0, y: y0 },
                    size: Size { width: x1.sub(x0), height: y1.sub(y0) },
                },
            )
        } else {
            None
        }
    }

    /// The rectangle moved by `by`.
    pub open spec fn spec_translate(self, by: Vector) -> Rect {
        Rect {
            origin: Point { x: self.origin.x.spec_add(by.x), y: self.origin.y.spec_add(by.y) },
            size: self.size,
        }
    }

    /// The rectangle moved by `by`.
    #[verifier::when_used_as_spec(spec_translate)]
    pub fn translate(self, by: Vector) -> (r: Rect)
        ensures
            r == self.spec_translate(by),
    {
        Rect {
            origin: Point { x: self.origin.x.add(by.x), y: self.origin.y.add(by.y) },
            size: self.size,
        }
    }

    /// The rectangle with its extents divided by the two factors.
    pub open spec fn spec_unscale(self, x_factor: Fixed, y_factor: Fixed) -> Rect {
        Rect {
            origin: self.origin,
            size: Size {
                width: self.size.width.spec_div(x_factor),
                height: self.size.height.spec_div(y_factor),
            },
        }
    }

    /// The rectangle with its extents divided by the two factors.
    #[verifier::when_used_as_spec(spec_unscale)]
    pub fn unscale(self, x_factor: Fixed, y_factor: Fixed) -> (r: Rect)
        ensures
            r == self.spec_unscale(x_factor, y_factor),
    {
        Rect {
            origin: self.origin,
            size: Size {
                width: self.size.width.div(x_factor),
                height: self.size.height.div(y_factor),
            },
        }
    }

    /// The four corners: the origin, the corner beside it, the one below it,
    /// and the one opposite.
    pub open spec fn corners(self) -> (Point, Point, Point, Point) {
        (
            self.origin,
            Point { x: self.origin.x.spec_add(self.size.width), y: self.origin.y },
            Point { x: self.origin.x, y: self.origin.y.spec_add(self.size.height) },
            Point {
                x: self.origin.x.spec_add(self.size.width),
                y: self.origin.y.spec_add(self.size.height),
            },
        )
    }

    /// The smallest rectangle with sides along the axes that holds the four
    /// corners of this rectangle after a rotation about zero.
    pub open spec fn spec_rotated_bounds(self, rotation: Rotation) -> Rect {
        let (c0, c1, c2, c3) = self.corners();
        bounding_rect(
            c0.spec_rotated(rotation),
            c1.spec_rotated(rotation),
            c2.spec_rotated(rotation),
            c3.spec_rotated(rotation),
        )
    }

    /// The smallest rectangle with sides along the axes that holds the four
    /// corners of this rectangle after a rotation about zero.
    #[verifier::when_used_as_spec(spec_rotated_bounds)]
    pub fn rotated_bounds(self, rotation: Rotation) -> (r: Rect)
        ensures
            r == self.spec_rotated_bounds(rotation),
    {
        let right = self.origin.x.add(self.size.width);
        let bottom = self.origin.y.add(self.size.height);
        let c0 = self.origin.rotated(rotation);
        let c1 = Point { x: right, y: self.origin.y }.rotated(rotation);
        let c2 = Point { x: self.origin.x, y: bottom }.rotated(rotation);
        let c3 = Point { x: right, y: bottom }.rotated(rotation);
        let x0 = c0.x.min(c1.x).min(c2.x).min(c3.x);
        let y0 = c0.y.min(c1.y).min(c2.y).min(c3.y);
        let x1 = c0.x.max(c1.x).max(c2.x).max(c3.x);
        let y1 = c0.y.max(c1.y).max(c2.y).max(c3.y);
        Rect {
            origin: Point { x: x0, y: y0 },
            size: Size { width: x1.sub(x0), height: y1.sub(y0) },
        }
    }
}

/// The smallest rectangle with sides along the axes that holds four points.
pub open spec fn bounding_rect(p0: Point, p1: Point, p2: Point, p3: Point) -> Rect {
    let x0 = p0.x.spec_min(p1.x).spec_min(p2.x).spec_min(p3.x);
    let y0 = p0.y.spec_min(p1.y).spec_min(p2.y).spec_min(p3.y);
    let x1 = p0.x.spec_max(p1.x).spec_max(p2.x).spec_max(p3.x);
    let y1 = p0.y.spec_max(p1.y).spec_max(p2.y).spec_max(p3.y);
    Rect { origin: Point { x: x0, y: y0 }, size: Size { width: x1.spec_sub(x0), height: y1.spec_sub(y0) } }
}

impl PhysicalRect {
    /// The rectangle with the given corners.
    pub open spec fn spec_new(x0: Fixed, y0: Fixed, x1: Fixed, y1: Fixed) -> PhysicalRect {
        PhysicalRect { x0, y0, x1, y1 }
    }

    /// The rectangle with the given corners.
    #[verifier::when_used_as_spec(spec_new)]
    pub fn new(x0: Fixed, y0: Fixed, x1: Fixed, y1: Fixed) -> (r: PhysicalRect)
        ensures
            r == PhysicalRect::spec_new(x0, y0, x1, y1),
    {
        PhysicalRect { x0, y0, x1, y1 }
    }

    /// The horizontal extent.
    pub open spec fn spec_width(self) -> Fixed {
        self.x1.spec_sub(self.x0)
    }

    /// The horizontal extent.
    #[verifier::when_used_as_spec(spec_width)]
    pub fn width(self) -> (r: Fixed)
        ensures
            r == self.spec_width(),
    {
        self.x1.sub(self.x0)
    }

    /// The vertical extent.
    pub open spec fn spec_height(self) -> Fixed {
        self.y1.spec_sub(self.y0)
    }

    /// The vertical extent.
    #[verifier::when_used_as_spec(spec_height)]
    pub fn height(self) -> (r: Fixed)
        ensures
            r == self.spec_height(),
    {
        self.y1.sub(self.y0)
    }
}

impl IntRect {
    /// Whether the rectangle holds no pixel.
    pub open spec fn spec_is_empty(self) -> bool {
        self.width <= 0 || self.height <= 0
    }

    /// Whether the rectangle holds no pixel.
    #[verifier::when_used_as_spec(spec_is_empty)]
    pub fn is_empty(self) -> (r: bool)
        ensures
            r == self.spec_is_empty(),
    {
        self.width <= 0 || self.height <= 0
    }
}

impl Affine {
    /// The transform that moves nothing.
    pub open spec fn spec_identity() -> Affine {
        Affine {
            a: Fixed::spec_one(),
            b: Fixed::spec_zero(),
            c: Fixed::spec_zero(),
            d: Fixed::spec_one(),
            e: Fixed::spec_zero(),
            f: Fixed::spec_zero(),
        }
    }

    /// The transform that moves nothing.
    #[verifier::when_used_as_spec(spec_identity)]
    pub fn identity() -> (r: Affine)
        ensures
            r == Affine::spec_identity(),
    {
        Affine {
            a: Fixed::one(),
            b: Fixed::zero(),
            c: Fixed::zero(),
            d: Fixed::one(),
            e: Fixed::zero(),
            f: Fixed::zero(),
        }
    }

    /// The transform that moves every point by `(x, y)`.
    pub open spec fn spec_translation(x: Fixed, y: Fixed) -> Affine {
        Affine {
            a: Fixed::spec_one(),
            b: Fixed::spec_zero(),
            c: Fixed::spec_zero(),
            d: Fixed::spec_one(),
            e: x,
            f: y,
        }
    }

    /// The transform that moves every point by `(x, y)`.
    #[verifier::when_used_as_spec(spec_translation)]
    pub fn translation(x: Fixed, y: Fixed) -> (r: Affine)
        ensures
            r == Affine::spec_translation(x, y),
    {
        Affine { a: Fixed::one(), b: Fixed::zero(), c: Fixed::zero(), d: Fixed::one(), e: x, f: y }
    }

    /// The transform that turns every point about zero.
    pub open spec fn spec_rotation(rotation: Rotation) -> Affine {
        Affine {
            a: rotation.cos,
            b: rotation.sin,
            c: rotation.sin.spec_neg(),
            d: rotation.cos,
            e: Fixed::spec_zero(),
            f: Fixed::spec_zero(),
        }
    }

    /// The transform that turns every point about zero.
    #[verifier::when_used_as_spec(spec_rotation)]
    pub fn rotation(rotation: Rotation) -> (r: Affine)
        ensures
            r == Affine::spec_rotation(rotation),
    {
        Affine {
            a: rotation.cos,
            b: rotation.sin,
            c: rotation.sin.neg(),
            d: rotation.cos,
            e: Fixed::zero(),
            f: Fixed::zero(),
        }
    }

    /// The transform that stretches the two axes by the two factors.
    pub open spec fn spec_scaling(x_factor: Fixed, y_factor: Fixed) -> Affine {
        Affine {
            a: x_factor,
            b: Fixed::spec_zero(),
            c: Fixed::spec_zero(),
            d: y_factor,
            e: Fixed::spec_zero(),
            f: Fixed::spec_zero(),
        }
    }

    /// The transform that stretches the two axes by the two factors.
    #[verifier::when_used_as_spec(spec_scaling)]
    pub fn scaling(x_factor: Fixed, y_factor: Fixed) -> (r: Affine)
        ensures
            r == Affine::spec_scaling(x_factor, y_factor),
    {
        Affine {
            a: x_factor,
            b: Fixed::zero(),
            c: Fixed::zero(),
            d: y_factor,
            e: Fixed::zero(),
            f: Fixed::zero(),
        }
    }

    /// The transform that applies `inner` first and `self` to what it gives.
    pub open spec fn spec_compose(self, inner: Affine) -> Affine {
        Affine {
            a: self.a.spec_mul(inner.a).spec_add(self.c.spec_mul(inner.b)),
            b: self.b.spec_mul(inner.a).spec_add(self.d.spec_mul(inner.b)),
            c: self.a.spec_mul(inner.c).spec_add(self.c.spec_mul(inner.d)),
            d: self.b.spec_mul(inner.c).spec_add(self.d.spec_mul(inner.d)),
            e: self.a.spec_mul(inner.e).spec_add(self.c.spec_mul(inner.f)).spec_add(self.e),
            f: self.b.spec_mul(inner.e).spec_add(self.d.spec_mul(inner.f)).spec_add(self.f),
        }
    }

    /// The transform that applies `inner` first and `self` to what it gives.
    #[verifier::when_used_as_spec(spec_compose)]
    pub fn compose(self, inner: Affine) -> (r: Affine)
        ensures
            r == self.spec_compose(inner),
    {
        Affine {
            a: self.a.mul(inner.a).add(self.c.mul(inner.b)),
            b: self.b.mul(inner.a).add(self.d.mul(inner.b)),
            c: self.a.mul(inner.c).add(self.c.mul(inner.d)),
            d: self.b.mul(inner.c).add(self.d.mul(inner.d)),
            e: self.a.mul(inner.e).add(self.c.mul(inner.f)).add(self.e),
            f: self.b.mul(inner.e).add(self.d.mul(inner.f)).add(self.f),
        }
    }
}

/// Composing with the identity on either side changes nothing.
pub proof fn lemma_compose_identity(t: Affine)
    ensures
        t.spec_compose(Affine::spec_identity()) == t,
        Affine::spec_identity().spec_compose(t) == t,
{
    lemma_mul_one(t.a);
    lemma_mul_one(t.b);
    lemma_mul_one(t.c);
    lemma_mul_one(t.d);
    lemma_mul_one(t.e);
    lemma_mul_one(t.f);
    lemma_mul_zero(t.a);
    lemma_mul_zero(t.b);
    lemma_mul_zero(t.c);
    lemma_mul_zero(t.d);
    lemma_mul_zero(t.e);
    lemma_mul_zero(t.f);
}

/// A rotation by no angle leaves every point where it is.
pub proof fn lemma_rotated_by_none(p: Point)
    ensures
        p.spec_rotated(Rotation::spec_none()) == p,
{
    lemma_mul_one(p.x);
    lemma_mul_one(p.y);
    lemma_mul_zero(p.x);
    lemma_mul_zero(p.y);
}

/// The bounds of a rectangle under a rotation by no angle are the rectangle
/// itself, if its extents are not negative and its far corner lies within the
/// range of the numbers.
pub proof fn lemma_rotated_bounds_by_none(r: Rect)
    requires
        r.size.width.raw >= 0,
        r.size.height.raw >= 0,
        r.origin.x.raw + r.size.width.raw <= MAX_RAW,
        r.origin.y.raw + r.size.height.raw <= MAX_RAW,
    ensures
        r.spec_rotated_bounds(Rotation::spec_none()) == r,
{
    let (c0, c1, c2, c3) = r.corners();
    lemma_rotated_by_none(c0);
    lemma_rotated_by_none(c1);
    lemma_rotated_by_none(c2);
    lemma_rotated_by_none(c3);
    assert(MIN_RAW <= r.origin.x.raw);
    assert(MIN_RAW <= r.origin.y.raw);
}

} // verus!
