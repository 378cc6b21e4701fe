use vstd::prelude::*;

verus! {

/// A point on the display, in pixels; x grows to the right, y downwards.
#[derive(Debug, Clone, Copy, PartialEq, Eq, Structural)]
pub struct Point {
    pub x: i32,
    pub y: i32,
}

/// The outlines drawn by the display demo.
#[derive(Debug, Clone, Copy, PartialEq, Eq, Structural)]
pub enum Shape {
    Rectangle { top_left: Point, bottom_right: Point },
    Triangle { p1: Point, p2: Point, p3: Point },
    Circle { center: Point, radius: u32 },
}

/// Whether `a + b` can be computed without leaving `i32`.
pub open spec fn sum_fits(a: Point, b: Point) -> bool {
    i32::MIN <= a.x + b.x <= i32::MAX && i32::MIN <= a.y + b.y <= i32::MAX
}

/// The componentwise sum.
pub open spec fn spec_add(a: Point, b: Point) -> Point {
    Point { x: (a.x + b.x) as i32, y: (a.y + b.y) as i32 }
}

/// Whether every point of `s` can be moved by `by` without leaving `i32`.
pub open spec fn translate_fits(s: Shape, by: Point) -> bool {
    match s {
        Shape::Rectangle { top_left, bottom_right } => sum_fits(top_left, by) && sum_fits(bottom_right, by),
        Shape::Triangle { p1, p2, p3 } => sum_fits(p1, by) && sum_fits(p2, by) && sum_fits(p3, by),
        Shape::Circle { center, radius } => sum_fits(center, by),
    }
}

/// `s` moved by `by`: every corner, or the centre, shifted; a radius kept.
pub open spec fn spec_translate(s: Shape, by: Point) -> Shape {
    match s {
        Shape::Rectangle { top_left, bottom_right } => Shape::Rectangle {
            top_left: spec_add(top_left, by),
            bottom_right: spec_add(bottom_right, by),
        },
        Shape::Triangle { p1, p2, p3 } => Shape::Triangle {
            p1: spec_add(p1, by),
            p2: spec_add(p2, by),
            p3: spec_add(p3, by),
        },
        Shape::Circle { center, radius } => Shape::Circle { center: spec_add(center, by), radius },
    }
}

impl Point {
    pub fn new(x: i32, y: i32) -> (p: Point)
        ensures
            p == (Point { x, y }),
    {
        Point { x, y }
    }

    /// The componentwise sum of two points.
    pub fn add(self, other: Point) -> (p: Point)
        requires
            sum_fits(self, other),
        ensures
            p == spec_add(self, other),
            p.x == self.x + other.x,
            p.y == self.y + other.y,
    {
        Point { x: self.x + other.x, y: self.y + other.y }
    }
}

impl Shape {
    /// The shape moved by `by`.
    pub fn translate(&self, by: Point) -> (t: Shape)
        requires
            translate_fits(*self, by),
        ensures
            t == spec_translate(*self, by),
    {
        match *self {
            Shape::Rectangle { top_left, bottom_right } => Shape::Rectangle {
                top_left: top_left.add(by),
                bottom_right: bottom_right.add(by),
            },
            Shape::Triangle { p1, p2, p3 } => Shape::Triangle { p1: p1.add(by), p2: p2.add(by), p3: p3.add(by) },
            Shape::Circle { center, radius } => Shape::Circle { center: center.add(by), radius },
        }
    }
}

/// The sum of two points is taken coordinate by coordinate.
pub proof fn lemma_add_componentwise(a: Point, b: Point)
    requires
        sum_fits(a, b),
    ensures
        spec_add(a, b).x == a.x + b.x,
        spec_add(a, b).y == a.y + b.y,
{
}

/// A moved rectangle has both corners moved by the offset, coordinate by coordinate.
pub proof fn lemma_translate_rectangle(top_left: Point, bottom_right: Point, by: Point)
    requires
        sum_fits(top_left, by),
        sum_fits(bottom_right, by),
    ensures
        ({
            let t = spec_translate(Shape::Rectangle { top_left, bottom_right }, by);
            &&& t is Rectangle
            &&& t->top_left.x == top_left.x + by.x
            &&& t->top_left.y == top_left.y + by.y
            &&& t->bottom_right.x == bottom_right.x + by.x
            &&& t->bottom_right.y == bottom_right.y + by.y
        }),
{
}

/// A moved triangle has each of its three corners moved by the offset.
pub proof fn lemma_translate_triangle(p1: Point, p2: Point, p3: Point, by: Point)
    requires
        sum_fits(p1, by),
        sum_fits(p2, by),
        sum_fits(p3, by),
    ensures
        ({
            let t = spec_translate(Shape::Triangle { p1, p2, p3 }, by);
            &&& t is Triangle
            &&& t->p1.x == p1.x + by.x && t->p1.y == p1.y + by.y
            &&& t->p2.x == p2.x + by.x && t->p2.y == p2.y + by.y
            &&& t->p3.x == p3.x + by.x && t->p3.y == p3.y + by.y
        }),
{
}

/// A moved circle has its centre moved by the offset and keeps its radius.
pub proof fn lemma_translate_circle(center: Point, radius: u32, by: Point)
    requires
        sum_fits(center, by),
    ensures
        ({
            let t = spec_translate(Shape::Circle { center, radius }, by);
            &&& t is Circle
            &&& t->center.x == center.x + by.x
            &&& t->center.y == center.y + by.y
            &&& t->radius == radius
        }),
{
}

/// Moving by the origin leaves a shape where it is.
pub proof fn lemma_translate_by_origin(s: Shape)
    ensures
        spec_translate(s, Point { x: 0, y: 0 }) == s,
{
}

/// Moving by `a` and then by `b` is moving once by `a + b`.
pub proof fn lemma_translate_compose(s: Shape, a: Point, b: Point)
    requires
        translate_fits(s, a),
        translate_fits(spec_translate(s, a), b),
        sum_fits(a, b),
    ensures
        spec_translate(spec_translate(s, a), b) == spec_translate(s, spec_add(a, b)),
{
}

/// Moving a shape and moving it back by the opposite amount returns it.
pub proof fn lemma_translate_undo(s: Shape, by: Point)
    requires
        translate_fits(s, by),
        by.x != i32::MIN,
        by.y != i32::MIN,
    ensures
        spec_translate(spec_translate(s, by), Point { x: -by.x as i32, y: -by.y as i32 }) == s,
{
}

} // verus!
