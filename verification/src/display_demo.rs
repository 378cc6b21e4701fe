use vstd::prelude::*;
use crate::geometry::{Point, Shape, spec_translate, spec_add};

verus! {

/// Width of the SSD1306 panel in pixels.
pub const DISPLAY_WIDTH: i32 = 128;
/// Height of the SSD1306 panel in pixels.
pub const DISPLAY_HEIGHT: i32 = 32;
/// The I2C clock towards the display, in kHz.
pub const I2C_CLOCK_KHZ: u32 = 100;

/// Largest shape size for which every coordinate of the demo stays in `i32`.
pub open spec fn size_fits(size: i32) -> bool {
    0 <= size && 3 * size + 30 <= i32::MAX
}

/// Where the first shape is moved: 10 pixels in, and centred on row 20.
pub open spec fn first_offset(size: i32) -> Point {
    Point { x: 10, y: (42int / 2 - size / 2 - 1) as i32 }
}

/// The distance from one shape to the next: the shape and 10 pixels of gap.
pub open spec fn spacing(size: i32) -> Point {
    Point { x: (size + 10) as i32, y: 0 }
}

/// The frame around the panel.
pub open spec fn outline() -> Shape {
    Shape::Rectangle { top_left: Point { x: 0, y: 0 }, bottom_right: Point { x: 128, y: 31 } }
}

/// The demo's four outlines, in drawing order: the frame, then a triangle,
/// a square and a circle of the given size side by side, each moved
/// one spacing further to the right.
pub open spec fn spec_scene(size: i32) -> Seq<Shape> {
    let o0 = first_offset(size);
    let o1 = spec_add(o0, spacing(size));
    let o2 = spec_add(o1, spacing(size));
    let triangle = Shape::Triangle {
        p1: Point { x: 0, y: size },
        p2: Point { x: (size / 2) as i32, y: 0 },
        p3: Point { x: size, y: size },
    };
    let square = Shape::Rectangle { top_left: Point { x: 0, y: 0 }, bottom_right: Point { x: size, y: size } };
    let circle = Shape::Circle { center: Point { x: (size / 2) as i32, y: (size / 2) as i32 }, radius: (size as u32) / 2 };
    seq![outline(), spec_translate(triangle, o0), spec_translate(square, o1), spec_translate(circle, o2)]
}

/// The outlines that the display demo draws for shapes of `size` pixels.
pub fn scene(size: i32) -> (shapes: Vec<Shape>)
    requires
        size_fits(size),
    ensures
        shapes@ == spec_scene(size),
        shapes@.len() == 4,
        shapes@[0] == (Shape::Rectangle { top_left: Point { x: 0, y: 0 }, bottom_right: Point { x: 128, y: 31 } }),
{
    let half = size / 2;
    let offset = Point::new(10, (42 / 2) - half - 1);
    let step = Point::new(size + 10, 0);

    let mut shapes: Vec<Shape> = Vec::new();
    shapes.push(Shape::Rectangle { top_left: Point::new(0, 0), bottom_right: Point::new(128, 31) });

    let triangle = Shape::Triangle { p1: Point::new(0, size), p2: Point::new(half, 0), p3: Point::new(size, size) };
    shapes.push(triangle.translate(offset));

    let offset = offset.add(step);
    let square = Shape::Rectangle { top_left: Point::new(0, 0), bottom_right: Point::new(size, size) };
    shapes.push(square.translate(offset));

    let offset = offset.add(step);
    let circle = Shape::Circle { center: Point::new(half, half), radius: (size as u32) / 2 };
    shapes.push(circle.translate(offset));

    assert(shapes@ =~= spec_scene(size));
    shapes
}

/// The leftmost and rightmost columns that one of the demo's shapes covers
/// (a demo triangle spans from its first to its third corner).
pub open spec fn columns(s: Shape) -> (int, int) {
    match s {
        Shape::Rectangle { top_left, bottom_right } => (top_left.x as int, bottom_right.x as int),
        Shape::Triangle { p1, p2, p3 } => (p1.x as int, p3.x as int),
        Shape::Circle { center, radius } => (center.x - radius, center.x + radius),
    }
}

/// The scene holds four shapes, and the first is the panel frame from
/// (0, 0) to (128, 31), whatever the size.
pub proof fn lemma_scene_frame(size: i32)
    requires
        size_fits(size),
    ensures
        spec_scene(size).len() == 4,
        spec_scene(size)[0] == (Shape::Rectangle { top_left: Point { x: 0, y: 0 }, bottom_right: Point { x: 128, y: 31 } }),
        forall|other: i32| size_fits(other) ==> spec_scene(other)[0] == spec_scene(size)[0],
{
}

/// The three demo shapes stand left to right, starting at column 10, with a
/// gap of 10 pixels between neighbours: the triangle and the square are
/// `size` wide, the circle twice its radius `size / 2`.
pub proof fn lemma_scene_side_by_side(size: i32)
    requires
        size_fits(size),
    ensures
        columns(spec_scene(size)[1]) == (10int, 10 + size),
        columns(spec_scene(size)[2]) == (20 + size, 20 + 2 * size),
        columns(spec_scene(size)[3]) == (30 + 2 * size, 30 + 2 * size + 2 * (size / 2)),
{
}

/// The demo shapes share one band of rows: from `20 - size/2` to `20 - size/2 + size`.
pub proof fn lemma_scene_rows(size: i32)
    requires
        size_fits(size),
    ensures
        ({
            let top = 20 - size / 2;
            &&& spec_scene(size)[1] == (Shape::Triangle {
                p1: Point { x: 10, y: (top + size) as i32 },
                p2: Point { x: (10 + size / 2) as i32, y: top as i32 },
                p3: Point { x: (10 + size) as i32, y: (top + size) as i32 },
            })
            &&& spec_scene(size)[2] == (Shape::Rectangle {
                top_left: Point { x: (20 + size) as i32, y: top as i32 },
                bottom_right: Point { x: (20 + 2 * size) as i32, y: (top + size) as i32 },
            })
            &&& spec_scene(size)[3] == (Shape::Circle {
                center: Point { x: (30 + 2 * size + size / 2) as i32, y: (top + size / 2) as i32 },
                radius: (size / 2) as u32,
            })
        }),
{
}

} // verus!
