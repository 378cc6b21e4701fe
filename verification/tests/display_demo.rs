use stm32f4ve::display_demo::{scene, DISPLAY_HEIGHT, DISPLAY_WIDTH, I2C_CLOCK_KHZ};
use stm32f4ve::geometry::{Point, Shape};

fn p(x: i32, y: i32) -> Point {
    Point::new(x, y)
}

#[test]
fn demo_scene_for_size_ten() {
    let shapes = scene(10);
    assert_eq!(
        shapes,
        vec![
            Shape::Rectangle { top_left: p(0, 0), bottom_right: p(128, 31) },
            Shape::Triangle { p1: p(10, 25), p2: p(15, 15), p3: p(20, 25) },
            Shape::Rectangle { top_left: p(30, 15), bottom_right: p(40, 25) },
            Shape::Circle { center: p(55, 20), radius: 5 },
        ]
    );
}

#[test]
fn demo_shapes_fit_the_panel_for_size_ten() {
    assert_eq!((DISPLAY_WIDTH, DISPLAY_HEIGHT, I2C_CLOCK_KHZ), (128, 32, 100));
    for s in scene(10) {
        let pts: Vec<Point> = match s {
            Shape::Rectangle { top_left, bottom_right } => vec![top_left, bottom_right],
            Shape::Triangle { p1, p2, p3 } => vec![p1, p2, p3],
            Shape::Circle { center, radius } => {
                let r = radius as i32;
                vec![p(center.x - r, center.y - r), p(center.x + r, center.y + r)]
            }
        };
        for q in pts {
            assert!(q.x >= 0 && q.x <= DISPLAY_WIDTH && q.y >= 0 && q.y < DISPLAY_HEIGHT);
        }
    }
}

#[test]
fn odd_size_rounds_halves_down() {
    let shapes = scene(7);
    assert_eq!(shapes[1], Shape::Triangle { p1: p(10, 24), p2: p(13, 17), p3: p(17, 24) });
    assert_eq!(shapes[3], Shape::Circle { center: p(47, 20), radius: 3 });
}

#[test]
fn zero_size_collapses_to_points() {
    let shapes = scene(0);
    assert_eq!(shapes[2], Shape::Rectangle { top_left: p(20, 20), bottom_right: p(20, 20) });
    assert_eq!(shapes[3], Shape::Circle { center: p(30, 20), radius: 0 });
}

#[test]
fn translate_and_back() {
    let t = Shape::Triangle { p1: p(0, 10), p2: p(5, 0), p3: p(10, 10) };
    let moved = t.translate(p(3, -4));
    assert_eq!(moved, Shape::Triangle { p1: p(3, 6), p2: p(8, -4), p3: p(13, 6) });
    assert_eq!(moved.translate(p(-3, 4)), t);
    assert_eq!(t.translate(p(0, 0)), t);
}

#[test]
fn translate_composes() {
    let c = Shape::Circle { center: p(1, 2), radius: 9 };
    let a = p(4, 5);
    let b = p(-7, 11);
    assert_eq!(c.translate(a).translate(b), c.translate(a.add(b)));
}
