use wgpu_learn_02::primitives::{Color, Point2, COORD_MAX, COORD_ONE};

#[test]
fn point_construction_and_axis_moves() {
    let p = Point2::new(3, -4);
    assert_eq!((p.x, p.y), (3, -4));
    let q = p.add_to_x(10);
    assert_eq!((q.x, q.y), (13, -4));
    let r = p.add_to_y(-6);
    assert_eq!((r.x, r.y), (3, -10));
}

#[test]
fn point_scalar_moves_touch_both_axes() {
    let p = Point2::new(COORD_ONE, -COORD_ONE);
    let q = p.add_scalar(5);
    assert_eq!((q.x, q.y), (COORD_ONE + 5, -COORD_ONE + 5));
    let r = p.sub_scalar(5);
    assert_eq!((r.x, r.y), (COORD_ONE - 5, -COORD_ONE - 5));
}

#[test]
fn coord_bounds_are_generous() {
    // The whole normalized device square sits well inside the accepted range.
    assert!(COORD_ONE <= COORD_MAX);
    let corner = Point2::new(COORD_MAX, -COORD_MAX);
    assert_eq!(corner.x, -corner.y);
}

#[test]
fn color_keeps_its_channels() {
    let c = Color::from_srgba(1, 2, 3, 4);
    assert_eq!(c, Color(1, 2, 3, 4));
    assert_ne!(c, Color(1, 2, 3, 5));
}
