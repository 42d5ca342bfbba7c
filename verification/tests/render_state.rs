use wgpu_learn_02::primitives::{Point2, COORD_ONE};
use wgpu_learn_02::render_state::{DrawError, RenderState};

const W: i64 = COORD_ONE; // one drawing unit in micro-units

#[test]
fn empty_builder_has_nothing() {
    let s = RenderState::new();
    assert!(s.vertices.is_empty());
    assert!(s.indices.is_empty());
    assert_eq!(s.primitives_count, 0);
}

#[test]
fn unit_square_at_origin() {
    let mut s = RenderState::new();
    s.draw_square(Point2::new(0, 0), W);
    // top-left, bottom-left, bottom-right, top-right
    assert_eq!(s.vertices, vec![0, 0, 0, -W, W, -W, W, 0]);
    assert_eq!(s.indices, vec![0, 1, 2, 0, 2, 3]);
    assert_eq!(s.primitives_count, 2);
}

#[test]
fn each_square_adds_two_primitives() {
    let mut s = RenderState::new();
    s.draw_square(Point2::new(0, 0), W);
    s.draw_square(Point2::new(2 * W, 2 * W), W / 2);
    assert_eq!(s.primitives_count, 4);
    assert_eq!(s.vertices.len(), 16);
    assert_eq!(s.indices.len(), 12);
}

#[test]
fn square_with_negative_width_reflects() {
    let mut s = RenderState::new();
    s.draw_square(Point2::new(0, 0), -W);
    assert_eq!(s.vertices, vec![0, 0, 0, W, -W, W, -W, 0]);
    assert_eq!(s.primitives_count, 2);
}

#[test]
fn second_triangle_indices_offset_by_three() {
    let mut s = RenderState::new();
    s.draw_triangle_ccw(Point2::new(0, 0), Point2::new(W, 0), Point2::new(W, W));
    let first: Vec<u16> = s.indices.clone();
    s.draw_triangle_ccw(
        Point2::new(-W, -W),
        Point2::new(0, -W),
        Point2::new(0, 0),
    );
    assert_eq!(first, vec![0, 1, 2]);
    assert_eq!(s.indices, vec![0, 1, 2, 3, 4, 5]);
    for i in 0..3 {
        assert_eq!(s.indices[3 + i], first[i] + 3);
    }
    assert_eq!(s.primitives_count, 2);
}

#[test]
fn triangle_records_points_as_given() {
    let mut s = RenderState::new();
    s.draw_triangle_ccw(
        Point2::new(1, 2),
        Point2::new(3, 4),
        Point2::new(5, 6),
    );
    assert_eq!(s.vertices, vec![1, 2, 3, 4, 5, 6]);
    assert_eq!(s.primitives_count, 1);
}

#[test]
fn horizontal_line_quad_flanks_segment() {
    let mut s = RenderState::new();
    let p0 = Point2::new(0, 0);
    let p1 = Point2::new(W, 0);
    let stroke = W / 10;
    s.draw_line(p0, p1, stroke).unwrap();
    // top-left, bottom-left, bottom-right, top-right
    assert_eq!(
        s.vertices,
        vec![0, stroke, 0, -stroke, W, -stroke, W, stroke]
    );
    assert_eq!(s.indices, vec![0, 1, 2, 0, 2, 3]);
    assert_eq!(s.primitives_count, 2);

    let (tlx, tly) = (s.vertices[0], s.vertices[1]);
    let (blx, bly) = (s.vertices[2], s.vertices[3]);
    let (brx, bry) = (s.vertices[4], s.vertices[5]);
    let (trx, try_) = (s.vertices[6], s.vertices[7]);
    // the two long edges are translates of the segment
    assert_eq!((trx - tlx, try_ - tly), (p1.x - p0.x, p1.y - p0.y));
    assert_eq!((brx - blx, bry - bly), (p1.x - p0.x, p1.y - p0.y));
    // separated by exactly twice the stroke width
    assert_eq!(tly - bly, 2 * stroke);
    assert_eq!(tlx - blx, 0);
    // midpoints of the short edges are the endpoints
    assert_eq!((tlx + blx, tly + bly), (2 * p0.x, 2 * p0.y));
    assert_eq!((trx + brx, try_ + bry), (2 * p1.x, 2 * p1.y));
}

#[test]
fn diagonal_line_quad_is_exact_on_a_pythagorean_slope() {
    // A 3-4-5 segment: length 5 units exactly.
    let mut s = RenderState::new();
    let p0 = Point2::new(0, 0);
    let p1 = Point2::new(3 * W, 4 * W);
    let stroke = W / 2;
    s.draw_line(p0, p1, stroke).unwrap();
    let ox = -2 * W / 5; // stroke * -dy / length = (W/2)(-4W)/(5W)
    let oy = 3 * W / 10; // stroke * dx / length = (W/2)(3W)/(5W)
    assert_eq!(
        s.vertices,
        vec![
            ox,
            oy,
            -ox,
            -oy,
            p1.x - ox,
            p1.y - oy,
            p1.x + ox,
            p1.y + oy
        ]
    );
    // the flank offset has length exactly the stroke width
    assert_eq!(ox * ox + oy * oy, stroke * stroke);
    // and is perpendicular to the segment
    assert_eq!(ox * (p1.x - p0.x) + oy * (p1.y - p0.y), 0);
}

#[test]
fn degenerate_line_is_rejected_and_leaves_state_alone() {
    let mut s = RenderState::new();
    s.draw_square(Point2::new(0, 0), W);
    let before_vertices = s.vertices.clone();
    let before_indices = s.indices.clone();
    let p = Point2::new(W / 4, -W / 4);
    let res = s.draw_line(p, p, W / 10);
    assert_eq!(res, Err(DrawError::DegenerateLine));
    assert_eq!(s.vertices, before_vertices);
    assert_eq!(s.indices, before_indices);
    assert_eq!(s.primitives_count, 2);
}

#[test]
fn shapes_compose_without_index_collisions() {
    let mut s = RenderState::new();
    s.draw_square(Point2::new(-W, W), W / 2);
    s.draw_triangle_ccw(Point2::new(0, 0), Point2::new(W, 0), Point2::new(W, W));
    s.draw_line(Point2::new(0, -W / 10), Point2::new(W, -W), W / 200)
        .unwrap();
    assert_eq!(s.primitives_count, 5);
    assert_eq!(s.vertices.len(), 22);
    assert_eq!(s.indices, vec![0, 1, 2, 0, 2, 3, 4, 5, 6, 7, 8, 9, 7, 9, 10]);
    // every index points at a recorded vertex
    let vertex_count = (s.vertices.len() / 2) as u16;
    assert!(s.indices.iter().all(|&i| i < vertex_count));
    assert_eq!(s.indices.len(), 3 * s.primitives_count as usize);
}

#[test]
fn index_count_matches_index_list() {
    let mut s = RenderState::new();
    assert_eq!(s.index_count(), 0);
    s.draw_square(Point2::new(0, 0), W);
    assert_eq!(s.index_count(), 6);
}
