//! The immediate-mode shape builder.
//!
//! A [`RenderState`] collects a flat list of vertex coordinates (pairs of
//! micro-unit values, x then y), a list of `u16` indices that groups those
//! vertices into counter-clockwise triangles, and a count of primitives
//! drawn. Every drawing call appends: nothing already recorded ever moves,
//! and each appended index points at a vertex that exists.

use vstd::prelude::*;

use crate::numeric::{
    div_trunc, div_trunc_i64, isqrt, lemma_div_trunc_exact, lemma_div_trunc_magnitude,
    lemma_sqrt_floor_at_least, sqrt_floor,
};
use crate::primitives::{Point2, COORD_MAX};

verus! {

/// The mathematical content of a [`RenderState`].
pub struct RenderStateView {
    /// Flat vertex coordinates: element `2*i` is the x and `2*i + 1` the y
    /// of vertex `i`, in micro-units.
    pub vertices: Seq<i64>,
    /// Triples of vertex numbers, each triple one triangle.
    pub indices: Seq<u16>,
    /// How many primitives the drawing calls have produced.
    pub primitives: nat,
}

impl RenderStateView {
    /// Number of complete vertices recorded so far.
    pub open spec fn vertex_count(self) -> int {
        self.vertices.len() as int / 2
    }

    /// Coordinates come in pairs, every index points at a recorded vertex,
    /// and every primitive drawn has contributed exactly three indices.
    pub open spec fn wf(self) -> bool {
        &&& self.vertices.len() % 2 == 0
        &&& forall|i: int|
            0 <= i < self.indices.len() ==> (self.indices[i] as int) < self.vertex_count()
        &&& 3 * self.primitives == self.indices.len()
    }
}

/// An append-only builder of vertex and index lists for a GPU triangle-list
/// draw call.
#[derive(Debug, Clone)]
pub struct RenderState {
    /// Flat vertex coordinates in micro-units, x then y per vertex.
    pub vertices: Vec<i64>,
    /// Vertex numbers, three per triangle, counter-clockwise.
    pub indices: Vec<u16>,
    /// Primitives drawn so far.
    pub primitives_count: u32,
}

impl View for RenderState {
    type V = RenderStateView;

    open spec fn view(&self) -> RenderStateView {
        RenderStateView {
            vertices: self.vertices@,
            indices: self.indices@,
            primitives: self.primitives_count as nat,
        }
    }
}

/// Indices of one triangle over the three vertices starting at `base`.
pub open spec fn triangle_indices(base: int) -> Seq<u16> {
    seq![base as u16, (base + 1) as u16, (base + 2) as u16]
}

/// Indices of the two triangles of a quad over the four vertices starting
/// at `base`, wound counter-clockwise for a quad listed in the order
/// top-left, bottom-left, bottom-right, top-right.
pub open spec fn quad_indices(base: int) -> Seq<u16> {
    seq![
        base as u16,
        (base + 1) as u16,
        (base + 2) as u16,
        base as u16,
        (base + 2) as u16,
        (base + 3) as u16,
    ]
}

/// The four corners of an axis-aligned square with the given top-left
/// corner and side, in the order top-left, bottom-left, bottom-right,
/// top-right (counter-clockwise in a y-up coordinate system).
pub open spec fn square_vertices(top_left: Point2, width: i64) -> Seq<i64> {
    seq![
        top_left.x,
        top_left.y,
        top_left.x,
        (top_left.y - width) as i64,
        (top_left.x + width) as i64,
        (top_left.y - width) as i64,
        (top_left.x + width) as i64,
        top_left.y,
    ]
}

/// The three corners of a triangle, flattened.
pub open spec fn triangle_vertices(p0: Point2, p1: Point2, p2: Point2) -> Seq<i64> {
    seq![p0.x, p0.y, p1.x, p1.y, p2.x, p2.y]
}

/// The state after drawing a square: four corner vertices, six indices
/// forming two triangles, two more primitives.
pub open spec fn square_step(v: RenderStateView, top_left: Point2, width: i64) -> RenderStateView {
    RenderStateView {
        vertices: v.vertices + square_vertices(top_left, width),
        indices: v.indices + quad_indices(v.vertex_count()),
        primitives: v.primitives + 2,
    }
}

/// Squared length of the segment from `p0` to `p1`, in squared micro-units.
pub open spec fn segment_length_sq(p0: Point2, p1: Point2) -> int {
    (p1.x - p0.x) * (p1.x - p0.x) + (p1.y - p0.y) * (p1.y - p0.y)
}

/// Length of the segment from `p0` to `p1`, rounded down to micro-units.
pub open spec fn segment_length(p0: Point2, p1: Point2) -> int {
    sqrt_floor(segment_length_sq(p0, p1) as nat) as int
}

/// The x component of the flank offset of a line of stroke width `w`: the
/// stroke width times the x of the unit normal `(-dy, dx) / length`, each
/// quotient rounded toward zero.
pub open spec fn flank_offset_x(p0: Point2, p1: Point2, w: int) -> int {
    div_trunc(w * (p0.y - p1.y), segment_length(p0, p1))
}

/// The y component of the flank offset; see [`flank_offset_x`].
pub open spec fn flank_offset_y(p0: Point2, p1: Point2, w: int) -> int {
    div_trunc(w * (p1.x - p0.x), segment_length(p0, p1))
}

/// The four corners of the thin quad that renders a line of stroke width
/// `w` from `p0` to `p1`: each endpoint offset by plus and minus the flank
/// offset, in the order top-left, bottom-left, bottom-right, top-right.
pub open spec fn line_vertices(p0: Point2, p1: Point2, w: int) -> Seq<i64> {
    let ox = flank_offset_x(p0, p1, w);
    let oy = flank_offset_y(p0, p1, w);
    seq![
        (p0.x + ox) as i64,
        (p0.y + oy) as i64,
        (p0.x - ox) as i64,
        (p0.y - oy) as i64,
        (p1.x - ox) as i64,
        (p1.y - oy) as i64,
        (p1.x + ox) as i64,
        (p1.y + oy) as i64,
    ]
}

/// The state after drawing a line: the four quad corners, six indices
/// forming two triangles, two more primitives.
pub open spec fn line_step(v: RenderStateView, p0: Point2, p1: Point2, w: int) -> RenderStateView {
    RenderStateView {
        vertices: v.vertices + line_vertices(p0, p1, w),
        indices: v.indices + quad_indices(v.vertex_count()),
        primitives: v.primitives + 2,
    }
}

/// The state after drawing a triangle: three vertices as given, three
/// indices, one more primitive.
pub open spec fn triangle_step(
    v: RenderStateView,
    p0: Point2,
    p1: Point2,
    p2: Point2,
) -> RenderStateView {
    RenderStateView {
        vertices: v.vertices + triangle_vertices(p0, p1, p2),
        indices: v.indices + triangle_indices(v.vertex_count()),
        primitives: v.primitives + 1,
    }
}

/// What can go wrong while drawing.
#[derive(Clone, Copy, Debug, PartialEq, Eq, Structural)]
pub enum DrawError {
    /// The two endpoints of a line coincide, so the segment has no
    /// direction to take a normal of.
    DegenerateLine,
}

/// Law: two triangle draws in a row never collide. The three indices the
/// second draw appends are exactly those the first draw appended, each
/// shifted up by three, so they reference the second draw's own vertices.
pub proof fn lemma_triangle_draws_do_not_collide(
    v: RenderStateView,
    p0: Point2,
    p1: Point2,
    p2: Point2,
    q0: Point2,
    q1: Point2,
    q2: Point2,
)
    requires
        v.wf(),
        v.vertex_count() + 6 <= 0x1_0000,
    ensures
        ({
            let v1 = triangle_step(v, p0, p1, p2);
            let v2 = triangle_step(v1, q0, q1, q2);
            &&& v2.indices.len() == v.indices.len() + 6
            &&& forall|i: int|
                v.indices.len() <= i < v.indices.len() + 3 ==> v2.indices[i + 3] as int
                    == v1.indices[i] as int + 3
        }),
{
    let v1 = triangle_step(v, p0, p1, p2);
    let v2 = triangle_step(v1, q0, q1, q2);
    assert(v1.vertex_count() == v.vertex_count() + 3);
    assert forall|i: int| v.indices.len() <= i < v.indices.len() + 3 implies v2.indices[i + 3]
        as int == v1.indices[i] as int + 3 by {
        let j = i - v.indices.len();
        assert(v1.indices[i] == triangle_indices(v.vertex_count())[j]);
        assert(v2.indices[i + 3] == triangle_indices(v1.vertex_count())[j]);
    }
}

/// Law: the quad of a line flanks the segment symmetrically. Its two long
/// edges are translates of the segment by plus and minus the flank offset,
/// so both are parallel to the segment and exactly as long, and the
/// midpoints of the two short edges are exactly the segment's endpoints.
pub proof fn lemma_line_quad_flanks_segment(p0: Point2, p1: Point2, w: int)
    requires
        p0.in_range(),
        p1.in_range(),
        -COORD_MAX <= w <= COORD_MAX,
        p0 != p1,
    ensures
        ({
            let vs = line_vertices(p0, p1, w);
            &&& vs.len() == 8
            &&& vs[6] - vs[0] == p1.x - p0.x && vs[7] - vs[1] == p1.y - p0.y
            &&& vs[4] - vs[2] == p1.x - p0.x && vs[5] - vs[3] == p1.y - p0.y
            &&& vs[0] + vs[2] == 2 * p0.x && vs[1] + vs[3] == 2 * p0.y
            &&& vs[4] + vs[6] == 2 * p1.x && vs[5] + vs[7] == 2 * p1.y
        }),
{
    lemma_line_offsets_in_range(p0, p1, w);
}

/// The flank offsets of a non-degenerate line between in-range points stay
/// far inside `i64`, so the quad corners do too.
proof fn lemma_line_offsets_in_range(p0: Point2, p1: Point2, w: int)
    requires
        p0.in_range(),
        p1.in_range(),
        -COORD_MAX <= w <= COORD_MAX,
        p0 != p1,
    ensures
        1 <= segment_length(p0, p1),
        -0x0200_0000_0000_0000 <= flank_offset_x(p0, p1, w) <= 0x0200_0000_0000_0000,
        -0x0200_0000_0000_0000 <= flank_offset_y(p0, p1, w) <= 0x0200_0000_0000_0000,
{
    let dx = p1.x - p0.x;
    let dy = p1.y - p0.y;
    assert(dx * dx + dy * dy >= 1) by (nonlinear_arith)
        requires
            dx != 0 || dy != 0,
    ;
    lemma_sqrt_floor_at_least(segment_length_sq(p0, p1) as nat, 1);
    let len = segment_length(p0, p1);
    assert(-0x0200_0000_0000_0000 <= w * (p0.y - p1.y) <= 0x0200_0000_0000_0000
        && -0x0200_0000_0000_0000 <= w * (p1.x - p0.x) <= 0x0200_0000_0000_0000)
        by (nonlinear_arith)
        requires
            -0x1000_0000 <= w <= 0x1000_0000,
            -0x2000_0000 <= p0.y - p1.y <= 0x2000_0000,
            -0x2000_0000 <= p1.x - p0.x <= 0x2000_0000,
    ;
    lemma_div_trunc_magnitude(w * (p0.y - p1.y), len);
    lemma_div_trunc_magnitude(w * (p1.x - p0.x), len);
}

/// Law: when the segment's length is exact (its squared length is a
/// perfect square) and that length divides both offset numerators, the two
/// long edges of the quad are separated by exactly twice the stroke width:
/// the separation vector between them has squared length `(2w)²` and is
/// perpendicular to the segment.
pub proof fn lemma_line_quad_separation_exact(p0: Point2, p1: Point2, w: int)
    requires
        p0.in_range(),
        p1.in_range(),
        -COORD_MAX <= w <= COORD_MAX,
        p0 != p1,
        segment_length(p0, p1) * segment_length(p0, p1) == segment_length_sq(p0, p1),
        (w * (p0.y - p1.y)) % segment_length(p0, p1) == 0,
        (w * (p1.x - p0.x)) % segment_length(p0, p1) == 0,
    ensures
        ({
            let ox = flank_offset_x(p0, p1, w);
            let oy = flank_offset_y(p0, p1, w);
            &&& (2 * ox) * (2 * ox) + (2 * oy) * (2 * oy) == (2 * w) * (2 * w)
            &&& ox * (p1.x - p0.x) + oy * (p1.y - p0.y) == 0
        }),
{
    let dx = p1.x - p0.x;
    let dy = p1.y - p0.y;
    let len = segment_length(p0, p1);
    lemma_line_offsets_in_range(p0, p1, w);
    lemma_div_trunc_exact(w * (-dy), len);
    lemma_div_trunc_exact(w * dx, len);
    let ox = flank_offset_x(p0, p1, w);
    let oy = flank_offset_y(p0, p1, w);
    assert(len * ox == w * (-dy));
    assert(len * oy == w * dx);
    assert((len * ox) * (len * ox) + (len * oy) * (len * oy) == (w * w) * (dx * dx + dy * dy))
        by (nonlinear_arith)
        requires
            len * ox == w * (-dy),
            len * oy == w * dx,
    ;
    assert((len * ox) * (len * ox) + (len * oy) * (len * oy) == (len * len) * (ox * ox + oy * oy))
        by (nonlinear_arith);
    assert((len * len) * (ox * ox + oy * oy) == (len * len) * (w * w)) by (nonlinear_arith)
        requires
            (len * len) * (ox * ox + oy * oy) == (w * w) * (dx * dx + dy * dy),
            len * len == dx * dx + dy * dy,
    ;
    assert(ox * ox + oy * oy == w * w) by (nonlinear_arith)
        requires
            (len * len) * (ox * ox + oy * oy) == (len * len) * (w * w),
            len >= 1,
    ;
    assert(ox * dx + oy * dy == 0) by (nonlinear_arith)
        requires
            len * ox == w * (-dy),
            len * oy == w * dx,
            len >= 1,
    ;
    assert((2 * ox) * (2 * ox) + (2 * oy) * (2 * oy) == (2 * w) * (2 * w)) by (nonlinear_arith)
        requires
            ox * ox + oy * oy == w * w,
    ;
}

impl RenderState {
    /// An empty builder: no vertices, no indices, no primitives.
    pub fn new() -> (s: Self)
        ensures
            s@.vertices == Seq::<i64>::empty(),
            s@.indices == Seq::<u16>::empty(),
            s@.primitives == 0,
            s@.wf(),
    {
        RenderState { vertices: Vec::new(), indices: Vec::new(), primitives_count: 0 }
    }

    /// Room for one more shape: `more_vertices` further vertices still get
    /// numbers that fit `u16`, and `more_primitives` further primitives
    /// still fit the counter.
    pub open spec fn has_room_for(self, more_vertices: int, more_primitives: int) -> bool {
        &&& self@.vertex_count() + more_vertices <= 0x1_0000
        &&& self@.primitives + more_primitives <= u32::MAX
    }

    /// Appends the four corners of an axis-aligned square and the six
    /// indices of its two counter-clockwise triangles. A negative `width`
    /// draws the square reflected through its corner, as the arithmetic
    /// dictates; it is the caller's business to keep widths positive.
    pub fn draw_square(&mut self, top_left: Point2, width: i64)
        requires
            old(self)@.wf(),
            old(self).has_room_for(4, 2),
            top_left.in_range(),
            -COORD_MAX <= width <= COORD_MAX,
        ensures
            final(self)@ == square_step(old(self)@, top_left, width),
            final(self)@.wf(),
    {
        let top_right = top_left.add_to_x(width);
        let bottom_left = top_left.add_to_y(-width);
        let bottom_right = top_left.add_to_x(width).add_to_y(-width);
        let offset_start = self.vertices.len() / 2;

        self.vertices.push(top_left.x);
        self.vertices.push(top_left.y);
        self.vertices.push(bottom_left.x);
        self.vertices.push(bottom_left.y);
        self.vertices.push(bottom_right.x);
        self.vertices.push(bottom_right.y);
        self.vertices.push(top_right.x);
        self.vertices.push(top_right.y);

        self.indices.push(offset_start as u16);
        self.indices.push((offset_start + 1) as u16);
        self.indices.push((offset_start + 2) as u16);
        self.indices.push(offset_start as u16);
        self.indices.push((offset_start + 2) as u16);
        self.indices.push((offset_start + 3) as u16);

        self.primitives_count = self.primitives_count + 2;

        proof {
            assert(final(self)@.vertices =~= square_step(old(self)@, top_left, width).vertices);
            assert(final(self)@.indices =~= square_step(old(self)@, top_left, width).indices);
        }
    }

    /// Appends the three given vertices and three indices referring to
    /// them. The points must already be in counter-clockwise order for the
    /// triangle to face the viewer; the builder records them as given.
    pub fn draw_triangle_ccw(&mut self, p0: Point2, p1: Point2, p2: Point2)
        requires
            old(self)@.wf(),
            old(self).has_room_for(3, 1),
        ensures
            final(self)@ == triangle_step(old(self)@, p0, p1, p2),
            final(self)@.wf(),
    {
        let offset_start = self.vertices.len() / 2;
        self.vertices.push(p0.x);
        self.vertices.push(p0.y);
        self.vertices.push(p1.x);
        self.vertices.push(p1.y);
        self.vertices.push(p2.x);
        self.vertices.push(p2.y);

        self.indices.push(offset_start as u16);
        self.indices.push((offset_start + 1) as u16);
        self.indices.push((offset_start + 2) as u16);
        self.primitives_count = self.primitives_count + 1;

        proof {
            assert(final(self)@.vertices =~= triangle_step(old(self)@, p0, p1, p2).vertices);
            assert(final(self)@.indices =~= triangle_step(old(self)@, p0, p1, p2).indices);
        }
    }

    /// Draws the segment from `p0` to `p1` as a thin quad of stroke width
    /// `stroke_width`: each endpoint is offset by plus and minus the stroke
    /// width along the unit normal of the segment, and the four corners are
    /// appended with the six indices of two counter-clockwise triangles.
    /// A degenerate segment (`p0 == p1`) has no normal and is rejected,
    /// leaving the builder untouched.
    pub fn draw_line(&mut self, p0: Point2, p1: Point2, stroke_width: i64) -> (res: Result<
        (),
        DrawError,
    >)
        requires
            old(self)@.wf(),
            old(self).has_room_for(4, 2),
            p0.in_range(),
            p1.in_range(),
            -COORD_MAX <= stroke_width <= COORD_MAX,
        ensures
            res is Ok <==> p0 != p1,
            p0 == p1 ==> res == Result::<(), DrawError>::Err(DrawError::DegenerateLine),
            p0 == p1 ==> final(self)@ == old(self)@,
            p0 != p1 ==> final(self)@ == line_step(old(self)@, p0, p1, stroke_width as int),
            final(self)@.wf(),
    {
        let dx = p1.x - p0.x;
        let dy = p1.y - p0.y;
        if dx == 0 && dy == 0 {
            return Err(DrawError::DegenerateLine);
        }

        proof {
            assert(0 <= dx * dx <= 0x2000_0000 * 0x2000_0000 && 0 <= dy * dy <= 0x2000_0000
                * 0x2000_0000) by (nonlinear_arith)
                requires
                    -0x2000_0000 <= dx <= 0x2000_0000,
                    -0x2000_0000 <= dy <= 0x2000_0000,
            ;
            assert(dx != 0 || dy != 0 ==> dx * dx + dy * dy >= 1) by (nonlinear_arith);
        }
        let dist_sq: u64 = (dx * dx + dy * dy) as u64;
        let dist: u64 = isqrt(dist_sq);
        proof {
            assert(dist <= 0x4000_0000) by (nonlinear_arith)
                requires
                    0 <= dist,
                    (dist as int) * (dist as int) <= dist_sq as int,
                    dist_sq as int <= 0x1000_0000_0000_0000,
            ;
            assert(dist >= 1) by (nonlinear_arith)
                requires
                    0 <= dist,
                    dist_sq as int >= 1,
                    (dist_sq as int) < ((dist as int) + 1) * ((dist as int) + 1),
            ;
            assert(-0x0200_0000_0000_0000 <= stroke_width * (-dy) <= 0x0200_0000_0000_0000
                && -0x0200_0000_0000_0000 <= stroke_width * dx <= 0x0200_0000_0000_0000)
                by (nonlinear_arith)
                requires
                    -0x1000_0000 <= stroke_width <= 0x1000_0000,
                    -0x2000_0000 <= dx <= 0x2000_0000,
                    -0x2000_0000 <= dy <= 0x2000_0000,
            ;
        }
        let dist_i: i64 = dist as i64;
        let ox = div_trunc_i64(stroke_width * (-dy), dist_i);
        let oy = div_trunc_i64(stroke_width * dx, dist_i);

        let offset_start = self.vertices.len() / 2;

        self.vertices.push(p0.x + ox);
        self.vertices.push(p0.y + oy);
        self.vertices.push(p0.x - ox);
        self.vertices.push(p0.y - oy);
        self.vertices.push(p1.x - ox);
        self.vertices.push(p1.y - oy);
        self.vertices.push(p1.x + ox);
        self.vertices.push(p1.y + oy);

        self.indices.push(offset_start as u16);
        self.indices.push((offset_start + 1) as u16);
        self.indices.push((offset_start + 2) as u16);
        self.indices.push(offset_start as u16);
        self.indices.push((offset_start + 2) as u16);
        self.indices.push((offset_start + 3) as u16);

        self.primitives_count = self.primitives_count + 2;

        proof {
            assert(dist_sq as int == segment_length_sq(p0, p1));
            assert(dist as int == segment_length(p0, p1));
            assert(ox as int == flank_offset_x(p0, p1, stroke_width as int));
            assert(oy as int == flank_offset_y(p0, p1, stroke_width as int));
            assert(final(self)@.vertices =~= line_step(
                old(self)@,
                p0,
                p1,
                stroke_width as int,
            ).vertices);
            assert(final(self)@.indices =~= line_step(
                old(self)@,
                p0,
                p1,
                stroke_width as int,
            ).indices);
        }
        Ok(())
    }

    /// How many indices a draw call over this builder consumes.
    pub fn index_count(&self) -> (n: u32)
        requires
            self@.indices.len() <= u32::MAX,
        ensures
            n == self@.indices.len(),
    {
        self.indices.len() as u32
    }
}

} // verus!
