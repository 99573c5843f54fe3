//! The draw call that plots the sampled points: one triangle per point.
use vstd::prelude::*;

verus! {

/// Vertices emitted for each point; the fragment shader carves a disc out of
/// the triangle.
pub const VERTICES_PER_POINT: u32 = 3;

/// A non-indexed draw: vertices `first_vertex..vertex_end` of instances
/// `first_instance..instance_end`.
#[derive(Clone, Copy, Debug, PartialEq, Eq, Structural)]
pub struct DrawCall {
    pub first_vertex: u32,
    pub vertex_end: u32,
    pub first_instance: u32,
    pub instance_end: u32,
}

/// The draw call for `points_length` points.
pub open spec fn spec_plot_draw(points_length: u32) -> DrawCall {
    DrawCall {
        first_vertex: 0,
        vertex_end: (VERTICES_PER_POINT * points_length) as u32,
        first_instance: 0,
        instance_end: 1,
    }
}

/// The point that vertex `v` of the plot belongs to.
pub open spec fn point_of_vertex(v: int) -> int {
    v / VERTICES_PER_POINT as int
}

/// The draw call that plots `points_length` points: three vertices per point
/// in a single instance.
pub fn plot_draw(points_length: u32) -> (d: DrawCall)
    requires
        points_length <= u32::MAX / VERTICES_PER_POINT,
    ensures
        d == spec_plot_draw(points_length),
        d.vertex_end == VERTICES_PER_POINT * points_length,
{
    DrawCall {
        first_vertex: 0,
        vertex_end: VERTICES_PER_POINT * points_length,
        first_instance: 0,
        instance_end: 1,
    }
}

/// Every vertex of the plot draw belongs to one of the points, and every
/// point gets its three vertices.
pub proof fn lemma_plot_draw_covers_points(points_length: u32)
    requires
        points_length <= u32::MAX / VERTICES_PER_POINT,
    ensures
        ({
            let d = spec_plot_draw(points_length);
            &&& forall|v: int| d.first_vertex <= v < d.vertex_end
                ==> 0 <= #[trigger] point_of_vertex(v) < points_length
            &&& forall|p: int, k: int| 0 <= p < points_length && 0 <= k < VERTICES_PER_POINT
                ==> d.first_vertex <= #[trigger] (3 * p + k) < d.vertex_end
                    && point_of_vertex(3 * p + k) == p
        }),
{
    let d = spec_plot_draw(points_length);
    assert forall|v: int| d.first_vertex <= v < d.vertex_end
        implies 0 <= #[trigger] point_of_vertex(v) < points_length by {
        assert(0 <= v / 3 < points_length) by (nonlinear_arith)
            requires 0 <= v < 3 * points_length;
    }
    assert forall|p: int, k: int| 0 <= p < points_length && 0 <= k < VERTICES_PER_POINT
        implies d.first_vertex <= #[trigger] (3 * p + k) < d.vertex_end
            && point_of_vertex(3 * p + k) == p by {
        assert((3 * p + k) / 3 == p) by (nonlinear_arith)
            requires 0 <= k < 3;
    }
}

} // verus!
