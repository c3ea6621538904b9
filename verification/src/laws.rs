//! What holds of every converted outline.
//!
//! The laws are stated over [`walk`], the model in which
//! [`lwpolyline_to_arcs_and_lines`](crate::dxf_helper::lwpolyline_to_arcs_and_lines)
//! states its result, for any solutions of the chords whatever.

use vstd::prelude::*;
use crate::dxf_helper::{
    edge_arc, edge_start, event_at, events_of_edges, is_curved, is_dropped, lemma_predecessor,
    oriented, reports_of_edges, walk, ArcMoveLineTo, ChordSolution, Vertex,
};
use crate::scalar::Scalar;

verus! {

/// The instructions for the first `i` edges open the instructions for the
/// first `k`, for `i <= k`.
pub proof fn lemma_events_grow(
    vertices: Seq<Vertex>,
    solutions: Seq<ChordSolution>,
    i: nat,
    k: nat,
)
    requires
        i <= k,
    ensures
        events_of_edges(vertices, solutions, i).len() <= events_of_edges(
            vertices,
            solutions,
            k,
        ).len(),
        events_of_edges(vertices, solutions, i).len() <= i,
        forall|j: int|
            0 <= j < events_of_edges(vertices, solutions, i).len() ==> events_of_edges(
                vertices,
                solutions,
                i,
            )[j] == #[trigger] events_of_edges(vertices, solutions, k)[j],
    decreases k,
{
    if i < k {
        lemma_events_grow(vertices, solutions, i, (k - 1) as nat);
    } else if i > 0 {
        lemma_events_grow(vertices, solutions, (i - 1) as nat, (i - 1) as nat);
    }
}

/// An outline's instructions start with the move to its last vertex.
pub proof fn lemma_walk_starts_with_move(vertices: Seq<Vertex>, solutions: Seq<ChordSolution>)
    requires
        vertices.len() > 0,
    ensures
        walk(vertices, solutions).len() == 1 + events_of_edges(
            vertices,
            solutions,
            vertices.len(),
        ).len(),
        walk(vertices, solutions)[0] == ArcMoveLineTo::Move(
            vertices[vertices.len() - 1].position(),
        ),
        forall|j: int|
            1 <= j < walk(vertices, solutions).len() ==> #[trigger] walk(vertices, solutions)[j]
                == events_of_edges(vertices, solutions, vertices.len())[j - 1],
{
}

/// The place in the outline of the instruction for edge `i`, where it has
/// one: after the move and the instructions of the edges before it.
pub open spec fn place_of(vertices: Seq<Vertex>, solutions: Seq<ChordSolution>, i: int) -> int {
    events_of_edges(vertices, solutions, i as nat).len() as int + 1
}

/// An edge that is not left out has its instruction in the outline, after
/// the move and the instructions of the edges before it. So the edges that
/// are drawn come in their order, and an edge that is left out takes nothing
/// but its own instruction with it.
pub proof fn lemma_edge_has_its_place(
    vertices: Seq<Vertex>,
    solutions: Seq<ChordSolution>,
    i: int,
)
    requires
        0 <= i < vertices.len(),
        !is_dropped(vertices, solutions, i),
    ensures
        1 <= place_of(vertices, solutions, i) <= i + 1,
        place_of(vertices, solutions, i) < walk(vertices, solutions).len(),
        Some(walk(vertices, solutions)[place_of(vertices, solutions, i)]) == event_at(
            vertices,
            solutions,
            i,
        ),
{
    let place = events_of_edges(vertices, solutions, i as nat).len() as int;
    let through = events_of_edges(vertices, solutions, (i + 1) as nat);
    assert(through[place] == event_at(vertices, solutions, i).unwrap());
    lemma_events_grow(vertices, solutions, (i + 1) as nat, vertices.len());
    lemma_walk_starts_with_move(vertices, solutions);
}

/// A straight edge gives a line to the very vertex that the edge reaches.
pub proof fn lemma_straight_edge_is_exact(
    vertices: Seq<Vertex>,
    solutions: Seq<ChordSolution>,
    i: int,
)
    requires
        0 <= i < vertices.len(),
        !is_curved(vertices, i),
    ensures
        !is_dropped(vertices, solutions, i),
        walk(vertices, solutions)[place_of(vertices, solutions, i)] == ArcMoveLineTo::LineTo(
            vertices[i].position(),
        ),
{
    lemma_edge_has_its_place(vertices, solutions, i);
}

/// Every arc among the instructions for the first `k` edges has a radius
/// above zero and a finite center, and carries the bulge, the ends and the
/// oriented geometry of a curved edge.
pub proof fn lemma_arcs_of_edges_are_drawable(
    vertices: Seq<Vertex>,
    solutions: Seq<ChordSolution>,
    k: nat,
)
    ensures
        forall|j: int|
            0 <= j < events_of_edges(vertices, solutions, k).len() ==> match #[trigger] events_of_edges(
                vertices,
                solutions,
                k,
            )[j] {
                ArcMoveLineTo::Arc(arc) => {
                    &&& arc.radius.is_positive()
                    &&& arc.center.is_finite()
                    &&& !arc.bulge.is_zero()
                    &&& exists|i: int|
                        0 <= i < k && is_curved(vertices, i) && arc == #[trigger] edge_arc(
                            edge_start(vertices, i),
                            vertices[i],
                            solutions[i],
                        )
                },
                ArcMoveLineTo::Move(_) => false,
                ArcMoveLineTo::LineTo(_) => true,
            },
    decreases k,
{
    if k > 0 {
        lemma_arcs_of_edges_are_drawable(vertices, solutions, (k - 1) as nat);
        let before = events_of_edges(vertices, solutions, (k - 1) as nat);
        let all = events_of_edges(vertices, solutions, k);
        assert forall|j: int| 0 <= j < all.len() implies match #[trigger] all[j] {
            ArcMoveLineTo::Arc(arc) => {
                &&& arc.radius.is_positive()
                &&& arc.center.is_finite()
                &&& !arc.bulge.is_zero()
                &&& exists|i: int|
                    0 <= i < k && is_curved(vertices, i) && arc == #[trigger] edge_arc(
                        edge_start(vertices, i),
                        vertices[i],
                        solutions[i],
                    )
            },
            ArcMoveLineTo::Move(_) => false,
            ArcMoveLineTo::LineTo(_) => true,
        } by {
            if j < before.len() {
                assert(all[j] == before[j]);
                if let ArcMoveLineTo::Arc(arc) = before[j] {
                    let i = choose|i: int|
                        0 <= i < k - 1 && is_curved(vertices, i) && arc == #[trigger] edge_arc(
                            edge_start(vertices, i),
                            vertices[i],
                            solutions[i],
                        );
                    assert(0 <= i < k && is_curved(vertices, i) && arc == edge_arc(
                        edge_start(vertices, i),
                        vertices[i],
                        solutions[i],
                    ));
                }
            } else {
                if let ArcMoveLineTo::Arc(arc) = all[j] {
                    let i = k - 1;
                    assert(is_curved(vertices, i) && arc == edge_arc(
                        edge_start(vertices, i),
                        vertices[i],
                        solutions[i],
                    ));
                }
            }
        }
    }
}

/// Every arc of a converted outline has a radius above zero and a finite
/// center, and no instruction after the first is a move.
pub proof fn lemma_arcs_are_drawable(vertices: Seq<Vertex>, solutions: Seq<ChordSolution>)
    requires
        vertices.len() > 0,
    ensures
        forall|j: int|
            0 <= j < walk(vertices, solutions).len() ==> match #[trigger] walk(
                vertices,
                solutions,
            )[j] {
                ArcMoveLineTo::Arc(arc) => arc.radius.is_positive() && arc.center.is_finite()
                    && !arc.bulge.is_zero(),
                ArcMoveLineTo::Move(_) => j == 0,
                ArcMoveLineTo::LineTo(_) => true,
            },
{
    lemma_arcs_of_edges_are_drawable(vertices, solutions, vertices.len());
    lemma_walk_starts_with_move(vertices, solutions);
}

/// Whether no edge of the outline is curved.
pub open spec fn is_polygon(vertices: Seq<Vertex>) -> bool {
    forall|i: int| 0 <= i < vertices.len() ==> (#[trigger] vertices[i]).bulge.is_zero()
}

/// The first `k` edges of a polygon give `k` lines, to the vertices in their
/// order, and no report.
pub proof fn lemma_polygon_edges(vertices: Seq<Vertex>, solutions: Seq<ChordSolution>, k: nat)
    requires
        is_polygon(vertices),
        k <= vertices.len(),
    ensures
        events_of_edges(vertices, solutions, k).len() == k,
        reports_of_edges(vertices, solutions, k).len() == 0,
        forall|i: int|
            0 <= i < k ==> #[trigger] events_of_edges(vertices, solutions, k)[i]
                == ArcMoveLineTo::LineTo(vertices[i].position()),
    decreases k,
{
    if k > 0 {
        lemma_polygon_edges(vertices, solutions, (k - 1) as nat);
        lemma_predecessor(vertices.len() as int, k - 1);
    }
}

/// An outline whose bulges are all zero gives the move and one line to each
/// vertex in turn: the path of a polygon. It asks nothing of the solutions.
pub proof fn lemma_polygon_is_lines(vertices: Seq<Vertex>, solutions: Seq<ChordSolution>)
    requires
        vertices.len() > 0,
        is_polygon(vertices),
    ensures
        walk(vertices, solutions).len() == vertices.len() + 1,
        walk(vertices, solutions)[0] == ArcMoveLineTo::Move(
            vertices[vertices.len() - 1].position(),
        ),
        forall|i: int|
            0 <= i < vertices.len() ==> #[trigger] walk(vertices, solutions)[i + 1]
                == ArcMoveLineTo::LineTo(vertices[i].position()),
        reports_of_edges(vertices, solutions, vertices.len()).len() == 0,
{
    lemma_polygon_edges(vertices, solutions, vertices.len());
    lemma_walk_starts_with_move(vertices, solutions);
}

/// The vertex at which the pen stands after the first `k` edges: the last
/// vertex of the outline at the start, then the vertex that the latest drawn
/// edge reached.
pub open spec fn pen_vertex(vertices: Seq<Vertex>, solutions: Seq<ChordSolution>, k: nat) -> int
    decreases k,
{
    if k == 0 {
        vertices.len() - 1
    } else if is_dropped(vertices, solutions, k - 1) {
        pen_vertex(vertices, solutions, (k - 1) as nat)
    } else {
        k - 1
    }
}

/// After the move and the instructions for the first `k` edges the pen
/// stands at `pen_vertex`.
pub proof fn lemma_pen_follows_the_edges(
    vertices: Seq<Vertex>,
    solutions: Seq<ChordSolution>,
    k: nat,
)
    requires
        0 < vertices.len(),
        k <= vertices.len(),
    ensures
        0 <= pen_vertex(vertices, solutions, k) < vertices.len(),
        (seq![ArcMoveLineTo::Move(vertices[vertices.len() - 1].position())] + events_of_edges(
            vertices,
            solutions,
            k,
        )).last().end_point() == vertices[pen_vertex(vertices, solutions, k)].position(),
    decreases k,
{
    if k > 0 {
        lemma_pen_follows_the_edges(vertices, solutions, (k - 1) as nat);
        let start = seq![ArcMoveLineTo::Move(vertices[vertices.len() - 1].position())];
        let before = events_of_edges(vertices, solutions, (k - 1) as nat);
        match event_at(vertices, solutions, k - 1) {
            Some(event) => {
                assert((start + before.push(event)).last() == event);
            },
            None => {},
        }
    }
}

/// The path of an outline ends at the vertex that its latest drawn edge
/// reached. Where the closing edge, the one that reaches the last vertex, is
/// drawn, that is the last vertex, at which the path began.
pub proof fn lemma_path_end(vertices: Seq<Vertex>, solutions: Seq<ChordSolution>)
    requires
        vertices.len() > 0,
    ensures
        walk(vertices, solutions)[0].end_point() == vertices[vertices.len() - 1].position(),
        walk(vertices, solutions).last().end_point() == vertices[pen_vertex(
            vertices,
            solutions,
            vertices.len(),
        )].position(),
        !is_dropped(vertices, solutions, vertices.len() - 1) ==> pen_vertex(
            vertices,
            solutions,
            vertices.len(),
        ) == vertices.len() - 1,
{
    lemma_pen_follows_the_edges(vertices, solutions, vertices.len());
}

/// The path of an outline ends where it began, unless edges at its end were
/// left out and the latest edge drawn stopped elsewhere.
pub proof fn lemma_path_is_closed(vertices: Seq<Vertex>, solutions: Seq<ChordSolution>)
    requires
        vertices.len() > 0,
        vertices[pen_vertex(vertices, solutions, vertices.len())].position()
            == vertices[vertices.len() - 1].position(),
    ensures
        walk(vertices, solutions).last().end_point() == walk(vertices, solutions)[0].end_point(),
{
    lemma_path_end(vertices, solutions);
}

/// The sign of the bulge decides which angle belongs to the chord's start.
/// For a bulge above zero the start angle is the direction to the chord's
/// start; for the opposite bulge it is the end angle that is. The radius is
/// a magnitude: two solutions whose radii differ in sign only give one
/// radius.
pub proof fn lemma_sign_decides_direction(bulge: Scalar, p: ChordSolution, q: ChordSolution)
    requires
        bulge.is_positive(),
    ensures
        bulge.negated().is_negative(),
        oriented(bulge, p).start_angle == p.angle_to_start,
        oriented(bulge, p).end_angle == p.angle_to_end,
        oriented(bulge.negated(), q).end_angle == q.angle_to_start,
        oriented(bulge.negated(), q).start_angle == q.angle_to_end,
        q.radius == p.radius.negated() ==> oriented(bulge.negated(), q).radius == oriented(
            bulge,
            p,
        ).radius,
        !oriented(bulge, p).radius.is_sign_negative(),
{
}

} // verus!
