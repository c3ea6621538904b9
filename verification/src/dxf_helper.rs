//! Closed outlines with bulges, turned into moves, lines and arcs.
//!
//! An outline is a list of vertices. Each vertex carries the bulge of the
//! edge that leaves it: zero for a straight edge, else the tangent of a
//! quarter of the arc's included angle, positive for a counter-clockwise
//! sweep. The edge that leaves the last vertex arrives at the first.
//!
//! The numbers are [`Scalar`]s. The one step that needs floating-point
//! arithmetic, solving a chord for the circle through its ends, is a function
//! that the caller hands in; everything decided around it is decided here.

use vstd::prelude::*;
use crate::laws::lemma_arcs_are_drawable;
use crate::scalar::Scalar;

verus! {

/// A point of the plane.
#[derive(Clone, Copy, Debug, PartialEq, Eq, Structural)]
pub struct Point {
    pub x: Scalar,
    pub y: Scalar,
}

impl Point {
    pub fn new(x: Scalar, y: Scalar) -> (p: Self)
        ensures
            p.x == x,
            p.y == y,
    {
        Self { x, y }
    }

    /// Whether both coordinates are finite.
    pub open spec fn spec_is_finite(self) -> bool {
        self.x.is_finite() && self.y.is_finite()
    }

    #[verifier::when_used_as_spec(spec_is_finite)]
    pub fn is_finite(self) -> (b: bool)
        ensures
            b == self.spec_is_finite(),
    {
        self.x.is_finite() && self.y.is_finite()
    }
}

/// A vertex of an outline, with the bulge of the edge that leaves it.
#[derive(Clone, Copy, Debug, PartialEq, Eq, Structural)]
pub struct Vertex {
    pub x: Scalar,
    pub y: Scalar,
    pub bulge: Scalar,
}

impl Vertex {
    pub fn new(x: Scalar, y: Scalar, bulge: Scalar) -> (v: Self)
        ensures
            v.x == x,
            v.y == y,
            v.bulge == bulge,
    {
        Self { x, y, bulge }
    }

    /// Where the vertex lies.
    pub open spec fn spec_position(self) -> Point {
        Point { x: self.x, y: self.y }
    }

    #[verifier::when_used_as_spec(spec_position)]
    pub fn position(self) -> (p: Point)
        ensures
            p == self.spec_position(),
    {
        Point { x: self.x, y: self.y }
    }
}

/// A curved edge: a piece of the circle round `center`.
///
/// Going counter-clockwise from `start_angle` to `end_angle` runs along the
/// arc; that is from `from_point` to `to_point` where `bulge` is not below
/// zero, and from `to_point` to `from_point` where it is.
#[derive(Clone, Copy, Debug, PartialEq, Eq, Structural)]
pub struct Arc {
    pub to_point: Point,
    pub from_point: Point,
    pub center: Point,
    pub start_angle: Scalar,
    pub end_angle: Scalar,
    pub radius: Scalar,
    pub bulge: Scalar,
}

/// One drawing instruction.
#[derive(Clone, Copy, Debug, PartialEq, Eq, Structural)]
pub enum ArcMoveLineTo {
    Arc(Arc),
    Move(Point),
    LineTo(Point),
}

impl ArcMoveLineTo {
    /// Where the pen is after the instruction.
    pub open spec fn spec_end_point(self) -> Point {
        match self {
            ArcMoveLineTo::Arc(arc) => arc.to_point,
            ArcMoveLineTo::Move(point) => point,
            ArcMoveLineTo::LineTo(point) => point,
        }
    }

    #[verifier::when_used_as_spec(spec_end_point)]
    pub fn end_point(self) -> (p: Point)
        ensures
            p == self.spec_end_point(),
    {
        match self {
            ArcMoveLineTo::Arc(arc) => arc.to_point,
            ArcMoveLineTo::Move(point) => point,
            ArcMoveLineTo::LineTo(point) => point,
        }
    }
}

/// The circle through the two ends of a chord, as floating-point arithmetic
/// finds it from the chord and its bulge.
///
/// With `d` the length of the chord and `b` the bulge, `radius` is
/// `d * (1 + b * b) / 4 / b`, which has the sign of `b`. The center lies at
/// that (signed) distance from the chord's start, in the direction of the
/// chord turned by a quarter turn less twice the arc tangent of `b`. The two
/// angles are the directions from the center to the chord's ends.
#[derive(Clone, Copy, Debug, PartialEq, Eq, Structural)]
pub struct ChordSolution {
    pub center: Point,
    pub angle_to_start: Scalar,
    pub angle_to_end: Scalar,
    pub radius: Scalar,
}

/// Center, angles and radius of an arc.
#[derive(Clone, Copy, Debug, PartialEq, Eq, Structural)]
pub struct ArcGeometry {
    pub center: Point,
    pub start_angle: Scalar,
    pub end_angle: Scalar,
    pub radius: Scalar,
}

impl ArcGeometry {
    /// Whether an arc can be drawn from this: the center is finite and the
    /// radius is above zero.
    pub open spec fn spec_is_drawable(self) -> bool {
        self.center.is_finite() && self.radius.is_positive()
    }

    #[verifier::when_used_as_spec(spec_is_drawable)]
    pub fn is_drawable(self) -> (b: bool)
        ensures
            b == self.spec_is_drawable(),
    {
        self.center.is_finite() && self.radius.is_positive()
    }
}

/// The report on an edge that was left out: which edge, and the geometry
/// that could not be drawn.
#[derive(Clone, Copy, Debug, PartialEq, Eq, Structural)]
pub struct DegenerateArc {
    pub edge: usize,
    pub geometry: ArcGeometry,
}

/// Why an outline was not converted.
#[derive(Clone, Copy, Debug, PartialEq, Eq, Structural)]
pub enum OutlineError {
    /// The outline has no vertex.
    InvalidInput,
}

/// A converted outline.
#[derive(Debug)]
pub struct Outline {
    /// The instructions: a move, then one instruction for each edge that
    /// could be drawn, in the order of the edges.
    pub events: Vec<ArcMoveLineTo>,
    /// One report for each edge that was left out, in the order of the edges.
    pub dropped: Vec<DegenerateArc>,
}

/// The geometry of the arc with the given bulge on a solved chord.
///
/// The radius is the magnitude of the solution's. The angles are assigned by
/// the bulge's sign: below zero the start angle is the direction to the
/// chord's end, else the direction to the chord's start.
pub open spec fn oriented(bulge: Scalar, solution: ChordSolution) -> ArcGeometry {
    ArcGeometry {
        center: solution.center,
        start_angle: if bulge.is_negative() {
            solution.angle_to_end
        } else {
            solution.angle_to_start
        },
        end_angle: if bulge.is_negative() {
            solution.angle_to_start
        } else {
            solution.angle_to_end
        },
        radius: solution.radius.abs(),
    }
}

/// Orients a solved chord by the sign of its bulge.
pub fn bulge_to_arc(bulge: Scalar, solution: &ChordSolution) -> (geometry: ArcGeometry)
    ensures
        geometry == oriented(bulge, *solution),
        !geometry.radius.is_sign_negative(),
{
    let radius = solution.radius.abs();
    if bulge.is_negative() {
        ArcGeometry {
            center: solution.center,
            start_angle: solution.angle_to_end,
            end_angle: solution.angle_to_start,
            radius,
        }
    } else {
        ArcGeometry {
            center: solution.center,
            start_angle: solution.angle_to_start,
            end_angle: solution.angle_to_end,
            radius,
        }
    }
}

/// The arc of a curved edge, from the vertex it leaves to the vertex it
/// reaches.
pub open spec fn edge_arc(from: Vertex, to: Vertex, solution: ChordSolution) -> Arc {
    let geometry = oriented(from.bulge, solution);
    Arc {
        to_point: to.position(),
        from_point: from.position(),
        center: geometry.center,
        start_angle: geometry.start_angle,
        end_angle: geometry.end_angle,
        radius: geometry.radius,
        bulge: from.bulge,
    }
}

/// The arc of the curved edge number `edge`, or the report that it cannot be
/// drawn.
pub fn arc_for_edge(edge: usize, from: &Vertex, to: &Vertex, solution: &ChordSolution) -> (r:
    Result<Arc, DegenerateArc>)
    ensures
        oriented(from.bulge, *solution).is_drawable() ==> r == Ok::<Arc, DegenerateArc>(
            edge_arc(*from, *to, *solution),
        ),
        !oriented(from.bulge, *solution).is_drawable() ==> r == Err::<Arc, DegenerateArc>(
            (DegenerateArc { edge, geometry: oriented(from.bulge, *solution) }),
        ),
{
    let geometry = bulge_to_arc(from.bulge, solution);
    if geometry.is_drawable() {
        Ok(
            Arc {
                to_point: to.position(),
                from_point: from.position(),
                center: geometry.center,
                start_angle: geometry.start_angle,
                end_angle: geometry.end_angle,
                radius: geometry.radius,
                bulge: from.bulge,
            },
        )
    } else {
        Err(DegenerateArc { edge, geometry })
    }
}

/// The index of the vertex before vertex `i` in an outline of `n` vertices:
/// the one that edge `i` leaves. Before the first comes the last.
pub open spec fn predecessor(n: int, i: int) -> int {
    (i + n - 1) % n
}

/// The vertex that edge `i` leaves. Edge `i` is the one that reaches vertex
/// `i`.
pub open spec fn edge_start(vertices: Seq<Vertex>, i: int) -> Vertex {
    vertices[predecessor(vertices.len() as int, i)]
}

/// Whether edge `i` is curved.
pub open spec fn is_curved(vertices: Seq<Vertex>, i: int) -> bool {
    !edge_start(vertices, i).bulge.is_zero()
}

/// The instruction for an edge: a line where the edge is straight, an arc
/// where it is curved and the arc can be drawn, nothing where it cannot.
/// The solution of the chord counts for a curved edge only.
pub open spec fn edge_event(from: Vertex, to: Vertex, solution: ChordSolution) -> Option<
    ArcMoveLineTo,
> {
    if from.bulge.is_zero() {
        Some(ArcMoveLineTo::LineTo(to.position()))
    } else if oriented(from.bulge, solution).is_drawable() {
        Some(ArcMoveLineTo::Arc(edge_arc(from, to, solution)))
    } else {
        None
    }
}

/// The instruction for edge `i` of an outline, where `solutions[i]` is the
/// solution of its chord.
pub open spec fn event_at(vertices: Seq<Vertex>, solutions: Seq<ChordSolution>, i: int) -> Option<
    ArcMoveLineTo,
> {
    edge_event(edge_start(vertices, i), vertices[i], solutions[i])
}

/// Whether edge `i` is left out.
pub open spec fn is_dropped(vertices: Seq<Vertex>, solutions: Seq<ChordSolution>, i: int) -> bool {
    event_at(vertices, solutions, i) is None
}

/// The report on edge `i`, for an edge that is left out.
pub open spec fn report_at(vertices: Seq<Vertex>, solutions: Seq<ChordSolution>, i: int)
    -> DegenerateArc {
    DegenerateArc {
        edge: i as usize,
        geometry: oriented(edge_start(vertices, i).bulge, solutions[i]),
    }
}

/// The instructions for the first `k` edges, in their order.
pub open spec fn events_of_edges(vertices: Seq<Vertex>, solutions: Seq<ChordSolution>, k: nat)
    -> Seq<ArcMoveLineTo>
    decreases k,
{
    if k == 0 {
        Seq::empty()
    } else {
        let before = events_of_edges(vertices, solutions, (k - 1) as nat);
        match event_at(vertices, solutions, k - 1) {
            Some(event) => before.push(event),
            None => before,
        }
    }
}

/// The reports on those of the first `k` edges that are left out, in their
/// order.
pub open spec fn reports_of_edges(vertices: Seq<Vertex>, solutions: Seq<ChordSolution>, k: nat)
    -> Seq<DegenerateArc>
    decreases k,
{
    if k == 0 {
        Seq::empty()
    } else {
        let before = reports_of_edges(vertices, solutions, (k - 1) as nat);
        if is_dropped(vertices, solutions, k - 1) {
            before.push(report_at(vertices, solutions, k - 1))
        } else {
            before
        }
    }
}

/// The instructions for a whole outline of at least one vertex: a move to the
/// last vertex, where the first edge starts, then the instructions for all
/// edges.
pub open spec fn walk(vertices: Seq<Vertex>, solutions: Seq<ChordSolution>) -> Seq<ArcMoveLineTo> {
    seq![ArcMoveLineTo::Move(vertices[vertices.len() - 1].position())] + events_of_edges(
        vertices,
        solutions,
        vertices.len(),
    )
}

/// What is handed to the solver for edge `i`: where the chord starts, where
/// it ends, and the bulge.
pub open spec fn chord_of(vertices: Seq<Vertex>, i: int) -> (Point, Point, Scalar) {
    (edge_start(vertices, i).position(), vertices[i].position(), edge_start(vertices, i).bulge)
}

/// Whether `solutions` holds, for each of the first `k` edges that is
/// curved, an answer of `solver` for that edge's chord.
pub open spec fn solved_by<K: Fn(Point, Point, Scalar) -> ChordSolution>(
    solver: K,
    vertices: Seq<Vertex>,
    solutions: Seq<ChordSolution>,
    k: int,
) -> bool {
    forall|i: int|
        0 <= i < k && #[trigger] is_curved(vertices, i) ==> call_ensures(
            solver,
            chord_of(vertices, i),
            solutions[i],
        )
}

/// Whether `solver` can be called on the chord of every curved edge of the
/// outline.
pub open spec fn accepts<K: Fn(Point, Point, Scalar) -> ChordSolution>(
    solver: K,
    vertices: Seq<Vertex>,
) -> bool {
    forall|i: int|
        0 <= i < vertices.len() && #[trigger] is_curved(vertices, i) ==> call_requires(
            solver,
            chord_of(vertices, i),
        )
}

/// The predecessor without the division.
pub proof fn lemma_predecessor(n: int, i: int)
    requires
        0 <= i < n,
    ensures
        predecessor(n, i) == if i == 0 {
            n - 1
        } else {
            i - 1
        },
        0 <= predecessor(n, i) < n,
{
    if i == 0 {
        vstd::arithmetic::div_mod::lemma_small_mod((n - 1) as nat, n as nat);
    } else {
        vstd::arithmetic::div_mod::lemma_mod_add_multiples_vanish(i - 1, n);
        vstd::arithmetic::div_mod::lemma_small_mod((i - 1) as nat, n as nat);
    }
}

/// The instructions and reports for the first `k` edges depend on the first
/// `k` solutions only.
pub proof fn lemma_edges_read_a_prefix(
    vertices: Seq<Vertex>,
    a: Seq<ChordSolution>,
    b: Seq<ChordSolution>,
    k: nat,
)
    requires
        forall|i: int| 0 <= i < k ==> a[i] == b[i],
    ensures
        events_of_edges(vertices, a, k) == events_of_edges(vertices, b, k),
        reports_of_edges(vertices, a, k) == reports_of_edges(vertices, b, k),
    decreases k,
{
    if k > 0 {
        lemma_edges_read_a_prefix(vertices, a, b, (k - 1) as nat);
    }
}

/// Each of the first `k` edges gives one instruction or one report.
pub proof fn lemma_every_edge_is_accounted_for(
    vertices: Seq<Vertex>,
    solutions: Seq<ChordSolution>,
    k: nat,
)
    ensures
        events_of_edges(vertices, solutions, k).len() + reports_of_edges(
            vertices,
            solutions,
            k,
        ).len() == k,
    decreases k,
{
    if k > 0 {
        lemma_every_edge_is_accounted_for(vertices, solutions, (k - 1) as nat);
    }
}

/// Converts a closed outline to drawing instructions.
///
/// The outline starts with a move to the last vertex. Edge `i` runs from the
/// vertex before vertex `i` to vertex `i`, and carries the bulge of the vertex
/// it leaves. A straight edge gives a line to vertex `i`. For a curved edge
/// `solver` is called once, with the chord's start, its end and the bulge;
/// the edge gives an arc, or, where the arc cannot be drawn, a report in
/// `dropped` and no instruction. An outline without vertices is refused.
pub fn lwpolyline_to_arcs_and_lines<K: Fn(Point, Point, Scalar) -> ChordSolution>(
    vertices: &Vec<Vertex>,
    solver: &K,
) -> (out: Result<Outline, OutlineError>)
    requires
        accepts(*solver, vertices@),
    ensures
        vertices.len() == 0 <==> out is Err,
        out is Err ==> out == Err::<Outline, OutlineError>(OutlineError::InvalidInput),
        match out {
            Ok(outline) => exists|solutions: Seq<ChordSolution>|
                {
                    &&& solutions.len() == vertices.len()
                    &&& solved_by(*solver, vertices@, solutions, vertices.len() as int)
                    &&& outline.events@ == walk(vertices@, solutions)
                    &&& outline.dropped@ == #[trigger] reports_of_edges(
                        vertices@,
                        solutions,
                        vertices.len() as nat,
                    )
                },
            Err(_) => true,
        },
        match out {
            Ok(outline) => {
                &&& outline.events.len() + outline.dropped.len() == vertices.len() + 1
                &&& outline.events[0] == ArcMoveLineTo::Move(
                    vertices[vertices.len() - 1].position(),
                )
                &&& forall|j: int|
                    0 <= j < outline.events.len() ==> match #[trigger] outline.events[j] {
                        ArcMoveLineTo::Arc(arc) => arc.radius.is_positive()
                            && arc.center.is_finite() && !arc.bulge.is_zero(),
                        ArcMoveLineTo::Move(_) => j == 0,
                        ArcMoveLineTo::LineTo(_) => true,
                    }
            },
            Err(_) => true,
        },
{
    let n: usize = vertices.len();
    if n == 0 {
        return Err(OutlineError::InvalidInput);
    }
    let mut events: Vec<ArcMoveLineTo> = Vec::new();
    let mut dropped: Vec<DegenerateArc> = Vec::new();
    events.push(ArcMoveLineTo::Move(vertices[n - 1].position()));
    let ghost start = seq![ArcMoveLineTo::Move(vertices@[n - 1].position())];
    let ghost mut solutions: Seq<ChordSolution> = Seq::empty();
    let mut i: usize = 0;
    while i < n
        invariant
            n == vertices.len(),
            0 < n,
            i <= n,
            accepts(*solver, vertices@),
            start == seq![ArcMoveLineTo::Move(vertices@[n - 1].position())],
            solutions.len() == i,
            solved_by(*solver, vertices@, solutions, i as int),
            events@ == start + events_of_edges(vertices@, solutions, i as nat),
            dropped@ == reports_of_edges(vertices@, solutions, i as nat),
        decreases n - i,
    {
        proof {
            lemma_predecessor(n as int, i as int);
        }
        let last_vertex: Vertex = if i == 0 {
            vertices[n - 1]
        } else {
            vertices[i - 1]
        };
        let vertex: Vertex = vertices[i];
        assert(last_vertex == edge_start(vertices@, i as int));
        let ghost earlier = solutions;
        if last_vertex.bulge.is_zero() {
            events.push(ArcMoveLineTo::LineTo(vertex.position()));
            proof {
                solutions = earlier.push(arbitrary());
            }
        } else {
            assert(is_curved(vertices@, i as int));
            let solution: ChordSolution = solver(
                last_vertex.position(),
                vertex.position(),
                last_vertex.bulge,
            );
            proof {
                solutions = earlier.push(solution);
            }
            match arc_for_edge(i, &last_vertex, &vertex, &solution) {
                Ok(arc) => {
                    events.push(ArcMoveLineTo::Arc(arc));
                },
                Err(report) => {
                    dropped.push(report);
                },
            }
        }
        proof {
            lemma_edges_read_a_prefix(vertices@, earlier, solutions, i as nat);
            let before = events_of_edges(vertices@, solutions, i as nat);
            match event_at(vertices@, solutions, i as int) {
                Some(event) => {
                    assert(events@ =~= start + before.push(event));
                },
                None => {},
            }
            assert forall|j: int|
                0 <= j < i + 1 && #[trigger] is_curved(vertices@, j) implies call_ensures(
                *solver,
                chord_of(vertices@, j),
                solutions[j],
            ) by {
                if j < i {
                    assert(solutions[j] == earlier[j]);
                }
            }
        }
        i = i + 1;
    }
    proof {
        lemma_every_edge_is_accounted_for(vertices@, solutions, n as nat);
        lemma_arcs_are_drawable(vertices@, solutions);
        assert(events@ == walk(vertices@, solutions));
    }
    Ok(Outline { events, dropped })
}

/// The instructions that the exports draw for an outline: those of the
/// walk, and none at all for an outline without vertices.
pub open spec fn outline_events(vertices: Seq<Vertex>, solutions: Seq<ChordSolution>) -> Seq<
    ArcMoveLineTo,
> {
    if vertices.len() == 0 {
        Seq::empty()
    } else {
        walk(vertices, solutions)
    }
}

/// Whether `outline` is what the outline `vertices` converts to with some
/// answers of `solver`.
pub open spec fn is_conversion_of<K: Fn(Point, Point, Scalar) -> ChordSolution>(
    solver: K,
    vertices: Seq<Vertex>,
    outline: Outline,
) -> bool {
    exists|solutions: Seq<ChordSolution>|
        {
            &&& solutions.len() == vertices.len()
            &&& solved_by(solver, vertices, solutions, vertices.len() as int)
            &&& outline.events@ == outline_events(vertices, solutions)
            &&& outline.dropped@ == #[trigger] reports_of_edges(
                vertices,
                solutions,
                vertices.len(),
            )
        }
}

/// Converts an outline as [`lwpolyline_to_arcs_and_lines`] does, and gives
/// no instruction at all where the outline has no vertex.
pub fn outline_or_nothing<K: Fn(Point, Point, Scalar) -> ChordSolution>(
    vertices: &Vec<Vertex>,
    solver: &K,
) -> (outline: Outline)
    requires
        accepts(*solver, vertices@),
    ensures
        is_conversion_of(*solver, vertices@, outline),
        vertices.len() == 0 ==> outline.events.len() == 0 && outline.dropped.len() == 0,
        vertices.len() > 0 ==> outline.events.len() + outline.dropped.len() == vertices.len() + 1,
{
    match lwpolyline_to_arcs_and_lines(vertices, solver) {
        Ok(outline) => outline,
        Err(_) => {
            let outline = Outline { events: Vec::new(), dropped: Vec::new() };
            proof {
                let solutions = Seq::<ChordSolution>::empty();
                assert(outline.dropped@ == reports_of_edges(vertices@, solutions, 0));
            }
            outline
        },
    }
}

/// An entity of a drawing: an outline, or anything else.
#[derive(Debug)]
pub enum Entity {
    /// A closed outline of vertices with bulges.
    LwPolyline(Vec<Vertex>),
    /// An entity of another kind. The exports pass it over.
    Other,
}

/// The outlines among the first `k` entities, in their order.
pub open spec fn outlines_of(entities: Seq<Entity>, k: nat) -> Seq<Seq<Vertex>>
    decreases k,
{
    if k == 0 {
        Seq::empty()
    } else {
        let before = outlines_of(entities, (k - 1) as nat);
        match entities[k - 1] {
            Entity::LwPolyline(vertices) => before.push(vertices@),
            Entity::Other => before,
        }
    }
}

/// Whether `solver` can be called on the chord of every curved edge of every
/// outline among the entities.
pub open spec fn accepts_all<K: Fn(Point, Point, Scalar) -> ChordSolution>(
    solver: K,
    entities: Seq<Entity>,
) -> bool {
    forall|i: int|
        0 <= i < entities.len() ==> match #[trigger] entities[i] {
            Entity::LwPolyline(vertices) => accepts(solver, vertices@),
            Entity::Other => true,
        }
}

} // verus!
