//! Outlines as the commands of an SVG path.
//!
//! Every edge becomes a line given by its offset from the pen, an arc too:
//! the path is the polygon through the outline's vertices. An offset is a
//! difference of two points, which the caller computes; a command names the
//! two points.

use vstd::prelude::*;
use crate::dxf_helper::{
    accepts, accepts_all, outline_events, outline_or_nothing, outlines_of,
    reports_of_edges, solved_by, ArcMoveLineTo, ChordSolution, DegenerateArc, Entity, Point,
    Vertex,
};
use crate::scalar::Scalar;

verus! {

/// One command of the data of an SVG path.
#[derive(Clone, Copy, Debug, PartialEq, Eq, Structural)]
pub enum SvgCommand {
    /// Move the pen to the point.
    MoveTo(Point),
    /// Draw a line from the pen by the offset `to - from`.
    LineBy { from: Point, to: Point },
    /// Close the path.
    Close,
}

/// The data of one SVG path, with the reports on the edges left out of it.
#[derive(Debug)]
pub struct SvgPath {
    pub commands: Vec<SvgCommand>,
    pub dropped: Vec<DegenerateArc>,
}

/// Where the pen is taken to be before any instruction: `(0.0, 0.0)`.
pub open spec fn origin() -> Point {
    Point { x: Scalar { bits: 0 }, y: Scalar { bits: 0 } }
}

/// Where the pen is before instruction `i`.
pub open spec fn pen_before(events: Seq<ArcMoveLineTo>, i: int) -> Point {
    if i == 0 {
        origin()
    } else {
        events[i - 1].end_point()
    }
}

/// The command for instruction `i`: a move for a move, for a line the line
/// from the pen to its end, for an arc the line between the arc's own ends.
pub open spec fn svg_command(events: Seq<ArcMoveLineTo>, i: int) -> SvgCommand {
    match events[i] {
        ArcMoveLineTo::Arc(arc) => SvgCommand::LineBy { from: arc.from_point, to: arc.to_point },
        ArcMoveLineTo::Move(point) => SvgCommand::MoveTo(point),
        ArcMoveLineTo::LineTo(point) => SvgCommand::LineBy {
            from: pen_before(events, i),
            to: point,
        },
    }
}

/// The commands for a list of instructions: one for each, then the closing
/// of the path.
pub open spec fn svg_path(events: Seq<ArcMoveLineTo>) -> Seq<SvgCommand> {
    Seq::new(
        events.len() + 1,
        |i: int|
            if i < events.len() {
                svg_command(events, i)
            } else {
                SvgCommand::Close
            },
    )
}

/// The commands of the SVG path for a list of instructions.
pub fn svg_commands(events: &Vec<ArcMoveLineTo>) -> (commands: Vec<SvgCommand>)
    ensures
        commands@ == svg_path(events@),
{
    let mut commands: Vec<SvgCommand> = Vec::new();
    let mut last_point: Point = Point::new(Scalar::zero(), Scalar::zero());
    let mut i: usize = 0;
    while i < events.len()
        invariant
            i <= events.len(),
            commands.len() == i,
            last_point == pen_before(events@, i as int),
            forall|j: int| 0 <= j < i ==> #[trigger] commands[j] == svg_command(events@, j),
        decreases events.len() - i,
    {
        match events[i] {
            ArcMoveLineTo::Arc(arc) => {
                commands.push(SvgCommand::LineBy { from: arc.from_point, to: arc.to_point });
                last_point = arc.to_point;
            },
            ArcMoveLineTo::Move(point) => {
                commands.push(SvgCommand::MoveTo(point));
                last_point = point;
            },
            ArcMoveLineTo::LineTo(point) => {
                commands.push(SvgCommand::LineBy { from: last_point, to: point });
                last_point = point;
            },
        }
        i = i + 1;
    }
    commands.push(SvgCommand::Close);
    assert(commands@ =~= svg_path(events@));
    commands
}

/// Whether `path` is the SVG path of the outline `vertices`, for some
/// answers of `solver`.
pub open spec fn is_svg_of<K: Fn(Point, Point, Scalar) -> ChordSolution>(
    solver: K,
    vertices: Seq<Vertex>,
    path: SvgPath,
) -> bool {
    exists|solutions: Seq<ChordSolution>|
        {
            &&& solutions.len() == vertices.len()
            &&& solved_by(solver, vertices, solutions, vertices.len() as int)
            &&& path.commands@ == svg_path(outline_events(vertices, solutions))
            &&& path.dropped@ == #[trigger] reports_of_edges(vertices, solutions, vertices.len())
        }
}

/// Converts an outline to the data of an SVG path. An outline without
/// vertices gives a path that is closed and nothing else.
pub fn convert_lwpolyline_to_svg<K: Fn(Point, Point, Scalar) -> ChordSolution>(
    vertices: &Vec<Vertex>,
    solver: &K,
) -> (path: SvgPath)
    requires
        accepts(*solver, vertices@),
    ensures
        is_svg_of(*solver, vertices@, path),
        path.commands.len() + path.dropped.len() == if vertices.len() == 0 {
            1
        } else {
            vertices.len() + 2
        },
{
    let outline = outline_or_nothing(vertices, solver);
    let commands = svg_commands(&outline.events);
    let path = SvgPath { commands, dropped: outline.dropped };
    proof {
        let solutions = choose|solutions: Seq<ChordSolution>|
            {
                &&& solutions.len() == vertices.len()
                &&& solved_by(*solver, vertices@, solutions, vertices.len() as int)
                &&& outline.events@ == outline_events(vertices@, solutions)
                &&& outline.dropped@ == #[trigger] reports_of_edges(
                    vertices@,
                    solutions,
                    vertices.len() as nat,
                )
            };
        assert(path.dropped@ == reports_of_edges(vertices@, solutions, vertices.len() as nat));
    }
    path
}

/// Converts every outline of a drawing to the data of an SVG path, in the
/// order of the entities. Other entities give nothing.
pub fn export_svg<K: Fn(Point, Point, Scalar) -> ChordSolution>(
    entities: &Vec<Entity>,
    solver: &K,
) -> (paths: Vec<SvgPath>)
    requires
        accepts_all(*solver, entities@),
    ensures
        paths.len() == outlines_of(entities@, entities.len() as nat).len(),
        forall|j: int|
            0 <= j < paths.len() ==> is_svg_of(
                *solver,
                outlines_of(entities@, entities.len() as nat)[j],
                #[trigger] paths[j],
            ),
{
    let mut paths: Vec<SvgPath> = Vec::new();
    let mut i: usize = 0;
    while i < entities.len()
        invariant
            i <= entities.len(),
            accepts_all(*solver, entities@),
            paths.len() == outlines_of(entities@, i as nat).len(),
            forall|j: int|
                0 <= j < paths.len() ==> is_svg_of(
                    *solver,
                    outlines_of(entities@, i as nat)[j],
                    #[trigger] paths[j],
                ),
        decreases entities.len() - i,
    {
        match &entities[i] {
            Entity::LwPolyline(vertices) => {
                let path = convert_lwpolyline_to_svg(vertices, solver);
                paths.push(path);
            },
            Entity::Other => {},
        }
        i = i + 1;
    }
    paths
}

} // verus!
