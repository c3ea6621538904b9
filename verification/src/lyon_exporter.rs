//! Outlines as the commands of an SVG-like path builder.
//!
//! A builder of this kind takes moves, lines and arcs. An arc is given by
//! its radius, two flags and the point it reaches: whether it is the larger
//! of the two arcs with that radius between its ends, and whether it sweeps
//! towards positive angles.

use vstd::prelude::*;
use crate::dxf_helper::{
    accepts, accepts_all, outline_events, outline_or_nothing, outlines_of, reports_of_edges,
    solved_by, Arc, ArcMoveLineTo, ChordSolution, DegenerateArc, Entity, Point, Vertex,
};
use crate::scalar::{Scalar, ONE_BITS};

verus! {

/// One call on a path builder.
#[derive(Clone, Copy, Debug, PartialEq, Eq, Structural)]
pub enum PathCommand {
    /// Begin a sub-path at the point.
    MoveTo(Point),
    /// Draw a line to the point.
    LineTo(Point),
    /// Draw a circular arc of the given radius to the point `to`.
    ArcTo { radius: Scalar, large_arc: bool, sweep: bool, to: Point },
    /// Close the sub-path.
    Close,
}

/// The commands of one path, with the reports on the edges left out of it.
#[derive(Debug)]
pub struct LyonPath {
    pub commands: Vec<PathCommand>,
    pub dropped: Vec<DegenerateArc>,
}

/// Whether an arc with this bulge is the larger one between its ends: the
/// bulge is the tangent of a quarter of the included angle, so the angle is
/// above a half turn where the bulge's magnitude is above one.
pub open spec fn is_large_arc(bulge: Scalar) -> bool {
    (Scalar { bits: ONE_BITS }).lt(bulge.abs())
}

/// Whether an arc with this bulge sweeps towards positive angles: the bulge
/// is zero or above.
pub open spec fn is_positive_sweep(bulge: Scalar) -> bool {
    (Scalar { bits: 0 }).le(bulge)
}

/// The command for an arc.
pub open spec fn arc_command(arc: Arc) -> PathCommand {
    PathCommand::ArcTo {
        radius: arc.radius.abs(),
        large_arc: is_large_arc(arc.bulge),
        sweep: is_positive_sweep(arc.bulge),
        to: arc.to_point,
    }
}

/// The command for an instruction.
pub open spec fn path_command(event: ArcMoveLineTo) -> PathCommand {
    match event {
        ArcMoveLineTo::Arc(arc) => arc_command(arc),
        ArcMoveLineTo::Move(point) => PathCommand::MoveTo(point),
        ArcMoveLineTo::LineTo(point) => PathCommand::LineTo(point),
    }
}

/// The commands for a list of instructions, one for each.
pub open spec fn path_of(events: Seq<ArcMoveLineTo>) -> Seq<PathCommand> {
    Seq::new(events.len(), |i: int| path_command(events[i]))
}

/// The commands on a path builder for a list of instructions.
pub fn path_commands(events: &Vec<ArcMoveLineTo>) -> (commands: Vec<PathCommand>)
    ensures
        commands@ == path_of(events@),
{
    let mut commands: Vec<PathCommand> = Vec::new();
    let mut i: usize = 0;
    while i < events.len()
        invariant
            i <= events.len(),
            commands.len() == i,
            forall|j: int| 0 <= j < i ==> #[trigger] commands[j] == path_command(events[j]),
        decreases events.len() - i,
    {
        match events[i] {
            ArcMoveLineTo::Arc(arc) => {
                commands.push(
                    PathCommand::ArcTo {
                        radius: arc.radius.abs(),
                        large_arc: Scalar::one().lt(arc.bulge.abs()),
                        sweep: Scalar::zero().le(arc.bulge),
                        to: arc.to_point,
                    },
                );
            },
            ArcMoveLineTo::Move(point) => {
                commands.push(PathCommand::MoveTo(point));
            },
            ArcMoveLineTo::LineTo(point) => {
                commands.push(PathCommand::LineTo(point));
            },
        }
        i = i + 1;
    }
    assert(commands@ =~= path_of(events@));
    commands
}

/// Whether `commands` and `dropped` are the commands for the outline
/// `vertices` followed by `tail`, and the reports on it, for some answers of
/// `solver`.
pub open spec fn is_path_of<K: Fn(Point, Point, Scalar) -> ChordSolution>(
    solver: K,
    vertices: Seq<Vertex>,
    tail: Seq<PathCommand>,
    path: LyonPath,
) -> bool {
    exists|solutions: Seq<ChordSolution>|
        {
            &&& solutions.len() == vertices.len()
            &&& solved_by(solver, vertices, solutions, vertices.len() as int)
            &&& path.commands@ == path_of(outline_events(vertices, solutions)) + tail
            &&& path.dropped@ == #[trigger] reports_of_edges(vertices, solutions, vertices.len())
        }
}

/// Converts an outline to commands on a path builder. The path is left
/// open. An outline without vertices gives no command.
pub fn convert_lwpolyline_to_path<K: Fn(Point, Point, Scalar) -> ChordSolution>(
    vertices: &Vec<Vertex>,
    solver: &K,
) -> (path: LyonPath)
    requires
        accepts(*solver, vertices@),
    ensures
        is_path_of(*solver, vertices@, Seq::empty(), path),
        path.commands.len() + path.dropped.len() == if vertices.len() == 0 {
            0
        } else {
            vertices.len() + 1
        },
{
    let outline = outline_or_nothing(vertices, solver);
    let commands = path_commands(&outline.events);
    let path = LyonPath { commands, dropped: outline.dropped };
    proof {
        let solutions = choose|solutions: Seq<ChordSolution>|
            {
                &&& solutions.len() == vertices.len()
                &&& solved_by(*solver, vertices@, solutions, vertices.len() as int)
                &&& outline.events@ == outline_events(vertices@, solutions)
                &&& outline.dropped@ == #[trigger] reports_of_edges(
                    vertices@,
                    solutions,
                    vertices.len() as nat,
                )
            };
        assert(path.commands@ =~= path_of(outline_events(vertices@, solutions)) + Seq::empty());
        assert(path.dropped@ == reports_of_edges(vertices@, solutions, vertices.len() as nat));
    }
    path
}

/// Converts every outline of a drawing to a closed path, in the order of
/// the entities. Other entities give nothing.
pub fn export_lyon<K: Fn(Point, Point, Scalar) -> ChordSolution>(
    entities: &Vec<Entity>,
    solver: &K,
) -> (paths: Vec<LyonPath>)
    requires
        accepts_all(*solver, entities@),
    ensures
        paths.len() == outlines_of(entities@, entities.len() as nat).len(),
        forall|j: int|
            0 <= j < paths.len() ==> is_path_of(
                *solver,
                outlines_of(entities@, entities.len() as nat)[j],
                seq![PathCommand::Close],
                #[trigger] paths[j],
            ),
{
    let mut paths: Vec<LyonPath> = Vec::new();
    let mut i: usize = 0;
    while i < entities.len()
        invariant
            i <= entities.len(),
            accepts_all(*solver, entities@),
            paths.len() == outlines_of(entities@, i as nat).len(),
            forall|j: int|
                0 <= j < paths.len() ==> is_path_of(
                    *solver,
                    outlines_of(entities@, i as nat)[j],
                    seq![PathCommand::Close],
                    #[trigger] paths[j],
                ),
        decreases entities.len() - i,
    {
        match &entities[i] {
            Entity::LwPolyline(vertices) => {
                let open_path = convert_lwpolyline_to_path(vertices, solver);
                let ghost open_commands = open_path.commands@;
                let mut commands = open_path.commands;
                commands.push(PathCommand::Close);
                let path = LyonPath { commands, dropped: open_path.dropped };
                proof {
                    let solutions = choose|solutions: Seq<ChordSolution>|
                        {
                            &&& solutions.len() == vertices.len()
                            &&& solved_by(*solver, vertices@, solutions, vertices.len() as int)
                            &&& open_commands == path_of(outline_events(vertices@, solutions))
                                + Seq::empty()
                            &&& open_path.dropped@ == #[trigger] reports_of_edges(
                                vertices@,
                                solutions,
                                vertices.len() as nat,
                            )
                        };
                    assert(path.commands@ =~= path_of(outline_events(vertices@, solutions))
                        + seq![PathCommand::Close]);
                    assert(path.dropped@ == reports_of_edges(
                        vertices@,
                        solutions,
                        vertices.len() as nat,
                    ));
                    assert(is_path_of(*solver, vertices@, seq![PathCommand::Close], path));
                }
                paths.push(path);
            },
            Entity::Other => {},
        }
        i = i + 1;
    }
    paths
}

} // verus!
