//! Outlines of 2D drawings, from vertices with bulges to moves, lines and
//! arcs, and from there to the commands of a path.

pub mod dxf_helper;
pub mod geo_exporter;
pub mod laws;
pub mod lyon_exporter;
pub mod scalar;
pub mod svg_exporter;

pub use dxf_helper::{
    arc_for_edge, bulge_to_arc, lwpolyline_to_arcs_and_lines, outline_or_nothing, Arc,
    ArcGeometry, ArcMoveLineTo, ChordSolution, DegenerateArc, Entity, Outline, OutlineError,
    Point, Vertex,
};
pub use geo_exporter::{export_geo_linestring, FlatEvent};
pub use lyon_exporter::{
    convert_lwpolyline_to_path, export_lyon, path_commands, LyonPath, PathCommand,
};
pub use scalar::Scalar;
pub use svg_exporter::{
    convert_lwpolyline_to_svg, export_svg, svg_commands, SvgCommand, SvgPath,
};
