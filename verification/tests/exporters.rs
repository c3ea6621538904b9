use dxfexports::{
    convert_lwpolyline_to_path, convert_lwpolyline_to_svg, export_geo_linestring, export_lyon,
    export_svg, lwpolyline_to_arcs_and_lines, path_commands, svg_commands, Arc, ArcMoveLineTo,
    ChordSolution, Entity, FlatEvent, PathCommand, Point, Scalar, SvgCommand, Vertex,
};
use lyon::path::iterator::PathIterator;
use lyon::path::traits::SvgPathBuilder;
use std::f64::consts::PI;

fn s(x: f64) -> Scalar {
    Scalar::from_bits(x.to_bits())
}

fn f(x: Scalar) -> f64 {
    f64::from_bits(x.to_bits())
}

fn pt(x: f64, y: f64) -> Point {
    Point::new(s(x), s(y))
}

fn vx(x: f64, y: f64, bulge: f64) -> Vertex {
    Vertex::new(s(x), s(y), s(bulge))
}

fn direction(from: (f64, f64), to: (f64, f64)) -> f64 {
    (to.1 - from.1).atan2(to.0 - from.0)
}

fn solve(start: Point, end: Point, bulge: Scalar) -> ChordSolution {
    let first = (f(start.x), f(start.y));
    let second = (f(end.x), f(end.y));
    let b = f(bulge);
    let distance = ((second.0 - first.0).powi(2) + (second.1 - first.1).powi(2)).sqrt();
    let r = distance * (1.0 + (b * b)) / 4.0 / b;
    let a = direction(first, second) + (PI / 2.0 - b.atan() * 2.0);
    let c = (a.cos() * r + first.0, a.sin() * r + first.1);
    ChordSolution {
        center: pt(c.0, c.1),
        angle_to_start: s(direction(c, first)),
        angle_to_end: s(direction(c, second)),
        radius: s(r),
    }
}

fn arc_between(from: Point, to: Point, radius: f64, bulge: f64) -> Arc {
    Arc {
        to_point: to,
        from_point: from,
        center: pt(0.0, 0.0),
        start_angle: s(0.0),
        end_angle: s(1.0),
        radius: s(radius),
        bulge: s(bulge),
    }
}

fn rounded_slot() -> Vec<Vertex> {
    vec![vx(0.0, 0.0, 0.0), vx(4.0, 0.0, 1.0), vx(4.0, 2.0, 0.0), vx(0.0, 2.0, 1.0)]
}

fn triangle() -> Vec<Vertex> {
    vec![vx(10.0, 10.0, 0.0), vx(20.0, 10.0, 0.0), vx(15.0, 18.0, 0.0)]
}

fn svg_data(commands: &[SvgCommand]) -> svg::node::element::path::Data {
    let mut data = svg::node::element::path::Data::new();
    for command in commands {
        data = match *command {
            SvgCommand::MoveTo(point) => data.move_to((f(point.x), f(point.y))),
            SvgCommand::LineBy { from, to } => {
                data.line_by((f(to.x) - f(from.x), f(to.y) - f(from.y)))
            }
            SvgCommand::Close => data.close(),
        };
    }
    data
}

fn lyon_path(commands: &[PathCommand]) -> lyon::path::Path {
    let mut builder = lyon::path::Path::svg_builder();
    for command in commands {
        match *command {
            PathCommand::MoveTo(point) => {
                builder.move_to(lyon::math::point(f(point.x) as f32, f(point.y) as f32));
            }
            PathCommand::LineTo(point) => {
                builder.line_to(lyon::math::point(f(point.x) as f32, f(point.y) as f32));
            }
            PathCommand::ArcTo { radius, large_arc, sweep, to } => {
                builder.arc_to(
                    lyon::math::vector(f(radius) as f32, f(radius) as f32),
                    lyon::math::Angle::radians(0.0),
                    lyon::path::ArcFlags { large_arc, sweep },
                    lyon::math::point(f(to.x) as f32, f(to.y) as f32),
                );
            }
            PathCommand::Close => builder.close(),
        }
    }
    builder.build()
}

#[test]
fn svg_commands_follow_the_pen() {
    let events = vec![
        ArcMoveLineTo::Move(pt(2.0, 0.0)),
        ArcMoveLineTo::LineTo(pt(0.0, 0.0)),
        ArcMoveLineTo::Arc(arc_between(pt(0.0, 0.0), pt(2.0, 0.0), 1.0, 1.0)),
        ArcMoveLineTo::LineTo(pt(2.0, 5.0)),
    ];
    assert_eq!(
        svg_commands(&events),
        vec![
            SvgCommand::MoveTo(pt(2.0, 0.0)),
            SvgCommand::LineBy { from: pt(2.0, 0.0), to: pt(0.0, 0.0) },
            SvgCommand::LineBy { from: pt(0.0, 0.0), to: pt(2.0, 0.0) },
            SvgCommand::LineBy { from: pt(2.0, 0.0), to: pt(2.0, 5.0) },
            SvgCommand::Close,
        ]
    );
}

#[test]
fn svg_commands_start_from_the_origin() {
    let events = vec![ArcMoveLineTo::LineTo(pt(3.0, 4.0))];
    assert_eq!(
        svg_commands(&events),
        vec![SvgCommand::LineBy { from: pt(0.0, 0.0), to: pt(3.0, 4.0) }, SvgCommand::Close]
    );
    assert_eq!(svg_commands(&Vec::new()), vec![SvgCommand::Close]);
}

#[test]
fn svg_arc_is_the_line_between_its_own_ends() {
    let events = vec![
        ArcMoveLineTo::Move(pt(9.0, 9.0)),
        ArcMoveLineTo::Arc(arc_between(pt(1.0, 1.0), pt(2.0, 3.0), 1.0, -1.0)),
        ArcMoveLineTo::LineTo(pt(0.0, 0.0)),
    ];
    let commands = svg_commands(&events);
    assert_eq!(commands[1], SvgCommand::LineBy { from: pt(1.0, 1.0), to: pt(2.0, 3.0) });
    assert_eq!(commands[2], SvgCommand::LineBy { from: pt(2.0, 3.0), to: pt(0.0, 0.0) });
}

#[test]
fn path_commands_carry_radius_flags_and_end() {
    let events = vec![
        ArcMoveLineTo::Move(pt(2.0, 0.0)),
        ArcMoveLineTo::LineTo(pt(0.0, 0.0)),
        ArcMoveLineTo::Arc(arc_between(pt(0.0, 0.0), pt(2.0, 0.0), 1.5, 0.5)),
        ArcMoveLineTo::Arc(arc_between(pt(2.0, 0.0), pt(2.0, 2.0), -1.5, -3.0)),
    ];
    assert_eq!(
        path_commands(&events),
        vec![
            PathCommand::MoveTo(pt(2.0, 0.0)),
            PathCommand::LineTo(pt(0.0, 0.0)),
            PathCommand::ArcTo {
                radius: s(1.5),
                large_arc: false,
                sweep: true,
                to: pt(2.0, 0.0),
            },
            PathCommand::ArcTo {
                radius: s(1.5),
                large_arc: true,
                sweep: false,
                to: pt(2.0, 2.0),
            },
        ]
    );
    assert!(path_commands(&Vec::new()).is_empty());
}

#[test]
fn arc_flags_agree_with_the_machine() {
    let bulges = [
        0.0,
        -0.0,
        0.5,
        -0.5,
        1.0,
        -1.0,
        1.0000000000000002,
        -1.0000000000000002,
        0.9999999999999999,
        7.0,
        -7.0,
        f64::INFINITY,
        f64::NEG_INFINITY,
        f64::NAN,
    ];
    for b in bulges {
        let events = vec![ArcMoveLineTo::Arc(arc_between(pt(0.0, 0.0), pt(1.0, 0.0), 1.0, b))];
        let commands = path_commands(&events);
        match commands[0] {
            PathCommand::ArcTo { large_arc, sweep, .. } => {
                assert_eq!(large_arc, b.abs() > 1.0, "large arc for {:?}", b);
                assert_eq!(sweep, b >= 0.0, "sweep for {:?}", b);
            }
            other => panic!("expected an arc, found {:?}", other),
        }
    }
}

#[test]
fn flattened_events_are_gathered_into_line_strings() {
    let events = vec![
        FlatEvent::Begin { at: pt(0.0, 0.0) },
        FlatEvent::Line { to: pt(1.0, 0.0) },
        FlatEvent::Line { to: pt(1.0, 1.0) },
        FlatEvent::End { first: pt(0.0, 0.0) },
        FlatEvent::Begin { at: pt(5.0, 5.0) },
        FlatEvent::End { first: pt(5.0, 5.0) },
        FlatEvent::Begin { at: pt(7.0, 7.0) },
        FlatEvent::Line { to: pt(8.0, 7.0) },
    ];
    assert_eq!(
        export_geo_linestring(&events),
        vec![
            vec![pt(0.0, 0.0), pt(1.0, 0.0), pt(1.0, 1.0), pt(0.0, 0.0)],
            vec![pt(5.0, 5.0), pt(5.0, 5.0)],
        ]
    );
}

#[test]
fn no_end_gives_no_line_string() {
    assert!(export_geo_linestring(&Vec::new()).is_empty());
    let open = vec![FlatEvent::Begin { at: pt(0.0, 0.0) }, FlatEvent::Line { to: pt(1.0, 0.0) }];
    assert!(export_geo_linestring(&open).is_empty());
    let bare = vec![FlatEvent::End { first: pt(3.0, 4.0) }];
    assert_eq!(export_geo_linestring(&bare), vec![vec![pt(3.0, 4.0)]]);
}

#[test]
fn outline_to_svg_commands() {
    let path = convert_lwpolyline_to_svg(&rounded_slot(), &solve);
    assert!(path.dropped.is_empty());
    assert_eq!(
        path.commands,
        vec![
            SvgCommand::MoveTo(pt(0.0, 2.0)),
            SvgCommand::LineBy { from: pt(0.0, 2.0), to: pt(0.0, 0.0) },
            SvgCommand::LineBy { from: pt(0.0, 0.0), to: pt(4.0, 0.0) },
            SvgCommand::LineBy { from: pt(4.0, 0.0), to: pt(4.0, 2.0) },
            SvgCommand::LineBy { from: pt(4.0, 2.0), to: pt(0.0, 2.0) },
            SvgCommand::Close,
        ]
    );
    let walked = lwpolyline_to_arcs_and_lines(&rounded_slot(), &solve).unwrap();
    assert_eq!(path.commands, svg_commands(&walked.events));
}

#[test]
fn outline_without_vertices_is_only_closed_in_svg() {
    let path = convert_lwpolyline_to_svg(&Vec::new(), &solve);
    assert_eq!(path.commands, vec![SvgCommand::Close]);
    assert!(path.dropped.is_empty());
    let path = convert_lwpolyline_to_path(&Vec::new(), &solve);
    assert!(path.commands.is_empty());
    assert!(path.dropped.is_empty());
}

#[test]
fn outline_to_path_commands() {
    let path = convert_lwpolyline_to_path(&rounded_slot(), &solve);
    assert!(path.dropped.is_empty());
    assert_eq!(path.commands.len(), 5);
    assert_eq!(path.commands[0], PathCommand::MoveTo(pt(0.0, 2.0)));
    assert_eq!(path.commands[2], PathCommand::LineTo(pt(4.0, 0.0)));
    assert_eq!(
        path.commands[3],
        PathCommand::ArcTo { radius: s(1.0), large_arc: false, sweep: true, to: pt(4.0, 2.0) }
    );
    assert_eq!(path.commands[4], PathCommand::LineTo(pt(0.0, 2.0)));
    match path.commands[1] {
        PathCommand::ArcTo { radius, large_arc, sweep, to } => {
            assert_eq!(f(radius), 1.0);
            assert!(!large_arc);
            assert!(sweep);
            assert_eq!(to, pt(0.0, 0.0));
        }
        other => panic!("expected an arc, found {:?}", other),
    }
}

#[test]
fn dropped_edges_are_reported_by_the_exports() {
    let vertices = vec![vx(5.0, 5.0, 0.3)];
    let svg_path = convert_lwpolyline_to_svg(&vertices, &solve);
    assert_eq!(svg_path.commands, vec![SvgCommand::MoveTo(pt(5.0, 5.0)), SvgCommand::Close]);
    assert_eq!(svg_path.dropped.len(), 1);
    assert_eq!(svg_path.dropped[0].edge, 0);
    let path = convert_lwpolyline_to_path(&vertices, &solve);
    assert_eq!(path.commands, vec![PathCommand::MoveTo(pt(5.0, 5.0))]);
    assert_eq!(path.dropped.len(), 1);
}

#[test]
fn exports_take_the_outlines_and_pass_over_the_rest() {
    let entities = vec![
        Entity::Other,
        Entity::LwPolyline(triangle()),
        Entity::Other,
        Entity::Other,
        Entity::LwPolyline(rounded_slot()),
        Entity::LwPolyline(Vec::new()),
    ];
    let svg_paths = export_svg(&entities, &solve);
    assert_eq!(svg_paths.len(), 3);
    assert_eq!(svg_paths[0].commands, convert_lwpolyline_to_svg(&triangle(), &solve).commands);
    assert_eq!(
        svg_paths[1].commands,
        convert_lwpolyline_to_svg(&rounded_slot(), &solve).commands
    );
    assert_eq!(svg_paths[2].commands, vec![SvgCommand::Close]);

    let paths = export_lyon(&entities, &solve);
    assert_eq!(paths.len(), 3);
    let mut expected = convert_lwpolyline_to_path(&triangle(), &solve).commands;
    expected.push(PathCommand::Close);
    assert_eq!(paths[0].commands, expected);
    assert_eq!(paths[1].commands.len(), 6);
    assert_eq!(paths[1].commands[5], PathCommand::Close);
    assert_eq!(paths[2].commands, vec![PathCommand::Close]);

    assert!(export_svg(&Vec::new(), &solve).is_empty());
    assert!(export_lyon(&vec![Entity::Other], &solve).is_empty());
}

#[test]
fn dxf_to_svg() {
    let mut drawing = dxf::Drawing::new();
    let mut polyline = dxf::entities::LwPolyline::default();
    for vertex in rounded_slot() {
        polyline.vertices.push(dxf::LwPolylineVertex {
            x: f(vertex.x),
            y: f(vertex.y),
            bulge: f(vertex.bulge),
            ..Default::default()
        });
    }
    drawing.add_entity(dxf::entities::Entity::new(dxf::entities::EntityType::LwPolyline(
        polyline,
    )));
    drawing.add_entity(dxf::entities::Entity::new(dxf::entities::EntityType::Circle(
        dxf::entities::Circle::default(),
    )));

    let mut entities = Vec::new();
    for e in drawing.entities() {
        entities.push(match e.specific {
            dxf::entities::EntityType::LwPolyline(ref polyline) => Entity::LwPolyline(
                polyline.vertices.iter().map(|v| vx(v.x, v.y, v.bulge)).collect(),
            ),
            _ => Entity::Other,
        });
    }
    let paths = export_svg(&entities, &solve);
    assert_eq!(paths.len(), 1);
    let datas: Vec<svg::node::element::path::Data> =
        paths.iter().map(|path| svg_data(&path.commands)).collect();

    let mut document = svg::Document::new().set("viewBox", (0, 0, 40, 40));

    for data in datas {
        let path = svg::node::element::Path::new()
            .set("fill", "none")
            .set("stroke", "black")
            .set("stroke-width", 0.05)
            .set("d", data);

        document = document.add(path);
    }

    let mut image = Vec::new();
    svg::write(&mut image, &document).unwrap();
    let text = String::from_utf8(image).unwrap();
    assert!(text.contains("viewBox=\"0 0 40 40\""));
    assert!(text.contains("d=\"M0,2 l0,-2 l4,0 l0,2 l-4,0 z\""), "{}", text);
}

#[test]
fn outline_to_lyon_path_to_line_string() {
    let entities = vec![Entity::LwPolyline(triangle()), Entity::LwPolyline(rounded_slot())];
    let paths = export_lyon(&entities, &solve);
    let mut events = Vec::new();
    for path in &paths {
        for event in lyon_path(&path.commands).iter().flattened(0.001) {
            events.push(match event {
                lyon::path::PathEvent::Begin { at } => {
                    FlatEvent::Begin { at: pt(at.x as f64, at.y as f64) }
                }
                lyon::path::PathEvent::Line { to, .. } => {
                    FlatEvent::Line { to: pt(to.x as f64, to.y as f64) }
                }
                lyon::path::PathEvent::End { first, .. } => {
                    FlatEvent::End { first: pt(first.x as f64, first.y as f64) }
                }
                _ => panic!(),
            });
        }
    }
    let strings: Vec<geo_types::LineString> = export_geo_linestring(&events)
        .iter()
        .map(|points| {
            geo_types::LineString::new(
                points.iter().map(|p| geo_types::Coord { x: f(p.x), y: f(p.y) }).collect(),
            )
        })
        .collect();
    assert_eq!(strings.len(), 2);
    assert_eq!(
        strings[0],
        geo_types::LineString::new(vec![
            geo_types::Coord { x: 15.0, y: 18.0 },
            geo_types::Coord { x: 10.0, y: 10.0 },
            geo_types::Coord { x: 20.0, y: 10.0 },
            geo_types::Coord { x: 15.0, y: 18.0 },
            geo_types::Coord { x: 15.0, y: 18.0 },
        ])
    );
    let slot = &strings[1].0;
    assert!(slot.len() > 6);
    assert_eq!(slot[0], geo_types::Coord { x: 0.0, y: 2.0 });
    assert_eq!(slot[slot.len() - 1], geo_types::Coord { x: 0.0, y: 2.0 });
    for c in slot {
        assert!(c.x >= -1.001 && c.x <= 5.001);
        assert!(c.y >= -0.001 && c.y <= 2.001);
    }
    assert!(slot.iter().any(|c| c.x > 4.9));
    assert!(slot.iter().any(|c| c.x < -0.9));
}
