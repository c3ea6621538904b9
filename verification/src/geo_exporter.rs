//! Flattened paths as line strings.
//!
//! A flattened path is a run of events: it begins at a point, goes on in
//! lines, and ends. Each ended sub-path becomes one line string: the points
//! it went through, and its first point once more at the end.

use vstd::prelude::*;
use crate::dxf_helper::Point;

verus! {

/// An event of a flattened path.
#[derive(Clone, Copy, Debug, PartialEq, Eq, Structural)]
pub enum FlatEvent {
    /// A sub-path begins at `at`.
    Begin { at: Point },
    /// A line goes on to `to`.
    Line { to: Point },
    /// The sub-path that began at `first` ends.
    End { first: Point },
}

impl FlatEvent {
    /// The point that the event adds to the line string in the making.
    pub open spec fn point(self) -> Point {
        match self {
            FlatEvent::Begin { at } => at,
            FlatEvent::Line { to } => to,
            FlatEvent::End { first } => first,
        }
    }
}

/// The points gathered for the line string in the making after the first
/// `k` events: those of the events since the latest end.
pub open spec fn pending_points(events: Seq<FlatEvent>, k: nat) -> Seq<Point>
    decreases k,
{
    if k == 0 {
        Seq::empty()
    } else if events[k - 1] is End {
        Seq::empty()
    } else {
        pending_points(events, (k - 1) as nat).push(events[k - 1].point())
    }
}

/// The line strings finished by the first `k` events: one for each end, made
/// of the points gathered before it and the first point of its sub-path.
pub open spec fn line_strings(events: Seq<FlatEvent>, k: nat) -> Seq<Seq<Point>>
    decreases k,
{
    if k == 0 {
        Seq::empty()
    } else if events[k - 1] is End {
        line_strings(events, (k - 1) as nat).push(
            pending_points(events, (k - 1) as nat).push(events[k - 1].point()),
        )
    } else {
        line_strings(events, (k - 1) as nat)
    }
}

/// Gathers the events of flattened paths into line strings, one for each
/// sub-path that ends. Points after the latest end are left out.
pub fn export_geo_linestring(events: &Vec<FlatEvent>) -> (strings: Vec<Vec<Point>>)
    ensures
        strings.len() == line_strings(events@, events.len() as nat).len(),
        forall|j: int|
            0 <= j < strings.len() ==> (#[trigger] strings[j])@ == line_strings(
                events@,
                events.len() as nat,
            )[j],
{
    let mut strings: Vec<Vec<Point>> = Vec::new();
    let mut points: Vec<Point> = Vec::new();
    let mut i: usize = 0;
    while i < events.len()
        invariant
            i <= events.len(),
            points@ == pending_points(events@, i as nat),
            strings.len() == line_strings(events@, i as nat).len(),
            forall|j: int|
                0 <= j < strings.len() ==> (#[trigger] strings[j])@ == line_strings(
                    events@,
                    i as nat,
                )[j],
        decreases events.len() - i,
    {
        match events[i] {
            FlatEvent::Begin { at } => {
                points.push(at);
            },
            FlatEvent::Line { to } => {
                points.push(to);
            },
            FlatEvent::End { first } => {
                points.push(first);
                strings.push(points);
                points = Vec::new();
            },
        }
        i = i + 1;
    }
    strings
}

} // verus!
