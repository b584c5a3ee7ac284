//! Outputs: display sinks with a name, a place in the global space and
//! their layer surfaces.

use vstd::prelude::*;

use crate::desktop::LayerMap;
use crate::utils::{Point, Rectangle, Size};

verus! {

/// A display sink.
pub struct Output {
    /// Stable name, the key by which the output is found again.
    pub name: String,
    /// Origin in the global space.
    pub location: Point,
    /// Logical size, after transform and scale.
    pub size: Size,
    /// Logical size of the current mode, before the transform; zero without
    /// a mode.
    pub mode_size: Size,
    pub layer_map: LayerMap,
}

/// The index of the first output at or after `from` with the given name.
pub open spec fn output_named_from(outputs: Seq<Output>, name: Seq<char>, from: int) -> Option<int>
    decreases outputs.len() - from,
{
    if from < 0 || from >= outputs.len() {
        None
    } else if outputs[from].name@ == name {
        Some(from)
    } else {
        output_named_from(outputs, name, from + 1)
    }
}

/// The index of the first output with the given name.
pub open spec fn output_named(outputs: Seq<Output>, name: Seq<char>) -> Option<int> {
    output_named_from(outputs, name, 0)
}

/// The index of the first output at or after `from` whose geometry contains
/// `p`.
pub open spec fn output_containing_from(outputs: Seq<Output>, p: Point, from: int) -> Option<int>
    decreases outputs.len() - from,
{
    if from < 0 || from >= outputs.len() {
        None
    } else if outputs[from].spec_geometry().spec_contains(p) {
        Some(from)
    } else {
        output_containing_from(outputs, p, from + 1)
    }
}

/// The index of the first output whose geometry contains `p`.
pub open spec fn output_containing(outputs: Seq<Output>, p: Point) -> Option<int> {
    output_containing_from(outputs, p, 0)
}

impl Output {
    pub open spec fn spec_geometry(self) -> Rectangle {
        Rectangle { loc: self.location, size: self.size }
    }

    /// An output without layer surfaces, whose whole area is free.
    pub fn new(name: String, location: Point, size: Size, mode_size: Size) -> (o: Output)
        ensures
            o.name == name,
            o.location == location,
            o.size == size,
            o.mode_size == mode_size,
            o.layer_map.layers@ == Seq::<crate::desktop::LayerSurface>::empty(),
            o.layer_map.zone == (Rectangle { loc: Point { x: 0, y: 0 }, size }),
    {
        Output {
            name,
            location,
            size,
            mode_size,
            layer_map: LayerMap::new(Rectangle { loc: Point { x: 0, y: 0 }, size }),
        }
    }
}

/// Finds an output by name.
pub fn find_output(outputs: &Vec<Output>, name: &String) -> (r: Option<usize>)
    ensures
        r is Some == output_named(outputs@, name@) is Some,
        r matches Some(i) ==> i < outputs.len() && output_named(outputs@, name@) == Some(i as int)
            && outputs[i as int].name@ == name@,
{
    let mut i: usize = 0;
    while i < outputs.len()
        invariant
            i <= outputs.len(),
            output_named_from(outputs@, name@, 0) == output_named_from(outputs@, name@, i as int),
        decreases outputs.len() - i,
    {
        if outputs[i].name == *name {
            return Some(i);
        }
        i += 1;
    }
    None
}

/// Finds the first output under a point of the global space.
pub fn find_output_containing(outputs: &Vec<Output>, p: Point) -> (r: Option<usize>)
    ensures
        r is Some == output_containing(outputs@, p) is Some,
        r matches Some(i) ==> i < outputs.len() && output_containing(outputs@, p) == Some(i as int)
            && outputs[i as int].spec_geometry().spec_contains(p),
{
    let mut i: usize = 0;
    while i < outputs.len()
        invariant
            i <= outputs.len(),
            output_containing_from(outputs@, p, 0) == output_containing_from(outputs@, p, i as int),
        decreases outputs.len() - i,
    {
        let geo = Rectangle { loc: outputs[i].location, size: outputs[i].size };
        if geo.contains(p) {
            return Some(i);
        }
        i += 1;
    }
    None
}

} // verus!
