//! The output a seat's pointer is over.

use vstd::prelude::*;

use crate::desktop::output::{find_output, output_named};
use crate::desktop::Output;
use crate::input::Seat;
use crate::state::CommonState;
use crate::utils::Rectangle;

verus! {

/// What the window manager asks of an output beyond its own fields.
pub trait OutputExt {
    spec fn geometry_spec(&self) -> Rectangle;

    /// The output's area in the global space.
    fn geometry(&self) -> (r: Rectangle)
        ensures
            r == self.geometry_spec(),
    ;
}

/// The cached output of a seat, by name: a weak reference, which counts as
/// unset once no attached output has the name.
pub struct ActiveOutput(pub String);

impl OutputExt for Output {
    open spec fn geometry_spec(&self) -> Rectangle {
        self.spec_geometry()
    }

    fn geometry(&self) -> (r: Rectangle) {
        Rectangle { loc: self.location, size: self.size }
    }
}

/// The index of a seat's active output among the attached outputs: the
/// cached one if it is attached, else the first.
pub open spec fn spec_active_output(seat: Seat, outputs: Seq<Output>) -> int {
    match seat.active_output {
        Some(active) => match output_named(outputs, active.0@) {
            Some(i) => i,
            None => 0,
        },
        None => 0,
    }
}

/// The index of the seat's active output.
pub fn active_output_index(seat: &Seat, outputs: &Vec<Output>) -> (i: usize)
    requires
        outputs.len() > 0,
    ensures
        i < outputs.len(),
        i == spec_active_output(*seat, outputs@),
{
    match &seat.active_output {
        Some(active) => match find_output(outputs, &active.0) {
            Some(i) => i,
            None => 0,
        },
        None => 0,
    }
}

/// The output the seat's pointer was last seen over; the first output
/// where none is cached.
pub fn active_output<'a>(seat: &Seat, state: &'a CommonState) -> (output: &'a Output)
    requires
        state.shell.outputs.len() > 0,
    ensures
        *output == state.shell.outputs[spec_active_output(*seat, state.shell.outputs@)],
{
    let i = active_output_index(seat, &state.shell.outputs);
    &state.shell.outputs[i]
}

/// Caches an output as the one the seat's pointer is over.
pub fn set_active_output(seat: &mut Seat, output: &Output)
    ensures
        final(seat).active_output matches Some(active) && active.0@ == output.name@,
        *final(seat) == (Seat { active_output: final(seat).active_output, ..*old(seat) }),
{
    seat.active_output = Some(ActiveOutput(output.name.clone()));
}

} // verus!
