//! Layer surfaces as they arrive.

use vstd::prelude::*;

use crate::desktop::LayerSurface;
use crate::shell::PendingLayer;
use crate::state::output::{active_output, spec_active_output};
use crate::state::State;

verus! {

impl<W> State<W> {
    /// Takes a new layer surface in: it waits to be mapped on the output it
    /// names, or on the active output of the active seat if it names none.
    pub fn new_layer_surface(&mut self, surface: LayerSurface, output: Option<String>)
        requires
            old(self).common.last_active_seat < old(self).common.seats.len(),
            old(self).common.shell.outputs.len() > 0,
        ensures
            final(self).backend == old(self).backend,
            final(self).common.seats == old(self).common.seats,
            final(self).common.last_active_seat == old(self).common.last_active_seat,
            final(self).common.should_stop == old(self).common.should_stop,
            final(self).common.idle == old(self).common.idle,
            final(self).common.shell.workspaces == old(self).common.shell.workspaces,
            final(self).common.shell.outputs == old(self).common.shell.outputs,
            final(self).common.shell.windows == old(self).common.shell.windows,
            final(self).common.shell.pending_windows == old(self).common.shell.pending_windows,
            final(self).common.shell.pending_layers.len() == old(self).common.shell.pending_layers.len() + 1,
            forall|j: int|
                0 <= j < old(self).common.shell.pending_layers.len() ==> final(self).common.shell.pending_layers[j] == old(self).common.shell.pending_layers[j],
            ({
                let seat = old(self).common.seats[old(self).common.last_active_seat as int];
                let entry = final(self).common.shell.pending_layers[old(self).common.shell.pending_layers.len() as int];
                &&& entry.layer == surface
                &&& entry.seat == seat.id
                &&& entry.output@ == match output {
                    Some(name) => name@,
                    None => old(self).common.shell.outputs[spec_active_output(
                        seat,
                        old(self).common.shell.outputs@,
                    )].name@,
                }
            }),
    {
        let seat = &self.common.seats[self.common.last_active_seat];
        let fallback = active_output(seat, &self.common).name.clone();
        let id = seat.id;
        let name = match output {
            Some(name) => name,
            None => fallback,
        };
        self.common.shell.pending_layers.push(PendingLayer { layer: surface, output: name, seat: id });
    }
}

} // verus!
