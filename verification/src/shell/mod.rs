//! The shell: outputs, windows, the workspace and what sits between them.

use vstd::prelude::*;

use crate::desktop::output::{find_output, output_named};
use crate::desktop::{LayerSurface, Output, SurfaceId, Window, WindowId};
use crate::input::{find_seat, seat_with_id, Seat, SeatId};
use crate::runtime::messages::{PolicyError, RuntimeMessage};
use crate::seqs::{lemma_filter_end, lemma_filter_start, lemma_filter_step};
use crate::utils::Point;

pub mod grab;
pub mod layout;
pub mod workspace;

use workspace::Workspace;

verus! {

/// A window that waits to be mapped, and the seat that asked.
#[derive(Clone, Copy, Debug, PartialEq, Eq, Structural)]
pub struct PendingWindow {
    pub window: WindowId,
    pub seat: SeatId,
}

/// A layer surface that waits to be mapped, the name of its output, and the
/// seat that was active when it came.
pub struct PendingLayer {
    pub layer: LayerSurface,
    pub output: String,
    pub seat: SeatId,
}

pub struct Shell {
    pub workspaces: Vec<Workspace>,
    /// The attached outputs, in the order they were added.
    pub outputs: Vec<Output>,
    /// Every window the shell knows, by its identity.
    pub windows: Vec<Window>,
    pub pending_windows: Vec<PendingWindow>,
    pub pending_layers: Vec<PendingLayer>,
}

/// The index of the first pending window entry at or after `from` for
/// `window`.
pub open spec fn pending_window_from(pending: Seq<PendingWindow>, window: WindowId, from: int) -> Option<
    int,
>
    decreases pending.len() - from,
{
    if from < 0 || from >= pending.len() {
        None
    } else if pending[from].window == window {
        Some(from)
    } else {
        pending_window_from(pending, window, from + 1)
    }
}

/// The index of the first pending layer at or after `from` with the root
/// surface `surface`.
pub open spec fn pending_layer_from(pending: Seq<PendingLayer>, surface: SurfaceId, from: int) -> Option<
    int,
>
    decreases pending.len() - from,
{
    if from < 0 || from >= pending.len() {
        None
    } else if pending[from].layer.surface == surface {
        Some(from)
    } else {
        pending_layer_from(pending, surface, from + 1)
    }
}

/// Whether a window of the table has `surface` in its surface tree.
pub open spec fn owns_surface(window: Window, surface: SurfaceId) -> bool {
    exists|i: int| 0 <= i < window.surfaces@.len() && (#[trigger] window.surfaces@[i]).surface == surface
}

/// Whether the workspace has a mapped window that owns `surface`.
pub open spec fn maps_surface(workspace: Workspace, windows: Seq<Window>, surface: SurfaceId) -> bool {
    exists|i: int|
        0 <= i < workspace.space.windows@.len() && (#[trigger] workspace.space.windows@[i]).window.0
            < windows.len() && owns_surface(
            windows[workspace.space.windows@[i].window.0 as int],
            surface,
        )
}

/// The index of the first workspace at or after `from` that maps a window
/// owning `surface`.
pub open spec fn workspace_of_from(
    workspaces: Seq<Workspace>,
    windows: Seq<Window>,
    surface: SurfaceId,
    from: int,
) -> Option<int>
    decreases workspaces.len() - from,
{
    if from < 0 || from >= workspaces.len() {
        None
    } else if maps_surface(workspaces[from], windows, surface) {
        Some(from)
    } else {
        workspace_of_from(workspaces, windows, surface, from + 1)
    }
}

fn window_owns(window: &Window, surface: SurfaceId) -> (b: bool)
    ensures
        b == owns_surface(*window, surface),
{
    let mut i: usize = 0;
    while i < window.surfaces.len()
        invariant
            i <= window.surfaces.len(),
            forall|j: int| 0 <= j < i ==> (#[trigger] window.surfaces@[j]).surface != surface,
        decreases window.surfaces.len() - i,
    {
        if window.surfaces[i].surface.0 == surface.0 {
            return true;
        }
        i += 1;
    }
    false
}

fn workspace_maps(workspace: &Workspace, windows: &Vec<Window>, surface: SurfaceId) -> (b: bool)
    ensures
        b == maps_surface(*workspace, windows@, surface),
{
    let mut i: usize = 0;
    while i < workspace.space.windows.len()
        invariant
            i <= workspace.space.windows.len(),
            forall|j: int|
                0 <= j < i ==> !((#[trigger] workspace.space.windows@[j]).window.0 < windows.len()
                    && owns_surface(windows[workspace.space.windows@[j].window.0 as int], surface)),
        decreases workspace.space.windows.len() - i,
    {
        let id = workspace.space.windows[i].window;
        if id.0 < windows.len() && window_owns(&windows[id.0], surface) {
            return true;
        }
        i += 1;
    }
    false
}

impl Shell {
    /// There is a workspace, and each workspace is in order.
    pub open spec fn wf(self) -> bool {
        &&& self.workspaces.len() > 0
        &&& forall|i: int| 0 <= i < self.workspaces.len() ==> (#[trigger] self.workspaces[i]).wf()
    }

    /// Tests whether the shell is in order.
    pub fn in_order(&self) -> (b: bool)
        ensures
            b == self.wf(),
    {
        if self.workspaces.len() == 0 {
            return false;
        }
        let mut i: usize = 0;
        while i < self.workspaces.len()
            invariant
                i <= self.workspaces.len(),
                forall|a: int| 0 <= a < i ==> (#[trigger] self.workspaces[a]).wf(),
            decreases self.workspaces.len() - i,
        {
            if !self.workspaces[i].in_order() {
                return false;
            }
            i += 1;
        }
        true
    }

    /// Tests whether a layer surface with that root surface waits to be
    /// mapped.
    pub fn has_pending_layer(&self, surface: SurfaceId) -> (b: bool)
        ensures
            b == pending_layer_from(self.pending_layers@, surface, 0) is Some,
    {
        let mut i: usize = 0;
        while i < self.pending_layers.len()
            invariant
                i <= self.pending_layers.len(),
                pending_layer_from(self.pending_layers@, surface, 0) == pending_layer_from(
                    self.pending_layers@,
                    surface,
                    i as int,
                ),
            decreases self.pending_layers.len() - i,
        {
            if self.pending_layers[i].layer.surface.0 == surface.0 {
                return true;
            }
            i += 1;
        }
        false
    }

    /// Tests whether the window waits to be mapped.
    pub fn has_pending_window(&self, window: WindowId) -> (b: bool)
        ensures
            b == pending_window_from(self.pending_windows@, window, 0) is Some,
    {
        let mut i: usize = 0;
        while i < self.pending_windows.len()
            invariant
                i <= self.pending_windows.len(),
                pending_window_from(self.pending_windows@, window, 0) == pending_window_from(
                    self.pending_windows@,
                    window,
                    i as int,
                ),
            decreases self.pending_windows.len() - i,
        {
            if self.pending_windows[i].window.0 == window.0 {
                return true;
            }
            i += 1;
        }
        false
    }

    /// A shell with one empty workspace that reports to `rs`.
    pub fn new(rs: calloop::channel::Sender<RuntimeMessage>) -> (shell: Shell)
        ensures
            shell.wf(),
            shell.workspaces.len() == 1,
            shell.workspaces[0].idx == 0,
            shell.workspaces[0].runtime_sender == rs,
            shell.workspaces[0].slots() == Seq::<workspace::Slot>::empty(),
            shell.workspaces[0].space.windows@ == Seq::<crate::desktop::MappedWindow>::empty(),
            shell.workspaces[0].space.outputs@ == Seq::<String>::empty(),
            shell.outputs@ == Seq::<Output>::empty(),
            shell.windows@ == Seq::<Window>::empty(),
            shell.pending_windows@ == Seq::<PendingWindow>::empty(),
            shell.pending_layers@ == Seq::<PendingLayer>::empty(),
    {
        let mut workspaces: Vec<Workspace> = Vec::new();
        workspaces.push(Workspace::new(0, rs));
        Shell {
            workspaces,
            outputs: Vec::new(),
            windows: Vec::new(),
            pending_windows: Vec::new(),
            pending_layers: Vec::new(),
        }
    }

    /// Takes a new window into the table, and gives it its identity: the
    /// slot it gets, which is the next one.
    pub fn add_window(&mut self, toplevel: SurfaceId, geometry: crate::utils::Rectangle) -> (id:
        WindowId)
        ensures
            id.0 == old(self).windows.len(),
            final(self).windows.len() == old(self).windows.len() + 1,
            forall|j: int|
                0 <= j < old(self).windows.len() ==> final(self).windows[j] == old(self).windows[j],
            final(self).windows[id.0 as int].is_new(id, toplevel, geometry),
            final(self).workspaces == old(self).workspaces,
            final(self).outputs == old(self).outputs,
            final(self).pending_windows == old(self).pending_windows,
            final(self).pending_layers == old(self).pending_layers,
    {
        let id = WindowId(self.windows.len());
        self.windows.push(Window::new(id, toplevel, geometry));
        id
    }

    pub fn outputs(&self) -> (r: &Vec<Output>)
        ensures
            *r == self.outputs,
    {
        &self.outputs
    }

    pub fn active_workspace(&self) -> (w: &Workspace)
        requires
            self.workspaces.len() > 0,
        ensures
            *w == self.workspaces[0],
    {
        &self.workspaces[0]
    }

    pub fn active_workspace_mut(&mut self) -> (w: &mut Workspace)
        requires
            old(self).workspaces.len() > 0,
        ensures
            *w == old(self).workspaces[0],
            final(self).workspaces@ == old(self).workspaces@.update(0, *final(w)),
            final(self).outputs == old(self).outputs,
            final(self).windows == old(self).windows,
            final(self).pending_windows == old(self).pending_windows,
            final(self).pending_layers == old(self).pending_layers,
    {
        &mut self.workspaces[0]
    }

    /// The workspace that maps a window owning `surface`, by its index.
    pub fn space_for_window_mut(&self, surface: SurfaceId) -> (r: Option<usize>)
        ensures
            r is Some == workspace_of_from(self.workspaces@, self.windows@, surface, 0) is Some,
            r matches Some(i) ==> i < self.workspaces.len() && workspace_of_from(
                self.workspaces@,
                self.windows@,
                surface,
                0,
            ) == Some(i as int),
    {
        let mut i: usize = 0;
        while i < self.workspaces.len()
            invariant
                i <= self.workspaces.len(),
                workspace_of_from(self.workspaces@, self.windows@, surface, 0) == workspace_of_from(
                    self.workspaces@,
                    self.windows@,
                    surface,
                    i as int,
                ),
            decreases self.workspaces.len() - i,
        {
            if workspace_maps(&self.workspaces[i], &self.windows, surface) {
                return Some(i);
            }
            i += 1;
        }
        None
    }

    /// Attaches an output and maps it into the first workspace.
    pub fn add_output(&mut self, output: Output)
        requires
            old(self).workspaces.len() > 0,
        ensures
            final(self).outputs@ == old(self).outputs@.push(output),
            final(self).windows == old(self).windows,
            final(self).pending_windows == old(self).pending_windows,
            final(self).pending_layers == old(self).pending_layers,
            remapped(old(self).workspaces@, final(self).workspaces@, output.name@, None, Some(0)),
    {
        let name = output.name.clone();
        self.outputs.push(output);
        remap_output(&name, &mut self.workspaces, None, Some(0));
    }

    /// Detaches the outputs of that name, and takes the name out of the
    /// first workspace's space, so that the next refresh finds its
    /// fullscreen window orphaned.
    pub fn remove_output(&mut self, output: &String)
        requires
            old(self).workspaces.len() > 0,
        ensures
            final(self).outputs@ == old(self).outputs@.filter(|o: Output| o.name@ != output@),
            final(self).windows == old(self).windows,
            final(self).pending_windows == old(self).pending_windows,
            final(self).pending_layers == old(self).pending_layers,
            remapped(old(self).workspaces@, final(self).workspaces@, output@, Some(0), None),
    {
        let ghost pred = |o: Output| o.name@ != output@;
        let ghost before = self.outputs@;
        let ghost mut k: int = 0;
        let mut i: usize = 0;
        proof {
            lemma_filter_start(before, pred);
        }
        while i < self.outputs.len()
            invariant
                0 <= k <= before.len(),
                i == before.take(k).filter(pred).len(),
                pred == (|o: Output| o.name@ != output@),
                self.outputs@ == before.take(k).filter(pred) + before.skip(k),
                self.workspaces == old(self).workspaces,
                self.windows == old(self).windows,
                self.pending_windows == old(self).pending_windows,
                self.pending_layers == old(self).pending_layers,
            decreases before.len() - k,
        {
            proof {
                lemma_filter_step(before, pred, k);
            }
            if self.outputs[i].name == *output {
                self.outputs.remove(i);
                proof {
                    k = k + 1;
                }
            } else {
                proof {
                    k = k + 1;
                }
                i += 1;
            }
        }
        proof {
            lemma_filter_end(before, pred);
        }
        remap_output(output, &mut self.workspaces, Some(0), None);
    }

    /// Maps every attached output into the first workspace's space.
    pub fn refresh_outputs(&mut self)
        requires
            old(self).workspaces.len() > 0,
        ensures
            final(self).outputs == old(self).outputs,
            final(self).windows == old(self).windows,
            final(self).pending_windows == old(self).pending_windows,
            final(self).pending_layers == old(self).pending_layers,
            final(self).workspaces.len() == old(self).workspaces.len(),
            forall|j: int|
                1 <= j < old(self).workspaces.len() ==> final(self).workspaces[j] == old(
                    self,
                ).workspaces[j],
            same_but_outputs(old(self).workspaces[0], final(self).workspaces[0]),
            final(self).workspaces[0].space.output_names() == with_all_mapped(
                old(self).workspaces[0].space.output_names(),
                old(self).outputs@,
                0,
            ),
    {
        let mut i: usize = 0;
        while i < self.outputs.len()
            invariant
                i <= self.outputs.len(),
                self.outputs == old(self).outputs,
                self.windows == old(self).windows,
                self.pending_windows == old(self).pending_windows,
                self.pending_layers == old(self).pending_layers,
                self.workspaces.len() == old(self).workspaces.len(),
                self.workspaces.len() > 0,
                forall|j: int|
                    1 <= j < old(self).workspaces.len() ==> self.workspaces[j] == old(
                        self,
                    ).workspaces[j],
                same_but_outputs(old(self).workspaces[0], self.workspaces[0]),
                with_all_mapped(
                    old(self).workspaces[0].space.output_names(),
                    old(self).outputs@,
                    0,
                ) == with_all_mapped(
                    self.workspaces[0].space.output_names(),
                    old(self).outputs@,
                    i as int,
                ),
            decreases self.outputs.len() - i,
        {
            self.workspaces[0].space.map_output(&self.outputs[i].name);
            i += 1;
        }
    }

    /// Brings the first workspace up to date, and drops the layer surfaces
    /// that are gone. Fails only where a message could not be handed over to
    /// the policy engine.
    pub fn refresh(&mut self) -> (r: Result<(), PolicyError>)
        requires
            old(self).wf(),
        ensures
            final(self).wf(),
            final(self).outputs.len() == old(self).outputs.len(),
            forall|o: int|
                0 <= o < old(self).outputs.len() ==> cleaned(
                    old(self).outputs[o],
                    #[trigger] final(self).outputs[o],
                ),
            final(self).pending_windows == old(self).pending_windows,
            final(self).pending_layers == old(self).pending_layers,
            final(self).workspaces.len() == old(self).workspaces.len(),
            forall|j: int|
                1 <= j < old(self).workspaces.len() ==> final(self).workspaces[j] == old(
                    self,
                ).workspaces[j],
            workspace::refreshed(
                (old(self).workspaces[0], old(self).windows@),
                (final(self).workspaces[0], final(self).windows@),
            ),
            r is Err ==> exists|j: int|
                old(self).workspaces[0].orphaned(j, old(self).workspaces[0].slots().len() as int),
    {
        let result = self.workspaces[0].refresh(&mut self.windows);
        let ghost mid = *self;
        let mut i: usize = 0;
        while i < self.outputs.len()
            invariant
                i <= self.outputs.len(),
                self.outputs.len() == old(self).outputs.len(),
                self.workspaces == mid.workspaces,
                self.windows == mid.windows,
                self.pending_windows == mid.pending_windows,
                self.pending_layers == mid.pending_layers,
                forall|o: int|
                    0 <= o < i ==> cleaned(old(self).outputs[o], #[trigger] self.outputs[o]),
                forall|o: int|
                    i <= o < self.outputs.len() ==> self.outputs[o] == old(self).outputs[o],
            decreases self.outputs.len() - i,
        {
            self.outputs[i].layer_map.cleanup();
            i += 1;
        }
        result
    }

    /// Maps a layer surface that was waiting, on its output, and gives it
    /// the keyboard focus of its seat if it is above the windows and asks
    /// for the keyboard. A layer surface whose output is gone is dropped.
    pub fn map_layer(&mut self, surface: SurfaceId, seats: &mut Vec<Seat>)
        requires
            pending_layer_from(old(self).pending_layers@, surface, 0) is Some,
        ensures
            final(self).workspaces == old(self).workspaces,
            final(self).windows == old(self).windows,
            final(self).pending_windows == old(self).pending_windows,
            ({
                let at = pending_layer_from(old(self).pending_layers@, surface, 0)->0;
                let entry = old(self).pending_layers[at];
                &&& final(self).pending_layers@ == old(self).pending_layers@.remove(at)
                &&& final(self).outputs.len() == old(self).outputs.len()
                &&& match output_named(old(self).outputs@, entry.output@) {
                    Some(o) => {
                        &&& forall|j: int|
                            0 <= j < old(self).outputs.len() && j != o ==> final(self).outputs[j]
                                == old(self).outputs[j]
                        &&& final(self).outputs[o].name == old(self).outputs[o].name
                        &&& final(self).outputs[o].location == old(self).outputs[o].location
                        &&& final(self).outputs[o].size == old(self).outputs[o].size
                        &&& final(self).outputs[o].mode_size == old(self).outputs[o].mode_size
                        &&& final(self).outputs[o].layer_map.zone == old(
                            self,
                        ).outputs[o].layer_map.zone
                        &&& final(self).outputs[o].layer_map.layers@ == old(
                            self,
                        ).outputs[o].layer_map.layers@.push(entry.layer)
                    },
                    None => final(self).outputs == old(self).outputs,
                }
                &&& focused(
                    old(seats)@,
                    final(seats)@,
                    if entry.layer.spec_wants_focus() {
                        seat_with_id(old(seats)@, entry.seat)
                    } else {
                        None
                    },
                    Some(surface),
                )
            }),
    {
        let mut pos: usize = 0;
        while self.pending_layers[pos].layer.surface.0 != surface.0
            invariant
                *self == *old(self),
                pos < self.pending_layers.len(),
                pending_layer_from(self.pending_layers@, surface, 0) == pending_layer_from(
                    self.pending_layers@,
                    surface,
                    pos as int,
                ),
                pending_layer_from(self.pending_layers@, surface, 0) is Some,
            decreases self.pending_layers.len() - pos,
        {
            pos += 1;
        }
        let entry = self.pending_layers.remove(pos);
        let wants_focus = entry.layer.wants_focus();
        let seat = entry.seat;
        match find_output(&self.outputs, &entry.output) {
            Some(o) => {
                self.outputs[o].layer_map.map_layer(entry.layer);
            },
            None => {},
        }
        if wants_focus {
            match find_seat(seats, seat) {
                Some(s) => {
                    seats[s].keyboard_focus = Some(surface);
                },
                None => {},
            }
        }
    }

    /// Maps a window that was waiting at the origin of the first workspace,
    /// below the floating windows, and gives it the keyboard focus of the
    /// seat that asked.
    pub fn map_window(&mut self, window: WindowId, seats: &mut Vec<Seat>)
        requires
            old(self).workspaces.len() > 0,
            window.0 < old(self).windows.len(),
            pending_window_from(old(self).pending_windows@, window, 0) is Some,
        ensures
            final(self).outputs == old(self).outputs,
            final(self).windows == old(self).windows,
            final(self).pending_layers == old(self).pending_layers,
            final(self).workspaces.len() == old(self).workspaces.len(),
            forall|j: int|
                1 <= j < old(self).workspaces.len() ==> final(self).workspaces[j] == old(
                    self,
                ).workspaces[j],
            ({
                let at = pending_window_from(old(self).pending_windows@, window, 0)->0;
                let entry = old(self).pending_windows[at];
                let before = old(self).workspaces[0];
                let after = final(self).workspaces[0];
                &&& final(self).pending_windows@ == old(self).pending_windows@.remove(at)
                &&& after.idx == before.idx
                &&& after.fullscreen == before.fullscreen
                &&& after.layer == before.layer
                &&& after.runtime_sender == before.runtime_sender
                &&& after.space.outputs == before.space.outputs
                &&& after.space.windows@ == before.space.with_mapped(
                    window,
                    Point { x: 0, y: 0 },
                    0,
                )
                &&& focused(
                    old(seats)@,
                    final(seats)@,
                    seat_with_id(old(seats)@, entry.seat),
                    Some(old(self).windows[window.0 as int].toplevel),
                )
            }),
    {
        let mut pos: usize = 0;
        while self.pending_windows[pos].window.0 != window.0
            invariant
                *self == *old(self),
                pos < self.pending_windows.len(),
                pending_window_from(self.pending_windows@, window, 0) == pending_window_from(
                    self.pending_windows@,
                    window,
                    pos as int,
                ),
                pending_window_from(self.pending_windows@, window, 0) is Some,
            decreases self.pending_windows.len() - pos,
        {
            pos += 1;
        }
        let entry = self.pending_windows.remove(pos);
        let surface = self.windows[window.0].toplevel;
        self.workspaces[0].space.map_window(window, Point { x: 0, y: 0 }, 0);
        match find_seat(seats, entry.seat) {
            Some(s) => {
                seats[s].keyboard_focus = Some(surface);
            },
            None => {},
        }
    }

    /// A position of the global space, relative to an output.
    pub fn space_relative_output_geometry(&self, global_loc: Point, output: &Output) -> (p: Point)
        ensures
            p == global_loc.minus(output.location),
    {
        global_loc.saturating_sub(output.location)
    }
}

/// The output `post` is `pre` without the layer surfaces that are gone.
pub open spec fn cleaned(pre: Output, post: Output) -> bool {
    &&& post.name == pre.name
    &&& post.location == pre.location
    &&& post.size == pre.size
    &&& post.mode_size == pre.mode_size
    &&& post.layer_map.zone == pre.layer_map.zone
    &&& post.layer_map.layers@ == pre.layer_map.layers@.filter(|l: LayerSurface| l.alive)
}

/// The seats `post` are the seats `pre`, but that the seat at `seat`, if
/// any, has the keyboard focus `surface`.
pub open spec fn focused(pre: Seq<Seat>, post: Seq<Seat>, seat: Option<int>, surface: Option<SurfaceId>) -> bool {
    &&& post.len() == pre.len()
    &&& forall|j: int| 0 <= j < pre.len() && Some(j) != seat ==> post[j] == pre[j]
    &&& seat matches Some(s) ==> 0 <= s < pre.len() ==> post[s] == (Seat {
        keyboard_focus: surface,
        ..pre[s]
    })
}

/// The workspace `post` is `pre` but for the outputs of its space.
pub open spec fn same_but_outputs(pre: Workspace, post: Workspace) -> bool {
    &&& post.idx == pre.idx
    &&& post.fullscreen == pre.fullscreen
    &&& post.layer == pre.layer
    &&& post.runtime_sender == pre.runtime_sender
    &&& post.space.windows == pre.space.windows
}

/// The names mapped into a space after each of the outputs from `from` on
/// was mapped into it: one that is there already stays once.
pub open spec fn with_all_mapped(names: Seq<Seq<char>>, outputs: Seq<Output>, from: int) -> Seq<Seq<char>>
    decreases outputs.len() - from,
{
    if from < 0 || from >= outputs.len() {
        names
    } else {
        with_all_mapped(
            if names.contains(outputs[from].name@) {
                names
            } else {
                names.push(outputs[from].name@)
            },
            outputs,
            from + 1,
        )
    }
}

/// What moving an output from the space of one workspace to that of another
/// does to the workspaces: the name leaves the space of `from`, and enters
/// that of `to` unless it is there.
pub open spec fn remapped(
    pre: Seq<Workspace>,
    post: Seq<Workspace>,
    output: Seq<char>,
    from: Option<int>,
    to: Option<int>,
) -> bool {
    &&& post.len() == pre.len()
    &&& forall|j: int|
        0 <= j < pre.len() ==> same_but_outputs(pre[j], #[trigger] post[j])
            && post[j].space.output_names() == remapped_names(
            pre[j].space.output_names(),
            output,
            from == Some(j),
            to == Some(j),
        )
}

/// The names of a space after an output left it, entered it, or both.
pub open spec fn remapped_names(names: Seq<Seq<char>>, output: Seq<char>, leaves: bool, enters: bool) -> Seq<
    Seq<char>,
> {
    let left = if leaves { names.filter(|n: Seq<char>| n != output) } else { names };
    if enters && !left.contains(output) {
        left.push(output)
    } else {
        left
    }
}

/// Takes an output out of the space of workspace `from`, if given, and maps
/// it into that of workspace `to`, if given.
pub fn remap_output(output: &String, spaces: &mut Vec<Workspace>, from: Option<usize>, to: Option<usize>)
    requires
        from matches Some(i) ==> i < old(spaces).len(),
        to matches Some(i) ==> i < old(spaces).len(),
    ensures
        remapped(
            old(spaces)@,
            final(spaces)@,
            output@,
            match from {
                Some(i) => Some(i as int),
                None => None,
            },
            match to {
                Some(i) => Some(i as int),
                None => None,
            },
        ),
{
    match from {
        Some(i) => {
            spaces[i].space.unmap_output(output);
        },
        None => {},
    }
    match to {
        Some(i) => {
            spaces[i].space.map_output(output);
        },
        None => {},
    }
}

} // verus!
