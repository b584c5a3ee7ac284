//! Interactive move: the state a seat keeps while a window is dragged, and
//! the grab that owns the pointer meanwhile.

use vstd::prelude::*;

use crate::desktop::window::only_changed;
use crate::desktop::{Output, Window, WindowId};
use crate::input::{PointerGrab, PointerGrabStartData, Seat, SeatId};
use crate::shell::layout::grab::window_alive;
use crate::shell::layout::{mapped, mapped_output_from, queued, spec_output_from_seat, unmapped, unmaximized};
use crate::shell::workspace::holds_window;
use crate::shell::Shell;
use crate::utils::{clamp_i32, saturate, Point, Serial, Size};

verus! {

/// What a seat remembers of the window it drags.
#[derive(Clone, Copy, Debug, PartialEq, Eq, Structural)]
pub struct MoveGrabState {
    pub window: WindowId,
    pub initial_cursor_location: Point,
    pub initial_window_location: Point,
}

/// A seat has at most one window in a move.
pub type SeatMoveGrabState = Option<MoveGrabState>;

/// The grab of an interactive move.
#[derive(Clone, Copy, Debug, PartialEq, Eq, Structural)]
pub struct MoveSurfaceGrab {
    pub window: WindowId,
    pub start_data: PointerGrabStartData,
    pub seat: SeatId,
}

/// `n / d` rounded to the nearest integer, a half away from zero.
pub open spec fn round_div(n: int, d: int) -> int
    recommends
        d > 0,
{
    if n >= 0 {
        (2 * n + d) / (2 * d)
    } else {
        -((-2 * n + d) / (2 * d))
    }
}

/// Where a window of width `width` goes on the x axis when it leaves the
/// maximized state under a pointer at `pointer` on an output of width
/// `output`: the pointer keeps its share of the window's width to its left.
/// This is `pointer - width * pointer / output`, rounded once.
pub open spec fn proportional(pointer: int, width: int, output: int) -> int
    recommends
        output > 0,
{
    clamp_i32(round_div(pointer * (output - width), output))
}

/// Where the window of a move starts from when it was maximized: under the
/// pointer, in proportion, if a size was proposed to it; else at the pointer.
pub open spec fn unmaximized_origin(pointer: Point, proposed: Option<Size>, output: int) -> Point {
    match proposed {
        Some(size) => Point {
            x: proportional(pointer.x as int, size.w as int, output) as i32,
            y: pointer.y,
        },
        None => pointer,
    }
}

/// Where a dragged window ends up: where it started, moved by the pointer's
/// way since the start, saturating.
pub open spec fn moved(state: MoveGrabState, pointer: Point) -> Point {
    Point {
        x: clamp_i32(
            state.initial_window_location.x + (pointer.x - state.initial_cursor_location.x),
        ) as i32,
        y: clamp_i32(
            state.initial_window_location.y + (pointer.y - state.initial_cursor_location.y),
        ) as i32,
    }
}

fn proportional_x(pointer: i32, width: i32, output: i32) -> (r: i32)
    requires
        output > 0,
    ensures
        r == proportional(pointer as int, width as int, output as int),
{
    let diff: i128 = output as i128 - width as i128;
    assert(-9223372036854775808 * 2 <= pointer as int * diff as int <= 9223372036854775808 * 2)
        by (nonlinear_arith)
        requires
            -4294967296 <= diff <= 4294967296,
            -2147483648 <= pointer <= 2147483647,
    ;
    let n: i128 = pointer as i128 * diff;
    let d: i128 = output as i128;
    let q: i128 = if n >= 0 {
        (2 * n + d) / (2 * d)
    } else {
        -((-2 * n + d) / (2 * d))
    };
    assert(-9223372036854775808 * 4 <= q <= 9223372036854775808 * 4) by (nonlinear_arith)
        requires
            d > 0,
            -9223372036854775808 * 2 <= n <= 9223372036854775808 * 2,
            d <= 2147483647,
            q == (if n >= 0 {
                (2 * n + d) / (2 * d)
            } else {
                -((-2 * n + d) / (2 * d))
            }),
    ;
    if q < -2147483648 {
        i32::MIN
    } else if q > 2147483647 {
        i32::MAX
    } else {
        q as i32
    }
}

fn moved_to(state: &MoveGrabState, pointer: Point) -> (r: Point)
    ensures
        r == moved(*state, pointer),
{
    Point {
        x: saturate(
            state.initial_window_location.x as i64 + (pointer.x as i64
                - state.initial_cursor_location.x as i64),
        ),
        y: saturate(
            state.initial_window_location.y as i64 + (pointer.y as i64
                - state.initial_cursor_location.y as i64),
        ),
    }
}

impl MoveSurfaceGrab {
    pub fn new(start_data: PointerGrabStartData, window: WindowId, seat: &Seat) -> (grab:
        MoveSurfaceGrab)
        ensures
            grab == (MoveSurfaceGrab { window, start_data, seat: seat.id }),
    {
        MoveSurfaceGrab { window, start_data, seat: seat.id }
    }

    /// The pointer moved. Returns whether the grab goes on: it ends when the
    /// window is gone.
    pub fn motion(&self, windows: &Vec<Window>) -> (keep: bool)
        ensures
            keep == window_alive(windows@, self.window),
    {
        self.window.0 < windows.len() && windows[self.window.0].alive
    }

    /// A button changed, and `pressed` says whether any is still down.
    /// Returns whether the grab goes on: it ends when no button is down.
    pub fn button(&self, pressed: bool) -> (keep: bool)
        ensures
            keep == pressed,
    {
        pressed
    }

    pub fn start_data(&self) -> (d: &PointerGrabStartData)
        ensures
            *d == self.start_data,
    {
        &self.start_data
    }
}

/// A window that is moved ends up displaced by exactly the pointer's way,
/// wherever the result is a coordinate.
pub proof fn lemma_moved_by_delta(state: MoveGrabState, pointer: Point)
    requires
        i32::MIN <= state.initial_window_location.x + (pointer.x - state.initial_cursor_location.x)
            <= i32::MAX,
        i32::MIN <= state.initial_window_location.y + (pointer.y - state.initial_cursor_location.y)
            <= i32::MAX,
    ensures
        moved(state, pointer).x - state.initial_window_location.x == pointer.x
            - state.initial_cursor_location.x,
        moved(state, pointer).y - state.initial_window_location.y == pointer.y
            - state.initial_cursor_location.y,
{
}

/// The start of a move, by way of the space and the window as they are
/// between its two steps: a maximized window first leaves the maximized
/// state, then the window is unmapped.
pub open spec fn move_prepared_via(
    pre: (crate::shell::workspace::Workspace, Window),
    mid: (crate::desktop::Space, Window),
    post: (crate::shell::workspace::Workspace, Window),
) -> bool {
    &&& if pre.1.current.maximized {
        unmaximized((pre.0.space, pre.1), mid)
    } else {
        mid == (pre.0.space, pre.1)
    }
    &&& unmapped((pre.0.layer, mid.0, mid.1), (post.0.layer, post.0.space, post.1))
}

/// What the start of a move does to the workspace that maps the window and
/// to the window.
pub open spec fn move_prepared(
    pre: (crate::shell::workspace::Workspace, Window),
    post: (crate::shell::workspace::Workspace, Window),
) -> bool {
    &&& post.0.idx == pre.0.idx
    &&& post.0.fullscreen == pre.0.fullscreen
    &&& post.0.runtime_sender == pre.0.runtime_sender
    &&& exists|mid: (crate::desktop::Space, Window)| move_prepared_via(pre, mid, post)
}

/// Where the window of a move starts from: where it is mapped; a maximized
/// window, under the pointer in proportion to the size it returns to.
pub open spec fn move_origin(
    workspace: crate::shell::workspace::Workspace,
    window: Window,
    pointer: Point,
    output: Output,
) -> Point {
    if window.current.maximized {
        unmaximized_origin(
            pointer,
            crate::shell::layout::spec_unmaximized(window).size,
            output.size.w as int,
        )
    } else {
        workspace.space.spec_window_location(window.id)->0
    }
}

impl Shell {
    /// Whether a move of the window can start: the window is known, some
    /// workspace maps a window with its root surface, and, unless the window
    /// is fullscreen there, that workspace maps the window itself and an
    /// output of its space is under the pointer.
    pub open spec fn can_move(self, window: WindowId, seat: Seat) -> bool {
        &&& window.0 < self.windows.len()
        &&& self.windows[window.0 as int].id == window
        &&& crate::shell::workspace_of_from(
            self.workspaces@,
            self.windows@,
            self.windows[window.0 as int].toplevel,
            0,
        ) matches Some(ws)
        &&& !holds_window(self.workspaces[ws].slots(), window) ==> {
            &&& self.workspaces[ws].space.spec_window_location(window) is Some
            &&& mapped_output_from(
                self.workspaces[ws].space,
                self.outputs@,
                Some(seat.pointer.location),
                0,
            ) is Some
            &&& self.workspaces[ws].layer.wf()
        }
    }

    /// Tests whether a move of the window can start.
    pub fn check_move(&self, window: WindowId, seat: &Seat) -> (b: bool)
        ensures
            b == self.can_move(window, *seat),
    {
        if window.0 >= self.windows.len() || self.windows[window.0].id.0 != window.0 {
            return false;
        }
        match self.space_for_window_mut(self.windows[window.0].toplevel) {
            Some(ws) => {
                if self.workspaces[ws].is_fullscreen(window) {
                    return true;
                }
                if self.workspaces[ws].space.window_location(window).is_none() {
                    return false;
                }
                if crate::shell::layout::find_mapped_output(
                    &self.workspaces[ws].space,
                    &self.outputs,
                    Some(seat.pointer.location),
                ).is_none() {
                    return false;
                }
                self.workspaces[ws].layer_in_order()
            },
            None => false,
        }
    }

    /// Starts an interactive move of a window for a seat. A fullscreen
    /// window is not moved. Otherwise a maximized window leaves the maximized
    /// state, the window is unmapped, the seat remembers where the pointer and
    /// the window were, and a move grab takes the seat's pointer, which loses
    /// its focus.
    pub fn move_request(
        &mut self,
        window: WindowId,
        seat: &mut Seat,
        serial: Serial,
        start_data: PointerGrabStartData,
    )
        requires
            old(self).can_move(window, *old(seat)),
        ensures
            final(self).outputs == old(self).outputs,
            final(self).pending_windows == old(self).pending_windows,
            final(self).pending_layers == old(self).pending_layers,
            final(self).workspaces.len() == old(self).workspaces.len(),
            ({
                let ws = crate::shell::workspace_of_from(
                    old(self).workspaces@,
                    old(self).windows@,
                    old(self).windows[window.0 as int].toplevel,
                    0,
                )->0;
                let before = old(self).workspaces[ws];
                if holds_window(before.slots(), window) {
                    &&& *final(self) == *old(self)
                    &&& *final(seat) == *old(seat)
                } else {
                    let output = old(self).outputs[mapped_output_from(
                        before.space,
                        old(self).outputs@,
                        Some(old(seat).pointer.location),
                        0,
                    )->0];
                    &&& forall|j: int|
                        0 <= j < old(self).workspaces.len() && j != ws ==> final(self).workspaces[j] == old(self).workspaces[j]
                    &&& only_changed(old(self).windows@, final(self).windows@, window.0 as int)
                    &&& move_prepared(
                        (before, old(self).windows[window.0 as int]),
                        (final(self).workspaces[ws], final(self).windows[window.0 as int]),
                    )
                    &&& *final(seat) == (Seat {
                        move_grab_state: Some(
                            MoveGrabState {
                                window,
                                initial_cursor_location: old(seat).pointer.location,
                                initial_window_location: move_origin(
                                    before,
                                    old(self).windows[window.0 as int],
                                    old(seat).pointer.location,
                                    output,
                                ),
                            },
                        ),
                        pointer: crate::input::PointerState {
                            grab: Some(
                                PointerGrab::Move(
                                    MoveSurfaceGrab { window, start_data, seat: old(seat).id },
                                ),
                            ),
                            focus: None,
                            ..old(seat).pointer
                        },
                        ..*old(seat)
                    })
                }
            }),
    {
        let surface = self.windows[window.0].toplevel;
        let ws = self.space_for_window_mut(surface).unwrap();
        if self.workspaces[ws].is_fullscreen(window) {
            return ;
        }
        let pos = seat.pointer.location;
        let o = crate::shell::layout::find_mapped_output(
            &self.workspaces[ws].space,
            &self.outputs,
            Some(pos),
        ).unwrap();
        let mut initial_window_location = self.workspaces[ws].space.window_location(window).unwrap();
        let workspace = &mut self.workspaces[ws];
        let target = &mut self.windows[window.0];
        if target.current.maximized {
            workspace.layer.unmaximize_request(&mut workspace.space, target);
            let width = self.outputs[o].size.w;
            initial_window_location = match target.pending.size {
                Some(size) => Point { x: proportional_x(pos.x, size.w, width), y: pos.y },
                None => pos,
            };
        }
        let ghost mid = (workspace.space, *target);
        workspace.layer.unmap_window(&mut workspace.space, target);
        proof {
            let before = (old(self).workspaces[ws as int], old(self).windows[window.0 as int]);
            assert(move_prepared_via(before, mid, (*workspace, *target)));
        }
        let state = MoveGrabState {
            window,
            initial_cursor_location: seat.pointer.location,
            initial_window_location,
        };
        let grab = MoveSurfaceGrab::new(start_data, window, seat);
        seat.move_grab_state = Some(state);
        seat.pointer.grab = Some(PointerGrab::Move(grab));
        seat.pointer.focus = None;
    }

    /// What ending a move does: the seat forgets the move, and a window
    /// that is alive is mapped where the pointer's way took it, on the output
    /// found for the seat, and gets the seat's keyboard focus.
    pub open spec fn move_dropped(pre: (Shell, Seat), post: (Shell, Seat)) -> bool {
        &&& post.0.outputs == pre.0.outputs
        &&& post.0.pending_windows == pre.0.pending_windows
        &&& post.0.pending_layers == pre.0.pending_layers
        &&& post.0.workspaces.len() == pre.0.workspaces.len()
        &&& post.0.wf()
        &&& match pre.1.move_grab_state {
            Some(state) => if window_alive(pre.0.windows@, state.window) {
                let before = pre.0.workspaces[0];
                let after = post.0.workspaces[0];
                let w = state.window.0 as int;
                &&& forall|j: int|
                    1 <= j < pre.0.workspaces.len() ==> post.0.workspaces[j] == pre.0.workspaces[j]
                &&& only_changed(pre.0.windows@, post.0.windows@, w)
                &&& after.idx == before.idx
                &&& after.fullscreen == before.fullscreen
                &&& after.runtime_sender == before.runtime_sender
                &&& match spec_output_from_seat(Some(pre.1), before.space, pre.0.outputs@) {
                    Some(o) => mapped(
                        (before.layer, before.space, pre.0.windows[w]),
                        (after.layer, after.space, post.0.windows[w]),
                        pre.0.outputs[o].layer_map.zone,
                        Some(moved(state, pre.1.pointer.location)),
                    ),
                    None => queued(
                        (before.layer, before.space, pre.0.windows[w]),
                        (after.layer, after.space, post.0.windows[w]),
                    ),
                }
                &&& post.1 == (Seat {
                    move_grab_state: None,
                    keyboard_focus: Some(pre.0.windows[w].toplevel),
                    ..pre.1
                })
            } else {
                &&& post.0 == pre.0
                &&& post.1 == (Seat { move_grab_state: None, ..pre.1 })
            },
            None => post == pre,
        }
    }

    /// Ends the move of a seat, if it has one.
    pub fn drop_move(&mut self, seat: &mut Seat)
        requires
            old(self).wf(),
        ensures
            Self::move_dropped((*old(self), *old(seat)), (*final(self), *final(seat))),
    {
        let taken = seat.move_grab_state;
        seat.move_grab_state = None;
        match taken {
            Some(state) => {
                let w = state.window.0;
                if w < self.windows.len() && self.windows[w].alive {
                    let location = moved_to(&state, seat.pointer.location);
                    let surface = self.windows[w].toplevel;
                    let workspace = &mut self.workspaces[0];
                    workspace.layer.map_window(
                        &mut workspace.space,
                        &mut self.windows[w],
                        seat,
                        &self.outputs,
                        Some(location),
                    );
                    seat.keyboard_focus = Some(surface);
                }
            },
            None => {},
        }
    }
}

} // verus!
