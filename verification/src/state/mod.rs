//! The compositor's state as a whole.

use vstd::prelude::*;

use crate::input::{add_seat, PointerGrab, Seat, SeatId};
use crate::runtime::messages::RuntimeMessage;
use crate::shell::layout::grab::window_alive;
use crate::shell::Shell;

pub mod data_device;
pub mod layer_shell;
pub mod output;
pub mod seat;

verus! {

/// What the backend keeps: `W` is the state of a nested, windowed backend.
pub enum BackendData<W> {
    Winit(W),
    Unset,
}

impl<W> BackendData<W> {
    /// The state of the windowed backend, which must be the one in use.
    pub fn winit(&mut self) -> (state: &mut W)
        requires
            *old(self) is Winit,
        ensures
            *state == (*old(self))->Winit_0,
            *final(self) == BackendData::Winit(*final(state)),
    {
        match self {
            BackendData::Winit(winit_state) => winit_state,
            _ => unreached(),
        }
    }
}

/// What is kept for each client.
pub struct ClientState {}

/// Work put off to the next turn of the event loop.
#[derive(Clone, Copy, Debug, PartialEq, Eq, Structural)]
pub enum IdleTask {
    /// End the move of the seat.
    DropMove { seat: SeatId },
}

pub struct State<W> {
    pub backend: BackendData<W>,
    pub common: CommonState,
}

pub struct CommonState {
    pub shell: Shell,
    pub seats: Vec<Seat>,
    /// The seat that new devices join, by its index.
    pub last_active_seat: usize,
    pub should_stop: bool,
    /// The work put off, oldest first.
    pub idle: Vec<IdleTask>,
}

/// Whether the seat's resize grab, if it has one on a live window, is
/// matched by that window's own progress of the resize.
pub open spec fn resize_in_step(seat: Seat, windows: Seq<crate::desktop::Window>) -> bool {
    seat.pointer.grab matches Some(PointerGrab::Resize(grab)) ==> window_alive(windows, grab.window)
        ==> windows[grab.window.0 as int].resize_state is Resizing
}

/// The window that the seat's pointer resizes, if it resizes one.
pub open spec fn resized_window(seat: Seat) -> Option<crate::desktop::WindowId> {
    match seat.pointer.grab {
        Some(PointerGrab::Resize(grab)) => Some(grab.window),
        _ => None,
    }
}

impl CommonState {
    /// The shell and every seat are in order, the active seat exists, every
    /// resize grab is in step with its window, and no window is resized by
    /// two seats.
    pub open spec fn wf(self) -> bool {
        &&& self.shell.wf()
        &&& self.last_active_seat < self.seats.len()
        &&& forall|i: int| 0 <= i < self.seats.len() ==> (#[trigger] self.seats[i]).wf()
        &&& forall|i: int|
            0 <= i < self.seats.len() ==> resize_in_step(#[trigger] self.seats[i], self.shell.windows@)
        &&& forall|i: int, j: int|
            0 <= i < j < self.seats.len() && resized_window(#[trigger] self.seats[i]) is Some
                ==> resized_window(self.seats[i]) != resized_window(#[trigger] self.seats[j])
    }
}

impl CommonState {
    /// Tests whether the state is in order.
    pub fn in_order(&self) -> (b: bool)
        ensures
            b == self.wf(),
    {
        if !self.shell.in_order() || self.last_active_seat >= self.seats.len() {
            return false;
        }
        let mut i: usize = 0;
        while i < self.seats.len()
            invariant
                i <= self.seats.len(),
                forall|a: int| 0 <= a < i ==> (#[trigger] self.seats[a]).wf(),
                forall|a: int|
                    0 <= a < i ==> resize_in_step(#[trigger] self.seats[a], self.shell.windows@),
                forall|a: int, b: int|
                    0 <= a < b < i && resized_window(#[trigger] self.seats[a]) is Some
                        ==> resized_window(self.seats[a]) != resized_window(
                        #[trigger] self.seats[b],
                    ),
            decreases self.seats.len() - i,
        {
            if !self.seats[i].devices.in_order() {
                return false;
            }
            match self.seats[i].pointer.grab {
                Some(PointerGrab::Resize(grab)) => {
                    let w = grab.window.0;
                    if w < self.shell.windows.len() && self.shell.windows[w].alive {
                        match self.shell.windows[w].resize_state {
                            crate::shell::layout::grab::ResizeState::Resizing(_) => {},
                            _ => {
                                return false;
                            },
                        }
                    }
                    let mut j: usize = 0;
                    while j < i
                        invariant
                            j <= i < self.seats.len(),
                            resized_window(self.seats[i as int]) == Some(grab.window),
                            forall|a: int|
                                0 <= a < j ==> resized_window(#[trigger] self.seats[a]) != Some(
                                    grab.window,
                                ),
                        decreases i - j,
                    {
                        match self.seats[j].pointer.grab {
                            Some(PointerGrab::Resize(other)) => {
                                if other.window.0 == grab.window.0 {
                                    return false;
                                }
                            },
                            _ => {},
                        }
                        j += 1;
                    }
                },
                _ => {},
            }
            i += 1;
        }
        true
    }
}

impl<W> State<W> {
    /// The state at startup: one seat, one empty workspace that reports to
    /// `runtime_sender`, no output yet and no backend.
    pub fn new(runtime_sender: calloop::channel::Sender<RuntimeMessage>) -> (state: State<W>)
        ensures
            state.backend is Unset,
            state.common.wf(),
            state.common.seats.len() == 1,
            state.common.seats[0].id == SeatId(0),
            state.common.seats[0].name@ == "seat-0"@,
            crate::input::fresh(state.common.seats[0]),
            state.common.last_active_seat == 0,
            !state.common.should_stop,
            state.common.idle@ == Seq::<IdleTask>::empty(),
            state.common.shell.workspaces.len() == 1,
            state.common.shell.workspaces[0].runtime_sender == runtime_sender,
            state.common.shell.outputs@ == Seq::<crate::desktop::Output>::empty(),
            state.common.shell.windows@ == Seq::<crate::desktop::Window>::empty(),
    {
        let initial_seat = add_seat(SeatId(0), "seat-0".to_string());
        let mut seats: Vec<Seat> = Vec::new();
        seats.push(initial_seat);
        State {
            backend: BackendData::Unset,
            common: CommonState {
                shell: Shell::new(runtime_sender),
                seats,
                last_active_seat: 0,
                should_stop: false,
                idle: Vec::new(),
            },
        }
    }

    pub fn new_client_state(&self) -> (c: ClientState) {
        ClientState {  }
    }
}

} // verus!
