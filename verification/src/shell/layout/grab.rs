//! Interactive resize: the edges being dragged, the per-window progress and
//! the grab that turns pointer motion into size proposals.

use vstd::prelude::*;

use crate::desktop::window::only_changed;
use crate::desktop::{ToplevelState, Window, WindowId};
use crate::input::PointerGrabStartData;
use crate::utils::{clamp_i32, saturate, Point, Serial, Size};

verus! {

/// The edges a resize drags, as a set of bits that combine.
#[derive(Clone, Copy, Debug, PartialEq, Eq, Structural)]
pub struct ResizeEdge {
    pub bits: u32,
}

pub const EDGE_NONE: u32 = 0;

pub const EDGE_TOP: u32 = 1;

pub const EDGE_BOTTOM: u32 = 2;

pub const EDGE_LEFT: u32 = 4;

pub const EDGE_TOP_LEFT: u32 = 5;

pub const EDGE_BOTTOM_LEFT: u32 = 6;

pub const EDGE_RIGHT: u32 = 8;

pub const EDGE_TOP_RIGHT: u32 = 9;

pub const EDGE_BOTTOM_RIGHT: u32 = 10;

/// Every bit that names an edge.
pub const EDGE_ALL: u32 = 15;

impl ResizeEdge {
    /// Whether the two sets share an edge.
    pub open spec fn spec_intersects(self, other: ResizeEdge) -> bool {
        self.bits & other.bits != 0
    }

    /// Whether every edge of `other` is in this set.
    pub open spec fn spec_contains(self, other: ResizeEdge) -> bool {
        self.bits & other.bits == other.bits
    }

    pub open spec fn has_top(self) -> bool {
        self.bits & EDGE_TOP != 0
    }

    pub open spec fn has_bottom(self) -> bool {
        self.bits & EDGE_BOTTOM != 0
    }

    pub open spec fn has_left(self) -> bool {
        self.bits & EDGE_LEFT != 0
    }

    pub open spec fn has_right(self) -> bool {
        self.bits & EDGE_RIGHT != 0
    }

    /// The set with exactly these bits, if each of them names an edge.
    pub fn from_bits(bits: u32) -> (r: Option<ResizeEdge>)
        ensures
            r == if bits & !EDGE_ALL == 0 {
                Some(ResizeEdge { bits })
            } else {
                None
            },
    {
        if bits & !EDGE_ALL == 0 {
            Some(ResizeEdge { bits })
        } else {
            None
        }
    }

    pub fn bits(&self) -> (b: u32)
        ensures
            b == self.bits,
    {
        self.bits
    }

    pub fn intersects(&self, other: ResizeEdge) -> (b: bool)
        ensures
            b == self.spec_intersects(other),
    {
        self.bits & other.bits != 0
    }

    pub fn contains(&self, other: ResizeEdge) -> (b: bool)
        ensures
            b == self.spec_contains(other),
    {
        self.bits & other.bits == other.bits
    }

    /// The edges of either set.
    pub fn union(&self, other: ResizeEdge) -> (r: ResizeEdge)
        ensures
            r.bits == self.bits | other.bits,
    {
        ResizeEdge { bits: self.bits | other.bits }
    }
}

/// Information about the resize operation.
#[derive(Clone, Copy, Debug, PartialEq, Eq, Structural)]
pub struct ResizeData {
    /// The edges the surface is being resized with.
    pub edges: ResizeEdge,
    /// The initial window location.
    pub initial_window_location: Point,
    /// The initial window size (geometry width and height).
    pub initial_window_size: Size,
}

/// State of the resize operation.
#[derive(Clone, Copy, Debug, PartialEq, Eq, Structural)]
pub enum ResizeState {
    /// The surface is not being resized.
    NotResizing,
    /// The surface is currently being resized.
    Resizing(ResizeData),
    /// The resize has finished, and the surface needs to ack the final configure.
    WaitingForFinalAck(ResizeData, Serial),
    /// The resize has finished, and the surface needs to commit its final
    /// state. Nothing here enters this state yet.
    WaitingForCommit(ResizeData),
}

impl Default for ResizeState {
    fn default() -> (s: ResizeState)
        ensures
            s == ResizeState::NotResizing,
    {
        ResizeState::NotResizing
    }
}

/// The extent one axis gets while it is dragged by `delta`. With `grows` the
/// near edge is dragged, so that the extent grows as the pointer goes back;
/// `active` says whether an edge of this axis is dragged at all. The result
/// is at least the advertised minimum and at least 1, and then at most the
/// advertised maximum, where 0 stands for none.
pub open spec fn resized_extent(
    initial: int,
    delta: int,
    active: bool,
    grows: bool,
    min: int,
    max: int,
) -> int {
    let dragged = if active {
        clamp_i32(initial + (if grows { -delta } else { delta }))
    } else {
        initial
    };
    let floor = if min > 1 { min } else { 1 };
    let ceiling = if max == 0 { i32::MAX as int } else { max };
    let raised = if dragged < floor { floor } else { dragged };
    if raised > ceiling { ceiling } else { raised }
}

/// The size a resize proposes when the pointer is at `location`.
pub open spec fn resized(grab: ResizeSurfaceGrab, window: Window, location: Point) -> Size {
    Size {
        w: resized_extent(
            grab.initial_window_size.w as int,
            location.x - grab.start_data.location.x,
            grab.edges.has_left() || grab.edges.has_right(),
            grab.edges.has_left(),
            window.min_size.w as int,
            window.max_size.w as int,
        ) as i32,
        h: resized_extent(
            grab.initial_window_size.h as int,
            location.y - grab.start_data.location.y,
            grab.edges.has_top() || grab.edges.has_bottom(),
            grab.edges.has_top(),
            window.min_size.h as int,
            window.max_size.h as int,
        ) as i32,
    }
}

fn resize_extent(initial: i32, delta: i64, active: bool, grows: bool, min: i32, max: i32) -> (r: i32)
    requires
        -4294967296 <= delta <= 4294967296,
    ensures
        r == resized_extent(initial as int, delta as int, active, grows, min as int, max as int),
{
    let dragged: i32 = if active {
        saturate(initial as i64 + (if grows { -delta } else { delta }))
    } else {
        initial
    };
    let floor: i32 = if min > 1 { min } else { 1 };
    let ceiling: i32 = if max == 0 { i32::MAX } else { max };
    let raised: i32 = if dragged < floor { floor } else { dragged };
    if raised > ceiling { ceiling } else { raised }
}

/// The grab of an interactive resize.
#[derive(Clone, Copy, Debug, PartialEq, Eq, Structural)]
pub struct ResizeSurfaceGrab {
    pub start_data: PointerGrabStartData,
    pub window: WindowId,
    pub edges: ResizeEdge,
    pub initial_window_size: Size,
    pub last_window_size: Size,
}

/// Whether the grab's window is in the table and alive.
pub open spec fn window_alive(windows: Seq<Window>, window: WindowId) -> bool {
    window.0 < windows.len() && windows[window.0 as int].alive
}

impl ResizeSurfaceGrab {
    /// Starts a resize of a window by `edges`: the grab starts from the
    /// window's size, and the window is marked as being resized.
    pub fn new(
        start_data: PointerGrabStartData,
        window: &mut Window,
        location: Point,
        edges: ResizeEdge,
    ) -> (grab: ResizeSurfaceGrab)
        ensures
            grab == (ResizeSurfaceGrab {
                start_data,
                window: old(window).id,
                edges,
                initial_window_size: old(window).geometry.size,
                last_window_size: old(window).geometry.size,
            }),
            *final(window) == (Window {
                resize_state: ResizeState::Resizing(
                    ResizeData {
                        edges,
                        initial_window_location: location,
                        initial_window_size: old(window).geometry.size,
                    },
                ),
                ..*old(window)
            }),
    {
        let size = window.geometry.size;
        window.resize_state = ResizeState::Resizing(
            ResizeData { edges, initial_window_location: location, initial_window_size: size },
        );
        ResizeSurfaceGrab {
            start_data,
            window: window.id,
            edges,
            initial_window_size: size,
            last_window_size: size,
        }
    }

    /// The state proposed while the resize goes on.
    pub open spec fn motion_state(self, window: Window, location: Point) -> ToplevelState {
        ToplevelState { resizing: true, size: Some(resized(self, window, location)), ..window.pending }
    }

    /// The state proposed when the resize ends.
    pub open spec fn final_state(self, window: Window) -> ToplevelState {
        ToplevelState { resizing: false, size: Some(self.last_window_size), ..window.pending }
    }

    /// The pointer moved to `location`. Returns whether the grab goes on: it
    /// ends at once where the window is gone. Otherwise the new size is
    /// computed from the pointer's way since the start, kept as the last
    /// size, and proposed to the window as a size of a resize in progress.
    pub fn motion(&mut self, windows: &mut Vec<Window>, location: Point) -> (keep: bool)
        ensures
            keep == window_alive(old(windows)@, old(self).window),
            !keep ==> *final(self) == *old(self) && *final(windows) == *old(windows),
            keep ==> {
                let w = old(windows)[old(self).window.0 as int];
                &&& *final(self) == (ResizeSurfaceGrab {
                    last_window_size: resized(*old(self), w, location),
                    ..*old(self)
                })
                &&& only_changed(old(windows)@, final(windows)@, old(self).window.0 as int)
                &&& final(windows)[old(self).window.0 as int].is_proposal_of(
                    w,
                    old(self).motion_state(w, location),
                )
            },
    {
        let i = self.window.0;
        if i >= windows.len() || !windows[i].alive {
            return false;
        }
        let dx: i64 = location.x as i64 - self.start_data.location.x as i64;
        let dy: i64 = location.y as i64 - self.start_data.location.y as i64;
        let left = self.edges.bits & EDGE_LEFT != 0;
        let right = self.edges.bits & EDGE_RIGHT != 0;
        let top = self.edges.bits & EDGE_TOP != 0;
        let bottom = self.edges.bits & EDGE_BOTTOM != 0;
        let size = Size {
            w: resize_extent(
                self.initial_window_size.w,
                dx,
                left || right,
                left,
                windows[i].min_size.w,
                windows[i].max_size.w,
            ),
            h: resize_extent(
                self.initial_window_size.h,
                dy,
                top || bottom,
                top,
                windows[i].min_size.h,
                windows[i].max_size.h,
            ),
        };
        self.last_window_size = size;
        let mut state = windows[i].pending;
        state.resizing = true;
        state.size = Some(size);
        windows[i].propose(state);
        true
    }

    /// A button changed, and `pressed` says whether any is still down.
    /// Returns whether the grab goes on: it ends when no button is down. A
    /// window that is alive then gets the last size as a final proposal, and
    /// waits for the client to acknowledge it under `serial`.
    pub fn button(&mut self, windows: &mut Vec<Window>, pressed: bool, serial: Serial) -> (keep: bool)
        requires
            !pressed && window_alive(old(windows)@, old(self).window) ==> old(windows)[old(
                self,
            ).window.0 as int].resize_state is Resizing,
        ensures
            keep == pressed,
            *final(self) == *old(self),
            pressed || !window_alive(old(windows)@, old(self).window) ==> *final(windows) == *old(
                windows,
            ),
            !pressed && window_alive(old(windows)@, old(self).window) ==> {
                let w = old(windows)[old(self).window.0 as int];
                &&& only_changed(old(windows)@, final(windows)@, old(self).window.0 as int)
                &&& final(windows)[old(self).window.0 as int].is_finished_resize_of(
                    w,
                    old(self).final_state(w),
                    serial,
                )
            },
    {
        if pressed {
            return true;
        }
        let i = self.window.0;
        if i >= windows.len() || !windows[i].alive {
            return false;
        }
        let mut state = windows[i].pending;
        state.resizing = false;
        state.size = Some(self.last_window_size);
        windows[i].propose(state);
        match windows[i].resize_state {
            ResizeState::Resizing(data) => {
                windows[i].resize_state = ResizeState::WaitingForFinalAck(data, serial);
            },
            _ => {
                assert(false);
            },
        }
        false
    }

    pub fn start_data(&self) -> (d: &PointerGrabStartData)
        ensures
            *d == self.start_data,
    {
        &self.start_data
    }
}

/// A resize never proposes less than the advertised minimum or 1, nor more
/// than the advertised maximum, where the two can both be met.
pub proof fn lemma_resized_within_bounds(
    initial: int,
    delta: int,
    active: bool,
    grows: bool,
    min: int,
    max: int,
)
    requires
        min <= i32::MAX,
    ensures
        max != 0 ==> resized_extent(initial, delta, active, grows, min, max) <= max,
        max == 0 || (min <= max && 1 <= max) ==> resized_extent(
            initial,
            delta,
            active,
            grows,
            min,
            max,
        ) >= min && resized_extent(initial, delta, active, grows, min, max) >= 1,
{
}

} // verus!
