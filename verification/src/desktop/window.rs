//! Top-level windows and their negotiated state.

use vstd::prelude::*;

use crate::desktop::{region_under, spec_region_under, SurfaceHit, SurfaceId, SurfaceRegion};
use crate::shell::layout::grab::ResizeState;
use crate::shell::layout::WindowUserDataInner;
use crate::utils::{Point, Rectangle, Size};

verus! {

/// Identity of a window: its slot in the shell's window table.
#[derive(Clone, Copy, Debug, PartialEq, Eq, Structural)]
pub struct WindowId(pub usize);

/// The size and state flags a compositor proposes to a top-level window.
#[derive(Clone, Copy, Debug, PartialEq, Eq, Structural)]
pub struct ToplevelState {
    pub size: Option<Size>,
    pub maximized: bool,
    pub fullscreen: bool,
    pub resizing: bool,
    pub tiled_left: bool,
    pub tiled_right: bool,
    pub tiled_top: bool,
    pub tiled_bottom: bool,
}

impl ToplevelState {
    pub open spec fn spec_empty() -> ToplevelState {
        ToplevelState {
            size: None,
            maximized: false,
            fullscreen: false,
            resizing: false,
            tiled_left: false,
            tiled_right: false,
            tiled_top: false,
            tiled_bottom: false,
        }
    }

    /// No size, no flag.
    pub fn empty() -> (s: ToplevelState)
        ensures
            s == Self::spec_empty(),
    {
        ToplevelState {
            size: None,
            maximized: false,
            fullscreen: false,
            resizing: false,
            tiled_left: false,
            tiled_right: false,
            tiled_top: false,
            tiled_bottom: false,
        }
    }

    /// The same state without any tiled-edge flag.
    pub open spec fn untiled(self) -> ToplevelState {
        ToplevelState {
            tiled_left: false,
            tiled_right: false,
            tiled_top: false,
            tiled_bottom: false,
            ..self
        }
    }
}

/// A top-level client window.
pub struct Window {
    pub id: WindowId,
    /// Cleared when the owning client is gone.
    pub alive: bool,
    /// The root surface, which takes keyboard focus for the window.
    pub toplevel: SurfaceId,
    /// The surface tree, topmost first, relative to the window's origin.
    pub surfaces: Vec<SurfaceRegion>,
    /// Offset and size of the window's content inside its root surface.
    pub geometry: Rectangle,
    /// Smallest size the client advertises; 0 on an axis means none.
    pub min_size: Size,
    /// Largest size the client advertises; 0 on an axis means none.
    pub max_size: Size,
    /// The state the client last acknowledged.
    pub current: ToplevelState,
    /// The state the next proposal will carry.
    pub pending: ToplevelState,
    /// The proposals made so far and not yet taken by the protocol layer.
    pub configures: Vec<ToplevelState>,
    /// Geometry remembered across unmap.
    pub user_data: Option<WindowUserDataInner>,
    /// Progress of an interactive resize.
    pub resize_state: ResizeState,
}

impl Window {
    /// Whether this is a window as it is made: alive, unconfigured, not
    /// being resized, with no size limits, nothing remembered, and one root
    /// surface that covers `geometry`.
    pub open spec fn is_new(self, id: WindowId, toplevel: SurfaceId, geometry: Rectangle) -> bool {
        &&& self.id == id
        &&& self.alive
        &&& self.toplevel == toplevel
        &&& self.surfaces@ == seq![SurfaceRegion { surface: toplevel, area: geometry }]
        &&& self.geometry == geometry
        &&& self.min_size == (Size { w: 0, h: 0 })
        &&& self.max_size == (Size { w: 0, h: 0 })
        &&& self.current == ToplevelState::spec_empty()
        &&& self.pending == ToplevelState::spec_empty()
        &&& self.configures@ == Seq::<ToplevelState>::empty()
        &&& self.user_data is None
        &&& self.resize_state == ResizeState::NotResizing
    }

    /// A live, unconfigured window with one root surface covering `geometry`.
    pub fn new(id: WindowId, toplevel: SurfaceId, geometry: Rectangle) -> (w: Window)
        ensures
            w.is_new(id, toplevel, geometry),
    {
        let mut surfaces: Vec<SurfaceRegion> = Vec::new();
        surfaces.push(SurfaceRegion { surface: toplevel, area: geometry });
        Window {
            id,
            alive: true,
            toplevel,
            surfaces,
            geometry,
            min_size: Size { w: 0, h: 0 },
            max_size: Size { w: 0, h: 0 },
            current: ToplevelState::empty(),
            pending: ToplevelState::empty(),
            configures: Vec::new(),
            user_data: None,
            resize_state: ResizeState::NotResizing,
        }
    }

    pub fn alive(&self) -> (b: bool)
        ensures
            b == self.alive,
    {
        self.alive
    }

    /// This window's fields other than what a proposal touches.
    pub open spec fn same_but_proposal(self, other: Window) -> bool {
        &&& self.id == other.id
        &&& self.alive == other.alive
        &&& self.toplevel == other.toplevel
        &&& self.surfaces == other.surfaces
        &&& self.geometry == other.geometry
        &&& self.min_size == other.min_size
        &&& self.max_size == other.max_size
        &&& self.current == other.current
        &&& self.user_data == other.user_data
        &&& self.resize_state == other.resize_state
    }

    /// The window after `pending` became its pending state and was proposed.
    pub open spec fn is_proposal_of(self, old: Window, pending: ToplevelState) -> bool {
        &&& self.same_but_proposal(old)
        &&& self.pending == pending
        &&& self.configures@ == old.configures@.push(pending)
    }

    /// The window after a resize ended with the proposal `pending`: it waits
    /// for the client to acknowledge it under `serial`.
    pub open spec fn is_finished_resize_of(
        self,
        old: Window,
        pending: ToplevelState,
        serial: crate::utils::Serial,
    ) -> bool {
        &&& old.resize_state matches ResizeState::Resizing(data)
        &&& self.resize_state == ResizeState::WaitingForFinalAck(data, serial)
        &&& self.is_proposal_of(Window { resize_state: self.resize_state, ..old }, pending)
    }

    /// Sets the pending state and records it as a proposal to the client.
    pub fn propose(&mut self, pending: ToplevelState)
        ensures
            final(self).is_proposal_of(*old(self), pending),
    {
        self.pending = pending;
        self.configures.push(pending);
    }

    /// The surface of this window under `p`, given relative to the window's
    /// origin.
    pub fn surface_under(&self, p: Point) -> (hit: Option<SurfaceHit>)
        ensures
            hit == spec_region_under(self.surfaces@, p),
    {
        region_under(&self.surfaces, p)
    }
}

/// The table `post` is `pre` but for the window in slot `i`.
pub open spec fn only_changed(pre: Seq<Window>, post: Seq<Window>, i: int) -> bool {
    &&& post.len() == pre.len()
    &&& 0 <= i < pre.len()
    &&& forall|j: int| 0 <= j < pre.len() && j != i ==> post[j] == pre[j]
}

} // verus!
