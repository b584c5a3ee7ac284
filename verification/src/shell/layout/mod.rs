//! Floating layout: where a window goes when it is mapped, and what is
//! remembered of it when it leaves.

use vstd::prelude::*;

use crate::desktop::output::find_output;
use crate::desktop::{Output, Space, ToplevelState, Window, WindowId};
use crate::input::Seat;
use crate::seqs::{lemma_filter_end, lemma_filter_members, lemma_filter_start, lemma_filter_step};
use crate::utils::{clamp_i32, saturate, Point, Rectangle, Size};

pub mod grab;

verus! {

/// The stacking band of floating windows, just above the shell's own band.
pub const FLOATING_INDEX: u8 = 31;

/// What is remembered of a window across unmap.
#[derive(Clone, Copy, Debug, PartialEq, Eq, Structural)]
pub struct WindowUserDataInner {
    pub last_geometry: Rectangle,
}

/// The floating layout of one workspace.
pub struct Layout {
    /// Windows that asked to be mapped before any output was there.
    pub pending_windows: Vec<WindowId>,
    /// The windows the layout has placed; none occurs twice.
    pub windows: Vec<WindowId>,
}

/// Two thirds of an extent, as integer division by three, towards zero, and
/// then doubling gives it.
pub open spec fn two_thirds(extent: int) -> int {
    if extent >= 0 {
        extent / 3 * 2
    } else {
        -((-extent) / 3) * 2
    }
}

/// Half of an extent, rounded towards zero.
pub open spec fn half(extent: int) -> int {
    if extent >= 0 {
        extent / 2
    } else {
        -((-extent) / 2)
    }
}

/// The extent a window gets on one axis. A baseline of at most two thirds of
/// the free extent stays. A larger one becomes two thirds of the free extent,
/// lowered to the advertised maximum, raised to the advertised minimum, and
/// never more than the free extent; 0 stands for no minimum or maximum.
pub open spec fn placed_extent(baseline: int, free: int, min: int, max: int) -> int {
    if baseline > two_thirds(free) {
        let capped = if max != 0 && max < two_thirds(free) { max } else { two_thirds(free) };
        let raised = if min != 0 && min > capped { min } else { capped };
        if raised > free { free } else { raised }
    } else {
        baseline
    }
}

/// Where a window of extent `extent`, whose content starts at `inset`, is
/// centred on one axis of the free area.
pub open spec fn centered(origin: int, free: int, extent: int, inset: int) -> int {
    clamp_i32(origin + half(free) - half(extent) + inset)
}

/// The size a window starts from: the remembered one, else its own.
pub open spec fn baseline_size(window: Window) -> Size {
    match window.user_data {
        Some(data) => data.last_geometry.size,
        None => window.geometry.size,
    }
}

/// The size a window is placed with in the free area `zone`.
pub open spec fn placed_size(window: Window, zone: Rectangle) -> Size {
    Size {
        w: placed_extent(
            baseline_size(window).w as int,
            zone.size.w as int,
            window.min_size.w as int,
            window.max_size.w as int,
        ) as i32,
        h: placed_extent(
            baseline_size(window).h as int,
            zone.size.h as int,
            window.min_size.h as int,
            window.max_size.h as int,
        ) as i32,
    }
}

/// Where a window is placed: where it was asked to be, else where it was
/// last, else centred in the free area.
pub open spec fn placed_position(window: Window, zone: Rectangle, position: Option<Point>) -> Point {
    match position {
        Some(p) => p,
        None => match window.user_data {
            Some(data) => data.last_geometry.loc,
            None => Point {
                x: centered(
                    zone.loc.x as int,
                    zone.size.w as int,
                    placed_size(window, zone).w as int,
                    window.geometry.loc.x as int,
                ) as i32,
                y: centered(
                    zone.loc.y as int,
                    zone.size.h as int,
                    placed_size(window, zone).h as int,
                    window.geometry.loc.y as int,
                ) as i32,
            },
        },
    }
}

/// The state proposed to a window on placement: no tiled edge, and the
/// placed size where it differs from the window's own.
pub open spec fn placed_state(window: Window, zone: Rectangle) -> ToplevelState {
    let untiled = window.pending.untiled();
    if placed_size(window, zone) != window.geometry.size {
        ToplevelState { size: Some(placed_size(window, zone)), ..untiled }
    } else {
        untiled
    }
}

/// The output a new window goes to, by its index: the seat's active output
/// if it is attached; else, with a seat, the first output of the space under
/// the pointer; else the first output of the space.
pub open spec fn spec_output_from_seat(seat: Option<Seat>, space: Space, outputs: Seq<Output>) -> Option<
    int,
> {
    let active = match seat {
        Some(s) => match s.active_output {
            Some(a) => crate::desktop::output::output_named(outputs, a.0@),
            None => None,
        },
        None => None,
    };
    let under = match seat {
        Some(s) => mapped_output_from(space, outputs, Some(s.pointer.location), 0),
        None => None,
    };
    if active is Some {
        active
    } else if under is Some {
        under
    } else {
        mapped_output_from(space, outputs, None, 0)
    }
}

/// The index of the first output at or after `from` that is mapped into the
/// space and, where a point is given, contains it.
pub open spec fn mapped_output_from(space: Space, outputs: Seq<Output>, p: Option<Point>, from: int) -> Option<
    int,
>
    decreases outputs.len() - from,
{
    if from < 0 || from >= outputs.len() {
        None
    } else if space.spec_has_output(outputs[from].name@) && (p matches Some(q)
        ==> outputs[from].spec_geometry().spec_contains(q)) {
        Some(from)
    } else {
        mapped_output_from(space, outputs, p, from + 1)
    }
}

/// Finds the first output that is mapped into the space and, where a point
/// is given, contains it.
pub fn find_mapped_output(space: &Space, outputs: &Vec<Output>, p: Option<Point>) -> (r: Option<
    usize,
>)
    ensures
        r is Some == mapped_output_from(*space, outputs@, p, 0) is Some,
        r matches Some(i) ==> i < outputs.len() && mapped_output_from(*space, outputs@, p, 0) == Some(
            i as int,
        ) && space.spec_has_output(outputs[i as int].name@) && (p matches Some(q)
            ==> outputs[i as int].spec_geometry().spec_contains(q)),
{
    let mut i: usize = 0;
    while i < outputs.len()
        invariant
            i <= outputs.len(),
            mapped_output_from(*space, outputs@, p, 0) == mapped_output_from(
                *space,
                outputs@,
                p,
                i as int,
            ),
        decreases outputs.len() - i,
    {
        if space.has_output(&outputs[i].name) {
            let inside = match p {
                Some(q) => Rectangle { loc: outputs[i].location, size: outputs[i].size }.contains(q),
                None => true,
            };
            if inside {
                return Some(i);
            }
        }
        i += 1;
    }
    None
}

/// Picks the output for a new window.
pub fn output_from_seat(seat: Option<&Seat>, space: &Space, outputs: &Vec<Output>) -> (r: Option<usize>)
    ensures
        r is Some == spec_output_from_seat(
            match seat {
                Some(s) => Some(*s),
                None => None,
            },
            *space,
            outputs@,
        ) is Some,
        r matches Some(i) ==> i < outputs.len() && spec_output_from_seat(
            match seat {
                Some(s) => Some(*s),
                None => None,
            },
            *space,
            outputs@,
        ) == Some(i as int),
{
    match seat {
        Some(s) => {
            let active = match &s.active_output {
                Some(a) => find_output(outputs, &a.0),
                None => None,
            };
            if active.is_some() {
                return active;
            }
            let under = find_mapped_output(space, outputs, Some(s.pointer.location));
            if under.is_some() {
                return under;
            }
            find_mapped_output(space, outputs, None)
        },
        None => find_mapped_output(space, outputs, None),
    }
}

fn place_extent(baseline: i32, free: i32, min: i32, max: i32) -> (r: i32)
    ensures
        r == placed_extent(baseline as int, free as int, min as int, max as int),
{
    let cap: i32 = free / 3 * 2;
    if baseline > cap {
        let mut extent: i32 = cap;
        if max != 0 && max < extent {
            extent = max;
        }
        if min != 0 && min > extent {
            extent = min;
        }
        if extent > free {
            free
        } else {
            extent
        }
    } else {
        baseline
    }
}

fn center(origin: i32, free: i32, extent: i32, inset: i32) -> (r: i32)
    ensures
        r == centered(origin as int, free as int, extent as int, inset as int),
{
    saturate(origin as i64 + (free / 2) as i64 - (extent / 2) as i64 + inset as i64)
}

/// What mapping a window into the free area `zone` does to the layout, the
/// space and the window.
pub open spec fn mapped(
    pre: (Layout, Space, Window),
    post: (Layout, Space, Window),
    zone: Rectangle,
    position: Option<Point>,
) -> bool {
    &&& post.2.is_proposal_of(pre.2, placed_state(pre.2, zone))
    &&& post.1.outputs == pre.1.outputs
    &&& post.1.windows@ == pre.1.with_mapped(
        pre.2.id,
        placed_position(pre.2, zone, position),
        FLOATING_INDEX,
    )
    &&& post.0.placed() == pre.0.placed().insert(pre.2.id)
    &&& post.0.pending_windows == pre.0.pending_windows
    &&& post.0.wf()
}

/// What queueing a window does: only the queue grows.
pub open spec fn queued(pre: (Layout, Space, Window), post: (Layout, Space, Window)) -> bool {
    &&& post.2 == pre.2
    &&& post.1 == pre.1
    &&& post.0.windows == pre.0.windows
    &&& post.0.pending_windows@ == pre.0.pending_windows@.push(pre.2.id)
}

/// What unmapping a window does to the layout, the space and the window.
pub open spec fn unmapped(pre: (Layout, Space, Window), post: (Layout, Space, Window)) -> bool {
    &&& post.2.user_data == spec_remembered(pre.2, pre.1)
    &&& post.2 == (Window { user_data: post.2.user_data, ..pre.2 })
    &&& post.1.outputs == pre.1.outputs
    &&& post.1.windows@ == pre.1.without(pre.2.id)
    &&& post.0.placed() == pre.0.placed().remove(pre.2.id)
    &&& post.0.pending_windows@ == pre.0.pending_windows@.filter(|w: WindowId| w != pre.2.id)
    &&& post.0.wf()
}

/// What un-maximizing a window does to the space and the window.
pub open spec fn unmaximized(pre: (Space, Window), post: (Space, Window)) -> bool {
    &&& post.1.is_proposal_of(pre.1, spec_unmaximized(pre.1))
    &&& post.0.outputs == pre.0.outputs
    &&& post.0.windows@ == match pre.1.user_data {
        Some(data) => pre.0.with_mapped(pre.1.id, data.last_geometry.loc, FLOATING_INDEX),
        None => pre.0.windows@,
    }
}

impl Layout {
    /// The windows the layout has placed.
    pub open spec fn placed(self) -> Set<WindowId> {
        self.windows@.to_set()
    }

    pub open spec fn wf(self) -> bool {
        self.windows@.no_duplicates()
    }

    pub fn new() -> (l: Layout)
        ensures
            l.wf(),
            l.pending_windows@ == Seq::<WindowId>::empty(),
            l.windows@ == Seq::<WindowId>::empty(),
    {
        Layout { pending_windows: Vec::new(), windows: Vec::new() }
    }

    /// Tests whether the list of placed windows holds none twice.
    pub fn in_order(&self) -> (b: bool)
        ensures
            b == self.wf(),
    {
        let mut i: usize = 0;
        while i < self.windows.len()
            invariant
                i <= self.windows.len(),
                forall|a: int, b: int| 0 <= a < b < i ==> self.windows@[a] != self.windows@[b],
            decreases self.windows.len() - i,
        {
            let mut j: usize = 0;
            while j < i
                invariant
                    j <= i < self.windows.len(),
                    forall|a: int| 0 <= a < j ==> self.windows@[a] != self.windows@[i as int],
                decreases i - j,
            {
                if self.windows[j].0 == self.windows[i].0 {
                    return false;
                }
                j += 1;
            }
            i += 1;
        }
        true
    }

    fn track(&mut self, window: WindowId)
        requires
            old(self).wf(),
        ensures
            final(self).wf(),
            final(self).placed() == old(self).placed().insert(window),
            final(self).pending_windows == old(self).pending_windows,
    {
        let mut i: usize = 0;
        while i < self.windows.len()
            invariant
                i <= self.windows.len(),
                *self == *old(self),
                self.wf(),
                forall|j: int| 0 <= j < i ==> self.windows@[j] != window,
            decreases self.windows.len() - i,
        {
            if self.windows[i].0 == window.0 {
                return ;
            }
            i += 1;
        }
        self.windows.push(window);
        assert(self.placed() =~= old(self).placed().insert(window)) by {
            assert forall|w: WindowId| self.placed().contains(w) <==> old(self).placed().insert(
                window,
            ).contains(w) by {
                if self.windows@.contains(w) {
                    let k = choose|k: int| 0 <= k < self.windows@.len() && self.windows@[k] == w;
                }
                if old(self).windows@.contains(w) {
                    let k = choose|k: int|
                        0 <= k < old(self).windows@.len() && old(self).windows@[k] == w;
                    assert(self.windows@[k] == w);
                }
                if w == window {
                    assert(self.windows@[self.windows@.len() - 1] == w);
                }
            }
        }
    }

    /// Maps a window for a seat: places it on the output found for the seat,
    /// or queues it while there is none.
    pub fn map_window(
        &mut self,
        space: &mut Space,
        window: &mut Window,
        seat: &Seat,
        outputs: &Vec<Output>,
        position: Option<Point>,
    )
        requires
            old(self).wf(),
        ensures
            final(self).wf(),
            match spec_output_from_seat(Some(*seat), *old(space), outputs@) {
                Some(o) => mapped(
                    (*old(self), *old(space), *old(window)),
                    (*final(self), *final(space), *final(window)),
                    outputs[o].layer_map.zone,
                    position,
                ),
                None => queued(
                    (*old(self), *old(space), *old(window)),
                    (*final(self), *final(space), *final(window)),
                ),
            },
    {
        match output_from_seat(Some(seat), space, outputs) {
            Some(o) => {
                self.map_window_internal(space, window, &outputs[o], position);
            },
            None => {
                self.pending_windows.push(window.id);
            },
        }
    }

    /// Places a window on an output: sizes it within the free area of the
    /// output, positions it, drops its tiled-edge flags, proposes the result
    /// to the client, and puts it on top of the floating band.
    pub fn map_window_internal(
        &mut self,
        space: &mut Space,
        window: &mut Window,
        output: &Output,
        position: Option<Point>,
    )
        requires
            old(self).wf(),
        ensures
            mapped(
                (*old(self), *old(space), *old(window)),
                (*final(self), *final(space), *final(window)),
                output.layer_map.zone,
                position,
            ),
    {
        let last_geometry: Option<Rectangle> = match window.user_data {
            Some(data) => Some(data.last_geometry),
            None => None,
        };
        let win_geo = window.geometry;
        let zone = output.layer_map.non_exclusive_zone();
        let baseline: Size = match last_geometry {
            Some(g) => g.size,
            None => win_geo.size,
        };
        let size = Size {
            w: place_extent(baseline.w, zone.size.w, window.min_size.w, window.max_size.w),
            h: place_extent(baseline.h, zone.size.h, window.min_size.h, window.max_size.h),
        };
        let location: Point = match position {
            Some(p) => p,
            None => match last_geometry {
                Some(g) => g.loc,
                None => Point {
                    x: center(zone.loc.x, zone.size.w, size.w, win_geo.loc.x),
                    y: center(zone.loc.y, zone.size.h, size.h, win_geo.loc.y),
                },
            },
        };
        let mut state = window.pending;
        state.tiled_left = false;
        state.tiled_right = false;
        state.tiled_top = false;
        state.tiled_bottom = false;
        if size.w != win_geo.size.w || size.h != win_geo.size.h {
            state.size = Some(size);
        }
        window.propose(state);
        space.map_window(window.id, location, FLOATING_INDEX);
        self.track(window.id);
    }

    /// Unmaps a window. Unless it is maximized, its place and size are
    /// remembered first; a window that is not mapped has no place to
    /// remember.
    pub fn unmap_window(&mut self, space: &mut Space, window: &mut Window)
        requires
            old(self).wf(),
        ensures
            unmapped(
                (*old(self), *old(space), *old(window)),
                (*final(self), *final(space), *final(window)),
            ),
    {
        let is_maximized = window.pending.maximized;
        if !is_maximized {
            match space.window_location(window.id) {
                Some(location) => {
                    window.user_data = Some(
                        WindowUserDataInner {
                            last_geometry: Rectangle { loc: location, size: window.geometry.size },
                        },
                    );
                },
                None => {},
            }
        }
        space.unmap_window(window.id);
        let id = window.id;
        let pending = retain_other(&self.pending_windows, id);
        self.pending_windows = pending;
        let ghost before = self.windows@;
        let windows = retain_other(&self.windows, id);
        self.windows = windows;
        proof {
            let pred = |w: WindowId| w != id;
            lemma_filter_members(before, pred);
            crate::seqs::lemma_filter_keeps_distinct(before, pred);
            assert(self.placed() =~= old(self).placed().remove(id));
        }
    }

    /// Takes a window out of the maximized state: proposes its remembered
    /// size, or none, and puts it back where it was remembered, if anywhere.
    pub fn unmaximize_request(&mut self, space: &mut Space, window: &mut Window)
        ensures
            *final(self) == *old(self),
            unmaximized((*old(space), *old(window)), (*final(space), *final(window))),
    {
        let mut state = window.pending;
        state.maximized = false;
        state.size = match window.user_data {
            Some(data) => Some(data.last_geometry.size),
            None => None,
        };
        window.propose(state);
        match window.user_data {
            Some(data) => {
                space.map_window(window.id, data.last_geometry.loc, FLOATING_INDEX);
            },
            None => {},
        }
    }
}

/// What a window remembers when it is unmapped: its place in the space and
/// its size, unless it is maximized or not mapped; then what it remembered
/// before.
pub open spec fn spec_remembered(window: Window, space: Space) -> Option<WindowUserDataInner> {
    match space.spec_window_location(window.id) {
        Some(location) => if window.pending.maximized {
            window.user_data
        } else {
            Some(
                WindowUserDataInner {
                    last_geometry: Rectangle { loc: location, size: window.geometry.size },
                },
            )
        },
        None => window.user_data,
    }
}

/// The state proposed to a window that leaves the maximized state.
pub open spec fn spec_unmaximized(window: Window) -> ToplevelState {
    ToplevelState {
        maximized: false,
        size: match window.user_data {
            Some(data) => Some(data.last_geometry.size),
            None => None,
        },
        ..window.pending
    }
}

/// The list without `id`.
pub fn retain_other(list: &Vec<WindowId>, id: WindowId) -> (kept: Vec<WindowId>)
    ensures
        kept@ == list@.filter(|w: WindowId| w != id),
{
    let ghost pred = |w: WindowId| w != id;
    let mut kept: Vec<WindowId> = Vec::new();
    let mut i: usize = 0;
    proof {
        lemma_filter_start(list@, pred);
    }
    while i < list.len()
        invariant
            i <= list.len(),
            pred == (|w: WindowId| w != id),
            kept@ == list@.take(i as int).filter(pred),
        decreases list.len() - i,
    {
        proof {
            lemma_filter_step(list@, pred, i as int);
        }
        if list[i].0 != id.0 {
            kept.push(list[i]);
        }
        i += 1;
    }
    proof {
        lemma_filter_end(list@, pred);
    }
    kept
}

/// Whether placing a window in the free area `zone` leaves a size alone.
pub open spec fn keeps_size(size: Size, window: Window, zone: Rectangle) -> bool {
    &&& placed_extent(
        size.w as int,
        zone.size.w as int,
        window.min_size.w as int,
        window.max_size.w as int,
    ) == size.w
    &&& placed_extent(
        size.h as int,
        zone.size.h as int,
        window.min_size.h as int,
        window.max_size.h as int,
    ) == size.h
}

/// A size within two thirds of the free area is left alone.
pub proof fn lemma_small_size_is_kept(size: Size, window: Window, zone: Rectangle)
    requires
        size.w <= two_thirds(zone.size.w as int),
        size.h <= two_thirds(zone.size.h as int),
    ensures
        keeps_size(size, window, zone),
{
}

/// Unmapping a window that is not maximized and mapping it again without a
/// position puts it back where it was, with the size it had, and proposes
/// no other size. This holds of a window whose size placement leaves alone:
/// another one is sized anew when it is mapped.
pub proof fn lemma_remap_restores(
    before: (Layout, Space, Window),
    between: (Layout, Space, Window),
    zone: Rectangle,
)
    requires
        unmapped(before, between),
        !before.2.pending.maximized,
        before.1.spec_window_location(before.2.id) is Some,
        keeps_size(before.2.geometry.size, before.2, zone),
    ensures
        placed_size(between.2, zone) == before.2.geometry.size,
        Some(placed_position(between.2, zone, None)) == before.1.spec_window_location(before.2.id),
        placed_state(between.2, zone) == between.2.pending.untiled(),
        ({
            let again = between.1.with_mapped(
                before.2.id,
                placed_position(between.2, zone, None),
                FLOATING_INDEX,
            );
            crate::desktop::space::entry_of_from(again, before.2.id, 0) matches Some(i)
                && Some(again[i].location) == before.1.spec_window_location(before.2.id)
        }),
{
    crate::desktop::space::lemma_mapped_location(
        between.1,
        before.2.id,
        placed_position(between.2, zone, None),
        FLOATING_INDEX,
    );
}

} // verus!
