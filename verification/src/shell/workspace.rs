//! The workspace: the floating layout, the fullscreen slot of each output,
//! and the requests that are left to the policy engine.

use vstd::prelude::*;

use crate::desktop::{Output, Space, ToplevelState, Window, WindowId};
use crate::input::{PointerGrabStartData, SeatId};
use crate::runtime::messages::{handed_over, PolicyError, RuntimeMessage};
use crate::seqs::{lemma_filter_end, lemma_filter_start, lemma_filter_step};
use crate::shell::layout::grab::{window_alive, ResizeEdge};
use crate::shell::layout::Layout;
use crate::utils::Serial;

verus! {

/// The fullscreen window of one output.
pub struct FullscreenSlot {
    /// The output's name.
    pub output: String,
    pub window: WindowId,
}

/// A slot as a plain value.
pub struct Slot {
    pub output: Seq<char>,
    pub window: WindowId,
}

impl FullscreenSlot {
    pub open spec fn view(self) -> Slot {
        Slot { output: self.output@, window: self.window }
    }
}

pub struct Workspace {
    pub idx: u8,
    pub space: Space,
    /// Output name to fullscreen window.
    pub fullscreen: Vec<FullscreenSlot>,
    pub runtime_sender: calloop::channel::Sender<RuntimeMessage>,
    pub layer: Layout,
}

/// The index of the first slot at or after `from` that belongs to the output.
pub open spec fn slot_of_from(slots: Seq<Slot>, output: Seq<char>, from: int) -> Option<int>
    decreases slots.len() - from,
{
    if from < 0 || from >= slots.len() {
        None
    } else if slots[from].output == output {
        Some(from)
    } else {
        slot_of_from(slots, output, from + 1)
    }
}

/// Whether the window is some output's fullscreen window.
pub open spec fn holds_window(slots: Seq<Slot>, window: WindowId) -> bool {
    exists|i: int| 0 <= i < slots.len() && (#[trigger] slots[i]).window == window
}

/// Whether some slot belongs to the output.
pub open spec fn holds_output(slots: Seq<Slot>, output: Seq<char>) -> bool {
    exists|i: int| 0 <= i < slots.len() && (#[trigger] slots[i]).output == output
}

/// No output has two slots, and no window is in two slots.
pub open spec fn exclusive(slots: Seq<Slot>) -> bool {
    forall|i: int, j: int|
        0 <= i < j < slots.len() ==> (#[trigger] slots[i]).output != (#[trigger] slots[j]).output
            && slots[i].window != slots[j].window
}

/// The state proposed to a window that goes fullscreen on an output.
pub open spec fn spec_fullscreened(window: Window, output: Output) -> ToplevelState {
    ToplevelState { fullscreen: true, size: Some(output.mode_size), ..window.pending }
}

/// The state proposed to a window that leaves fullscreen.
pub open spec fn spec_unfullscreened(window: Window) -> ToplevelState {
    ToplevelState { fullscreen: false, size: None, ..window.pending }
}

proof fn lemma_slot_found(slots: Seq<Slot>, output: Seq<char>, from: int)
    requires
        0 <= from <= slots.len(),
    ensures
        match slot_of_from(slots, output, from) {
            Some(i) => from <= i < slots.len() && slots[i].output == output && forall|j: int|
                from <= j < i ==> (#[trigger] slots[j]).output != output,
            None => forall|j: int| from <= j < slots.len() ==> (#[trigger] slots[j]).output != output,
        },
    decreases slots.len() - from,
{
    if from < slots.len() && slots[from].output != output {
        lemma_slot_found(slots, output, from + 1);
    }
}

impl Workspace {
    /// The fullscreen slots as plain values.
    pub open spec fn slots(self) -> Seq<Slot> {
        self.fullscreen@.map_values(|s: FullscreenSlot| s@)
    }

    /// The layout is in order, and fullscreen is exclusive.
    pub open spec fn wf(self) -> bool {
        &&& self.layer.wf()
        &&& exclusive(self.slots())
    }

    pub fn new(idx: u8, rs: calloop::channel::Sender<RuntimeMessage>) -> (w: Workspace)
        ensures
            w.wf(),
            w.idx == idx,
            w.space.outputs@ == Seq::<String>::empty(),
            w.space.windows@ == Seq::<crate::desktop::MappedWindow>::empty(),
            w.slots() == Seq::<Slot>::empty(),
            w.runtime_sender == rs,
            w.layer.pending_windows@ == Seq::<WindowId>::empty(),
            w.layer.windows@ == Seq::<WindowId>::empty(),
    {
        let w = Workspace {
            idx,
            space: Space::new(),
            fullscreen: Vec::new(),
            runtime_sender: rs,
            layer: Layout::new(),
        };
        w
    }

    /// Tests whether the workspace is in order.
    pub fn in_order(&self) -> (b: bool)
        ensures
            b == self.wf(),
    {
        if !self.layer.in_order() {
            return false;
        }
        let mut i: usize = 0;
        while i < self.fullscreen.len()
            invariant
                i <= self.fullscreen.len(),
                forall|a: int, b: int|
                    0 <= a < b < i ==> (#[trigger] self.slots()[a]).output != (
                    #[trigger] self.slots()[b]).output && self.slots()[a].window
                        != self.slots()[b].window,
            decreases self.fullscreen.len() - i,
        {
            let mut j: usize = 0;
            while j < i
                invariant
                    j <= i < self.fullscreen.len(),
                    forall|a: int|
                        0 <= a < j ==> (#[trigger] self.slots()[a]).output != self.slots()[i as int].output
                            && self.slots()[a].window != self.slots()[i as int].window,
                decreases i - j,
            {
                if self.fullscreen[j].output == self.fullscreen[i].output
                    || self.fullscreen[j].window.0 == self.fullscreen[i].window.0 {
                    assert(self.slots()[j as int].output == self.slots()[i as int].output
                        || self.slots()[j as int].window == self.slots()[i as int].window);
                    return false;
                }
                j += 1;
            }
            i += 1;
        }
        true
    }

    /// Tests whether the layout's list of windows holds none twice.
    pub fn layer_in_order(&self) -> (b: bool)
        ensures
            b == self.layer.wf(),
    {
        self.layer.in_order()
    }

    /// Whether the window is some output's fullscreen window.
    pub fn is_fullscreen(&self, window: WindowId) -> (b: bool)
        ensures
            b == holds_window(self.slots(), window),
    {
        let mut i: usize = 0;
        while i < self.fullscreen.len()
            invariant
                i <= self.fullscreen.len(),
                forall|j: int| 0 <= j < i ==> (#[trigger] self.slots()[j]).window != window,
            decreases self.fullscreen.len() - i,
        {
            if self.fullscreen[i].window.0 == window.0 {
                assert(self.slots()[i as int].window == window);
                return true;
            }
            i += 1;
        }
        false
    }

    fn slot_of(&self, output: &String) -> (r: Option<usize>)
        ensures
            r is Some == slot_of_from(self.slots(), output@, 0) is Some,
            r is Some == holds_output(self.slots(), output@),
            r matches Some(i) ==> i < self.fullscreen.len() && slot_of_from(
                self.slots(),
                output@,
                0,
            ) == Some(i as int),
    {
        proof {
            lemma_slot_found(self.slots(), output@, 0);
        }
        let mut i: usize = 0;
        while i < self.fullscreen.len()
            invariant
                i <= self.fullscreen.len(),
                slot_of_from(self.slots(), output@, 0) == slot_of_from(
                    self.slots(),
                    output@,
                    i as int,
                ),
            decreases self.fullscreen.len() - i,
        {
            if self.fullscreen[i].output == *output {
                return Some(i);
            }
            i += 1;
        }
        None
    }

    /// The message that asks the policy engine to maximize the window on
    /// the output; none for a fullscreen window, which stays as it is.
    pub fn maximize_message(&self, window: WindowId, output: &Output) -> (m: Option<RuntimeMessage>)
        ensures
            m is None == holds_window(self.slots(), window),
            m matches Some(msg) ==> msg matches RuntimeMessage::MaximizeRequest {
                window: w,
                output: o,
            } && w == window && o@ == output.name@,
    {
        if self.is_fullscreen(window) {
            None
        } else {
            Some(RuntimeMessage::MaximizeRequest { window, output: output.name.clone() })
        }
    }

    /// Leaves maximizing to the policy engine, unless the window is
    /// fullscreen. Fails only where the message could not be handed over.
    pub fn maximize_request(&mut self, window: WindowId, output: &Output) -> (r: Result<
        (),
        PolicyError,
    >)
        ensures
            *final(self) == *old(self),
            holds_window(old(self).slots(), window) ==> r is Ok,
    {
        match self.maximize_message(window, output) {
            Some(msg) => handed_over(self.runtime_sender.send(msg)),
            None => Ok(()),
        }
    }

    /// The message that asks the policy engine to take the window out of
    /// the maximized state; none for a fullscreen window, which leaves
    /// fullscreen instead.
    pub fn unmaximize_message(&self, window: WindowId) -> (m: Option<RuntimeMessage>)
        ensures
            m == if holds_window(self.slots(), window) {
                None
            } else {
                Some(RuntimeMessage::UnmaximizeRequest { window })
            },
    {
        if self.is_fullscreen(window) {
            None
        } else {
            Some(RuntimeMessage::UnmaximizeRequest { window })
        }
    }

    /// Leaves un-maximizing to the policy engine; a fullscreen window
    /// leaves fullscreen instead. Fails only where the message could not be
    /// handed over.
    pub fn unmaximize_request(&mut self, window: &mut Window) -> (r: Result<(), PolicyError>)
        ensures
            final(self).idx == old(self).idx,
            final(self).space == old(self).space,
            final(self).layer == old(self).layer,
            final(self).runtime_sender == old(self).runtime_sender,
            final(self).slots() == old(self).slots().filter(|s: Slot| s.window != old(window).id),
            old(self).wf() ==> final(self).wf(),
            if holds_window(old(self).slots(), old(window).id) {
                final(window).is_proposal_of(*old(window), spec_unfullscreened(*old(window)))
            } else {
                *final(window) == *old(window)
            },
    {
        match self.unmaximize_message(window.id) {
            Some(msg) => {
                proof {
                    let pred = |s: Slot| s.window != window.id;
                    crate::seqs::lemma_filter_keeps_all(self.slots(), pred);
                }
                handed_over(self.runtime_sender.send(msg))
            },
            None => self.unfullscreen_request(window),
        }
    }

    /// The message that asks the policy engine to start a resize; none for
    /// a fullscreen window, which stays as it is.
    pub fn resize_message(
        &self,
        window: WindowId,
        seat: SeatId,
        serial: Serial,
        start_data: PointerGrabStartData,
        edges: ResizeEdge,
    ) -> (m: Option<RuntimeMessage>)
        ensures
            m == if holds_window(self.slots(), window) {
                None
            } else {
                Some(RuntimeMessage::ResizeRequest { window, seat, serial, start_data, edges })
            },
    {
        if self.is_fullscreen(window) {
            None
        } else {
            Some(RuntimeMessage::ResizeRequest { window, seat, serial, start_data, edges })
        }
    }

    /// Leaves an interactive resize to the policy engine, unless the window
    /// is fullscreen. Fails only where the message could not be handed over.
    pub fn resize_request(
        &mut self,
        window: WindowId,
        seat: SeatId,
        serial: Serial,
        start_data: PointerGrabStartData,
        edges: ResizeEdge,
    ) -> (r: Result<(), PolicyError>)
        ensures
            *final(self) == *old(self),
            holds_window(old(self).slots(), window) ==> r is Ok,
    {
        match self.resize_message(window, seat, serial, start_data, edges) {
            Some(msg) => handed_over(self.runtime_sender.send(msg)),
            None => Ok(()),
        }
    }

    /// Whether a fullscreen request for the window on the output is heeded:
    /// the output has no fullscreen window yet, and the window is not
    /// fullscreen anywhere.
    pub open spec fn grants_fullscreen(self, window: WindowId, output: Seq<char>) -> bool {
        !holds_output(self.slots(), output) && !holds_window(self.slots(), window)
    }

    /// Makes the window the fullscreen window of the output: proposes the
    /// size of the output's mode with the fullscreen flag, and fills the
    /// output's slot. A request that is not granted changes nothing.
    pub fn fullscreen_request(&mut self, window: &mut Window, output: &Output)
        ensures
            final(self).idx == old(self).idx,
            final(self).space == old(self).space,
            final(self).layer == old(self).layer,
            final(self).runtime_sender == old(self).runtime_sender,
            old(self).wf() ==> final(self).wf(),
            if old(self).grants_fullscreen(old(window).id, output.name@) {
                &&& final(window).is_proposal_of(
                    *old(window),
                    spec_fullscreened(*old(window), *output),
                )
                &&& final(self).slots() == old(self).slots().push(
                    Slot { output: output.name@, window: old(window).id },
                )
            } else {
                &&& *final(window) == *old(window)
                &&& final(self).fullscreen == old(self).fullscreen
            },
    {
        if self.slot_of(&output.name).is_some() {
            return ;
        }
        if self.is_fullscreen(window.id) {
            return ;
        }
        let mut state = window.pending;
        state.fullscreen = true;
        state.size = Some(output.mode_size);
        window.propose(state);
        self.fullscreen.push(FullscreenSlot { output: output.name.clone(), window: window.id });
        proof {
            if old(self).wf() {
                assert forall|i: int, j: int| 0 <= i < j < self.slots().len() implies (
                #[trigger] self.slots()[i]).output != (#[trigger] self.slots()[j]).output
                    && self.slots()[i].window != self.slots()[j].window by {
                    if j == self.slots().len() - 1 {
                        assert(old(self).slots()[i] == self.slots()[i]);
                    } else {
                        assert(old(self).slots()[i] == self.slots()[i]);
                        assert(old(self).slots()[j] == self.slots()[j]);
                    }
                }
            }
        }
    }

    fn drop_slots_of(&mut self, window: WindowId)
        ensures
            final(self).idx == old(self).idx,
            final(self).space == old(self).space,
            final(self).layer == old(self).layer,
            final(self).runtime_sender == old(self).runtime_sender,
            final(self).slots() == old(self).slots().filter(|s: Slot| s.window != window),
            old(self).wf() ==> final(self).wf(),
    {
        let ghost pred = |s: Slot| s.window != window;
        let ghost slots = self.slots();
        let mut kept: Vec<FullscreenSlot> = Vec::new();
        let mut i: usize = 0;
        proof {
            lemma_filter_start(slots, pred);
        }
        while i < self.fullscreen.len()
            invariant
                i <= self.fullscreen.len(),
                *self == *old(self),
                slots == self.slots(),
                pred == (|s: Slot| s.window != window),
                kept@.map_values(|s: FullscreenSlot| s@) == slots.take(i as int).filter(pred),
            decreases self.fullscreen.len() - i,
        {
            proof {
                lemma_filter_step(slots, pred, i as int);
            }
            if self.fullscreen[i].window.0 != window.0 {
                kept.push(
                    FullscreenSlot {
                        output: self.fullscreen[i].output.clone(),
                        window: self.fullscreen[i].window,
                    },
                );
                assert(kept@.map_values(|s: FullscreenSlot| s@) =~= slots.take(i as int).filter(
                    pred,
                ).push(slots[i as int]));
            }
            i += 1;
        }
        proof {
            lemma_filter_end(slots, pred);
            lemma_filter_keeps_exclusive(slots, pred);
        }
        self.fullscreen = kept;
    }

    /// The message that tells the policy engine that the window left
    /// fullscreen; none for a window that is not fullscreen.
    pub fn unfullscreen_message(&self, window: WindowId) -> (m: Option<RuntimeMessage>)
        ensures
            m == if holds_window(self.slots(), window) {
                Some(RuntimeMessage::UnfullscreenRequest { window })
            } else {
                None
            },
    {
        if self.is_fullscreen(window) {
            Some(RuntimeMessage::UnfullscreenRequest { window })
        } else {
            None
        }
    }

    /// Takes the window out of fullscreen: proposes no size with the flag
    /// cleared, empties its slot and tells the policy engine. A window that
    /// is not fullscreen is left alone. Fails only where the message could
    /// not be handed over; the slot is emptied all the same.
    pub fn unfullscreen_request(&mut self, window: &mut Window) -> (r: Result<(), PolicyError>)
        ensures
            final(self).idx == old(self).idx,
            final(self).space == old(self).space,
            final(self).layer == old(self).layer,
            final(self).runtime_sender == old(self).runtime_sender,
            final(self).slots() == old(self).slots().filter(|s: Slot| s.window != old(window).id),
            old(self).wf() ==> final(self).wf(),
            if holds_window(old(self).slots(), old(window).id) {
                final(window).is_proposal_of(*old(window), spec_unfullscreened(*old(window)))
            } else {
                *final(window) == *old(window) && r is Ok
            },
    {
        match self.unfullscreen_message(window.id) {
            Some(msg) => {
                let mut state = window.pending;
                state.fullscreen = false;
                state.size = None;
                window.propose(state);
                let sent = self.runtime_sender.send(msg);
                self.drop_slots_of(window.id);
                handed_over(sent)
            },
            None => {
                proof {
                    let pred = |s: Slot| s.window != window.id;
                    crate::seqs::lemma_filter_keeps_all(self.slots(), pred);
                }
                Ok(())
            },
        }
    }

    /// Whether a slot survives a refresh: its output is still mapped into
    /// the space, and its window is alive.
    pub open spec fn slot_stays(self, windows: Seq<Window>, slot: Slot) -> bool {
        self.space.spec_has_output(slot.output) && window_alive(windows, slot.window)
    }

    /// Whether the window in slot `window` of the table is the fullscreen
    /// window of an output that is gone, by one of the first `upto` slots.
    pub open spec fn orphaned(self, window: int, upto: int) -> bool {
        exists|k: int|
            0 <= k < upto && k < self.slots().len() && (#[trigger] self.slots()[k]).window.0
                == window && !self.space.spec_has_output(self.slots()[k].output)
    }

    /// Brings the fullscreen slots up to date. A window whose output is no
    /// longer mapped into the space is taken out of fullscreen, as by a
    /// request of its own; then the slots of windows that are gone are
    /// dropped, and such windows leave the stack. Fails only where a message
    /// could not be handed over; everything is brought up to date all the
    /// same.
    pub fn refresh(&mut self, windows: &mut Vec<Window>) -> (r: Result<(), PolicyError>)
        requires
            old(self).wf(),
        ensures
            final(self).wf(),
            refreshed((*old(self), old(windows)@), (*final(self), final(windows)@)),
            r is Err ==> exists|j: int| old(self).orphaned(j, old(self).slots().len() as int),
    {
        let ghost pred = |s: Slot| old(self).slot_stays(old(windows)@, s);
        let ghost slots = self.slots();
        let mut kept: Vec<FullscreenSlot> = Vec::new();
        let mut result: Result<(), PolicyError> = Ok(());
        let ghost mut culprit: int = 0;
        let mut i: usize = 0;
        proof {
            lemma_filter_start(slots, pred);
        }
        while i < self.fullscreen.len()
            invariant
                i <= self.fullscreen.len(),
                *self == *old(self),
                self.wf(),
                slots == self.slots(),
                pred == (|s: Slot| old(self).slot_stays(old(windows)@, s)),
                kept@.map_values(|s: FullscreenSlot| s@) == slots.take(i as int).filter(pred),
                windows.len() == old(windows).len(),
                forall|j: int|
                    0 <= j < old(windows).len() ==> if self.orphaned(j, i as int) {
                        (#[trigger] windows[j]).is_proposal_of(
                            old(windows)[j],
                            spec_unfullscreened(old(windows)[j]),
                        )
                    } else {
                        windows[j] == old(windows)[j]
                    },
                result is Err ==> self.orphaned(culprit, i as int),
            decreases self.fullscreen.len() - i,
        {
            proof {
                lemma_filter_step(slots, pred, i as int);
            }
            let window = self.fullscreen[i].window;
            if !self.space.has_output(&self.fullscreen[i].output) {
                if window.0 < windows.len() {
                    let mut state = windows[window.0].pending;
                    state.fullscreen = false;
                    state.size = None;
                    windows[window.0].propose(state);
                }
                assert(self.slots()[i as int].window == window);
                match self.unfullscreen_message(window) {
                    Some(msg) => {
                        match handed_over(self.runtime_sender.send(msg)) {
                            Ok(()) => {},
                            Err(e) => {
                                result = Err(e);
                                proof {
                                    culprit = window.0 as int;
                                }
                            },
                        }
                    },
                    None => {},
                }
            } else if window.0 < windows.len() && windows[window.0].alive {
                kept.push(FullscreenSlot { output: self.fullscreen[i].output.clone(), window });
                assert(kept@.map_values(|s: FullscreenSlot| s@) =~= slots.take(i as int).filter(
                    pred,
                ).push(slots[i as int]));
            }
            proof {
                assert forall|j: int| 0 <= j < old(windows).len() implies if self.orphaned(
                    j,
                    i + 1,
                ) {
                    (#[trigger] windows[j]).is_proposal_of(
                        old(windows)[j],
                        spec_unfullscreened(old(windows)[j]),
                    )
                } else {
                    windows[j] == old(windows)[j]
                } by {}
            }
            i += 1;
        }
        proof {
            lemma_filter_end(slots, pred);
            lemma_filter_keeps_exclusive(slots, pred);
            assert forall|j: int| 0 <= j < windows.len() implies (#[trigger] windows[j]).alive == old(
                windows,
            )[j].alive by {}
            assert(self.space.of_alive(windows@) =~= old(self).space.of_alive(old(windows)@)) by {
                let now = |m: crate::desktop::MappedWindow|
                    m.window.0 < windows@.len() && windows@[m.window.0 as int].alive;
                let then = |m: crate::desktop::MappedWindow|
                    m.window.0 < old(windows)@.len() && old(windows)@[m.window.0 as int].alive;
                assert(now =~= then);
            }
        }
        self.fullscreen = kept;
        self.space.refresh(windows);
        result
    }

    /// The fullscreen window of an output: the one in the slot of that name,
    /// if the output is mapped into the space and the window is alive.
    pub open spec fn spec_get_fullscreen(self, output: Seq<char>, windows: Seq<Window>) -> Option<
        WindowId,
    > {
        if !self.space.spec_has_output(output) {
            None
        } else {
            match slot_of_from(self.slots(), output, 0) {
                Some(i) => if window_alive(windows, self.slots()[i].window) {
                    Some(self.slots()[i].window)
                } else {
                    None
                },
                None => None,
            }
        }
    }

    pub fn get_fullscreen(&self, output: &Output, windows: &Vec<Window>) -> (r: Option<WindowId>)
        ensures
            r == self.spec_get_fullscreen(output.name@, windows@),
    {
        if !self.space.has_output(&output.name) {
            return None;
        }
        match self.slot_of(&output.name) {
            Some(i) => {
                let window = self.fullscreen[i].window;
                if window.0 < windows.len() && windows[window.0].alive {
                    Some(window)
                } else {
                    None
                }
            },
            None => None,
        }
    }
}

/// What a refresh does to a workspace and the window table: the slots that
/// stay are those whose output is mapped and whose window is alive, each
/// orphaned window got the proposal that takes it out of fullscreen, and the
/// windows that are gone left the stack.
pub open spec fn refreshed(pre: (Workspace, Seq<Window>), post: (Workspace, Seq<Window>)) -> bool {
    &&& post.0.idx == pre.0.idx
    &&& post.0.space.outputs == pre.0.space.outputs
    &&& post.0.space.windows@ == pre.0.space.of_alive(pre.1)
    &&& post.0.layer == pre.0.layer
    &&& post.0.runtime_sender == pre.0.runtime_sender
    &&& post.0.slots() == pre.0.slots().filter(|s: Slot| pre.0.slot_stays(pre.1, s))
    &&& post.1.len() == pre.1.len()
    &&& forall|j: int|
        0 <= j < pre.1.len() ==> if pre.0.orphaned(j, pre.0.slots().len() as int) {
            (#[trigger] post.1[j]).is_proposal_of(pre.1[j], spec_unfullscreened(pre.1[j]))
        } else {
            post.1[j] == pre.1[j]
        }
}

/// Dropping slots keeps fullscreen exclusive.
pub proof fn lemma_filter_keeps_exclusive(slots: Seq<Slot>, pred: spec_fn(Slot) -> bool)
    ensures
        exclusive(slots) ==> exclusive(slots.filter(pred)),
    decreases slots.len(),
{
    reveal(Seq::filter);
    if slots.len() > 0 && exclusive(slots) {
        let rest = slots.drop_last();
        lemma_filter_keeps_exclusive(rest, pred);
        if pred(slots.last()) {
            let f = rest.filter(pred);
            let all = f.push(slots.last());
            crate::seqs::lemma_filter_members(rest, pred);
            assert forall|i: int, j: int| 0 <= i < j < all.len() implies (#[trigger] all[i]).output
                != (#[trigger] all[j]).output && all[i].window != all[j].window by {
                if j == f.len() {
                    assert(f.contains(f[i]));
                }
            }
        }
    }
}

/// Of two requests for one output, the second is not granted: once an
/// output's slot is filled, a request by any window for that output leaves
/// the slot with the window it has.
pub proof fn lemma_fullscreen_first_wins(before: Seq<Slot>, output: Seq<char>, first: WindowId)
    requires
        !holds_output(before, output),
        !holds_window(before, first),
    ensures
        ({
            let filled = before.push(Slot { output, window: first });
            &&& holds_output(filled, output)
            &&& slot_of_from(filled, output, 0) matches Some(i) && filled[i].window == first
        }),
{
    let filled = before.push(Slot { output, window: first });
    assert(filled[filled.len() - 1].output == output);
    lemma_slot_found(filled, output, 0);
}

} // verus!
