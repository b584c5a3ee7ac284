//! Input events, and what dispatching one does.

use vstd::prelude::*;

use crate::desktop::output::{find_output_containing, output_containing};
use crate::desktop::window::only_changed;
use crate::desktop::{Output, SurfaceHit, SurfaceId, Window};
use crate::input::devices::supported;
use crate::input::hit::{focus_under, spec_focus_under, spec_surface_under, surface_under};
use crate::input::{DeviceCapability, PointerGrab, PointerState, Seat};
use crate::seqs::{lemma_filter_end, lemma_filter_start, lemma_filter_step};
use crate::shell::layout::grab::{resized, window_alive, ResizeSurfaceGrab};
use crate::state::output::{active_output_index, spec_active_output};
use crate::state::{resize_in_step, CommonState, IdleTask, State};
use crate::utils::{Point, Rectangle, Serial};

verus! {

/// Whether a button went down or up.
#[derive(Clone, Copy, Debug, PartialEq, Eq, Structural)]
pub enum ButtonState {
    Released,
    Pressed,
}

/// An input device as the backend reports it.
pub struct DeviceInfo {
    pub id: String,
    pub capabilities: Vec<DeviceCapability>,
}

/// An event of the input backend. Positions and deltas are in whole logical
/// units; `time` is the hardware timestamp.
pub enum InputEvent {
    DeviceAdded { info: DeviceInfo },
    DeviceRemoved { device: String },
    Keyboard,
    /// The pointer moved by `delta`.
    PointerMotion { device: String, delta: Point, time: u32 },
    /// The pointer moved to `position`, given within the active output.
    PointerMotionAbsolute { device: String, position: Point, time: u32 },
    PointerButton { device: String, button: u32, state: ButtonState, time: u32 },
    PointerAxis { device: String, time: u32 },
    /// Touch, tablet and backend-specific events, which pass through.
    Unhandled,
}

/// What the protocol layer is to do after an event was dispatched.
#[derive(Debug)]
pub enum Delivery {
    Nothing,
    /// The seat gained capabilities.
    Gained { seat: usize, capabilities: Vec<DeviceCapability> },
    /// The seat lost capabilities.
    Lost { seat: usize, capabilities: Vec<DeviceCapability> },
    /// Pass a motion on to `focus`, or to nobody.
    Motion { seat: usize, location: Point, focus: Option<SurfaceHit>, serial: Serial, time: u32 },
    /// Pass a button on to the pointer's focus.
    Button { seat: usize, button: u32, state: ButtonState, serial: Serial, time: u32 },
    /// Pass the scroll frame of the event on to the pointer's focus.
    Axis { seat: usize },
}

/// The index of the first seat at or after `from` that has the device.
pub open spec fn seat_of_device_from(seats: Seq<Seat>, device: Seq<char>, from: int) -> Option<int>
    decreases seats.len() - from,
{
    if from < 0 || from >= seats.len() {
        None
    } else if seats[from].devices@.contains_key(device) {
        Some(from)
    } else {
        seat_of_device_from(seats, device, from + 1)
    }
}

/// The index of the first seat that has the device.
pub open spec fn seat_of_device(seats: Seq<Seat>, device: Seq<char>) -> Option<int> {
    seat_of_device_from(seats, device, 0)
}

/// The state but for its seats, its window table and
/// its queue of work put off.
pub open spec fn same_frame(pre: CommonState, post: CommonState) -> bool {
    &&& post.shell.workspaces == pre.shell.workspaces
    &&& post.shell.outputs == pre.shell.outputs
    &&& post.shell.pending_windows == pre.shell.pending_windows
    &&& post.shell.pending_layers == pre.shell.pending_layers
    &&& post.last_active_seat == pre.last_active_seat
    &&& post.should_stop == pre.should_stop
    &&& post.seats.len() == pre.seats.len()
    &&& post.shell.windows.len() == pre.shell.windows.len()
}

/// Every seat but `s` is as it was.
pub open spec fn other_seats_same(pre: Seq<Seat>, post: Seq<Seat>, s: int) -> bool {
    &&& post.len() == pre.len()
    &&& forall|j: int| 0 <= j < pre.len() && j != s ==> post[j] == pre[j]
}

/// Nothing changed.
pub open spec fn untouched(pre: CommonState, post: CommonState) -> bool {
    post == pre
}

/// The grab after a motion to `position`: a move grab ends when its window
/// is gone; so does a resize grab, which else keeps the size it proposed.
pub open spec fn grab_after_motion(grab: Option<PointerGrab>, windows: Seq<Window>, position: Point) -> Option<
    PointerGrab,
> {
    match grab {
        None => None,
        Some(PointerGrab::Move(g)) => if window_alive(windows, g.window) {
            grab
        } else {
            None
        },
        Some(PointerGrab::Resize(g)) => if window_alive(windows, g.window) {
            Some(
                PointerGrab::Resize(
                    ResizeSurfaceGrab {
                        last_window_size: resized(g, windows[g.window.0 as int], position),
                        ..g
                    },
                ),
            )
        } else {
            None
        },
    }
}

/// The window table after a motion: a resize grab on a live window proposes
/// the new size to it, as a size of a resize in progress.
pub open spec fn windows_after_motion(
    pre: Seq<Window>,
    post: Seq<Window>,
    grab: Option<PointerGrab>,
    position: Point,
) -> bool {
    match grab {
        Some(PointerGrab::Resize(g)) => if window_alive(pre, g.window) {
            &&& only_changed(pre, post, g.window.0 as int)
            &&& post[g.window.0 as int].is_proposal_of(
                pre[g.window.0 as int],
                g.motion_state(pre[g.window.0 as int], position),
            )
        } else {
            post == pre
        },
        _ => post == pre,
    }
}

/// The work put off after a grab saw an event: a move grab that ends puts
/// the end of the move off to the next turn.
pub open spec fn idle_after(pre: Seq<IdleTask>, grab: Option<PointerGrab>, ends: bool) -> Seq<IdleTask> {
    match grab {
        Some(PointerGrab::Move(g)) => if ends {
            pre.push(IdleTask::DropMove { seat: g.seat })
        } else {
            pre
        },
        _ => pre,
    }
}

/// Whether a move grab ends at a motion: its window is gone.
pub open spec fn move_ends_at_motion(grab: Option<PointerGrab>, windows: Seq<Window>) -> bool {
    grab matches Some(PointerGrab::Move(g)) && !window_alive(windows, g.window)
}

/// What the delivery of a motion to seat `s` does. Without a grab the
/// pointer gets the position and the focus `focus`, and the motion goes to
/// that focus. With a grab the pointer has no focus, the motion goes to
/// nobody, and the grab acts on it.
pub open spec fn motion_delivered(
    pre: CommonState,
    post: CommonState,
    s: int,
    position: Point,
    focus: Option<SurfaceHit>,
    serial: Serial,
    time: u32,
    delivery: Delivery,
) -> bool {
    let before = pre.seats[s];
    let grab = before.pointer.grab;
    let given = if grab is None { focus } else { None };
    &&& same_frame(pre, post)
    &&& other_seats_same(pre.seats@, post.seats@, s)
    &&& windows_after_motion(pre.shell.windows@, post.shell.windows@, grab, position)
    &&& post.idle@ == idle_after(pre.idle@, grab, move_ends_at_motion(grab, pre.shell.windows@))
    &&& post.seats[s] == (Seat {
        active_output: post.seats[s].active_output,
        pointer: PointerState {
            location: position,
            focus: given,
            grab: grab_after_motion(grab, pre.shell.windows@, position),
            ..before.pointer
        },
        ..before
    })
    &&& delivery matches Delivery::Motion { seat, location, focus: f, serial: sr, time: t }
    &&& seat == s
    &&& location == position
    &&& f == given
    &&& sr == serial
    &&& t == time
}

/// Where a relative motion by `delta` takes the pointer of seat `s`: to the
/// first output that contains the new position, else it stays on the active
/// output; the position is clamped to that output.
pub open spec fn motion_target(pre: CommonState, s: int, delta: Point) -> (int, Point) {
    let seat = pre.seats[s];
    let current = spec_active_output(seat, pre.shell.outputs@);
    let wanted = seat.pointer.location.plus(delta);
    let output = match output_containing(pre.shell.outputs@, wanted) {
        Some(o) => o,
        None => current,
    };
    (output, pre.shell.outputs[output].spec_geometry().spec_clamp_point(wanted))
}

/// What a relative motion of seat `s` does: the output under the new
/// position becomes the seat's active output if it is another than before,
/// and the motion is delivered with the surface under the pointer as focus.
pub open spec fn relative_motion(
    pre: CommonState,
    post: CommonState,
    s: int,
    delta: Point,
    serial: Serial,
    time: u32,
    delivery: Delivery,
) -> bool {
    let (o, position) = motion_target(pre, s, delta);
    let output = pre.shell.outputs[o];
    &&& motion_delivered(
        pre,
        post,
        s,
        position,
        spec_surface_under(
            position,
            position.minus(output.location),
            output,
            output.spec_geometry(),
            pre.shell.workspaces[0],
            pre.shell.windows@,
        ),
        serial,
        time,
        delivery,
    )
    &&& if o != spec_active_output(pre.seats[s], pre.shell.outputs@) {
        post.seats[s].active_output matches Some(a) && a.0@ == output.name@
    } else {
        post.seats[s].active_output == pre.seats[s].active_output
    }
}

/// What an absolute motion of seat `s` does: the position is taken within
/// the active output, which stays, and the motion is delivered with the
/// surface under the pointer as focus.
pub open spec fn absolute_motion(
    pre: CommonState,
    post: CommonState,
    s: int,
    within: Point,
    serial: Serial,
    time: u32,
    delivery: Delivery,
) -> bool {
    let output = pre.shell.outputs[spec_active_output(pre.seats[s], pre.shell.outputs@)];
    let position = output.location.plus(within);
    &&& motion_delivered(
        pre,
        post,
        s,
        position,
        spec_surface_under(
            position,
            position.minus(output.location),
            output,
            output.spec_geometry(),
            pre.shell.workspaces[0],
            pre.shell.windows@,
        ),
        serial,
        time,
        delivery,
    )
    &&& post.seats[s].active_output == pre.seats[s].active_output
}

/// The test that every button but `button` passes.
pub open spec fn other_than(button: u32) -> spec_fn(u32) -> bool {
    |b: u32| b != button
}

/// The buttons that are down after one went down or up.
pub open spec fn pressed_after(pressed: Seq<u32>, button: u32, state: ButtonState) -> Seq<u32> {
    match state {
        ButtonState::Pressed => pressed.push(button),
        ButtonState::Released => pressed.filter(other_than(button)),
    }
}

/// Whether a press changes the keyboard focus: neither the pointer nor the
/// keyboard is grabbed.
pub open spec fn press_focuses(seat: Seat, state: ButtonState) -> bool {
    state == ButtonState::Pressed && seat.pointer.grab is None && !seat.keyboard_grabbed
}

/// The keyboard focus a press of seat `s` gives: what is under the pointer
/// on the seat's active output.
pub open spec fn press_focus(pre: CommonState, s: int) -> Option<SurfaceId> {
    let seat = pre.seats[s];
    let output = pre.shell.outputs[spec_active_output(seat, pre.shell.outputs@)];
    spec_focus_under(
        seat.pointer.location,
        seat.pointer.location.minus(output.location),
        output,
        output.spec_geometry(),
        pre.shell.workspaces[0],
        pre.shell.windows@,
    )
}

/// The window table after a button event: a resize grab that ends on a live
/// window makes its last size the final proposal.
pub open spec fn windows_after_button(
    pre: Seq<Window>,
    post: Seq<Window>,
    grab: Option<PointerGrab>,
    ends: bool,
    serial: Serial,
) -> bool {
    match grab {
        Some(PointerGrab::Resize(g)) => if ends && window_alive(pre, g.window) {
            &&& only_changed(pre, post, g.window.0 as int)
            &&& post[g.window.0 as int].is_finished_resize_of(
                pre[g.window.0 as int],
                g.final_state(pre[g.window.0 as int]),
                serial,
            )
        } else {
            post == pre
        },
        _ => post == pre,
    }
}

/// What a button event of seat `s` does. A press without any grab first
/// moves the keyboard focus to what is under the pointer. Then the button
/// joins or leaves the buttons that are down, and a grab ends when none is
/// down any more. The button itself always goes on to the pointer's focus.
pub open spec fn button_delivered(
    pre: CommonState,
    post: CommonState,
    s: int,
    button: u32,
    state: ButtonState,
    serial: Serial,
    time: u32,
    delivery: Delivery,
) -> bool {
    let before = pre.seats[s];
    let grab = before.pointer.grab;
    let pressed = pressed_after(before.pointer.pressed@, button, state);
    let ends = grab is Some && pressed.len() == 0;
    &&& same_frame(pre, post)
    &&& other_seats_same(pre.seats@, post.seats@, s)
    &&& windows_after_button(pre.shell.windows@, post.shell.windows@, grab, ends, serial)
    &&& post.idle@ == idle_after(pre.idle@, grab, ends)
    &&& post.seats[s].pointer.pressed@ == pressed
    &&& post.seats[s] == (Seat {
        keyboard_focus: if press_focuses(before, state) {
            press_focus(pre, s)
        } else {
            before.keyboard_focus
        },
        pointer: PointerState {
            pressed: post.seats[s].pointer.pressed,
            grab: if ends { None } else { grab },
            ..before.pointer
        },
        ..before
    })
    &&& delivery matches Delivery::Button { seat, button: b, state: st, serial: sr, time: t }
    &&& seat == s
    &&& b == button
    &&& st == state
    &&& sr == serial
    &&& t == time
}

/// What a new device does: it joins the active seat with the capabilities
/// the seat supports, and the seat learns which of them it gained.
pub open spec fn device_added(
    pre: CommonState,
    post: CommonState,
    id: Seq<char>,
    reported: Seq<DeviceCapability>,
    delivery: Delivery,
) -> bool {
    let s = pre.last_active_seat as int;
    &&& post.shell == pre.shell
    &&& post.last_active_seat == pre.last_active_seat
    &&& post.should_stop == pre.should_stop
    &&& post.idle == pre.idle
    &&& other_seats_same(pre.seats@, post.seats@, s)
    &&& post.seats[s] == (Seat { devices: post.seats[s].devices, ..pre.seats[s] })
    &&& post.seats[s].devices@ == pre.seats[s].devices@.insert(id, supported(reported))
    &&& delivery matches Delivery::Gained { seat, capabilities }
    &&& seat == s
    &&& capabilities@ == supported(reported).filter(
        |c: DeviceCapability| !pre.seats[s].devices.capabilities().contains(c),
    )
}

/// What a device that went away does: it leaves the first seat that has
/// it, and the seat learns which capabilities it lost; a device that no seat
/// has changes nothing.
pub open spec fn device_removed(pre: CommonState, post: CommonState, id: Seq<char>, delivery: Delivery) -> bool {
    match seat_of_device(pre.seats@, id) {
        Some(s) => {
            &&& post.shell == pre.shell
            &&& post.last_active_seat == pre.last_active_seat
            &&& post.should_stop == pre.should_stop
                    &&& post.idle == pre.idle
            &&& other_seats_same(pre.seats@, post.seats@, s)
            &&& post.seats[s] == (Seat { devices: post.seats[s].devices, ..pre.seats[s] })
            &&& post.seats[s].devices@ == pre.seats[s].devices@.remove(id)
            &&& delivery matches Delivery::Lost { seat, capabilities }
            &&& seat == s
            &&& capabilities@ == pre.seats[s].devices@[id].filter(
                |c: DeviceCapability| !post.seats[s].devices.capabilities().contains(c),
            )
        },
        None => post == pre && delivery is Nothing,
    }
}

/// What dispatching an event does to the state, and what it leaves to the
/// protocol layer. A pointer event is handled for the first seat that has
/// the device, and ignored if there is none.
pub open spec fn processed(
    pre: CommonState,
    post: CommonState,
    event: InputEvent,
    serial: Serial,
    delivery: Delivery,
) -> bool {
    match event {
        InputEvent::DeviceAdded { info } => device_added(
            pre,
            post,
            info.id@,
            info.capabilities@,
            delivery,
        ),
        InputEvent::DeviceRemoved { device } => device_removed(pre, post, device@, delivery),
        InputEvent::Keyboard => post == pre && delivery is Nothing,
        InputEvent::PointerMotion { device, delta, time } => match seat_of_device(
            pre.seats@,
            device@,
        ) {
            Some(s) => relative_motion(pre, post, s, delta, serial, time, delivery),
            None => post == pre && delivery is Nothing,
        },
        InputEvent::PointerMotionAbsolute { device, position, time } => match seat_of_device(
            pre.seats@,
            device@,
        ) {
            Some(s) => absolute_motion(pre, post, s, position, serial, time, delivery),
            None => post == pre && delivery is Nothing,
        },
        InputEvent::PointerButton { device, button, state, time } => match seat_of_device(
            pre.seats@,
            device@,
        ) {
            Some(s) => button_delivered(pre, post, s, button, state, serial, time, delivery),
            None => post == pre && delivery is Nothing,
        },
        InputEvent::PointerAxis { device, time } => post == pre && match seat_of_device(
            pre.seats@,
            device@,
        ) {
            Some(s) => delivery matches Delivery::Axis { seat } && seat == s,
            None => delivery is Nothing,
        },
        InputEvent::Unhandled => post == pre && delivery is Nothing,
    }
}

/// Whether dispatching the event looks up an output: a motion does for the
/// seat that has the device, and so does a press that moves the keyboard
/// focus.
pub open spec fn needs_output(pre: CommonState, event: InputEvent) -> bool {
    match event {
        InputEvent::PointerMotion { device, .. } => seat_of_device(pre.seats@, device@) is Some,
        InputEvent::PointerMotionAbsolute { device, .. } => seat_of_device(
            pre.seats@,
            device@,
        ) is Some,
        InputEvent::PointerButton { device, state, .. } => seat_of_device(
            pre.seats@,
            device@,
        ) matches Some(s) && press_focuses(pre.seats[s], state),
        _ => false,
    }
}

/// The buttons but `button`.
pub fn retain_other_buttons(pressed: &Vec<u32>, button: u32) -> (kept: Vec<u32>)
    ensures
        kept@ == pressed@.filter(other_than(button)),
{
    let ghost pred = other_than(button);
    let mut kept: Vec<u32> = Vec::new();
    let mut i: usize = 0;
    proof {
        lemma_filter_start(pressed@, pred);
    }
    while i < pressed.len()
        invariant
            i <= pressed.len(),
            pred == other_than(button),
            kept@ == pressed@.take(i as int).filter(pred),
        decreases pressed.len() - i,
    {
        proof {
            lemma_filter_step(pressed@, pred, i as int);
        }
        if pressed[i] != button {
            kept.push(pressed[i]);
        }
        i += 1;
    }
    proof {
        lemma_filter_end(pressed@, pred);
    }
    kept
}

impl CommonState {
    /// Finds the first seat that has the device.
    pub fn find_seat_of_device(&self, device: &String) -> (r: Option<usize>)
        requires
            forall|i: int| 0 <= i < self.seats.len() ==> (#[trigger] self.seats[i]).wf(),
        ensures
            r is Some == seat_of_device(self.seats@, device@) is Some,
            r matches Some(s) ==> s < self.seats.len() && seat_of_device(self.seats@, device@) == Some(
                s as int,
            ) && self.seats[s as int].devices@.contains_key(device@),
    {
        let mut i: usize = 0;
        while i < self.seats.len()
            invariant
                i <= self.seats.len(),
                forall|i: int| 0 <= i < self.seats.len() ==> (#[trigger] self.seats[i]).wf(),
                seat_of_device_from(self.seats@, device@, 0) == seat_of_device_from(
                    self.seats@,
                    device@,
                    i as int,
                ),
            decreases self.seats.len() - i,
        {
            if self.seats[i].devices.has_device(device) {
                return Some(i);
            }
            i += 1;
        }
        None
    }

    fn add_device(&mut self, device: &DeviceInfo) -> (delivery: Delivery)
        requires
            old(self).wf(),
        ensures
            final(self).wf(),
            device_added(*old(self), *final(self), device.id@, device.capabilities@, delivery),
    {
        let s = self.last_active_seat;
        let gained = self.seats[s].devices.add_device(&device.id, &device.capabilities);
        Delivery::Gained { seat: s, capabilities: gained }
    }

    fn remove_device(&mut self, device: &String) -> (delivery: Delivery)
        requires
            old(self).wf(),
        ensures
            final(self).wf(),
            device_removed(*old(self), *final(self), device@, delivery),
    {
        match self.find_seat_of_device(device) {
            Some(s) => {
                let lost = self.seats[s].devices.remove_device(device);
                Delivery::Lost { seat: s, capabilities: lost }
            },
            None => Delivery::Nothing,
        }
    }

    /// Delivers a motion to the pointer of seat `s`, or to the grab that
    /// owns it.
    pub fn deliver_motion(
        &mut self,
        s: usize,
        position: Point,
        focus: Option<SurfaceHit>,
        serial: Serial,
        time: u32,
    ) -> (delivery: Delivery)
        requires
            old(self).wf(),
            s < old(self).seats.len(),
        ensures
            final(self).wf(),
            motion_delivered(
                *old(self),
                *final(self),
                s as int,
                position,
                focus,
                serial,
                time,
                delivery,
            ),
            final(self).seats[s as int].active_output == old(self).seats[s as int].active_output,
    {
        let grab = self.seats[s].pointer.grab;
        self.seats[s].pointer.location = position;
        let mut given: Option<SurfaceHit> = None;
        match grab {
            None => {
                given = focus;
            },
            Some(PointerGrab::Move(g)) => {
                if !g.motion(&self.shell.windows) {
                    self.idle.push(IdleTask::DropMove { seat: g.seat });
                    self.seats[s].pointer.grab = None;
                }
            },
            Some(PointerGrab::Resize(g)) => {
                let mut resize = g;
                if resize.motion(&mut self.shell.windows, position) {
                    self.seats[s].pointer.grab = Some(PointerGrab::Resize(resize));
                } else {
                    self.seats[s].pointer.grab = None;
                }
            },
        }
        self.seats[s].pointer.focus = given;
        proof {
            self.lemma_wf_after_grab_event(*old(self), s as int);
        }
        Delivery::Motion { seat: s, location: position, focus: given, serial, time }
    }

    /// The state stays in order over an event that a grab saw: the grab of
    /// seat `s` stays on its window or ends, the windows keep being alive
    /// or not, and a window's progress of a resize changes only where the
    /// grab of seat `s` ended on it.
    proof fn lemma_wf_after_grab_event(self, pre: CommonState, s: int)
        requires
            pre.wf(),
            0 <= s < pre.seats.len(),
            self.shell.wf(),
            self.last_active_seat == pre.last_active_seat,
            other_seats_same(pre.seats@, self.seats@, s),
            self.seats[s].devices == pre.seats[s].devices,
            self.seats[s].pointer.grab is None || crate::state::resized_window(self.seats[s])
                == crate::state::resized_window(pre.seats[s]),
            self.shell.windows.len() == pre.shell.windows.len(),
            forall|k: int|
                0 <= k < pre.shell.windows.len() ==> (#[trigger] self.shell.windows[k]).alive
                    == pre.shell.windows[k].alive,
            forall|k: int|
                0 <= k < pre.shell.windows.len() ==> (#[trigger] self.shell.windows[k]).resize_state
                    == pre.shell.windows[k].resize_state || (self.seats[s].pointer.grab is None
                    && crate::state::resized_window(pre.seats[s]) == Some(
                    crate::desktop::WindowId(k as usize),
                )),
        ensures
            self.wf(),
    {
        assert forall|i: int| 0 <= i < self.seats.len() implies (#[trigger] self.seats[i]).wf()
            && resize_in_step(self.seats[i], self.shell.windows@) by {
            if i != s {
                if crate::state::resized_window(self.seats[i]) is Some {
                    if i < s {
                        assert(crate::state::resized_window(pre.seats[i])
                            != crate::state::resized_window(pre.seats[s]));
                    } else {
                        assert(crate::state::resized_window(pre.seats[s]) is Some
                            ==> crate::state::resized_window(pre.seats[s])
                            != crate::state::resized_window(pre.seats[i]));
                    }
                }
            }
        }
        assert forall|i: int, j: int|
            0 <= i < j < self.seats.len() && crate::state::resized_window(
                #[trigger] self.seats[i],
            ) is Some implies crate::state::resized_window(self.seats[i])
            != crate::state::resized_window(#[trigger] self.seats[j]) by {
            assert(crate::state::resized_window(pre.seats[i]) is Some
                ==> crate::state::resized_window(pre.seats[i]) != crate::state::resized_window(
                pre.seats[j],
            ));
        }
    }

    fn pointer_motion(&mut self, s: usize, delta: Point, serial: Serial, time: u32) -> (delivery:
        Delivery)
        requires
            old(self).wf(),
            s < old(self).seats.len(),
            old(self).shell.outputs.len() > 0,
        ensures
            final(self).wf(),
            relative_motion(*old(self), *final(self), s as int, delta, serial, time, delivery),
    {
        let current = active_output_index(&self.seats[s], &self.shell.outputs);
        let wanted = self.seats[s].pointer.location.saturating_add(delta);
        let o = match find_output_containing(&self.shell.outputs, wanted) {
            Some(o) => o,
            None => current,
        };
        if o != current {
            crate::state::output::set_active_output(&mut self.seats[s], &self.shell.outputs[o]);
        }
        let geo = Rectangle { loc: self.shell.outputs[o].location, size: self.shell.outputs[o].size };
        let position = geo.clamp_point(wanted);
        let relative = self.shell.space_relative_output_geometry(position, &self.shell.outputs[o]);
        let under = surface_under(
            position,
            relative,
            &self.shell.outputs[o],
            geo,
            &self.shell.workspaces[0],
            &self.shell.windows,
        );
        let ghost mid = *self;
        proof {
            mid.lemma_wf_after_grab_event(*old(self), s as int);
        }
        self.deliver_motion(s, position, under, serial, time)
    }

    fn pointer_motion_absolute(&mut self, s: usize, within: Point, serial: Serial, time: u32) -> (delivery:
        Delivery)
        requires
            old(self).wf(),
            s < old(self).seats.len(),
            old(self).shell.outputs.len() > 0,
        ensures
            final(self).wf(),
            absolute_motion(*old(self), *final(self), s as int, within, serial, time, delivery),
    {
        let o = active_output_index(&self.seats[s], &self.shell.outputs);
        let geo = Rectangle { loc: self.shell.outputs[o].location, size: self.shell.outputs[o].size };
        let position = geo.loc.saturating_add(within);
        let relative = self.shell.space_relative_output_geometry(position, &self.shell.outputs[o]);
        let under = surface_under(
            position,
            relative,
            &self.shell.outputs[o],
            geo,
            &self.shell.workspaces[0],
            &self.shell.windows,
        );
        self.deliver_motion(s, position, under, serial, time)
    }

    fn pointer_button(
        &mut self,
        s: usize,
        button: u32,
        state: ButtonState,
        serial: Serial,
        time: u32,
    ) -> (delivery: Delivery)
        requires
            old(self).wf(),
            s < old(self).seats.len(),
            press_focuses(old(self).seats[s as int], state) ==> old(self).shell.outputs.len() > 0,
        ensures
            final(self).wf(),
            button_delivered(
                *old(self),
                *final(self),
                s as int,
                button,
                state,
                serial,
                time,
                delivery,
            ),
    {
        let grab = self.seats[s].pointer.grab;
        let is_press = match state {
            ButtonState::Pressed => true,
            ButtonState::Released => false,
        };
        if is_press && grab.is_none() && !self.seats[s].keyboard_grabbed {
            let o = active_output_index(&self.seats[s], &self.shell.outputs);
            let pos = self.seats[s].pointer.location;
            let geo = Rectangle {
                loc: self.shell.outputs[o].location,
                size: self.shell.outputs[o].size,
            };
            let relative = self.shell.space_relative_output_geometry(pos, &self.shell.outputs[o]);
            let under = focus_under(
                pos,
                relative,
                &self.shell.outputs[o],
                geo,
                &self.shell.workspaces[0],
                &self.shell.windows,
            );
            self.seats[s].keyboard_focus = under;
        }
        if is_press {
            self.seats[s].pointer.pressed.push(button);
        } else {
            let kept = retain_other_buttons(&self.seats[s].pointer.pressed, button);
            self.seats[s].pointer.pressed = kept;
        }
        let any_down = self.seats[s].pointer.pressed.len() > 0;
        match grab {
            None => {},
            Some(PointerGrab::Move(g)) => {
                if !g.button(any_down) {
                    self.idle.push(IdleTask::DropMove { seat: g.seat });
                    self.seats[s].pointer.grab = None;
                }
            },
            Some(PointerGrab::Resize(g)) => {
                let mut resize = g;
                if !resize.button(&mut self.shell.windows, any_down, serial) {
                    self.seats[s].pointer.grab = None;
                }
            },
        }
        proof {
            self.lemma_wf_after_grab_event(*old(self), s as int);
        }
        Delivery::Button { seat: s, button, state, serial, time }
    }

    /// Tests whether dispatching the event looks up an output.
    pub fn looks_up_output(&self, event: &InputEvent) -> (b: bool)
        requires
            forall|i: int| 0 <= i < self.seats.len() ==> (#[trigger] self.seats[i]).wf(),
        ensures
            b == needs_output(*self, *event),
    {
        match event {
            InputEvent::PointerMotion { device, .. } => self.find_seat_of_device(device).is_some(),
            InputEvent::PointerMotionAbsolute { device, .. } => self.find_seat_of_device(
                device,
            ).is_some(),
            InputEvent::PointerButton { device, state, .. } => {
                match self.find_seat_of_device(device) {
                    Some(s) => {
                        let press = match state {
                            ButtonState::Pressed => true,
                            ButtonState::Released => false,
                        };
                        press && self.seats[s].pointer.grab.is_none()
                            && !self.seats[s].keyboard_grabbed
                    },
                    None => false,
                }
            },
            _ => false,
        }
    }

    /// Dispatches one event of the input backend. The serial is the one
    /// that a motion or button passed on carries.
    pub fn process(&mut self, event: InputEvent, serial: Serial) -> (delivery: Delivery)
        requires
            old(self).wf(),
            needs_output(*old(self), event) ==> old(self).shell.outputs.len() > 0,
        ensures
            final(self).wf(),
            processed(*old(self), *final(self), event, serial, delivery),
    {
        match event {
            InputEvent::DeviceAdded { info } => self.add_device(&info),
            InputEvent::DeviceRemoved { device } => self.remove_device(&device),
            InputEvent::Keyboard => Delivery::Nothing,
            InputEvent::PointerMotion { device, delta, time } => {
                match self.find_seat_of_device(&device) {
                    Some(s) => self.pointer_motion(s, delta, serial, time),
                    None => Delivery::Nothing,
                }
            },
            InputEvent::PointerMotionAbsolute { device, position, time } => {
                match self.find_seat_of_device(&device) {
                    Some(s) => self.pointer_motion_absolute(s, position, serial, time),
                    None => Delivery::Nothing,
                }
            },
            InputEvent::PointerButton { device, button, state, time } => {
                match self.find_seat_of_device(&device) {
                    Some(s) => self.pointer_button(s, button, state, serial, time),
                    None => Delivery::Nothing,
                }
            },
            InputEvent::PointerAxis { device, time } => {
                match self.find_seat_of_device(&device) {
                    Some(s) => Delivery::Axis { seat: s },
                    None => Delivery::Nothing,
                }
            },
            InputEvent::Unhandled => Delivery::Nothing,
        }
    }
}

/// What running the oldest piece of work put off does: it leaves the queue,
/// and the move of its seat ends; a seat that is not there ends nothing.
pub open spec fn idle_dispatched(pre: CommonState, post: CommonState) -> bool {
    &&& post.last_active_seat == pre.last_active_seat
    &&& post.should_stop == pre.should_stop
    &&& post.idle@ == pre.idle@.remove(0)
    &&& pre.idle[0] matches IdleTask::DropMove { seat }
    &&& match crate::input::seat_with_id(pre.seats@, seat) {
        Some(s) => {
            &&& other_seats_same(pre.seats@, post.seats@, s)
            &&& crate::shell::Shell::move_dropped(
                (pre.shell, pre.seats[s]),
                (post.shell, post.seats[s]),
            )
        },
        None => post.shell == pre.shell && post.seats == pre.seats,
    }
}

impl CommonState {
    /// Runs the oldest piece of work that was put off to this turn of the
    /// event loop, and says whether there was one.
    pub fn dispatch_idle(&mut self) -> (ran: bool)
        requires
            old(self).wf(),
        ensures
            final(self).wf(),
            ran == (old(self).idle.len() > 0),
            if ran {
                idle_dispatched(*old(self), *final(self))
            } else {
                *final(self) == *old(self)
            },
    {
        if self.idle.len() == 0 {
            return false;
        }
        let task = self.idle.remove(0);
        match task {
            IdleTask::DropMove { seat } => {
                match crate::input::find_seat(&self.seats, seat) {
                    Some(s) => {
                        self.shell.drop_move(&mut self.seats[s]);
                        proof {
                            let pre = *old(self);
                            assert forall|k: int| 0 <= k < pre.shell.windows.len() implies (
                            #[trigger] self.shell.windows[k]).alive == pre.shell.windows[k].alive
                                && self.shell.windows[k].resize_state
                                == pre.shell.windows[k].resize_state by {}
                            self.lemma_wf_after_grab_event(pre, s as int);
                        }
                    },
                    None => {},
                }
            },
        }
        true
    }
}

impl<W> State<W> {
    /// Runs the oldest piece of work that was put off to this turn of the
    /// event loop, and says whether there was one.
    pub fn dispatch_idle(&mut self) -> (ran: bool)
        requires
            old(self).common.wf(),
        ensures
            final(self).common.wf(),
            final(self).backend == old(self).backend,
            ran == (old(self).common.idle.len() > 0),
            if ran {
                idle_dispatched(old(self).common, final(self).common)
            } else {
                final(self).common == old(self).common
            },
    {
        self.common.dispatch_idle()
    }

    /// Dispatches one event of the input backend: updates seats, pointer,
    /// grabs and windows, and says what the protocol layer is to pass on.
    /// The serial is the next of the protocol's counter; a motion or button
    /// that is passed on carries it, and so does a resize that ends.
    pub fn process_input_event(&mut self, event: InputEvent, serial: Serial) -> (delivery: Delivery)
        requires
            old(self).common.wf(),
            needs_output(old(self).common, event) ==> old(self).common.shell.outputs.len() > 0,
        ensures
            final(self).common.wf(),
            final(self).backend == old(self).backend,
            processed(old(self).common, final(self).common, event, serial, delivery),
    {
        self.common.process(event, serial)
    }

    /// Resolves the surface under the pointer, with the surface's origin in
    /// global coordinates.
    pub fn surface_under(
        global_pos: Point,
        relative_pos: Point,
        output: &Output,
        output_geo: Rectangle,
        workspace: &crate::shell::workspace::Workspace,
        windows: &Vec<Window>,
    ) -> (hit: Option<SurfaceHit>)
        ensures
            hit == spec_surface_under(
                global_pos,
                relative_pos,
                *output,
                output_geo,
                *workspace,
                windows@,
            ),
    {
        surface_under(global_pos, relative_pos, output, output_geo, workspace, windows)
    }
}

} // verus!
