use calloop::channel::channel;
use electrum::desktop::{Output, SurfaceId, WindowId};
use electrum::input::devices::{distinct_capabilities, DeviceCapability, DeviceEntry, Devices};
use electrum::input::{add_seat, PointerGrab, PointerGrabStartData, SeatId};
use electrum::runtime::messages::RuntimeMessage;
use electrum::shell::layout::grab::{ResizeEdge, ResizeState, ResizeSurfaceGrab, EDGE_RIGHT};
use electrum::shell::workspace::{FullscreenSlot, Workspace};
use electrum::shell::{PendingLayer, PendingWindow, Shell};
use electrum::state::State;
use electrum::utils::{Point, Rectangle, Size};

fn rect(w: i32, h: i32) -> Rectangle {
    Rectangle::from_loc_and_size(Point::new(0, 0), Size::new(w, h))
}

fn state() -> State<()> {
    let (tx, _rx) = channel::<RuntimeMessage>();
    let mut state: State<()> = State::new(tx);
    state.common.shell.add_output(Output::new(
        "a".to_string(),
        Point::new(0, 0),
        Size::new(1920, 1080),
        Size::new(1920, 1080),
    ));
    state
}

fn start() -> PointerGrabStartData {
    PointerGrabStartData { focus: None, button: 272, location: Point::new(0, 0) }
}

#[test]
fn registry_with_a_device_or_a_capability_twice_is_out_of_order() {
    let mut devices = Devices::new();
    assert!(devices.in_order());
    devices.add_device(&"a".to_string(), &vec![DeviceCapability::Keyboard, DeviceCapability::Keyboard]);
    devices.add_device(&"b".to_string(), &vec![DeviceCapability::Pointer]);
    assert!(devices.in_order());

    devices.entries.push(DeviceEntry { id: "a".to_string(), caps: vec![] });
    assert!(!devices.in_order());
    devices.entries.pop();
    assert!(devices.in_order());

    devices.entries[1].caps.push(DeviceCapability::Pointer);
    assert!(!devices.in_order());
}

#[test]
fn capability_lists_are_tested_for_repetitions() {
    assert!(distinct_capabilities(&vec![]));
    assert!(distinct_capabilities(&vec![DeviceCapability::Keyboard, DeviceCapability::Pointer]));
    assert!(!distinct_capabilities(&vec![
        DeviceCapability::Keyboard,
        DeviceCapability::Pointer,
        DeviceCapability::Keyboard
    ]));
}

#[test]
fn workspace_with_shared_slots_is_out_of_order() {
    let (tx, _rx) = channel::<RuntimeMessage>();
    let mut ws = Workspace::new(0, tx);
    assert!(ws.in_order());
    ws.fullscreen.push(FullscreenSlot { output: "a".to_string(), window: WindowId(0) });
    ws.fullscreen.push(FullscreenSlot { output: "b".to_string(), window: WindowId(1) });
    assert!(ws.in_order());
    assert!(ws.is_fullscreen(WindowId(1)));
    assert!(!ws.is_fullscreen(WindowId(2)));

    // one output, two windows
    ws.fullscreen.push(FullscreenSlot { output: "a".to_string(), window: WindowId(2) });
    assert!(!ws.in_order());
    ws.fullscreen.pop();

    // one window, two outputs
    ws.fullscreen.push(FullscreenSlot { output: "c".to_string(), window: WindowId(1) });
    assert!(!ws.in_order());
    ws.fullscreen.pop();

    ws.layer.windows.push(WindowId(3));
    ws.layer.windows.push(WindowId(3));
    assert!(!ws.layer_in_order());
    assert!(!ws.in_order());
}

#[test]
fn shell_without_a_workspace_is_out_of_order() {
    let (tx, _rx) = channel::<RuntimeMessage>();
    let mut shell = Shell::new(tx);
    assert!(shell.in_order());
    shell.workspaces[0].layer.windows = vec![WindowId(1), WindowId(1)];
    assert!(!shell.in_order());
    shell.workspaces.clear();
    assert!(!shell.in_order());
}

#[test]
fn state_is_in_order_from_the_start() {
    let mut state = state();
    assert!(state.common.in_order());
    state.common.last_active_seat = 1;
    assert!(!state.common.in_order());
    state.common.last_active_seat = 0;
    state.common.seats[0].devices.entries.push(DeviceEntry { id: "x".to_string(), caps: vec![] });
    state.common.seats[0].devices.entries.push(DeviceEntry { id: "x".to_string(), caps: vec![] });
    assert!(!state.common.in_order());
}

#[test]
fn resize_grab_out_of_step_with_its_window_is_out_of_order() {
    let mut state = state();
    let id = state.common.shell.add_window(SurfaceId(1), rect(400, 300));
    let grab = ResizeSurfaceGrab::new(
        start(),
        &mut state.common.shell.windows[id.0],
        Point::new(0, 0),
        ResizeEdge { bits: EDGE_RIGHT },
    );
    state.common.seats[0].pointer.grab = Some(PointerGrab::Resize(grab));
    assert!(state.common.in_order());

    state.common.shell.windows[id.0].resize_state = ResizeState::NotResizing;
    assert!(!state.common.in_order());

    // a window that is gone need not be in step
    state.common.shell.windows[id.0].alive = false;
    assert!(state.common.in_order());
}

#[test]
fn two_seats_resizing_one_window_are_out_of_order() {
    let mut state = state();
    state.common.seats.push(add_seat(SeatId(1), "seat-1".to_string()));
    let id = state.common.shell.add_window(SurfaceId(1), rect(400, 300));
    let other = state.common.shell.add_window(SurfaceId(2), rect(400, 300));
    let grab = ResizeSurfaceGrab::new(
        start(),
        &mut state.common.shell.windows[id.0],
        Point::new(0, 0),
        ResizeEdge { bits: EDGE_RIGHT },
    );
    let second = ResizeSurfaceGrab::new(
        start(),
        &mut state.common.shell.windows[other.0],
        Point::new(0, 0),
        ResizeEdge { bits: EDGE_RIGHT },
    );
    state.common.seats[0].pointer.grab = Some(PointerGrab::Resize(grab));
    state.common.seats[1].pointer.grab = Some(PointerGrab::Resize(second));
    assert!(state.common.in_order());
    state.common.seats[1].pointer.grab = Some(PointerGrab::Resize(grab));
    assert!(!state.common.in_order());
}

#[test]
fn pending_windows_and_layers_are_found() {
    let (tx, _rx) = channel::<RuntimeMessage>();
    let mut shell = Shell::new(tx);
    assert!(!shell.has_pending_window(WindowId(0)));
    assert!(!shell.has_pending_layer(SurfaceId(4)));
    shell.pending_windows.push(PendingWindow { window: WindowId(3), seat: SeatId(0) });
    shell.pending_layers.push(PendingLayer {
        layer: electrum::desktop::LayerSurface {
            alive: true,
            surface: SurfaceId(4),
            layer: electrum::desktop::Layer::Top,
            geometry: rect(1, 1),
            keyboard_interactivity: electrum::desktop::KeyboardInteractivity::Never,
            surfaces: vec![],
        },
        output: "a".to_string(),
        seat: SeatId(0),
    });
    assert!(shell.has_pending_window(WindowId(3)));
    assert!(!shell.has_pending_window(WindowId(4)));
    assert!(shell.has_pending_layer(SurfaceId(4)));
    assert!(!shell.has_pending_layer(SurfaceId(3)));
}

#[test]
fn seat_of_a_device_is_the_first_that_has_it() {
    let mut state = state();
    state.common.seats.push(add_seat(SeatId(1), "seat-1".to_string()));
    state.common.seats[1].devices.add_device(&"mouse".to_string(), &vec![DeviceCapability::Pointer]);
    assert_eq!(state.common.find_seat_of_device(&"mouse".to_string()), Some(1));
    state.common.seats[0].devices.add_device(&"mouse".to_string(), &vec![DeviceCapability::Pointer]);
    assert_eq!(state.common.find_seat_of_device(&"mouse".to_string()), Some(0));
    assert_eq!(state.common.find_seat_of_device(&"kbd".to_string()), None);
}
