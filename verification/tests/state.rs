use calloop::channel::channel;
use electrum::desktop::{
    KeyboardInteractivity, Layer, LayerSurface, Output, SurfaceId, SurfaceRegion,
};
use electrum::input::{add_seat, find_seat, CursorImageStatus, SeatId, SupressedKeys};
use electrum::runtime::messages::RuntimeMessage;
use electrum::state::data_device::{dropped, started, DnDIcon};
use electrum::state::output::{
    active_output, active_output_index, set_active_output, ActiveOutput, OutputExt,
};
use electrum::state::seat::SeatExt;
use electrum::state::{BackendData, State};
use electrum::utils::{Point, Rectangle, Size};

fn rect(x: i32, y: i32, w: i32, h: i32) -> Rectangle {
    Rectangle::from_loc_and_size(Point::new(x, y), Size::new(w, h))
}

fn output(name: &str, x: i32) -> Output {
    Output::new(name.to_string(), Point::new(x, 0), Size::new(1920, 1080), Size::new(1920, 1080))
}

fn state() -> State<u32> {
    let (tx, _rx) = channel::<RuntimeMessage>();
    State::new(tx)
}

#[test]
fn the_state_starts_with_one_seat_and_no_backend() {
    let state = state();
    assert!(matches!(state.backend, BackendData::Unset));
    assert_eq!(state.common.seats.len(), 1);
    assert_eq!(state.common.seats[0].name, "seat-0");
    assert_eq!(state.common.seats[0].id(), 0);
    assert_eq!(state.common.last_active_seat, 0);
    assert!(!state.common.should_stop);
    assert!(state.common.idle.is_empty());
    assert_eq!(state.common.shell.workspaces.len(), 1);
    assert!(state.common.shell.outputs.is_empty());
    let _client = state.new_client_state();
}

#[test]
fn the_windowed_backend_hands_out_its_state() {
    let mut backend: BackendData<u32> = BackendData::Winit(5);
    *backend.winit() += 1;
    assert!(matches!(backend, BackendData::Winit(6)));
}

#[test]
fn a_new_seat_is_empty() {
    let seat = add_seat(SeatId(3), "aux".to_string());
    assert_eq!(seat.id, SeatId(3));
    assert_eq!(seat.id(), 3);
    assert_eq!(seat.name, "aux");
    assert!(seat.devices.entries.is_empty());
    assert!(seat.suppressed_keys.0.is_empty());
    assert_eq!(seat.move_grab_state, None);
    assert_eq!(seat.cursor_status, CursorImageStatus::Default);
    assert_eq!(seat.dnd_icon, DnDIcon { surface: None });
    assert!(seat.active_output.is_none());
    assert_eq!(seat.pointer.location, Point::new(0, 0));
    assert!(seat.pointer.grab.is_none());
    assert_eq!(seat.keyboard_focus, None);
    assert!(!seat.keyboard_grabbed);
    assert!(SupressedKeys::default().0.is_empty());
}

#[test]
fn seats_are_found_by_identity() {
    let seats = vec![
        add_seat(SeatId(4), "a".to_string()),
        add_seat(SeatId(2), "b".to_string()),
        add_seat(SeatId(4), "c".to_string()),
    ];
    assert_eq!(find_seat(&seats, SeatId(2)), Some(1));
    assert_eq!(find_seat(&seats, SeatId(4)), Some(0));
    assert_eq!(find_seat(&seats, SeatId(0)), None);
}

#[test]
fn output_geometry_is_origin_and_size() {
    let out = Output::new("o".to_string(), Point::new(1920, 40), Size::new(1080, 1920), Size::new(1920, 1080));
    assert_eq!(out.geometry(), rect(1920, 40, 1080, 1920));
}

#[test]
fn active_output_defaults_to_the_first_output() {
    let mut state = state();
    state.common.shell.add_output(output("a", 0));
    state.common.shell.add_output(output("b", 1920));
    let seat = add_seat(SeatId(1), "s".to_string());
    assert_eq!(active_output(&seat, &state.common).name, "a");
    assert_eq!(active_output_index(&seat, &state.common.shell.outputs), 0);
}

#[test]
fn set_active_output_overwrites_the_cache() {
    let mut state = state();
    state.common.shell.add_output(output("a", 0));
    state.common.shell.add_output(output("b", 1920));
    let mut seat = add_seat(SeatId(1), "s".to_string());
    set_active_output(&mut seat, &state.common.shell.outputs[1]);
    assert_eq!(active_output(&seat, &state.common).name, "b");
    set_active_output(&mut seat, &state.common.shell.outputs[0]);
    assert_eq!(active_output(&seat, &state.common).name, "a");
    assert_eq!(seat.name, "s");
}

#[test]
fn a_cached_output_that_is_gone_counts_as_unset() {
    let mut state = state();
    state.common.shell.add_output(output("a", 0));
    state.common.shell.add_output(output("b", 1920));
    let mut seat = add_seat(SeatId(1), "s".to_string());
    seat.active_output = Some(ActiveOutput("b".to_string()));
    state.common.shell.remove_output(&"b".to_string());
    assert_eq!(active_output(&seat, &state.common).name, "a");
}

#[test]
fn a_layer_surface_waits_for_its_output_or_the_active_one() {
    let mut state = state();
    state.common.shell.add_output(output("a", 0));
    state.common.shell.add_output(output("b", 1920));
    let layer = |surface: u64| LayerSurface {
        alive: true,
        surface: SurfaceId(surface),
        layer: Layer::Top,
        geometry: rect(0, 0, 10, 10),
        keyboard_interactivity: KeyboardInteractivity::Never,
        surfaces: vec![SurfaceRegion { surface: SurfaceId(surface), area: rect(0, 0, 10, 10) }],
    };
    state.new_layer_surface(layer(1), Some("b".to_string()));
    state.new_layer_surface(layer(2), None);
    state.common.seats[0].active_output = Some(ActiveOutput("b".to_string()));
    state.new_layer_surface(layer(3), None);

    let pending = &state.common.shell.pending_layers;
    assert_eq!(pending.len(), 3);
    assert_eq!((pending[0].layer.surface, pending[0].output.as_str()), (SurfaceId(1), "b"));
    assert_eq!((pending[1].layer.surface, pending[1].output.as_str()), (SurfaceId(2), "a"));
    assert_eq!((pending[2].layer.surface, pending[2].output.as_str()), (SurfaceId(3), "b"));
    assert_eq!(pending[2].seat, SeatId(0));
}

#[test]
fn a_drag_icon_is_set_and_cleared() {
    let mut seat = add_seat(SeatId(0), "s".to_string());
    started(Some(SurfaceId(9)), &mut seat);
    assert_eq!(seat.dnd_icon, DnDIcon { surface: Some(SurfaceId(9)) });
    started(None, &mut seat);
    assert_eq!(seat.dnd_icon, DnDIcon { surface: None });
    started(Some(SurfaceId(9)), &mut seat);
    dropped(&mut seat);
    assert_eq!(seat.dnd_icon, DnDIcon { surface: None });
}
