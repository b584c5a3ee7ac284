use calloop::channel::channel;
use electrum::desktop::{
    KeyboardInteractivity, Layer, LayerSurface, Output, SurfaceHit, SurfaceId, SurfaceRegion,
    Window, WindowId,
};
use electrum::input::{focus_under, surface_under};
use electrum::runtime::messages::RuntimeMessage;
use electrum::shell::workspace::Workspace;
use electrum::utils::{Point, Rectangle, Size};

fn rect(x: i32, y: i32, w: i32, h: i32) -> Rectangle {
    Rectangle::from_loc_and_size(Point::new(x, y), Size::new(w, h))
}

fn layer(surface: u64, band: Layer, geometry: Rectangle, focus: KeyboardInteractivity) -> LayerSurface {
    LayerSurface {
        alive: true,
        surface: SurfaceId(surface),
        layer: band,
        geometry,
        keyboard_interactivity: focus,
        surfaces: vec![SurfaceRegion {
            surface: SurfaceId(surface),
            area: rect(0, 0, geometry.size.w, geometry.size.h),
        }],
    }
}

fn output_at(x: i32) -> Output {
    Output::new("out".to_string(), Point::new(x, 0), Size::new(1920, 1080), Size::new(1920, 1080))
}

fn workspace() -> Workspace {
    let (tx, _rx) = channel::<RuntimeMessage>();
    let mut ws = Workspace::new(0, tx);
    ws.space.map_output(&"out".to_string());
    ws
}

fn window(id: usize, w: i32, h: i32) -> Window {
    Window::new(WindowId(id), SurfaceId(100 + id as u64), rect(0, 0, w, h))
}

fn hit(surface: u64, x: i32, y: i32) -> Option<SurfaceHit> {
    Some(SurfaceHit { surface: SurfaceId(surface), location: Point::new(x, y) })
}

/// One fullscreen window, one overlay layer surface and one floating window,
/// all under the point 100,100 of an output at the origin.
fn crowded() -> (Output, Workspace, Vec<Window>) {
    let mut out = output_at(0);
    out.layer_map.map_layer(layer(1, Layer::Overlay, rect(50, 50, 200, 200), KeyboardInteractivity::Never));
    let mut ws = workspace();
    let mut windows = vec![window(0, 1920, 1080), window(1, 400, 400)];
    ws.space.map_window(WindowId(0), Point::new(0, 0), 31);
    ws.space.map_window(WindowId(1), Point::new(20, 20), 31);
    let (full, _) = windows.split_at_mut(1);
    ws.fullscreen_request(&mut full[0], &out);
    (out, ws, windows)
}

#[test]
fn overlay_layer_wins_over_fullscreen_and_floating_windows() {
    let (out, ws, windows) = crowded();
    let p = Point::new(100, 100);
    assert_eq!(
        surface_under(p, p, &out, rect(0, 0, 1920, 1080), &ws, &windows),
        hit(1, 50, 50)
    );
}

#[test]
fn fullscreen_window_hides_floating_windows_and_lower_layers() {
    let (mut out, ws, windows) = crowded();
    out.layer_map.map_layer(layer(2, Layer::Bottom, rect(0, 0, 1920, 1080), KeyboardInteractivity::Never));
    // outside of the overlay, over the floating window: the fullscreen window answers
    let p = Point::new(300, 300);
    assert_eq!(
        surface_under(p, p, &out, rect(0, 0, 1920, 1080), &ws, &windows),
        hit(100, 0, 0)
    );
}

#[test]
fn top_layer_is_checked_after_overlay() {
    let mut out = output_at(0);
    out.layer_map.map_layer(layer(1, Layer::Top, rect(0, 0, 1920, 30), KeyboardInteractivity::Never));
    out.layer_map.map_layer(layer(2, Layer::Overlay, rect(0, 0, 100, 30), KeyboardInteractivity::Never));
    let ws = workspace();
    let windows: Vec<Window> = Vec::new();
    let geo = rect(0, 0, 1920, 1080);
    assert_eq!(surface_under(Point::new(10, 10), Point::new(10, 10), &out, geo, &ws, &windows), hit(2, 0, 0));
    assert_eq!(surface_under(Point::new(500, 10), Point::new(500, 10), &out, geo, &ws, &windows), hit(1, 0, 0));
}

#[test]
fn most_recently_mapped_layer_surface_of_a_band_wins() {
    let mut out = output_at(0);
    out.layer_map.map_layer(layer(1, Layer::Overlay, rect(0, 0, 100, 100), KeyboardInteractivity::Never));
    out.layer_map.map_layer(layer(2, Layer::Overlay, rect(50, 50, 100, 100), KeyboardInteractivity::Never));
    let ws = workspace();
    let windows: Vec<Window> = Vec::new();
    let geo = rect(0, 0, 1920, 1080);
    let p = Point::new(60, 60);
    assert_eq!(surface_under(p, p, &out, geo, &ws, &windows), hit(2, 50, 50));
    assert_eq!(out.layer_map.layer_under(Layer::Overlay, p), Some(1));
    assert_eq!(out.layer_map.layer_under(Layer::Overlay, Point::new(10, 10)), Some(0));
    assert_eq!(out.layer_map.layer_under(Layer::Top, p), None);
}

#[test]
fn floating_windows_come_before_bottom_and_background() {
    let mut out = output_at(0);
    out.layer_map.map_layer(layer(1, Layer::Background, rect(0, 0, 1920, 1080), KeyboardInteractivity::Never));
    out.layer_map.map_layer(layer(2, Layer::Bottom, rect(0, 1000, 1920, 80), KeyboardInteractivity::Never));
    let mut ws = workspace();
    let windows = vec![window(0, 400, 400)];
    ws.space.map_window(WindowId(0), Point::new(100, 900), 31);
    let geo = rect(0, 0, 1920, 1080);

    let over_all = Point::new(150, 1010);
    assert_eq!(surface_under(over_all, over_all, &out, geo, &ws, &windows), hit(100, 100, 900));
    let over_bottom = Point::new(900, 1010);
    assert_eq!(surface_under(over_bottom, over_bottom, &out, geo, &ws, &windows), hit(2, 0, 1000));
    let over_background = Point::new(900, 500);
    assert_eq!(surface_under(over_background, over_background, &out, geo, &ws, &windows), hit(1, 0, 0));
}

#[test]
fn nothing_under_the_pointer_gives_no_target() {
    let out = output_at(0);
    let ws = workspace();
    let windows: Vec<Window> = Vec::new();
    let p = Point::new(5, 5);
    assert_eq!(surface_under(p, p, &out, rect(0, 0, 1920, 1080), &ws, &windows), None);
    assert_eq!(focus_under(p, p, &out, rect(0, 0, 1920, 1080), &ws, &windows), None);
}

#[test]
fn picked_layer_that_does_not_answer_blocks_what_is_below() {
    let mut out = output_at(0);
    // a layer surface whose input area covers only its left half
    let mut l = layer(1, Layer::Top, rect(0, 0, 200, 200), KeyboardInteractivity::Never);
    l.surfaces = vec![SurfaceRegion { surface: SurfaceId(1), area: rect(0, 0, 100, 200) }];
    out.layer_map.map_layer(l);
    let mut ws = workspace();
    let windows = vec![window(0, 400, 400)];
    ws.space.map_window(WindowId(0), Point::new(0, 0), 31);
    let p = Point::new(150, 50);
    assert_eq!(surface_under(p, p, &out, rect(0, 0, 1920, 1080), &ws, &windows), None);
    let q = Point::new(250, 50);
    assert_eq!(surface_under(q, q, &out, rect(0, 0, 1920, 1080), &ws, &windows), hit(100, 0, 0));
}

#[test]
fn offsets_are_global_on_an_output_away_from_the_origin() {
    let mut out = output_at(1920);
    out.layer_map.map_layer(layer(1, Layer::Top, rect(0, 0, 1920, 30), KeyboardInteractivity::Never));
    let mut ws = workspace();
    let windows = vec![window(0, 400, 400)];
    ws.space.map_window(WindowId(0), Point::new(100, 100), 31);
    let geo = rect(1920, 0, 1920, 1080);

    // the layer surface: layer origin plus output origin
    let global = Point::new(1930, 10);
    let relative = Point::new(10, 10);
    assert_eq!(surface_under(global, relative, &out, geo, &ws, &windows), hit(1, 1920, 0));

    // the window: its place in the space plus what global and relative differ by
    let global = Point::new(2100, 200);
    let relative = Point::new(180, 200);
    assert_eq!(surface_under(global, relative, &out, geo, &ws, &windows), hit(100, 2020, 100));
}

#[test]
fn fullscreen_window_hit_is_offset_by_the_output_origin() {
    let out = output_at(1920);
    let mut ws = workspace();
    let mut windows = vec![window(0, 1920, 1080)];
    ws.fullscreen_request(&mut windows[0], &out);
    let geo = rect(1920, 0, 1920, 1080);
    let global = Point::new(2000, 100);
    let relative = Point::new(80, 100);
    assert_eq!(surface_under(global, relative, &out, geo, &ws, &windows), hit(100, 1920, 0));
    assert_eq!(focus_under(global, relative, &out, geo, &ws, &windows), Some(SurfaceId(100)));
}

#[test]
fn focus_goes_to_the_root_surface_of_the_topmost_window() {
    let out = output_at(0);
    let mut ws = workspace();
    let mut w = window(0, 400, 400);
    // a popup on top of the root surface
    w.surfaces.insert(0, SurfaceRegion { surface: SurfaceId(77), area: rect(10, 10, 50, 50) });
    let windows = vec![w, window(1, 400, 400)];
    ws.space.map_window(WindowId(1), Point::new(300, 300), 31);
    ws.space.map_window(WindowId(0), Point::new(0, 0), 31);
    let geo = rect(0, 0, 1920, 1080);
    let p = Point::new(20, 20);
    assert_eq!(surface_under(p, p, &out, geo, &ws, &windows), hit(77, 10, 10));
    assert_eq!(focus_under(p, p, &out, geo, &ws, &windows), Some(SurfaceId(100)));
    let q = Point::new(350, 350);
    assert_eq!(focus_under(q, q, &out, geo, &ws, &windows), Some(SurfaceId(100)));
    let r = Point::new(450, 450);
    assert_eq!(focus_under(r, r, &out, geo, &ws, &windows), Some(SurfaceId(101)));
}

#[test]
fn focus_skips_layer_surfaces_that_cannot_take_the_keyboard() {
    let mut out = output_at(0);
    out.layer_map.map_layer(layer(1, Layer::Top, rect(0, 0, 1920, 30), KeyboardInteractivity::Never));
    out.layer_map.map_layer(layer(2, Layer::Overlay, rect(0, 0, 300, 300), KeyboardInteractivity::OnDemand));
    let mut ws = workspace();
    let windows = vec![window(0, 1000, 1000)];
    ws.space.map_window(WindowId(0), Point::new(0, 0), 31);
    let geo = rect(0, 0, 1920, 1080);

    // the pointer sees the panel; the keyboard goes to the window below it
    let p = Point::new(500, 10);
    assert_eq!(surface_under(p, p, &out, geo, &ws, &windows), hit(1, 0, 0));
    assert_eq!(focus_under(p, p, &out, geo, &ws, &windows), Some(SurfaceId(100)));

    // a layer surface that asks for the keyboard gets it
    let q = Point::new(100, 100);
    assert_eq!(focus_under(q, q, &out, geo, &ws, &windows), Some(SurfaceId(2)));
}

#[test]
fn focus_over_a_fullscreen_window_considers_only_the_overlay_band() {
    let mut out = output_at(0);
    out.layer_map.map_layer(layer(1, Layer::Top, rect(0, 0, 1920, 30), KeyboardInteractivity::Exclusive));
    out.layer_map.map_layer(layer(2, Layer::Overlay, rect(0, 500, 100, 100), KeyboardInteractivity::Exclusive));
    let mut ws = workspace();
    let mut windows = vec![window(0, 1920, 1080)];
    ws.fullscreen_request(&mut windows[0], &out);
    let geo = rect(0, 0, 1920, 1080);
    // on the top panel: the pointer gets the panel, the focus the window
    let p = Point::new(500, 10);
    assert_eq!(surface_under(p, p, &out, geo, &ws, &windows), hit(1, 0, 0));
    assert_eq!(focus_under(p, p, &out, geo, &ws, &windows), Some(SurfaceId(100)));
    let q = Point::new(50, 550);
    assert_eq!(focus_under(q, q, &out, geo, &ws, &windows), Some(SurfaceId(2)));
}

#[test]
fn focus_looks_up_the_lower_bands_at_the_global_position() {
    // on an output away from the origin the two lookups differ: the pointer
    // finds the bottom layer surface at the relative position, the focus
    // looks for it at the global one
    let mut out = output_at(1920);
    out.layer_map.map_layer(layer(1, Layer::Bottom, rect(0, 0, 100, 100), KeyboardInteractivity::Exclusive));
    let ws = workspace();
    let windows: Vec<Window> = Vec::new();
    let geo = rect(1920, 0, 1920, 1080);
    let global = Point::new(1930, 10);
    let relative = Point::new(10, 10);
    assert_eq!(surface_under(global, relative, &out, geo, &ws, &windows), hit(1, 1920, 0));
    assert_eq!(focus_under(global, relative, &out, geo, &ws, &windows), None);

    // on an output at the origin they agree
    let mut out = output_at(0);
    out.layer_map.map_layer(layer(1, Layer::Bottom, rect(0, 0, 100, 100), KeyboardInteractivity::Exclusive));
    let p = Point::new(10, 10);
    assert_eq!(focus_under(p, p, &out, rect(0, 0, 1920, 1080), &ws, &windows), Some(SurfaceId(1)));
}

#[test]
fn layer_surface_focus_wishes() {
    let top = layer(1, Layer::Top, rect(0, 0, 1, 1), KeyboardInteractivity::OnDemand);
    let bottom = layer(2, Layer::Bottom, rect(0, 0, 1, 1), KeyboardInteractivity::Exclusive);
    let mute = layer(3, Layer::Overlay, rect(0, 0, 1, 1), KeyboardInteractivity::Never);
    assert!(top.can_receive_keyboard_focus() && top.wants_focus());
    assert!(bottom.can_receive_keyboard_focus() && !bottom.wants_focus());
    assert!(!mute.can_receive_keyboard_focus() && !mute.wants_focus());
}

#[test]
fn layer_surfaces_that_are_gone_are_not_hit_and_are_cleaned_up() {
    let mut out = output_at(0);
    out.layer_map.map_layer(layer(1, Layer::Overlay, rect(0, 0, 100, 100), KeyboardInteractivity::Exclusive));
    out.layer_map.map_layer(layer(2, Layer::Overlay, rect(0, 0, 100, 100), KeyboardInteractivity::Exclusive));
    out.layer_map.map_layer(layer(3, Layer::Top, rect(0, 0, 100, 100), KeyboardInteractivity::Exclusive));
    out.layer_map.layers[1].alive = false;
    let ws = workspace();
    let windows: Vec<Window> = Vec::new();
    let geo = rect(0, 0, 1920, 1080);
    let p = Point::new(10, 10);
    assert_eq!(surface_under(p, p, &out, geo, &ws, &windows), hit(1, 0, 0));
    assert_eq!(focus_under(p, p, &out, geo, &ws, &windows), Some(SurfaceId(1)));

    let zone = out.layer_map.non_exclusive_zone();
    out.layer_map.cleanup();
    let left: Vec<SurfaceId> = out.layer_map.layers.iter().map(|l| l.surface).collect();
    assert_eq!(left, vec![SurfaceId(1), SurfaceId(3)]);
    assert_eq!(out.layer_map.non_exclusive_zone(), zone);
}
