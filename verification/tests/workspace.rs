use calloop::channel::{channel, Channel};
use electrum::desktop::{Output, SurfaceId, Window, WindowId};
use electrum::input::{PointerGrabStartData, SeatId};
use electrum::runtime::messages::{PolicyError, RuntimeMessage};
use electrum::shell::layout::grab::{ResizeEdge, EDGE_BOTTOM_RIGHT};
use electrum::shell::workspace::Workspace;
use electrum::utils::{Point, Rectangle, Serial, Size};

fn output(name: &str, w: i32, h: i32) -> Output {
    Output::new(name.to_string(), Point::new(0, 0), Size::new(w, h), Size::new(w, h))
}

fn window(id: usize) -> Window {
    Window::new(
        WindowId(id),
        SurfaceId(100 + id as u64),
        Rectangle::from_loc_and_size(Point::new(0, 0), Size::new(800, 600)),
    )
}

fn workspace() -> (Workspace, Channel<RuntimeMessage>) {
    let (tx, rx) = channel::<RuntimeMessage>();
    let mut ws = Workspace::new(0, tx);
    ws.space.map_output(&"a".to_string());
    ws.space.map_output(&"b".to_string());
    (ws, rx)
}

#[test]
fn second_fullscreen_request_for_an_output_is_ignored() {
    let (mut ws, _rx) = workspace();
    let out = output("a", 1920, 1080);
    let mut windows = vec![window(0), window(1)];

    ws.fullscreen_request(&mut windows[0], &out);
    ws.fullscreen_request(&mut windows[1], &out);

    assert_eq!(ws.fullscreen.len(), 1);
    assert_eq!(ws.fullscreen[0].output, "a");
    assert_eq!(ws.fullscreen[0].window, WindowId(0));
    assert_eq!(ws.get_fullscreen(&out, &windows), Some(WindowId(0)));
    assert!(windows[0].pending.fullscreen);
    assert_eq!(windows[0].pending.size, Some(Size::new(1920, 1080)));
    assert_eq!(windows[0].configures.len(), 1);
    // the second window was told nothing
    assert!(!windows[1].pending.fullscreen);
    assert_eq!(windows[1].pending.size, None);
    assert!(windows[1].configures.is_empty());
}

#[test]
fn a_fullscreen_window_cannot_take_a_second_output() {
    let (mut ws, _rx) = workspace();
    let a = output("a", 1920, 1080);
    let b = output("b", 1280, 720);
    let mut windows = vec![window(0)];
    ws.fullscreen_request(&mut windows[0], &a);
    ws.fullscreen_request(&mut windows[0], &b);
    assert_eq!(ws.fullscreen.len(), 1);
    assert_eq!(ws.get_fullscreen(&b, &windows), None);
    assert_eq!(windows[0].pending.size, Some(Size::new(1920, 1080)));
    assert_eq!(windows[0].configures.len(), 1);
}

#[test]
fn fullscreen_proposes_the_size_of_the_mode() {
    let (mut ws, _rx) = workspace();
    // a rotated output: the mode is 1920 wide, the output 1080
    let out = Output::new("a".to_string(), Point::new(0, 0), Size::new(1080, 1920), Size::new(1920, 1080));
    let mut w = window(0);
    ws.fullscreen_request(&mut w, &out);
    assert_eq!(w.pending.size, Some(Size::new(1920, 1080)));
}

#[test]
fn fullscreen_of_an_unmapped_output_or_a_dead_window_is_not_reported() {
    let (mut ws, _rx) = workspace();
    let c = output("c", 800, 600);
    let a = output("a", 800, 600);
    let mut windows = vec![window(0), window(1)];
    ws.fullscreen_request(&mut windows[0], &c);
    ws.fullscreen_request(&mut windows[1], &a);
    assert_eq!(ws.fullscreen.len(), 2);
    // output c is not mapped into the space
    assert_eq!(ws.get_fullscreen(&c, &windows), None);
    assert_eq!(ws.get_fullscreen(&a, &windows), Some(WindowId(1)));
    windows[1].alive = false;
    assert_eq!(ws.get_fullscreen(&a, &windows), None);
    assert_eq!(ws.get_fullscreen(&output("b", 1, 1), &windows), None);
}

#[test]
fn unfullscreen_clears_the_slot_and_tells_the_policy_engine() {
    let (mut ws, rx) = workspace();
    let out = output("a", 1920, 1080);
    let mut w = window(4);
    ws.fullscreen_request(&mut w, &out);

    assert_eq!(ws.unfullscreen_request(&mut w), Ok(()));
    assert!(ws.fullscreen.is_empty());
    assert!(!w.pending.fullscreen);
    assert_eq!(w.pending.size, None);
    assert_eq!(w.configures.len(), 2);
    assert!(matches!(
        rx.try_recv(),
        Ok(RuntimeMessage::UnfullscreenRequest { window: WindowId(4) })
    ));
    assert!(rx.try_recv().is_err());

    // a window that is not fullscreen is left alone, and nothing is sent
    assert_eq!(ws.unfullscreen_request(&mut w), Ok(()));
    assert_eq!(w.configures.len(), 2);
    assert!(rx.try_recv().is_err());
}

#[test]
fn maximize_is_left_to_the_policy_engine() {
    let (mut ws, rx) = workspace();
    let out = output("a", 1920, 1080);
    assert_eq!(ws.maximize_request(WindowId(3), &out), Ok(()));
    match rx.try_recv() {
        Ok(RuntimeMessage::MaximizeRequest { window, output }) => {
            assert_eq!(window, WindowId(3));
            assert_eq!(output, "a");
        }
        other => panic!("unexpected {:?}", other),
    }
    assert!(rx.try_recv().is_err());
}

#[test]
fn requests_for_a_fullscreen_window_send_nothing() {
    let (mut ws, rx) = workspace();
    let out = output("a", 1920, 1080);
    let mut w = window(0);
    ws.fullscreen_request(&mut w, &out);
    let start = PointerGrabStartData { focus: None, button: 272, location: Point::new(1, 2) };

    assert_eq!(ws.maximize_request(WindowId(0), &out), Ok(()));
    assert_eq!(
        ws.resize_request(WindowId(0), SeatId(0), Serial(9), start, ResizeEdge { bits: EDGE_BOTTOM_RIGHT }),
        Ok(())
    );
    assert!(rx.try_recv().is_err());
    assert!(ws.maximize_message(WindowId(0), &out).is_none());
}

#[test]
fn resize_request_carries_the_start_of_the_grab() {
    let (mut ws, rx) = workspace();
    let start = PointerGrabStartData { focus: None, button: 272, location: Point::new(11, 22) };
    let edges = ResizeEdge { bits: EDGE_BOTTOM_RIGHT };
    assert_eq!(ws.resize_request(WindowId(2), SeatId(1), Serial(9), start, edges), Ok(()));
    match rx.try_recv() {
        Ok(RuntimeMessage::ResizeRequest { window, seat, serial, start_data, edges: e }) => {
            assert_eq!(window, WindowId(2));
            assert_eq!(seat, SeatId(1));
            assert_eq!(serial, Serial(9));
            assert_eq!(start_data, start);
            assert_eq!(e, edges);
        }
        other => panic!("unexpected {:?}", other),
    }
}

#[test]
fn unmaximize_of_a_fullscreen_window_leaves_fullscreen() {
    let (mut ws, rx) = workspace();
    let out = output("a", 1920, 1080);
    let mut w = window(0);
    ws.fullscreen_request(&mut w, &out);
    assert_eq!(ws.unmaximize_request(&mut w), Ok(()));
    assert!(ws.fullscreen.is_empty());
    assert!(!w.pending.fullscreen);
    assert!(matches!(rx.try_recv(), Ok(RuntimeMessage::UnfullscreenRequest { window: WindowId(0) })));

    // otherwise it is left to the policy engine, and the window is not touched
    let configures = w.configures.len();
    assert_eq!(ws.unmaximize_request(&mut w), Ok(()));
    assert!(matches!(rx.try_recv(), Ok(RuntimeMessage::UnmaximizeRequest { window: WindowId(0) })));
    assert_eq!(w.configures.len(), configures);
}

#[test]
fn messages_arrive_in_the_order_of_the_requests() {
    let (mut ws, rx) = workspace();
    let out = output("a", 1920, 1080);
    let mut w = window(1);
    ws.maximize_request(WindowId(1), &out).unwrap();
    ws.unmaximize_request(&mut w).unwrap();
    ws.maximize_request(WindowId(2), &out).unwrap();
    assert!(matches!(rx.try_recv(), Ok(RuntimeMessage::MaximizeRequest { window: WindowId(1), .. })));
    assert!(matches!(rx.try_recv(), Ok(RuntimeMessage::UnmaximizeRequest { window: WindowId(1) })));
    assert!(matches!(rx.try_recv(), Ok(RuntimeMessage::MaximizeRequest { window: WindowId(2), .. })));
}

#[test]
fn a_policy_engine_that_is_gone_is_reported() {
    let (mut ws, rx) = workspace();
    let out = output("a", 1920, 1080);
    let mut w = window(0);
    ws.fullscreen_request(&mut w, &out);
    drop(rx);

    assert_eq!(ws.maximize_request(WindowId(5), &out), Err(PolicyError::ChannelClosed));
    let start = PointerGrabStartData { focus: None, button: 272, location: Point::new(0, 0) };
    assert_eq!(
        ws.resize_request(WindowId(5), SeatId(0), Serial(1), start, ResizeEdge { bits: 8 }),
        Err(PolicyError::ChannelClosed)
    );
    let mut other = window(5);
    assert_eq!(ws.unmaximize_request(&mut other), Err(PolicyError::ChannelClosed));
    // the slot is emptied all the same
    assert_eq!(ws.unfullscreen_request(&mut w), Err(PolicyError::ChannelClosed));
    assert!(ws.fullscreen.is_empty());
    assert!(!w.pending.fullscreen);
}

#[test]
fn refresh_takes_windows_of_lost_outputs_out_of_fullscreen() {
    let (mut ws, rx) = workspace();
    let a = output("a", 1920, 1080);
    let b = output("b", 1280, 720);
    let mut windows = vec![window(0), window(1), window(2)];
    {
        let (first, rest) = windows.split_at_mut(1);
        ws.fullscreen_request(&mut first[0], &a);
        ws.fullscreen_request(&mut rest[0], &b);
    }
    ws.space.unmap_output(&"a".to_string());

    assert_eq!(ws.refresh(&mut windows), Ok(()));

    assert_eq!(ws.fullscreen.len(), 1);
    assert_eq!(ws.fullscreen[0].window, WindowId(1));
    assert!(!windows[0].pending.fullscreen);
    assert_eq!(windows[0].pending.size, None);
    assert_eq!(windows[0].configures.len(), 2);
    assert!(windows[1].pending.fullscreen);
    assert_eq!(windows[1].configures.len(), 1);
    assert!(windows[2].configures.is_empty());
    assert!(matches!(rx.try_recv(), Ok(RuntimeMessage::UnfullscreenRequest { window: WindowId(0) })));
    assert!(rx.try_recv().is_err());
}

#[test]
fn refresh_drops_slots_of_dead_windows_without_a_message() {
    let (mut ws, rx) = workspace();
    let a = output("a", 1920, 1080);
    let mut windows = vec![window(0)];
    ws.fullscreen_request(&mut windows[0], &a);
    windows[0].alive = false;
    assert_eq!(ws.refresh(&mut windows), Ok(()));
    assert!(ws.fullscreen.is_empty());
    assert_eq!(windows[0].configures.len(), 1);
    assert!(rx.try_recv().is_err());
}

#[test]
fn refresh_without_changes_keeps_everything() {
    let (mut ws, rx) = workspace();
    let a = output("a", 1920, 1080);
    let mut windows = vec![window(0)];
    ws.fullscreen_request(&mut windows[0], &a);
    assert_eq!(ws.refresh(&mut windows), Ok(()));
    assert_eq!(ws.fullscreen.len(), 1);
    assert_eq!(ws.get_fullscreen(&a, &windows), Some(WindowId(0)));
    assert!(rx.try_recv().is_err());
}

#[test]
fn refresh_reports_a_policy_engine_that_is_gone() {
    let (mut ws, rx) = workspace();
    let a = output("a", 1920, 1080);
    let mut windows = vec![window(0)];
    ws.fullscreen_request(&mut windows[0], &a);
    ws.space.unmap_output(&"a".to_string());
    drop(rx);
    assert_eq!(ws.refresh(&mut windows), Err(PolicyError::ChannelClosed));
    assert!(ws.fullscreen.is_empty());
}

#[test]
fn each_request_has_its_message_unless_the_window_is_fullscreen() {
    let (mut ws, _rx) = workspace();
    let out = output("a", 1920, 1080);
    let mut w = window(0);

    assert!(ws.unfullscreen_message(WindowId(0)).is_none());
    assert!(matches!(
        ws.unmaximize_message(WindowId(0)),
        Some(RuntimeMessage::UnmaximizeRequest { window: WindowId(0) })
    ));
    assert!(matches!(
        ws.maximize_message(WindowId(0), &out),
        Some(RuntimeMessage::MaximizeRequest { window: WindowId(0), ref output }) if output == "a"
    ));

    ws.fullscreen_request(&mut w, &out);
    assert!(matches!(
        ws.unfullscreen_message(WindowId(0)),
        Some(RuntimeMessage::UnfullscreenRequest { window: WindowId(0) })
    ));
    assert!(ws.unmaximize_message(WindowId(0)).is_none());
    assert!(ws.maximize_message(WindowId(0), &out).is_none());
    let start = PointerGrabStartData { focus: None, button: 272, location: Point::new(0, 0) };
    assert!(ws.resize_message(WindowId(0), SeatId(0), Serial(1), start, ResizeEdge { bits: 8 }).is_none());
    // another window is not touched by that
    assert!(matches!(
        ws.unmaximize_message(WindowId(1)),
        Some(RuntimeMessage::UnmaximizeRequest { window: WindowId(1) })
    ));
}

#[test]
fn refresh_sends_one_notification_per_orphan_and_none_for_the_dead() {
    let (tx, rx) = channel::<RuntimeMessage>();
    let mut ws = Workspace::new(0, tx);
    ws.space.map_output(&"n1".to_string());
    ws.space.map_output(&"n2".to_string());
    ws.space.map_output(&"n3".to_string());
    let mut windows = vec![window(0), window(1), window(2)];
    {
        let (a, rest) = windows.split_at_mut(1);
        let (b, c) = rest.split_at_mut(1);
        ws.fullscreen_request(&mut a[0], &output("n1", 800, 600));
        ws.fullscreen_request(&mut b[0], &output("n2", 800, 600));
        ws.fullscreen_request(&mut c[0], &output("n3", 800, 600));
    }
    ws.space.unmap_output(&"n1".to_string());
    windows[1].alive = false;

    assert_eq!(ws.refresh(&mut windows), Ok(()));

    assert_eq!(ws.fullscreen.len(), 1);
    assert_eq!(ws.fullscreen[0].output, "n3");
    assert_eq!(ws.fullscreen[0].window, WindowId(2));
    assert!(!windows[0].pending.fullscreen);
    assert_eq!(windows[0].pending.size, None);
    assert_eq!(windows[0].configures.len(), 2);
    assert_eq!(windows[1].configures.len(), 1);
    assert!(matches!(rx.try_recv(), Ok(RuntimeMessage::UnfullscreenRequest { window: WindowId(0) })));
    assert!(rx.try_recv().is_err());
}
