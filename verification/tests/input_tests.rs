use imvic::input::coalescer::FrameUpdate;
use imvic::input::{
    AppEvent, Event, InputAdapter, InputCoalescer, InputRegistry, KeyCode, KeyEvent, MouseButton, MouseEvent,
    MouseEventKind, TouchpadInputAdapter, ZOOM_STEP_IN_PERCENT,
};

fn mouse(kind: MouseEventKind, column: u16, row: u16, control: bool) -> Event {
    Event::Mouse(MouseEvent { kind, column, row, control })
}

fn key(code: KeyCode, control: bool) -> Event {
    Event::Key(KeyEvent { code, control })
}

#[test]
fn test_touchpad_pan_events() {
    let mut adapter = TouchpadInputAdapter::new();
    let scroll_up = mouse(MouseEventKind::ScrollUp, 10, 10, false);

    let event = adapter.handle_event(&scroll_up);
    assert_eq!(event, Some(AppEvent::Pan { delta_x: 0, delta_y: 1 }));
}

#[test]
fn test_touchpad_ctrl_zoom() {
    let mut adapter = TouchpadInputAdapter::new();
    let pinch_zoom = mouse(MouseEventKind::ScrollUp, 20, 15, true);

    let event = adapter.handle_event(&pinch_zoom);
    assert_eq!(event, Some(AppEvent::ZoomIn { cursor_x: 20, cursor_y: 15 }));
    // One step in is a factor of 1.05.
    assert_eq!(ZOOM_STEP_IN_PERCENT as f32 / 100.0, 1.05);
}

#[test]
fn test_quit_key() {
    let mut adapter = TouchpadInputAdapter::new();
    let quit_key = key(KeyCode::Char('q'), false);
    assert_eq!(adapter.handle_event(&quit_key), Some(AppEvent::Quit));
}

#[test]
fn test_input_registry_initialization() {
    let registry = InputRegistry::new(None);
    assert!(!registry.active_drivers_summary().is_empty());
    assert!(registry.active_drivers_summary().contains("Touchpad"));
}

#[test]
fn scroll_and_zoom_directions() {
    let mut a = TouchpadInputAdapter::new();
    assert_eq!(
        a.handle_event(&mouse(MouseEventKind::ScrollDown, 1, 2, false)),
        Some(AppEvent::Pan { delta_x: 0, delta_y: -1 })
    );
    assert_eq!(
        a.handle_event(&mouse(MouseEventKind::ScrollLeft, 1, 2, false)),
        Some(AppEvent::Pan { delta_x: 1, delta_y: 0 })
    );
    assert_eq!(
        a.handle_event(&mouse(MouseEventKind::ScrollRight, 1, 2, true)),
        Some(AppEvent::Pan { delta_x: -1, delta_y: 0 })
    );
    assert_eq!(
        a.handle_event(&mouse(MouseEventKind::ScrollDown, 7, 8, true)),
        Some(AppEvent::ZoomOut { cursor_x: 7, cursor_y: 8 })
    );
    assert_eq!(a.handle_event(&mouse(MouseEventKind::Moved, 7, 8, false)), None);
    assert_eq!(a.handle_event(&Event::Resize(80, 24)), Some(AppEvent::Resize { cols: 80, rows: 24 }));
    assert_eq!(a.handle_event(&Event::Other), None);
}

#[test]
fn drag_pans_by_cell_displacement() {
    let mut a = TouchpadInputAdapter::new();
    // A drag report without a press only anchors.
    assert_eq!(a.handle_event(&mouse(MouseEventKind::Drag(MouseButton::Left), 5, 5, false)), None);
    assert_eq!(a.handle_event(&mouse(MouseEventKind::Down(MouseButton::Left), 10, 10, false)), None);
    assert_eq!(
        a.handle_event(&mouse(MouseEventKind::Drag(MouseButton::Left), 13, 8, false)),
        Some(AppEvent::Pan { delta_x: 3, delta_y: -2 })
    );
    assert_eq!(
        a.handle_event(&mouse(MouseEventKind::Drag(MouseButton::Left), 12, 8, false)),
        Some(AppEvent::Pan { delta_x: -1, delta_y: 0 })
    );
    assert_eq!(a.handle_event(&mouse(MouseEventKind::Up(MouseButton::Left), 12, 8, false)), None);
    assert_eq!(a.handle_event(&mouse(MouseEventKind::Drag(MouseButton::Left), 20, 20, false)), None);
    // Other buttons do not drag.
    assert_eq!(a.handle_event(&mouse(MouseEventKind::Drag(MouseButton::Right), 25, 20, false)), None);
}

#[test]
fn keys() {
    let mut a = TouchpadInputAdapter::new();
    assert_eq!(a.handle_event(&key(KeyCode::Esc, false)), Some(AppEvent::Quit));
    assert_eq!(a.handle_event(&key(KeyCode::Char('c'), true)), Some(AppEvent::Quit));
    assert_eq!(a.handle_event(&key(KeyCode::Char('c'), false)), Some(AppEvent::CenterView));
    assert_eq!(a.handle_event(&key(KeyCode::Char('C'), false)), Some(AppEvent::CenterView));
    assert_eq!(a.handle_event(&key(KeyCode::Home, false)), Some(AppEvent::CenterView));
    assert_eq!(a.handle_event(&key(KeyCode::Char('x'), false)), None);
    assert_eq!(a.handle_event(&key(KeyCode::Other, true)), None);
}

#[test]
fn availability_from_device_listing() {
    let a = TouchpadInputAdapter::new();
    assert!(a.is_available(None));
    assert!(a.is_available(Some("N: Name=\"SynPS/2 Synaptics TouchPad\"")));
    assert!(!a.is_available(Some("N: Name=\"AT Translated Set 2 keyboard\"")));
    assert!(InputRegistry::new(Some("keyboard only")).active_drivers_summary() == "Touchpad");
}

#[test]
fn registry_dispatches_to_the_first_adapter_that_answers() {
    let mut r = InputRegistry::new(None);
    r.register(TouchpadInputAdapter::new());
    assert_eq!(r.active_drivers_summary(), "Touchpad + Touchpad");
    assert_eq!(r.handle_event(&key(KeyCode::Char('q'), false)), Some(AppEvent::Quit));
    // The press is seen by both adapters (neither answers); the drag by the first only.
    assert_eq!(r.handle_event(&mouse(MouseEventKind::Down(MouseButton::Left), 1, 1, false)), None);
    assert_eq!(
        r.handle_event(&mouse(MouseEventKind::Drag(MouseButton::Left), 4, 1, false)),
        Some(AppEvent::Pan { delta_x: 3, delta_y: 0 })
    );
}

fn plan_of(events: &[AppEvent]) -> (FrameUpdate, bool) {
    let mut c = InputCoalescer::new();
    for e in events {
        c.record(*e);
    }
    (c.plan(), c.quit_requested())
}

#[test]
fn coalescer_accumulates_a_frame() {
    let (p, quit) = plan_of(&[
        AppEvent::Pan { delta_x: 1, delta_y: 0 },
        AppEvent::Pan { delta_x: 2, delta_y: -1 },
        AppEvent::ZoomIn { cursor_x: 3, cursor_y: 4 },
        AppEvent::ZoomIn { cursor_x: 5, cursor_y: 6 },
        AppEvent::ZoomOut { cursor_x: 7, cursor_y: 8 },
        AppEvent::Resize { cols: 100, rows: 40 },
        AppEvent::FileModified,
    ]);
    assert!(!quit);
    assert_eq!(p.resize, Some((100, 39)));
    assert!(!p.center_view);
    assert_eq!(p.pan, Some((3, -1)));
    assert_eq!(p.zoom, Some((7, 8, 1)));
    assert!(p.is_dirty());
}

#[test]
fn coalescer_cancelling_gestures_leave_the_view_alone() {
    let (p, quit) = plan_of(&[
        AppEvent::Pan { delta_x: 2, delta_y: 0 },
        AppEvent::Pan { delta_x: -2, delta_y: 0 },
        AppEvent::ZoomIn { cursor_x: 3, cursor_y: 4 },
        AppEvent::ZoomOut { cursor_x: 3, cursor_y: 4 },
    ]);
    assert!(!quit);
    assert_eq!(p.pan, None);
    assert_eq!(p.zoom, None);
    assert!(!p.is_dirty());
    let (p, quit) = plan_of(&[AppEvent::Resize { cols: 10, rows: 1 }, AppEvent::CenterView, AppEvent::Quit]);
    assert!(quit);
    assert_eq!(p.resize, Some((10, 1)));
    assert!(p.center_view);
    let c = InputCoalescer::new();
    assert!(!c.has_resize());
}

#[test]
fn coalescer_counts_every_zoom_step_and_sums_extreme_pans() {
    let mut events = Vec::new();
    for _ in 0..10 {
        events.push(AppEvent::ZoomIn { cursor_x: 40, cursor_y: 12 });
        events.push(AppEvent::Pan { delta_x: i32::MIN, delta_y: i32::MAX });
    }
    let (p, _) = plan_of(&events);
    assert_eq!(p.zoom, Some((40, 12, 10)));
    assert_eq!(p.pan, Some((10 * i32::MIN as i64, 10 * i32::MAX as i64)));
}

#[test]
fn touchpad_as_an_input_adapter_plugin() {
    let mut adapter: Box<dyn InputAdapter> = Box::new(TouchpadInputAdapter::new());
    assert_eq!(adapter.name(), "Touchpad");
    assert!(adapter.is_available(None));
    assert!(!adapter.is_available(Some("N: Name=\"AT Translated Set 2 keyboard\"")));
    assert_eq!(
        adapter.handle_event(&Event::Resize(80, 24)),
        Some(AppEvent::Resize { cols: 80, rows: 24 })
    );
}
