//! Touchpad-optimized input adapter.
//!
//! Maps 2-finger swipe to smooth 2D panning, pinch/Ctrl+scroll to smooth zoom,
//! and tap-and-drag to continuous panning.

use super::{AppEvent, Event, InputAdapter, KeyCode, KeyEvent, MouseButton, MouseEvent, MouseEventKind};
use crate::text::{contains_ignore_ascii_case, contains_ignore_case, utf8};
use vstd::prelude::*;
use vstd::string::StringSliceAdditionalSpecFns;

verus! {

/// What a mouse report produces, and the drag anchor after it.
pub open spec fn mouse_step(last_drag: Option<(u16, u16)>, m: MouseEvent) -> (
    Option<AppEvent>,
    Option<(u16, u16)>,
) {
    match m.kind {
        MouseEventKind::ScrollUp => if m.control {
            (Some(AppEvent::ZoomIn { cursor_x: m.column, cursor_y: m.row }), last_drag)
        } else {
            (Some(AppEvent::Pan { delta_x: 0, delta_y: 1 }), last_drag)
        },
        MouseEventKind::ScrollDown => if m.control {
            (Some(AppEvent::ZoomOut { cursor_x: m.column, cursor_y: m.row }), last_drag)
        } else {
            (Some(AppEvent::Pan { delta_x: 0, delta_y: -1i32 }), last_drag)
        },
        MouseEventKind::ScrollLeft => (Some(AppEvent::Pan { delta_x: 1, delta_y: 0 }), last_drag),
        MouseEventKind::ScrollRight => (
            Some(AppEvent::Pan { delta_x: -1i32, delta_y: 0 }),
            last_drag,
        ),
        MouseEventKind::Down(MouseButton::Left) => (None, Some((m.column, m.row))),
        MouseEventKind::Drag(MouseButton::Left) => match last_drag {
            Some((pc, pr)) => (
                Some(
                    AppEvent::Pan {
                        delta_x: (m.column - pc) as i32,
                        delta_y: (m.row - pr) as i32,
                    },
                ),
                Some((m.column, m.row)),
            ),
            None => (None, Some((m.column, m.row))),
        },
        MouseEventKind::Up(MouseButton::Left) => (None, None),
        _ => (None, last_drag),
    }
}

/// What a key report produces: `q`, `Esc` and `Ctrl+C` quit; `c`, `C` and `Home` recenter.
pub open spec fn key_event(k: KeyEvent) -> Option<AppEvent> {
    match k.code {
        KeyCode::Char('q') | KeyCode::Esc => Some(AppEvent::Quit),
        KeyCode::Char('c') => if k.control {
            Some(AppEvent::Quit)
        } else {
            Some(AppEvent::CenterView)
        },
        KeyCode::Char('C') | KeyCode::Home => Some(AppEvent::CenterView),
        _ => None,
    }
}

/// What any event produces, and the drag anchor after it.
pub open spec fn event_step(anchor: Option<(u16, u16)>, e: Event) -> (
    Option<AppEvent>,
    Option<(u16, u16)>,
) {
    match e {
        Event::Mouse(m) => mouse_step(anchor, m),
        Event::Key(k) => (key_event(k), anchor),
        Event::Resize(cols, rows) => (Some(AppEvent::Resize { cols, rows }), anchor),
        Event::Other => (None, anchor),
    }
}

/// High-resolution touchpad gesture adapter.
#[derive(Clone, Copy)]
pub struct TouchpadInputAdapter {
    last_drag_pos: Option<(u16, u16)>,
}

impl TouchpadInputAdapter {
    /// The cell where the current left-button drag last was.
    pub closed spec fn spec_drag_anchor(&self) -> Option<(u16, u16)> {
        self.last_drag_pos
    }

    pub fn new() -> (r: Self)
        ensures
            r.spec_drag_anchor() is None,
    {
        Self { last_drag_pos: None }
    }

    fn handle_mouse(&mut self, mouse: MouseEvent) -> (r: Option<AppEvent>)
        ensures
            (r, final(self).spec_drag_anchor()) == mouse_step(old(self).spec_drag_anchor(), mouse),
    {
        match mouse.kind {
            // Pinch-to-zoom or Ctrl + 2-finger scroll: smooth focal zoom
            MouseEventKind::ScrollUp if mouse.control => {
                Some(AppEvent::ZoomIn { cursor_x: mouse.column, cursor_y: mouse.row })
            },
            MouseEventKind::ScrollDown if mouse.control => {
                Some(AppEvent::ZoomOut { cursor_x: mouse.column, cursor_y: mouse.row })
            },
            // Regular 2-finger scroll on touchpad: smooth 2D panning
            MouseEventKind::ScrollUp => Some(AppEvent::Pan { delta_x: 0, delta_y: 1 }),
            MouseEventKind::ScrollDown => Some(AppEvent::Pan { delta_x: 0, delta_y: -1 }),
            MouseEventKind::ScrollLeft => Some(AppEvent::Pan { delta_x: 1, delta_y: 0 }),
            MouseEventKind::ScrollRight => Some(AppEvent::Pan { delta_x: -1, delta_y: 0 }),
            // Tap-and-drag or click-and-drag: continuous single-finger pan
            MouseEventKind::Down(MouseButton::Left) => {
                self.last_drag_pos = Some((mouse.column, mouse.row));
                None
            },
            MouseEventKind::Drag(MouseButton::Left) => {
                match self.last_drag_pos {
                    Some((prev_col, prev_row)) => {
                        let delta_x = mouse.column as i32 - prev_col as i32;
                        let delta_y = mouse.row as i32 - prev_row as i32;
                        self.last_drag_pos = Some((mouse.column, mouse.row));
                        Some(AppEvent::Pan { delta_x, delta_y })
                    },
                    None => {
                        self.last_drag_pos = Some((mouse.column, mouse.row));
                        None
                    },
                }
            },
            MouseEventKind::Up(MouseButton::Left) => {
                self.last_drag_pos = None;
                None
            },
            _ => None,
        }
    }

    fn handle_key(&mut self, key: KeyEvent) -> (r: Option<AppEvent>)
        ensures
            r == key_event(key),
            final(self).spec_drag_anchor() == old(self).spec_drag_anchor(),
    {
        match key.code {
            // Essential keys to exit the raw mode terminal cleanly
            KeyCode::Char('q') | KeyCode::Esc => Some(AppEvent::Quit),
            KeyCode::Char('c') if key.control => Some(AppEvent::Quit),
            // Recenter the camera
            KeyCode::Char('c') | KeyCode::Char('C') | KeyCode::Home => Some(AppEvent::CenterView),
            _ => None,
        }
    }

    /// Descriptive name of the input driver.
    pub fn name(&self) -> (r: &'static str)
        ensures
            r@ == "Touchpad"@,
    {
        "Touchpad"
    }

    /// Whether a touchpad is present, from the text of `/proc/bus/input/devices` (`None`
    /// where that listing cannot be read, or on systems without it): the listing mentions
    /// "touchpad" in any ASCII case; without a listing the touchpad is assumed present.
    pub fn is_available(&self, devices: Option<&str>) -> (r: bool)
        ensures
            r == match devices {
                Some(d) => contains_ignore_ascii_case(d.spec_bytes(), utf8("touchpad"@)),
                None => true,
            },
    {
        match devices {
            Some(d) => contains_ignore_case(d.as_bytes(), "touchpad".as_bytes()),
            None => true,
        }
    }

    /// Translates a terminal event into an application event.
    pub fn handle_event(&mut self, event: &Event) -> (r: Option<AppEvent>)
        ensures
            (r, final(self).spec_drag_anchor()) == event_step(old(self).spec_drag_anchor(), *event),
    {
        match event {
            Event::Mouse(mouse) => self.handle_mouse(*mouse),
            Event::Key(key) => self.handle_key(*key),
            Event::Resize(cols, rows) => Some(AppEvent::Resize { cols: *cols, rows: *rows }),
            Event::Other => None,
        }
    }
}

impl InputAdapter for TouchpadInputAdapter {
    open spec fn spec_name(&self) -> Seq<char> {
        "Touchpad"@
    }

    fn name(&self) -> (r: &'static str) {
        TouchpadInputAdapter::name(self)
    }

    fn is_available(&self, devices: Option<&str>) -> (r: bool)
        ensures
            r == match devices {
                Some(d) => contains_ignore_ascii_case(d.spec_bytes(), utf8("touchpad"@)),
                None => true,
            },
    {
        TouchpadInputAdapter::is_available(self, devices)
    }

    fn handle_event(&mut self, event: &Event) -> (r: Option<AppEvent>)
        ensures
            (r, final(self).spec_drag_anchor()) == event_step(old(self).spec_drag_anchor(), *event),
    {
        TouchpadInputAdapter::handle_event(self, event)
    }
}

/// Dragging from one cell to another through any intermediate cells pans by the total
/// displacement: two drag reports after a press add up to the move from the press point.
pub proof fn law_drag_deltas_compose(press: (u16, u16), mid: MouseEvent, end: MouseEvent)
    requires
        mid.kind == MouseEventKind::Drag(MouseButton::Left),
        end.kind == MouseEventKind::Drag(MouseButton::Left),
    ensures
        ({
            let (e1, a1) = mouse_step(Some(press), mid);
            let (e2, a2) = mouse_step(a1, end);
            e1 matches Some(AppEvent::Pan { delta_x: x1, delta_y: y1 })
                && e2 matches Some(AppEvent::Pan { delta_x: x2, delta_y: y2 })
                && x1 + x2 == end.column - press.0 && y1 + y2 == end.row - press.1
                && a2 == Some((end.column, end.row))
        }),
{
}

/// Releasing the left button ends the drag: the next drag report pans nothing and only
/// re-anchors.
pub proof fn law_release_ends_drag(anchor: Option<(u16, u16)>, up: MouseEvent, drag: MouseEvent)
    requires
        up.kind == MouseEventKind::Up(MouseButton::Left),
        drag.kind == MouseEventKind::Drag(MouseButton::Left),
    ensures
        mouse_step(anchor, up) == (None::<AppEvent>, None::<(u16, u16)>),
        mouse_step(None, drag) == (None::<AppEvent>, Some((drag.column, drag.row))),
{
}

/// A left-button press followed by a left-button drag pans by exactly the move from the press
/// cell to the drag cell, columns first, whatever drag was under way before the press; the
/// press itself produces nothing.
pub proof fn law_press_then_drag(anchor: Option<(u16, u16)>, press: MouseEvent, drag: MouseEvent)
    requires
        press.kind == MouseEventKind::Down(MouseButton::Left),
        drag.kind == MouseEventKind::Drag(MouseButton::Left),
    ensures
        ({
            let (e1, a1) = event_step(anchor, Event::Mouse(press));
            let (e2, a2) = event_step(a1, Event::Mouse(drag));
            &&& e1 is None
            &&& e2 matches Some(AppEvent::Pan { delta_x, delta_y }) && delta_x as int
                == drag.column as int - press.column as int && delta_y as int == drag.row as int
                - press.row as int
        }),
{
}

} // verus!
