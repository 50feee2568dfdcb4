//! Input handling: terminal events as plain values, the touchpad gesture adapter, the
//! adapter registry and per-frame event coalescing.

pub mod coalescer;
pub mod registry;
pub mod touchpad;

pub use coalescer::InputCoalescer;
pub use registry::InputRegistry;
pub use touchpad::TouchpadInputAdapter;

use vstd::prelude::*;

verus! {

/// The zoom factor of one step in, in percent: each step in scales the view by 105%, each step
/// out by the reciprocal.
pub const ZOOM_STEP_IN_PERCENT: u32 = 105;

/// Unified high-level application events produced by input adapters.
///
/// Distances are in terminal cells; a zoom event is one step in or out, whose factor the
/// camera applies.
#[derive(Debug, Clone, Copy, PartialEq, Eq, Structural)]
pub enum AppEvent {
    /// Continuous panning from dragging or 2-finger touchpad gestures.
    Pan { delta_x: i32, delta_y: i32 },
    /// One focal zoom step in, centered at cursor coordinates.
    ZoomIn { cursor_x: u16, cursor_y: u16 },
    /// One focal zoom step out, centered at cursor coordinates.
    ZoomOut { cursor_x: u16, cursor_y: u16 },
    /// Terminal window resized.
    Resize { cols: u16, rows: u16 },
    /// Recenter the camera on the image.
    CenterView,
    /// Live reload signal from file system watcher.
    FileModified,
    /// Exit application cleanly.
    Quit,
}

/// A mouse button.
#[derive(Debug, Clone, Copy, PartialEq, Eq, Structural)]
pub enum MouseButton {
    Left,
    Right,
    Middle,
}

/// What a mouse report says happened.
#[derive(Debug, Clone, Copy, PartialEq, Eq, Structural)]
pub enum MouseEventKind {
    Down(MouseButton),
    Up(MouseButton),
    Drag(MouseButton),
    Moved,
    ScrollDown,
    ScrollUp,
    ScrollLeft,
    ScrollRight,
}

/// A mouse report at a terminal cell, with the state of the Control modifier.
#[derive(Debug, Clone, Copy, PartialEq, Eq, Structural)]
pub struct MouseEvent {
    pub kind: MouseEventKind,
    pub column: u16,
    pub row: u16,
    pub control: bool,
}

/// A key as far as the viewer tells keys apart.
#[derive(Debug, Clone, Copy, PartialEq, Eq, Structural)]
pub enum KeyCode {
    Char(char),
    Esc,
    Home,
    Other,
}

/// A key report with the state of the Control modifier.
#[derive(Debug, Clone, Copy, PartialEq, Eq, Structural)]
pub struct KeyEvent {
    pub code: KeyCode,
    pub control: bool,
}

/// A terminal input event.
#[derive(Debug, Clone, Copy, PartialEq, Eq, Structural)]
pub enum Event {
    Mouse(MouseEvent),
    Key(KeyEvent),
    Resize(u16, u16),
    Other,
}

/// Contract for hardware input adapters.
pub trait InputAdapter {
    /// Descriptive name of the input driver.
    spec fn spec_name(&self) -> Seq<char>;

    /// Descriptive name of the input driver (e.g. "Touchpad", "Mouse").
    fn name(&self) -> (r: &'static str)
        ensures
            r@ == self.spec_name(),
    ;

    /// Checks if the physical hardware for this adapter is present, from the text of the
    /// system's input device listing (`None` where it cannot be read).
    fn is_available(&self, devices: Option<&str>) -> (r: bool);

    /// Translates a terminal event into an application event.
    fn handle_event(&mut self, event: &Event) -> (r: Option<AppEvent>);
}

} // verus!
