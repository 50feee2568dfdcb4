//! Coalescing of the input events that arrive within one frame tick.

use super::AppEvent;
use vstd::prelude::*;

verus! {

/// `a + b` clamped to the `i64` range.
pub open spec fn saturating_sum(a: int, b: int) -> int {
    if a + b > i64::MAX {
        i64::MAX as int
    } else if a + b < i64::MIN {
        i64::MIN as int
    } else {
        a + b
    }
}

fn saturating_add_i64(a: i64, b: i64) -> (r: i64)
    ensures
        r == saturating_sum(a as int, b as int),
{
    match a.checked_add(b) {
        Some(s) => s,
        None => if b > 0 {
            i64::MAX
        } else {
            i64::MIN
        },
    }
}

/// The accumulated pan after `e` is recorded on top of `p`: a pan event adds its deltas
/// (saturating at the `i64` range), any other event leaves it.
pub open spec fn pan_step(p: (int, int), e: AppEvent) -> (int, int) {
    match e {
        AppEvent::Pan { delta_x, delta_y } => (
            saturating_sum(p.0, delta_x as int),
            saturating_sum(p.1, delta_y as int),
        ),
        _ => p,
    }
}

/// The net zoom steps after `e` is recorded on top of `z`: zooming in counts one up, zooming
/// out one down (saturating at the `i64` range), any other event leaves it.
pub open spec fn zoom_step(z: int, e: AppEvent) -> int {
    match e {
        AppEvent::ZoomIn { .. } => saturating_sum(z, 1),
        AppEvent::ZoomOut { .. } => saturating_sum(z, -1),
        _ => z,
    }
}

/// The pan a fresh coalescer holds after recording `events` in order.
pub open spec fn pan_after(events: Seq<AppEvent>) -> (int, int)
    decreases events.len(),
{
    if events.len() == 0 {
        (0, 0)
    } else {
        pan_step(pan_after(events.drop_last()), events.last())
    }
}

/// The net zoom steps a fresh coalescer holds after recording `events` in order.
pub open spec fn zoom_after(events: Seq<AppEvent>) -> int
    decreases events.len(),
{
    if events.len() == 0 {
        0
    } else {
        zoom_step(zoom_after(events.drop_last()), events.last())
    }
}

/// The exact sum of the pan deltas in `events`.
pub open spec fn pan_total(events: Seq<AppEvent>) -> (int, int)
    decreases events.len(),
{
    if events.len() == 0 {
        (0, 0)
    } else {
        let p = pan_total(events.drop_last());
        match events.last() {
            AppEvent::Pan { delta_x, delta_y } => (p.0 + delta_x, p.1 + delta_y),
            _ => p,
        }
    }
}

/// The number of zoom-in events in `events` minus the number of zoom-out events.
pub open spec fn zoom_net(events: Seq<AppEvent>) -> int
    decreases events.len(),
{
    if events.len() == 0 {
        0
    } else {
        zoom_net(events.drop_last()) + match events.last() {
            AppEvent::ZoomIn { .. } => 1int,
            AppEvent::ZoomOut { .. } => -1int,
            _ => 0int,
        }
    }
}

/// What one frame tick asks of the camera, in the order the camera applies it: a resize of
/// the view to (cols, rows), recentering, a pan by (cols, rows) of cells, and a number of
/// focal zoom steps (negative: out) at a cursor cell.
#[derive(Debug, Clone, Copy)]
pub struct FrameUpdate {
    pub resize: Option<(u16, u16)>,
    pub center_view: bool,
    pub pan: Option<(i64, i64)>,
    pub zoom: Option<(u16, u16, i64)>,
}

impl FrameUpdate {
    /// The update changes the view and needs a redraw.
    pub open spec fn spec_dirty(&self) -> bool {
        self.resize is Some || self.center_view || self.pan is Some || self.zoom is Some
    }

    /// The update changes the view and needs a redraw.
    pub fn is_dirty(&self) -> (r: bool)
        ensures
            r == self.spec_dirty(),
    {
        self.resize.is_some() || self.center_view || self.pan.is_some() || self.zoom.is_some()
    }
}

/// View rows for a terminal of `rows` rows: the bottom row is the status bar, at least one row
/// stays for the image (`rows.saturating_sub(1).max(1)`).
pub open spec fn view_rows(rows: u16) -> u16 {
    if rows >= 2 {
        (rows - 1) as u16
    } else {
        1
    }
}

/// Coalesces high-frequency touchpad and terminal events within a single frame tick.
pub struct InputCoalescer {
    /// Accumulated horizontal pan displacement in terminal columns.
    pan_dx: i64,
    /// Accumulated vertical pan displacement in terminal rows.
    pan_dy: i64,
    /// Net number of zoom steps (in minus out).
    zoom_steps: i64,
    /// Anchor cursor cell coordinates for the compounded focal zoom.
    last_zoom_cursor: Option<(u16, u16)>,
    /// Pending terminal window dimension update (cols, rows).
    resize: Option<(u16, u16)>,
    /// Flag indicating whether camera should re-center on image.
    center_view: bool,
    /// Flag indicating whether the user requested to terminate the session.
    quit: bool,
}

impl InputCoalescer {
    /// Accumulated pan (columns, rows).
    pub closed spec fn spec_pan(&self) -> (int, int) {
        (self.pan_dx as int, self.pan_dy as int)
    }

    /// Net zoom steps.
    pub closed spec fn spec_zoom_steps(&self) -> int {
        self.zoom_steps as int
    }

    /// Cursor of the latest zoom event.
    pub closed spec fn spec_zoom_cursor(&self) -> Option<(u16, u16)> {
        self.last_zoom_cursor
    }

    /// Latest resize.
    pub closed spec fn spec_resize(&self) -> Option<(u16, u16)> {
        self.resize
    }

    /// A recenter was asked for.
    pub closed spec fn spec_center(&self) -> bool {
        self.center_view
    }

    /// A quit was asked for.
    pub closed spec fn spec_quit(&self) -> bool {
        self.quit
    }

    /// Creates a coalescer that has recorded nothing.
    pub fn new() -> (r: Self)
        ensures
            r.spec_pan() == (0int, 0int),
            r.spec_zoom_steps() == 0,
            r.spec_zoom_cursor() is None,
            r.spec_resize() is None,
            !r.spec_center(),
            !r.spec_quit(),
    {
        InputCoalescer {
            pan_dx: 0,
            pan_dy: 0,
            zoom_steps: 0,
            last_zoom_cursor: None,
            resize: None,
            center_view: false,
            quit: false,
        }
    }

    /// Records an incoming event, accumulating continuous gestures: pans add up, zoom steps
    /// add up (out counting negative) at the latest cursor, the latest resize wins.
    pub fn record(&mut self, event: AppEvent)
        ensures
            final(self).spec_pan() == pan_step(old(self).spec_pan(), event),
            final(self).spec_zoom_steps() == zoom_step(old(self).spec_zoom_steps(), event),
            final(self).spec_zoom_cursor() == match event {
                AppEvent::ZoomIn { cursor_x, cursor_y } => Some((cursor_x, cursor_y)),
                AppEvent::ZoomOut { cursor_x, cursor_y } => Some((cursor_x, cursor_y)),
                _ => old(self).spec_zoom_cursor(),
            },
            final(self).spec_resize() == match event {
                AppEvent::Resize { cols, rows } => Some((cols, rows)),
                _ => old(self).spec_resize(),
            },
            final(self).spec_center() == (old(self).spec_center() || event == AppEvent::CenterView),
            final(self).spec_quit() == (old(self).spec_quit() || event == AppEvent::Quit),
    {
        match event {
            AppEvent::Quit => self.quit = true,
            AppEvent::Pan { delta_x, delta_y } => {
                self.pan_dx = saturating_add_i64(self.pan_dx, delta_x as i64);
                self.pan_dy = saturating_add_i64(self.pan_dy, delta_y as i64);
            },
            AppEvent::ZoomIn { cursor_x, cursor_y } => {
                self.zoom_steps = saturating_add_i64(self.zoom_steps, 1);
                self.last_zoom_cursor = Some((cursor_x, cursor_y));
            },
            AppEvent::ZoomOut { cursor_x, cursor_y } => {
                self.zoom_steps = saturating_add_i64(self.zoom_steps, -1);
                self.last_zoom_cursor = Some((cursor_x, cursor_y));
            },
            AppEvent::Resize { cols, rows } => {
                self.resize = Some((cols, rows));
            },
            AppEvent::CenterView => {
                self.center_view = true;
            },
            AppEvent::FileModified => {},
        }
    }

    /// Checks if any terminal resize event was recorded in this frame tick.
    pub fn has_resize(&self) -> (r: bool)
        ensures
            r == self.spec_resize() is Some,
    {
        self.resize.is_some()
    }

    /// A quit was recorded in this frame tick.
    pub fn quit_requested(&self) -> (r: bool)
        ensures
            r == self.spec_quit(),
    {
        self.quit
    }

    /// The camera changes that the recorded events ask for.
    pub fn plan(&self) -> (r: FrameUpdate)
        ensures
            r.resize == match self.spec_resize() {
                Some((cols, rows)) => Some((cols, view_rows(rows))),
                None => None,
            },
            r.center_view == self.spec_center(),
            r.pan == if self.spec_pan() == (0int, 0int) {
                None
            } else {
                Some((self.spec_pan().0 as i64, self.spec_pan().1 as i64))
            },
            r.zoom == match self.spec_zoom_cursor() {
                Some((x, y)) => if self.spec_zoom_steps() != 0 {
                    Some((x, y, self.spec_zoom_steps() as i64))
                } else {
                    None
                },
                None => None,
            },
    {
        let resize = match self.resize {
            Some((cols, rows)) => {
                let vr: u16 = if rows >= 2 {
                    rows - 1
                } else {
                    1
                };
                Some((cols, vr))
            },
            None => None,
        };
        let pan = if self.pan_dx != 0 || self.pan_dy != 0 {
            Some((self.pan_dx, self.pan_dy))
        } else {
            None
        };
        let zoom = match self.last_zoom_cursor {
            Some((x, y)) => if self.zoom_steps != 0 {
                Some((x, y, self.zoom_steps))
            } else {
                None
            },
            None => None,
        };
        FrameUpdate { resize, center_view: self.center_view, pan, zoom }
    }
}

/// Within one frame tick the pans add up exactly: for any tick of at most `u32::MAX` events,
/// the pan a fresh coalescer holds after recording them is the plain sum of their deltas (no
/// saturation is ever reached).
pub proof fn law_pans_add_up(events: Seq<AppEvent>)
    requires
        events.len() <= u32::MAX,
    ensures
        pan_after(events) == pan_total(events),
        -0x8000_0000 * events.len() <= pan_total(events).0 <= 0x7fff_ffff * events.len(),
        -0x8000_0000 * events.len() <= pan_total(events).1 <= 0x7fff_ffff * events.len(),
    decreases events.len(),
{
    if events.len() > 0 {
        let rest = events.drop_last();
        law_pans_add_up(rest);
        let n = rest.len() as int;
        assert(0x8000_0000 * n + 0x8000_0000 <= 0x8000_0000 * (n + 1)) by (nonlinear_arith);
        assert(0x7fff_ffff * n + 0x7fff_ffff <= 0x7fff_ffff * (n + 1)) by (nonlinear_arith);
        assert(0x8000_0000 * (n + 1) <= 0x8000_0000 * 0x1_0000_0000) by (nonlinear_arith)
            requires
                n + 1 <= 0x1_0000_0000,
        ;
        assert(0x7fff_ffff * (n + 1) <= 0x7fff_ffff * 0x1_0000_0000) by (nonlinear_arith)
            requires
                n + 1 <= 0x1_0000_0000,
        ;
        assert(0 <= 0x7fff_ffff * n) by (nonlinear_arith)
            requires
                0 <= n,
        ;
    }
}

/// The net zoom of a frame tick is the number of zoom-in events minus the number of zoom-out
/// events: a fresh coalescer that records any tick of at most `i64::MAX` events holds exactly
/// that count, which the camera then applies as one compounded zoom.
pub proof fn law_zoom_steps_net(events: Seq<AppEvent>)
    requires
        events.len() <= i64::MAX,
    ensures
        zoom_after(events) == zoom_net(events),
        -(events.len() as int) <= zoom_net(events) <= events.len(),
    decreases events.len(),
{
    if events.len() > 0 {
        law_zoom_steps_net(events.drop_last());
    }
}

} // verus!
