//! Frame geometry: the pixel size of a terminal cell and the pixel target of a frame.

use crate::input::coalescer::view_rows;
use vstd::prelude::*;

verus! {

/// Cell size in pixels (width, height) assumed when neither the terminal nor the transport
/// reports one.
pub const DEFAULT_CELL_PIXEL_SIZE: (u16, u16) = (11, 22);

/// `n`, or 1 where `n` is 0.
pub open spec fn at_least_one(n: u16) -> u16 {
    if n == 0 {
        1
    } else {
        n
    }
}

/// The pixel size of one cell: from the terminal's window report `(width, height, columns,
/// rows)` in pixels and cells when all four are positive (at least one pixel each way),
/// otherwise the transport's report, otherwise [`DEFAULT_CELL_PIXEL_SIZE`].
pub open spec fn cell_pixels(window: Option<(u16, u16, u16, u16)>, transport_cell: Option<(u16, u16)>) -> (u16, u16) {
    match window {
        Some((w, h, c, r)) if w > 0 && h > 0 && c > 0 && r > 0 => (
            at_least_one((w / c) as u16),
            at_least_one((h / r) as u16),
        ),
        _ => match transport_cell {
            Some(cell) => cell,
            None => DEFAULT_CELL_PIXEL_SIZE,
        },
    }
}

/// The pixel size of one terminal cell, as [`cell_pixels`] chooses it.
pub fn cell_pixel_size(window: Option<(u16, u16, u16, u16)>, transport_cell: Option<(u16, u16)>) -> (r: (u16, u16))
    ensures
        r == cell_pixels(window, transport_cell),
{
    match window {
        Some((w, h, c, r)) if w > 0 && h > 0 && c > 0 && r > 0 => {
            let cw = w / c;
            let ch = h / r;
            (
                if cw == 0 {
                    1
                } else {
                    cw
                },
                if ch == 0 {
                    1
                } else {
                    ch
                },
            )
        },
        _ => match transport_cell {
            Some(cell) => cell,
            None => DEFAULT_CELL_PIXEL_SIZE,
        },
    }
}

/// The cells and pixels a frame covers on a terminal of `cols x rows` cells of `cell` pixels:
/// every column, and every row but the status bar (at least one).
pub fn frame_target(cols: u16, rows: u16, cell: (u16, u16)) -> (r: ((u16, u16), (u32, u32)))
    ensures
        r.0 == (cols, view_rows(rows)),
        r.1.0 == cols * cell.0,
        r.1.1 == view_rows(rows) * cell.1,
{
    let vr: u16 = if rows >= 2 {
        rows - 1
    } else {
        1
    };
    let (cw, ch) = cell;
    assert(cols * cw <= 0xffff * 0xffff) by (nonlinear_arith)
        requires
            cols <= 0xffff,
            cw <= 0xffff,
    ;
    assert(vr * ch <= 0xffff * 0xffff) by (nonlinear_arith)
        requires
            vr <= 0xffff,
            ch <= 0xffff,
    ;
    ((cols, vr), ((cols as u32) * (cw as u32), (vr as u32) * (ch as u32)))
}

} // verus!
