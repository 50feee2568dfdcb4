//! Heads-Up Display (HUD) status bar layout.
//!
//! Lays out the bottom status line: camera coordinates and zoom, or a non-fatal error alert,
//! truncated so that it never reaches the terminal's bottom-right cell.

use crate::text::{
    chars_of, decimal, decimal_chars, push_decimal, push_str, signed_decimal_chars, string_push,
    string_push_decimal, string_push_signed_decimal, utf8,
};
use vstd::prelude::*;

verus! {

/// `max_len.saturating_sub(3)`.
pub open spec fn keep_before_ellipsis(max_len: nat) -> nat {
    if max_len >= 3 {
        (max_len - 3) as nat
    } else {
        0
    }
}

/// `s` fitted to `max_len` columns: padded with spaces on the right when it fits, otherwise
/// cut to `max_len - 3` characters followed by `...`.
pub open spec fn truncated(s: Seq<char>, max_len: nat) -> Seq<char> {
    if s.len() <= max_len {
        s + Seq::new((max_len - s.len()) as nat, |i: int| ' ')
    } else {
        s.take(keep_before_ellipsis(max_len) as int) + seq!['.', '.', '.']
    }
}

/// Fits `s` to `max_len` characters (see [`truncated`]).
pub fn truncate_str(s: &str, max_len: usize) -> (r: String)
    ensures
        r@ == truncated(s@, max_len as nat),
{
    let chars = chars_of(s);
    let n = chars.len();
    if n <= max_len {
        let mut r = String::from_str(s);
        let mut k: usize = n;
        while k < max_len
            invariant
                n <= k <= max_len,
                n == s@.len(),
                r@ == s@ + Seq::new((k - n) as nat, |i: int| ' '),
            decreases max_len - k,
        {
            string_push(&mut r, ' ');
            assert(r@ =~= s@ + Seq::new((k + 1 - n) as nat, |i: int| ' '));
            k = k + 1;
        }
        r
    } else {
        let keep: usize = if max_len >= 3 {
            max_len - 3
        } else {
            0
        };
        let mut r = String::new();
        let mut i: usize = 0;
        while i < keep
            invariant
                i <= keep < n,
                n == chars@.len(),
                chars@ == s@,
                r@ == s@.take(i as int),
            decreases keep - i,
        {
            string_push(&mut r, chars[i]);
            assert(r@ =~= s@.take(i + 1));
            i = i + 1;
        }
        string_push(&mut r, '.');
        string_push(&mut r, '.');
        string_push(&mut r, '.');
        assert(r@ =~= truncated(s@, max_len as nat));
        r
    }
}

/// The normal status text.
pub open spec fn status_text(dimensions: (u32, u32), zoom_percent: u32, offset: (i32, i32)) -> Seq<
    char,
> {
    " [IMAGE] "@ + decimal_chars(dimensions.0 as nat) + "x"@ + decimal_chars(dimensions.1 as nat)
        + " | Zoom: "@ + decimal_chars(zoom_percent as nat) + "% | Pos: ("@
        + signed_decimal_chars(offset.0 as int) + ", "@ + signed_decimal_chars(offset.1 as int)
        + ") | 'c' to center | 'q' to quit"@
}

/// The error alert text.
pub open spec fn error_text(err: Seq<char>) -> Seq<char> {
    " [ERROR] "@ + err + " | Preserving last valid frame | 'q' to quit"@
}

/// Columns the bar may fill: all but the last one, and at least one.
pub open spec fn hud_columns(cols: u16) -> nat {
    if cols >= 2 {
        (cols - 1) as nat
    } else {
        1
    }
}

/// The bytes that draw the bar on row `rows`: a cursor move and line clear, then the error
/// alert in bold white on red, or the status text in inverse video.
pub open spec fn hud_bytes(
    rows: u16,
    cols: u16,
    dimensions: (u32, u32),
    zoom_percent: u32,
    offset: (i32, i32),
    error: Option<Seq<char>>,
) -> Seq<u8> {
    if rows == 0 || cols == 0 {
        Seq::empty()
    } else {
        utf8("\x1b["@) + decimal(rows as nat) + utf8(";1H\x1b[2K"@) + match error {
            Some(e) => utf8("\x1b[1;37;41m"@) + utf8(truncated(error_text(e), hud_columns(cols)))
                + utf8("\x1b[0m"@),
            None => utf8("\x1b[7m"@) + utf8(
                truncated(status_text(dimensions, zoom_percent, offset), hud_columns(cols)),
            ) + utf8("\x1b[0m"@),
        }
    }
}

/// The optional characters of an optional message.
pub open spec fn message_chars(msg: Option<&str>) -> Option<Seq<char>> {
    match msg {
        Some(m) => Some(m@),
        None => None,
    }
}

/// Formats the HUD bar for the bottom row `rows` of a `cols`-wide terminal.
///
/// `zoom_percent` is the zoom factor in percent and `offset` the camera offset, both already
/// rounded to integers; `error` is the pending error message, if any.
pub fn render_hud(
    rows: u16,
    cols: u16,
    dimensions: (u32, u32),
    zoom_percent: u32,
    offset: (i32, i32),
    error: Option<&str>,
) -> (r: Vec<u8>)
    ensures
        r@ == hud_bytes(rows, cols, dimensions, zoom_percent, offset, message_chars(error)),
{
    let mut out: Vec<u8> = Vec::new();
    if rows == 0 || cols == 0 {
        return out;
    }
    push_str(&mut out, "\x1b[");
    push_decimal(&mut out, rows as u64);
    push_str(&mut out, ";1H\x1b[2K");
    let max_cols: usize = if cols >= 2 {
        (cols - 1) as usize
    } else {
        1
    };
    match error {
        Some(err) => {
            let mut text = String::from_str(" [ERROR] ");
            text.append(err);
            text.append(" | Preserving last valid frame | 'q' to quit");
            let t = truncate_str(text.as_str(), max_cols);
            push_str(&mut out, "\x1b[1;37;41m");
            push_str(&mut out, t.as_str());
            push_str(&mut out, "\x1b[0m");
        },
        None => {
            let mut text = String::from_str(" [IMAGE] ");
            string_push_decimal(&mut text, dimensions.0 as u64);
            text.append("x");
            string_push_decimal(&mut text, dimensions.1 as u64);
            text.append(" | Zoom: ");
            string_push_decimal(&mut text, zoom_percent as u64);
            text.append("% | Pos: (");
            string_push_signed_decimal(&mut text, offset.0 as i64);
            text.append(", ");
            string_push_signed_decimal(&mut text, offset.1 as i64);
            text.append(") | 'c' to center | 'q' to quit");
            assert(text@ =~= status_text(dimensions, zoom_percent, offset));
            let t = truncate_str(text.as_str(), max_cols);
            push_str(&mut out, "\x1b[7m");
            push_str(&mut out, t.as_str());
            push_str(&mut out, "\x1b[0m");
        },
    }
    assert(out@ =~= hud_bytes(rows, cols, dimensions, zoom_percent, offset, message_chars(error)));
    out
}

/// A fitted text is exactly as wide as the space it is fitted to, whenever the space holds at
/// least the ellipsis or the text fits: the status bar then never reaches the last column.
pub proof fn law_truncated_width(s: Seq<char>, max_len: nat)
    requires
        s.len() <= max_len || max_len >= 3,
    ensures
        truncated(s, max_len).len() == max_len,
{
}

/// A text that fits is kept whole, followed only by spaces.
pub proof fn law_truncated_keeps_fitting_text(s: Seq<char>, max_len: nat)
    requires
        s.len() <= max_len,
    ensures
        truncated(s, max_len).take(s.len() as int) == s,
        forall|i: int| s.len() <= i < max_len ==> #[trigger] truncated(s, max_len)[i] == ' ',
{
    assert(truncated(s, max_len).take(s.len() as int) =~= s);
}

/// The status bar reads ` [IMAGE] WxH | Zoom: Z% | Pos: (X, Y) | 'c' to center | 'q' to
/// quit`, every number in decimal, each offset component signed: a `-` exactly when it is
/// negative, then the digits of its magnitude.
pub proof fn law_status_shows_signed_position(
    dimensions: (u32, u32),
    zoom_percent: u32,
    offset: (i32, i32),
)
    ensures
        ({
            let shown = |v: i32|
                if v < 0 {
                    seq!['-'] + decimal_chars((-(v as int)) as nat)
                } else {
                    decimal_chars(v as nat)
                };
            status_text(dimensions, zoom_percent, offset) == " [IMAGE] "@ + decimal_chars(
                dimensions.0 as nat,
            ) + "x"@ + decimal_chars(dimensions.1 as nat) + " | Zoom: "@ + decimal_chars(
                zoom_percent as nat,
            ) + "% | Pos: ("@ + shown(offset.0) + ", "@ + shown(offset.1)
                + ") | 'c' to center | 'q' to quit"@
        }),
{
}

} // verus!
