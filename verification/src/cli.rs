//! Validation of the command-line values: the frame-rate cap and the canvas
//! background colour.

use crate::text::{
    all_digits, digit_of, digit_value, parse_unsigned, parse_unsigned_bytes, trim, trim_chars,
};
use vstd::prelude::*;
use vstd::string::StringSliceAdditionalSpecFns;
use vstd::slice::slice_subrange;
use vstd::utf8::*;

verus! {

/// Default solid white canvas background fallback `[R, G, B, A]`.
pub const DEFAULT_FALLBACK_BG: [u8; 4] = [255, 255, 255, 255];

/// Largest accepted frame-rate cap.
pub const MAX_FPS: u32 = 240;

/// The message for a frame rate that is not an unsigned integer.
pub open spec fn fps_not_a_number_message(val: Seq<char>) -> Seq<char> {
    "Invalid FPS value '"@ + val + "': must be a positive integer"@
}

/// The message for a frame rate outside `1..=240`.
pub open spec fn fps_out_of_range_message(val: Seq<char>) -> Seq<char> {
    "Invalid framerate '"@ + val + "': FPS must be between 1 and 240"@
}

/// Parses and validates the CLI framerate limit.
///
/// The value is read as a `u32` (an optional `+`, then decimal digits) and must lie in
/// `1..=240`; otherwise the error message names the offending text.
pub fn parse_fps(val: &str) -> (r: Result<u32, String>)
    ensures
        match parse_unsigned(val.spec_bytes(), 10, u32::MAX as nat) {
            None => r matches Err(e) && e@ == fps_not_a_number_message(val@),
            Some(v) => if 1 <= v <= MAX_FPS {
                r == Ok::<u32, String>(v as u32)
            } else {
                r matches Err(e) && e@ == fps_out_of_range_message(val@)
            },
        },
{
    let parsed = parse_unsigned_bytes(val.as_bytes(), 10, u32::MAX);
    match parsed {
        None => {
            let mut msg = String::from_str("Invalid FPS value '");
            msg.append(val);
            msg.append("': must be a positive integer");
            Err(msg)
        },
        Some(fps) => {
            if fps == 0 || fps > MAX_FPS {
                let mut msg = String::from_str("Invalid framerate '");
                msg.append(val);
                msg.append("': FPS must be between 1 and 240");
                Err(msg)
            } else {
                Ok(fps)
            }
        },
    }
}

/// Value of an ASCII hexadecimal digit (`0-9`, `a-f`, `A-F`); 0 for any other byte.
pub open spec fn hex_value(b: u8) -> nat {
    match digit_of(b, 16) {
        Some(v) => v,
        None => 0,
    }
}

/// Every byte of `hex` is an ASCII hexadecimal digit.
pub open spec fn all_hex(hex: Seq<u8>) -> bool {
    all_digits(hex, 16)
}

/// `d` with every byte written twice (`abc` as `aabbcc`).
pub open spec fn doubled(d: Seq<u8>) -> Seq<u8> {
    Seq::new(2 * d.len(), |i: int| d[i / 2])
}

/// The byte written by the two hex digits at `2k` and `2k + 1` of `d`.
pub open spec fn hex_channel(d: Seq<u8>, k: int) -> u8 {
    (hex_value(d[2 * k]) * 16 + hex_value(d[2 * k + 1])) as u8
}

/// The RGBA colour written after `#`: `#RGB`, `#RGBA`, `#RRGGBB` or `#RRGGBBAA` in hex
/// digits, a one-digit channel standing for the digit written twice and a missing alpha for
/// `ff`; `None` for any other text.
pub open spec fn hex_color(hex: Seq<u8>) -> Option<Seq<u8>> {
    if !(hex.len() == 3 || hex.len() == 4 || hex.len() == 6 || hex.len() == 8) || !all_hex(hex) {
        None
    } else {
        let d = if hex.len() <= 4 {
            doubled(hex)
        } else {
            hex
        };
        let alpha: u8 = if d.len() == 8 {
            hex_channel(d, 3)
        } else {
            255
        };
        Some(seq![hex_channel(d, 0), hex_channel(d, 1), hex_channel(d, 2), alpha])
    }
}

/// UTF-8 bytes of the trimmed background argument.
pub open spec fn bg_bytes(arg: Seq<char>) -> Seq<u8> {
    encode_utf8(trim_chars(arg))
}

/// The trimmed argument starts with `#`.
pub open spec fn bg_has_hash(arg: Seq<char>) -> bool {
    bg_bytes(arg).len() > 0 && bg_bytes(arg)[0] == 35
}

/// The colour that an argument selects: the hex colour after `#`, or opaque white when the
/// `#` is missing or what follows it is not a hex colour.
pub open spec fn bg_color_of(arg: Seq<char>) -> Seq<u8> {
    if bg_has_hash(arg) {
        match hex_color(bg_bytes(arg).drop_first()) {
            Some(rgba) => rgba,
            None => seq![255u8, 255u8, 255u8, 255u8],
        }
    } else {
        seq![255u8, 255u8, 255u8, 255u8]
    }
}

/// The byte written by two hex digits.
fn hex_byte(hi: u8, lo: u8) -> (r: u8)
    requires
        digit_of(hi, 16) is Some,
        digit_of(lo, 16) is Some,
    ensures
        r == (hex_value(hi) * 16 + hex_value(lo)) as u8,
        r as int == hex_value(hi) * 16 + hex_value(lo),
{
    let h = digit_value(hi, 16).unwrap();
    let l = digit_value(lo, 16).unwrap();
    (h * 16 + l) as u8
}

/// Whether every byte of `hex` is an ASCII hex digit.
fn is_all_hex(hex: &[u8]) -> (r: bool)
    ensures
        r == all_hex(hex@),
{
    let mut i: usize = 0;
    while i < hex.len()
        invariant
            i <= hex@.len(),
            forall|j: int| 0 <= j < i ==> (#[trigger] digit_of(hex@[j], 16)) is Some,
        decreases hex.len() - i,
    {
        if digit_value(hex[i], 16).is_none() {
            assert(digit_of(hex@[i as int], 16) is None);
            return false;
        }
        i = i + 1;
    }
    true
}

/// Parses an optional CLI background string into an RGBA byte array.
///
/// Accepts `#RGB`, `#RGBA`, `#RRGGBB` and `#RRGGBBAA` (after trimming whitespace).
/// Falls back to solid white `[255, 255, 255, 255]` if `#` is missing or the hex is invalid.
/// Returns `None` if no background argument was passed.
pub fn parse_bg_color(arg: Option<&str>) -> (r: Option<[u8; 4]>)
    ensures
        match arg {
            None => r is None,
            Some(s) => r matches Some(c) && c@ == bg_color_of(s@),
        },
{
    let s = match arg {
        None => {
            return None;
        },
        Some(s) => s,
    };
    let raw = trim(s);
    let bytes = raw.as_bytes();
    let ghost white = seq![255u8, 255u8, 255u8, 255u8];
    assert(DEFAULT_FALLBACK_BG@ =~= white);
    if bytes.len() == 0 || bytes[0] != 35 {
        return Some(DEFAULT_FALLBACK_BG);
    }
    let n: usize = bytes.len() - 1;
    if !(n == 3 || n == 4 || n == 6 || n == 8) {
        return Some(DEFAULT_FALLBACK_BG);
    }
    let hex = slice_from_one(bytes);
    if !is_all_hex(hex) {
        return Some(DEFAULT_FALLBACK_BG);
    }
    let ghost h = hex@;
    let ghost d = if n <= 4 {
        doubled(h)
    } else {
        h
    };
    proof {
        assert forall|i: int| 0 <= i < h.len() implies (#[trigger] digit_of(h[i], 16)) is Some by {}
    }
    let c: [u8; 4] = if n <= 4 {
        let r = hex_byte(hex[0], hex[0]);
        let g = hex_byte(hex[1], hex[1]);
        let b = hex_byte(hex[2], hex[2]);
        let a = if n == 4 {
            hex_byte(hex[3], hex[3])
        } else {
            255
        };
        assert(r == hex_channel(d, 0) && g == hex_channel(d, 1) && b == hex_channel(d, 2));
        [r, g, b, a]
    } else {
        let r = hex_byte(hex[0], hex[1]);
        let g = hex_byte(hex[2], hex[3]);
        let b = hex_byte(hex[4], hex[5]);
        let a = if n == 8 {
            hex_byte(hex[6], hex[7])
        } else {
            255
        };
        [r, g, b, a]
    };
    assert(c@ =~= bg_color_of(s@));
    Some(c)
}

/// `bytes[1..]`.
fn slice_from_one(bytes: &[u8]) -> (r: &[u8])
    requires
        bytes@.len() >= 1,
    ensures
        r@ == bytes@.drop_first(),
{
    let r = slice_subrange(bytes, 1, bytes.len());
    assert(r@ =~= bytes@.drop_first());
    r
}

/// Only `#` followed by 3, 4, 6 or 8 hex digits selects a colour other than the white
/// fallback; the digits give the channels in order, two per channel (one, written twice, in
/// the short forms), with alpha `ff` where it is left out.
pub proof fn law_hex_colour(arg: Seq<char>)
    ensures
        ({
            let hex = bg_bytes(arg).drop_first();
            let d = if hex.len() <= 4 {
                doubled(hex)
            } else {
                hex
            };
            if bg_has_hash(arg) && (hex.len() == 3 || hex.len() == 4 || hex.len() == 6 || hex.len()
                == 8) && all_hex(hex) {
                &&& bg_color_of(arg).len() == 4
                &&& forall|k: int|
                    0 <= k < 3 ==> #[trigger] bg_color_of(arg)[k] as int == hex_value(d[2 * k]) * 16
                        + hex_value(d[2 * k + 1])
                &&& bg_color_of(arg)[3] as int == if d.len() == 8 {
                    hex_value(d[6]) * 16 + hex_value(d[7])
                } else {
                    255
                }
            } else {
                bg_color_of(arg) == seq![255u8, 255u8, 255u8, 255u8]
            }
        }),
{
    let hex = bg_bytes(arg).drop_first();
    let d = if hex.len() <= 4 {
        doubled(hex)
    } else {
        hex
    };
    if bg_has_hash(arg) && (hex.len() == 3 || hex.len() == 4 || hex.len() == 6 || hex.len() == 8)
        && all_hex(hex) {
        assert forall|i: int| 0 <= i < d.len() implies hex_value(#[trigger] d[i]) < 16 by {
            if hex.len() <= 4 {
                assert(d[i] == hex[i / 2]);
                assert(digit_of(hex[i / 2], 16) is Some);
            } else {
                assert(digit_of(hex[i], 16) is Some);
            }
        }
        assert forall|k: int| 0 <= k < 4 && 2 * k + 1 < d.len() implies (hex_channel(d, k) as int
            == hex_value(d[2 * k]) * 16 + hex_value(d[2 * k + 1])) by {
            assert(hex_value(d[2 * k]) < 16 && hex_value(d[2 * k + 1]) < 16);
        }
    }
}

/// `#RGB` is shorthand for `#RRGGBB` and `#RGBA` for `#RRGGBBAA`: a short colour reads
/// exactly as the long colour with every digit doubled, valid or not.
pub proof fn law_short_hex_form(d: Seq<u8>)
    requires
        d.len() == 3 || d.len() == 4,
    ensures
        hex_color(d) == hex_color(doubled(d)),
{
    let e = doubled(d);
    assert(doubled(d).len() == 2 * d.len());
    assert(all_hex(d) <==> all_hex(e)) by {
        if all_hex(d) {
            assert forall|i: int| 0 <= i < e.len() implies (#[trigger] digit_of(e[i], 16)) is Some by {
                assert(e[i] == d[i / 2]);
            }
        }
        if all_hex(e) {
            assert forall|i: int| 0 <= i < d.len() implies (#[trigger] digit_of(d[i], 16)) is Some by {
                assert(e[2 * i] == d[i]);
            }
        }
    }
}

} // verus!
