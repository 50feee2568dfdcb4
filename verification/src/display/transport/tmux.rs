//! TMUX DCS passthrough transport adapter.
//!
//! Wraps terminal graphics escape sequences in DCS envelopes with doubled escape bytes,
//! and reads pane geometry from tmux's `display-message` reply.

use super::TransportAdapter;
use crate::text::{
    chars_of, equals_ignore_case, eq_ignore_ascii_case, parse_unsigned_chars,
    parse_unsigned_text, push_str, trim, trim_char_slice, trim_chars, utf8,
};
use vstd::prelude::*;

verus! {

/// The escape byte.
pub const ESC: u8 = 0x1b;

/// DCS prefix that routes a sequence through tmux: `ESC P tmux ;`.
pub open spec fn dcs_prefix() -> Seq<u8> {
    utf8("\x1bPtmux;"@)
}

/// The string terminator `ESC \`.
pub open spec fn string_terminator() -> Seq<u8> {
    utf8("\x1b\\"@)
}

/// Inside a DCS envelope every escape byte is written twice.
pub open spec fn double_escapes(raw: Seq<u8>) -> Seq<u8>
    decreases raw.len(),
{
    if raw.len() == 0 {
        Seq::empty()
    } else {
        (if raw[0] == ESC {
            seq![ESC, ESC]
        } else {
            seq![raw[0]]
        }) + double_escapes(raw.drop_first())
    }
}

/// Reads a DCS body back: a doubled escape byte stands for one.
pub open spec fn undouble_escapes(body: Seq<u8>) -> Seq<u8>
    decreases body.len(),
{
    if body.len() == 0 {
        Seq::empty()
    } else if body.len() >= 2 && body[0] == ESC && body[1] == ESC {
        seq![ESC] + undouble_escapes(body.skip(2))
    } else {
        seq![body[0]] + undouble_escapes(body.drop_first())
    }
}

/// A raw escape sequence in a tmux passthrough envelope.
pub open spec fn tmux_wrap(raw: Seq<u8>) -> Seq<u8> {
    dcs_prefix() + double_escapes(raw) + string_terminator()
}

/// The raw sequence that a passthrough envelope carries, if `w` is one.
pub open spec fn tmux_unwrap(w: Seq<u8>) -> Option<Seq<u8>> {
    let p = dcs_prefix();
    let st = string_terminator();
    if w.len() >= p.len() + st.len() && w.take(p.len() as int) == p && w.skip(
        w.len() - st.len(),
    ) == st {
        Some(undouble_escapes(w.subrange(p.len() as int, w.len() - st.len())))
    } else {
        None
    }
}

/// Doubling distributes over concatenation.
pub proof fn lemma_double_escapes_concat(a: Seq<u8>, b: Seq<u8>)
    ensures
        double_escapes(a + b) == double_escapes(a) + double_escapes(b),
    decreases a.len(),
{
    if a.len() == 0 {
        assert(a + b =~= b);
    } else {
        assert((a + b).drop_first() =~= a.drop_first() + b);
        lemma_double_escapes_concat(a.drop_first(), b);
    }
}

/// Undoubling reverses doubling.
pub proof fn lemma_undouble_double(raw: Seq<u8>)
    ensures
        undouble_escapes(double_escapes(raw)) == raw,
    decreases raw.len(),
{
    if raw.len() > 0 {
        lemma_undouble_double(raw.drop_first());
        let d = double_escapes(raw);
        let rest = double_escapes(raw.drop_first());
        if raw[0] == ESC {
            assert(d.skip(2) =~= rest);
        } else {
            assert(d.drop_first() =~= rest);
        }
        assert(raw =~= seq![raw[0]] + raw.drop_first());
    }
}

/// A passthrough envelope gives back exactly the sequence it wraps: the prefix and
/// terminator are recognised, and every escape byte inside is read back once.
pub proof fn law_tmux_wrap_roundtrip(raw: Seq<u8>)
    ensures
        tmux_unwrap(tmux_wrap(raw)) == Some(raw),
{
    let p = dcs_prefix();
    let st = string_terminator();
    let d = double_escapes(raw);
    let w = tmux_wrap(raw);
    assert(w.take(p.len() as int) =~= p);
    assert(w.skip(w.len() - st.len()) =~= st);
    assert(w.subrange(p.len() as int, w.len() - st.len()) =~= d);
    lemma_undouble_double(raw);
}

// ---------------------------------------------------------------------------
// Pane geometry
// ---------------------------------------------------------------------------

/// `str::split(',')`: the fields between commas (one more than the number of commas).
pub open spec fn split_fields(s: Seq<char>) -> Seq<Seq<char>>
    decreases s.len(),
{
    if s.len() == 0 {
        seq![Seq::<char>::empty()]
    } else {
        let p = split_fields(s.drop_last());
        if s.last() == ',' {
            p.push(Seq::<char>::empty())
        } else {
            p.update(p.len() - 1, p.last().push(s.last()))
        }
    }
}

/// A split has at least one field.
pub proof fn lemma_split_fields_nonempty(s: Seq<char>)
    ensures
        split_fields(s).len() >= 1,
    decreases s.len(),
{
    if s.len() > 0 {
        lemma_split_fields_nonempty(s.drop_last());
    }
}

/// A `u16` field read with `parse().unwrap_or(0)`.
pub open spec fn field_u16(f: Seq<char>) -> nat {
    match parse_unsigned_text(f, 65535) {
        Some(v) => v,
        None => 0,
    }
}

/// The reply's fields: `pane_top, pane_left, status-position, status, cell width, cell height`.
pub open spec fn info_fields(reply: Seq<char>) -> Seq<Seq<char>> {
    split_fields(trim_chars(reply))
}

/// One row for a status bar shown at the top.
pub open spec fn status_rows(p: Seq<Seq<char>>) -> nat {
    if trim_chars(p[3]) == seq!['o', 'n'] && trim_chars(p[2]) == seq!['t', 'o', 'p'] {
        1
    } else {
        0
    }
}

/// The optional characters of an optional string.
pub open spec fn reply_chars(reply: Option<&str>) -> Option<Seq<char>> {
    match reply {
        Some(s) => Some(s@),
        None => None,
    }
}

/// The `u16` sums that place the pane would overflow (the `u16` arithmetic panics there).
pub open spec fn tmux_info_overflows(in_session: bool, reply: Option<Seq<char>>) -> bool {
    in_session && match reply {
        Some(s) => {
            let p = info_fields(s);
            p.len() >= 4 && (1 + status_rows(p) + field_u16(p[0]) > 65535 || 1 + field_u16(p[1])
                > 65535)
        },
        None => false,
    }
}

/// Pane origin and cell size from a `display-message` reply: `((1, 1), None)` outside tmux,
/// without a reply, or with fewer than four fields.
pub open spec fn tmux_info(in_session: bool, reply: Option<Seq<char>>) -> (
    (u16, u16),
    Option<(u16, u16)>,
) {
    if !in_session {
        ((1, 1), None)
    } else {
        match reply {
            None => ((1, 1), None),
            Some(s) => {
                let p = info_fields(s);
                if p.len() < 4 {
                    ((1, 1), None)
                } else {
                    let row = 1 + status_rows(p) + field_u16(p[0]);
                    let col = 1 + field_u16(p[1]);
                    let cell = if p.len() >= 6 && field_u16(p[4]) > 0 && field_u16(p[5]) > 0 {
                        Some((field_u16(p[4]) as u16, field_u16(p[5]) as u16))
                    } else {
                        None
                    };
                    ((row as u16, col as u16), cell)
                }
            },
        }
    }
}

/// tmux's `allow-passthrough` reply enables passthrough: `on` or `all` in any case, after
/// trimming. (`to_lowercase` maps only the ASCII letters to `a`, `l`, `n`, `o`.)
pub open spec fn passthrough_reply_enabled(reply: Seq<char>) -> bool {
    let t = utf8(trim_chars(reply));
    eq_ignore_ascii_case(t, utf8("on"@)) || eq_ignore_ascii_case(t, utf8("all"@))
}

/// The characters of each field.
pub open spec fn fields_view(v: Seq<Vec<char>>) -> Seq<Seq<char>> {
    v.map_values(|f: Vec<char>| f@)
}

/// Splits characters at commas.
fn split_commas(s: &[char]) -> (r: Vec<Vec<char>>)
    ensures
        fields_view(r@) == split_fields(s@),
{
    let mut done: Vec<Vec<char>> = Vec::new();
    let mut cur: Vec<char> = Vec::new();
    let mut i: usize = 0;
    assert(s@.take(0) =~= Seq::<char>::empty());
    assert(fields_view(done@).push(cur@) =~= split_fields(s@.take(0)));
    while i < s.len()
        invariant
            i <= s@.len(),
            fields_view(done@).push(cur@) == split_fields(s@.take(i as int)),
        decreases s.len() - i,
    {
        let ghost before = s@.take(i as int);
        assert(s@.take(i + 1).drop_last() =~= before);
        proof {
            lemma_split_fields_nonempty(before);
        }
        let c = s[i];
        assert(s@.take(i + 1).last() == c);
        let ghost prev_done = done@;
        if c == ',' {
            done.push(cur);
            assert(fields_view(done@) =~= fields_view(prev_done).push(cur@));
            cur = Vec::new();
            assert(fields_view(done@).push(cur@) =~= split_fields(s@.take(i + 1)));
        } else {
            let ghost prev_cur = cur@;
            cur.push(c);
            assert(fields_view(done@).push(prev_cur).update(fields_view(done@).len() as int, prev_cur.push(c)) =~= fields_view(done@).push(cur@));
            assert(fields_view(done@).push(cur@) =~= split_fields(s@.take(i + 1)));
        }
        i = i + 1;
    }
    assert(s@.take(s@.len() as int) =~= s@);
    let ghost last_done = done@;
    let ghost last_cur = cur@;
    done.push(cur);
    assert(fields_view(done@) =~= fields_view(last_done).push(last_cur));
    done
}

/// Character slices are equal.
fn chars_equal(a: &[char], b: &[char]) -> (r: bool)
    ensures
        r == (a@ == b@),
{
    if a.len() != b.len() {
        return false;
    }
    let mut i: usize = 0;
    while i < a.len()
        invariant
            a@.len() == b@.len(),
            i <= a@.len(),
            forall|j: int| 0 <= j < i ==> a@[j] == b@[j],
        decreases a.len() - i,
    {
        if a[i] != b[i] {
            return false;
        }
        i = i + 1;
    }
    assert(a@ =~= b@);
    true
}

/// Reads a `u16` field, or 0 if it does not parse.
fn read_u16(f: &[char]) -> (r: u16)
    ensures
        r == field_u16(f@),
{
    match parse_unsigned_chars(f, 65535) {
        Some(v) => v as u16,
        None => 0,
    }
}

/// TMUX DCS passthrough adapter with dynamic pane, status bar, and cell dimensions tracking.
#[derive(Clone, Copy)]
pub struct TmuxTransport {
    /// 1-indexed (row, col) physical terminal coordinates where this tmux pane begins.
    origin: (u16, u16),
    /// Cell pixel dimensions (width, height) queried from tmux, if supported by the client.
    cell_size: Option<(u16, u16)>,
    /// The process runs inside a tmux session (`$TMUX` is set).
    in_session: bool,
    /// The server's `allow-passthrough` setting lets escape sequences through.
    passthrough: bool,
}

impl TmuxTransport {
    /// The process runs inside a tmux session.
    pub closed spec fn spec_in_session(&self) -> bool {
        self.in_session
    }

    /// The same transport with its geometry read from a new reply.
    pub closed spec fn refreshed(&self, pane_info: Option<Seq<char>>) -> Self {
        let (origin, cell_size) = tmux_info(self.in_session, pane_info);
        TmuxTransport { origin, cell_size, ..*self }
    }

    /// A refreshed transport has the origin and cell size of the new reply, and keeps its
    /// session and passthrough.
    pub proof fn lemma_refreshed(&self, pane_info: Option<Seq<char>>)
        ensures
            self.refreshed(pane_info).spec_origin() == tmux_info(self.spec_in_session(), pane_info).0,
            self.refreshed(pane_info).spec_cell_size() == tmux_info(
                self.spec_in_session(),
                pane_info,
            ).1,
            self.refreshed(pane_info).spec_in_session() == self.spec_in_session(),
            self.refreshed(pane_info).spec_passthrough() == self.spec_passthrough(),
    {
    }

    /// Creates the adapter from what the session probe found: whether `$TMUX` is set, the
    /// reply to `display-message -p "#{pane_top},#{pane_left},#{status-position},#{status},
    /// #{client_cell_width},#{client_cell_height}"` and the reply to
    /// `show -gv allow-passthrough` (each `None` when the command did not succeed).
    pub fn new(in_session: bool, pane_info: Option<&str>, passthrough_setting: Option<&str>) -> (r:
        Self)
        requires
            !tmux_info_overflows(in_session, reply_chars(pane_info)),
        ensures
            r.spec_in_session() == in_session,
            (r.spec_origin(), r.spec_cell_size()) == tmux_info(in_session, reply_chars(pane_info)),
            r.spec_passthrough() == (in_session && match passthrough_setting {
                Some(p) => passthrough_reply_enabled(p@),
                None => false,
            }),
    {
        let (origin, cell_size) = Self::query_info(in_session, pane_info);
        let passthrough = in_session && match passthrough_setting {
            Some(p) => Self::passthrough_reply_allows(p),
            None => false,
        };
        Self { origin, cell_size, in_session, passthrough }
    }

    /// Whether an `allow-passthrough` reply enables passthrough.
    pub fn passthrough_reply_allows(reply: &str) -> (r: bool)
        ensures
            r == passthrough_reply_enabled(reply@),
    {
        let t = trim(reply).as_bytes();
        equals_ignore_case(t, "on".as_bytes()) || equals_ignore_case(t, "all".as_bytes())
    }

    /// Reads pane coordinates, status bar position and host terminal cell pixel dimensions
    /// from the tmux server's `display-message` reply.
    pub fn query_info(in_session: bool, pane_info: Option<&str>) -> (r: (
        (u16, u16),
        Option<(u16, u16)>,
    ))
        requires
            !tmux_info_overflows(in_session, reply_chars(pane_info)),
        ensures
            r == tmux_info(in_session, reply_chars(pane_info)),
    {
        if !in_session {
            return ((1, 1), None);
        }
        let reply = match pane_info {
            None => {
                return ((1, 1), None);
            },
            Some(s) => s,
        };
        let chars = chars_of(reply);
        let trimmed = trim_char_slice(&chars);
        let parts = split_commas(&trimmed);
        let ghost p = info_fields(reply@);
        assert(fields_view(parts@) == p);
        if parts.len() < 4 {
            return ((1, 1), None);
        }
        assert(parts@[0]@ == p[0] && parts@[1]@ == p[1] && parts@[2]@ == p[2] && parts@[3]@ == p[3]);
        let pane_top = read_u16(&parts[0]);
        let pane_left = read_u16(&parts[1]);
        let status_pos = trim_char_slice(&parts[2]);
        let status = trim_char_slice(&parts[3]);
        let top = ['t', 'o', 'p'];
        let on = ['o', 'n'];
        assert(top@ =~= seq!['t', 'o', 'p']);
        assert(on@ =~= seq!['o', 'n']);
        let status_offset: u16 = if chars_equal(&status, &on) && chars_equal(&status_pos, &top) {
            1
        } else {
            0
        };
        let phys_row: u16 = 1 + status_offset + pane_top;
        let phys_col: u16 = 1 + pane_left;
        let cell_size = if parts.len() >= 6 {
            assert(parts@[4]@ == p[4] && parts@[5]@ == p[5]);
            let cw = read_u16(&parts[4]);
            let ch = read_u16(&parts[5]);
            if cw > 0 && ch > 0 {
                Some((cw, ch))
            } else {
                None
            }
        } else {
            None
        };
        ((phys_row, phys_col), cell_size)
    }

    /// Whether placing the pane from this reply overflows `u16` (exactly the replies that
    /// [`TmuxTransport::query_info`] does not accept).
    pub fn pane_info_overflows(in_session: bool, pane_info: Option<&str>) -> (r: bool)
        ensures
            r == tmux_info_overflows(in_session, reply_chars(pane_info)),
    {
        if !in_session {
            return false;
        }
        let reply = match pane_info {
            None => {
                return false;
            },
            Some(s) => s,
        };
        let chars = chars_of(reply);
        let trimmed = trim_char_slice(&chars);
        let parts = split_commas(&trimmed);
        let ghost p = info_fields(reply@);
        assert(fields_view(parts@) == p);
        if parts.len() < 4 {
            return false;
        }
        assert(parts@[0]@ == p[0] && parts@[1]@ == p[1] && parts@[2]@ == p[2] && parts@[3]@ == p[3]);
        let pane_top = read_u16(&parts[0]) as u32;
        let pane_left = read_u16(&parts[1]) as u32;
        let status_pos = trim_char_slice(&parts[2]);
        let status = trim_char_slice(&parts[3]);
        let top = ['t', 'o', 'p'];
        let on = ['o', 'n'];
        assert(top@ =~= seq!['t', 'o', 'p']);
        assert(on@ =~= seq!['o', 'n']);
        let status_offset: u32 = if chars_equal(&status, &on) && chars_equal(&status_pos, &top) {
            1
        } else {
            0
        };
        1 + status_offset + pane_top > 65535 || 1 + pane_left > 65535
    }

    /// Convenience helper returning the physical origin coordinates from a reply.
    pub fn query_origin(in_session: bool, pane_info: Option<&str>) -> (r: (u16, u16))
        requires
            !tmux_info_overflows(in_session, reply_chars(pane_info)),
        ensures
            r == tmux_info(in_session, reply_chars(pane_info)).0,
    {
        Self::query_info(in_session, pane_info).0
    }

    /// Re-reads the pane geometry from a fresh reply.
    pub fn refresh_geometry(&mut self, pane_info: Option<&str>)
        requires
            !tmux_info_overflows(old(self).spec_in_session(), reply_chars(pane_info)),
        ensures
            *final(self) == old(self).refreshed(reply_chars(pane_info)),
            final(self).spec_origin() == tmux_info(old(self).spec_in_session(), reply_chars(pane_info)).0,
            final(self).spec_cell_size() == tmux_info(
                old(self).spec_in_session(),
                reply_chars(pane_info),
            ).1,
            final(self).spec_in_session() == old(self).spec_in_session(),
            final(self).spec_passthrough() == old(self).spec_passthrough(),
    {
        let (origin, cell_size) = Self::query_info(self.in_session, pane_info);
        self.origin = origin;
        self.cell_size = cell_size;
    }
}

impl TransportAdapter for TmuxTransport {
    open spec fn spec_name(&self) -> Seq<char> {
        "TMUX DCS Passthrough"@
    }

    open spec fn spec_active(&self) -> bool {
        self.spec_in_session()
    }

    open spec fn spec_multiplexer(&self) -> bool {
        self.spec_in_session()
    }

    closed spec fn spec_passthrough(&self) -> bool {
        self.passthrough
    }

    open spec fn spec_hint(&self) -> Option<Seq<char>> {
        Some("tmux set -g allow-passthrough on"@)
    }

    open spec fn spec_wrap(&self, raw: Seq<u8>) -> Seq<u8> {
        tmux_wrap(raw)
    }

    closed spec fn spec_origin(&self) -> (u16, u16) {
        self.origin
    }

    closed spec fn spec_cell_size(&self) -> Option<(u16, u16)> {
        self.cell_size
    }

    fn name(&self) -> (r: &'static str) {
        "TMUX DCS Passthrough"
    }

    fn is_active(&self) -> (r: bool) {
        self.in_session
    }

    fn is_multiplexer(&self) -> (r: bool) {
        self.is_active()
    }

    fn is_passthrough_enabled(&self) -> (r: bool) {
        self.passthrough
    }

    fn passthrough_enable_hint(&self) -> (r: Option<&'static str>) {
        Some("tmux set -g allow-passthrough on")
    }

    fn wrap_escape(&self, raw: &[u8]) -> (r: Vec<u8>) {
        // DCS prefix: ESC P tmux ;   Inside content: every ESC is written twice.   Suffix: ESC \
        let mut wrapped: Vec<u8> = Vec::new();
        push_str(&mut wrapped, "\x1bPtmux;");
        let mut i: usize = 0;
        while i < raw.len()
            invariant
                i <= raw@.len(),
                wrapped@ == dcs_prefix() + double_escapes(raw@.take(i as int)),
            decreases raw.len() - i,
        {
            let byte = raw[i];
            proof {
                lemma_double_escapes_concat(raw@.take(i as int), seq![byte]);
                assert(raw@.take(i + 1) =~= raw@.take(i as int) + seq![byte]);
                assert(seq![byte].drop_first() =~= Seq::<u8>::empty());
                assert(double_escapes(Seq::<u8>::empty()) =~= Seq::<u8>::empty());
                assert(double_escapes(seq![byte]) =~= (if byte == ESC {
                    seq![ESC, ESC]
                } else {
                    seq![byte]
                }) + double_escapes(Seq::<u8>::empty()));
            }
            if byte == 0x1b {
                wrapped.push(0x1b);
                wrapped.push(0x1b);
            } else {
                wrapped.push(byte);
            }
            assert(wrapped@ =~= dcs_prefix() + double_escapes(raw@.take(i + 1)));
            i = i + 1;
        }
        assert(raw@.take(raw@.len() as int) =~= raw@);
        push_str(&mut wrapped, "\x1b\\");
        wrapped
    }

    fn physical_origin(&self) -> (r: (u16, u16)) {
        self.origin
    }

    fn cell_size(&self) -> (r: Option<(u16, u16)>) {
        self.cell_size
    }
}

/// Outside a tmux session, or when tmux gives no reply, the pane starts at the top-left cell
/// `(1, 1)` and no cell size is known; nothing overflows there. Both `query_info` and
/// `query_origin` (and the transport that `new` builds) report exactly this.
pub proof fn law_origin_without_tmux(reply: Option<Seq<char>>)
    ensures
        tmux_info(false, reply) == ((1u16, 1u16), None::<(u16, u16)>),
        tmux_info(true, None) == ((1u16, 1u16), None::<(u16, u16)>),
        !tmux_info_overflows(false, reply),
        !tmux_info_overflows(true, None),
{
}

} // verus!
