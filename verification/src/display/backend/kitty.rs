//! Kitty Graphics Protocol backend: a frame is PNG-compressed, Base64-encoded and sent in
//! 4096-byte chunks of APC escape sequences, each put in the transport's envelope.

use super::encode::{encode_base64, encode_png_into, is_base64_byte, png_fast_rgba8, standard_base64};
use super::{GraphicsBackend, GraphicsError, TerminalEnv};
use crate::display::transport::Transport;
use crate::display::transport::TransportAdapter;
use crate::text::{
    contains_ignore_ascii_case, contains_ignore_case, decimal, push_char, push_decimal, push_str, utf8,
};
use vstd::string::StringSliceAdditionalSpecFns;
use vstd::prelude::*;

verus! {

/// Size of one Base64 payload chunk.
pub const CHUNK_SIZE: usize = 4096;

/// Kitty Unicode Placeholder combining diacritics for row and column indices (0..296),
/// in the order the Kitty Graphics Protocol specification lists them.
pub const DIACRITICS: [char; 297] = [
    '\u{0305}', '\u{030D}', '\u{030E}', '\u{0310}', '\u{0312}', '\u{033D}', '\u{033E}', '\u{033F}',
    '\u{0346}', '\u{034A}', '\u{034B}', '\u{034C}', '\u{0350}', '\u{0351}', '\u{0352}', '\u{0357}',
    '\u{035B}', '\u{0363}', '\u{0364}', '\u{0365}', '\u{0366}', '\u{0367}', '\u{0368}', '\u{0369}',
    '\u{036A}', '\u{036B}', '\u{036C}', '\u{036D}', '\u{036E}', '\u{036F}', '\u{0483}', '\u{0484}',
    '\u{0485}', '\u{0486}', '\u{0487}', '\u{0592}', '\u{0593}', '\u{0594}', '\u{0595}', '\u{0597}',
    '\u{0598}', '\u{0599}', '\u{059C}', '\u{059D}', '\u{059E}', '\u{059F}', '\u{05A0}', '\u{05A1}',
    '\u{05A8}', '\u{05A9}', '\u{05AB}', '\u{05AC}', '\u{05AF}', '\u{05C4}', '\u{0610}', '\u{0611}',
    '\u{0612}', '\u{0613}', '\u{0614}', '\u{0615}', '\u{0616}', '\u{0617}', '\u{0657}', '\u{0658}',
    '\u{0659}', '\u{065A}', '\u{065B}', '\u{065D}', '\u{065E}', '\u{06D6}', '\u{06D7}', '\u{06D8}',
    '\u{06D9}', '\u{06DA}', '\u{06DB}', '\u{06DC}', '\u{06DF}', '\u{06E0}', '\u{06E1}', '\u{06E2}',
    '\u{06E4}', '\u{06E7}', '\u{06E8}', '\u{06EB}', '\u{06EC}', '\u{0730}', '\u{0732}', '\u{0733}',
    '\u{0735}', '\u{0736}', '\u{073A}', '\u{073D}', '\u{073F}', '\u{0740}', '\u{0741}', '\u{0743}',
    '\u{0745}', '\u{0747}', '\u{0749}', '\u{074A}', '\u{07EB}', '\u{07EC}', '\u{07ED}', '\u{07EE}',
    '\u{07EF}', '\u{07F0}', '\u{07F1}', '\u{07F3}', '\u{0816}', '\u{0817}', '\u{0818}', '\u{0819}',
    '\u{081B}', '\u{081C}', '\u{081D}', '\u{081E}', '\u{081F}', '\u{0820}', '\u{0821}', '\u{0822}',
    '\u{0823}', '\u{0825}', '\u{0826}', '\u{0827}', '\u{0829}', '\u{082A}', '\u{082B}', '\u{082C}',
    '\u{082D}', '\u{0951}', '\u{0953}', '\u{0954}', '\u{0F82}', '\u{0F83}', '\u{0F86}', '\u{0F87}',
    '\u{135D}', '\u{135E}', '\u{135F}', '\u{17DD}', '\u{193A}', '\u{1A17}', '\u{1A75}', '\u{1A76}',
    '\u{1A77}', '\u{1A78}', '\u{1A79}', '\u{1A7A}', '\u{1A7B}', '\u{1A7C}', '\u{1B6B}', '\u{1B6D}',
    '\u{1B6E}', '\u{1B6F}', '\u{1B70}', '\u{1B71}', '\u{1B72}', '\u{1B73}', '\u{1CD0}', '\u{1CD1}',
    '\u{1CD2}', '\u{1CDA}', '\u{1CDB}', '\u{1CE0}', '\u{1DC0}', '\u{1DC1}', '\u{1DC3}', '\u{1DC4}',
    '\u{1DC5}', '\u{1DC6}', '\u{1DC7}', '\u{1DC8}', '\u{1DC9}', '\u{1DCB}', '\u{1DCC}', '\u{1DD1}',
    '\u{1DD2}', '\u{1DD3}', '\u{1DD4}', '\u{1DD5}', '\u{1DD6}', '\u{1DD7}', '\u{1DD8}', '\u{1DD9}',
    '\u{1DDA}', '\u{1DDB}', '\u{1DDC}', '\u{1DDD}', '\u{1DDE}', '\u{1DDF}', '\u{1DE0}', '\u{1DE1}',
    '\u{1DE2}', '\u{1DE3}', '\u{1DE4}', '\u{1DE5}', '\u{1DE6}', '\u{1DFE}', '\u{20D0}', '\u{20D1}',
    '\u{20D4}', '\u{20D5}', '\u{20D6}', '\u{20D7}', '\u{20DB}', '\u{20DC}', '\u{20E1}', '\u{20E7}',
    '\u{20E9}', '\u{20F0}', '\u{2CEF}', '\u{2CF0}', '\u{2CF1}', '\u{2DE0}', '\u{2DE1}', '\u{2DE2}',
    '\u{2DE3}', '\u{2DE4}', '\u{2DE5}', '\u{2DE6}', '\u{2DE7}', '\u{2DE8}', '\u{2DE9}', '\u{2DEA}',
    '\u{2DEB}', '\u{2DEC}', '\u{2DED}', '\u{2DEE}', '\u{2DEF}', '\u{2DF0}', '\u{2DF1}', '\u{2DF2}',
    '\u{2DF3}', '\u{2DF4}', '\u{2DF5}', '\u{2DF6}', '\u{2DF7}', '\u{2DF8}', '\u{2DF9}', '\u{2DFA}',
    '\u{2DFB}', '\u{2DFC}', '\u{2DFD}', '\u{2DFE}', '\u{2DFF}', '\u{A66F}', '\u{A67C}', '\u{A67D}',
    '\u{A6F0}', '\u{A6F1}', '\u{A8E0}', '\u{A8E1}', '\u{A8E2}', '\u{A8E3}', '\u{A8E4}', '\u{A8E5}',
    '\u{A8E6}', '\u{A8E7}', '\u{A8E8}', '\u{A8E9}', '\u{A8EA}', '\u{A8EB}', '\u{A8EC}', '\u{A8ED}',
    '\u{A8EE}', '\u{A8EF}', '\u{A8F0}', '\u{A8F1}', '\u{AAB0}', '\u{AAB2}', '\u{AAB3}', '\u{AAB7}',
    '\u{AAB8}', '\u{AABE}', '\u{AABF}', '\u{AAC1}', '\u{FE20}', '\u{FE21}', '\u{FE22}', '\u{FE23}',
    '\u{FE24}', '\u{FE25}', '\u{FE26}', '\u{10A0F}', '\u{10A38}', '\u{1D185}', '\u{1D186}', '\u{1D187}',
    '\u{1D188}', '\u{1D189}', '\u{1D1AA}', '\u{1D1AB}', '\u{1D1AC}', '\u{1D1AD}', '\u{1D242}', '\u{1D243}',
    '\u{1D244}',
];

/// The Unicode placeholder character that carries an image cell.
pub const PLACEHOLDER: char = '\u{10EEEE}';

/// An RGBA8 frame: `width * height` pixels, four bytes each, row by row.
pub struct Frame {
    width: u32,
    height: u32,
    pixels: Vec<u8>,
}

impl Frame {
    #[verifier::type_invariant]
    spec fn well_formed(self) -> bool {
        self.pixels@.len() == self.width * self.height * 4
    }

    /// Width in pixels.
    pub closed spec fn spec_width(&self) -> u32 {
        self.width
    }

    /// Height in pixels.
    pub closed spec fn spec_height(&self) -> u32 {
        self.height
    }

    /// The RGBA bytes.
    pub closed spec fn spec_pixels(&self) -> Seq<u8> {
        self.pixels@
    }

    /// A frame from raw RGBA bytes, if their number matches the size (as `ImageBuffer::from_raw`).
    pub fn from_raw(width: u32, height: u32, pixels: Vec<u8>) -> (r: Option<Frame>)
        ensures
            r is Some <==> pixels@.len() == width * height * 4,
            r matches Some(f) ==> f.spec_width() == width && f.spec_height() == height
                && f.spec_pixels() == pixels@,
    {
        let w = width as u64;
        let h = height as u64;
        assert(w * h <= 0xffff_ffffu64 * 0xffff_ffffu64) by (nonlinear_arith)
            requires
                w <= 0xffff_ffffu64,
                h <= 0xffff_ffffu64,
        ;
        let px = w * h;
        if px > 0x3fff_ffff_ffff_ffffu64 {
            assert(pixels@.len() != width * height * 4) by {
                assert(pixels@.len() == pixels.len());
            }
            return None;
        }
        if (pixels.len() as u64) == px * 4 {
            Some(Frame { width, height, pixels })
        } else {
            None
        }
    }

    /// Width in pixels.
    pub fn width(&self) -> (r: u32)
        ensures
            r == self.spec_width(),
    {
        self.width
    }

    /// Height in pixels.
    pub fn height(&self) -> (r: u32)
        ensures
            r == self.spec_height(),
    {
        self.height
    }

    /// The RGBA bytes, handed out.
    pub fn into_pixels(self) -> (r: Vec<u8>)
        ensures
            r@ == self.spec_pixels(),
    {
        self.pixels
    }

    /// The frame holds no pixel bytes.
    pub fn is_empty(&self) -> (r: bool)
        ensures
            r == (self.spec_pixels().len() == 0),
    {
        self.pixels.len() == 0
    }
}

/// The image id that replaces `id`: frames alternate between ids 1 and 2.
pub open spec fn next_image_id(id: u32) -> u32 {
    if id == 1 {
        2
    } else {
        1
    }
}

/// End of the chunk that starts at `off` in a payload of `len` bytes.
pub open spec fn chunk_end(len: int, off: int) -> int {
    if off + CHUNK_SIZE < len {
        off + CHUNK_SIZE
    } else {
        len
    }
}

/// Control keys of the first chunk: transmit-and-display a PNG (`a=T,f=100,t=d`) under image
/// `id`, as a virtual placement (`U=1`) under a multiplexer, over `cols x rows` cells, without
/// moving the cursor (`C=1`) and quietly (`q=2`), followed by `m=`.
pub open spec fn first_chunk_keys(id: u32, mux: bool, cols: u16, rows: u16) -> Seq<u8> {
    utf8("\x1b_Ga=T,f=100,t=d,i="@) + decimal(id as nat) + (if mux {
        utf8(",U=1"@)
    } else {
        Seq::empty()
    }) + utf8(",C=1,c="@) + decimal(cols as nat) + utf8(",r="@) + decimal(rows as nat)
        + utf8(",q=2,m="@)
}

/// The payload bytes of the chunk starting at `off`.
pub open spec fn chunk_payload(b64: Seq<u8>, off: int) -> Seq<u8> {
    b64.subrange(off, chunk_end(b64.len() as int, off))
}

/// The raw APC escape for the chunk starting at `off`: the first carries `keys`, later ones
/// only `m`; `m=1` announces more chunks, `m=0` marks the last.
pub open spec fn chunk_escape(b64: Seq<u8>, off: int, keys: Seq<u8>) -> Seq<u8> {
    let more: nat = if chunk_end(b64.len() as int, off) == b64.len() {
        0
    } else {
        1
    };
    (if off == 0 {
        keys
    } else {
        utf8("\x1b_Gm="@)
    }) + decimal(more) + utf8(";"@) + chunk_payload(b64, off) + utf8("\x1b\\"@)
}

/// The wrapped escapes for the chunks from `off` on.
pub open spec fn transmit_from<T: TransportAdapter + ?Sized>(
    t: &T,
    b64: Seq<u8>,
    keys: Seq<u8>,
    off: int,
) -> Seq<u8>
    decreases b64.len() - off,
{
    if off < 0 || off >= b64.len() {
        Seq::empty()
    } else {
        t.spec_wrap(chunk_escape(b64, off, keys)) + transmit_from(
            t,
            b64,
            keys,
            chunk_end(b64.len() as int, off),
        )
    }
}

/// The payloads of the chunks from `off` on, concatenated.
pub open spec fn payloads_from(b64: Seq<u8>, off: int) -> Seq<u8>
    decreases b64.len() - off,
{
    if off < 0 || off >= b64.len() {
        Seq::empty()
    } else {
        chunk_payload(b64, off) + payloads_from(b64, chunk_end(b64.len() as int, off))
    }
}

/// The diacritic for a row or column index (indices past the table use the first entry).
pub open spec fn diacritic(i: int) -> char {
    if 0 <= i < 297 {
        DIACRITICS@[i]
    } else {
        DIACRITICS@[0]
    }
}

/// Placeholder cells `x..cols` of a row: U+10EEEE, the row diacritic, the column diacritic.
pub open spec fn placeholder_cells(row_mark: char, x: int, cols: int) -> Seq<u8>
    decreases cols - x,
{
    if x >= cols {
        Seq::empty()
    } else {
        utf8(seq![PLACEHOLDER]) + utf8(seq![row_mark]) + utf8(seq![diacritic(x)])
            + placeholder_cells(row_mark, x + 1, cols)
    }
}

/// Placeholder rows `y..rows`, each starting with a cursor move to its line.
pub open spec fn placeholder_rows(y: int, rows: int, cols: int) -> Seq<u8>
    decreases rows - y,
{
    if y >= rows {
        Seq::empty()
    } else {
        utf8("\x1b["@) + decimal((y + 1) as nat) + utf8(";1H"@) + placeholder_cells(
            diacritic(y),
            0,
            cols,
        ) + placeholder_rows(y + 1, rows, cols)
    }
}

/// The placeholder grid: the image id in the 24-bit foreground colour, the cells, a reset.
pub open spec fn placeholder_grid(id: u32, cols: u16, rows: u16) -> Seq<u8> {
    utf8("\x1b[38;2;"@) + decimal(((id >> 16u32) & 0xffu32) as nat) + utf8(";"@) + decimal(
        ((id >> 8u32) & 0xffu32) as nat,
    ) + utf8(";"@) + decimal((id & 0xffu32) as nat) + utf8("m"@) + placeholder_rows(
        0,
        rows as int,
        cols as int,
    ) + utf8("\x1b[0m"@)
}

/// Cursor move to the session's physical origin.
pub open spec fn cursor_to(origin: (u16, u16)) -> Seq<u8> {
    utf8("\x1b["@) + decimal(origin.0 as nat) + utf8(";"@) + decimal(origin.1 as nat) + utf8(
        "H"@,
    )
}

/// The delete command for image `id`.
pub open spec fn delete_image(id: u32) -> Seq<u8> {
    utf8("\x1b_Ga=d,d=i,i="@) + decimal(id as nat) + utf8("\x1b\\"@)
}

/// The command that deletes every placed image.
pub open spec fn clear_all() -> Seq<u8> {
    utf8("\x1b_Ga=d,d=A\x1b\\"@)
}

/// The bytes that present a frame whose Base64 PNG is `b64` over `cols x rows` cells, when the
/// image currently shown has id `old_id`: a cursor move (direct terminals), the chunks, the
/// placeholder grid (multiplexers), and then the deletion of the old image.
pub open spec fn kitty_frame<T: TransportAdapter + ?Sized>(
    t: &T,
    old_id: u32,
    b64: Seq<u8>,
    cols: u16,
    rows: u16,
) -> Seq<u8> {
    let new_id = next_image_id(old_id);
    let mux = t.spec_multiplexer();
    (if mux {
        Seq::empty()
    } else {
        cursor_to(t.spec_origin())
    }) + transmit_from(t, b64, first_chunk_keys(new_id, mux, cols, rows), 0) + (if mux {
        placeholder_grid(new_id, cols, rows)
    } else {
        Seq::empty()
    }) + t.spec_wrap(delete_image(old_id))
}

/// Errors of the Kitty backend.
pub type KittyError = GraphicsError;

/// The bytes that drawing `frame` over `cells = (cols, rows)` produces while image `old_id`
/// is on screen, and the image id afterwards: nothing, with the id kept, for an empty frame
/// or a zero-sized target; otherwise [`kitty_frame`] of the frame's PNG in Base64, with the
/// id alternated.
pub open spec fn kitty_draw<T: TransportAdapter + ?Sized>(
    t: &T,
    old_id: u32,
    frame: &Frame,
    cells: (u16, u16),
) -> (Seq<u8>, u32) {
    if frame.spec_pixels().len() == 0 || cells.0 == 0 || cells.1 == 0 {
        (Seq::empty(), old_id)
    } else {
        let png = png_fast_rgba8(frame.spec_width(), frame.spec_height(), frame.spec_pixels());
        (kitty_frame(t, old_id, standard_base64(png.unwrap()), cells.0, cells.1), next_image_id(old_id))
    }
}

/// The terminal is Kitty: `KITTY_WINDOW_ID` or `KITTY_PID` is set, or `TERM` contains
/// "kitty" in any ASCII case.
pub open spec fn kitty_detected(env: &TerminalEnv) -> bool {
    env.kitty_window_id || env.kitty_pid || match env.term {
        Some(t) => contains_ignore_ascii_case(t@, utf8("kitty"@)),
        None => false,
    }
}

/// Graphics backend implementing the Kitty Graphics Protocol.
pub struct KittyBackend {
    /// Reusable scratch buffer for in-memory PNG compression.
    png_buffer: Vec<u8>,
    /// Alternating image identifier (1 or 2) to eliminate visual flicker during frame replacement.
    current_image_id: u32,
}

impl KittyBackend {
    /// The id of the image on screen.
    pub closed spec fn spec_image_id(&self) -> u32 {
        self.current_image_id
    }

    pub fn new() -> (r: Self)
        ensures
            r.spec_image_id() == 1,
    {
        KittyBackend { png_buffer: Vec::new(), current_image_id: 1 }
    }

    /// Human-readable backend name.
    pub fn name(&self) -> (r: &'static str)
        ensures
            r@ == "Kitty Graphics Protocol"@,
    {
        "Kitty Graphics Protocol"
    }

    /// Checks if the host terminal is Kitty: `KITTY_WINDOW_ID` or `KITTY_PID` is set, or `TERM`
    /// (when set and valid Unicode) contains "kitty" in any ASCII case.
    pub fn is_detected(&self, window_id_set: bool, pid_set: bool, term: Option<&str>) -> (r: bool)
        ensures
            r == (window_id_set || pid_set || match term {
                Some(t) => contains_ignore_ascii_case(t.spec_bytes(), utf8("kitty"@)),
                None => false,
            }),
    {
        if window_id_set || pid_set {
            return true;
        }
        match term {
            Some(t) => contains_ignore_case(t.as_bytes(), "kitty".as_bytes()),
            None => false,
        }
    }

    /// The protocol is available wherever the terminal is detected.
    pub fn is_protocol_available(&self, window_id_set: bool, pid_set: bool, term: Option<&str>) -> (r:
        bool)
        ensures
            r == (window_id_set || pid_set || match term {
                Some(t) => contains_ignore_ascii_case(t.spec_bytes(), utf8("kitty"@)),
                None => false,
            }),
    {
        self.is_detected(window_id_set, pid_set, term)
    }

    /// Renders the bytes that draw `frame` over `target_cells = (cols, rows)` through
    /// `transport`, replacing the image shown before.
    ///
    /// The result is always `Ok` ([`kitty_draw`]): a frame with pixels has a positive size,
    /// which the PNG encoder always accepts.
    pub fn draw_image<T: TransportAdapter + ?Sized>(
        &mut self,
        transport: &T,
        frame: &Frame,
        target_cells: (u16, u16),
    ) -> (r: Result<Vec<u8>, KittyError>)
        ensures
            r matches Ok(out) && (out@, final(self).spec_image_id()) == kitty_draw(
                transport,
                old(self).spec_image_id(),
                frame,
                target_cells,
            ),
    {
        if frame.is_empty() {
            return Ok(Vec::new());
        }
        proof {
            use_type_invariant(frame);
            let (w, h) = (frame.width as int, frame.height as int);
            assert(w > 0 && h > 0) by (nonlinear_arith)
                requires
                    frame.pixels@.len() == w * h * 4,
                    frame.pixels@.len() > 0,
                    w >= 0,
                    h >= 0,
            ;
        }
        // 1. Reuse the scratch buffer to encode the raw RGBA bytes into PNG.
        self.png_buffer.clear();
        match encode_png_into(&mut self.png_buffer, frame.width, frame.height, frame.pixels.as_slice()) {
            Ok(()) => {},
            Err(e) => {
                return Err(KittyError::Encode(e));
            },
        }
        assert(self.png_buffer@ =~= png_fast_rgba8(frame.width, frame.height, frame.pixels@).unwrap());
        let (cols, rows) = target_cells;
        if cols == 0 || rows == 0 {
            return Ok(Vec::new());
        }
        // 2. Base64 payload.
        let b64 = encode_base64(self.png_buffer.as_slice());
        // 3. Double-buffered flicker-free rendering: alternate image ids.
        let out = frame_escapes(transport, self.current_image_id, &b64, cols, rows);
        self.current_image_id = if self.current_image_id == 1 {
            2
        } else {
            1
        };
        Ok(out)
    }

    /// Bytes that clear every graphic placed on the terminal, in the transport's envelope.
    pub fn clear_graphics<T: TransportAdapter + ?Sized>(&mut self, transport: &T) -> (r: Vec<u8>)
        ensures
            r@ == transport.spec_wrap(clear_all()),
            final(self).spec_image_id() == old(self).spec_image_id(),
    {
        let mut clear_cmd: Vec<u8> = Vec::new();
        push_str(&mut clear_cmd, "\x1b_Ga=d,d=A\x1b\\");
        transport.wrap_escape(clear_cmd.as_slice())
    }
}

impl GraphicsBackend for KittyBackend {
    open spec fn spec_name(&self) -> Seq<char> {
        "Kitty Graphics Protocol"@
    }

    open spec fn spec_detected(&self, env: &TerminalEnv) -> bool {
        kitty_detected(env)
    }

    open spec fn spec_protocol_available(&self, env: &TerminalEnv) -> bool {
        kitty_detected(env)
    }

    fn name(&self) -> (r: &'static str) {
        KittyBackend::name(self)
    }

    fn is_detected(&self, env: &TerminalEnv) -> (r: bool) {
        if env.kitty_window_id || env.kitty_pid {
            return true;
        }
        match &env.term {
            Some(t) => contains_ignore_case(t.as_slice(), "kitty".as_bytes()),
            None => false,
        }
    }

    fn is_protocol_available(&self, env: &TerminalEnv) -> (r: bool) {
        GraphicsBackend::is_detected(self, env)
    }

    fn draw_image(&mut self, transport: &Transport, frame: &Frame, target_cells: (u16, u16)) -> (r:
        Result<Vec<u8>, GraphicsError>)
        ensures
            r matches Ok(out) && (out@, final(self).spec_image_id()) == kitty_draw(
                transport,
                old(self).spec_image_id(),
                frame,
                target_cells,
            ),
    {
        KittyBackend::draw_image(self, transport, frame, target_cells)
    }

    fn clear_graphics(&mut self, transport: &Transport) -> (r: Vec<u8>)
        ensures
            r@ == transport.spec_wrap(clear_all()),
            final(self).spec_image_id() == old(self).spec_image_id(),
    {
        KittyBackend::clear_graphics(self, transport)
    }
}

/// The bytes that present a frame whose PNG, in Base64, is `b64` over `cols x rows` cells
/// while image `old_id` is on screen: exactly [`kitty_frame`].
pub fn frame_escapes<T: TransportAdapter + ?Sized>(
    transport: &T,
    old_id: u32,
    b64: &Vec<u8>,
    cols: u16,
    rows: u16,
) -> (r: Vec<u8>)
    ensures
        r@ == kitty_frame(transport, old_id, b64@, cols, rows),
{
    let mut out: Vec<u8> = Vec::new();
    let is_mux = transport.is_multiplexer();
    let new_id: u32 = if old_id == 1 {
        2
    } else {
        1
    };
    // In direct terminal mode, position the cursor at the session origin; under
    // multiplexers, the placeholder text grid anchors the image.
    if !is_mux {
        let (phys_row, phys_col) = transport.physical_origin();
        push_str(&mut out, "\x1b[");
        push_decimal(&mut out, phys_row as u64);
        push_str(&mut out, ";");
        push_decimal(&mut out, phys_col as u64);
        push_str(&mut out, "H");
    }
    let keys = first_chunk_keys_bytes(new_id, is_mux, cols, rows);
    transmit_chunks(&mut out, transport, b64, &keys);
    if is_mux {
        push_placeholder_grid(&mut out, new_id, cols, rows);
    }
    // Delete the previous image only after the new frame is placed.
    let mut del_cmd: Vec<u8> = Vec::new();
    push_str(&mut del_cmd, "\x1b_Ga=d,d=i,i=");
    push_decimal(&mut del_cmd, old_id as u64);
    push_str(&mut del_cmd, "\x1b\\");
    let wrapped_del = transport.wrap_escape(del_cmd.as_slice());
    out.extend_from_slice(wrapped_del.as_slice());
    assert(out@ =~= kitty_frame(transport, old_id, b64@, cols, rows));
    out
}

/// The control keys of the first chunk.
fn first_chunk_keys_bytes(id: u32, mux: bool, cols: u16, rows: u16) -> (r: Vec<u8>)
    ensures
        r@ == first_chunk_keys(id, mux, cols, rows),
{
    let mut k: Vec<u8> = Vec::new();
    push_str(&mut k, "\x1b_Ga=T,f=100,t=d,i=");
    push_decimal(&mut k, id as u64);
    if mux {
        push_str(&mut k, ",U=1");
    }
    push_str(&mut k, ",C=1,c=");
    push_decimal(&mut k, cols as u64);
    push_str(&mut k, ",r=");
    push_decimal(&mut k, rows as u64);
    push_str(&mut k, ",q=2,m=");
    assert(k@ =~= first_chunk_keys(id, mux, cols, rows));
    k
}

/// Appends the wrapped escapes of every chunk of `b64`.
fn transmit_chunks<T: TransportAdapter + ?Sized>(
    out: &mut Vec<u8>,
    transport: &T,
    b64: &Vec<u8>,
    keys: &Vec<u8>,
)
    ensures
        final(out)@ == old(out)@ + transmit_from(transport, b64@, keys@, 0),
{
    let total_len = b64.len();
    let mut offset: usize = 0;
    while offset < total_len
        invariant
            total_len == b64@.len(),
            offset <= total_len,
            out@ + transmit_from(transport, b64@, keys@, offset as int) == old(out)@
                + transmit_from(transport, b64@, keys@, 0),
        decreases total_len - offset,
    {
        let end: usize = if total_len - offset > CHUNK_SIZE {
            offset + CHUNK_SIZE
        } else {
            total_len
        };
        let is_last = end == total_len;
        let mut raw: Vec<u8> = Vec::new();
        if offset == 0 {
            raw.extend_from_slice(keys.as_slice());
        } else {
            push_str(&mut raw, "\x1b_Gm=");
        }
        push_decimal(&mut raw, if is_last { 0 } else { 1 });
        push_str(&mut raw, ";");
        let ghost head = raw@;
        let mut j: usize = offset;
        while j < end
            invariant
                offset <= j <= end <= b64@.len(),
                raw@ == head + b64@.subrange(offset as int, j as int),
            decreases end - j,
        {
            raw.push(b64[j]);
            assert(b64@.subrange(offset as int, j + 1) =~= b64@.subrange(offset as int, j as int).push(b64@[j as int]));
            j = j + 1;
        }
        push_str(&mut raw, "\x1b\\");
        assert(raw@ =~= chunk_escape(b64@, offset as int, keys@));
        let wrapped = transport.wrap_escape(raw.as_slice());
        let ghost prev = out@;
        out.extend_from_slice(wrapped.as_slice());
        assert(out@ + transmit_from(transport, b64@, keys@, end as int) =~= prev + transmit_from(
            transport,
            b64@,
            keys@,
            offset as int,
        ));
        offset = end;
    }
}

/// The diacritic for an index.
fn diacritic_at(i: u16) -> (r: char)
    ensures
        r == diacritic(i as int),
{
    if (i as usize) < 297 {
        DIACRITICS[i as usize]
    } else {
        DIACRITICS[0]
    }
}

/// Appends the placeholder grid of image `id`.
fn push_placeholder_grid(out: &mut Vec<u8>, id: u32, cols: u16, rows: u16)
    ensures
        final(out)@ == old(out)@ + placeholder_grid(id, cols, rows),
{
    let r = (id >> 16) & 0xff;
    let g = (id >> 8) & 0xff;
    let b = id & 0xff;
    push_str(out, "\x1b[38;2;");
    push_decimal(out, r as u64);
    push_str(out, ";");
    push_decimal(out, g as u64);
    push_str(out, ";");
    push_decimal(out, b as u64);
    push_str(out, "m");
    let ghost start = out@;
    let mut y: u16 = 0;
    while y < rows
        invariant
            y <= rows,
            out@ + placeholder_rows(y as int, rows as int, cols as int) == start
                + placeholder_rows(0, rows as int, cols as int),
        decreases rows - y,
    {
        let ghost row_start = out@;
        push_str(out, "\x1b[");
        push_decimal(out, (y as u64) + 1);
        push_str(out, ";1H");
        let row_char = diacritic_at(y);
        let ghost cells_start = out@;
        let mut x: u16 = 0;
        while x < cols
            invariant
                x <= cols,
                out@ + placeholder_cells(row_char, x as int, cols as int) == cells_start
                    + placeholder_cells(row_char, 0, cols as int),
            decreases cols - x,
        {
            let ghost cell_start = out@;
            let col_char = diacritic_at(x);
            push_char(out, PLACEHOLDER);
            push_char(out, row_char);
            push_char(out, col_char);
            assert(out@ + placeholder_cells(row_char, x + 1, cols as int) =~= cell_start
                + placeholder_cells(row_char, x as int, cols as int));
            x = x + 1;
        }
        assert(out@ + placeholder_rows(y + 1, rows as int, cols as int) =~= row_start
            + placeholder_rows(y as int, rows as int, cols as int));
        y = y + 1;
    }
    push_str(out, "\x1b[0m");
    assert(out@ =~= old(out)@ + placeholder_grid(id, cols, rows));
}

/// The payloads from `off` on are the rest of the Base64 text.
proof fn lemma_payloads_from(b64: Seq<u8>, off: int)
    requires
        0 <= off <= b64.len(),
    ensures
        payloads_from(b64, off) == b64.skip(off),
    decreases b64.len() - off,
{
    if off < b64.len() {
        let end = chunk_end(b64.len() as int, off);
        lemma_payloads_from(b64, end);
        assert(b64.subrange(off, end) + b64.skip(end) =~= b64.skip(off));
    } else {
        assert(b64.skip(off) =~= Seq::<u8>::empty());
    }
}

/// Chunking loses and reorders nothing: the payloads of the chunks, in the order they are
/// sent, concatenate to the whole Base64 text.
pub proof fn law_chunks_reassemble_payload(b64: Seq<u8>)
    ensures
        payloads_from(b64, 0) == b64,
{
    lemma_payloads_from(b64, 0);
    assert(b64.skip(0) =~= b64);
}

/// Every chunk carries between one and 4096 payload bytes, and it announces more chunks
/// (`m=1`) exactly when payload remains after it.
pub proof fn law_chunk_bounds(b64: Seq<u8>, off: int)
    requires
        0 <= off < b64.len(),
    ensures
        0 < chunk_payload(b64, off).len() <= CHUNK_SIZE,
        (chunk_end(b64.len() as int, off) == b64.len()) <==> payloads_from(
            b64,
            chunk_end(b64.len() as int, off),
        ).len() == 0,
{
    let end = chunk_end(b64.len() as int, off);
    lemma_payloads_from(b64, end);
}

/// The Base64 payload of a frame is plain ASCII: each chunk is valid UTF-8 as it stands.
pub proof fn law_payload_is_ascii(b64: Seq<u8>, i: int)
    requires
        forall|j: int| 0 <= j < b64.len() ==> is_base64_byte(#[trigger] b64[j]),
        0 <= i < b64.len(),
    ensures
        b64[i] < 0x80,
{
}

/// Frames alternate between image ids 1 and 2: the new id always differs from the old one,
/// and two frames in a row bring the first id back.
pub proof fn law_image_ids_alternate(id: u32)
    requires
        id == 1 || id == 2,
    ensures
        next_image_id(id) != id,
        next_image_id(id) == 1 || next_image_id(id) == 2,
        next_image_id(next_image_id(id)) == id,
{
}

/// Placeholder cells `from .. from + n` of a row whose row mark is `mark`.
spec fn cells_from(mark: char, from: int, n: nat) -> Seq<Seq<u8>> {
    Seq::new(
        n,
        |i: int| utf8(seq![PLACEHOLDER]) + utf8(seq![mark]) + utf8(seq![DIACRITICS@[from + i]]),
    )
}

/// Grid lines `from .. from + n`, each `cols` cells wide.
spec fn lines_from(from: int, n: nat, cols: nat) -> Seq<Seq<u8>> {
    Seq::new(
        n,
        |i: int|
            utf8("\x1b["@) + decimal((from + i + 1) as nat) + utf8(";1H"@) + cells_from(
                DIACRITICS@[from + i],
                0,
                cols,
            ).flatten(),
    )
}

proof fn lemma_cells_flat(mark: char, x: int, cols: int)
    requires
        0 <= x <= cols <= 297,
    ensures
        placeholder_cells(mark, x, cols) == cells_from(mark, x, (cols - x) as nat).flatten(),
    decreases cols - x,
{
    let s = cells_from(mark, x, (cols - x) as nat);
    if x < cols {
        lemma_cells_flat(mark, x + 1, cols);
        assert(s.drop_first() =~= cells_from(mark, x + 1, (cols - x - 1) as nat));
        assert(s.first() == utf8(seq![PLACEHOLDER]) + utf8(seq![mark]) + utf8(seq![diacritic(x)]));
    } else {
        assert(s.len() == 0);
    }
}

proof fn lemma_lines_flat(y: int, rows: int, cols: int)
    requires
        0 <= y <= rows <= 297,
        0 <= cols <= 297,
    ensures
        placeholder_rows(y, rows, cols) == lines_from(y, (rows - y) as nat, cols as nat).flatten(),
    decreases rows - y,
{
    let s = lines_from(y, (rows - y) as nat, cols as nat);
    if y < rows {
        lemma_lines_flat(y + 1, rows, cols);
        lemma_cells_flat(diacritic(y), 0, cols);
        assert(s.drop_first() =~= lines_from(y + 1, (rows - y - 1) as nat, cols as nat));
        assert(s.first() == utf8("\x1b["@) + decimal((y + 1) as nat) + utf8(";1H"@) + cells_from(
            DIACRITICS@[y],
            0,
            cols as nat,
        ).flatten());
    } else {
        assert(s.len() == 0);
    }
}

/// Under a multiplexer the image is anchored by a text grid: the image id as the 24-bit
/// foreground colour, then for each row `y < rows` a cursor move to line `y + 1` followed by
/// `cols` cells, the cell in column `x` being U+10EEEE, the row diacritic `DIACRITICS[y]` and
/// the column diacritic `DIACRITICS[x]` (for grids within the table's 297 entries), and a
/// final attribute reset.
pub proof fn law_placeholder_grid_cells(id: u32, cols: u16, rows: u16)
    requires
        cols <= 297,
        rows <= 297,
    ensures
        placeholder_grid(id, cols, rows) == utf8("\x1b[38;2;"@) + decimal(
            ((id >> 16u32) & 0xffu32) as nat,
        ) + utf8(";"@) + decimal(((id >> 8u32) & 0xffu32) as nat) + utf8(";"@) + decimal(
            (id & 0xffu32) as nat,
        ) + utf8("m"@) + Seq::new(
            rows as nat,
            |y: int|
                utf8("\x1b["@) + decimal((y + 1) as nat) + utf8(";1H"@) + Seq::new(
                    cols as nat,
                    |x: int|
                        utf8(seq![PLACEHOLDER]) + utf8(seq![DIACRITICS@[y]]) + utf8(
                            seq![DIACRITICS@[x]],
                        ),
                ).flatten(),
        ).flatten() + utf8("\x1b[0m"@),
{
    lemma_lines_flat(0, rows as int, cols as int);
    let lines = lines_from(0, rows as nat, cols as nat);
    let target = Seq::new(
        rows as nat,
        |y: int|
            utf8("\x1b["@) + decimal((y + 1) as nat) + utf8(";1H"@) + Seq::new(
                cols as nat,
                |x: int|
                    utf8(seq![PLACEHOLDER]) + utf8(seq![DIACRITICS@[y]]) + utf8(seq![DIACRITICS@[x]]),
            ).flatten(),
    );
    assert forall|y: int| 0 <= y < rows implies #[trigger] lines[y] == target[y] by {
        assert(cells_from(DIACRITICS@[y], 0, cols as nat) =~= Seq::new(
            cols as nat,
            |x: int|
                utf8(seq![PLACEHOLDER]) + utf8(seq![DIACRITICS@[y]]) + utf8(seq![DIACRITICS@[x]]),
        ));
    }
    assert(lines =~= target);
}

} // verus!
