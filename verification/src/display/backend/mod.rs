//! Graphics backends for high-resolution terminal rendering, and the preflight choice of one.

pub mod encode;
pub mod kitty;

pub use kitty::KittyBackend;

use crate::display::backend::kitty::Frame;
use crate::display::transport::{Transport, TransportAdapter};
use image::ImageError;
use vstd::prelude::*;

verus! {

/// What the backends read from the environment to recognise their terminal.
pub struct TerminalEnv {
    /// `KITTY_WINDOW_ID` is set.
    pub kitty_window_id: bool,
    /// `KITTY_PID` is set.
    pub kitty_pid: bool,
    /// The bytes of `TERM`, where it is set and valid Unicode.
    pub term: Option<Vec<u8>>,
}

/// Errors of a graphics backend.
#[derive(Debug)]
pub enum GraphicsError {
    /// Failed to encode frame to in-memory PNG.
    Encode(ImageError),
}

/// Contract for high-resolution graphics backend plugins.
pub trait GraphicsBackend {
    /// Human-readable backend name.
    spec fn spec_name(&self) -> Seq<char>;

    /// Criterion 1: the host terminal matches this backend.
    spec fn spec_detected(&self, env: &TerminalEnv) -> bool;

    /// Criterion 2: the backend's graphics protocol is available in the host terminal.
    spec fn spec_protocol_available(&self, env: &TerminalEnv) -> bool;

    /// Human-readable backend name (e.g. "Kitty Graphics Protocol").
    fn name(&self) -> (r: &'static str)
        ensures
            r@ == self.spec_name(),
    ;

    /// Criterion 1: checks if the host terminal matches this backend plugin.
    fn is_detected(&self, env: &TerminalEnv) -> (r: bool)
        ensures
            r == self.spec_detected(env),
    ;

    /// Criterion 2: checks if the graphics protocol is supported and active in the host
    /// terminal.
    fn is_protocol_available(&self, env: &TerminalEnv) -> (r: bool)
        ensures
            r == self.spec_protocol_available(env),
    ;

    /// The bytes that draw a frame over `target_cells` through the transport.
    fn draw_image(&mut self, transport: &Transport, frame: &Frame, target_cells: (u16, u16)) -> (r:
        Result<Vec<u8>, GraphicsError>);

    /// The bytes that clear the graphics placed on the terminal.
    fn clear_graphics(&mut self, transport: &Transport) -> (r: Vec<u8>);
}

/// What the preflight check found out about one registered backend.
#[derive(Debug, Clone, Copy, PartialEq, Eq, Structural)]
pub struct BackendProbe {
    /// Criterion 1: the host terminal matches the backend.
    pub detected: bool,
    /// Criterion 2: the backend's graphics protocol is available.
    pub protocol_available: bool,
}

/// Why no backend can be used.
#[derive(Debug, Clone, Copy, PartialEq, Eq, Structural)]
pub enum SelectError {
    /// No registered backend matches the host terminal.
    NotDetected,
    /// The matching backend (by index) has no working protocol.
    ProtocolUnavailable(usize),
    /// The matching backend (by index) is fine, but the transport blocks passthrough.
    PassthroughDisabled(usize),
}

/// The first backend that matches the host terminal.
pub open spec fn first_detected(probes: Seq<BackendProbe>, from: nat) -> Option<usize>
    decreases probes.len() - from,
{
    if from >= probes.len() {
        None
    } else if probes[from as int].detected {
        Some(from as usize)
    } else {
        first_detected(probes, from + 1)
    }
}

/// The backend to draw with: the first matching one, if its protocol works and the transport
/// lets escape sequences through.
pub open spec fn selection(probes: Seq<BackendProbe>, passthrough: bool) -> Result<
    usize,
    SelectError,
> {
    match first_detected(probes, 0) {
        None => Err(SelectError::NotDetected),
        Some(i) => if !probes[i as int].protocol_available {
            Err(SelectError::ProtocolUnavailable(i))
        } else if !passthrough {
            Err(SelectError::PassthroughDisabled(i))
        } else {
            Ok(i)
        },
    }
}

/// Validates both the host terminal and the active multiplexer transport tunnel: picks the
/// first backend whose terminal is detected, then checks its protocol and the transport.
pub fn select_backend<T: TransportAdapter + ?Sized>(probes: &[BackendProbe], transport: &T) -> (r:
    Result<usize, SelectError>)
    ensures
        r == selection(probes@, transport.spec_passthrough()),
{
    // 1. Locate a backend matching the host terminal
    let mut i: usize = 0;
    while i < probes.len()
        invariant
            i <= probes@.len(),
            probes@.len() == probes.len(),
            first_detected(probes@, 0) == first_detected(probes@, i as nat),
        decreases probes.len() - i,
    {
        if probes[i].detected {
            assert(first_detected(probes@, i as nat) == Some(i));
            return check_backend(probes, i, transport);
        }
        assert(first_detected(probes@, i as nat) == first_detected(probes@, (i + 1) as nat));
        i = i + 1;
    }
    assert(first_detected(probes@, i as nat) is None);
    Err(SelectError::NotDetected)
}

/// Steps 2 and 3 of the preflight check for the matching backend `backend`.
fn check_backend<T: TransportAdapter + ?Sized>(probes: &[BackendProbe], backend: usize, transport: &T) -> (r:
    Result<usize, SelectError>)
    requires
        backend < probes@.len(),
    ensures
        r == (if !probes@[backend as int].protocol_available {
            Err(SelectError::ProtocolUnavailable(backend))
        } else if !transport.spec_passthrough() {
            Err(SelectError::PassthroughDisabled(backend))
        } else {
            Ok(backend)
        }),
{
    // 2. Validate that the host terminal's protocol is operational
    if !probes[backend].protocol_available {
        return Err(SelectError::ProtocolUnavailable(backend));
    }
    // 3. Validate that the multiplexer (if any) allows passthrough
    if !transport.is_passthrough_enabled() {
        return Err(SelectError::PassthroughDisabled(backend));
    }
    Ok(backend)
}

/// The explanation shown for a failed preflight check.
pub open spec fn select_error_message(
    err: SelectError,
    backend_name: Seq<char>,
    transport_name: Seq<char>,
    hint: Option<Seq<char>>,
) -> Seq<char> {
    match err {
        SelectError::NotDetected => "High-resolution graphics protocol not detected in current terminal.\nImvic requires native GPU graphics rendering to guarantee pin-sharp vector display.\n\nSupported terminals:\n- Kitty (https://sw.kovidgoyal.net/kitty/) [standalone or inside TMUX]\n- (Note: Ghostty and WezTerm plugins can be registered in BackendRegistry)"@,
        SelectError::ProtocolUnavailable(_) => "Terminal '"@ + backend_name
            + "' detected, but its graphics protocol is not available or supported."@,
        SelectError::PassthroughDisabled(_) => "Compatible terminal '"@ + backend_name
            + "' detected, but multiplexer '"@ + transport_name
            + "' has passthrough disabled.\nEnable passthrough by executing:\n"@ + match hint {
            Some(h) => h,
            None => "enable passthrough"@,
        } + "\nor add 'set -g allow-passthrough on' to your multiplexer configuration."@,
    }
}

/// Formats the explanation for a failed preflight check, naming the backend (from its
/// registered name) and the transport.
pub fn describe_select_error<T: TransportAdapter + ?Sized>(
    err: SelectError,
    backend_name: &str,
    transport: &T,
) -> (r: String)
    ensures
        r@ == select_error_message(err, backend_name@, transport.spec_name(), transport.spec_hint()),
{
    match err {
        SelectError::NotDetected => String::from_str(
            "High-resolution graphics protocol not detected in current terminal.\nImvic requires native GPU graphics rendering to guarantee pin-sharp vector display.\n\nSupported terminals:\n- Kitty (https://sw.kovidgoyal.net/kitty/) [standalone or inside TMUX]\n- (Note: Ghostty and WezTerm plugins can be registered in BackendRegistry)",
        ),
        SelectError::ProtocolUnavailable(_) => {
            let mut s = String::from_str("Terminal '");
            s.append(backend_name);
            s.append("' detected, but its graphics protocol is not available or supported.");
            s
        },
        SelectError::PassthroughDisabled(_) => {
            let hint = match transport.passthrough_enable_hint() {
                Some(h) => h,
                None => "enable passthrough",
            };
            let mut s = String::from_str("Compatible terminal '");
            s.append(backend_name);
            s.append("' detected, but multiplexer '");
            s.append(transport.name());
            s.append("' has passthrough disabled.\nEnable passthrough by executing:\n");
            s.append(hint);
            s.append("\nor add 'set -g allow-passthrough on' to your multiplexer configuration.");
            s
        },
    }
}

} // verus!
