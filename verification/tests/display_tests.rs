use imvic::display::backend::{describe_select_error, select_backend, BackendProbe, SelectError};
use imvic::display::hud::{render_hud, truncate_str};
use imvic::display::layout::{cell_pixel_size, frame_target, DEFAULT_CELL_PIXEL_SIZE};
use imvic::display::terminal_guard::TerminalGuard;
use imvic::display::transport::{DirectTransport, TmuxTransport, Transport, TransportAdapter};

#[test]
fn test_hud_rendering_normal() {
    let output = render_hud(40, 80, (1000, 800), 150, (10, -20), None);
    let text = String::from_utf8_lossy(&output);
    assert!(text.contains("1000x800"));
    assert!(text.contains("150%"));
}

#[test]
fn test_hud_rendering_error() {
    let output = render_hud(40, 80, (1000, 800), 100, (0, 0), Some("XML closing tag missing"));
    let text = String::from_utf8_lossy(&output);
    assert!(text.contains("[ERROR]"));
    assert!(text.contains("XML closing tag missing"));
    assert!(text.contains("Preserving last valid frame"));
}

#[test]
fn hud_exact_layout() {
    let out = render_hud(3, 90, (12, 34), 75, (-5, 6), None);
    let expected = format!(
        "\x1b[3;1H\x1b[2K\x1b[7m{:<89}\x1b[0m",
        " [IMAGE] 12x34 | Zoom: 75% | Pos: (-5, 6) | 'c' to center | 'q' to quit"
    );
    assert_eq!(String::from_utf8(out).unwrap(), expected);
    let out = render_hud(2, 20, (1, 1), 100, (0, 0), Some("bad"));
    assert_eq!(
        String::from_utf8(out).unwrap(),
        "\x1b[2;1H\x1b[2K\x1b[1;37;41m [ERROR] bad | P...\x1b[0m"
    );
    assert!(render_hud(0, 80, (1, 1), 100, (0, 0), None).is_empty());
    assert!(render_hud(10, 0, (1, 1), 100, (0, 0), None).is_empty());
}

#[test]
fn truncation() {
    assert_eq!(truncate_str("abc", 5), "abc  ");
    assert_eq!(truncate_str("abcdef", 5), "ab...");
    assert_eq!(truncate_str("abcdef", 2), "...");
    assert_eq!(truncate_str("", 0), "");
    assert_eq!(truncate_str("héllo wörld", 8), "héllo...");
    assert_eq!(truncate_str("héllo", 6), "héllo ");
}

#[test]
fn backend_selection() {
    let direct = DirectTransport::new();
    let kitty = BackendProbe { detected: true, protocol_available: true };
    let other = BackendProbe { detected: false, protocol_available: false };
    assert_eq!(select_backend(&[other, kitty], &direct), Ok(1));
    assert_eq!(select_backend(&[other], &direct), Err(SelectError::NotDetected));
    assert_eq!(select_backend(&[], &direct), Err(SelectError::NotDetected));
    let broken = BackendProbe { detected: true, protocol_available: false };
    assert_eq!(select_backend(&[broken, kitty], &direct), Err(SelectError::ProtocolUnavailable(0)));
    let blocked = TmuxTransport::new(true, None, Some("off"));
    assert_eq!(select_backend(&[kitty], &blocked), Err(SelectError::PassthroughDisabled(0)));
    let open = TmuxTransport::new(true, None, Some("on"));
    assert_eq!(select_backend(&[kitty], &open), Ok(0));
}

#[test]
fn selection_messages() {
    let blocked = TmuxTransport::new(true, None, Some("off"));
    let msg = describe_select_error(SelectError::PassthroughDisabled(0), "Kitty Graphics Protocol", &blocked);
    assert!(msg.starts_with("Compatible terminal 'Kitty Graphics Protocol' detected, but multiplexer 'TMUX DCS Passthrough' has passthrough disabled."));
    assert!(msg.contains("\ntmux set -g allow-passthrough on\n"));
    let direct = DirectTransport::new();
    let msg = describe_select_error(SelectError::PassthroughDisabled(0), "K", &direct);
    assert!(msg.contains("\nenable passthrough\n"));
    let msg = describe_select_error(SelectError::ProtocolUnavailable(0), "K", &direct);
    assert_eq!(msg, "Terminal 'K' detected, but its graphics protocol is not available or supported.");
    let msg = describe_select_error(SelectError::NotDetected, "K", &direct);
    assert!(msg.starts_with("High-resolution graphics protocol not detected in current terminal."));
    assert!(msg.contains("Supported terminals:\n- Kitty (https://sw.kovidgoyal.net/kitty/)"));
    assert!(msg.ends_with("\n- (Note: Ghostty and WezTerm plugins can be registered in BackendRegistry)"));
}

#[test]
fn terminal_guard_holds_and_refreshes_the_transport() {
    let mut g = TerminalGuard::new(Transport::Tmux(TmuxTransport::new(true, Some("1,1,bottom,off"), None)));
    assert_eq!(g.transport().physical_origin(), (2, 2));
    g.refresh_transport(Some("4,0,top,on,7,14"));
    assert_eq!(g.transport().physical_origin(), (6, 1));
    assert_eq!(g.transport().cell_size(), Some((7, 14)));
    assert_eq!(
        g.clear_graphics_sequence(),
        b"\x1bPtmux;\x1b\x1b_Ga=d,d=A\x1b\x1b\\\x1b\\".to_vec()
    );
    let g = TerminalGuard::new(Transport::Direct(DirectTransport::new()));
    assert_eq!(g.clear_graphics_sequence(), b"\x1b_Ga=d,d=A\x1b\\".to_vec());
}

#[test]
fn cell_size_and_frame_target() {
    assert_eq!(cell_pixel_size(Some((1600, 900, 160, 45)), Some((7, 7))), (10, 20));
    assert_eq!(cell_pixel_size(Some((10, 10, 80, 24)), None), (1, 1));
    assert_eq!(cell_pixel_size(Some((0, 900, 160, 45)), Some((9, 18))), (9, 18));
    assert_eq!(cell_pixel_size(None, None), DEFAULT_CELL_PIXEL_SIZE);
    assert_eq!(DEFAULT_CELL_PIXEL_SIZE, (11, 22));
    assert_eq!(frame_target(80, 24, (10, 20)), ((80, 23), (800, 460)));
    assert_eq!(frame_target(80, 1, (10, 20)), ((80, 1), (800, 20)));
    assert_eq!(frame_target(u16::MAX, u16::MAX, (u16::MAX, u16::MAX)).1, (65535 * 65535, 65534 * 65535));
}
