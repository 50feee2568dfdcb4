use base64::Engine;
use imvic::display::backend::kitty::{frame_escapes, Frame, KittyBackend, KittyError};
use imvic::display::backend::{GraphicsBackend, TerminalEnv};
use imvic::display::transport::{DirectTransport, TmuxTransport, Transport};

fn blank_frame(w: u32, h: u32) -> Frame {
    Frame::from_raw(w, h, vec![0u8; (w * h * 4) as usize]).unwrap()
}

#[test]
fn test_kitty_chunking() {
    let mut backend = KittyBackend::new();
    let transport = DirectTransport::new();
    let frame = blank_frame(10, 10);

    let result = backend.draw_image(&transport, &frame, (40, 20));
    assert!(result.is_ok());
    let output = result.unwrap();
    assert!(!output.is_empty());
    assert!(output.starts_with(b"\x1b[1;1H"));
    assert!(output.windows(9).any(|w| w == b"a=T,f=100"));
    assert!(output.ends_with(b"\x1b\\"));
}

#[test]
fn test_kitty_clear_graphics() {
    let mut backend = KittyBackend::new();
    let transport = DirectTransport::new();
    let output = backend.clear_graphics(&transport);
    assert_eq!(output, b"\x1b_Ga=d,d=A\x1b\\".to_vec());
}

#[test]
fn test_kitty_unicode_placeholders_with_multiplexer() {
    let mut backend = KittyBackend::new();
    // A transport inside a multiplexer session.
    let transport = TmuxTransport::new(true, None, Some("on"));
    let frame = blank_frame(10, 10);

    let result = backend.draw_image(&transport, &frame, (4, 2));
    assert!(result.is_ok());
    let output = result.unwrap();
    let out_str = String::from_utf8_lossy(&output);
    assert!(out_str.contains("U=1"));
    assert!(out_str.contains('\u{10EEEE}'));
}

fn png_payload(out: &[u8]) -> Vec<u8> {
    // Concatenates the payloads of all transmission chunks (between ';' and ESC '\').
    let mut payload = Vec::new();
    let text = String::from_utf8_lossy(out).to_string();
    for part in text.split("\x1b_G").skip(1) {
        if part.starts_with("a=d") {
            continue;
        }
        let body = part.split_once(';').unwrap().1;
        let body = body.split("\x1b\\").next().unwrap();
        payload.extend_from_slice(body.as_bytes());
    }
    payload
}

#[test]
fn frame_payload_is_base64_png_and_ids_alternate() {
    let mut backend = KittyBackend::new();
    let t = DirectTransport::new();
    let frame = blank_frame(3, 2);
    let out = backend.draw_image(&t, &frame, (5, 5)).unwrap();
    let text = String::from_utf8(out.clone()).unwrap();
    assert!(text.starts_with("\x1b[1;1H\x1b_Ga=T,f=100,t=d,i=2,C=1,c=5,r=5,q=2,m=0;"));
    assert!(text.ends_with("\x1b_Ga=d,d=i,i=1\x1b\\"));
    // The payload decodes to a PNG file (not to the raw pixels).
    let payload = png_payload(&out);
    let png = base64::engine::general_purpose::STANDARD.decode(&payload).unwrap();
    assert!(png.starts_with(b"\x89PNG\r\n\x1a\n"));
    assert_ne!(png, vec![0u8; 24]);

    let out2 = backend.draw_image(&t, &frame, (5, 5)).unwrap();
    let text2 = String::from_utf8(out2).unwrap();
    assert!(text2.contains("i=1,C=1"));
    assert!(text2.ends_with("\x1b_Ga=d,d=i,i=2\x1b\\"));
}

#[test]
fn large_frames_are_sent_in_4096_byte_chunks() {
    let mut backend = KittyBackend::new();
    let t = DirectTransport::new();
    // Noise does not compress: the payload spans several chunks.
    let w = 64u32;
    let h = 64u32;
    let mut px = Vec::with_capacity((w * h * 4) as usize);
    let mut x: u32 = 12345;
    for _ in 0..(w * h * 4) {
        x = x.wrapping_mul(1103515245).wrapping_add(12345);
        px.push((x >> 16) as u8);
    }
    let frame = Frame::from_raw(w, h, px).unwrap();
    let out = backend.draw_image(&t, &frame, (10, 10)).unwrap();
    let text = String::from_utf8(out.clone()).unwrap();
    let chunks: Vec<&str> = text.split("\x1b_G").skip(1).collect();
    assert!(chunks.len() > 3);
    let transmissions = &chunks[..chunks.len() - 1];
    for (k, c) in transmissions.iter().enumerate() {
        let (keys, rest) = c.split_once(';').unwrap();
        let body = rest.strip_suffix("\x1b\\").unwrap();
        assert!(body.len() <= 4096 && !body.is_empty());
        let last = k + 1 == transmissions.len();
        assert!(keys.ends_with(if last { "m=0" } else { "m=1" }));
        if k > 0 {
            assert_eq!(keys, if last { "m=0" } else { "m=1" });
            if !last {
                assert_eq!(body.len(), 4096);
            }
        }
    }
    let png = base64::engine::general_purpose::STANDARD
        .decode(png_payload(&out))
        .unwrap();
    assert!(png.starts_with(b"\x89PNG"));
}

#[test]
fn tmux_wraps_every_escape() {
    let mut backend = KittyBackend::new();
    let t = TmuxTransport::new(true, Some("0,0,bottom,off"), Some("on"));
    let out = backend.draw_image(&t, &blank_frame(2, 2), (2, 1)).unwrap();
    let text = String::from_utf8(out).unwrap();
    assert!(text.starts_with("\x1bPtmux;\x1b\x1b_Ga=T,f=100,t=d,i=2,U=1,C=1,c=2,r=1,q=2,m=0;"));
    assert!(text.contains("\x1b[38;2;0;0;2m\x1b[1;1H\u{10EEEE}\u{0305}\u{0305}\u{10EEEE}\u{0305}\u{030D}\x1b[0m"));
    assert!(text.ends_with("\x1bPtmux;\x1b\x1b_Ga=d,d=i,i=1\x1b\x1b\\\x1b\\"));
    assert_eq!(
        backend.clear_graphics(&t),
        b"\x1bPtmux;\x1b\x1b_Ga=d,d=A\x1b\x1b\\\x1b\\".to_vec()
    );
}

#[test]
fn nothing_to_draw() {
    let mut backend = KittyBackend::new();
    let t = DirectTransport::new();
    assert_eq!(backend.draw_image(&t, &blank_frame(0, 5), (10, 10)).unwrap(), Vec::<u8>::new());
    assert_eq!(backend.draw_image(&t, &blank_frame(2, 2), (0, 10)).unwrap(), Vec::<u8>::new());
    // The id did not change: the next frame still replaces image 1.
    let out = backend.draw_image(&t, &blank_frame(2, 2), (1, 1)).unwrap();
    assert!(String::from_utf8(out).unwrap().ends_with("i=1\x1b\\"));
    assert_eq!(backend.name(), "Kitty Graphics Protocol");
}

#[test]
fn frames_check_their_size() {
    assert!(Frame::from_raw(2, 2, vec![0; 16]).is_some());
    assert!(Frame::from_raw(2, 2, vec![0; 15]).is_none());
    let f = Frame::from_raw(3, 1, vec![0; 12]).unwrap();
    assert_eq!((f.width(), f.height()), (3, 1));
    assert!(!f.is_empty());
    let _unused: Option<KittyError> = None;
}

#[test]
fn kitty_detection_from_environment() {
    let b = KittyBackend::new();
    assert!(b.is_detected(true, false, None));
    assert!(b.is_detected(false, true, Some("xterm")));
    assert!(b.is_detected(false, false, Some("xterm-KITTY")));
    assert!(!b.is_detected(false, false, Some("xterm-256color")));
    assert!(!b.is_protocol_available(false, false, None));
}

#[test]
fn frame_escapes_for_a_given_payload() {
    let transport = DirectTransport::new();
    let out = frame_escapes(&transport, 1, &b"QUJD".to_vec(), 3, 2);
    assert_eq!(
        out,
        b"\x1b[1;1H\x1b_Ga=T,f=100,t=d,i=2,C=1,c=3,r=2,q=2,m=0;QUJD\x1b\\\x1b_Ga=d,d=i,i=1\x1b\\".to_vec()
    );
    let long = vec![b'A'; 4097];
    let out = frame_escapes(&transport, 2, &long, 1, 1);
    let text = String::from_utf8(out).unwrap();
    assert!(text.starts_with("\x1b[1;1H\x1b_Ga=T,f=100,t=d,i=1,C=1,c=1,r=1,q=2,m=1;"));
    assert!(text.contains("\x1b\\\x1b_Gm=0;A\x1b\\"));
    assert!(text.ends_with("\x1b_Ga=d,d=i,i=2\x1b\\"));
}

#[test]
fn kitty_as_a_graphics_backend_plugin() {
    let mut backend: Box<dyn GraphicsBackend> = Box::new(KittyBackend::new());
    assert_eq!(backend.name(), "Kitty Graphics Protocol");
    let env = TerminalEnv { kitty_window_id: false, kitty_pid: false, term: Some(b"xterm-kitty".to_vec()) };
    assert!(backend.is_detected(&env));
    assert!(backend.is_protocol_available(&env));
    let other = TerminalEnv { kitty_window_id: false, kitty_pid: false, term: None };
    assert!(!backend.is_detected(&other));
    let transport = Transport::Direct(DirectTransport::new());
    let out = backend.draw_image(&transport, &blank_frame(2, 2), (3, 2)).ok().unwrap();
    assert!(out.starts_with(b"\x1b[1;1H\x1b_Ga=T,f=100,t=d,i=2,"));
    assert_eq!(backend.clear_graphics(&transport), b"\x1b_Ga=d,d=A\x1b\\".to_vec());
}
