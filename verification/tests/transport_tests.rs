use imvic::display::transport::{
    detect_transport, DirectTransport, TmuxTransport, Transport, TransportAdapter,
    TransportRegistry,
};

#[test]
fn test_direct_transport_unmodified() {
    let transport = DirectTransport::new();
    let payload: &[u8] = b"\x1b_Ga=d,d=a\x1b\\";
    assert_eq!(transport.wrap_escape(payload), payload);
    assert!(transport.is_passthrough_enabled());
}

#[test]
fn test_tmux_wrapping_and_escape_doubling() {
    let transport = TmuxTransport::new(false, None, None);
    let raw: &[u8] = b"\x1b_Ga=T;\x1b\\";
    let wrapped = transport.wrap_escape(raw);

    assert!(wrapped.starts_with(b"\x1bPtmux;"));
    assert!(wrapped.ends_with(b"\x1b\\"));
    assert_eq!(wrapped, b"\x1bPtmux;\x1b\x1b_Ga=T;\x1b\x1b\\\x1b\\");
}

#[test]
fn tmux_wrap_of_plain_bytes_only_adds_envelope() {
    let t = TmuxTransport::new(true, None, None);
    assert_eq!(t.wrap_escape(b"abc"), b"\x1bPtmux;abc\x1b\\".to_vec());
    assert_eq!(t.wrap_escape(b""), b"\x1bPtmux;\x1b\\".to_vec());
}

#[test]
fn tmux_pane_info_is_parsed() {
    let reply = "3,10,top,on,9,18\n";
    assert_eq!(
        TmuxTransport::query_info(true, Some(reply)),
        ((5, 11), Some((9, 18)))
    );
    // Status bar at the bottom does not shift the rows.
    assert_eq!(
        TmuxTransport::query_info(true, Some("3,10,bottom,on")),
        ((4, 11), None)
    );
    // Status off.
    assert_eq!(
        TmuxTransport::query_info(true, Some("0,0, top , off ,0,0")),
        ((1, 1), None)
    );
    // Fields around the separators are trimmed for the status words only.
    assert_eq!(
        TmuxTransport::query_info(true, Some("2,4, top , on ,8,16")),
        ((4, 5), Some((8, 16)))
    );
    // Unparsable numbers (a trailing space inside a field included) count as 0.
    assert_eq!(
        TmuxTransport::query_info(true, Some(" 2 ,x,top,off,a,16")),
        ((1, 1), None)
    );
    // The reply as a whole is trimmed first.
    assert_eq!(
        TmuxTransport::query_info(true, Some("  2,7,top,off,a,16")),
        ((3, 8), None)
    );
    assert_eq!(TmuxTransport::query_origin(true, Some("7,3,top,on")), (9, 4));
}

#[test]
fn tmux_pane_info_defaults() {
    assert_eq!(TmuxTransport::query_info(false, Some("3,10,top,on")), ((1, 1), None));
    assert_eq!(TmuxTransport::query_info(true, None), ((1, 1), None));
    assert_eq!(TmuxTransport::query_info(true, Some("1,2,3")), ((1, 1), None));
}

#[test]
fn tmux_passthrough_setting() {
    assert!(TmuxTransport::passthrough_reply_allows("on\n"));
    assert!(TmuxTransport::passthrough_reply_allows(" ALL "));
    assert!(!TmuxTransport::passthrough_reply_allows("off"));
    assert!(!TmuxTransport::passthrough_reply_allows("only"));
    let t = TmuxTransport::new(true, None, Some("on"));
    assert!(t.is_passthrough_enabled());
    assert!(t.is_multiplexer());
    let t = TmuxTransport::new(true, None, None);
    assert!(!t.is_passthrough_enabled());
    let t = TmuxTransport::new(false, None, Some("on"));
    assert!(!t.is_passthrough_enabled());
    assert!(!t.is_active());
    assert_eq!(t.passthrough_enable_hint(), Some("tmux set -g allow-passthrough on"));
}

#[test]
fn detection_prefers_an_active_multiplexer() {
    let inside = TmuxTransport::new(true, Some("0,0,top,on"), Some("on"));
    let chosen = detect_transport(inside);
    assert_eq!(chosen.name(), "TMUX DCS Passthrough");
    assert_eq!(chosen.physical_origin(), (2, 1));

    let outside = TmuxTransport::new(false, None, None);
    let chosen = detect_transport(outside);
    assert_eq!(chosen.name(), "Direct Terminal");
    assert!(!chosen.is_multiplexer());
    assert_eq!(chosen.physical_origin(), (1, 1));
    assert_eq!(chosen.cell_size(), None);

    let mut registry = TransportRegistry::new(TmuxTransport::new(false, None, None));
    registry.register(Transport::Direct(DirectTransport::new()));
    assert_eq!(registry.detect_transport().name(), "Direct Terminal");
}

#[test]
fn refresh_rereads_tmux_geometry() {
    let mut t = Transport::Tmux(TmuxTransport::new(true, Some("0,0,bottom,on"), None));
    assert_eq!(t.physical_origin(), (1, 1));
    t.refresh(Some("5,40,bottom,on,10,20"));
    assert_eq!(t.physical_origin(), (6, 41));
    assert_eq!(t.cell_size(), Some((10, 20)));
}

#[test]
fn origin_query_and_new_transport_agree() {
    for reply in [None, Some("7,3,top,on,9,18"), Some("0,0,bottom,on"), Some("x")] {
        for in_session in [false, true] {
            let (origin, cell) = TmuxTransport::query_info(in_session, reply);
            assert_eq!(TmuxTransport::query_origin(in_session, reply), origin);
            let t = TmuxTransport::new(in_session, reply, Some("on"));
            assert_eq!(t.physical_origin(), origin);
            assert_eq!(t.cell_size(), cell);
            assert_eq!(t.name(), "TMUX DCS Passthrough");
            assert_eq!(t.passthrough_enable_hint(), Some("tmux set -g allow-passthrough on"));
        }
    }
    assert_eq!(TmuxTransport::query_origin(false, Some("7,3,top,on")), (1, 1));
}

#[test]
fn registering_keeps_an_earlier_active_transport() {
    let active = TmuxTransport::new(true, None, Some("on"));
    let inactive = TmuxTransport::new(false, None, None);
    let mut r = TransportRegistry::new(active);
    r.register(Transport::Tmux(inactive));
    assert!(r.detect_transport().is_multiplexer());
    let mut r = TransportRegistry::new(inactive);
    assert!(!r.detect_transport().is_multiplexer());
    r.register(Transport::Tmux(active));
    assert!(r.detect_transport().is_multiplexer());
}
