//! Terminal transport adapters and multiplexer tunneling.
//!
//! Handles transparent escape sequence passthrough for multiplexers like TMUX.

pub mod direct;
pub mod tmux;

pub use direct::DirectTransport;
pub use tmux::TmuxTransport;

use vstd::prelude::*;

verus! {

/// Contract for terminal escape sequence transports and multiplexer tunnels.
///
/// The spec functions describe what each query answers; every method returns them.
pub trait TransportAdapter {
    /// Human-readable transport name.
    spec fn spec_name(&self) -> Seq<char>;

    /// This transport is active in the current session.
    spec fn spec_active(&self) -> bool;

    /// This transport is a multiplexer that needs text-cell anchoring.
    spec fn spec_multiplexer(&self) -> bool;

    /// Escape sequences reach the host terminal.
    spec fn spec_passthrough(&self) -> bool;

    /// Guidance for enabling passthrough.
    spec fn spec_hint(&self) -> Option<Seq<char>>;

    /// The envelope put around a raw escape sequence.
    spec fn spec_wrap(&self, raw: Seq<u8>) -> Seq<u8>;

    /// 1-indexed physical (row, col) where the session begins.
    spec fn spec_origin(&self) -> (u16, u16);

    /// Pixel size of one cell, if the transport reports it.
    spec fn spec_cell_size(&self) -> Option<(u16, u16)>;

    /// Human-readable transport name (e.g. "TMUX DCS Passthrough").
    fn name(&self) -> (r: &'static str)
        ensures
            r@ == self.spec_name(),
    ;

    /// Detects if this transport/multiplexer is active in the current session.
    fn is_active(&self) -> (r: bool)
        ensures
            r == self.spec_active(),
    ;

    /// Indicates whether this transport represents a multiplexer (e.g. Tmux)
    /// that requires virtual pane isolation and text-cell anchoring.
    fn is_multiplexer(&self) -> (r: bool)
        ensures
            r == self.spec_multiplexer(),
    ;

    /// Checks if this transport permits passthrough escape sequences to the host terminal.
    fn is_passthrough_enabled(&self) -> (r: bool)
        ensures
            r == self.spec_passthrough(),
    ;

    /// Command or guidance to enable passthrough if currently disabled.
    fn passthrough_enable_hint(&self) -> (r: Option<&'static str>)
        ensures
            match r {
                Some(h) => self.spec_hint() == Some(h@),
                None => self.spec_hint() is None,
            },
    ;

    /// Wraps a raw escape sequence into the required multiplexer escape envelope.
    fn wrap_escape(&self, raw: &[u8]) -> (r: Vec<u8>)
        ensures
            r@ == self.spec_wrap(raw@),
    ;

    /// Physical terminal coordinates (row, col) where the current pane/session begins (1-indexed).
    fn physical_origin(&self) -> (r: (u16, u16))
        ensures
            r == self.spec_origin(),
    ;

    /// Physical pixel dimensions of a single terminal cell (width, height), if reported by the transport.
    fn cell_size(&self) -> (r: Option<(u16, u16)>)
        ensures
            r == self.spec_cell_size(),
    ;
}

/// One of the supported transports.
#[derive(Clone, Copy)]
pub enum Transport {
    Direct(DirectTransport),
    Tmux(TmuxTransport),
}

impl Transport {
    /// Re-reads pane geometry from a fresh `display-message` reply (e.g. after a resize);
    /// a direct transport has nothing to refresh.
    pub fn refresh(&mut self, pane_info: Option<&str>)
        requires
            *old(self) matches Transport::Tmux(t) ==> !tmux::tmux_info_overflows(
                t.spec_in_session(),
                tmux::reply_chars(pane_info),
            ),
        ensures
            match *old(self) {
                Transport::Direct(d) => *final(self) == Transport::Direct(d),
                Transport::Tmux(t) => *final(self) == Transport::Tmux(
                    t.refreshed(tmux::reply_chars(pane_info)),
                ),
            },
            *old(self) matches Transport::Tmux(t) ==> final(self).spec_origin() == tmux::tmux_info(
                t.spec_in_session(),
                tmux::reply_chars(pane_info),
            ).0 && final(self).spec_cell_size() == tmux::tmux_info(
                t.spec_in_session(),
                tmux::reply_chars(pane_info),
            ).1 && final(self).spec_name() == "TMUX DCS Passthrough"@,
    {
        match self {
            Transport::Direct(_) => {},
            Transport::Tmux(t) => {
                t.refresh_geometry(pane_info);
            },
        }
    }
}

impl TransportAdapter for Transport {
    open spec fn spec_name(&self) -> Seq<char> {
        match self {
            Transport::Direct(d) => d.spec_name(),
            Transport::Tmux(t) => t.spec_name(),
        }
    }

    open spec fn spec_active(&self) -> bool {
        match self {
            Transport::Direct(d) => d.spec_active(),
            Transport::Tmux(t) => t.spec_active(),
        }
    }

    open spec fn spec_multiplexer(&self) -> bool {
        match self {
            Transport::Direct(d) => d.spec_multiplexer(),
            Transport::Tmux(t) => t.spec_multiplexer(),
        }
    }

    open spec fn spec_passthrough(&self) -> bool {
        match self {
            Transport::Direct(d) => d.spec_passthrough(),
            Transport::Tmux(t) => t.spec_passthrough(),
        }
    }

    open spec fn spec_hint(&self) -> Option<Seq<char>> {
        match self {
            Transport::Direct(d) => d.spec_hint(),
            Transport::Tmux(t) => t.spec_hint(),
        }
    }

    open spec fn spec_wrap(&self, raw: Seq<u8>) -> Seq<u8> {
        match self {
            Transport::Direct(d) => d.spec_wrap(raw),
            Transport::Tmux(t) => t.spec_wrap(raw),
        }
    }

    open spec fn spec_origin(&self) -> (u16, u16) {
        match self {
            Transport::Direct(d) => d.spec_origin(),
            Transport::Tmux(t) => t.spec_origin(),
        }
    }

    open spec fn spec_cell_size(&self) -> Option<(u16, u16)> {
        match self {
            Transport::Direct(d) => d.spec_cell_size(),
            Transport::Tmux(t) => t.spec_cell_size(),
        }
    }

    fn name(&self) -> (r: &'static str) {
        match self {
            Transport::Direct(d) => d.name(),
            Transport::Tmux(t) => t.name(),
        }
    }

    fn is_active(&self) -> (r: bool) {
        match self {
            Transport::Direct(d) => d.is_active(),
            Transport::Tmux(t) => t.is_active(),
        }
    }

    fn is_multiplexer(&self) -> (r: bool) {
        match self {
            Transport::Direct(d) => d.is_multiplexer(),
            Transport::Tmux(t) => t.is_multiplexer(),
        }
    }

    fn is_passthrough_enabled(&self) -> (r: bool) {
        match self {
            Transport::Direct(d) => d.is_passthrough_enabled(),
            Transport::Tmux(t) => t.is_passthrough_enabled(),
        }
    }

    fn passthrough_enable_hint(&self) -> (r: Option<&'static str>) {
        match self {
            Transport::Direct(d) => d.passthrough_enable_hint(),
            Transport::Tmux(t) => t.passthrough_enable_hint(),
        }
    }

    fn wrap_escape(&self, raw: &[u8]) -> (r: Vec<u8>) {
        match self {
            Transport::Direct(d) => d.wrap_escape(raw),
            Transport::Tmux(t) => t.wrap_escape(raw),
        }
    }

    fn physical_origin(&self) -> (r: (u16, u16)) {
        match self {
            Transport::Direct(d) => d.physical_origin(),
            Transport::Tmux(t) => t.physical_origin(),
        }
    }

    fn cell_size(&self) -> (r: Option<(u16, u16)>) {
        match self {
            Transport::Direct(d) => d.cell_size(),
            Transport::Tmux(t) => t.cell_size(),
        }
    }
}

/// The transport that detection picks from a list: the first active one, else a direct one.
pub open spec fn detected_transport(transports: Seq<Transport>) -> Transport
    decreases transports.len(),
{
    if transports.len() == 0 {
        Transport::Direct(DirectTransport::spec_new())
    } else if transports[0].spec_active() {
        transports[0]
    } else {
        detected_transport(transports.drop_first())
    }
}

/// Registry managing all supported terminal multiplexer transport plugins.
pub struct TransportRegistry {
    transports: Vec<Transport>,
}

impl TransportRegistry {
    /// The registered transports, in registration order.
    pub closed spec fn spec_transports(&self) -> Seq<Transport> {
        self.transports@
    }

    /// Creates a registry pre-loaded with the supported multiplexer plugin, whose session
    /// state the caller probed.
    pub fn new(tmux: TmuxTransport) -> (r: Self)
        ensures
            r.spec_transports() == seq![Transport::Tmux(tmux)],
    {
        let mut registry = Self { transports: Vec::new() };
        registry.register(Transport::Tmux(tmux));
        registry
    }

    /// Registers an additional multiplexer transport plugin.
    pub fn register(&mut self, transport: Transport)
        ensures
            final(self).spec_transports() == old(self).spec_transports().push(transport),
    {
        self.transports.push(transport);
    }

    /// Iterates over registered multiplexers and returns the active one,
    /// or falls back to DirectTransport if running directly in the terminal.
    pub fn detect_transport(&self) -> (r: Transport)
        ensures
            r == detected_transport(self.spec_transports()),
    {
        let mut i: usize = 0;
        assert(self.transports@.skip(0) =~= self.transports@);
        while i < self.transports.len()
            invariant
                i <= self.transports@.len(),
                detected_transport(self.transports@) == detected_transport(
                    self.transports@.skip(i as int),
                ),
            decreases self.transports.len() - i,
        {
            assert(self.transports@.skip(i as int).drop_first() =~= self.transports@.skip(
                i + 1,
            ));
            if self.transports[i].is_active() {
                return self.transports[i];
            }
            i = i + 1;
        }
        Transport::Direct(DirectTransport::new())
    }
}

/// Global detection entry point using the TransportRegistry.
pub fn detect_transport(tmux: TmuxTransport) -> (r: Transport)
    ensures
        r == detected_transport(seq![Transport::Tmux(tmux)]),
{
    let registry = TransportRegistry::new(tmux);
    registry.detect_transport()
}

/// Registering a transport never changes which transport detection picks while an earlier
/// registered one is active; otherwise the new one is consulted last: it is picked if active,
/// and a direct transport if not.
pub proof fn law_register_keeps_detection(ts: Seq<Transport>, t: Transport)
    ensures
        detected_transport(ts.push(t)) == if exists|i: int|
            0 <= i < ts.len() && #[trigger] ts[i].spec_active() {
            detected_transport(ts)
        } else if t.spec_active() {
            t
        } else {
            Transport::Direct(DirectTransport::spec_new())
        },
    decreases ts.len(),
{
    if ts.len() == 0 {
        assert(ts.push(t).drop_first() =~= Seq::<Transport>::empty());
    } else {
        let rest = ts.drop_first();
        assert(ts.push(t).drop_first() =~= rest.push(t));
        assert(ts.push(t)[0] == ts[0]);
        law_register_keeps_detection(rest, t);
        if !ts[0].spec_active() {
            assert((exists|i: int| 0 <= i < ts.len() && #[trigger] ts[i].spec_active()) <==> (
            exists|i: int| 0 <= i < rest.len() && #[trigger] rest[i].spec_active())) by {
                if exists|i: int| 0 <= i < ts.len() && #[trigger] ts[i].spec_active() {
                    let i = choose|i: int| 0 <= i < ts.len() && #[trigger] ts[i].spec_active();
                    assert(rest[i - 1] == ts[i]);
                }
                if exists|i: int| 0 <= i < rest.len() && #[trigger] rest[i].spec_active() {
                    let i = choose|i: int| 0 <= i < rest.len() && #[trigger] rest[i].spec_active();
                    assert(ts[i + 1] == rest[i]);
                }
            }
        } else {
            assert(ts[0].spec_active());
        }
    }
}

} // verus!
