//! State of a terminal session: the active transport and the bytes of its teardown.

use super::backend::kitty::clear_all;
use super::transport::tmux::{reply_chars, tmux_info, tmux_info_overflows};
use super::transport::{Transport, TransportAdapter};
use crate::text::push_str;
use vstd::prelude::*;

verus! {

/// A terminal session switched into raw mode, holding the transport that wraps its escape
/// sequences. Entering and leaving the terminal modes is the caller's I/O.
pub struct TerminalGuard {
    transport: Transport,
}

impl TerminalGuard {
    /// The active transport.
    pub closed spec fn spec_transport(&self) -> Transport {
        self.transport
    }

    /// A session over the transport that detection chose.
    pub fn new(transport: Transport) -> (r: Self)
        ensures
            r.spec_transport() == transport,
    {
        TerminalGuard { transport }
    }

    /// Accesses the active transport adapter used for escape wrapping.
    pub fn transport(&self) -> (r: &Transport)
        ensures
            *r == self.spec_transport(),
    {
        &self.transport
    }

    /// Refreshes dynamic properties of the active transport adapter (e.g. on window/pane
    /// resize) from a fresh pane-geometry reply.
    pub fn refresh_transport(&mut self, pane_info: Option<&str>)
        requires
            old(self).spec_transport() matches Transport::Tmux(t) ==> !tmux_info_overflows(
                t.spec_in_session(),
                reply_chars(pane_info),
            ),
        ensures
            match old(self).spec_transport() {
                Transport::Direct(d) => final(self).spec_transport() == Transport::Direct(d),
                Transport::Tmux(t) => final(self).spec_transport() == Transport::Tmux(
                    t.refreshed(reply_chars(pane_info)),
                ),
            },
            old(self).spec_transport() matches Transport::Tmux(t) ==> final(self).spec_transport().spec_origin()
                == tmux_info(t.spec_in_session(), reply_chars(pane_info)).0 && final(self).spec_transport().spec_cell_size() == tmux_info(
                t.spec_in_session(),
                reply_chars(pane_info),
            ).1 && final(self).spec_transport().spec_name() == "TMUX DCS Passthrough"@,
    {
        self.transport.refresh(pane_info);
    }

    /// The teardown purge of every placed graphic, in the transport's envelope.
    pub fn clear_graphics_sequence(&self) -> (r: Vec<u8>)
        ensures
            r@ == self.spec_transport().spec_wrap(clear_all()),
    {
        let mut raw: Vec<u8> = Vec::new();
        push_str(&mut raw, "\x1b_Ga=d,d=A\x1b\\");
        self.transport.wrap_escape(raw.as_slice())
    }
}

} // verus!
