//! Direct terminal transport without multiplexer wrapping.

use super::TransportAdapter;
use vstd::prelude::*;

verus! {

/// Pass-through transport for standard terminals without multiplexers.
#[derive(Clone, Copy, PartialEq, Eq, Structural)]
pub struct DirectTransport;

impl DirectTransport {
    /// The direct transport value.
    pub open spec fn spec_new() -> Self {
        DirectTransport
    }

    pub fn new() -> (r: Self)
        ensures
            r == Self::spec_new(),
    {
        DirectTransport
    }
}

impl TransportAdapter for DirectTransport {
    open spec fn spec_name(&self) -> Seq<char> {
        "Direct Terminal"@
    }

    open spec fn spec_active(&self) -> bool {
        true
    }

    open spec fn spec_multiplexer(&self) -> bool {
        false
    }

    open spec fn spec_passthrough(&self) -> bool {
        true
    }

    open spec fn spec_hint(&self) -> Option<Seq<char>> {
        None
    }

    open spec fn spec_wrap(&self, raw: Seq<u8>) -> Seq<u8> {
        raw
    }

    open spec fn spec_origin(&self) -> (u16, u16) {
        (1, 1)
    }

    open spec fn spec_cell_size(&self) -> Option<(u16, u16)> {
        None
    }

    fn name(&self) -> (r: &'static str) {
        "Direct Terminal"
    }

    fn is_active(&self) -> (r: bool) {
        true
    }

    fn is_multiplexer(&self) -> (r: bool) {
        false
    }

    fn is_passthrough_enabled(&self) -> (r: bool) {
        true
    }

    fn passthrough_enable_hint(&self) -> (r: Option<&'static str>) {
        None
    }

    fn wrap_escape(&self, raw: &[u8]) -> (r: Vec<u8>) {
        vstd::slice::slice_to_vec(raw)
    }

    fn physical_origin(&self) -> (r: (u16, u16)) {
        (1, 1)
    }

    fn cell_size(&self) -> (r: Option<(u16, u16)>) {
        None
    }
}

} // verus!
