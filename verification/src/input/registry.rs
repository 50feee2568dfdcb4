//! Central input registry managing and multiplexing active hardware input plugins.

use super::touchpad::{event_step, TouchpadInputAdapter};
use super::{AppEvent, Event};
use vstd::prelude::*;

verus! {

/// Offers `e` to the adapters (given by their drag anchors) in order: the first that produces
/// an application event wins; the adapters after it do not see the event.
pub open spec fn dispatch(anchors: Seq<Option<(u16, u16)>>, e: Event) -> (
    Option<AppEvent>,
    Seq<Option<(u16, u16)>>,
)
    decreases anchors.len(),
{
    if anchors.len() == 0 {
        (None, anchors)
    } else {
        let (r, a) = event_step(anchors[0], e);
        if r is Some {
            (r, anchors.update(0, a))
        } else {
            let (r2, rest) = dispatch(anchors.drop_first(), e);
            (r2, seq![a] + rest)
        }
    }
}

/// `n` driver names joined by ` + `.
pub open spec fn drivers_summary(n: nat) -> Seq<char>
    decreases n,
{
    if n == 0 {
        Seq::empty()
    } else if n == 1 {
        "Touchpad"@
    } else {
        drivers_summary((n - 1) as nat) + " + "@ + "Touchpad"@
    }
}

/// Central input registry managing active hardware input adapters.
pub struct InputRegistry {
    adapters: Vec<TouchpadInputAdapter>,
}

impl InputRegistry {
    /// The drag anchors of the registered adapters, in order.
    pub closed spec fn spec_anchors(&self) -> Seq<Option<(u16, u16)>> {
        self.adapters@.map_values(|a: TouchpadInputAdapter| a.spec_drag_anchor())
    }

    /// Creates an input registry with every candidate adapter whose hardware is detected
    /// (from the text of `/proc/bus/input/devices`, if readable), falling back to the touchpad
    /// adapter when none is.
    pub fn new(devices: Option<&str>) -> (r: Self)
        ensures
            r.spec_anchors() == seq![None::<(u16, u16)>],
    {
        let mut registry = Self { adapters: Vec::new() };
        // Candidate hardware input plugins
        let candidate = TouchpadInputAdapter::new();
        // Auto-detect and activate only available hardware devices
        if candidate.is_available(devices) {
            registry.register(candidate);
        }
        // Fallback safety: if hardware detection is uncertain, ensure at least touchpad is active
        if registry.adapters.len() == 0 {
            registry.register(TouchpadInputAdapter::new());
        }
        assert(registry.spec_anchors() =~= seq![None::<(u16, u16)>]);
        registry
    }

    /// Registers an additional input adapter plugin.
    pub fn register(&mut self, adapter: TouchpadInputAdapter)
        ensures
            final(self).spec_anchors() == old(self).spec_anchors().push(adapter.spec_drag_anchor()),
    {
        self.adapters.push(adapter);
        assert(self.spec_anchors() =~= old(self).spec_anchors().push(adapter.spec_drag_anchor()));
    }

    /// Translates a terminal event by dispatching through all active input adapters.
    pub fn handle_event(&mut self, event: &Event) -> (r: Option<AppEvent>)
        ensures
            (r, final(self).spec_anchors()) == dispatch(old(self).spec_anchors(), *event),
    {
        let ghost start = self.spec_anchors();
        let mut i: usize = 0;
        assert(start.skip(0) =~= start);
        assert(self.spec_anchors().take(0) + dispatch(start, *event).1 =~= dispatch(start, *event).1);
        while i < self.adapters.len()
            invariant
                i <= self.adapters@.len(),
                start == old(self).spec_anchors(),
                self.spec_anchors().len() == start.len(),
                self.spec_anchors().skip(i as int) == start.skip(i as int),
                dispatch(start, *event) == ({
                    let (r2, rest) = dispatch(start.skip(i as int), *event);
                    (r2, self.spec_anchors().take(i as int) + rest)
                }),
            decreases self.adapters.len() - i,
        {
            let ghost before = self.spec_anchors();
            let mut adapter = self.adapters[i];
            let res = adapter.handle_event(event);
            self.adapters.set(i, adapter);
            let ghost tail = start.skip(i as int);
            assert(tail[0] == before[i as int]);
            assert(tail.drop_first() =~= start.skip(i + 1));
            assert(self.spec_anchors() =~= before.update(i as int, adapter.spec_drag_anchor()));
            assert(event_step(tail[0], *event) == (res, adapter.spec_drag_anchor()));
            if res.is_some() {
                assert(dispatch(tail, *event) == (res, tail.update(0, adapter.spec_drag_anchor())));
                assert(self.spec_anchors() =~= before.take(i as int) + tail.update(
                    0,
                    adapter.spec_drag_anchor(),
                ));
                assert(dispatch(start, *event) == (res, before.take(i as int) + tail.update(
                    0,
                    adapter.spec_drag_anchor(),
                )));
                assert(start == old(self).spec_anchors());
                assert((res, self.spec_anchors()) == dispatch(start, *event));
                return res;
            }
            assert(dispatch(tail, *event) == ({
                let (r2, rest) = dispatch(start.skip(i + 1), *event);
                (r2, seq![adapter.spec_drag_anchor()] + rest)
            }));
            assert(self.spec_anchors().take(i + 1) =~= before.take(i as int) + seq![
                adapter.spec_drag_anchor(),
            ]);
            assert(self.spec_anchors().skip(i + 1) =~= start.skip(i + 1));
            i = i + 1;
        }
        assert(start.skip(i as int) =~= Seq::<Option<(u16, u16)>>::empty());
        assert(self.spec_anchors().take(i as int) =~= self.spec_anchors());
        None
    }

    /// Returns a human-readable list of active input drivers (e.g. "Touchpad").
    pub fn active_drivers_summary(&self) -> (r: String)
        ensures
            r@ == drivers_summary(self.spec_anchors().len()),
    {
        let mut s = String::new();
        let mut i: usize = 0;
        while i < self.adapters.len()
            invariant
                i <= self.adapters@.len(),
                self.spec_anchors().len() == self.adapters@.len(),
                s@ == drivers_summary(i as nat),
            decreases self.adapters.len() - i,
        {
            if i > 0 {
                s.append(" + ");
            }
            s.append(self.adapters[i].name());
            i = i + 1;
        }
        s
    }
}

} // verus!
