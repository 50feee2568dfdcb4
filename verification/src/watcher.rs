//! Trailing-edge debouncing of file-change notifications for live reload.
//!
//! A reload is signalled once a quiet window passes with no further change, so that
//! multi-stage editor saves (truncate, flush, atomic rename) have finished first.

use vstd::prelude::*;

verus! {

/// Where the debouncer stands.
#[derive(Debug, Clone, Copy, PartialEq, Eq, Structural)]
pub enum DebounceState {
    /// Blocked until the first change of a burst.
    Idle,
    /// A burst is under way; waiting for a quiet window.
    Settling,
}

/// What the debouncer's channel reported.
#[derive(Debug, Clone, Copy, PartialEq, Eq, Structural)]
pub enum WatchSignal {
    /// A relevant file-system change arrived.
    Changed,
    /// The quiet window elapsed with no change.
    QuietElapsed,
    /// The watcher was dropped; the channel is closed.
    Disconnected,
}

/// What the debouncer does next.
#[derive(Debug, Clone, Copy, PartialEq, Eq, Structural)]
pub enum DebounceAction {
    /// Block until a change arrives.
    WaitForChange,
    /// Wait for a change, at most the quiet window.
    WaitForQuiet,
    /// Send one reload event, then block until a change arrives.
    EmitReload,
    /// Terminate the worker.
    Stop,
}

/// The kind of a file-system notification, as far as reloading is concerned.
#[derive(Debug, Clone, Copy, PartialEq, Eq, Structural)]
pub enum ChangeKind {
    /// A file was created (an editor's atomic rename lands as a creation).
    Create,
    /// A file's data or metadata was modified.
    Modify,
    /// Any other notification (access, removal, ...).
    Other,
}

/// A notification feeds the debouncer when it creates or modifies a path and one of its paths
/// is the watched file (`path_matches[i]`: path `i` names it, by full path or by file name).
pub open spec fn triggers_reload(kind: ChangeKind, path_matches: Seq<bool>) -> bool {
    &&& (kind == ChangeKind::Create || kind == ChangeKind::Modify)
    &&& exists|i: int| 0 <= i < path_matches.len() && path_matches[i]
}

/// Whether a notification counts as a change of the watched file.
pub fn is_reload_trigger(kind: ChangeKind, path_matches: &[bool]) -> (r: bool)
    ensures
        r == triggers_reload(kind, path_matches@),
{
    if kind == ChangeKind::Other {
        return false;
    }
    let mut i: usize = 0;
    while i < path_matches.len()
        invariant
            i <= path_matches@.len(),
            kind != ChangeKind::Other,
            forall|j: int| 0 <= j < i ==> !path_matches@[j],
        decreases path_matches.len() - i,
    {
        if path_matches[i] {
            assert(path_matches@[i as int]);
            return true;
        }
        i = i + 1;
    }
    false
}

/// The debouncer's transition.
pub open spec fn debounce(state: DebounceState, signal: WatchSignal) -> (DebounceState, DebounceAction) {
    match (state, signal) {
        (_, WatchSignal::Disconnected) => (state, DebounceAction::Stop),
        (_, WatchSignal::Changed) => (DebounceState::Settling, DebounceAction::WaitForQuiet),
        (DebounceState::Settling, WatchSignal::QuietElapsed) => (
            DebounceState::Idle,
            DebounceAction::EmitReload,
        ),
        (DebounceState::Idle, WatchSignal::QuietElapsed) => (
            DebounceState::Idle,
            DebounceAction::WaitForChange,
        ),
    }
}

/// One step of the debouncer: every change (re)starts the quiet window; a quiet window after
/// a change emits one reload; a closed channel stops the worker.
pub fn debounce_step(state: DebounceState, signal: WatchSignal) -> (r: (DebounceState, DebounceAction))
    ensures
        r == debounce(state, signal),
{
    match signal {
        WatchSignal::Disconnected => (state, DebounceAction::Stop),
        WatchSignal::Changed => (DebounceState::Settling, DebounceAction::WaitForQuiet),
        WatchSignal::QuietElapsed => match state {
            DebounceState::Settling => (DebounceState::Idle, DebounceAction::EmitReload),
            DebounceState::Idle => (DebounceState::Idle, DebounceAction::WaitForChange),
        },
    }
}

/// State after a sequence of signals, and the number of reloads emitted on the way.
pub open spec fn run(state: DebounceState, signals: Seq<WatchSignal>) -> (DebounceState, nat)
    decreases signals.len(),
{
    if signals.len() == 0 {
        (state, 0nat)
    } else {
        let (next, action) = debounce(state, signals[0]);
        if action == DebounceAction::Stop {
            (next, 0nat)
        } else {
            let (last, n) = run(next, signals.drop_first());
            (last, n + if action == DebounceAction::EmitReload {
                1nat
            } else {
                0nat
            })
        }
    }
}

/// A burst of `k` changes.
pub open spec fn changes(k: nat) -> Seq<WatchSignal> {
    Seq::new(k, |i: int| WatchSignal::Changed)
}

/// However many changes a burst holds, the quiet window after it emits exactly one reload,
/// and the debouncer is idle again.
pub proof fn law_one_reload_per_burst(state: DebounceState, k: nat)
    requires
        k >= 1,
    ensures
        run(state, changes(k).push(WatchSignal::QuietElapsed)) == (DebounceState::Idle, 1nat),
    decreases k,
{
    let s = changes(k).push(WatchSignal::QuietElapsed);
    assert(s[0] == WatchSignal::Changed);
    assert(debounce(state, WatchSignal::Changed) == (
        DebounceState::Settling,
        DebounceAction::WaitForQuiet,
    ));
    if k > 1 {
        law_one_reload_per_burst(DebounceState::Settling, (k - 1) as nat);
        assert(s.drop_first() =~= changes((k - 1) as nat).push(WatchSignal::QuietElapsed));
    } else {
        let q = seq![WatchSignal::QuietElapsed];
        assert(s.drop_first() =~= q);
        assert(q.drop_first() =~= Seq::<WatchSignal>::empty());
        assert(run(DebounceState::Idle, Seq::<WatchSignal>::empty()) == (DebounceState::Idle, 0nat));
        assert(run(DebounceState::Settling, q) == (DebounceState::Idle, 1nat));
    }
}

} // verus!
