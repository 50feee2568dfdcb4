use imvic::watcher::{
    debounce_step, is_reload_trigger, ChangeKind, DebounceAction, DebounceState, WatchSignal,
};
use imvic::watcher::WatchSignal::{Changed, Disconnected, QuietElapsed};

fn run(signals: &[WatchSignal]) -> (DebounceState, usize, bool) {
    let mut state = DebounceState::Idle;
    let mut emitted = 0;
    for s in signals {
        let (next, action) = debounce_step(state, *s);
        state = next;
        match action {
            DebounceAction::EmitReload => emitted += 1,
            DebounceAction::Stop => return (state, emitted, true),
            _ => {}
        }
    }
    (state, emitted, false)
}

#[test]
fn one_reload_per_burst() {

    assert_eq!(run(&[Changed, Changed, Changed, QuietElapsed]), (DebounceState::Idle, 1, false));
    assert_eq!(
        run(&[Changed, QuietElapsed, Changed, Changed, QuietElapsed]),
        (DebounceState::Idle, 2, false)
    );
    assert_eq!(run(&[Changed, Changed]), (DebounceState::Settling, 0, false));
}

#[test]
fn disconnect_stops_without_reload() {

    assert_eq!(run(&[Changed, Disconnected, QuietElapsed]), (DebounceState::Settling, 0, true));
    assert_eq!(run(&[Disconnected]), (DebounceState::Idle, 0, true));
    assert_eq!(
        debounce_step(DebounceState::Idle, Changed),
        (DebounceState::Settling, DebounceAction::WaitForQuiet)
    );
}

#[test]
fn only_creations_and_modifications_of_the_watched_file_count() {
    assert!(is_reload_trigger(ChangeKind::Modify, &[false, true]));
    assert!(is_reload_trigger(ChangeKind::Create, &[true]));
    assert!(!is_reload_trigger(ChangeKind::Other, &[true]));
    assert!(!is_reload_trigger(ChangeKind::Modify, &[false, false]));
    assert!(!is_reload_trigger(ChangeKind::Create, &[]));
}
