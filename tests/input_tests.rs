use standing_desk::direction::{Direction, DirectionControl};
use standing_desk::input::{
    confirm_press, Button, Inputs, PressDebouncer, PressWait, State, StateChange, SETTLE_MS,
};

#[test]
fn press_and_release_count_only_transitions() {
    let mut s = State::new();
    s.release();
    assert_eq!(s.changes, 0);
    s.press();
    assert_eq!(s.changes, 1);
    s.press();
    assert_eq!(s.changes, 1);
    assert!(s.is_pressed());
    s.release();
    assert_eq!(s.changes, 2);
    assert!(!s.is_pressed());
}

#[test]
fn counter_wraps_keeping_parity() {
    let mut s = State { changes: 255 };
    assert!(s.is_pressed());
    s.release();
    assert_eq!(s.changes, 0);
    assert!(!s.is_pressed());
}

#[test]
fn state_changes() {
    let released = State::new();
    let mut pressed = State::new();
    pressed.press();
    assert_eq!(pressed.changed_since(&released), StateChange::Pressed);
    assert_eq!(released.changed_since(&pressed), StateChange::Released);
    assert_eq!(pressed.changed_since(&pressed), StateChange::StillPressed);
    assert_eq!(released.changed_since(&released), StateChange::StillReleased);
}

#[test]
fn missed_updates_are_detected() {
    let older = State::new();
    let mut newer = State::new();
    newer.press();
    newer.release();
    assert_eq!(newer.changed_since(&older), StateChange::StillReleased);
    assert!(newer.missed_updates_since(&older));
    let mut once = State::new();
    once.press();
    assert!(!once.missed_updates_since(&older));
    // across the wrap
    let a = State { changes: 254 };
    let b = State { changes: 1 };
    assert!(b.missed_updates_since(&a));
}

#[test]
fn single_press_is_exclusive() {
    let older = Inputs::new();
    let mut newer = Inputs::new();
    newer.pos2.press();
    let changes = newer.changed_since(&older);
    assert_eq!(changes.pressed(), Button::pos2());
    assert_eq!(changes.pressed_exclusive(), Some(Button::pos2()));
}

#[test]
fn chords_are_not_exclusive() {
    let older = Inputs::new();
    let mut newer = Inputs::new();
    newer.up.press();
    newer.down.press();
    let changes = newer.changed_since(&older);
    assert_eq!(changes.pressed(), Button::up_and_down());
    assert_eq!(changes.pressed_exclusive(), None);
}

#[test]
fn coalesced_edges_are_not_exclusive() {
    let older = Inputs::new();
    let mut newer = Inputs::new();
    newer.up.press();
    newer.pos1.press();
    newer.pos1.release();
    let changes = newer.changed_since(&older);
    assert!(changes.missed_updates);
    assert_eq!(changes.pressed(), Button::up());
    assert_eq!(changes.pressed_exclusive(), None);
}

#[test]
fn held_button_is_not_a_fresh_press() {
    let mut older = Inputs::new();
    older.up.press();
    let newer = older;
    assert_eq!(newer.changed_since(&older).pressed_exclusive(), None);
}

#[test]
fn released_checks_every_button_of_the_set() {
    let older = Inputs::new();
    let mut newer = Inputs::new();
    newer.up.press();
    let changes = newer.changed_since(&older);
    assert!(!changes.released(Button::up()));
    assert!(changes.released(Button::down()));
    assert!(!changes.released(Button::up_and_down()));
    assert!(changes.released(Button::empty()));
}

#[test]
fn button_map_lists_all_buttons() {
    let older = Inputs::new();
    let mut newer = Inputs::new();
    newer.down.press();
    let map = newer.changed_since(&older).button_map();
    assert_eq!(map[0], (Button::up(), StateChange::StillReleased));
    assert_eq!(map[1], (Button::down(), StateChange::Pressed));
    assert_eq!(map[2].0, Button::pos1());
    assert_eq!(map[3].0, Button::pos2());
}

#[test]
fn debounce_confirms_only_a_held_press() {
    let start = Inputs::new();
    let mut pressed = start;
    pressed.up.press();
    let mut reference = start;
    let changes = reference.observe(&pressed);
    let candidate = changes.press_candidate().unwrap();
    assert_eq!(candidate, Button::up());
    // still held after the settle delay: confirmed
    assert!(confirm_press(candidate, &pressed.changed_since(&reference)));
    // let go before the settle delay: not confirmed
    let mut let_go = pressed;
    let_go.up.release();
    assert!(!confirm_press(candidate, &let_go.changed_since(&reference)));
    // another button joined: not the same press
    let mut joined = pressed;
    joined.down.press();
    assert!(!confirm_press(candidate, &joined.changed_since(&reference)));
}

#[test]
fn nothing_pressed_has_no_candidate() {
    let a = Inputs::new();
    assert_eq!(a.changed_since(&a).press_candidate(), None);
}

#[test]
fn button_sets() {
    assert!(Button::up_and_down().contains(Button::up()));
    assert!(!Button::up().contains(Button::down()));
    assert_eq!(Button::up().union(Button::down()), Button::up_and_down());
    assert!(Button::empty().is_empty());
}

#[test]
fn direction_handshake() {
    let mut d = DirectionControl::new();
    assert_eq!(d.planned(), None);
    d.request(Direction::Up);
    assert_eq!(d.planned(), Some(Direction::Up));
    assert_eq!(d.get(), Direction::Stopped);
    d.acknowledge(Direction::Up);
    assert_eq!(d.planned(), None);
    assert_eq!(d.get(), Direction::Up);
    d.request(Direction::Down);
    d.request(Direction::Stopped);
    assert_eq!(d.planned(), Some(Direction::Stopped));
    d.acknowledge(Direction::Down);
    assert_eq!(d.planned(), Some(Direction::Stopped));
    d.acknowledge(Direction::Stopped);
    assert_eq!(d.planned(), None);
    assert_eq!(d.requested(), Direction::Stopped);
}

#[test]
fn direction_outputs_and_symbols() {
    assert_eq!(Direction::Up.outputs(), (true, false));
    assert_eq!(Direction::Down.outputs(), (false, true));
    assert_eq!(Direction::Stopped.outputs(), (false, false));
    assert_eq!(Direction::ResetDrive.outputs(), (true, true));
    assert_eq!(Direction::Up.symbol(), "+");
    assert_eq!(Direction::Stopped.symbol(), "0");
    assert_eq!(Direction::Down.symbol(), "-");
    assert_eq!(Direction::ResetDrive.symbol(), "R");
}

#[test]
fn debouncer_confirms_a_press_held_past_the_settle_delay() {
    let idle = Inputs::new();
    let mut held = idle;
    held.pos1.press();
    let mut d = PressDebouncer::new(idle);
    assert_eq!(d.poll(&idle, 0), None);
    assert_eq!(d.wait, PressWait::Idle);
    assert_eq!(d.poll(&held, 10), None);
    assert_eq!(d.wait, PressWait::Settling { candidate: Button::pos1(), since_ms: 10 });
    assert_eq!(d.poll(&held, 10 + SETTLE_MS - 1), None);
    assert_eq!(d.poll(&held, 10 + SETTLE_MS), Some(Button::pos1()));
    assert_eq!(d.wait, PressWait::Idle);
}

#[test]
fn debouncer_drops_a_press_let_go_within_the_settle_delay() {
    let idle = Inputs::new();
    let mut held = idle;
    held.up.press();
    let mut d = PressDebouncer::new(idle);
    assert_eq!(d.poll(&held, 100), None);
    let mut let_go = held;
    let_go.up.release();
    assert_eq!(d.poll(&let_go, 150), None);
    assert_eq!(d.poll(&let_go, 100 + SETTLE_MS), None);
    assert_eq!(d.wait, PressWait::Idle);
}
