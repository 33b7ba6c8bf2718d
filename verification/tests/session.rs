use bigcedilla::compose::{KEY_C_LOWER, KEY_DEAD_ACUTE};
use bigcedilla::session::{
    action_outputs, xkb_keycode, KeyOutput, KeyboardSession, KEYCODE_OFFSET, KEY_STATE_PRESSED,
    KEY_STATE_RELEASED,
};
use bigcedilla::compose::{Action, PendingKey};

fn key(serial: u32, time: u32, key: u32, state: u32) -> KeyOutput {
    KeyOutput::Key { serial, time, key, state }
}

#[test]
fn xkb_keycode_adds_offset() {
    assert_eq!(KEYCODE_OFFSET, 8);
    assert_eq!(xkb_keycode(30), 38);
    assert_eq!(xkb_keycode(0), 8);
}

#[test]
fn key_state_constants() {
    assert_eq!(KEY_STATE_RELEASED, 0);
    assert_eq!(KEY_STATE_PRESSED, 1);
}

#[test]
fn dead_acute_c_sends_single_commit() {
    let mut s = KeyboardSession::new();
    s.commit_state(42);
    assert_eq!(s.on_key(1, 10, 40, KEY_STATE_PRESSED, Some(KEY_DEAD_ACUTE)), vec![]);
    assert_eq!(
        s.on_key(2, 11, 46, KEY_STATE_PRESSED, Some(KEY_C_LOWER)),
        vec![KeyOutput::Commit { serial: 42, text: "\u{e7}" }]
    );
    assert_eq!(s.on_key(3, 12, 40, KEY_STATE_RELEASED, None), vec![]);
    assert_eq!(s.on_key(4, 13, 46, KEY_STATE_RELEASED, None), vec![]);
}

#[test]
fn plain_key_is_forwarded_with_event_serial() {
    let mut s = KeyboardSession::new();
    assert_eq!(
        s.on_key(7, 100, 30, KEY_STATE_PRESSED, Some(0x61)),
        vec![key(7, 100, 30, KEY_STATE_PRESSED)]
    );
    assert_eq!(
        s.on_key(8, 101, 30, KEY_STATE_RELEASED, Some(0x61)),
        vec![key(8, 101, 30, KEY_STATE_RELEASED)]
    );
}

#[test]
fn press_without_keymap_is_forwarded() {
    let mut s = KeyboardSession::new();
    assert_eq!(
        s.on_key(5, 9, 40, KEY_STATE_PRESSED, None),
        vec![key(5, 9, 40, KEY_STATE_PRESSED)]
    );
    // it did not touch the compose state: its release is forwarded
    assert_eq!(
        s.on_key(6, 10, 40, KEY_STATE_RELEASED, None),
        vec![key(6, 10, 40, KEY_STATE_RELEASED)]
    );
}

#[test]
fn dead_acute_then_letter_replays_then_forwards() {
    let mut s = KeyboardSession::new();
    s.on_key(1, 10, 40, KEY_STATE_PRESSED, Some(KEY_DEAD_ACUTE));
    assert_eq!(
        s.on_key(2, 20, 30, KEY_STATE_PRESSED, Some(0x61)),
        vec![
            key(2, 10, 40, KEY_STATE_PRESSED),
            key(2, 10, 40, KEY_STATE_RELEASED),
            key(2, 20, 30, KEY_STATE_PRESSED),
        ]
    );
    // the dead key's own release is still dropped, the letter's is forwarded
    assert_eq!(s.on_key(3, 21, 40, KEY_STATE_RELEASED, None), vec![]);
    assert_eq!(
        s.on_key(4, 22, 30, KEY_STATE_RELEASED, None),
        vec![key(4, 22, 30, KEY_STATE_RELEASED)]
    );
}

#[test]
fn repeat_state_is_forwarded_as_is() {
    let mut s = KeyboardSession::new();
    assert_eq!(s.on_key(9, 5, 30, 2, Some(KEY_DEAD_ACUTE)), vec![key(9, 5, 30, 2)]);
    // a repeat does not buffer anything: the next letter passes through
    assert_eq!(
        s.on_key(10, 6, 31, KEY_STATE_PRESSED, Some(0x62)),
        vec![key(10, 6, 31, KEY_STATE_PRESSED)]
    );
}

#[test]
fn reset_drops_buffered_dead_key() {
    let mut s = KeyboardSession::new();
    s.on_key(1, 10, 40, KEY_STATE_PRESSED, Some(KEY_DEAD_ACUTE));
    s.reset_compose();
    assert_eq!(
        s.on_key(2, 11, 46, KEY_STATE_PRESSED, Some(KEY_C_LOWER)),
        vec![key(2, 11, 46, KEY_STATE_PRESSED)]
    );
    // the swallowed release was forgotten as well
    assert_eq!(
        s.on_key(3, 12, 40, KEY_STATE_RELEASED, None),
        vec![key(3, 12, 40, KEY_STATE_RELEASED)]
    );
}

#[test]
fn commit_uses_latest_text_serial() {
    let mut s = KeyboardSession::new();
    s.commit_state(1);
    s.commit_state(5);
    s.on_key(1, 10, 40, KEY_STATE_PRESSED, Some(KEY_DEAD_ACUTE));
    assert_eq!(
        s.on_key(2, 11, 46, KEY_STATE_PRESSED, Some(0x43)),
        vec![KeyOutput::Commit { serial: 5, text: "\u{c7}" }]
    );
}

#[test]
fn action_outputs_for_each_action() {
    let prev = PendingKey { keycode: 40, time: 3 };
    assert_eq!(action_outputs(Action::Forward, 1, 2, 4, 30), vec![key(1, 4, 30, KEY_STATE_PRESSED)]);
    assert_eq!(action_outputs(Action::Swallow, 1, 2, 4, 30), vec![]);
    assert_eq!(
        action_outputs(Action::Commit("\u{e7}"), 1, 2, 4, 30),
        vec![KeyOutput::Commit { serial: 2, text: "\u{e7}" }]
    );
    assert_eq!(
        action_outputs(Action::ReplayThenBuffer(prev), 1, 2, 4, 30),
        vec![key(1, 3, 40, KEY_STATE_PRESSED), key(1, 3, 40, KEY_STATE_RELEASED)]
    );
    assert_eq!(
        action_outputs(Action::ReplayThenForward(prev), 1, 2, 4, 30),
        vec![
            key(1, 3, 40, KEY_STATE_PRESSED),
            key(1, 3, 40, KEY_STATE_RELEASED),
            key(1, 4, 30, KEY_STATE_PRESSED),
        ]
    );
}
