use bigcedilla::compose::{
    Action, ComposeState, CEDILLA_LOWER, CEDILLA_UPPER, KEY_C_LOWER, KEY_C_UPPER, KEY_DEAD_ACUTE,
};

#[test]
fn idle_letter_forwards() {
    let mut s = ComposeState::default();
    assert!(matches!(s.on_press(0x0061, 38, 0), Action::Forward));
}

#[test]
fn dead_acute_then_c_emits_cedilla() {
    let mut s = ComposeState::default();
    assert!(matches!(s.on_press(KEY_DEAD_ACUTE, 48, 0), Action::Swallow));
    assert!(matches!(
        s.on_press(KEY_C_LOWER, 54, 1),
        Action::Commit("\u{e7}")
    ));
}

#[test]
fn dead_acute_then_c_upper_emits_capital_cedilla() {
    let mut s = ComposeState::default();
    s.on_press(KEY_DEAD_ACUTE, 48, 0);
    assert!(matches!(
        s.on_press(KEY_C_UPPER, 54, 1),
        Action::Commit("\u{c7}")
    ));
}

#[test]
fn dead_acute_then_other_replays() {
    let mut s = ComposeState::default();
    s.on_press(KEY_DEAD_ACUTE, 48, 0);
    match s.on_press(0x0061, 38, 1) {
        Action::ReplayThenForward(p) => assert_eq!(p.keycode, 48),
        other => panic!("expected ReplayThenForward, got {other:?}"),
    }
}

#[test]
fn release_of_swallowed_press_is_swallowed() {
    let mut s = ComposeState::default();
    s.on_press(KEY_DEAD_ACUTE, 48, 0);
    assert!(s.on_release(48));
}

#[test]
fn release_of_unrelated_key_passes_through() {
    let mut s = ComposeState::default();
    assert!(!s.on_release(99));
}

#[test]
fn commit_texts_are_the_cedillas() {
    assert_eq!(CEDILLA_LOWER, "\u{00E7}");
    assert_eq!(CEDILLA_UPPER, "\u{00C7}");
    assert_eq!(CEDILLA_LOWER.chars().count(), 1);
}

#[test]
fn keysym_constants() {
    assert_eq!(KEY_DEAD_ACUTE, 0xfe51);
    assert_eq!(KEY_C_LOWER, 0x63);
    assert_eq!(KEY_C_UPPER, 0x43);
}

#[test]
fn double_dead_acute_replays_first_and_buffers_second() {
    let mut s = ComposeState::default();
    s.on_press(KEY_DEAD_ACUTE, 48, 5);
    match s.on_press(KEY_DEAD_ACUTE, 49, 6) {
        Action::ReplayThenBuffer(p) => {
            assert_eq!(p.keycode, 48);
            assert_eq!(p.time, 5);
        }
        other => panic!("expected ReplayThenBuffer, got {other:?}"),
    }
    // the second dead acute is the one buffered now, and `c` still composes
    assert!(matches!(s.on_press(KEY_C_LOWER, 54, 7), Action::Commit("\u{e7}")));
    assert!(s.on_release(48));
    assert!(s.on_release(49));
    assert!(s.on_release(54));
}

#[test]
fn replayed_key_carries_its_time() {
    let mut s = ComposeState::default();
    s.on_press(KEY_DEAD_ACUTE, 48, 100);
    match s.on_press(0x0065, 26, 200) {
        Action::ReplayThenForward(p) => {
            assert_eq!(p.keycode, 48);
            assert_eq!(p.time, 100);
        }
        other => panic!("expected ReplayThenForward, got {other:?}"),
    }
    // nothing is buffered any more: the next letter is forwarded
    assert!(matches!(s.on_press(KEY_C_LOWER, 54, 300), Action::Forward));
}

#[test]
fn release_is_swallowed_only_once() {
    let mut s = ComposeState::default();
    s.on_press(KEY_DEAD_ACUTE, 48, 0);
    s.on_press(KEY_C_LOWER, 54, 1);
    assert!(s.on_release(54));
    assert!(!s.on_release(54));
    assert!(s.on_release(48));
    assert!(!s.on_release(48));
}

#[test]
fn forwarded_press_release_passes_through() {
    let mut s = ComposeState::default();
    assert!(matches!(s.on_press(0x0061, 38, 0), Action::Forward));
    assert!(!s.on_release(38));
}

#[test]
fn c_without_dead_key_is_forwarded() {
    let mut s = ComposeState::default();
    assert!(matches!(s.on_press(KEY_C_LOWER, 54, 0), Action::Forward));
    assert!(matches!(s.on_press(KEY_C_UPPER, 54, 1), Action::Forward));
}

#[test]
fn dead_acute_release_before_c_still_composes() {
    let mut s = ComposeState::default();
    s.on_press(KEY_DEAD_ACUTE, 48, 0);
    assert!(s.on_release(48));
    assert!(matches!(s.on_press(KEY_C_UPPER, 54, 1), Action::Commit("\u{c7}")));
}
