use bigcedilla::child::{
    child_candidates, child_override_path, pick_child_binary, ChildPickError, BIN_DIR,
    CHILD_IM_ENV, MALIIT_KEYBOARD, PLASMA_KEYBOARD,
};

#[test]
fn override_bare_name_is_looked_up_in_usr_bin() {
    assert_eq!(child_override_path("maliit-keyboard"), "/usr/bin/maliit-keyboard");
}

#[test]
fn override_with_slash_is_taken_as_is() {
    assert_eq!(child_override_path("/opt/kbd/bin/kbd"), "/opt/kbd/bin/kbd");
    assert_eq!(child_override_path("./kbd"), "./kbd");
}

#[test]
fn empty_override_names_the_directory() {
    assert_eq!(child_override_path(""), "/usr/bin/");
}

#[test]
fn constants() {
    assert_eq!(CHILD_IM_ENV, "BIGCEDILLA_CHILD_IM");
    assert_eq!(BIN_DIR, "/usr/bin/");
    assert_eq!(child_candidates(), vec![PLASMA_KEYBOARD, MALIIT_KEYBOARD]);
    assert_eq!(PLASMA_KEYBOARD, "/usr/bin/plasma-keyboard");
    assert_eq!(MALIIT_KEYBOARD, "/usr/bin/maliit-keyboard");
}

#[test]
fn existing_override_wins() {
    let r = pick_child_binary(Some("/usr/bin/maliit-keyboard".to_string()), true, &[true, true]);
    assert_eq!(r.unwrap(), "/usr/bin/maliit-keyboard");
}

#[test]
fn missing_override_is_an_error_even_with_defaults_installed() {
    match pick_child_binary(Some("/usr/bin/nope".to_string()), false, &[true, true]) {
        Err(ChildPickError::OverrideMissing(p)) => assert_eq!(p, "/usr/bin/nope"),
        other => panic!("expected OverrideMissing, got {other:?}"),
    }
}

#[test]
fn plasma_keyboard_preferred() {
    assert_eq!(pick_child_binary(None, false, &[true, true]).unwrap(), PLASMA_KEYBOARD);
}

#[test]
fn maliit_is_the_fallback() {
    assert_eq!(pick_child_binary(None, false, &[false, true]).unwrap(), MALIIT_KEYBOARD);
}

#[test]
fn no_keyboard_installed() {
    assert!(matches!(pick_child_binary(None, false, &[false, false]), Err(ChildPickError::NoKeyboard)));
    assert!(matches!(pick_child_binary(None, true, &[]), Err(ChildPickError::NoKeyboard)));
}

#[test]
fn short_existence_list_counts_missing_as_absent() {
    assert_eq!(pick_child_binary(None, false, &[true]).unwrap(), PLASMA_KEYBOARD);
    assert!(matches!(pick_child_binary(None, false, &[false]), Err(ChildPickError::NoKeyboard)));
}
