use plug_gui::keyboard::{
    code_or_unidentified, convert_code, convert_key, convert_key_state, convert_location,
    convert_modifiers, key_or_unidentified, BlitzKeyState, Key, KeyState, Location,
};

fn named(name: &str) -> Key {
    Key::Named(name.to_string())
}

fn name_of(key: Key) -> String {
    match key {
        Key::Named(name) => name,
        Key::Character(_) => panic!("a character"),
    }
}

#[test]
fn known_modifiers_stay() {
    assert_eq!(convert_modifiers(0), 0);
    assert_eq!(convert_modifiers(0b1111), 0b1111);
    assert_eq!(convert_modifiers(0x3fff), 0x3fff);
}

#[test]
fn unknown_modifiers_are_dropped() {
    assert_eq!(convert_modifiers(0x4000), 0);
    assert_eq!(convert_modifiers(u32::MAX), 0x3fff);
    assert_eq!(convert_modifiers(convert_modifiers(u32::MAX)), 0x3fff);
}

#[test]
fn named_keys_keep_their_names() {
    for name in ["Enter", "Escape", "ArrowLeft", "F12", "Shift", "Unidentified"] {
        assert_eq!(name_of(convert_key(&named(name))), name);
    }
}

#[test]
fn an_unknown_name_is_unidentified() {
    assert_eq!(name_of(convert_key(&named("NoSuchKey"))), "Unidentified");
}

#[test]
fn a_character_stays_a_character() {
    match convert_key(&Key::Character("é".to_string())) {
        Key::Character(text) => assert_eq!(text, "é"),
        Key::Named(_) => panic!("a name"),
    }
    // A text that is also the name of a key.
    match convert_key(&Key::Character("Enter".to_string())) {
        Key::Character(text) => assert_eq!(text, "Enter"),
        Key::Named(_) => panic!("a name"),
    }
}

#[test]
fn codes_keep_their_names() {
    for code in ["KeyA", "Digit1", "Space", "NumpadEnter", "ControlLeft"] {
        assert_eq!(convert_code(code), code);
    }
}

#[test]
fn an_old_code_gets_its_new_name() {
    assert_eq!(convert_code("OSLeft"), "MetaLeft");
}

#[test]
fn an_unknown_code_is_unidentified() {
    assert_eq!(convert_code("NoSuchCode"), "Unidentified");
    assert_eq!(convert_code(""), "Unidentified");
}

#[test]
fn what_was_parsed_is_kept() {
    assert_eq!(code_or_unidentified(Some("KeyA".to_string())), "KeyA");
    assert_eq!(code_or_unidentified(None), "Unidentified");
    assert_eq!(name_of(key_or_unidentified(Some(named("Tab")))), "Tab");
    assert_eq!(name_of(key_or_unidentified(None)), "Unidentified");
}

#[test]
fn locations_go_by_number() {
    assert_eq!(convert_location(0), Location::Standard);
    assert_eq!(convert_location(1), Location::Left);
    assert_eq!(convert_location(2), Location::Right);
    assert_eq!(convert_location(3), Location::Numpad);
    assert_eq!(convert_location(4), Location::Standard);
    assert_eq!(convert_location(u32::MAX), Location::Standard);
}

#[test]
fn key_states_convert() {
    assert_eq!(convert_key_state(KeyState::Down), BlitzKeyState::Pressed);
    assert_eq!(convert_key_state(KeyState::Up), BlitzKeyState::Released);
}
