use ruffle_ios::keys::{
    key_descriptor, key_to_logical, key_to_physical, press_event, press_events, KeyDescriptor, KeyEvent,
    KeyLocation, LogicalKey, PhysicalKey, Press, PressPhase, UiKey,
};

#[test]
fn letters_digits_and_function_keys_map_to_physical_keys() {
    assert_eq!(key_to_physical(0x04), PhysicalKey::KeyA);
    assert_eq!(key_to_physical(0x1D), PhysicalKey::KeyZ);
    assert_eq!(key_to_physical(0x1E), PhysicalKey::Digit1);
    assert_eq!(key_to_physical(0x27), PhysicalKey::Digit0);
    assert_eq!(key_to_physical(0x3A), PhysicalKey::F1);
    assert_eq!(key_to_physical(0x73), PhysicalKey::F24);
    assert_eq!(key_to_physical(0xE7), PhysicalKey::SuperRight);
}

#[test]
fn several_codes_share_a_physical_key() {
    assert_eq!(key_to_physical(0x28), PhysicalKey::Enter);
    assert_eq!(key_to_physical(0x9E), PhysicalKey::Enter);
    assert_eq!(key_to_physical(0x2E), PhysicalKey::Equal);
    assert_eq!(key_to_physical(0x67), PhysicalKey::Equal);
    assert_eq!(key_to_physical(0x86), PhysicalKey::Equal);
    assert_eq!(key_to_physical(0x36), PhysicalKey::Comma);
    assert_eq!(key_to_physical(0x85), PhysicalKey::Comma);
    assert_eq!(key_to_physical(0x63), PhysicalKey::NumpadComma);
}

#[test]
fn unmapped_codes_are_unknown() {
    assert_eq!(key_to_physical(0), PhysicalKey::Unknown);
    assert_eq!(key_to_physical(0x32), PhysicalKey::Unknown);
    assert_eq!(key_to_physical(0x46), PhysicalKey::Unknown);
    assert_eq!(key_to_physical(0x4C), PhysicalKey::Unknown);
    assert_eq!(key_to_physical(-1), PhysicalKey::Unknown);
    assert_eq!(key_to_physical(1000), PhysicalKey::Unknown);
}

#[test]
fn logical_key_is_the_last_character() {
    assert_eq!(key_to_logical("a"), LogicalKey::Character('a'));
    assert_eq!(key_to_logical("ab"), LogicalKey::Character('b'));
    assert_eq!(key_to_logical("é"), LogicalKey::Character('é'));
    assert_eq!(key_to_logical("xé"), LogicalKey::Character('é'));
    assert_eq!(key_to_logical(""), LogicalKey::Unknown);
}

fn key(code: isize, characters: &str) -> UiKey {
    UiKey { key_code: code, characters: characters.to_string() }
}

#[test]
fn descriptor_combines_both_keys() {
    assert_eq!(
        key_descriptor(&key(0x04, "a")),
        KeyDescriptor {
            physical_key: PhysicalKey::KeyA,
            logical_key: LogicalKey::Character('a'),
            key_location: KeyLocation::Standard,
        }
    );
}

#[test]
fn press_phases_give_key_down_and_up() {
    let d = key_descriptor(&key(0x2C, " "));
    assert_eq!(press_event(&Press { key: Some(key(0x2C, " ")), phase: PressPhase::Began }), Some(KeyEvent::KeyDown { key: d }));
    assert_eq!(press_event(&Press { key: Some(key(0x2C, " ")), phase: PressPhase::Ended }), Some(KeyEvent::KeyUp { key: d }));
    assert_eq!(press_event(&Press { key: Some(key(0x2C, " ")), phase: PressPhase::Cancelled }), Some(KeyEvent::KeyUp { key: d }));
    assert_eq!(press_event(&Press { key: Some(key(0x2C, " ")), phase: PressPhase::Changed }), None);
    assert_eq!(press_event(&Press { key: Some(key(0x2C, " ")), phase: PressPhase::Stationary }), None);
    assert_eq!(press_event(&Press { key: None, phase: PressPhase::Began }), None);
}

#[test]
fn presses_keep_their_order_and_skip_those_without_events() {
    let presses = vec![
        Press { key: Some(key(0x04, "a")), phase: PressPhase::Began },
        Press { key: None, phase: PressPhase::Began },
        Press { key: Some(key(0x05, "b")), phase: PressPhase::Changed },
        Press { key: Some(key(0x06, "c")), phase: PressPhase::Ended },
    ];
    let events = press_events(&presses);
    assert_eq!(events.len(), 2);
    assert_eq!(events[0], KeyEvent::KeyDown { key: key_descriptor(&key(0x04, "a")) });
    assert_eq!(events[1], KeyEvent::KeyUp { key: key_descriptor(&key(0x06, "c")) });
    assert!(press_events(&Vec::new()).is_empty());
}
