//! How UIKit key presses become the key events of the player.
use vstd::prelude::*;

verus! {

/// A key of the physical keyboard, named after the key found at that
/// position on a US keyboard layout.
#[derive(Clone, Copy, Debug, PartialEq, Eq, Structural)]
pub enum PhysicalKey {
    KeyA,
    KeyB,
    KeyC,
    KeyD,
    KeyE,
    KeyF,
    KeyG,
    KeyH,
    KeyI,
    KeyJ,
    KeyK,
    KeyL,
    KeyM,
    KeyN,
    KeyO,
    KeyP,
    KeyQ,
    KeyR,
    KeyS,
    KeyT,
    KeyU,
    KeyV,
    KeyW,
    KeyX,
    KeyY,
    KeyZ,
    Digit1,
    Digit2,
    Digit3,
    Digit4,
    Digit5,
    Digit6,
    Digit7,
    Digit8,
    Digit9,
    Digit0,
    Enter,
    Escape,
    Delete,
    Tab,
    Space,
    Minus,
    Equal,
    BracketLeft,
    BracketRight,
    Backslash,
    Semicolon,
    Quote,
    Backquote,
    Comma,
    Period,
    Slash,
    CapsLock,
    F1,
    F2,
    F3,
    F4,
    F5,
    F6,
    F7,
    F8,
    F9,
    F10,
    F11,
    F12,
    ScrollLock,
    Pause,
    Insert,
    Home,
    PageUp,
    End,
    PageDown,
    ArrowRight,
    ArrowLeft,
    ArrowDown,
    ArrowUp,
    NumLock,
    NumpadDivide,
    NumpadMultiply,
    NumpadSubtract,
    NumpadAdd,
    NumpadEnter,
    Numpad1,
    Numpad2,
    Numpad3,
    Numpad4,
    Numpad5,
    Numpad6,
    Numpad7,
    Numpad8,
    Numpad9,
    Numpad0,
    NumpadComma,
    IntlBackslash,
    F13,
    F14,
    F15,
    F16,
    F17,
    F18,
    F19,
    F20,
    F21,
    F22,
    F23,
    F24,
    ControlLeft,
    ShiftLeft,
    AltLeft,
    SuperLeft,
    ControlRight,
    ShiftRight,
    AltRight,
    SuperRight,
    Unknown,
}

/// The character a key press produces, if one is known.
#[derive(Clone, Copy, Debug, PartialEq, Eq, Structural)]
pub enum LogicalKey {
    Character(char),
    Unknown,
}

/// Where on the keyboard a key lies, for keys that occur more than once.
#[derive(Clone, Copy, Debug, PartialEq, Eq, Structural)]
pub enum KeyLocation {
    Standard,
    Left,
    Right,
    Numpad,
}

/// The full description of a key that the player receives.
#[derive(Clone, Copy, Debug, PartialEq, Eq, Structural)]
pub struct KeyDescriptor {
    pub physical_key: PhysicalKey,
    pub logical_key: LogicalKey,
    pub key_location: KeyLocation,
}

/// The physical key that a USB HID keyboard usage code stands for;
/// `Unknown` for codes that have no counterpart.
pub open spec fn hid_usage_to_physical(code: isize) -> PhysicalKey {
    match code {
        4 => PhysicalKey::KeyA,
        5 => PhysicalKey::KeyB,
        6 => PhysicalKey::KeyC,
        7 => PhysicalKey::KeyD,
        8 => PhysicalKey::KeyE,
        9 => PhysicalKey::KeyF,
        10 => PhysicalKey::KeyG,
        11 => PhysicalKey::KeyH,
        12 => PhysicalKey::KeyI,
        13 => PhysicalKey::KeyJ,
        14 => PhysicalKey::KeyK,
        15 => PhysicalKey::KeyL,
        16 => PhysicalKey::KeyM,
        17 => PhysicalKey::KeyN,
        18 => PhysicalKey::KeyO,
        19 => PhysicalKey::KeyP,
        20 => PhysicalKey::KeyQ,
        21 => PhysicalKey::KeyR,
        22 => PhysicalKey::KeyS,
        23 => PhysicalKey::KeyT,
        24 => PhysicalKey::KeyU,
        25 => PhysicalKey::KeyV,
        26 => PhysicalKey::KeyW,
        27 => PhysicalKey::KeyX,
        28 => PhysicalKey::KeyY,
        29 => PhysicalKey::KeyZ,
        30 => PhysicalKey::Digit1,
        31 => PhysicalKey::Digit2,
        32 => PhysicalKey::Digit3,
        33 => PhysicalKey::Digit4,
        34 => PhysicalKey::Digit5,
        35 => PhysicalKey::Digit6,
        36 => PhysicalKey::Digit7,
        37 => PhysicalKey::Digit8,
        38 => PhysicalKey::Digit9,
        39 => PhysicalKey::Digit0,
        40 => PhysicalKey::Enter,
        41 => PhysicalKey::Escape,
        42 => PhysicalKey::Delete,
        43 => PhysicalKey::Tab,
        44 => PhysicalKey::Space,
        45 => PhysicalKey::Minus,
        46 => PhysicalKey::Equal,
        47 => PhysicalKey::BracketLeft,
        48 => PhysicalKey::BracketRight,
        49 => PhysicalKey::Backslash,
        51 => PhysicalKey::Semicolon,
        52 => PhysicalKey::Quote,
        53 => PhysicalKey::Backquote,
        54 => PhysicalKey::Comma,
        55 => PhysicalKey::Period,
        56 => PhysicalKey::Slash,
        57 => PhysicalKey::CapsLock,
        58 => PhysicalKey::F1,
        59 => PhysicalKey::F2,
        60 => PhysicalKey::F3,
        61 => PhysicalKey::F4,
        62 => PhysicalKey::F5,
        63 => PhysicalKey::F6,
        64 => PhysicalKey::F7,
        65 => PhysicalKey::F8,
        66 => PhysicalKey::F9,
        67 => PhysicalKey::F10,
        68 => PhysicalKey::F11,
        69 => PhysicalKey::F12,
        71 => PhysicalKey::ScrollLock,
        72 => PhysicalKey::Pause,
        73 => PhysicalKey::Insert,
        74 => PhysicalKey::Home,
        75 => PhysicalKey::PageUp,
        77 => PhysicalKey::End,
        78 => PhysicalKey::PageDown,
        79 => PhysicalKey::ArrowRight,
        80 => PhysicalKey::ArrowLeft,
        81 => PhysicalKey::ArrowDown,
        82 => PhysicalKey::ArrowUp,
        83 => PhysicalKey::NumLock,
        84 => PhysicalKey::NumpadDivide,
        85 => PhysicalKey::NumpadMultiply,
        86 => PhysicalKey::NumpadSubtract,
        87 => PhysicalKey::NumpadAdd,
        88 => PhysicalKey::NumpadEnter,
        89 => PhysicalKey::Numpad1,
        90 => PhysicalKey::Numpad2,
        91 => PhysicalKey::Numpad3,
        92 => PhysicalKey::Numpad4,
        93 => PhysicalKey::Numpad5,
        94 => PhysicalKey::Numpad6,
        95 => PhysicalKey::Numpad7,
        96 => PhysicalKey::Numpad8,
        97 => PhysicalKey::Numpad9,
        98 => PhysicalKey::Numpad0,
        99 => PhysicalKey::NumpadComma,
        100 => PhysicalKey::IntlBackslash,
        103 => PhysicalKey::Equal,
        104 => PhysicalKey::F13,
        105 => PhysicalKey::F14,
        106 => PhysicalKey::F15,
        107 => PhysicalKey::F16,
        108 => PhysicalKey::F17,
        109 => PhysicalKey::F18,
        110 => PhysicalKey::F19,
        111 => PhysicalKey::F20,
        112 => PhysicalKey::F21,
        113 => PhysicalKey::F22,
        114 => PhysicalKey::F23,
        115 => PhysicalKey::F24,
        133 => PhysicalKey::Comma,
        134 => PhysicalKey::Equal,
        158 => PhysicalKey::Enter,
        224 => PhysicalKey::ControlLeft,
        225 => PhysicalKey::ShiftLeft,
        226 => PhysicalKey::AltLeft,
        227 => PhysicalKey::SuperLeft,
        228 => PhysicalKey::ControlRight,
        229 => PhysicalKey::ShiftRight,
        230 => PhysicalKey::AltRight,
        231 => PhysicalKey::SuperRight,
        _ => PhysicalKey::Unknown,
    }
}

/// Maps the HID usage code that UIKit reports for a key to the physical
/// key of the player.
pub fn key_to_physical(code: isize) -> (key: PhysicalKey)
    ensures
        key == hid_usage_to_physical(code),
{
    match code {
        4 => PhysicalKey::KeyA,
        5 => PhysicalKey::KeyB,
        6 => PhysicalKey::KeyC,
        7 => PhysicalKey::KeyD,
        8 => PhysicalKey::KeyE,
        9 => PhysicalKey::KeyF,
        10 => PhysicalKey::KeyG,
        11 => PhysicalKey::KeyH,
        12 => PhysicalKey::KeyI,
        13 => PhysicalKey::KeyJ,
        14 => PhysicalKey::KeyK,
        15 => PhysicalKey::KeyL,
        16 => PhysicalKey::KeyM,
        17 => PhysicalKey::KeyN,
        18 => PhysicalKey::KeyO,
        19 => PhysicalKey::KeyP,
        20 => PhysicalKey::KeyQ,
        21 => PhysicalKey::KeyR,
        22 => PhysicalKey::KeyS,
        23 => PhysicalKey::KeyT,
        24 => PhysicalKey::KeyU,
        25 => PhysicalKey::KeyV,
        26 => PhysicalKey::KeyW,
        27 => PhysicalKey::KeyX,
        28 => PhysicalKey::KeyY,
        29 => PhysicalKey::KeyZ,
        30 => PhysicalKey::Digit1,
        31 => PhysicalKey::Digit2,
        32 => PhysicalKey::Digit3,
        33 => PhysicalKey::Digit4,
        34 => PhysicalKey::Digit5,
        35 => PhysicalKey::Digit6,
        36 => PhysicalKey::Digit7,
        37 => PhysicalKey::Digit8,
        38 => PhysicalKey::Digit9,
        39 => PhysicalKey::Digit0,
        40 => PhysicalKey::Enter,
        41 => PhysicalKey::Escape,
        42 => PhysicalKey::Delete,
        43 => PhysicalKey::Tab,
        44 => PhysicalKey::Space,
        45 => PhysicalKey::Minus,
        46 => PhysicalKey::Equal,
        47 => PhysicalKey::BracketLeft,
        48 => PhysicalKey::BracketRight,
        49 => PhysicalKey::Backslash,
        51 => PhysicalKey::Semicolon,
        52 => PhysicalKey::Quote,
        53 => PhysicalKey::Backquote,
        54 => PhysicalKey::Comma,
        55 => PhysicalKey::Period,
        56 => PhysicalKey::Slash,
        57 => PhysicalKey::CapsLock,
        58 => PhysicalKey::F1,
        59 => PhysicalKey::F2,
        60 => PhysicalKey::F3,
        61 => PhysicalKey::F4,
        62 => PhysicalKey::F5,
        63 => PhysicalKey::F6,
        64 => PhysicalKey::F7,
        65 => PhysicalKey::F8,
        66 => PhysicalKey::F9,
        67 => PhysicalKey::F10,
        68 => PhysicalKey::F11,
        69 => PhysicalKey::F12,
        71 => PhysicalKey::ScrollLock,
        72 => PhysicalKey::Pause,
        73 => PhysicalKey::Insert,
        74 => PhysicalKey::Home,
        75 => PhysicalKey::PageUp,
        77 => PhysicalKey::End,
        78 => PhysicalKey::PageDown,
        79 => PhysicalKey::ArrowRight,
        80 => PhysicalKey::ArrowLeft,
        81 => PhysicalKey::ArrowDown,
        82 => PhysicalKey::ArrowUp,
        83 => PhysicalKey::NumLock,
        84 => PhysicalKey::NumpadDivide,
        85 => PhysicalKey::NumpadMultiply,
        86 => PhysicalKey::NumpadSubtract,
        87 => PhysicalKey::NumpadAdd,
        88 => PhysicalKey::NumpadEnter,
        89 => PhysicalKey::Numpad1,
        90 => PhysicalKey::Numpad2,
        91 => PhysicalKey::Numpad3,
        92 => PhysicalKey::Numpad4,
        93 => PhysicalKey::Numpad5,
        94 => PhysicalKey::Numpad6,
        95 => PhysicalKey::Numpad7,
        96 => PhysicalKey::Numpad8,
        97 => PhysicalKey::Numpad9,
        98 => PhysicalKey::Numpad0,
        99 => PhysicalKey::NumpadComma,
        100 => PhysicalKey::IntlBackslash,
        103 => PhysicalKey::Equal,
        104 => PhysicalKey::F13,
        105 => PhysicalKey::F14,
        106 => PhysicalKey::F15,
        107 => PhysicalKey::F16,
        108 => PhysicalKey::F17,
        109 => PhysicalKey::F18,
        110 => PhysicalKey::F19,
        111 => PhysicalKey::F20,
        112 => PhysicalKey::F21,
        113 => PhysicalKey::F22,
        114 => PhysicalKey::F23,
        115 => PhysicalKey::F24,
        133 => PhysicalKey::Comma,
        134 => PhysicalKey::Equal,
        158 => PhysicalKey::Enter,
        224 => PhysicalKey::ControlLeft,
        225 => PhysicalKey::ShiftLeft,
        226 => PhysicalKey::AltLeft,
        227 => PhysicalKey::SuperLeft,
        228 => PhysicalKey::ControlRight,
        229 => PhysicalKey::ShiftRight,
        230 => PhysicalKey::AltRight,
        231 => PhysicalKey::SuperRight,
        _ => PhysicalKey::Unknown,
    }
}


/// The logical key of a press whose characters (ignoring modifiers) are
/// `characters`: the last character, or `Unknown` when there is none.
pub open spec fn characters_to_logical(characters: Seq<char>) -> LogicalKey {
    if characters.len() > 0 {
        LogicalKey::Character(characters.last())
    } else {
        LogicalKey::Unknown
    }
}

/// Maps the characters that UIKit reports for a key, ignoring modifiers, to
/// the logical key of the player: the last of them, or `Unknown`.
pub fn key_to_logical(characters: &str) -> (key: LogicalKey)
    ensures
        key == characters_to_logical(characters@),
{
    let len = characters.unicode_len();
    if len > 0 {
        LogicalKey::Character(characters.get_char(len - 1))
    } else {
        LogicalKey::Unknown
    }
}

/// A key that UIKit reports for a press: its HID usage code and the
/// characters it produces when modifiers are ignored.
#[derive(Clone, Debug)]
pub struct UiKey {
    pub key_code: isize,
    pub characters: String,
}

/// The phases of a press that UIKit reports.
#[derive(Clone, Copy, Debug, PartialEq, Eq, Structural)]
pub enum PressPhase {
    Began,
    Changed,
    Stationary,
    Ended,
    Cancelled,
}

/// One press of a presses event, with the key when the press has one.
#[derive(Clone, Debug)]
pub struct Press {
    pub key: Option<UiKey>,
    pub phase: PressPhase,
}

/// A keyboard event for the player.
#[derive(Clone, Copy, Debug, PartialEq, Eq, Structural)]
pub enum KeyEvent {
    KeyDown { key: KeyDescriptor },
    KeyUp { key: KeyDescriptor },
}

/// The descriptor of a key with the given code and characters.
pub open spec fn spec_key_descriptor(key_code: isize, characters: Seq<char>) -> KeyDescriptor {
    KeyDescriptor {
        physical_key: hid_usage_to_physical(key_code),
        logical_key: characters_to_logical(characters),
        key_location: KeyLocation::Standard,
    }
}

/// The event that a press gives the player: a key down when it begins, a
/// key up when it ends or is cancelled, and none for a press without a key
/// or in another phase.
pub open spec fn spec_press_event(press: Press) -> Option<KeyEvent> {
    match press.key {
        None => None,
        Some(key) => {
            let descriptor = spec_key_descriptor(key.key_code, key.characters@);
            match press.phase {
                PressPhase::Began => Some(KeyEvent::KeyDown { key: descriptor }),
                PressPhase::Ended | PressPhase::Cancelled => Some(KeyEvent::KeyUp { key: descriptor }),
                _ => None,
            }
        },
    }
}

/// The events that a sequence of presses gives the player, in order.
pub open spec fn spec_press_events(presses: Seq<Press>) -> Seq<KeyEvent>
    decreases presses.len(),
{
    if presses.len() == 0 {
        Seq::empty()
    } else {
        let rest = spec_press_events(presses.drop_last());
        match spec_press_event(presses.last()) {
            Some(event) => rest.push(event),
            None => rest,
        }
    }
}

/// Describes a UIKit key for the player.
pub fn key_descriptor(key: &UiKey) -> (descriptor: KeyDescriptor)
    ensures
        descriptor == spec_key_descriptor(key.key_code, key.characters@),
{
    KeyDescriptor {
        physical_key: key_to_physical(key.key_code),
        logical_key: key_to_logical(key.characters.as_str()),
        key_location: KeyLocation::Standard,
    }
}

/// The event that one press gives the player, if any.
pub fn press_event(press: &Press) -> (event: Option<KeyEvent>)
    ensures
        event == spec_press_event(*press),
{
    match &press.key {
        None => None,
        Some(key) => {
            let descriptor = key_descriptor(key);
            match press.phase {
                PressPhase::Began => Some(KeyEvent::KeyDown { key: descriptor }),
                PressPhase::Ended | PressPhase::Cancelled => Some(KeyEvent::KeyUp { key: descriptor }),
                _ => None,
            }
        },
    }
}

/// The events that the presses of one presses event give the player, in
/// the order of the presses; the player receives every one of them, and
/// the presses count as handled when it handled any.
pub fn press_events(presses: &Vec<Press>) -> (events: Vec<KeyEvent>)
    ensures
        events@ == spec_press_events(presses@),
{
    let mut events: Vec<KeyEvent> = Vec::new();
    let mut i: usize = 0;
    while i < presses.len()
        invariant
            i <= presses.len(),
            events@ == spec_press_events(presses@.subrange(0, i as int)),
        decreases presses.len() - i,
    {
        let ghost prefix = presses@.subrange(0, i as int);
        assert(presses@.subrange(0, i as int + 1).drop_last() =~= prefix);
        match press_event(&presses[i]) {
            Some(event) => events.push(event),
            None => {},
        }
        i = i + 1;
    }
    assert(presses@.subrange(0, presses.len() as int) =~= presses@);
    events
}

/// A key that is pressed and later released gives the player a key down
/// and a key up with the same descriptor, whichever way the release ends.
pub proof fn release_matches_press(key: UiKey, release: PressPhase)
    requires
        release == PressPhase::Ended || release == PressPhase::Cancelled,
    ensures
        ({
            let down = spec_press_event(Press { key: Some(key), phase: PressPhase::Began });
            let up = spec_press_event(Press { key: Some(key), phase: release });
            &&& down matches Some(KeyEvent::KeyDown { key: d })
            &&& up matches Some(KeyEvent::KeyUp { key: u })
            &&& d == u
        }),
{
}

/// Each usage of the USB HID keyboard page (as UIKit numbers them in
/// `UIKeyboardHIDUsage`) gives the player the key found there: the letters
/// from 0x04, the digits from 0x1E, Return, Escape, Delete, Tab and Space
/// from 0x28, the function keys from 0x3A, the arrows Right, Left, Down,
/// Up at 0x4F to 0x52, the keypad from 0x53, the modifiers from 0xE0; every
/// other code gives `Unknown`.
pub proof fn hid_usages_give_their_keys()
    ensures
        hid_usage_to_physical(0x04) == PhysicalKey::KeyA,
        hid_usage_to_physical(0x05) == PhysicalKey::KeyB,
        hid_usage_to_physical(0x06) == PhysicalKey::KeyC,
        hid_usage_to_physical(0x07) == PhysicalKey::KeyD,
        hid_usage_to_physical(0x08) == PhysicalKey::KeyE,
        hid_usage_to_physical(0x09) == PhysicalKey::KeyF,
        hid_usage_to_physical(0x0A) == PhysicalKey::KeyG,
        hid_usage_to_physical(0x0B) == PhysicalKey::KeyH,
        hid_usage_to_physical(0x0C) == PhysicalKey::KeyI,
        hid_usage_to_physical(0x0D) == PhysicalKey::KeyJ,
        hid_usage_to_physical(0x0E) == PhysicalKey::KeyK,
        hid_usage_to_physical(0x0F) == PhysicalKey::KeyL,
        hid_usage_to_physical(0x10) == PhysicalKey::KeyM,
        hid_usage_to_physical(0x11) == PhysicalKey::KeyN,
        hid_usage_to_physical(0x12) == PhysicalKey::KeyO,
        hid_usage_to_physical(0x13) == PhysicalKey::KeyP,
        hid_usage_to_physical(0x14) == PhysicalKey::KeyQ,
        hid_usage_to_physical(0x15) == PhysicalKey::KeyR,
        hid_usage_to_physical(0x16) == PhysicalKey::KeyS,
        hid_usage_to_physical(0x17) == PhysicalKey::KeyT,
        hid_usage_to_physical(0x18) == PhysicalKey::KeyU,
        hid_usage_to_physical(0x19) == PhysicalKey::KeyV,
        hid_usage_to_physical(0x1A) == PhysicalKey::KeyW,
        hid_usage_to_physical(0x1B) == PhysicalKey::KeyX,
        hid_usage_to_physical(0x1C) == PhysicalKey::KeyY,
        hid_usage_to_physical(0x1D) == PhysicalKey::KeyZ,
        hid_usage_to_physical(0x1E) == PhysicalKey::Digit1,
        hid_usage_to_physical(0x1F) == PhysicalKey::Digit2,
        hid_usage_to_physical(0x20) == PhysicalKey::Digit3,
        hid_usage_to_physical(0x21) == PhysicalKey::Digit4,
        hid_usage_to_physical(0x22) == PhysicalKey::Digit5,
        hid_usage_to_physical(0x23) == PhysicalKey::Digit6,
        hid_usage_to_physical(0x24) == PhysicalKey::Digit7,
        hid_usage_to_physical(0x25) == PhysicalKey::Digit8,
        hid_usage_to_physical(0x26) == PhysicalKey::Digit9,
        hid_usage_to_physical(0x27) == PhysicalKey::Digit0,
        hid_usage_to_physical(0x28) == PhysicalKey::Enter,
        hid_usage_to_physical(0x29) == PhysicalKey::Escape,
        hid_usage_to_physical(0x2A) == PhysicalKey::Delete,
        hid_usage_to_physical(0x2B) == PhysicalKey::Tab,
        hid_usage_to_physical(0x2C) == PhysicalKey::Space,
        hid_usage_to_physical(0x2D) == PhysicalKey::Minus,
        hid_usage_to_physical(0x2E) == PhysicalKey::Equal,
        hid_usage_to_physical(0x2F) == PhysicalKey::BracketLeft,
        hid_usage_to_physical(0x30) == PhysicalKey::BracketRight,
        hid_usage_to_physical(0x31) == PhysicalKey::Backslash,
        hid_usage_to_physical(0x33) == PhysicalKey::Semicolon,
        hid_usage_to_physical(0x34) == PhysicalKey::Quote,
        hid_usage_to_physical(0x35) == PhysicalKey::Backquote,
        hid_usage_to_physical(0x36) == PhysicalKey::Comma,
        hid_usage_to_physical(0x37) == PhysicalKey::Period,
        hid_usage_to_physical(0x38) == PhysicalKey::Slash,
        hid_usage_to_physical(0x39) == PhysicalKey::CapsLock,
        hid_usage_to_physical(0x3A) == PhysicalKey::F1,
        hid_usage_to_physical(0x3B) == PhysicalKey::F2,
        hid_usage_to_physical(0x3C) == PhysicalKey::F3,
        hid_usage_to_physical(0x3D) == PhysicalKey::F4,
        hid_usage_to_physical(0x3E) == PhysicalKey::F5,
        hid_usage_to_physical(0x3F) == PhysicalKey::F6,
        hid_usage_to_physical(0x40) == PhysicalKey::F7,
        hid_usage_to_physical(0x41) == PhysicalKey::F8,
        hid_usage_to_physical(0x42) == PhysicalKey::F9,
        hid_usage_to_physical(0x43) == PhysicalKey::F10,
        hid_usage_to_physical(0x44) == PhysicalKey::F11,
        hid_usage_to_physical(0x45) == PhysicalKey::F12,
        hid_usage_to_physical(0x47) == PhysicalKey::ScrollLock,
        hid_usage_to_physical(0x48) == PhysicalKey::Pause,
        hid_usage_to_physical(0x49) == PhysicalKey::Insert,
        hid_usage_to_physical(0x4A) == PhysicalKey::Home,
        hid_usage_to_physical(0x4B) == PhysicalKey::PageUp,
        hid_usage_to_physical(0x4D) == PhysicalKey::End,
        hid_usage_to_physical(0x4E) == PhysicalKey::PageDown,
        hid_usage_to_physical(0x4F) == PhysicalKey::ArrowRight,
        hid_usage_to_physical(0x50) == PhysicalKey::ArrowLeft,
        hid_usage_to_physical(0x51) == PhysicalKey::ArrowDown,
        hid_usage_to_physical(0x52) == PhysicalKey::ArrowUp,
        hid_usage_to_physical(0x53) == PhysicalKey::NumLock,
        hid_usage_to_physical(0x54) == PhysicalKey::NumpadDivide,
        hid_usage_to_physical(0x55) == PhysicalKey::NumpadMultiply,
        hid_usage_to_physical(0x56) == PhysicalKey::NumpadSubtract,
        hid_usage_to_physical(0x57) == PhysicalKey::NumpadAdd,
        hid_usage_to_physical(0x58) == PhysicalKey::NumpadEnter,
        hid_usage_to_physical(0x59) == PhysicalKey::Numpad1,
        hid_usage_to_physical(0x5A) == PhysicalKey::Numpad2,
        hid_usage_to_physical(0x5B) == PhysicalKey::Numpad3,
        hid_usage_to_physical(0x5C) == PhysicalKey::Numpad4,
        hid_usage_to_physical(0x5D) == PhysicalKey::Numpad5,
        hid_usage_to_physical(0x5E) == PhysicalKey::Numpad6,
        hid_usage_to_physical(0x5F) == PhysicalKey::Numpad7,
        hid_usage_to_physical(0x60) == PhysicalKey::Numpad8,
        hid_usage_to_physical(0x61) == PhysicalKey::Numpad9,
        hid_usage_to_physical(0x62) == PhysicalKey::Numpad0,
        hid_usage_to_physical(0x63) == PhysicalKey::NumpadComma,
        hid_usage_to_physical(0x64) == PhysicalKey::IntlBackslash,
        hid_usage_to_physical(0x67) == PhysicalKey::Equal,
        hid_usage_to_physical(0x68) == PhysicalKey::F13,
        hid_usage_to_physical(0x69) == PhysicalKey::F14,
        hid_usage_to_physical(0x6A) == PhysicalKey::F15,
        hid_usage_to_physical(0x6B) == PhysicalKey::F16,
        hid_usage_to_physical(0x6C) == PhysicalKey::F17,
        hid_usage_to_physical(0x6D) == PhysicalKey::F18,
        hid_usage_to_physical(0x6E) == PhysicalKey::F19,
        hid_usage_to_physical(0x6F) == PhysicalKey::F20,
        hid_usage_to_physical(0x70) == PhysicalKey::F21,
        hid_usage_to_physical(0x71) == PhysicalKey::F22,
        hid_usage_to_physical(0x72) == PhysicalKey::F23,
        hid_usage_to_physical(0x73) == PhysicalKey::F24,
        hid_usage_to_physical(0x85) == PhysicalKey::Comma,
        hid_usage_to_physical(0x86) == PhysicalKey::Equal,
        hid_usage_to_physical(0x9E) == PhysicalKey::Enter,
        hid_usage_to_physical(0xE0) == PhysicalKey::ControlLeft,
        hid_usage_to_physical(0xE1) == PhysicalKey::ShiftLeft,
        hid_usage_to_physical(0xE2) == PhysicalKey::AltLeft,
        hid_usage_to_physical(0xE3) == PhysicalKey::SuperLeft,
        hid_usage_to_physical(0xE4) == PhysicalKey::ControlRight,
        hid_usage_to_physical(0xE5) == PhysicalKey::ShiftRight,
        hid_usage_to_physical(0xE6) == PhysicalKey::AltRight,
        hid_usage_to_physical(0xE7) == PhysicalKey::SuperRight,
        forall|c: isize| #![trigger hid_usage_to_physical(c)] (c != 0x04 && c != 0x05 && c != 0x06 && c != 0x07 && c != 0x08 && c != 0x09 && c != 0x0A && c != 0x0B && c != 0x0C && c != 0x0D && c != 0x0E && c != 0x0F && c != 0x10 && c != 0x11 && c != 0x12 && c != 0x13 && c != 0x14 && c != 0x15 && c != 0x16 && c != 0x17 && c != 0x18 && c != 0x19 && c != 0x1A && c != 0x1B && c != 0x1C && c != 0x1D && c != 0x1E && c != 0x1F && c != 0x20 && c != 0x21 && c != 0x22 && c != 0x23 && c != 0x24 && c != 0x25 && c != 0x26 && c != 0x27 && c != 0x28 && c != 0x29 && c != 0x2A && c != 0x2B && c != 0x2C && c != 0x2D && c != 0x2E && c != 0x2F && c != 0x30 && c != 0x31 && c != 0x33 && c != 0x34 && c != 0x35 && c != 0x36 && c != 0x37 && c != 0x38 && c != 0x39 && c != 0x3A && c != 0x3B && c != 0x3C && c != 0x3D && c != 0x3E && c != 0x3F && c != 0x40 && c != 0x41 && c != 0x42 && c != 0x43 && c != 0x44 && c != 0x45 && c != 0x47 && c != 0x48 && c != 0x49 && c != 0x4A && c != 0x4B && c != 0x4D && c != 0x4E && c != 0x4F && c != 0x50 && c != 0x51 && c != 0x52 && c != 0x53 && c != 0x54 && c != 0x55 && c != 0x56 && c != 0x57 && c != 0x58 && c != 0x59 && c != 0x5A && c != 0x5B && c != 0x5C && c != 0x5D && c != 0x5E && c != 0x5F && c != 0x60 && c != 0x61 && c != 0x62 && c != 0x63 && c != 0x64 && c != 0x67 && c != 0x68 && c != 0x69 && c != 0x6A && c != 0x6B && c != 0x6C && c != 0x6D && c != 0x6E && c != 0x6F && c != 0x70 && c != 0x71 && c != 0x72 && c != 0x73 && c != 0x85 && c != 0x86 && c != 0x9E && c != 0xE0 && c != 0xE1 && c != 0xE2 && c != 0xE3 && c != 0xE4 && c != 0xE5 && c != 0xE6 && c != 0xE7) ==> hid_usage_to_physical(c) == PhysicalKey::Unknown,
{
}

/// A press with a key gives the player a key down when it begins and a key
/// up when it ends or is cancelled, and nothing in another phase; the key's
/// physical key is the one at its HID usage, its logical key the last
/// character it produces (`Unknown` when it produces none), and it lies at
/// the standard location. A press without a key gives nothing.
pub proof fn press_gives_its_key(key: UiKey, phase: PressPhase)
    ensures
        spec_press_event(Press { key: None, phase }) is None,
        (phase == PressPhase::Changed || phase == PressPhase::Stationary) ==> spec_press_event(
            Press { key: Some(key), phase },
        ) is None,
        ({
            let event = spec_press_event(Press { key: Some(key), phase });
            let d = match event {
                Some(KeyEvent::KeyDown { key: d }) => d,
                Some(KeyEvent::KeyUp { key: d }) => d,
                None => KeyDescriptor {
                    physical_key: PhysicalKey::Unknown,
                    logical_key: LogicalKey::Unknown,
                    key_location: KeyLocation::Standard,
                },
            };
            &&& phase == PressPhase::Began ==> (event is Some && event->0 is KeyDown)
            &&& (phase == PressPhase::Ended || phase == PressPhase::Cancelled) ==> (event is Some
                && event->0 is KeyUp)
            &&& event is Some ==> {
                &&& d.physical_key == hid_usage_to_physical(key.key_code)
                &&& d.key_location == KeyLocation::Standard
                &&& key.characters@.len() > 0 ==> d.logical_key == LogicalKey::Character(
                    key.characters@[key.characters@.len() - 1],
                )
                &&& key.characters@.len() == 0 ==> d.logical_key == LogicalKey::Unknown
            }
        }),
{
}

} // verus!
