use keycap::key::{decimal_text, key_to_label, Key};

#[test]
fn letters_and_digits() {
    assert_eq!(key_to_label(Key::KeyA), "A");
    assert_eq!(key_to_label(Key::KeyZ), "Z");
    assert_eq!(key_to_label(Key::Num0), "0");
    assert_eq!(key_to_label(Key::Num9), "9");
}

#[test]
fn modifiers() {
    assert_eq!(key_to_label(Key::ControlLeft), "Ctrl");
    assert_eq!(key_to_label(Key::ControlRight), "Ctrl");
    assert_eq!(key_to_label(Key::Alt), "Alt");
    assert_eq!(key_to_label(Key::AltGr), "Alt");
    assert_eq!(key_to_label(Key::ShiftLeft), "Shift");
    assert_eq!(key_to_label(Key::ShiftRight), "Shift");
    assert_eq!(key_to_label(Key::MetaLeft), "Win");
    assert_eq!(key_to_label(Key::MetaRight), "Win");
}

#[test]
fn whitespace_navigation_and_symbols() {
    assert_eq!(key_to_label(Key::Space), "␣");
    assert_eq!(key_to_label(Key::Return), "↵");
    assert_eq!(key_to_label(Key::Tab), "⇥");
    assert_eq!(key_to_label(Key::Backspace), "⌫");
    assert_eq!(key_to_label(Key::Escape), "Esc");
    assert_eq!(key_to_label(Key::Delete), "Del");
    assert_eq!(key_to_label(Key::UpArrow), "↑");
    assert_eq!(key_to_label(Key::LeftArrow), "←");
    assert_eq!(key_to_label(Key::PageDown), "PgDn");
    assert_eq!(key_to_label(Key::F12), "F12");
    assert_eq!(key_to_label(Key::Kp7), "N7");
    assert_eq!(key_to_label(Key::KpMinus), "N−");
    assert_eq!(key_to_label(Key::KpMultiply), "N×");
    assert_eq!(key_to_label(Key::KpDivide), "N÷");
    assert_eq!(key_to_label(Key::KpReturn), "N↵");
    assert_eq!(key_to_label(Key::BackSlash), "\\");
    assert_eq!(key_to_label(Key::Quote), "'");
    assert_eq!(key_to_label(Key::BackQuote), "`");
    assert_eq!(key_to_label(Key::CapsLock), "⇪");
    assert_eq!(key_to_label(Key::PrintScreen), "PrtSc");
    assert_eq!(key_to_label(Key::Insert), "Ins");
}

#[test]
fn keys_without_symbol_use_their_name() {
    assert_eq!(key_to_label(Key::IntlBackslash), "IntlBackslash");
    assert_eq!(key_to_label(Key::Function), "Function");
}

#[test]
fn unknown_keys_show_their_code() {
    assert_eq!(key_to_label(Key::Unknown(42)), "Unknown(42)");
    assert_eq!(key_to_label(Key::Unknown(0)), "Unknown(0)");
    assert_eq!(key_to_label(Key::Unknown(u32::MAX)), "Unknown(4294967295)");
}

#[test]
fn decimal_numerals() {
    assert_eq!(decimal_text(0), "0");
    assert_eq!(decimal_text(7), "7");
    assert_eq!(decimal_text(10), "10");
    assert_eq!(decimal_text(1234567), "1234567");
}

fn all_named_keys() -> Vec<Key> {
    vec![
        Key::Alt,
        Key::AltGr,
        Key::Backspace,
        Key::CapsLock,
        Key::ControlLeft,
        Key::ControlRight,
        Key::Delete,
        Key::DownArrow,
        Key::End,
        Key::Escape,
        Key::F1,
        Key::F10,
        Key::F11,
        Key::F12,
        Key::F2,
        Key::F3,
        Key::F4,
        Key::F5,
        Key::F6,
        Key::F7,
        Key::F8,
        Key::F9,
        Key::Home,
        Key::LeftArrow,
        Key::MetaLeft,
        Key::MetaRight,
        Key::PageDown,
        Key::PageUp,
        Key::Return,
        Key::RightArrow,
        Key::ShiftLeft,
        Key::ShiftRight,
        Key::Space,
        Key::Tab,
        Key::UpArrow,
        Key::PrintScreen,
        Key::ScrollLock,
        Key::Pause,
        Key::NumLock,
        Key::BackQuote,
        Key::Num1,
        Key::Num2,
        Key::Num3,
        Key::Num4,
        Key::Num5,
        Key::Num6,
        Key::Num7,
        Key::Num8,
        Key::Num9,
        Key::Num0,
        Key::Minus,
        Key::Equal,
        Key::KeyQ,
        Key::KeyW,
        Key::KeyE,
        Key::KeyR,
        Key::KeyT,
        Key::KeyY,
        Key::KeyU,
        Key::KeyI,
        Key::KeyO,
        Key::KeyP,
        Key::LeftBracket,
        Key::RightBracket,
        Key::KeyA,
        Key::KeyS,
        Key::KeyD,
        Key::KeyF,
        Key::KeyG,
        Key::KeyH,
        Key::KeyJ,
        Key::KeyK,
        Key::KeyL,
        Key::SemiColon,
        Key::Quote,
        Key::BackSlash,
        Key::IntlBackslash,
        Key::KeyZ,
        Key::KeyX,
        Key::KeyC,
        Key::KeyV,
        Key::KeyB,
        Key::KeyN,
        Key::KeyM,
        Key::Comma,
        Key::Dot,
        Key::Slash,
        Key::Insert,
        Key::KpReturn,
        Key::KpMinus,
        Key::KpPlus,
        Key::KpMultiply,
        Key::KpDivide,
        Key::Kp0,
        Key::Kp1,
        Key::Kp2,
        Key::Kp3,
        Key::Kp4,
        Key::Kp5,
        Key::Kp6,
        Key::Kp7,
        Key::Kp8,
        Key::Kp9,
        Key::KpDelete,
        Key::Function,
    ]
}

fn same_label_group(a: Key, b: Key) -> bool {
    let pairs = [
        (Key::ControlLeft, Key::ControlRight),
        (Key::Alt, Key::AltGr),
        (Key::ShiftLeft, Key::ShiftRight),
        (Key::MetaLeft, Key::MetaRight),
    ];
    a == b || pairs.iter().any(|&(x, y)| (a == x || a == y) && (b == x || b == y))
}

#[test]
fn labels_identify_keys_up_to_modifier_pairs() {
    let mut keys = all_named_keys();
    keys.push(Key::Unknown(1));
    keys.push(Key::Unknown(11));
    for &a in &keys {
        assert!(!key_to_label(a).is_empty());
        for &b in &keys {
            assert_eq!(key_to_label(a) == key_to_label(b), same_label_group(a, b), "{:?} {:?}", a, b);
        }
    }
}

#[test]
fn modifiers_are_the_keys_labelled_ctrl_alt_shift_win() {
    for k in all_named_keys() {
        let l = key_to_label(k);
        let named = l == "Ctrl" || l == "Alt" || l == "Shift" || l == "Win";
        assert_eq!(keycap::mode::ComboMode::is_modifier(k), named, "{:?}", k);
    }
}
