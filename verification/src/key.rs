//! The keyboard model and the short labels shown for keys.
use vstd::prelude::*;

verus! {

/// A physical key, named after its place on a standard QWERTY layout (the
/// capture backend's key model). `Unknown` carries the platform's raw code
/// for keys the backend does not name.
#[derive(Debug, Clone, Copy, PartialEq, Eq, Structural, Hash)]
pub enum Key {
    Alt,
    AltGr,
    Backspace,
    CapsLock,
    ControlLeft,
    ControlRight,
    Delete,
    DownArrow,
    End,
    Escape,
    F1,
    F10,
    F11,
    F12,
    F2,
    F3,
    F4,
    F5,
    F6,
    F7,
    F8,
    F9,
    Home,
    LeftArrow,
    MetaLeft,
    MetaRight,
    PageDown,
    PageUp,
    Return,
    RightArrow,
    ShiftLeft,
    ShiftRight,
    Space,
    Tab,
    UpArrow,
    PrintScreen,
    ScrollLock,
    Pause,
    NumLock,
    BackQuote,
    Num1,
    Num2,
    Num3,
    Num4,
    Num5,
    Num6,
    Num7,
    Num8,
    Num9,
    Num0,
    Minus,
    Equal,
    KeyQ,
    KeyW,
    KeyE,
    KeyR,
    KeyT,
    KeyY,
    KeyU,
    KeyI,
    KeyO,
    KeyP,
    LeftBracket,
    RightBracket,
    KeyA,
    KeyS,
    KeyD,
    KeyF,
    KeyG,
    KeyH,
    KeyJ,
    KeyK,
    KeyL,
    SemiColon,
    Quote,
    BackSlash,
    IntlBackslash,
    KeyZ,
    KeyX,
    KeyC,
    KeyV,
    KeyB,
    KeyN,
    KeyM,
    Comma,
    Dot,
    Slash,
    Insert,
    KpReturn,
    KpMinus,
    KpPlus,
    KpMultiply,
    KpDivide,
    Kp0,
    Kp1,
    Kp2,
    Kp3,
    Kp4,
    Kp5,
    Kp6,
    Kp7,
    Kp8,
    Kp9,
    KpDelete,
    Function,
    Unknown(u32),
}

/// A simplified key event sent from the capture thread to the main app.
#[derive(Debug, Clone, Copy, PartialEq, Eq, Structural)]
pub enum KeyEvent {
    Press(Key),
    Release(Key),
}

/// The modifier keys: both Controls, both Alts, both Shifts and both Metas.
pub open spec fn is_modifier_key(key: Key) -> bool {
    ||| key == Key::ControlLeft
    ||| key == Key::ControlRight
    ||| key == Key::Alt
    ||| key == Key::AltGr
    ||| key == Key::ShiftLeft
    ||| key == Key::ShiftRight
    ||| key == Key::MetaLeft
    ||| key == Key::MetaRight
}

/// The character of the decimal digit `d` (`d < 10`).
pub open spec fn digit_char(d: nat) -> char {
    if d == 0 {
        '0'
    } else if d == 1 {
        '1'
    } else if d == 2 {
        '2'
    } else if d == 3 {
        '3'
    } else if d == 4 {
        '4'
    } else if d == 5 {
        '5'
    } else if d == 6 {
        '6'
    } else if d == 7 {
        '7'
    } else if d == 8 {
        '8'
    } else {
        '9'
    }
}

/// The decimal numeral of `n`, without sign or leading zeros.
pub open spec fn decimal(n: nat) -> Seq<char>
    decreases n,
{
    if n < 10 {
        seq![digit_char(n)]
    } else {
        decimal(n / 10).push(digit_char(n % 10))
    }
}

/// The label shown for a key: a letter, digit, symbol or short name.
/// Keys without a symbol of their own are shown by their key name, and an
/// unnamed key by `Unknown(` and its raw code in decimal followed by `)`.
pub open spec fn key_label(key: Key) -> Seq<char> {
    match key {
        Key::Alt => "Alt"@,
        Key::AltGr => "Alt"@,
        Key::Backspace => "⌫"@,
        Key::CapsLock => "⇪"@,
        Key::ControlLeft => "Ctrl"@,
        Key::ControlRight => "Ctrl"@,
        Key::Delete => "Del"@,
        Key::DownArrow => "↓"@,
        Key::End => "End"@,
        Key::Escape => "Esc"@,
        Key::F1 => "F1"@,
        Key::F10 => "F10"@,
        Key::F11 => "F11"@,
        Key::F12 => "F12"@,
        Key::F2 => "F2"@,
        Key::F3 => "F3"@,
        Key::F4 => "F4"@,
        Key::F5 => "F5"@,
        Key::F6 => "F6"@,
        Key::F7 => "F7"@,
        Key::F8 => "F8"@,
        Key::F9 => "F9"@,
        Key::Home => "Home"@,
        Key::LeftArrow => "←"@,
        Key::MetaLeft => "Win"@,
        Key::MetaRight => "Win"@,
        Key::PageDown => "PgDn"@,
        Key::PageUp => "PgUp"@,
        Key::Return => "↵"@,
        Key::RightArrow => "→"@,
        Key::ShiftLeft => "Shift"@,
        Key::ShiftRight => "Shift"@,
        Key::Space => "␣"@,
        Key::Tab => "⇥"@,
        Key::UpArrow => "↑"@,
        Key::PrintScreen => "PrtSc"@,
        Key::ScrollLock => "⇳"@,
        Key::Pause => "Pause"@,
        Key::NumLock => "⇭"@,
        Key::BackQuote => "`"@,
        Key::Num1 => "1"@,
        Key::Num2 => "2"@,
        Key::Num3 => "3"@,
        Key::Num4 => "4"@,
        Key::Num5 => "5"@,
        Key::Num6 => "6"@,
        Key::Num7 => "7"@,
        Key::Num8 => "8"@,
        Key::Num9 => "9"@,
        Key::Num0 => "0"@,
        Key::Minus => "-"@,
        Key::Equal => "="@,
        Key::KeyQ => "Q"@,
        Key::KeyW => "W"@,
        Key::KeyE => "E"@,
        Key::KeyR => "R"@,
        Key::KeyT => "T"@,
        Key::KeyY => "Y"@,
        Key::KeyU => "U"@,
        Key::KeyI => "I"@,
        Key::KeyO => "O"@,
        Key::KeyP => "P"@,
        Key::LeftBracket => "["@,
        Key::RightBracket => "]"@,
        Key::KeyA => "A"@,
        Key::KeyS => "S"@,
        Key::KeyD => "D"@,
        Key::KeyF => "F"@,
        Key::KeyG => "G"@,
        Key::KeyH => "H"@,
        Key::KeyJ => "J"@,
        Key::KeyK => "K"@,
        Key::KeyL => "L"@,
        Key::SemiColon => ";"@,
        Key::Quote => "'"@,
        Key::BackSlash => "\\"@,
        Key::IntlBackslash => "IntlBackslash"@,
        Key::KeyZ => "Z"@,
        Key::KeyX => "X"@,
        Key::KeyC => "C"@,
        Key::KeyV => "V"@,
        Key::KeyB => "B"@,
        Key::KeyN => "N"@,
        Key::KeyM => "M"@,
        Key::Comma => ","@,
        Key::Dot => "."@,
        Key::Slash => "/"@,
        Key::Insert => "Ins"@,
        Key::KpReturn => "N↵"@,
        Key::KpMinus => "N−"@,
        Key::KpPlus => "N+"@,
        Key::KpMultiply => "N×"@,
        Key::KpDivide => "N÷"@,
        Key::Kp0 => "N0"@,
        Key::Kp1 => "N1"@,
        Key::Kp2 => "N2"@,
        Key::Kp3 => "N3"@,
        Key::Kp4 => "N4"@,
        Key::Kp5 => "N5"@,
        Key::Kp6 => "N6"@,
        Key::Kp7 => "N7"@,
        Key::Kp8 => "N8"@,
        Key::Kp9 => "N9"@,
        Key::KpDelete => "N."@,
        Key::Function => "Function"@,
        Key::Unknown(code) => "Unknown("@ + decimal(code as nat) + ")"@,
    }
}

/// The fixed label of a named key.
fn named_label(key: Key) -> (r: &'static str)
    requires
        !(key is Unknown),
    ensures
        r@ == key_label(key),
{
    match key {
        Key::Alt => "Alt",
        Key::AltGr => "Alt",
        Key::Backspace => "⌫",
        Key::CapsLock => "⇪",
        Key::ControlLeft => "Ctrl",
        Key::ControlRight => "Ctrl",
        Key::Delete => "Del",
        Key::DownArrow => "↓",
        Key::End => "End",
        Key::Escape => "Esc",
        Key::F1 => "F1",
        Key::F10 => "F10",
        Key::F11 => "F11",
        Key::F12 => "F12",
        Key::F2 => "F2",
        Key::F3 => "F3",
        Key::F4 => "F4",
        Key::F5 => "F5",
        Key::F6 => "F6",
        Key::F7 => "F7",
        Key::F8 => "F8",
        Key::F9 => "F9",
        Key::Home => "Home",
        Key::LeftArrow => "←",
        Key::MetaLeft => "Win",
        Key::MetaRight => "Win",
        Key::PageDown => "PgDn",
        Key::PageUp => "PgUp",
        Key::Return => "↵",
        Key::RightArrow => "→",
        Key::ShiftLeft => "Shift",
        Key::ShiftRight => "Shift",
        Key::Space => "␣",
        Key::Tab => "⇥",
        Key::UpArrow => "↑",
        Key::PrintScreen => "PrtSc",
        Key::ScrollLock => "⇳",
        Key::Pause => "Pause",
        Key::NumLock => "⇭",
        Key::BackQuote => "`",
        Key::Num1 => "1",
        Key::Num2 => "2",
        Key::Num3 => "3",
        Key::Num4 => "4",
        Key::Num5 => "5",
        Key::Num6 => "6",
        Key::Num7 => "7",
        Key::Num8 => "8",
        Key::Num9 => "9",
        Key::Num0 => "0",
        Key::Minus => "-",
        Key::Equal => "=",
        Key::KeyQ => "Q",
        Key::KeyW => "W",
        Key::KeyE => "E",
        Key::KeyR => "R",
        Key::KeyT => "T",
        Key::KeyY => "Y",
        Key::KeyU => "U",
        Key::KeyI => "I",
        Key::KeyO => "O",
        Key::KeyP => "P",
        Key::LeftBracket => "[",
        Key::RightBracket => "]",
        Key::KeyA => "A",
        Key::KeyS => "S",
        Key::KeyD => "D",
        Key::KeyF => "F",
        Key::KeyG => "G",
        Key::KeyH => "H",
        Key::KeyJ => "J",
        Key::KeyK => "K",
        Key::KeyL => "L",
        Key::SemiColon => ";",
        Key::Quote => "'",
        Key::BackSlash => "\\",
        Key::IntlBackslash => "IntlBackslash",
        Key::KeyZ => "Z",
        Key::KeyX => "X",
        Key::KeyC => "C",
        Key::KeyV => "V",
        Key::KeyB => "B",
        Key::KeyN => "N",
        Key::KeyM => "M",
        Key::Comma => ",",
        Key::Dot => ".",
        Key::Slash => "/",
        Key::Insert => "Ins",
        Key::KpReturn => "N↵",
        Key::KpMinus => "N−",
        Key::KpPlus => "N+",
        Key::KpMultiply => "N×",
        Key::KpDivide => "N÷",
        Key::Kp0 => "N0",
        Key::Kp1 => "N1",
        Key::Kp2 => "N2",
        Key::Kp3 => "N3",
        Key::Kp4 => "N4",
        Key::Kp5 => "N5",
        Key::Kp6 => "N6",
        Key::Kp7 => "N7",
        Key::Kp8 => "N8",
        Key::Kp9 => "N9",
        Key::KpDelete => "N.",
        Key::Function => "Function",
        Key::Unknown(_) => "",
    }
}

/// The one-character text of a decimal digit.
fn digit_text(d: u32) -> (r: &'static str)
    requires
        d < 10,
    ensures
        r@ == seq![digit_char(d as nat)],
{
    match d {
        0 => {
            proof {
                reveal_strlit("0");
            }
            "0"
        },
        1 => {
            proof {
                reveal_strlit("1");
            }
            "1"
        },
        2 => {
            proof {
                reveal_strlit("2");
            }
            "2"
        },
        3 => {
            proof {
                reveal_strlit("3");
            }
            "3"
        },
        4 => {
            proof {
                reveal_strlit("4");
            }
            "4"
        },
        5 => {
            proof {
                reveal_strlit("5");
            }
            "5"
        },
        6 => {
            proof {
                reveal_strlit("6");
            }
            "6"
        },
        7 => {
            proof {
                reveal_strlit("7");
            }
            "7"
        },
        8 => {
            proof {
                reveal_strlit("8");
            }
            "8"
        },
        9 => {
            proof {
                reveal_strlit("9");
            }
            "9"
        },
        _ => {
            proof {
                reveal_strlit("9");
            }
            "9"
        },
    }
}

/// The decimal numeral of `n`.
pub fn decimal_text(n: u32) -> (r: String)
    ensures
        r@ == decimal(n as nat),
    decreases n,
{
    if n < 10 {
        String::from_str(digit_text(n))
    } else {
        let mut s = decimal_text(n / 10);
        s.append(digit_text(n % 10));
        s
    }
}

/// Map a key to a short human-readable label.
pub fn key_to_label(key: Key) -> (r: String)
    ensures
        r@ == key_label(key),
{
    match key {
        Key::Unknown(code) => {
            let mut s = String::from_str("Unknown(");
            let digits = decimal_text(code);
            s.append(digits.as_str());
            s.append(")");
            s
        },
        _ => String::from_str(named_label(key)),
    }
}

// ─── Laws ─────────────────────────────────────────────────

/// The keys that show the same label: a key and itself, or the two keys of
/// one modifier pair (Control, Alt, Shift or Meta).
pub open spec fn same_label_group(a: Key, b: Key) -> bool {
    ||| a == b
    ||| (a == Key::ControlLeft || a == Key::ControlRight) && (b == Key::ControlLeft || b
        == Key::ControlRight)
    ||| (a == Key::Alt || a == Key::AltGr) && (b == Key::Alt || b == Key::AltGr)
    ||| (a == Key::ShiftLeft || a == Key::ShiftRight) && (b == Key::ShiftLeft || b == Key::ShiftRight)
    ||| (a == Key::MetaLeft || a == Key::MetaRight) && (b == Key::MetaLeft || b == Key::MetaRight)
}

/// Length, first and last character of each named key's label.
spec fn label_signature(key: Key) -> (int, char, char) {
    match key {
        Key::Alt => (3, 'A', 't'),
        Key::AltGr => (3, 'A', 't'),
        Key::Backspace => (1, '⌫', '⌫'),
        Key::CapsLock => (1, '⇪', '⇪'),
        Key::ControlLeft => (4, 'C', 'l'),
        Key::ControlRight => (4, 'C', 'l'),
        Key::Delete => (3, 'D', 'l'),
        Key::DownArrow => (1, '↓', '↓'),
        Key::End => (3, 'E', 'd'),
        Key::Escape => (3, 'E', 'c'),
        Key::F1 => (2, 'F', '1'),
        Key::F10 => (3, 'F', '0'),
        Key::F11 => (3, 'F', '1'),
        Key::F12 => (3, 'F', '2'),
        Key::F2 => (2, 'F', '2'),
        Key::F3 => (2, 'F', '3'),
        Key::F4 => (2, 'F', '4'),
        Key::F5 => (2, 'F', '5'),
        Key::F6 => (2, 'F', '6'),
        Key::F7 => (2, 'F', '7'),
        Key::F8 => (2, 'F', '8'),
        Key::F9 => (2, 'F', '9'),
        Key::Home => (4, 'H', 'e'),
        Key::LeftArrow => (1, '←', '←'),
        Key::MetaLeft => (3, 'W', 'n'),
        Key::MetaRight => (3, 'W', 'n'),
        Key::PageDown => (4, 'P', 'n'),
        Key::PageUp => (4, 'P', 'p'),
        Key::Return => (1, '↵', '↵'),
        Key::RightArrow => (1, '→', '→'),
        Key::ShiftLeft => (5, 'S', 't'),
        Key::ShiftRight => (5, 'S', 't'),
        Key::Space => (1, '␣', '␣'),
        Key::Tab => (1, '⇥', '⇥'),
        Key::UpArrow => (1, '↑', '↑'),
        Key::PrintScreen => (5, 'P', 'c'),
        Key::ScrollLock => (1, '⇳', '⇳'),
        Key::Pause => (5, 'P', 'e'),
        Key::NumLock => (1, '⇭', '⇭'),
        Key::BackQuote => (1, '`', '`'),
        Key::Num1 => (1, '1', '1'),
        Key::Num2 => (1, '2', '2'),
        Key::Num3 => (1, '3', '3'),
        Key::Num4 => (1, '4', '4'),
        Key::Num5 => (1, '5', '5'),
        Key::Num6 => (1, '6', '6'),
        Key::Num7 => (1, '7', '7'),
        Key::Num8 => (1, '8', '8'),
        Key::Num9 => (1, '9', '9'),
        Key::Num0 => (1, '0', '0'),
        Key::Minus => (1, '-', '-'),
        Key::Equal => (1, '=', '='),
        Key::KeyQ => (1, 'Q', 'Q'),
        Key::KeyW => (1, 'W', 'W'),
        Key::KeyE => (1, 'E', 'E'),
        Key::KeyR => (1, 'R', 'R'),
        Key::KeyT => (1, 'T', 'T'),
        Key::KeyY => (1, 'Y', 'Y'),
        Key::KeyU => (1, 'U', 'U'),
        Key::KeyI => (1, 'I', 'I'),
        Key::KeyO => (1, 'O', 'O'),
        Key::KeyP => (1, 'P', 'P'),
        Key::LeftBracket => (1, '[', '['),
        Key::RightBracket => (1, ']', ']'),
        Key::KeyA => (1, 'A', 'A'),
        Key::KeyS => (1, 'S', 'S'),
        Key::KeyD => (1, 'D', 'D'),
        Key::KeyF => (1, 'F', 'F'),
        Key::KeyG => (1, 'G', 'G'),
        Key::KeyH => (1, 'H', 'H'),
        Key::KeyJ => (1, 'J', 'J'),
        Key::KeyK => (1, 'K', 'K'),
        Key::KeyL => (1, 'L', 'L'),
        Key::SemiColon => (1, ';', ';'),
        Key::Quote => (1, '\'', '\''),
        Key::BackSlash => (1, '\\', '\\'),
        Key::IntlBackslash => (13, 'I', 'h'),
        Key::KeyZ => (1, 'Z', 'Z'),
        Key::KeyX => (1, 'X', 'X'),
        Key::KeyC => (1, 'C', 'C'),
        Key::KeyV => (1, 'V', 'V'),
        Key::KeyB => (1, 'B', 'B'),
        Key::KeyN => (1, 'N', 'N'),
        Key::KeyM => (1, 'M', 'M'),
        Key::Comma => (1, ',', ','),
        Key::Dot => (1, '.', '.'),
        Key::Slash => (1, '/', '/'),
        Key::Insert => (3, 'I', 's'),
        Key::KpReturn => (2, 'N', '↵'),
        Key::KpMinus => (2, 'N', '−'),
        Key::KpPlus => (2, 'N', '+'),
        Key::KpMultiply => (2, 'N', '×'),
        Key::KpDivide => (2, 'N', '÷'),
        Key::Kp0 => (2, 'N', '0'),
        Key::Kp1 => (2, 'N', '1'),
        Key::Kp2 => (2, 'N', '2'),
        Key::Kp3 => (2, 'N', '3'),
        Key::Kp4 => (2, 'N', '4'),
        Key::Kp5 => (2, 'N', '5'),
        Key::Kp6 => (2, 'N', '6'),
        Key::Kp7 => (2, 'N', '7'),
        Key::Kp8 => (2, 'N', '8'),
        Key::Kp9 => (2, 'N', '9'),
        Key::KpDelete => (2, 'N', '.'),
        Key::Function => (8, 'F', 'n'),
        Key::Unknown(_) => (0, ' ', ' '),
    }
}

proof fn lemma_label_signature(key: Key)
    requires
        !(key is Unknown),
    ensures
        key_label(key).len() == label_signature(key).0,
        key_label(key)[0] == label_signature(key).1,
        key_label(key)[key_label(key).len() - 1] == label_signature(key).2,
{
    match key {
        Key::Alt => {
            reveal_strlit("Alt");
            assert("Alt"@ =~= seq!['A', 'l', 't']);
        },
        Key::AltGr => {
            reveal_strlit("Alt");
            assert("Alt"@ =~= seq!['A', 'l', 't']);
        },
        Key::Backspace => {
            reveal_strlit("⌫");
            assert("⌫"@ =~= seq!['⌫']);
        },
        Key::CapsLock => {
            reveal_strlit("⇪");
            assert("⇪"@ =~= seq!['⇪']);
        },
        Key::ControlLeft => {
            reveal_strlit("Ctrl");
            assert("Ctrl"@ =~= seq!['C', 't', 'r', 'l']);
        },
        Key::ControlRight => {
            reveal_strlit("Ctrl");
            assert("Ctrl"@ =~= seq!['C', 't', 'r', 'l']);
        },
        Key::Delete => {
            reveal_strlit("Del");
            assert("Del"@ =~= seq!['D', 'e', 'l']);
        },
        Key::DownArrow => {
            reveal_strlit("↓");
            assert("↓"@ =~= seq!['↓']);
        },
        Key::End => {
            reveal_strlit("End");
            assert("End"@ =~= seq!['E', 'n', 'd']);
        },
        Key::Escape => {
            reveal_strlit("Esc");
            assert("Esc"@ =~= seq!['E', 's', 'c']);
        },
        Key::F1 => {
            reveal_strlit("F1");
            assert("F1"@ =~= seq!['F', '1']);
        },
        Key::F10 => {
            reveal_strlit("F10");
            assert("F10"@ =~= seq!['F', '1', '0']);
        },
        Key::F11 => {
            reveal_strlit("F11");
            assert("F11"@ =~= seq!['F', '1', '1']);
        },
        Key::F12 => {
            reveal_strlit("F12");
            assert("F12"@ =~= seq!['F', '1', '2']);
        },
        Key::F2 => {
            reveal_strlit("F2");
            assert("F2"@ =~= seq!['F', '2']);
        },
        Key::F3 => {
            reveal_strlit("F3");
            assert("F3"@ =~= seq!['F', '3']);
        },
        Key::F4 => {
            reveal_strlit("F4");
            assert("F4"@ =~= seq!['F', '4']);
        },
        Key::F5 => {
            reveal_strlit("F5");
            assert("F5"@ =~= seq!['F', '5']);
        },
        Key::F6 => {
            reveal_strlit("F6");
            assert("F6"@ =~= seq!['F', '6']);
        },
        Key::F7 => {
            reveal_strlit("F7");
            assert("F7"@ =~= seq!['F', '7']);
        },
        Key::F8 => {
            reveal_strlit("F8");
            assert("F8"@ =~= seq!['F', '8']);
        },
        Key::F9 => {
            reveal_strlit("F9");
            assert("F9"@ =~= seq!['F', '9']);
        },
        Key::Home => {
            reveal_strlit("Home");
            assert("Home"@ =~= seq!['H', 'o', 'm', 'e']);
        },
        Key::LeftArrow => {
            reveal_strlit("←");
            assert("←"@ =~= seq!['←']);
        },
        Key::MetaLeft => {
            reveal_strlit("Win");
            assert("Win"@ =~= seq!['W', 'i', 'n']);
        },
        Key::MetaRight => {
            reveal_strlit("Win");
            assert("Win"@ =~= seq!['W', 'i', 'n']);
        },
        Key::PageDown => {
            reveal_strlit("PgDn");
            assert("PgDn"@ =~= seq!['P', 'g', 'D', 'n']);
        },
        Key::PageUp => {
            reveal_strlit("PgUp");
            assert("PgUp"@ =~= seq!['P', 'g', 'U', 'p']);
        },
        Key::Return => {
            reveal_strlit("↵");
            assert("↵"@ =~= seq!['↵']);
        },
        Key::RightArrow => {
            reveal_strlit("→");
            assert("→"@ =~= seq!['→']);
        },
        Key::ShiftLeft => {
            reveal_strlit("Shift");
            assert("Shift"@ =~= seq!['S', 'h', 'i', 'f', 't']);
        },
        Key::ShiftRight => {
            reveal_strlit("Shift");
            assert("Shift"@ =~= seq!['S', 'h', 'i', 'f', 't']);
        },
        Key::Space => {
            reveal_strlit("␣");
            assert("␣"@ =~= seq!['␣']);
        },
        Key::Tab => {
            reveal_strlit("⇥");
            assert("⇥"@ =~= seq!['⇥']);
        },
        Key::UpArrow => {
            reveal_strlit("↑");
            assert("↑"@ =~= seq!['↑']);
        },
        Key::PrintScreen => {
            reveal_strlit("PrtSc");
            assert("PrtSc"@ =~= seq!['P', 'r', 't', 'S', 'c']);
        },
        Key::ScrollLock => {
            reveal_strlit("⇳");
            assert("⇳"@ =~= seq!['⇳']);
        },
        Key::Pause => {
            reveal_strlit("Pause");
            assert("Pause"@ =~= seq!['P', 'a', 'u', 's', 'e']);
        },
        Key::NumLock => {
            reveal_strlit("⇭");
            assert("⇭"@ =~= seq!['⇭']);
        },
        Key::BackQuote => {
            reveal_strlit("`");
            assert("`"@ =~= seq!['`']);
        },
        Key::Num1 => {
            reveal_strlit("1");
            assert("1"@ =~= seq!['1']);
        },
        Key::Num2 => {
            reveal_strlit("2");
            assert("2"@ =~= seq!['2']);
        },
        Key::Num3 => {
            reveal_strlit("3");
            assert("3"@ =~= seq!['3']);
        },
        Key::Num4 => {
            reveal_strlit("4");
            assert("4"@ =~= seq!['4']);
        },
        Key::Num5 => {
            reveal_strlit("5");
            assert("5"@ =~= seq!['5']);
        },
        Key::Num6 => {
            reveal_strlit("6");
            assert("6"@ =~= seq!['6']);
        },
        Key::Num7 => {
            reveal_strlit("7");
            assert("7"@ =~= seq!['7']);
        },
        Key::Num8 => {
            reveal_strlit("8");
            assert("8"@ =~= seq!['8']);
        },
        Key::Num9 => {
            reveal_strlit("9");
            assert("9"@ =~= seq!['9']);
        },
        Key::Num0 => {
            reveal_strlit("0");
            assert("0"@ =~= seq!['0']);
        },
        Key::Minus => {
            reveal_strlit("-");
            assert("-"@ =~= seq!['-']);
        },
        Key::Equal => {
            reveal_strlit("=");
            assert("="@ =~= seq!['=']);
        },
        Key::KeyQ => {
            reveal_strlit("Q");
            assert("Q"@ =~= seq!['Q']);
        },
        Key::KeyW => {
            reveal_strlit("W");
            assert("W"@ =~= seq!['W']);
        },
        Key::KeyE => {
            reveal_strlit("E");
            assert("E"@ =~= seq!['E']);
        },
        Key::KeyR => {
            reveal_strlit("R");
            assert("R"@ =~= seq!['R']);
        },
        Key::KeyT => {
            reveal_strlit("T");
            assert("T"@ =~= seq!['T']);
        },
        Key::KeyY => {
            reveal_strlit("Y");
            assert("Y"@ =~= seq!['Y']);
        },
        Key::KeyU => {
            reveal_strlit("U");
            assert("U"@ =~= seq!['U']);
        },
        Key::KeyI => {
            reveal_strlit("I");
            assert("I"@ =~= seq!['I']);
        },
        Key::KeyO => {
            reveal_strlit("O");
            assert("O"@ =~= seq!['O']);
        },
        Key::KeyP => {
            reveal_strlit("P");
            assert("P"@ =~= seq!['P']);
        },
        Key::LeftBracket => {
            reveal_strlit("[");
            assert("["@ =~= seq!['[']);
        },
        Key::RightBracket => {
            reveal_strlit("]");
            assert("]"@ =~= seq![']']);
        },
        Key::KeyA => {
            reveal_strlit("A");
            assert("A"@ =~= seq!['A']);
        },
        Key::KeyS => {
            reveal_strlit("S");
            assert("S"@ =~= seq!['S']);
        },
        Key::KeyD => {
            reveal_strlit("D");
            assert("D"@ =~= seq!['D']);
        },
        Key::KeyF => {
            reveal_strlit("F");
            assert("F"@ =~= seq!['F']);
        },
        Key::KeyG => {
            reveal_strlit("G");
            assert("G"@ =~= seq!['G']);
        },
        Key::KeyH => {
            reveal_strlit("H");
            assert("H"@ =~= seq!['H']);
        },
        Key::KeyJ => {
            reveal_strlit("J");
            assert("J"@ =~= seq!['J']);
        },
        Key::KeyK => {
            reveal_strlit("K");
            assert("K"@ =~= seq!['K']);
        },
        Key::KeyL => {
            reveal_strlit("L");
            assert("L"@ =~= seq!['L']);
        },
        Key::SemiColon => {
            reveal_strlit(";");
            assert(";"@ =~= seq![';']);
        },
        Key::Quote => {
            reveal_strlit("'");
            assert("'"@ =~= seq!['\'']);
        },
        Key::BackSlash => {
            reveal_strlit("\\");
            assert("\\"@ =~= seq!['\\']);
        },
        Key::IntlBackslash => {
            reveal_strlit("IntlBackslash");
            assert("IntlBackslash"@ =~= seq!['I', 'n', 't', 'l', 'B', 'a', 'c', 'k', 's', 'l', 'a', 's', 'h']);
        },
        Key::KeyZ => {
            reveal_strlit("Z");
            assert("Z"@ =~= seq!['Z']);
        },
        Key::KeyX => {
            reveal_strlit("X");
            assert("X"@ =~= seq!['X']);
        },
        Key::KeyC => {
            reveal_strlit("C");
            assert("C"@ =~= seq!['C']);
        },
        Key::KeyV => {
            reveal_strlit("V");
            assert("V"@ =~= seq!['V']);
        },
        Key::KeyB => {
            reveal_strlit("B");
            assert("B"@ =~= seq!['B']);
        },
        Key::KeyN => {
            reveal_strlit("N");
            assert("N"@ =~= seq!['N']);
        },
        Key::KeyM => {
            reveal_strlit("M");
            assert("M"@ =~= seq!['M']);
        },
        Key::Comma => {
            reveal_strlit(",");
            assert(","@ =~= seq![',']);
        },
        Key::Dot => {
            reveal_strlit(".");
            assert("."@ =~= seq!['.']);
        },
        Key::Slash => {
            reveal_strlit("/");
            assert("/"@ =~= seq!['/']);
        },
        Key::Insert => {
            reveal_strlit("Ins");
            assert("Ins"@ =~= seq!['I', 'n', 's']);
        },
        Key::KpReturn => {
            reveal_strlit("N↵");
            assert("N↵"@ =~= seq!['N', '↵']);
        },
        Key::KpMinus => {
            reveal_strlit("N−");
            assert("N−"@ =~= seq!['N', '−']);
        },
        Key::KpPlus => {
            reveal_strlit("N+");
            assert("N+"@ =~= seq!['N', '+']);
        },
        Key::KpMultiply => {
            reveal_strlit("N×");
            assert("N×"@ =~= seq!['N', '×']);
        },
        Key::KpDivide => {
            reveal_strlit("N÷");
            assert("N÷"@ =~= seq!['N', '÷']);
        },
        Key::Kp0 => {
            reveal_strlit("N0");
            assert("N0"@ =~= seq!['N', '0']);
        },
        Key::Kp1 => {
            reveal_strlit("N1");
            assert("N1"@ =~= seq!['N', '1']);
        },
        Key::Kp2 => {
            reveal_strlit("N2");
            assert("N2"@ =~= seq!['N', '2']);
        },
        Key::Kp3 => {
            reveal_strlit("N3");
            assert("N3"@ =~= seq!['N', '3']);
        },
        Key::Kp4 => {
            reveal_strlit("N4");
            assert("N4"@ =~= seq!['N', '4']);
        },
        Key::Kp5 => {
            reveal_strlit("N5");
            assert("N5"@ =~= seq!['N', '5']);
        },
        Key::Kp6 => {
            reveal_strlit("N6");
            assert("N6"@ =~= seq!['N', '6']);
        },
        Key::Kp7 => {
            reveal_strlit("N7");
            assert("N7"@ =~= seq!['N', '7']);
        },
        Key::Kp8 => {
            reveal_strlit("N8");
            assert("N8"@ =~= seq!['N', '8']);
        },
        Key::Kp9 => {
            reveal_strlit("N9");
            assert("N9"@ =~= seq!['N', '9']);
        },
        Key::KpDelete => {
            reveal_strlit("N.");
            assert("N."@ =~= seq!['N', '.']);
        },
        Key::Function => {
            reveal_strlit("Function");
            assert("Function"@ =~= seq!['F', 'u', 'n', 'c', 't', 'i', 'o', 'n']);
        },
        Key::Unknown(_) => {},
    }
}

proof fn lemma_named_labels(a: Key, b: Key)
    requires
        !(a is Unknown),
        !(b is Unknown),
    ensures
        key_label(a) == key_label(b) <==> same_label_group(a, b),
        0 < key_label(a).len() < 10 || (key_label(a).len() > 0 && key_label(a)[0] != 'U'),
{
    lemma_label_signature(a);
    lemma_label_signature(b);
}

proof fn lemma_decimal_nonempty(n: nat)
    ensures
        decimal(n).len() >= 1,
    decreases n,
{
    if n >= 10 {
        lemma_decimal_nonempty(n / 10);
    }
}

proof fn lemma_decimal_injective(n: nat, m: nat)
    requires
        decimal(n) == decimal(m),
    ensures
        n == m,
    decreases n,
{
    if n < 10 && m < 10 {
        assert(decimal(n)[0] == digit_char(n));
        assert(decimal(m)[0] == digit_char(m));
    } else if n < 10 {
        lemma_decimal_nonempty(m / 10);
        assert(decimal(m).len() >= 2);
    } else if m < 10 {
        lemma_decimal_nonempty(n / 10);
        assert(decimal(n).len() >= 2);
    } else {
        assert(decimal(n).last() == digit_char(n % 10));
        assert(decimal(m).last() == digit_char(m % 10));
        assert(n % 10 == m % 10);
        assert(decimal(n).drop_last() =~= decimal(n / 10));
        assert(decimal(m).drop_last() =~= decimal(m / 10));
        lemma_decimal_injective(n / 10, m / 10);
    }
}

proof fn lemma_unknown_label(code: u32)
    ensures
        key_label(Key::Unknown(code)).len() >= 10,
        key_label(Key::Unknown(code))[0] == 'U',
        key_label(Key::Unknown(code)).subrange(8, key_label(Key::Unknown(code)).len() - 1) == decimal(code as nat),
{
    reveal_strlit("Unknown(");
    reveal_strlit(")");
    lemma_decimal_nonempty(code as nat);
    let l = key_label(Key::Unknown(code));
    assert(l.subrange(8, l.len() - 1) =~= decimal(code as nat));
}

/// Every label is non-empty, and two keys show the same label exactly when
/// they are the same key or the two keys of one modifier pair.
pub proof fn lemma_labels_identify_keys(a: Key, b: Key)
    ensures
        key_label(a).len() > 0,
        key_label(a) == key_label(b) <==> same_label_group(a, b),
{
    match (a, b) {
        (Key::Unknown(x), Key::Unknown(y)) => {
            lemma_unknown_label(x);
            lemma_unknown_label(y);
            if key_label(a) == key_label(b) {
                lemma_decimal_injective(x as nat, y as nat);
            }
        },
        (Key::Unknown(x), _) => {
            lemma_unknown_label(x);
            lemma_named_labels(b, b);
        },
        (_, Key::Unknown(y)) => {
            lemma_unknown_label(y);
            lemma_named_labels(a, a);
        },
        _ => {
            lemma_named_labels(a, b);
        },
    }
}

/// A key is a modifier exactly when its label is `Ctrl`, `Alt`, `Shift`
/// or `Win`.
pub proof fn lemma_modifier_labels(k: Key)
    ensures
        is_modifier_key(k) <==> (key_label(k) == "Ctrl"@ || key_label(k) == "Alt"@ || key_label(k)
            == "Shift"@ || key_label(k) == "Win"@),
{
    lemma_labels_identify_keys(k, Key::ControlLeft);
    lemma_labels_identify_keys(k, Key::Alt);
    lemma_labels_identify_keys(k, Key::ShiftLeft);
    lemma_labels_identify_keys(k, Key::MetaLeft);
}

/// The label of every named key: letters and digits by themselves, the
/// modifiers by the name of their pair, navigation and editing keys by
/// their arrow, symbol or short name, function keys as `F1`…`F12`, keypad
/// keys with an `N` prefix, and the two keys without a symbol by their name.
pub proof fn lemma_label_table()
    ensures
        key_label(Key::Alt) == "Alt"@,
        key_label(Key::AltGr) == "Alt"@,
        key_label(Key::Backspace) == "⌫"@,
        key_label(Key::CapsLock) == "⇪"@,
        key_label(Key::ControlLeft) == "Ctrl"@,
        key_label(Key::ControlRight) == "Ctrl"@,
        key_label(Key::Delete) == "Del"@,
        key_label(Key::DownArrow) == "↓"@,
        key_label(Key::End) == "End"@,
        key_label(Key::Escape) == "Esc"@,
        key_label(Key::F1) == "F1"@,
        key_label(Key::F10) == "F10"@,
        key_label(Key::F11) == "F11"@,
        key_label(Key::F12) == "F12"@,
        key_label(Key::F2) == "F2"@,
        key_label(Key::F3) == "F3"@,
        key_label(Key::F4) == "F4"@,
        key_label(Key::F5) == "F5"@,
        key_label(Key::F6) == "F6"@,
        key_label(Key::F7) == "F7"@,
        key_label(Key::F8) == "F8"@,
        key_label(Key::F9) == "F9"@,
        key_label(Key::Home) == "Home"@,
        key_label(Key::LeftArrow) == "←"@,
        key_label(Key::MetaLeft) == "Win"@,
        key_label(Key::MetaRight) == "Win"@,
        key_label(Key::PageDown) == "PgDn"@,
        key_label(Key::PageUp) == "PgUp"@,
        key_label(Key::Return) == "↵"@,
        key_label(Key::RightArrow) == "→"@,
        key_label(Key::ShiftLeft) == "Shift"@,
        key_label(Key::ShiftRight) == "Shift"@,
        key_label(Key::Space) == "␣"@,
        key_label(Key::Tab) == "⇥"@,
        key_label(Key::UpArrow) == "↑"@,
        key_label(Key::PrintScreen) == "PrtSc"@,
        key_label(Key::ScrollLock) == "⇳"@,
        key_label(Key::Pause) == "Pause"@,
        key_label(Key::NumLock) == "⇭"@,
        key_label(Key::BackQuote) == "`"@,
        key_label(Key::Num1) == "1"@,
        key_label(Key::Num2) == "2"@,
        key_label(Key::Num3) == "3"@,
        key_label(Key::Num4) == "4"@,
        key_label(Key::Num5) == "5"@,
        key_label(Key::Num6) == "6"@,
        key_label(Key::Num7) == "7"@,
        key_label(Key::Num8) == "8"@,
        key_label(Key::Num9) == "9"@,
        key_label(Key::Num0) == "0"@,
        key_label(Key::Minus) == "-"@,
        key_label(Key::Equal) == "="@,
        key_label(Key::KeyQ) == "Q"@,
        key_label(Key::KeyW) == "W"@,
        key_label(Key::KeyE) == "E"@,
        key_label(Key::KeyR) == "R"@,
        key_label(Key::KeyT) == "T"@,
        key_label(Key::KeyY) == "Y"@,
        key_label(Key::KeyU) == "U"@,
        key_label(Key::KeyI) == "I"@,
        key_label(Key::KeyO) == "O"@,
        key_label(Key::KeyP) == "P"@,
        key_label(Key::LeftBracket) == "["@,
        key_label(Key::RightBracket) == "]"@,
        key_label(Key::KeyA) == "A"@,
        key_label(Key::KeyS) == "S"@,
        key_label(Key::KeyD) == "D"@,
        key_label(Key::KeyF) == "F"@,
        key_label(Key::KeyG) == "G"@,
        key_label(Key::KeyH) == "H"@,
        key_label(Key::KeyJ) == "J"@,
        key_label(Key::KeyK) == "K"@,
        key_label(Key::KeyL) == "L"@,
        key_label(Key::SemiColon) == ";"@,
        key_label(Key::Quote) == "'"@,
        key_label(Key::BackSlash) == "\\"@,
        key_label(Key::IntlBackslash) == "IntlBackslash"@,
        key_label(Key::KeyZ) == "Z"@,
        key_label(Key::KeyX) == "X"@,
        key_label(Key::KeyC) == "C"@,
        key_label(Key::KeyV) == "V"@,
        key_label(Key::KeyB) == "B"@,
        key_label(Key::KeyN) == "N"@,
        key_label(Key::KeyM) == "M"@,
        key_label(Key::Comma) == ","@,
        key_label(Key::Dot) == "."@,
        key_label(Key::Slash) == "/"@,
        key_label(Key::Insert) == "Ins"@,
        key_label(Key::KpReturn) == "N↵"@,
        key_label(Key::KpMinus) == "N−"@,
        key_label(Key::KpPlus) == "N+"@,
        key_label(Key::KpMultiply) == "N×"@,
        key_label(Key::KpDivide) == "N÷"@,
        key_label(Key::Kp0) == "N0"@,
        key_label(Key::Kp1) == "N1"@,
        key_label(Key::Kp2) == "N2"@,
        key_label(Key::Kp3) == "N3"@,
        key_label(Key::Kp4) == "N4"@,
        key_label(Key::Kp5) == "N5"@,
        key_label(Key::Kp6) == "N6"@,
        key_label(Key::Kp7) == "N7"@,
        key_label(Key::Kp8) == "N8"@,
        key_label(Key::Kp9) == "N9"@,
        key_label(Key::KpDelete) == "N."@,
        key_label(Key::Function) == "Function"@,
{
}

} // verus!
