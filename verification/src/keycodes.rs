//! Key codes: the symbols for the integers that the native library puts in
//! its keyboard events.

use vstd::prelude::*;

verus! {

/// A key of the keyboard.
#[derive(Clone, Copy, Debug, PartialEq, Eq, Structural)]
pub enum KeyCode {
    A,
    B,
    C,
    D,
    E,
    F,
    G,
    H,
    I,
    J,
    K,
    L,
    M,
    N,
    O,
    P,
    Q,
    R,
    S,
    T,
    U,
    V,
    W,
    X,
    Y,
    Z,
    _0,
    _1,
    _2,
    _3,
    _4,
    _5,
    _6,
    _7,
    _8,
    _9,
    Pad0,
    Pad1,
    Pad2,
    Pad3,
    Pad4,
    Pad5,
    Pad6,
    Pad7,
    Pad8,
    Pad9,
    F1,
    F2,
    F3,
    F4,
    F5,
    F6,
    F7,
    F8,
    F9,
    F10,
    F11,
    F12,
    Escape,
    Tilde,
    Minus,
    Equals,
    Backspace,
    Tab,
    Openbrace,
    Closebrace,
    Enter,
    Semicolon,
    Quote,
    Backslash,
    Backslash2,
    Comma,
    Fullstop,
    Slash,
    Space,
    Insert,
    Delete,
    Home,
    End,
    PgUp,
    PgDn,
    Left,
    Right,
    Up,
    Down,
    PadSlash,
    PadAsterisk,
    PadMinus,
    PadPlus,
    PadDelete,
    PadEnter,
    PrintScreen,
    Pause,
    AbntC1,
    Yen,
    Kana,
    Convert,
    NoConvert,
    At,
    Circumflex,
    Colon2,
    Kanji,
    PadEquals,
    Backquote,
    Semicolon2,
    Command,
    Unknown,
    LShift,
    RShift,
    LCtrl,
    RCtrl,
    Alt,
    AltGr,
    LWin,
    RWin,
    Menu,
    ScrollLock,
    NumLock,
    CapsLock,
}

/// Whether the native library uses `k` as a key code: the codes run from 1
/// to 107 and, for the modifier keys, from 215 to 226.
pub open spec fn is_key_code(k: i32) -> bool {
    1 <= k <= 107 || 215 <= k <= 226
}

impl KeyCode {
    /// The integer that the native library uses for the key.
    pub open spec fn code(self) -> i32 {
        match self {
            KeyCode::A => 1,
            KeyCode::B => 2,
            KeyCode::C => 3,
            KeyCode::D => 4,
            KeyCode::E => 5,
            KeyCode::F => 6,
            KeyCode::G => 7,
            KeyCode::H => 8,
            KeyCode::I => 9,
            KeyCode::J => 10,
            KeyCode::K => 11,
            KeyCode::L => 12,
            KeyCode::M => 13,
            KeyCode::N => 14,
            KeyCode::O => 15,
            KeyCode::P => 16,
            KeyCode::Q => 17,
            KeyCode::R => 18,
            KeyCode::S => 19,
            KeyCode::T => 20,
            KeyCode::U => 21,
            KeyCode::V => 22,
            KeyCode::W => 23,
            KeyCode::X => 24,
            KeyCode::Y => 25,
            KeyCode::Z => 26,
            KeyCode::_0 => 27,
            KeyCode::_1 => 28,
            KeyCode::_2 => 29,
            KeyCode::_3 => 30,
            KeyCode::_4 => 31,
            KeyCode::_5 => 32,
            KeyCode::_6 => 33,
            KeyCode::_7 => 34,
            KeyCode::_8 => 35,
            KeyCode::_9 => 36,
            KeyCode::Pad0 => 37,
            KeyCode::Pad1 => 38,
            KeyCode::Pad2 => 39,
            KeyCode::Pad3 => 40,
            KeyCode::Pad4 => 41,
            KeyCode::Pad5 => 42,
            KeyCode::Pad6 => 43,
            KeyCode::Pad7 => 44,
            KeyCode::Pad8 => 45,
            KeyCode::Pad9 => 46,
            KeyCode::F1 => 47,
            KeyCode::F2 => 48,
            KeyCode::F3 => 49,
            KeyCode::F4 => 50,
            KeyCode::F5 => 51,
            KeyCode::F6 => 52,
            KeyCode::F7 => 53,
            KeyCode::F8 => 54,
            KeyCode::F9 => 55,
            KeyCode::F10 => 56,
            KeyCode::F11 => 57,
            KeyCode::F12 => 58,
            KeyCode::Escape => 59,
            KeyCode::Tilde => 60,
            KeyCode::Minus => 61,
            KeyCode::Equals => 62,
            KeyCode::Backspace => 63,
            KeyCode::Tab => 64,
            KeyCode::Openbrace => 65,
            KeyCode::Closebrace => 66,
            KeyCode::Enter => 67,
            KeyCode::Semicolon => 68,
            KeyCode::Quote => 69,
            KeyCode::Backslash => 70,
            KeyCode::Backslash2 => 71,
            KeyCode::Comma => 72,
            KeyCode::Fullstop => 73,
            KeyCode::Slash => 74,
            KeyCode::Space => 75,
            KeyCode::Insert => 76,
            KeyCode::Delete => 77,
            KeyCode::Home => 78,
            KeyCode::End => 79,
            KeyCode::PgUp => 80,
            KeyCode::PgDn => 81,
            KeyCode::Left => 82,
            KeyCode::Right => 83,
            KeyCode::Up => 84,
            KeyCode::Down => 85,
            KeyCode::PadSlash => 86,
            KeyCode::PadAsterisk => 87,
            KeyCode::PadMinus => 88,
            KeyCode::PadPlus => 89,
            KeyCode::PadDelete => 90,
            KeyCode::PadEnter => 91,
            KeyCode::PrintScreen => 92,
            KeyCode::Pause => 93,
            KeyCode::AbntC1 => 94,
            KeyCode::Yen => 95,
            KeyCode::Kana => 96,
            KeyCode::Convert => 97,
            KeyCode::NoConvert => 98,
            KeyCode::At => 99,
            KeyCode::Circumflex => 100,
            KeyCode::Colon2 => 101,
            KeyCode::Kanji => 102,
            KeyCode::PadEquals => 103,
            KeyCode::Backquote => 104,
            KeyCode::Semicolon2 => 105,
            KeyCode::Command => 106,
            KeyCode::Unknown => 107,
            KeyCode::LShift => 215,
            KeyCode::RShift => 216,
            KeyCode::LCtrl => 217,
            KeyCode::RCtrl => 218,
            KeyCode::Alt => 219,
            KeyCode::AltGr => 220,
            KeyCode::LWin => 221,
            KeyCode::RWin => 222,
            KeyCode::Menu => 223,
            KeyCode::ScrollLock => 224,
            KeyCode::NumLock => 225,
            KeyCode::CapsLock => 226,
        }
    }

    /// The integer that the native library uses for the key.
    pub fn to_allegro_key(self) -> (k: i32)
        ensures
            k == self.code(),
            is_key_code(k),
    {
        match self {
            KeyCode::A => 1,
            KeyCode::B => 2,
            KeyCode::C => 3,
            KeyCode::D => 4,
            KeyCode::E => 5,
            KeyCode::F => 6,
            KeyCode::G => 7,
            KeyCode::H => 8,
            KeyCode::I => 9,
            KeyCode::J => 10,
            KeyCode::K => 11,
            KeyCode::L => 12,
            KeyCode::M => 13,
            KeyCode::N => 14,
            KeyCode::O => 15,
            KeyCode::P => 16,
            KeyCode::Q => 17,
            KeyCode::R => 18,
            KeyCode::S => 19,
            KeyCode::T => 20,
            KeyCode::U => 21,
            KeyCode::V => 22,
            KeyCode::W => 23,
            KeyCode::X => 24,
            KeyCode::Y => 25,
            KeyCode::Z => 26,
            KeyCode::_0 => 27,
            KeyCode::_1 => 28,
            KeyCode::_2 => 29,
            KeyCode::_3 => 30,
            KeyCode::_4 => 31,
            KeyCode::_5 => 32,
            KeyCode::_6 => 33,
            KeyCode::_7 => 34,
            KeyCode::_8 => 35,
            KeyCode::_9 => 36,
            KeyCode::Pad0 => 37,
            KeyCode::Pad1 => 38,
            KeyCode::Pad2 => 39,
            KeyCode::Pad3 => 40,
            KeyCode::Pad4 => 41,
            KeyCode::Pad5 => 42,
            KeyCode::Pad6 => 43,
            KeyCode::Pad7 => 44,
            KeyCode::Pad8 => 45,
            KeyCode::Pad9 => 46,
            KeyCode::F1 => 47,
            KeyCode::F2 => 48,
            KeyCode::F3 => 49,
            KeyCode::F4 => 50,
            KeyCode::F5 => 51,
            KeyCode::F6 => 52,
            KeyCode::F7 => 53,
            KeyCode::F8 => 54,
            KeyCode::F9 => 55,
            KeyCode::F10 => 56,
            KeyCode::F11 => 57,
            KeyCode::F12 => 58,
            KeyCode::Escape => 59,
            KeyCode::Tilde => 60,
            KeyCode::Minus => 61,
            KeyCode::Equals => 62,
            KeyCode::Backspace => 63,
            KeyCode::Tab => 64,
            KeyCode::Openbrace => 65,
            KeyCode::Closebrace => 66,
            KeyCode::Enter => 67,
            KeyCode::Semicolon => 68,
            KeyCode::Quote => 69,
            KeyCode::Backslash => 70,
            KeyCode::Backslash2 => 71,
            KeyCode::Comma => 72,
            KeyCode::Fullstop => 73,
            KeyCode::Slash => 74,
            KeyCode::Space => 75,
            KeyCode::Insert => 76,
            KeyCode::Delete => 77,
            KeyCode::Home => 78,
            KeyCode::End => 79,
            KeyCode::PgUp => 80,
            KeyCode::PgDn => 81,
            KeyCode::Left => 82,
            KeyCode::Right => 83,
            KeyCode::Up => 84,
            KeyCode::Down => 85,
            KeyCode::PadSlash => 86,
            KeyCode::PadAsterisk => 87,
            KeyCode::PadMinus => 88,
            KeyCode::PadPlus => 89,
            KeyCode::PadDelete => 90,
            KeyCode::PadEnter => 91,
            KeyCode::PrintScreen => 92,
            KeyCode::Pause => 93,
            KeyCode::AbntC1 => 94,
            KeyCode::Yen => 95,
            KeyCode::Kana => 96,
            KeyCode::Convert => 97,
            KeyCode::NoConvert => 98,
            KeyCode::At => 99,
            KeyCode::Circumflex => 100,
            KeyCode::Colon2 => 101,
            KeyCode::Kanji => 102,
            KeyCode::PadEquals => 103,
            KeyCode::Backquote => 104,
            KeyCode::Semicolon2 => 105,
            KeyCode::Command => 106,
            KeyCode::Unknown => 107,
            KeyCode::LShift => 215,
            KeyCode::RShift => 216,
            KeyCode::LCtrl => 217,
            KeyCode::RCtrl => 218,
            KeyCode::Alt => 219,
            KeyCode::AltGr => 220,
            KeyCode::LWin => 221,
            KeyCode::RWin => 222,
            KeyCode::Menu => 223,
            KeyCode::ScrollLock => 224,
            KeyCode::NumLock => 225,
            KeyCode::CapsLock => 226,
        }
    }

    /// The key that the native library means by `k`, if it means one.
    pub fn from_allegro_key(k: i32) -> (r: Option<KeyCode>)
        ensures
            is_key_code(k) ==> r is Some && r->Some_0.code() == k,
            !is_key_code(k) ==> r is None,
    {
        match k {
            1 => Some(KeyCode::A),
            2 => Some(KeyCode::B),
            3 => Some(KeyCode::C),
            4 => Some(KeyCode::D),
            5 => Some(KeyCode::E),
            6 => Some(KeyCode::F),
            7 => Some(KeyCode::G),
            8 => Some(KeyCode::H),
            9 => Some(KeyCode::I),
            10 => Some(KeyCode::J),
            11 => Some(KeyCode::K),
            12 => Some(KeyCode::L),
            13 => Some(KeyCode::M),
            14 => Some(KeyCode::N),
            15 => Some(KeyCode::O),
            16 => Some(KeyCode::P),
            17 => Some(KeyCode::Q),
            18 => Some(KeyCode::R),
            19 => Some(KeyCode::S),
            20 => Some(KeyCode::T),
            21 => Some(KeyCode::U),
            22 => Some(KeyCode::V),
            23 => Some(KeyCode::W),
            24 => Some(KeyCode::X),
            25 => Some(KeyCode::Y),
            26 => Some(KeyCode::Z),
            27 => Some(KeyCode::_0),
            28 => Some(KeyCode::_1),
            29 => Some(KeyCode::_2),
            30 => Some(KeyCode::_3),
            31 => Some(KeyCode::_4),
            32 => Some(KeyCode::_5),
            33 => Some(KeyCode::_6),
            34 => Some(KeyCode::_7),
            35 => Some(KeyCode::_8),
            36 => Some(KeyCode::_9),
            37 => Some(KeyCode::Pad0),
            38 => Some(KeyCode::Pad1),
            39 => Some(KeyCode::Pad2),
            40 => Some(KeyCode::Pad3),
            41 => Some(KeyCode::Pad4),
            42 => Some(KeyCode::Pad5),
            43 => Some(KeyCode::Pad6),
            44 => Some(KeyCode::Pad7),
            45 => Some(KeyCode::Pad8),
            46 => Some(KeyCode::Pad9),
            47 => Some(KeyCode::F1),
            48 => Some(KeyCode::F2),
            49 => Some(KeyCode::F3),
            50 => Some(KeyCode::F4),
            51 => Some(KeyCode::F5),
            52 => Some(KeyCode::F6),
            53 => Some(KeyCode::F7),
            54 => Some(KeyCode::F8),
            55 => Some(KeyCode::F9),
            56 => Some(KeyCode::F10),
            57 => Some(KeyCode::F11),
            58 => Some(KeyCode::F12),
            59 => Some(KeyCode::Escape),
            60 => Some(KeyCode::Tilde),
            61 => Some(KeyCode::Minus),
            62 => Some(KeyCode::Equals),
            63 => Some(KeyCode::Backspace),
            64 => Some(KeyCode::Tab),
            65 => Some(KeyCode::Openbrace),
            66 => Some(KeyCode::Closebrace),
            67 => Some(KeyCode::Enter),
            68 => Some(KeyCode::Semicolon),
            69 => Some(KeyCode::Quote),
            70 => Some(KeyCode::Backslash),
            71 => Some(KeyCode::Backslash2),
            72 => Some(KeyCode::Comma),
            73 => Some(KeyCode::Fullstop),
            74 => Some(KeyCode::Slash),
            75 => Some(KeyCode::Space),
            76 => Some(KeyCode::Insert),
            77 => Some(KeyCode::Delete),
            78 => Some(KeyCode::Home),
            79 => Some(KeyCode::End),
            80 => Some(KeyCode::PgUp),
            81 => Some(KeyCode::PgDn),
            82 => Some(KeyCode::Left),
            83 => Some(KeyCode::Right),
            84 => Some(KeyCode::Up),
            85 => Some(KeyCode::Down),
            86 => Some(KeyCode::PadSlash),
            87 => Some(KeyCode::PadAsterisk),
            88 => Some(KeyCode::PadMinus),
            89 => Some(KeyCode::PadPlus),
            90 => Some(KeyCode::PadDelete),
            91 => Some(KeyCode::PadEnter),
            92 => Some(KeyCode::PrintScreen),
            93 => Some(KeyCode::Pause),
            94 => Some(KeyCode::AbntC1),
            95 => Some(KeyCode::Yen),
            96 => Some(KeyCode::Kana),
            97 => Some(KeyCode::Convert),
            98 => Some(KeyCode::NoConvert),
            99 => Some(KeyCode::At),
            100 => Some(KeyCode::Circumflex),
            101 => Some(KeyCode::Colon2),
            102 => Some(KeyCode::Kanji),
            103 => Some(KeyCode::PadEquals),
            104 => Some(KeyCode::Backquote),
            105 => Some(KeyCode::Semicolon2),
            106 => Some(KeyCode::Command),
            107 => Some(KeyCode::Unknown),
            215 => Some(KeyCode::LShift),
            216 => Some(KeyCode::RShift),
            217 => Some(KeyCode::LCtrl),
            218 => Some(KeyCode::RCtrl),
            219 => Some(KeyCode::Alt),
            220 => Some(KeyCode::AltGr),
            221 => Some(KeyCode::LWin),
            222 => Some(KeyCode::RWin),
            223 => Some(KeyCode::Menu),
            224 => Some(KeyCode::ScrollLock),
            225 => Some(KeyCode::NumLock),
            226 => Some(KeyCode::CapsLock),
            _ => None,
        }
    }
}

/// Every key has a code of its own, in the native range.
pub proof fn lemma_code_is_key_code(key: KeyCode)
    ensures
        is_key_code(key.code()),
{
}

/// No two keys share a code, so a key is found again from its code.
pub proof fn lemma_code_injective(a: KeyCode, b: KeyCode)
    requires
        a.code() == b.code(),
    ensures
        a == b,
{
}

} // verus!
