//! Legacy numeric key identity and SWF4-era key-press codes.

use vstd::prelude::*;

verus! {

/// A legacy virtual key code: a stable, externally specified numeric key
/// identity. Equality is equality of the value.
#[derive(Debug, Copy, Clone, PartialEq, Eq, Hash, Structural)]
pub struct KeyCode(pub u32);

impl KeyCode {
    pub const UNKNOWN: u32 = 0;
    pub const MOUSE_LEFT: u32 = 1;
    pub const MOUSE_RIGHT: u32 = 2;
    pub const MOUSE_MIDDLE: u32 = 4;
    pub const BACKSPACE: u32 = 8;
    pub const TAB: u32 = 9;
    pub const ENTER: u32 = 13;
    pub const COMMAND: u32 = 15;
    pub const SHIFT: u32 = 16;
    pub const CONTROL: u32 = 17;
    pub const ALT: u32 = 18;
    pub const PAUSE: u32 = 19;
    pub const CAPS_LOCK: u32 = 20;
    pub const NUMPAD: u32 = 21;
    pub const ESCAPE: u32 = 27;
    pub const SPACE: u32 = 32;
    pub const PAGE_UP: u32 = 33;
    pub const PAGE_DOWN: u32 = 34;
    pub const END: u32 = 35;
    pub const HOME: u32 = 36;
    pub const LEFT: u32 = 37;
    pub const UP: u32 = 38;
    pub const RIGHT: u32 = 39;
    pub const DOWN: u32 = 40;
    pub const INSERT: u32 = 45;
    pub const DELETE: u32 = 46;
    pub const NUMBER_0: u32 = 48;
    pub const NUMBER_1: u32 = 49;
    pub const NUMBER_2: u32 = 50;
    pub const NUMBER_3: u32 = 51;
    pub const NUMBER_4: u32 = 52;
    pub const NUMBER_5: u32 = 53;
    pub const NUMBER_6: u32 = 54;
    pub const NUMBER_7: u32 = 55;
    pub const NUMBER_8: u32 = 56;
    pub const NUMBER_9: u32 = 57;
    pub const A: u32 = 65;
    pub const B: u32 = 66;
    pub const C: u32 = 67;
    pub const D: u32 = 68;
    pub const E: u32 = 69;
    pub const F: u32 = 70;
    pub const G: u32 = 71;
    pub const H: u32 = 72;
    pub const I: u32 = 73;
    pub const J: u32 = 74;
    pub const K: u32 = 75;
    pub const L: u32 = 76;
    pub const M: u32 = 77;
    pub const N: u32 = 78;
    pub const O: u32 = 79;
    pub const P: u32 = 80;
    pub const Q: u32 = 81;
    pub const R: u32 = 82;
    pub const S: u32 = 83;
    pub const T: u32 = 84;
    pub const U: u32 = 85;
    pub const V: u32 = 86;
    pub const W: u32 = 87;
    pub const X: u32 = 88;
    pub const Y: u32 = 89;
    pub const Z: u32 = 90;
    pub const NUMPAD_0: u32 = 96;
    pub const NUMPAD_1: u32 = 97;
    pub const NUMPAD_2: u32 = 98;
    pub const NUMPAD_3: u32 = 99;
    pub const NUMPAD_4: u32 = 100;
    pub const NUMPAD_5: u32 = 101;
    pub const NUMPAD_6: u32 = 102;
    pub const NUMPAD_7: u32 = 103;
    pub const NUMPAD_8: u32 = 104;
    pub const NUMPAD_9: u32 = 105;
    pub const NUMPAD_MULTIPLY: u32 = 106;
    pub const NUMPAD_ADD: u32 = 107;
    pub const NUMPAD_ENTER: u32 = 108;
    pub const NUMPAD_SUBTRACT: u32 = 109;
    pub const NUMPAD_DECIMAL: u32 = 110;
    pub const NUMPAD_DIVIDE: u32 = 111;
    pub const F1: u32 = 112;
    pub const F2: u32 = 113;
    pub const F3: u32 = 114;
    pub const F4: u32 = 115;
    pub const F5: u32 = 116;
    pub const F6: u32 = 117;
    pub const F7: u32 = 118;
    pub const F8: u32 = 119;
    pub const F9: u32 = 120;
    pub const F10: u32 = 121;
    pub const F11: u32 = 122;
    pub const F12: u32 = 123;
    pub const F13: u32 = 124;
    pub const F14: u32 = 125;
    pub const F15: u32 = 126;
    pub const F16: u32 = 127;
    pub const F17: u32 = 128;
    pub const F18: u32 = 129;
    pub const F19: u32 = 130;
    pub const F20: u32 = 131;
    pub const F21: u32 = 132;
    pub const F22: u32 = 133;
    pub const F23: u32 = 134;
    pub const F24: u32 = 135;
    pub const NUM_LOCK: u32 = 144;
    pub const SCROLL_LOCK: u32 = 145;
    pub const SEMICOLON: u32 = 186;
    pub const EQUAL: u32 = 187;
    pub const COMMA: u32 = 188;
    pub const MINUS: u32 = 189;
    pub const PERIOD: u32 = 190;
    pub const SLASH: u32 = 191;
    pub const BACKQUOTE: u32 = 192;
    pub const LEFTBRACKET: u32 = 219;
    pub const BACKSLASH: u32 = 220;
    pub const RIGHTBRACKET: u32 = 221;
    pub const QUOTE: u32 = 222;

    /// Wraps a raw code value; every value is admitted, defined or not.
    pub fn from_code(code: u32) -> (r: Self)
        ensures
            r.0 == code,
    {
        KeyCode(code)
    }

    /// The raw code value.
    pub fn value(self) -> (r: u32)
        ensures
            r == self.0,
    {
        self.0
    }
}

/// The subset of key identities that are mouse buttons.
#[derive(Debug, Copy, Clone, PartialEq, Eq, Hash, Structural)]
pub enum MouseButton {
    Unknown,
    Left,
    Right,
    Middle,
}

/// A key code used by SWF4-era key-press button handlers. Near-ASCII, but
/// deliberately distinct from [`KeyCode`]: conversion between the two is an
/// explicit partial lookup, never numeric identity.
#[derive(Debug, PartialEq, Eq, Copy, Clone, Structural)]
pub enum ButtonKeyCode {
    Unknown,
    Left,
    Right,
    Home,
    End,
    Insert,
    Delete,
    Backspace,
    Return,
    Up,
    Down,
    PgUp,
    PgDown,
    Tab,
    Escape,
    Space,
    Exclamation,
    DoubleQuote,
    NumberSign,
    Dollar,
    Percent,
    Ampersand,
    SingleQuote,
    LParen,
    RParen,
    Asterisk,
    Plus,
    Comma,
    Minus,
    Period,
    Slash,
    Zero,
    One,
    Two,
    Three,
    Four,
    Five,
    Six,
    Seven,
    Eight,
    Nine,
    Colon,
    Semicolon,
    LessThan,
    Equals,
    GreaterThan,
    Question,
    At,
    UppercaseA,
    UppercaseB,
    UppercaseC,
    UppercaseD,
    UppercaseE,
    UppercaseF,
    UppercaseG,
    UppercaseH,
    UppercaseI,
    UppercaseJ,
    UppercaseK,
    UppercaseL,
    UppercaseM,
    UppercaseN,
    UppercaseO,
    UppercaseP,
    UppercaseQ,
    UppercaseR,
    UppercaseS,
    UppercaseT,
    UppercaseU,
    UppercaseV,
    UppercaseW,
    UppercaseX,
    UppercaseY,
    UppercaseZ,
    LBracket,
    Backslash,
    RBracket,
    Caret,
    Underscore,
    Backquote,
    A,
    B,
    C,
    D,
    E,
    F,
    G,
    H,
    I,
    J,
    K,
    L,
    M,
    N,
    O,
    P,
    Q,
    R,
    S,
    T,
    U,
    V,
    W,
    X,
    Y,
    Z,
    LBrace,
    Pipe,
    RBrace,
    Tilde,
}

/// A raw key or text input occurrence, as the host layer hands it in: one
/// discrete key transition or one produced codepoint.
#[derive(Debug, Clone, Copy, PartialEq, Eq, Structural)]
pub enum InputEvent {
    KeyDown { key_code: KeyCode },
    KeyUp { key_code: KeyCode },
    TextInput { codepoint: char },
}

/// True when `n` is the numeric code of some SWF4-era key-press code: the
/// navigation and editing block below 32, or printable ASCII.
pub open spec fn is_button_key_code(n: u8) -> bool {
    n <= 6 || n == 8 || (13 <= n && n <= 19) || (32 <= n && n <= 126)
}

impl ButtonKeyCode {
    /// The numeric code of this key-press code in the legacy format.
    pub open spec fn spec_code(self) -> u8 {
        match self {
            ButtonKeyCode::Unknown => 0,
            ButtonKeyCode::Left => 1,
            ButtonKeyCode::Right => 2,
            ButtonKeyCode::Home => 3,
            ButtonKeyCode::End => 4,
            ButtonKeyCode::Insert => 5,
            ButtonKeyCode::Delete => 6,
            ButtonKeyCode::Backspace => 8,
            ButtonKeyCode::Return => 13,
            ButtonKeyCode::Up => 14,
            ButtonKeyCode::Down => 15,
            ButtonKeyCode::PgUp => 16,
            ButtonKeyCode::PgDown => 17,
            ButtonKeyCode::Tab => 18,
            ButtonKeyCode::Escape => 19,
            ButtonKeyCode::Space => 32,
            ButtonKeyCode::Exclamation => 33,
            ButtonKeyCode::DoubleQuote => 34,
            ButtonKeyCode::NumberSign => 35,
            ButtonKeyCode::Dollar => 36,
            ButtonKeyCode::Percent => 37,
            ButtonKeyCode::Ampersand => 38,
            ButtonKeyCode::SingleQuote => 39,
            ButtonKeyCode::LParen => 40,
            ButtonKeyCode::RParen => 41,
            ButtonKeyCode::Asterisk => 42,
            ButtonKeyCode::Plus => 43,
            ButtonKeyCode::Comma => 44,
            ButtonKeyCode::Minus => 45,
            ButtonKeyCode::Period => 46,
            ButtonKeyCode::Slash => 47,
            ButtonKeyCode::Zero => 48,
            ButtonKeyCode::One => 49,
            ButtonKeyCode::Two => 50,
            ButtonKeyCode::Three => 51,
            ButtonKeyCode::Four => 52,
            ButtonKeyCode::Five => 53,
            ButtonKeyCode::Six => 54,
            ButtonKeyCode::Seven => 55,
            ButtonKeyCode::Eight => 56,
            ButtonKeyCode::Nine => 57,
            ButtonKeyCode::Colon => 58,
            ButtonKeyCode::Semicolon => 59,
            ButtonKeyCode::LessThan => 60,
            ButtonKeyCode::Equals => 61,
            ButtonKeyCode::GreaterThan => 62,
            ButtonKeyCode::Question => 63,
            ButtonKeyCode::At => 64,
            ButtonKeyCode::UppercaseA => 65,
            ButtonKeyCode::UppercaseB => 66,
            ButtonKeyCode::UppercaseC => 67,
            ButtonKeyCode::UppercaseD => 68,
            ButtonKeyCode::UppercaseE => 69,
            ButtonKeyCode::UppercaseF => 70,
            ButtonKeyCode::UppercaseG => 71,
            ButtonKeyCode::UppercaseH => 72,
            ButtonKeyCode::UppercaseI => 73,
            ButtonKeyCode::UppercaseJ => 74,
            ButtonKeyCode::UppercaseK => 75,
            ButtonKeyCode::UppercaseL => 76,
            ButtonKeyCode::UppercaseM => 77,
            ButtonKeyCode::UppercaseN => 78,
            ButtonKeyCode::UppercaseO => 79,
            ButtonKeyCode::UppercaseP => 80,
            ButtonKeyCode::UppercaseQ => 81,
            ButtonKeyCode::UppercaseR => 82,
            ButtonKeyCode::UppercaseS => 83,
            ButtonKeyCode::UppercaseT => 84,
            ButtonKeyCode::UppercaseU => 85,
            ButtonKeyCode::UppercaseV => 86,
            ButtonKeyCode::UppercaseW => 87,
            ButtonKeyCode::UppercaseX => 88,
            ButtonKeyCode::UppercaseY => 89,
            ButtonKeyCode::UppercaseZ => 90,
            ButtonKeyCode::LBracket => 91,
            ButtonKeyCode::Backslash => 92,
            ButtonKeyCode::RBracket => 93,
            ButtonKeyCode::Caret => 94,
            ButtonKeyCode::Underscore => 95,
            ButtonKeyCode::Backquote => 96,
            ButtonKeyCode::A => 97,
            ButtonKeyCode::B => 98,
            ButtonKeyCode::C => 99,
            ButtonKeyCode::D => 100,
            ButtonKeyCode::E => 101,
            ButtonKeyCode::F => 102,
            ButtonKeyCode::G => 103,
            ButtonKeyCode::H => 104,
            ButtonKeyCode::I => 105,
            ButtonKeyCode::J => 106,
            ButtonKeyCode::K => 107,
            ButtonKeyCode::L => 108,
            ButtonKeyCode::M => 109,
            ButtonKeyCode::N => 110,
            ButtonKeyCode::O => 111,
            ButtonKeyCode::P => 112,
            ButtonKeyCode::Q => 113,
            ButtonKeyCode::R => 114,
            ButtonKeyCode::S => 115,
            ButtonKeyCode::T => 116,
            ButtonKeyCode::U => 117,
            ButtonKeyCode::V => 118,
            ButtonKeyCode::W => 119,
            ButtonKeyCode::X => 120,
            ButtonKeyCode::Y => 121,
            ButtonKeyCode::Z => 122,
            ButtonKeyCode::LBrace => 123,
            ButtonKeyCode::Pipe => 124,
            ButtonKeyCode::RBrace => 125,
            ButtonKeyCode::Tilde => 126,
        }
    }

    /// The explicit partial lookup from legacy key identities to key-press
    /// codes: only navigation and editing keys with a legacy analogue map;
    /// every other key identity maps to nothing.
    pub open spec fn spec_from_key_code(key_code: KeyCode) -> Option<ButtonKeyCode> {
        if key_code.0 == KeyCode::LEFT {
            Some(ButtonKeyCode::Left)
        } else if key_code.0 == KeyCode::RIGHT {
            Some(ButtonKeyCode::Right)
        } else if key_code.0 == KeyCode::HOME {
            Some(ButtonKeyCode::Home)
        } else if key_code.0 == KeyCode::END {
            Some(ButtonKeyCode::End)
        } else if key_code.0 == KeyCode::INSERT {
            Some(ButtonKeyCode::Insert)
        } else if key_code.0 == KeyCode::DELETE {
            Some(ButtonKeyCode::Delete)
        } else if key_code.0 == KeyCode::BACKSPACE {
            Some(ButtonKeyCode::Backspace)
        } else if key_code.0 == KeyCode::ENTER {
            Some(ButtonKeyCode::Return)
        } else if key_code.0 == KeyCode::UP {
            Some(ButtonKeyCode::Up)
        } else if key_code.0 == KeyCode::DOWN {
            Some(ButtonKeyCode::Down)
        } else if key_code.0 == KeyCode::PAGE_UP {
            Some(ButtonKeyCode::PgUp)
        } else if key_code.0 == KeyCode::PAGE_DOWN {
            Some(ButtonKeyCode::PgDown)
        } else if key_code.0 == KeyCode::ESCAPE {
            Some(ButtonKeyCode::Escape)
        } else if key_code.0 == KeyCode::TAB {
            Some(ButtonKeyCode::Tab)
        } else {
            None
        }
    }

    /// The validated constructor from a raw legacy code value: exactly the
    /// defined code values are admitted, each to the key-press code that
    /// carries it (unique, by [`lemma_button_key_code_injective`]);
    /// out-of-range or reserved values yield nothing rather than aliasing a
    /// defined code.
    pub fn from_u8(n: u8) -> (r: Option<Self>)
        ensures
            r is Some <==> is_button_key_code(n),
            r matches Some(k) ==> k.spec_code() == n,
    {
        match n {
            0u8 => Some(ButtonKeyCode::Unknown),
            1u8 => Some(ButtonKeyCode::Left),
            2u8 => Some(ButtonKeyCode::Right),
            3u8 => Some(ButtonKeyCode::Home),
            4u8 => Some(ButtonKeyCode::End),
            5u8 => Some(ButtonKeyCode::Insert),
            6u8 => Some(ButtonKeyCode::Delete),
            8u8 => Some(ButtonKeyCode::Backspace),
            13u8 => Some(ButtonKeyCode::Return),
            14u8 => Some(ButtonKeyCode::Up),
            15u8 => Some(ButtonKeyCode::Down),
            16u8 => Some(ButtonKeyCode::PgUp),
            17u8 => Some(ButtonKeyCode::PgDown),
            18u8 => Some(ButtonKeyCode::Tab),
            19u8 => Some(ButtonKeyCode::Escape),
            32u8 => Some(ButtonKeyCode::Space),
            33u8 => Some(ButtonKeyCode::Exclamation),
            34u8 => Some(ButtonKeyCode::DoubleQuote),
            35u8 => Some(ButtonKeyCode::NumberSign),
            36u8 => Some(ButtonKeyCode::Dollar),
            37u8 => Some(ButtonKeyCode::Percent),
            38u8 => Some(ButtonKeyCode::Ampersand),
            39u8 => Some(ButtonKeyCode::SingleQuote),
            40u8 => Some(ButtonKeyCode::LParen),
            41u8 => Some(ButtonKeyCode::RParen),
            42u8 => Some(ButtonKeyCode::Asterisk),
            43u8 => Some(ButtonKeyCode::Plus),
            44u8 => Some(ButtonKeyCode::Comma),
            45u8 => Some(ButtonKeyCode::Minus),
            46u8 => Some(ButtonKeyCode::Period),
            47u8 => Some(ButtonKeyCode::Slash),
            48u8 => Some(ButtonKeyCode::Zero),
            49u8 => Some(ButtonKeyCode::One),
            50u8 => Some(ButtonKeyCode::Two),
            51u8 => Some(ButtonKeyCode::Three),
            52u8 => Some(ButtonKeyCode::Four),
            53u8 => Some(ButtonKeyCode::Five),
            54u8 => Some(ButtonKeyCode::Six),
            55u8 => Some(ButtonKeyCode::Seven),
            56u8 => Some(ButtonKeyCode::Eight),
            57u8 => Some(ButtonKeyCode::Nine),
            58u8 => Some(ButtonKeyCode::Colon),
            59u8 => Some(ButtonKeyCode::Semicolon),
            60u8 => Some(ButtonKeyCode::LessThan),
            61u8 => Some(ButtonKeyCode::Equals),
            62u8 => Some(ButtonKeyCode::GreaterThan),
            63u8 => Some(ButtonKeyCode::Question),
            64u8 => Some(ButtonKeyCode::At),
            65u8 => Some(ButtonKeyCode::UppercaseA),
            66u8 => Some(ButtonKeyCode::UppercaseB),
            67u8 => Some(ButtonKeyCode::UppercaseC),
            68u8 => Some(ButtonKeyCode::UppercaseD),
            69u8 => Some(ButtonKeyCode::UppercaseE),
            70u8 => Some(ButtonKeyCode::UppercaseF),
            71u8 => Some(ButtonKeyCode::UppercaseG),
            72u8 => Some(ButtonKeyCode::UppercaseH),
            73u8 => Some(ButtonKeyCode::UppercaseI),
            74u8 => Some(ButtonKeyCode::UppercaseJ),
            75u8 => Some(ButtonKeyCode::UppercaseK),
            76u8 => Some(ButtonKeyCode::UppercaseL),
            77u8 => Some(ButtonKeyCode::UppercaseM),
            78u8 => Some(ButtonKeyCode::UppercaseN),
            79u8 => Some(ButtonKeyCode::UppercaseO),
            80u8 => Some(ButtonKeyCode::UppercaseP),
            81u8 => Some(ButtonKeyCode::UppercaseQ),
            82u8 => Some(ButtonKeyCode::UppercaseR),
            83u8 => Some(ButtonKeyCode::UppercaseS),
            84u8 => Some(ButtonKeyCode::UppercaseT),
            85u8 => Some(ButtonKeyCode::UppercaseU),
            86u8 => Some(ButtonKeyCode::UppercaseV),
            87u8 => Some(ButtonKeyCode::UppercaseW),
            88u8 => Some(ButtonKeyCode::UppercaseX),
            89u8 => Some(ButtonKeyCode::UppercaseY),
            90u8 => Some(ButtonKeyCode::UppercaseZ),
            91u8 => Some(ButtonKeyCode::LBracket),
            92u8 => Some(ButtonKeyCode::Backslash),
            93u8 => Some(ButtonKeyCode::RBracket),
            94u8 => Some(ButtonKeyCode::Caret),
            95u8 => Some(ButtonKeyCode::Underscore),
            96u8 => Some(ButtonKeyCode::Backquote),
            97u8 => Some(ButtonKeyCode::A),
            98u8 => Some(ButtonKeyCode::B),
            99u8 => Some(ButtonKeyCode::C),
            100u8 => Some(ButtonKeyCode::D),
            101u8 => Some(ButtonKeyCode::E),
            102u8 => Some(ButtonKeyCode::F),
            103u8 => Some(ButtonKeyCode::G),
            104u8 => Some(ButtonKeyCode::H),
            105u8 => Some(ButtonKeyCode::I),
            106u8 => Some(ButtonKeyCode::J),
            107u8 => Some(ButtonKeyCode::K),
            108u8 => Some(ButtonKeyCode::L),
            109u8 => Some(ButtonKeyCode::M),
            110u8 => Some(ButtonKeyCode::N),
            111u8 => Some(ButtonKeyCode::O),
            112u8 => Some(ButtonKeyCode::P),
            113u8 => Some(ButtonKeyCode::Q),
            114u8 => Some(ButtonKeyCode::R),
            115u8 => Some(ButtonKeyCode::S),
            116u8 => Some(ButtonKeyCode::T),
            117u8 => Some(ButtonKeyCode::U),
            118u8 => Some(ButtonKeyCode::V),
            119u8 => Some(ButtonKeyCode::W),
            120u8 => Some(ButtonKeyCode::X),
            121u8 => Some(ButtonKeyCode::Y),
            122u8 => Some(ButtonKeyCode::Z),
            123u8 => Some(ButtonKeyCode::LBrace),
            124u8 => Some(ButtonKeyCode::Pipe),
            125u8 => Some(ButtonKeyCode::RBrace),
            126u8 => Some(ButtonKeyCode::Tilde),
            _ => None,
        }
    }

    /// The explicit partial lookup from legacy key identities to key-press
    /// codes (see [`ButtonKeyCode::spec_from_key_code`]).
    pub fn from_key_code(key_code: KeyCode) -> (r: Option<Self>)
        ensures
            r == Self::spec_from_key_code(key_code),
    {
        let v: u32 = key_code.0;
        if v == KeyCode::LEFT {
            Some(ButtonKeyCode::Left)
        } else if v == KeyCode::RIGHT {
            Some(ButtonKeyCode::Right)
        } else if v == KeyCode::HOME {
            Some(ButtonKeyCode::Home)
        } else if v == KeyCode::END {
            Some(ButtonKeyCode::End)
        } else if v == KeyCode::INSERT {
            Some(ButtonKeyCode::Insert)
        } else if v == KeyCode::DELETE {
            Some(ButtonKeyCode::Delete)
        } else if v == KeyCode::BACKSPACE {
            Some(ButtonKeyCode::Backspace)
        } else if v == KeyCode::ENTER {
            Some(ButtonKeyCode::Return)
        } else if v == KeyCode::UP {
            Some(ButtonKeyCode::Up)
        } else if v == KeyCode::DOWN {
            Some(ButtonKeyCode::Down)
        } else if v == KeyCode::PAGE_UP {
            Some(ButtonKeyCode::PgUp)
        } else if v == KeyCode::PAGE_DOWN {
            Some(ButtonKeyCode::PgDown)
        } else if v == KeyCode::ESCAPE {
            Some(ButtonKeyCode::Escape)
        } else if v == KeyCode::TAB {
            Some(ButtonKeyCode::Tab)
        } else {
            None
        }
    }

    /// Resolves a raw input occurrence to a legacy key-press code: printable
    /// ASCII codepoints (32 through 126) map directly by numeric identity,
    /// key-down occurrences are resolved through the explicit key-identity
    /// table, and any other occurrence yields nothing.
    pub fn from_input_event(event: &InputEvent) -> (r: Option<Self>)
        ensures
            match *event {
                InputEvent::TextInput { codepoint } => {
                    &&& r is Some <==> 32 <= codepoint as u32 && codepoint as u32 <= 126
                    &&& (r matches Some(k) ==> k.spec_code() as u32 == codepoint as u32)
                },
                InputEvent::KeyDown { key_code } => r == Self::spec_from_key_code(key_code),
                InputEvent::KeyUp { .. } => r is None,
            },
    {
        match event {
            InputEvent::TextInput { codepoint } => {
                let n: u32 = *codepoint as u32;
                if 32 <= n && n <= 126 {
                    Self::from_u8(n as u8)
                } else {
                    None
                }
            },
            InputEvent::KeyDown { key_code } => Self::from_key_code(*key_code),
            InputEvent::KeyUp { .. } => None,
        }
    }

    /// The numeric code of this key-press code in the legacy format.
    pub fn to_u8(&self) -> (r: u8)
        ensures
            r == self.spec_code(),
    {
        match self {
            ButtonKeyCode::Unknown => 0,
            ButtonKeyCode::Left => 1,
            ButtonKeyCode::Right => 2,
            ButtonKeyCode::Home => 3,
            ButtonKeyCode::End => 4,
            ButtonKeyCode::Insert => 5,
            ButtonKeyCode::Delete => 6,
            ButtonKeyCode::Backspace => 8,
            ButtonKeyCode::Return => 13,
            ButtonKeyCode::Up => 14,
            ButtonKeyCode::Down => 15,
            ButtonKeyCode::PgUp => 16,
            ButtonKeyCode::PgDown => 17,
            ButtonKeyCode::Tab => 18,
            ButtonKeyCode::Escape => 19,
            ButtonKeyCode::Space => 32,
            ButtonKeyCode::Exclamation => 33,
            ButtonKeyCode::DoubleQuote => 34,
            ButtonKeyCode::NumberSign => 35,
            ButtonKeyCode::Dollar => 36,
            ButtonKeyCode::Percent => 37,
            ButtonKeyCode::Ampersand => 38,
            ButtonKeyCode::SingleQuote => 39,
            ButtonKeyCode::LParen => 40,
            ButtonKeyCode::RParen => 41,
            ButtonKeyCode::Asterisk => 42,
            ButtonKeyCode::Plus => 43,
            ButtonKeyCode::Comma => 44,
            ButtonKeyCode::Minus => 45,
            ButtonKeyCode::Period => 46,
            ButtonKeyCode::Slash => 47,
            ButtonKeyCode::Zero => 48,
            ButtonKeyCode::One => 49,
            ButtonKeyCode::Two => 50,
            ButtonKeyCode::Three => 51,
            ButtonKeyCode::Four => 52,
            ButtonKeyCode::Five => 53,
            ButtonKeyCode::Six => 54,
            ButtonKeyCode::Seven => 55,
            ButtonKeyCode::Eight => 56,
            ButtonKeyCode::Nine => 57,
            ButtonKeyCode::Colon => 58,
            ButtonKeyCode::Semicolon => 59,
            ButtonKeyCode::LessThan => 60,
            ButtonKeyCode::Equals => 61,
            ButtonKeyCode::GreaterThan => 62,
            ButtonKeyCode::Question => 63,
            ButtonKeyCode::At => 64,
            ButtonKeyCode::UppercaseA => 65,
            ButtonKeyCode::UppercaseB => 66,
            ButtonKeyCode::UppercaseC => 67,
            ButtonKeyCode::UppercaseD => 68,
            ButtonKeyCode::UppercaseE => 69,
            ButtonKeyCode::UppercaseF => 70,
            ButtonKeyCode::UppercaseG => 71,
            ButtonKeyCode::UppercaseH => 72,
            ButtonKeyCode::UppercaseI => 73,
            ButtonKeyCode::UppercaseJ => 74,
            ButtonKeyCode::UppercaseK => 75,
            ButtonKeyCode::UppercaseL => 76,
            ButtonKeyCode::UppercaseM => 77,
            ButtonKeyCode::UppercaseN => 78,
            ButtonKeyCode::UppercaseO => 79,
            ButtonKeyCode::UppercaseP => 80,
            ButtonKeyCode::UppercaseQ => 81,
            ButtonKeyCode::UppercaseR => 82,
            ButtonKeyCode::UppercaseS => 83,
            ButtonKeyCode::UppercaseT => 84,
            ButtonKeyCode::UppercaseU => 85,
            ButtonKeyCode::UppercaseV => 86,
            ButtonKeyCode::UppercaseW => 87,
            ButtonKeyCode::UppercaseX => 88,
            ButtonKeyCode::UppercaseY => 89,
            ButtonKeyCode::UppercaseZ => 90,
            ButtonKeyCode::LBracket => 91,
            ButtonKeyCode::Backslash => 92,
            ButtonKeyCode::RBracket => 93,
            ButtonKeyCode::Caret => 94,
            ButtonKeyCode::Underscore => 95,
            ButtonKeyCode::Backquote => 96,
            ButtonKeyCode::A => 97,
            ButtonKeyCode::B => 98,
            ButtonKeyCode::C => 99,
            ButtonKeyCode::D => 100,
            ButtonKeyCode::E => 101,
            ButtonKeyCode::F => 102,
            ButtonKeyCode::G => 103,
            ButtonKeyCode::H => 104,
            ButtonKeyCode::I => 105,
            ButtonKeyCode::J => 106,
            ButtonKeyCode::K => 107,
            ButtonKeyCode::L => 108,
            ButtonKeyCode::M => 109,
            ButtonKeyCode::N => 110,
            ButtonKeyCode::O => 111,
            ButtonKeyCode::P => 112,
            ButtonKeyCode::Q => 113,
            ButtonKeyCode::R => 114,
            ButtonKeyCode::S => 115,
            ButtonKeyCode::T => 116,
            ButtonKeyCode::U => 117,
            ButtonKeyCode::V => 118,
            ButtonKeyCode::W => 119,
            ButtonKeyCode::X => 120,
            ButtonKeyCode::Y => 121,
            ButtonKeyCode::Z => 122,
            ButtonKeyCode::LBrace => 123,
            ButtonKeyCode::Pipe => 124,
            ButtonKeyCode::RBrace => 125,
            ButtonKeyCode::Tilde => 126,
        }
    }
}

/// No two distinct key-press codes share a numeric code, so a code value
/// determines the key-press code it resolves to.
pub proof fn lemma_button_key_code_injective(a: ButtonKeyCode, b: ButtonKeyCode)
    requires
        a.spec_code() == b.spec_code(),
    ensures
        a == b,
{
}

impl From<MouseButton> for KeyCode {
    /// The key identity of a mouse button.
    fn from(button: MouseButton) -> (r: Self) {
        match button {
            MouseButton::Unknown => KeyCode(KeyCode::UNKNOWN),
            MouseButton::Left => KeyCode(KeyCode::MOUSE_LEFT),
            MouseButton::Right => KeyCode(KeyCode::MOUSE_RIGHT),
            MouseButton::Middle => KeyCode(KeyCode::MOUSE_MIDDLE),
        }
    }
}

impl vstd::std_specs::convert::FromSpecImpl<MouseButton> for KeyCode {
    open spec fn obeys_from_spec() -> bool {
        true
    }

    open spec fn from_spec(button: MouseButton) -> Self {
        match button {
            MouseButton::Unknown => KeyCode(KeyCode::UNKNOWN),
            MouseButton::Left => KeyCode(KeyCode::MOUSE_LEFT),
            MouseButton::Right => KeyCode(KeyCode::MOUSE_RIGHT),
            MouseButton::Middle => KeyCode(KeyCode::MOUSE_MIDDLE),
        }
    }
}

} // verus!
