//! Platform-neutral key identity: physical position, layout-resolved
//! meaning, and location.

use vstd::prelude::*;

verus! {

/// A physical key: a position that exists on a keyboard (or a comparable
/// device), independent of any layout. Pressing the same physical key under
/// different layouts produces different logical keys.
#[derive(Debug, Clone, Copy, PartialEq, Eq, Hash, Structural)]
pub enum PhysicalKey {
    Unknown,
    // Alphanumeric section
    Backquote,
    Digit0,
    Digit1,
    Digit2,
    Digit4,
    Digit3,
    Digit5,
    Digit6,
    Digit7,
    Digit8,
    Digit9,
    Minus,
    Equal,
    IntlYen,
    KeyA,
    KeyB,
    KeyC,
    KeyD,
    KeyE,
    KeyF,
    KeyG,
    KeyH,
    KeyI,
    KeyJ,
    KeyK,
    KeyL,
    KeyM,
    KeyN,
    KeyO,
    KeyP,
    KeyQ,
    KeyR,
    KeyS,
    KeyT,
    KeyU,
    KeyV,
    KeyW,
    KeyX,
    KeyY,
    KeyZ,
    BracketLeft,
    BracketRight,
    Backslash,
    Semicolon,
    Quote,
    IntlBackslash,
    Comma,
    Period,
    Slash,
    IntlRo,
    Backspace,
    Tab,
    CapsLock,
    Enter,
    ShiftLeft,
    ShiftRight,
    ControlLeft,
    SuperLeft,
    AltLeft,
    Space,
    AltRight,
    SuperRight,
    ContextMenu,
    ControlRight,
    // Control pad section
    Insert,
    Delete,
    Home,
    End,
    PageUp,
    PageDown,
    // Arrow pad section
    ArrowUp,
    ArrowLeft,
    ArrowDown,
    ArrowRight,
    // Numpad section
    NumLock,
    NumpadDivide,
    NumpadMultiply,
    NumpadSubtract,
    Numpad7,
    Numpad8,
    Numpad9,
    Numpad4,
    Numpad5,
    Numpad6,
    Numpad1,
    Numpad2,
    Numpad3,
    Numpad0,
    NumpadAdd,
    NumpadComma,
    NumpadEnter,
    NumpadDecimal,
    // Function section
    Escape,
    F1,
    F2,
    F3,
    F4,
    F5,
    F6,
    F7,
    F8,
    F9,
    F10,
    F11,
    F12,
    F13,
    F14,
    F15,
    F16,
    F17,
    F18,
    F19,
    F20,
    F21,
    F22,
    F23,
    F24,
    F25,
    F26,
    F27,
    F28,
    F29,
    F30,
    F31,
    F32,
    F33,
    F34,
    F35,
    Fn,
    FnLock,
    PrintScreen,
    ScrollLock,
    Pause,
}

impl Default for PhysicalKey {
    /// An unrecognized physical key: the taxonomy's zero value.
    fn default() -> (r: Self)
        ensures
            r == PhysicalKey::Unknown,
    {
        PhysicalKey::Unknown
    }
}

/// A named logical key: a layout-resolved key meaning that produces no
/// character of its own.
#[derive(Debug, Clone, Copy, PartialEq, Eq, Hash, Structural)]
pub enum NamedKey {
    // Modifier keys
    Alt,
    AltGraph,
    CapsLock,
    Control,
    Fn,
    FnLock,
    Super,
    NumLock,
    ScrollLock,
    Shift,
    Symbol,
    SymbolLock,
    // Whitespace keys
    Enter,
    Tab,
    // Navigation keys
    ArrowDown,
    ArrowLeft,
    ArrowRight,
    ArrowUp,
    End,
    Home,
    PageDown,
    PageUp,
    // Editing keys
    Backspace,
    Clear,
    Copy,
    CrSel,
    Cut,
    Delete,
    EraseEof,
    ExSel,
    Insert,
    Paste,
    Redo,
    Undo,
    // UI keys
    ContextMenu,
    Escape,
    Pause,
    Play,
    Select,
    ZoomIn,
    ZoomOut,
    // Device keys
    PrintScreen,
    // General-purpose function keys
    F1,
    F2,
    F3,
    F4,
    F5,
    F6,
    F7,
    F8,
    F9,
    F10,
    F11,
    F12,
    F13,
    F14,
    F15,
    F16,
    F17,
    F18,
    F19,
    F20,
    F21,
    F22,
    F23,
    F24,
    F25,
    F26,
    F27,
    F28,
    F29,
    F30,
    F31,
    F32,
    F33,
    F34,
    F35,
}

/// A logical key: the layout-resolved meaning behind a pressed physical
/// key. Most keys resolve to a character; keys that produce none resolve to
/// a named key.
#[derive(Debug, Clone, Copy, PartialEq, Eq, Hash, Structural)]
pub enum LogicalKey {
    Unknown,
    Character(char),
    Named(NamedKey),
}

impl LogicalKey {
    /// The derived, partial character projection: explicit character
    /// payloads pass through, and a fixed small set of named control keys
    /// projects to its historical single-byte control-character equivalent;
    /// every other logical key projects to nothing.
    pub open spec fn spec_character(self) -> Option<char> {
        match self {
            LogicalKey::Unknown => None,
            LogicalKey::Character(ch) => Some(ch),
            LogicalKey::Named(NamedKey::Backspace) => Some('\u{0008}'),
            LogicalKey::Named(NamedKey::Tab) => Some('\u{0009}'),
            LogicalKey::Named(NamedKey::Enter) => Some('\u{000D}'),
            LogicalKey::Named(NamedKey::Escape) => Some('\u{001B}'),
            LogicalKey::Named(NamedKey::Delete) => Some('\u{007F}'),
            LogicalKey::Named(_) => None,
        }
    }

    /// The character this logical key stands for, if any (see
    /// [`LogicalKey::spec_character`]).
    pub fn character(self) -> (r: Option<char>)
        ensures
            r == self.spec_character(),
    {
        match self {
            LogicalKey::Unknown => None,
            LogicalKey::Character(ch) => Some(ch),
            LogicalKey::Named(NamedKey::Backspace) => Some('\u{0008}'),
            LogicalKey::Named(NamedKey::Tab) => Some('\u{0009}'),
            LogicalKey::Named(NamedKey::Enter) => Some('\u{000D}'),
            LogicalKey::Named(NamedKey::Escape) => Some('\u{001B}'),
            LogicalKey::Named(NamedKey::Delete) => Some('\u{007F}'),
            LogicalKey::Named(_) => None,
        }
    }
}

/// Where on the keyboard the pressed key sits, for keys that exist in more
/// than one place.
#[derive(Debug, Clone, Copy, PartialEq, Eq, Hash, Structural)]
pub enum KeyLocation {
    Standard,
    Left,
    Right,
    Numpad,
}

/// The full identity of one key press: the physical key, its
/// layout-resolved logical meaning, and its location. Equality combines all
/// three fields.
#[derive(Debug, Clone, Copy, PartialEq, Eq, Hash, Structural)]
pub struct KeyDescriptor {
    pub physical_key: PhysicalKey,
    pub logical_key: LogicalKey,
    pub key_location: KeyLocation,
}

} // verus!
