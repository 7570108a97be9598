//! Normalized gamepad button identity and its string vocabulary.

use vstd::prelude::*;

verus! {

/// The unit error of parsing an enum identifier: the token was not in the
/// fixed vocabulary. Parsing is deterministic, so a retry cannot succeed;
/// the caller should report a configuration error rather than fall back to
/// some default button, which would silently misroute input.
#[derive(Debug, Clone, Copy, PartialEq, Eq, Structural)]
pub struct ParseEnumError;

/// A normalized gamepad button identity.
#[derive(Debug, PartialEq, Eq, Copy, Clone, Hash, Structural)]
pub enum GamepadButton {
    South,
    East,
    North,
    West,
    LeftTrigger,
    LeftTrigger2,
    RightTrigger,
    RightTrigger2,
    Select,
    Start,
    DPadUp,
    DPadDown,
    DPadLeft,
    DPadRight,
}

/// True exactly when the two strings hold the same characters.
fn str_eq(a: &str, b: &str) -> (r: bool)
    ensures
        r == (a@ == b@),
{
    let a_owned: String = a.to_owned();
    let b_owned: String = b.to_owned();
    a_owned == b_owned
}

impl GamepadButton {
    /// The kebab-case token that names this button in the fixed vocabulary.
    pub open spec fn spec_name(self) -> Seq<char> {
        match self {
            GamepadButton::South => "south"@,
            GamepadButton::East => "east"@,
            GamepadButton::North => "north"@,
            GamepadButton::West => "west"@,
            GamepadButton::LeftTrigger => "left-trigger"@,
            GamepadButton::LeftTrigger2 => "left-trigger-2"@,
            GamepadButton::RightTrigger => "right-trigger"@,
            GamepadButton::RightTrigger2 => "right-trigger-2"@,
            GamepadButton::Select => "select"@,
            GamepadButton::Start => "start"@,
            GamepadButton::DPadUp => "dpad-up"@,
            GamepadButton::DPadDown => "dpad-down"@,
            GamepadButton::DPadLeft => "dpad-left"@,
            GamepadButton::DPadRight => "dpad-right"@,
        }
    }

    /// Parses a button from its kebab-case token. Exactly the fixed
    /// vocabulary is accepted, each token to the button it names; any other
    /// string is a parse error, never a default button.
    pub fn from_str(s: &str) -> (r: Result<Self, ParseEnumError>)
        ensures
            match r {
                Ok(b) => s@ == b.spec_name(),
                Err(_) => forall|b: GamepadButton| s@ != b.spec_name(),
            },
    {
        if str_eq(s, "south") {
            Ok(GamepadButton::South)
        } else if str_eq(s, "east") {
            Ok(GamepadButton::East)
        } else if str_eq(s, "north") {
            Ok(GamepadButton::North)
        } else if str_eq(s, "west") {
            Ok(GamepadButton::West)
        } else if str_eq(s, "left-trigger") {
            Ok(GamepadButton::LeftTrigger)
        } else if str_eq(s, "left-trigger-2") {
            Ok(GamepadButton::LeftTrigger2)
        } else if str_eq(s, "right-trigger") {
            Ok(GamepadButton::RightTrigger)
        } else if str_eq(s, "right-trigger-2") {
            Ok(GamepadButton::RightTrigger2)
        } else if str_eq(s, "select") {
            Ok(GamepadButton::Select)
        } else if str_eq(s, "start") {
            Ok(GamepadButton::Start)
        } else if str_eq(s, "dpad-up") {
            Ok(GamepadButton::DPadUp)
        } else if str_eq(s, "dpad-down") {
            Ok(GamepadButton::DPadDown)
        } else if str_eq(s, "dpad-left") {
            Ok(GamepadButton::DPadLeft)
        } else if str_eq(s, "dpad-right") {
            Ok(GamepadButton::DPadRight)
        } else {
            Err(ParseEnumError)
        }
    }
}

/// No two distinct buttons share a token, so a token determines the button
/// it parses to.
pub proof fn lemma_gamepad_name_injective(a: GamepadButton, b: GamepadButton)
    requires
        a.spec_name() == b.spec_name(),
    ensures
        a == b,
{
    reveal_strlit("south");
    reveal_strlit("east");
    reveal_strlit("north");
    reveal_strlit("west");
    reveal_strlit("left-trigger");
    reveal_strlit("left-trigger-2");
    reveal_strlit("right-trigger");
    reveal_strlit("right-trigger-2");
    reveal_strlit("select");
    reveal_strlit("start");
    reveal_strlit("dpad-up");
    reveal_strlit("dpad-down");
    reveal_strlit("dpad-left");
    reveal_strlit("dpad-right");
    assert("south"@.len() == 5 && "east"@.len() == 4 && "north"@.len() == 5 && "west"@.len()
        == 4);
    assert("left-trigger"@.len() == 12 && "left-trigger-2"@.len() == 14 && "right-trigger"@.len()
        == 13 && "right-trigger-2"@.len() == 15);
    assert("select"@.len() == 6 && "start"@.len() == 5 && "dpad-up"@.len() == 7);
    assert("dpad-down"@.len() == 9 && "dpad-left"@.len() == 9 && "dpad-right"@.len() == 10);
    assert("south"@[0] == 's' && "north"@[0] == 'n' && "start"@[0] == 's');
    assert("south"@[1] == 'o' && "start"@[1] == 't');
    assert("east"@[0] == 'e' && "west"@[0] == 'w');
    assert("dpad-down"@[5] == 'd' && "dpad-left"@[5] == 'l');
}

} // verus!
