use input_events::ButtonKeyCode;
use input_events::InputEvent;
use input_events::KeyCode;
use input_events::MouseButton;

/// The code values the SWF4 key-press format defines.
fn is_defined_code(n: u8) -> bool {
    n <= 6 || n == 8 || (13..=19).contains(&n) || (32..=126).contains(&n)
}

#[test]
fn key_code_wraps_and_returns_its_value() {
    assert_eq!(KeyCode::from_code(13).value(), 13);
    assert_eq!(KeyCode::from_code(KeyCode::ENTER).value(), 13);
    assert_eq!(KeyCode::from_code(0xDEAD).value(), 0xDEAD);
    assert_eq!(KeyCode::UNKNOWN, 0);
    assert_eq!(KeyCode::SPACE, 32);
    assert_eq!(KeyCode::A, 65);
    assert_eq!(KeyCode::F1, 112);
    assert_eq!(KeyCode::QUOTE, 222);
}

#[test]
fn mouse_buttons_map_to_their_key_identities() {
    assert_eq!(KeyCode::from(MouseButton::Unknown).value(), 0);
    assert_eq!(KeyCode::from(MouseButton::Left).value(), 1);
    assert_eq!(KeyCode::from(MouseButton::Right).value(), 2);
    assert_eq!(KeyCode::from(MouseButton::Middle).value(), 4);
}

#[test]
fn from_u8_admits_exactly_the_defined_codes() {
    for n in 0..=255u16 {
        let n = n as u8;
        match ButtonKeyCode::from_u8(n) {
            Some(k) => {
                assert!(is_defined_code(n), "{n} wrongly admitted");
                assert_eq!(k.to_u8(), n, "{n} mapped to a code other than itself");
            }
            None => assert!(!is_defined_code(n), "{n} wrongly rejected"),
        }
    }
}

#[test]
fn from_u8_spot_values() {
    assert_eq!(ButtonKeyCode::from_u8(0), Some(ButtonKeyCode::Unknown));
    assert_eq!(ButtonKeyCode::from_u8(7), None);
    assert_eq!(ButtonKeyCode::from_u8(12), None);
    assert_eq!(ButtonKeyCode::from_u8(13), Some(ButtonKeyCode::Return));
    assert_eq!(ButtonKeyCode::from_u8(19), Some(ButtonKeyCode::Escape));
    assert_eq!(ButtonKeyCode::from_u8(20), None);
    assert_eq!(ButtonKeyCode::from_u8(31), None);
    assert_eq!(ButtonKeyCode::from_u8(32), Some(ButtonKeyCode::Space));
    assert_eq!(ButtonKeyCode::from_u8(65), Some(ButtonKeyCode::UppercaseA));
    assert_eq!(ButtonKeyCode::from_u8(97), Some(ButtonKeyCode::A));
    assert_eq!(ButtonKeyCode::from_u8(126), Some(ButtonKeyCode::Tilde));
    assert_eq!(ButtonKeyCode::from_u8(127), None);
    assert_eq!(ButtonKeyCode::from_u8(255), None);
}

#[test]
fn from_key_code_covers_the_legacy_table() {
    let table: Vec<(u32, ButtonKeyCode)> = vec![
        (KeyCode::LEFT, ButtonKeyCode::Left),
        (KeyCode::RIGHT, ButtonKeyCode::Right),
        (KeyCode::HOME, ButtonKeyCode::Home),
        (KeyCode::END, ButtonKeyCode::End),
        (KeyCode::INSERT, ButtonKeyCode::Insert),
        (KeyCode::DELETE, ButtonKeyCode::Delete),
        (KeyCode::BACKSPACE, ButtonKeyCode::Backspace),
        (KeyCode::ENTER, ButtonKeyCode::Return),
        (KeyCode::UP, ButtonKeyCode::Up),
        (KeyCode::DOWN, ButtonKeyCode::Down),
        (KeyCode::PAGE_UP, ButtonKeyCode::PgUp),
        (KeyCode::PAGE_DOWN, ButtonKeyCode::PgDown),
        (KeyCode::ESCAPE, ButtonKeyCode::Escape),
        (KeyCode::TAB, ButtonKeyCode::Tab),
    ];
    for (code, expected) in table {
        assert_eq!(
            ButtonKeyCode::from_key_code(KeyCode::from_code(code)),
            Some(expected),
            "{code}"
        );
    }
}

#[test]
fn from_key_code_rejects_keys_without_a_legacy_analogue() {
    assert_eq!(ButtonKeyCode::from_key_code(KeyCode::from_code(KeyCode::F1)), None);
    assert_eq!(ButtonKeyCode::from_key_code(KeyCode::from_code(KeyCode::A)), None);
    assert_eq!(ButtonKeyCode::from_key_code(KeyCode::from_code(KeyCode::SPACE)), None);
    assert_eq!(ButtonKeyCode::from_key_code(KeyCode::from_code(KeyCode::SHIFT)), None);
    assert_eq!(ButtonKeyCode::from_key_code(KeyCode::from_code(0)), None);
}

#[test]
fn text_input_resolves_printable_ascii_directly() {
    assert_eq!(
        ButtonKeyCode::from_input_event(&InputEvent::TextInput { codepoint: 'A' }),
        Some(ButtonKeyCode::UppercaseA)
    );
    assert_eq!(
        ButtonKeyCode::from_input_event(&InputEvent::TextInput { codepoint: ' ' }),
        Some(ButtonKeyCode::Space)
    );
    assert_eq!(
        ButtonKeyCode::from_input_event(&InputEvent::TextInput { codepoint: '~' }),
        Some(ButtonKeyCode::Tilde)
    );
    assert_eq!(ButtonKeyCode::UppercaseA.to_u8(), 65);
}

#[test]
fn text_input_outside_printable_ascii_resolves_to_nothing() {
    assert_eq!(
        ButtonKeyCode::from_input_event(&InputEvent::TextInput { codepoint: '\u{1F}' }),
        None
    );
    assert_eq!(
        ButtonKeyCode::from_input_event(&InputEvent::TextInput { codepoint: '\u{7F}' }),
        None
    );
    assert_eq!(
        ButtonKeyCode::from_input_event(&InputEvent::TextInput { codepoint: '\u{E9}' }),
        None
    );
}

#[test]
fn key_down_resolves_through_the_legacy_table() {
    assert_eq!(
        ButtonKeyCode::from_input_event(&InputEvent::KeyDown {
            key_code: KeyCode::from_code(KeyCode::ENTER)
        }),
        Some(ButtonKeyCode::Return)
    );
    assert_eq!(
        ButtonKeyCode::from_input_event(&InputEvent::KeyDown {
            key_code: KeyCode::from_code(KeyCode::F1)
        }),
        None
    );
    assert_eq!(
        ButtonKeyCode::from_input_event(&InputEvent::KeyUp {
            key_code: KeyCode::from_code(KeyCode::ENTER)
        }),
        None
    );
}
