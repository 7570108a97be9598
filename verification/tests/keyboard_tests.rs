use input_events::KeyDescriptor;
use input_events::KeyLocation;
use input_events::LogicalKey;
use input_events::NamedKey;
use input_events::PhysicalKey;

#[test]
fn character_passes_explicit_payloads_through() {
    assert_eq!(LogicalKey::Character('a').character(), Some('a'));
    assert_eq!(LogicalKey::Character('\u{E9}').character(), Some('\u{E9}'));
    assert_eq!(LogicalKey::Unknown.character(), None);
}

#[test]
fn named_control_keys_project_to_their_control_characters() {
    assert_eq!(LogicalKey::Named(NamedKey::Backspace).character(), Some('\u{0008}'));
    assert_eq!(LogicalKey::Named(NamedKey::Tab).character(), Some('\u{0009}'));
    assert_eq!(LogicalKey::Named(NamedKey::Enter).character(), Some('\u{000D}'));
    assert_eq!(LogicalKey::Named(NamedKey::Escape).character(), Some('\u{001B}'));
    assert_eq!(LogicalKey::Named(NamedKey::Delete).character(), Some('\u{007F}'));
}

#[test]
fn other_named_keys_project_to_no_character() {
    assert_eq!(LogicalKey::Named(NamedKey::Shift).character(), None);
    assert_eq!(LogicalKey::Named(NamedKey::ArrowLeft).character(), None);
    assert_eq!(LogicalKey::Named(NamedKey::F1).character(), None);
    assert_eq!(LogicalKey::Named(NamedKey::Home).character(), None);
    assert_eq!(LogicalKey::Named(NamedKey::Insert).character(), None);
}

#[test]
fn physical_key_defaults_to_unknown() {
    assert_eq!(PhysicalKey::default(), PhysicalKey::Unknown);
}

#[test]
fn key_descriptor_equality_combines_all_three_fields() {
    let a = KeyDescriptor {
        physical_key: PhysicalKey::KeyE,
        logical_key: LogicalKey::Character('f'),
        key_location: KeyLocation::Standard,
    };
    assert_eq!(a, a);
    let b = KeyDescriptor { key_location: KeyLocation::Left, ..a };
    assert_ne!(a, b);
    let c = KeyDescriptor { logical_key: LogicalKey::Character('e'), ..a };
    assert_ne!(a, c);
    let d = KeyDescriptor { physical_key: PhysicalKey::KeyF, ..a };
    assert_ne!(a, d);
}
