//! Input-event taxonomy and dispatch classification for a legacy multimedia
//! runtime's display hierarchy.
//!
//! The library models the closed set of clip events together with their
//! delivery semantics (broadcast, anycast or targeted), their legacy
//! event-interest bit flags, the button-handler and keyboard subsets, and the
//! handler method names expected by the two scripting-engine generations.
//! Around that core stand the key identity model (legacy numeric key codes,
//! physical and logical keys, SWF4-era key-press codes), text-editing control
//! codes, input-method composition events and gamepad button parsing.
//!
//! Host I/O, hit testing and the scripting runtimes themselves are outside
//! collaborators: this crate only decides what an event *is* and how it must
//! be routed once a target is known.

pub mod clip_event;
pub mod flag;
pub mod gamepad;
pub mod key;
pub mod keyboard;
pub mod text;

pub use clip_event::BUTTON_EVENT_FLAG_BITS;
pub use clip_event::ClipEvent;
pub use clip_event::ClipEventResult;
pub use clip_event::DeliveryMode;
pub use clip_event::InteractiveObjectHandle;
pub use clip_event::MouseWheelDeltaRaw;
pub use flag::ClipEventFlag;
pub use gamepad::GamepadButton;
pub use gamepad::ParseEnumError;
pub use key::ButtonKeyCode;
pub use key::InputEvent;
pub use key::KeyCode;
pub use key::MouseButton;
pub use keyboard::KeyDescriptor;
pub use keyboard::KeyLocation;
pub use keyboard::LogicalKey;
pub use keyboard::NamedKey;
pub use keyboard::PhysicalKey;
pub use text::ImeEvent;
pub use text::ImePurpose;
pub use text::TextControlCode;
