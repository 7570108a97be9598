//! The classified event taxonomy and its dispatch rules.
//!
//! Clip events come in three flavors: broadcast, anycast and targeted. An
//! anycast event is offered to the first interactive object that claims it,
//! in render-list order. Targeted events are sent to one particular object
//! and are lost if that object does not handle them. Broadcast events are
//! delivered to every object in the display tree.
//!
//! The flavor is a property of the variant identity alone, never of a
//! payload, and every classification here is a total function over the
//! closed variant set: absence of a mapping is an explicit "no value",
//! never an error.

use crate::flag::ALL_FLAG_BITS;
use crate::flag::CONSTRUCT_BITS;
use crate::flag::DATA_BITS;
use crate::flag::DRAG_OUT_BITS;
use crate::flag::DRAG_OVER_BITS;
use crate::flag::ENTER_FRAME_BITS;
use crate::flag::INITIALIZE_BITS;
use crate::flag::KEY_DOWN_BITS;
use crate::flag::KEY_PRESS_BITS;
use crate::flag::KEY_UP_BITS;
use crate::flag::LOAD_BITS;
use crate::flag::MOUSE_DOWN_BITS;
use crate::flag::MOUSE_MOVE_BITS;
use crate::flag::MOUSE_UP_BITS;
use crate::flag::PRESS_BITS;
use crate::flag::RELEASE_BITS;
use crate::flag::RELEASE_OUTSIDE_BITS;
use crate::flag::ROLL_OUT_BITS;
use crate::flag::ROLL_OVER_BITS;
use crate::flag::UNLOAD_BITS;
use crate::flag::ClipEventFlag;
use crate::key::ButtonKeyCode;
use vstd::prelude::*;

verus! {

/// Whether a dispatched event was claimed by some object.
#[derive(Debug, PartialEq, Eq, Clone, Copy, Structural)]
pub enum ClipEventResult {
    NotHandled,
    Handled,
}

impl From<bool> for ClipEventResult {
    fn from(value: bool) -> (r: Self) {
        if value {
            Self::Handled
        } else {
            Self::NotHandled
        }
    }
}

impl vstd::std_specs::convert::FromSpecImpl<bool> for ClipEventResult {
    open spec fn obeys_from_spec() -> bool {
        true
    }

    open spec fn from_spec(value: bool) -> Self {
        if value {
            Self::Handled
        } else {
            Self::NotHandled
        }
    }
}

/// How a clip event must be routed once the display tree has resolved its
/// target: to every object, to the first object that claims it, or to one
/// externally chosen object only.
#[derive(Debug, PartialEq, Eq, Clone, Copy, Structural)]
pub enum DeliveryMode {
    /// Delivered to every object in the tree, independent of hit testing.
    Broadcast,
    /// Delivered to the first interactive object in front-to-back render
    /// order that accepts it, and to no others.
    Anycast,
    /// Delivered only to a specific resolved object; dropped silently if
    /// that object does not handle it.
    Targeted,
}

/// A non-owning handle to an interactive object in the externally owned
/// display tree: a generation-checked slot index.
///
/// The tree is the sole owner of the object; the handle is valid only for
/// the duration of the dispatch call that carries it, and dereferencing it
/// afterwards is unsupported.
#[derive(Debug, Clone, Copy, PartialEq, Eq, Hash, Structural)]
pub struct InteractiveObjectHandle {
    /// Index of the object's slot in the display tree's storage.
    pub slot: usize,
    /// Generation counter of that slot when the handle was taken.
    pub generation: u64,
}

/// A mouse-wheel scroll magnitude as the host reported it, carried through
/// classification untouched.
///
/// Each variant holds the IEEE 754 bit pattern of the host's 64-bit
/// magnitude in the named unit. The numeric reading of that pattern (unit
/// conversion and the not-a-number-aware comparison it calls for) is
/// host-layer work on floating-point values, outside this core; equality
/// here is equality of unit and bit pattern.
#[derive(Debug, Clone, Copy, PartialEq, Eq, Structural)]
pub enum MouseWheelDeltaRaw {
    /// A magnitude in lines, as a 64-bit float's bit pattern.
    Lines(u64),
    /// A magnitude in pixels, as a 64-bit float's bit pattern.
    Pixels(u64),
}

/// An event type that can be handled by a movie-clip instance.
///
/// Anycast variants are also offered to descendant objects before the
/// current node (see [`ClipEvent::propagates`]). Only the modern scripting
/// engine receives targeted mouse variants such as [`ClipEvent::MouseWheel`]
/// and the `*Inside` family; the legacy engine consumes the anycast and
/// broadcast forms.
#[derive(Debug, Clone, Copy)]
pub enum ClipEvent {
    Construct,
    Data,
    /// Mouse moved out of a display object while the primary button is held
    /// down. Targeted; `to` is the object now under the cursor, if any.
    DragOut { to: Option<InteractiveObjectHandle> },
    /// Mouse moved into a display object while the primary button is held
    /// down. Targeted; `from` is the object previously under the cursor.
    DragOver { from: Option<InteractiveObjectHandle> },
    EnterFrame,
    Initialize,
    /// A key was released. Anycast.
    KeyUp,
    /// A key was pressed. Anycast.
    KeyDown,
    /// A key with a legacy key-press code was pressed. Anycast; its handler
    /// is registered by key code, not by method name.
    KeyPress { key_code: ButtonKeyCode },
    Load,
    /// Left mouse button was released. Anycast.
    MouseUp,
    /// Right mouse button was released. Targeted.
    RightMouseUp,
    /// Middle mouse button was released. Targeted.
    MiddleMouseUp,
    /// Left mouse button was released inside this display object. Targeted.
    MouseUpInside,
    /// Right mouse button was released inside this display object. Targeted.
    RightMouseUpInside,
    /// Middle mouse button was released inside this display object. Targeted.
    MiddleMouseUpInside,
    /// Left mouse button was pressed. Anycast.
    MouseDown,
    /// Right mouse button was pressed. Targeted.
    RightMouseDown,
    /// Middle mouse button was pressed. Targeted.
    MiddleMouseDown,
    /// Mouse was moved. Anycast.
    MouseMove,
    /// Mouse was moved inside this display object. Targeted.
    MouseMoveInside,
    /// Left mouse button was pressed inside this display object. Targeted.
    /// `index` counts the clicks of a quick succession, starting at 0.
    Press { index: usize },
    /// Right mouse button was pressed inside this display object. Targeted.
    RightPress,
    /// Middle mouse button was pressed inside this display object. Targeted.
    MiddlePress,
    /// Mouse moved out of a display object. Targeted; `to` is the object
    /// now under the cursor, if any.
    RollOut { to: Option<InteractiveObjectHandle> },
    /// Mouse moved into a display object. Targeted; `from` is the object
    /// previously under the cursor, if any.
    RollOver { from: Option<InteractiveObjectHandle> },
    /// Left mouse button was released inside a previously pressed display
    /// object. Targeted; `index` matches the preceding press.
    Release { index: usize },
    /// Right-button analogue of [`ClipEvent::Release`]. Targeted.
    RightRelease,
    /// Middle-button analogue of [`ClipEvent::Release`]. Targeted.
    MiddleRelease,
    /// Left mouse button was released outside a previously pressed display
    /// object. Targeted.
    ReleaseOutside,
    /// Right-button analogue of [`ClipEvent::ReleaseOutside`]. Targeted.
    RightReleaseOutside,
    /// Middle-button analogue of [`ClipEvent::ReleaseOutside`]. Targeted.
    MiddleReleaseOutside,
    Unload,
    /// Mouse wheel was turned over a display object. Targeted, with no
    /// anycast equivalent; only the modern scripting engine receives it.
    MouseWheel { delta: MouseWheelDeltaRaw },
}

/// The handler method names of the button-handler subset.
pub const BUTTON_EVENT_METHODS: [&'static str; 7] = [
    "onDragOver",
    "onDragOut",
    "onPress",
    "onRelease",
    "onReleaseOutside",
    "onRollOut",
    "onRollOver",
];

/// The legacy event-interest bits of the button-handler subset: drag-out,
/// drag-over, key-press, press, roll-out, roll-over, release and
/// release-outside.
pub const BUTTON_EVENT_FLAG_BITS: u32 = DRAG_OUT_BITS | DRAG_OVER_BITS | KEY_PRESS_BITS
    | PRESS_BITS | ROLL_OUT_BITS | ROLL_OVER_BITS | RELEASE_BITS | RELEASE_OUTSIDE_BITS;

impl ClipEvent {
    /// The legacy bit-flag of this event type, if the legacy format defines
    /// one for it.
    pub open spec fn spec_flag_bits(self) -> Option<u32> {
        match self {
            ClipEvent::Construct => Some(CONSTRUCT_BITS),
            ClipEvent::Data => Some(DATA_BITS),
            ClipEvent::DragOut { .. } => Some(DRAG_OUT_BITS),
            ClipEvent::DragOver { .. } => Some(DRAG_OVER_BITS),
            ClipEvent::EnterFrame => Some(ENTER_FRAME_BITS),
            ClipEvent::Initialize => Some(INITIALIZE_BITS),
            ClipEvent::KeyDown => Some(KEY_DOWN_BITS),
            ClipEvent::KeyPress { .. } => Some(KEY_PRESS_BITS),
            ClipEvent::KeyUp => Some(KEY_UP_BITS),
            ClipEvent::Load => Some(LOAD_BITS),
            ClipEvent::MouseDown => Some(MOUSE_DOWN_BITS),
            ClipEvent::MouseMove => Some(MOUSE_MOVE_BITS),
            ClipEvent::MouseUp => Some(MOUSE_UP_BITS),
            ClipEvent::Press { .. } => Some(PRESS_BITS),
            ClipEvent::RollOut { .. } => Some(ROLL_OUT_BITS),
            ClipEvent::RollOver { .. } => Some(ROLL_OVER_BITS),
            ClipEvent::Release { .. } => Some(RELEASE_BITS),
            ClipEvent::ReleaseOutside => Some(RELEASE_OUTSIDE_BITS),
            ClipEvent::Unload => Some(UNLOAD_BITS),
            _ => None,
        }
    }

    /// The delivery mode of this event type: a property of the variant
    /// identity alone, never of a payload.
    pub open spec fn spec_delivery(self) -> DeliveryMode {
        match self {
            ClipEvent::Construct => DeliveryMode::Broadcast,
            ClipEvent::Data => DeliveryMode::Broadcast,
            ClipEvent::EnterFrame => DeliveryMode::Broadcast,
            ClipEvent::Initialize => DeliveryMode::Broadcast,
            ClipEvent::Load => DeliveryMode::Broadcast,
            ClipEvent::Unload => DeliveryMode::Broadcast,
            ClipEvent::MouseUp => DeliveryMode::Anycast,
            ClipEvent::MouseDown => DeliveryMode::Anycast,
            ClipEvent::MouseMove => DeliveryMode::Anycast,
            ClipEvent::KeyUp => DeliveryMode::Anycast,
            ClipEvent::KeyDown => DeliveryMode::Anycast,
            ClipEvent::KeyPress { .. } => DeliveryMode::Anycast,
            _ => DeliveryMode::Targeted,
        }
    }

    /// True exactly for the three keyboard variants.
    pub open spec fn spec_is_key_event(self) -> bool {
        self matches ClipEvent::KeyDown || self matches ClipEvent::KeyUp || self matches ClipEvent::KeyPress { .. }
    }

    /// The handler method name of this event type, if the scripting engines
    /// expect one.
    ///
    /// `Data` has a handler, but it must fire before the variant's own
    /// default behavior, so the caller invokes it out of band and no name is
    /// reported here. `KeyPress` handlers are registered by key code rather
    /// than by name, and `Construct` and `Initialize` have no
    /// scripting-visible handler form at all.
    pub open spec fn spec_method_name(self) -> Option<Seq<char>> {
        match self {
            ClipEvent::DragOut { .. } => Some("onDragOut"@),
            ClipEvent::DragOver { .. } => Some("onDragOver"@),
            ClipEvent::EnterFrame => Some("onEnterFrame"@),
            ClipEvent::KeyDown => Some("onKeyDown"@),
            ClipEvent::KeyUp => Some("onKeyUp"@),
            ClipEvent::Load => Some("onLoad"@),
            ClipEvent::MouseDown => Some("onMouseDown"@),
            ClipEvent::MouseMove => Some("onMouseMove"@),
            ClipEvent::MouseUp => Some("onMouseUp"@),
            ClipEvent::Press { .. } => Some("onPress"@),
            ClipEvent::RollOut { .. } => Some("onRollOut"@),
            ClipEvent::RollOver { .. } => Some("onRollOver"@),
            ClipEvent::Release { .. } => Some("onRelease"@),
            ClipEvent::ReleaseOutside => Some("onReleaseOutside"@),
            ClipEvent::Unload => Some("onUnload"@),
            _ => None,
        }
    }

    /// Returns the legacy event-interest flag corresponding to this event
    /// type, or none where the legacy format has no analogue.
    pub fn flag(self) -> (r: Option<ClipEventFlag>)
        ensures
            r matches Some(f) ==> self.spec_flag_bits() == Some(f.bits),
            r is None <==> self.spec_flag_bits() is None,
    {
        match self {
            ClipEvent::Construct => Some(ClipEventFlag { bits: CONSTRUCT_BITS }),
            ClipEvent::Data => Some(ClipEventFlag { bits: DATA_BITS }),
            ClipEvent::DragOut { .. } => Some(ClipEventFlag { bits: DRAG_OUT_BITS }),
            ClipEvent::DragOver { .. } => Some(ClipEventFlag { bits: DRAG_OVER_BITS }),
            ClipEvent::EnterFrame => Some(ClipEventFlag { bits: ENTER_FRAME_BITS }),
            ClipEvent::Initialize => Some(ClipEventFlag { bits: INITIALIZE_BITS }),
            ClipEvent::KeyDown => Some(ClipEventFlag { bits: KEY_DOWN_BITS }),
            ClipEvent::KeyPress { .. } => Some(ClipEventFlag { bits: KEY_PRESS_BITS }),
            ClipEvent::KeyUp => Some(ClipEventFlag { bits: KEY_UP_BITS }),
            ClipEvent::Load => Some(ClipEventFlag { bits: LOAD_BITS }),
            ClipEvent::MouseDown => Some(ClipEventFlag { bits: MOUSE_DOWN_BITS }),
            ClipEvent::MouseMove => Some(ClipEventFlag { bits: MOUSE_MOVE_BITS }),
            ClipEvent::MouseUp => Some(ClipEventFlag { bits: MOUSE_UP_BITS }),
            ClipEvent::Press { .. } => Some(ClipEventFlag { bits: PRESS_BITS }),
            ClipEvent::RollOut { .. } => Some(ClipEventFlag { bits: ROLL_OUT_BITS }),
            ClipEvent::RollOver { .. } => Some(ClipEventFlag { bits: ROLL_OVER_BITS }),
            ClipEvent::Release { .. } => Some(ClipEventFlag { bits: RELEASE_BITS }),
            ClipEvent::ReleaseOutside => Some(ClipEventFlag { bits: RELEASE_OUTSIDE_BITS }),
            ClipEvent::Unload => Some(ClipEventFlag { bits: UNLOAD_BITS }),
            _ => None,
        }
    }

    /// Returns how this event type must be routed: to every object, to the
    /// first object that claims it, or to one externally resolved object.
    pub fn delivery(self) -> (r: DeliveryMode)
        ensures
            r == self.spec_delivery(),
    {
        match self {
            ClipEvent::Construct
            | ClipEvent::Data
            | ClipEvent::EnterFrame
            | ClipEvent::Initialize
            | ClipEvent::Load
            | ClipEvent::Unload => DeliveryMode::Broadcast,
            ClipEvent::MouseUp
            | ClipEvent::MouseDown
            | ClipEvent::MouseMove
            | ClipEvent::KeyUp
            | ClipEvent::KeyDown
            | ClipEvent::KeyPress { .. } => DeliveryMode::Anycast,
            _ => DeliveryMode::Targeted,
        }
    }

    /// True when the event must be offered to descendant objects before the
    /// current node: exactly the anycast variants.
    pub fn propagates(self) -> (r: bool)
        ensures
            r == (self.spec_delivery() == DeliveryMode::Anycast),
    {
        match self {
            ClipEvent::MouseUp
            | ClipEvent::MouseDown
            | ClipEvent::MouseMove
            | ClipEvent::KeyPress { .. }
            | ClipEvent::KeyDown
            | ClipEvent::KeyUp => true,
            _ => false,
        }
    }

    /// True exactly when this event type's legacy flag intersects the fixed
    /// button-handler flag set, which makes the event eligible for the
    /// legacy button-handler registration mechanism.
    pub fn is_button_event(self) -> (r: bool)
        ensures
            r == (self.spec_flag_bits() matches Some(b) && b & BUTTON_EVENT_FLAG_BITS != 0),
    {
        match self.flag() {
            Some(f) => f.intersects(ClipEventFlag { bits: BUTTON_EVENT_FLAG_BITS }),
            None => false,
        }
    }

    /// True exactly for the three keyboard variants.
    pub fn is_key_event(self) -> (r: bool)
        ensures
            r == self.spec_is_key_event(),
    {
        match self {
            ClipEvent::KeyDown | ClipEvent::KeyUp | ClipEvent::KeyPress { .. } => true,
            _ => false,
        }
    }

    /// Returns the handler method name of this event type, or none where the
    /// scripting engines expect no name (see [`ClipEvent::spec_method_name`]).
    pub fn method_name(self) -> (r: Option<String>)
        ensures
            r matches Some(s) ==> self.spec_method_name() == Some(s@),
            r is None <==> self.spec_method_name() is None,
    {
        match self {
            ClipEvent::DragOut { .. } => Some("onDragOut".to_owned()),
            ClipEvent::DragOver { .. } => Some("onDragOver".to_owned()),
            ClipEvent::EnterFrame => Some("onEnterFrame".to_owned()),
            ClipEvent::KeyDown => Some("onKeyDown".to_owned()),
            ClipEvent::KeyUp => Some("onKeyUp".to_owned()),
            ClipEvent::Load => Some("onLoad".to_owned()),
            ClipEvent::MouseDown => Some("onMouseDown".to_owned()),
            ClipEvent::MouseMove => Some("onMouseMove".to_owned()),
            ClipEvent::MouseUp => Some("onMouseUp".to_owned()),
            ClipEvent::Press { .. } => Some("onPress".to_owned()),
            ClipEvent::RollOut { .. } => Some("onRollOut".to_owned()),
            ClipEvent::RollOver { .. } => Some("onRollOver".to_owned()),
            ClipEvent::Release { .. } => Some("onRelease".to_owned()),
            ClipEvent::ReleaseOutside => Some("onReleaseOutside".to_owned()),
            ClipEvent::Unload => Some("onUnload".to_owned()),
            _ => None,
        }
    }
}

/// Every flag the classification emits belongs to the legacy format's
/// defined flag set: no reserved bit is ever produced.
pub proof fn lemma_flag_defined(e: ClipEvent)
    ensures
        e.spec_flag_bits() matches Some(b) ==> b & ALL_FLAG_BITS == b,
{
    match e.spec_flag_bits() {
        Some(b) => {
            assert(b == 0x1u32 || b == 0x2u32 || b == 0x4u32 || b == 0x8u32 || b == 0x10u32
                || b == 0x20u32 || b == 0x40u32 || b == 0x80u32 || b == 0x100u32
                || b == 0x200u32 || b == 0x400u32 || b == 0x800u32 || b == 0x1000u32
                || b == 0x2000u32 || b == 0x4000u32 || b == 0x8000u32 || b == 0x10000u32
                || b == 0x20000u32 || b == 0x40000u32);
            assert(b & 0x7FFFFu32 == b) by (bit_vector)
                requires
                    b == 0x1u32 || b == 0x2u32 || b == 0x4u32 || b == 0x8u32 || b == 0x10u32
                        || b == 0x20u32 || b == 0x40u32 || b == 0x80u32 || b == 0x100u32
                        || b == 0x200u32 || b == 0x400u32 || b == 0x800u32 || b == 0x1000u32
                        || b == 0x2000u32 || b == 0x4000u32 || b == 0x8000u32 || b == 0x10000u32
                        || b == 0x20000u32 || b == 0x40000u32,
            ;
        },
        None => {},
    }
}

/// The button-handler subset in terms of the variants themselves: an event's
/// legacy flag intersects the button flag set exactly when the event is one
/// of drag-out, drag-over, key-press, press, roll-out, roll-over, release or
/// release-outside.
pub proof fn lemma_button_event_variants(e: ClipEvent)
    ensures
        (e.spec_flag_bits() matches Some(b) && b & BUTTON_EVENT_FLAG_BITS != 0) <==> (e matches ClipEvent::DragOut { .. }
            || e matches ClipEvent::DragOver { .. }
            || e matches ClipEvent::KeyPress { .. }
            || e matches ClipEvent::Press { .. }
            || e matches ClipEvent::RollOut { .. }
            || e matches ClipEvent::RollOver { .. }
            || e matches ClipEvent::Release { .. }
            || e matches ClipEvent::ReleaseOutside),
{
    assert(0x10000u32 | 0x8000u32 | 0x20000u32 | 0x400u32 | 0x4000u32 | 0x2000u32 | 0x800u32
        | 0x1000u32 == 0x3FC00u32) by (bit_vector);
    assert(BUTTON_EVENT_FLAG_BITS == 0x3FC00u32);
    match e.spec_flag_bits() {
        Some(b) => {
            assert(b == 0x1u32 || b == 0x2u32 || b == 0x4u32 || b == 0x8u32 || b == 0x10u32
                || b == 0x20u32 || b == 0x40u32 || b == 0x80u32 || b == 0x100u32
                || b == 0x200u32 || b == 0x400u32 || b == 0x800u32 || b == 0x1000u32
                || b == 0x2000u32 || b == 0x4000u32 || b == 0x8000u32 || b == 0x10000u32
                || b == 0x20000u32 || b == 0x40000u32);
            assert((b & 0x3FC00u32 != 0) <==> (b == 0x400u32 || b == 0x800u32 || b == 0x1000u32
                || b == 0x2000u32 || b == 0x4000u32 || b == 0x8000u32 || b == 0x10000u32
                || b == 0x20000u32)) by (bit_vector)
                requires
                    b == 0x1u32 || b == 0x2u32 || b == 0x4u32 || b == 0x8u32 || b == 0x10u32
                        || b == 0x20u32 || b == 0x40u32 || b == 0x80u32 || b == 0x100u32
                        || b == 0x200u32 || b == 0x400u32 || b == 0x800u32 || b == 0x1000u32
                        || b == 0x2000u32 || b == 0x4000u32 || b == 0x8000u32 || b == 0x10000u32
                        || b == 0x20000u32 || b == 0x40000u32,
            ;
        },
        None => {},
    }
}

} // verus!
