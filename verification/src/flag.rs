//! The legacy event-interest bitmask.
//!
//! A clip-action record in the legacy binary format declares which event
//! types an object is interested in as a 32-bit mask with one bit per event
//! type. The bit assignments are fixed by that external format and are
//! contractual: they must match it exactly and may not be rearranged.

use vstd::prelude::*;

verus! {

/// Bit for the load event.
pub const LOAD_BITS: u32 = 0x1;
/// Bit for the enter-frame event.
pub const ENTER_FRAME_BITS: u32 = 0x2;
/// Bit for the unload event.
pub const UNLOAD_BITS: u32 = 0x4;
/// Bit for the anycast mouse-move event.
pub const MOUSE_MOVE_BITS: u32 = 0x8;
/// Bit for the anycast mouse-down event.
pub const MOUSE_DOWN_BITS: u32 = 0x10;
/// Bit for the anycast mouse-up event.
pub const MOUSE_UP_BITS: u32 = 0x20;
/// Bit for the anycast key-down event.
pub const KEY_DOWN_BITS: u32 = 0x40;
/// Bit for the anycast key-up event.
pub const KEY_UP_BITS: u32 = 0x80;
/// Bit for the data event.
pub const DATA_BITS: u32 = 0x100;
/// Bit for the initialize event.
pub const INITIALIZE_BITS: u32 = 0x200;
/// Bit for the targeted press event.
pub const PRESS_BITS: u32 = 0x400;
/// Bit for the targeted release event.
pub const RELEASE_BITS: u32 = 0x800;
/// Bit for the targeted release-outside event.
pub const RELEASE_OUTSIDE_BITS: u32 = 0x1000;
/// Bit for the targeted roll-over event.
pub const ROLL_OVER_BITS: u32 = 0x2000;
/// Bit for the targeted roll-out event.
pub const ROLL_OUT_BITS: u32 = 0x4000;
/// Bit for the targeted drag-over event.
pub const DRAG_OVER_BITS: u32 = 0x8000;
/// Bit for the targeted drag-out event.
pub const DRAG_OUT_BITS: u32 = 0x10000;
/// Bit for the key-press event.
pub const KEY_PRESS_BITS: u32 = 0x20000;
/// Bit for the construct event.
pub const CONSTRUCT_BITS: u32 = 0x40000;

/// Every bit the legacy format defines; all higher bits are reserved.
pub const ALL_FLAG_BITS: u32 = 0x7FFFF;

/// A legacy event-interest bitmask: a set of event types encoded one per bit,
/// exactly as the external binary format defines them.
#[derive(Clone, Copy, Debug, PartialEq, Eq, Hash, Structural)]
pub struct ClipEventFlag {
    pub bits: u32,
}

impl ClipEventFlag {
    /// True when every set bit is one the legacy format defines.
    pub open spec fn is_defined(self) -> bool {
        self.bits & ALL_FLAG_BITS == self.bits
    }

    /// The raw mask value.
    pub fn bits(self) -> (r: u32)
        ensures
            r == self.bits,
    {
        self.bits
    }

    /// Builds a mask from a raw value, dropping any bit the legacy format
    /// does not define.
    pub fn from_bits_truncate(bits: u32) -> (r: Self)
        ensures
            r.bits == bits & ALL_FLAG_BITS,
            r.is_defined(),
    {
        let b: u32 = bits & ALL_FLAG_BITS;
        proof {
            assert(b & ALL_FLAG_BITS == b) by (bit_vector)
                requires
                    b == bits & ALL_FLAG_BITS,
            ;
        }
        ClipEventFlag { bits: b }
    }

    /// True when the two masks share at least one bit.
    pub fn intersects(self, other: Self) -> (r: bool)
        ensures
            r == (self.bits & other.bits != 0),
    {
        self.bits & other.bits != 0
    }

    /// True when every bit of `other` is set in `self`.
    pub fn contains(self, other: Self) -> (r: bool)
        ensures
            r == (self.bits & other.bits == other.bits),
    {
        self.bits & other.bits == other.bits
    }

    /// The union of the two masks.
    pub fn union(self, other: Self) -> (r: Self)
        ensures
            r.bits == self.bits | other.bits,
    {
        ClipEventFlag { bits: self.bits | other.bits }
    }
}

} // verus!
