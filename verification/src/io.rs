//! Reading the touch panel and the buttons.
//!
//! A snapshot is the 32-bit word that the native driver hands out for one
//! read of a device. This layer gives it no structure, no unit and no range:
//! it passes the word on as it came, or withholds it where the board has no
//! such device.

use vstd::prelude::*;

verus! {

/// Event code that the button driver sets in a snapshot when a button went down.
pub const BTN_EVT_DOWN: u32 = 0x0100_0000;

/// Event code that the button driver sets in a snapshot when a button came up.
pub const BTN_EVT_UP: u32 = 0x0200_0000;

/// Identifier of the left button in a button snapshot.
pub const BTN_LEFT: u32 = 0;

/// Identifier of the right button in a button snapshot.
pub const BTN_RIGHT: u32 = 1;

/// The input devices that a board carries. The two switches are independent
/// of each other, and are fixed for as long as the process runs.
#[derive(Clone, Copy, Debug, PartialEq, Eq, Structural)]
pub struct Capabilities {
    /// The board has a touch panel.
    pub touch: bool,
    /// The board has buttons.
    pub button: bool,
}

/// What a caller sees of the touch panel: the driver's snapshot `raw` as it
/// came, on a board with a touch panel; nothing on a board without one.
pub open spec fn touch_reading(caps: Capabilities, raw: u32) -> Option<u32> {
    if caps.touch {
        Some(raw)
    } else {
        None
    }
}

/// What a caller sees of the buttons: the driver's snapshot `raw` as it came,
/// on a board with buttons; nothing on a board without them.
pub open spec fn button_reading(caps: Capabilities, raw: u32) -> Option<u32> {
    if caps.button {
        Some(raw)
    } else {
        None
    }
}

/// Hands out the touch driver's snapshot `raw`, unchanged, where the board has
/// a touch panel, and `None` where it has none. Every word is a snapshot: none
/// is refused, and none is read as a failure.
pub fn io_touch_read(caps: Capabilities, raw: u32) -> (reading: Option<u32>)
    ensures
        reading == touch_reading(caps, raw),
{
    if caps.touch {
        Some(raw)
    } else {
        None
    }
}

/// Hands out the button driver's snapshot `raw`, unchanged, where the board
/// has buttons, and `None` where it has none. Every word is a snapshot: none
/// is refused, and none is read as a failure.
pub fn io_button_read(caps: Capabilities, raw: u32) -> (reading: Option<u32>)
    ensures
        reading == button_reading(caps, raw),
{
    if caps.button {
        Some(raw)
    } else {
        None
    }
}

/// On a board that has the device, a read is total: whatever word the driver
/// gave, the caller gets that word.
pub proof fn lemma_present_device_is_read(caps: Capabilities, raw: u32)
    ensures
        caps.touch ==> touch_reading(caps, raw) == Some(raw),
        caps.button ==> button_reading(caps, raw) == Some(raw),
{
}

/// On a board that lacks the device, a read gives nothing, whatever word was
/// offered as the snapshot.
pub proof fn lemma_absent_device_is_not_read(caps: Capabilities, raw: u32)
    ensures
        !caps.touch ==> touch_reading(caps, raw) is None,
        !caps.button ==> button_reading(caps, raw) is None,
{
}

/// The two devices do not touch each other: what is seen of the touch panel
/// depends on the touch switch and the touch snapshot alone, and what is seen
/// of the buttons on the button switch and the button snapshot alone.
pub proof fn lemma_reads_are_independent(a: Capabilities, b: Capabilities, raw: u32)
    ensures
        a.touch == b.touch ==> touch_reading(a, raw) == touch_reading(b, raw),
        a.button == b.button ==> button_reading(a, raw) == button_reading(b, raw),
{
}

/// No two of the four button codes are the same value; in particular the two
/// events differ, and so do the two identifiers.
pub proof fn lemma_button_codes_distinct()
    ensures
        BTN_EVT_DOWN != BTN_EVT_UP,
        BTN_LEFT != BTN_RIGHT,
        BTN_EVT_DOWN != BTN_LEFT,
        BTN_EVT_DOWN != BTN_RIGHT,
        BTN_EVT_UP != BTN_LEFT,
        BTN_EVT_UP != BTN_RIGHT,
{
}

} // verus!
