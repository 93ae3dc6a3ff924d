//! Mapping from detected input events to output report codes.
//!
//! Pure, total lookup functions with no internal state: a key index maps to
//! the code the host should receive for that key, and a rotation direction
//! maps to a volume code. The codes are the library's own symbols; the owning
//! application translates them to whatever usage table its transport speaks.

use vstd::prelude::*;

use crate::keyboard_matrix::KEY_COUNT;
use crate::rotary_encoder::RotationDirection;

verus! {

/// Symbolic output unit handed to the report transport.
#[derive(Clone, Copy, Debug, PartialEq, Eq)]
pub enum ReportCode {
    /// Sentinel: no event to report in this slot.
    NoEvent,
    KeyA,
    KeyB,
    KeyC,
    KeyD,
    KeyE,
    VolumeUp,
    VolumeDown,
}

/// The static key table: one code per valid key index, the sentinel for
/// everything out of range.
pub open spec fn spec_key_mapping(key_id: int) -> ReportCode {
    if key_id == 0 {
        ReportCode::KeyA
    } else if key_id == 1 {
        ReportCode::KeyB
    } else if key_id == 2 {
        ReportCode::KeyC
    } else if key_id == 3 {
        ReportCode::KeyD
    } else if key_id == 4 {
        ReportCode::KeyE
    } else {
        ReportCode::NoEvent
    }
}

/// The code a rotation tick reports: clockwise turns the volume up,
/// counter-clockwise turns it down.
pub open spec fn spec_encoder_mapping(dir: RotationDirection) -> ReportCode {
    match dir {
        RotationDirection::Clockwise => ReportCode::VolumeUp,
        RotationDirection::CounterClockwise => ReportCode::VolumeDown,
    }
}

/// Look up the report code of a key index. Every valid index yields a real
/// code from the table; any index at or past `KEY_COUNT` yields the sentinel.
pub fn key_mapping(key_id: usize) -> (code: ReportCode)
    ensures
        code == spec_key_mapping(key_id as int),
        key_id < KEY_COUNT ==> code != ReportCode::NoEvent,
        key_id >= KEY_COUNT ==> code == ReportCode::NoEvent,
{
    match key_id {
        0 => ReportCode::KeyA,
        1 => ReportCode::KeyB,
        2 => ReportCode::KeyC,
        3 => ReportCode::KeyD,
        4 => ReportCode::KeyE,
        _ => ReportCode::NoEvent,
    }
}

/// Look up the report code of a rotation direction.
pub fn encoder_mapping(dir: RotationDirection) -> (code: ReportCode)
    ensures
        code == spec_encoder_mapping(dir),
{
    match dir {
        RotationDirection::Clockwise => ReportCode::VolumeUp,
        RotationDirection::CounterClockwise => ReportCode::VolumeDown,
    }
}

} // verus!
