//! Quadrature decoder for a mechanical rotary encoder.
//!
//! The encoder drives two phase contacts, A and B, whose signals are offset by
//! a quarter period. The decoder only acts when the level of phase A differs
//! from the level it recorded on the previous read: on such a transition, the
//! current level of phase B disambiguates the direction. With this wiring,
//! equal levels of A and B mean counter-clockwise and unequal levels mean
//! clockwise; the polarity is a fixed property of the physical wiring, applied
//! consistently here. One direction tick is produced per phase-A transition.

use vstd::prelude::*;

verus! {

/// Direction of one detected encoder tick.
#[derive(Clone, Copy, Debug, PartialEq, Eq)]
pub enum RotationDirection {
    Clockwise,
    CounterClockwise,
}

/// The direction assigned to a phase-A transition, from the levels both
/// phases show right after the transition.
pub open spec fn spec_direction(state_a: bool, state_b: bool) -> RotationDirection {
    if state_a == state_b {
        RotationDirection::CounterClockwise
    } else {
        RotationDirection::Clockwise
    }
}

/// Decoder state: the phase-A level recorded by the previous read.
pub struct RotaryEncoder {
    /// Level of phase A as of the last read (or of initialization).
    pub prev_state_a: bool,
}

impl RotaryEncoder {
    /// Start the decoder from the phase-A level observed while the encoder
    /// sits at its idle level.
    pub fn new(state_a: bool) -> (enc: Self)
        ensures
            enc.prev_state_a == state_a,
    {
        RotaryEncoder { prev_state_a: state_a }
    }

    /// Decode one pair of sampled phase levels.
    ///
    /// No phase-A transition means no tick and no state change. A phase-A
    /// transition is recorded, and phase B equal to the new phase-A level
    /// gives counter-clockwise, unequal gives clockwise.
    pub fn read(&mut self, state_a: bool, state_b: bool) -> (dir: Option<RotationDirection>)
        ensures
            state_a == old(self).prev_state_a ==> dir is None && *final(self) == *old(self),
            state_a != old(self).prev_state_a ==> final(self).prev_state_a == state_a && dir
                == Some(spec_direction(state_a, state_b)),
    {
        if state_a == self.prev_state_a {
            return None;
        }
        self.prev_state_a = state_a;

        if state_a == state_b {
            Some(RotationDirection::CounterClockwise)
        } else {
            Some(RotationDirection::Clockwise)
        }
    }
}

} // verus!
