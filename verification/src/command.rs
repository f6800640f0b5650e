//! Decoded messages from the two serial links, and the scaling of a
//! controller axis into the channel throttle domain.
//!
//! Bit-level framing of both serial protocols is the business of the
//! protocol library on the unverified side; this core only consumes the
//! decoded values.

use vstd::prelude::*;

verus! {

/// A decoded message from the radio-link controller. The core acts only
/// on the variant carrying the right-trigger axis.
#[derive(Clone, Copy, Debug)]
pub enum Command {
    /// A controller frame; `right_trigger` is the throttle axis, 0 to 255.
    Controller { right_trigger: u8 },
}

/// A decoded position fix from the satellite receiver. Received and
/// discarded: a hook point, consumed by no logic in this core.
#[derive(Clone, Copy, Debug)]
pub struct Fix {
    /// Whether the receiver reported a valid position solution.
    pub valid: bool,
}

/// The throttle an axis value commands: the axis scaled linearly by 256.
pub open spec fn spec_scale_axis(axis: u8) -> u16 {
    ((axis as int) * 256) as u16
}

/// Scale a controller axis value (0 to 255) into the channel throttle
/// domain: multiply by 256, landing in 0 to 65280, within the 16-bit
/// throttle domain.
pub fn scale_axis(axis: u8) -> (throttle: u16)
    ensures
        throttle == spec_scale_axis(axis),
        throttle == axis as int * 256,
        throttle <= 65280,
{
    (axis as u16) * 256
}

} // verus!
