//! One motor output channel: a commanded throttle value and the two-state
//! transmit cycle its timed output signal runs through.
//!
//! A channel is `Idle` while no transfer is in flight and `Transmitting`
//! while its frame buffer is being moved out to the motor controller.
//! Arming a channel latches the commanded throttle into the in-flight
//! frame, so a command that arrives mid-period only takes effect at the
//! next arming.

use vstd::prelude::*;

verus! {

/// The transmit cycle of one output channel.
#[derive(Clone, Copy, PartialEq, Eq, Structural, Debug)]
pub enum ChannelState {
    /// No transfer in flight; the buffer holds the last-loaded frame.
    Idle,
    /// A transfer is in flight, moving the current frame out.
    Transmitting,
}

/// One motor output channel.
#[derive(Clone, Copy, PartialEq, Eq, Structural, Debug)]
pub struct Channel {
    /// The commanded throttle, full 16-bit domain.
    pub throttle: u16,
    /// The throttle value latched into the frame at the last arming.
    pub loaded: u16,
    /// Where the channel stands in its transmit cycle.
    pub state: ChannelState,
}

impl Channel {
    /// A freshly created channel: idle, with zero throttle and a zero frame.
    pub fn new() -> (c: Channel)
        ensures
            c == (Channel { throttle: 0, loaded: 0, state: ChannelState::Idle }),
    {
        Channel { throttle: 0, loaded: 0, state: ChannelState::Idle }
    }

    /// Record a new commanded throttle. The transmit cycle and the
    /// in-flight frame are untouched: the value is picked up at the next
    /// arming.
    pub fn set_throttle(&mut self, value: u16)
        ensures
            *final(self) == (Channel { throttle: value, ..*old(self) }),
    {
        self.throttle = value;
    }

    /// Arm the channel: latch the commanded throttle into the frame and
    /// begin transmitting.
    pub fn start(&mut self)
        ensures
            *final(self) == (Channel {
                loaded: old(self).throttle,
                state: ChannelState::Transmitting,
                ..*old(self)
            }),
    {
        self.loaded = self.throttle;
        self.state = ChannelState::Transmitting;
    }

    /// Pause the channel: stop further transfer service until the next
    /// arming. Throttle and frame are untouched.
    pub fn pause(&mut self)
        ensures
            *final(self) == (Channel { state: ChannelState::Idle, ..*old(self) }),
    {
        self.state = ChannelState::Idle;
    }
}

} // verus!
