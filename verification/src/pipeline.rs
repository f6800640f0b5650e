//! The actuator output pipeline and the serial command dispatch over it:
//! four motor channels, armed together every control period and paused
//! one by one as their transfer-completion events fire.
//!
//! Every handler here is total: it either updates the channel state under
//! the arbiter's critical sections or does nothing, and it always hands
//! the mask back exactly as it found it. Hardware effects are returned as
//! an ordered `HwAction` list for the unverified shell to perform; the
//! contracts pin the exact order the hardware demands (clear the pending
//! tick flag before any arming, re-arm the shared timer only after all
//! four channels are started).

use vstd::prelude::*;

use crate::channel::{Channel, ChannelState};
use crate::command::{scale_axis, spec_scale_axis, Command, Fix};
use crate::sched::{
    Arbiter, CEILING_CHANNEL, CEILING_SERIAL, CEILING_TIMER, CEILING_TRANSFER, PRIO_COMPLETION,
    PRIO_SERIAL, PRIO_TICK,
};

verus! {

/// Number of motor output channels.
pub const NUM_CHANNELS: usize = 4;

/// One hardware effect a handler asks the shell to perform, in the order
/// the handler returns them.
#[derive(Clone, Copy, PartialEq, Eq, Structural, Debug)]
pub enum HwAction {
    /// Clear the periodic timer's own pending-interrupt flag.
    ClearTickFlag,
    /// Start the transfer that feeds `channel`'s motor output.
    StartTransfer { channel: usize },
    /// Reset the shared timer's counter and enable the transfer-request
    /// lines of all four capture/compare channels at once — one
    /// indivisible step, legal only after every channel is started.
    RearmSharedTimer,
    /// Clear `channel`'s transfer-completion flag.
    ClearCompletionFlag { channel: usize },
    /// Halt transfer service for `channel` until the next arming.
    PauseTransfer { channel: usize },
}

/// The state the four channels are left in after a tick armed them all:
/// transmitting, with the commanded throttle latched into the frame.
pub open spec fn spec_armed(s: Seq<Channel>) -> Seq<Channel> {
    Seq::new(
        s.len(),
        |i: int|
            (Channel { loaded: s[i].throttle, state: ChannelState::Transmitting, ..s[i] }),
    )
}

/// The state the channels are left in after every throttle is set to
/// `value`; transmit cycles and in-flight frames are untouched.
pub open spec fn spec_all_throttles(s: Seq<Channel>, value: u16) -> Seq<Channel> {
    Seq::new(s.len(), |i: int| (Channel { throttle: value, ..s[i] }))
}

/// The exact action order of one periodic tick: clear the pending flag
/// first, start the four transfers, then the combined timer re-arm.
pub open spec fn spec_tick_actions() -> Seq<HwAction> {
    seq![
        HwAction::ClearTickFlag,
        HwAction::StartTransfer { channel: 0 },
        HwAction::StartTransfer { channel: 1 },
        HwAction::StartTransfer { channel: 2 },
        HwAction::StartTransfer { channel: 3 },
        HwAction::RearmSharedTimer,
    ]
}

/// The exact action order of a completion handler whose flag was set:
/// clear the flag, then pause the transfer.
pub open spec fn spec_completion_actions(channel: usize) -> Seq<HwAction> {
    seq![HwAction::ClearCompletionFlag { channel }, HwAction::PauseTransfer { channel }]
}

/// The four-channel actuator pipeline.
pub struct Pipeline {
    /// The motor output channels, one per electronic speed controller.
    pub channels: Vec<Channel>,
}

impl Pipeline {
    /// Well-formedness: exactly four channels.
    pub open spec fn wf(self) -> bool {
        self.channels@.len() == NUM_CHANNELS
    }

    /// The pipeline at startup: four idle channels with zero throttle.
    pub fn new() -> (p: Pipeline)
        ensures
            p.wf(),
            forall|i: int|
                0 <= i < NUM_CHANNELS ==> p.channels@[i] == (Channel {
                    throttle: 0,
                    loaded: 0,
                    state: ChannelState::Idle,
                }),
    {
        let mut channels: Vec<Channel> = Vec::new();
        channels.push(Channel::new());
        channels.push(Channel::new());
        channels.push(Channel::new());
        channels.push(Channel::new());
        Pipeline { channels }
    }

    /// Write one channel's throttle inside its own critical section, at
    /// the serial dispatcher's priority. The mask comes back exactly as
    /// it was: the lock is released on the only exit path.
    fn write_throttle(&mut self, arb: &mut Arbiter, index: usize, value: u16)
        requires
            old(self).wf(),
            index < NUM_CHANNELS,
        ensures
            final(self).wf(),
            *final(arb) == *old(arb),
            final(self).channels@ == old(self).channels@.update(
                index as int,
                (Channel { throttle: value, ..old(self).channels@[index as int] }),
            ),
    {
        let saved = arb.enter(PRIO_SERIAL, CEILING_CHANNEL);
        let mut c = self.channels[index];
        c.set_throttle(value);
        self.channels.set(index, c);
        arb.exit(saved);
    }

    /// Arm one channel inside the combined critical section over its
    /// transfer handle and its driver state, acquired and released as a
    /// unit, and record the start action.
    fn arm_channel(&mut self, arb: &mut Arbiter, index: usize, actions: &mut Vec<HwAction>)
        requires
            old(self).wf(),
            index < NUM_CHANNELS,
        ensures
            final(self).wf(),
            *final(arb) == *old(arb),
            final(self).channels@ == old(self).channels@.update(
                index as int,
                (Channel {
                    loaded: old(self).channels@[index as int].throttle,
                    state: ChannelState::Transmitting,
                    ..old(self).channels@[index as int]
                }),
            ),
            final(actions)@ == old(actions)@.push(HwAction::StartTransfer { channel: index }),
    {
        let saved_transfer = arb.enter(PRIO_TICK, CEILING_TRANSFER);
        let saved_driver = arb.enter(PRIO_TICK, CEILING_CHANNEL);
        let mut c = self.channels[index];
        c.start();
        self.channels.set(index, c);
        actions.push(HwAction::StartTransfer { channel: index });
        arb.exit(saved_driver);
        arb.exit(saved_transfer);
    }

    /// The controller dispatch handler, after the shell has drained the
    /// serial port through the decoder.
    ///
    /// A decoded controller message commands all four channels: the axis
    /// value is scaled by 256 into the throttle domain and written to
    /// each channel inside that channel's own critical section — the
    /// four writes are independent scopes, not one atomic group. No
    /// message (the bytes were incomplete or malformed) changes nothing:
    /// every channel keeps its previous throttle.
    pub fn on_controller_input(&mut self, arb: &mut Arbiter, message: Option<Command>)
        requires
            old(self).wf(),
            old(arb).may_dispatch(PRIO_SERIAL),
        ensures
            final(self).wf(),
            *final(arb) == *old(arb),
            message matches Some(Command::Controller { right_trigger })
                ==> final(self).channels@ =~= spec_all_throttles(
                    old(self).channels@,
                    spec_scale_axis(right_trigger),
                ),
            message is None ==> final(self).channels@ == old(self).channels@,
    {
        match message {
            Some(Command::Controller { right_trigger }) => {
                let value = scale_axis(right_trigger);
                self.write_throttle(arb, 0, value);
                self.write_throttle(arb, 1, value);
                self.write_throttle(arb, 2, value);
                self.write_throttle(arb, 3, value);
            },
            None => {},
        }
    }

    /// The satellite-receiver dispatch handler, after the shell has
    /// drained its serial port through the decoder, inside the port's
    /// own critical section. Any fix is discarded: the handler exists to
    /// keep the receive buffer from overrunning and has no behavioural
    /// effect — no throttle changes, no transfer starts or stops.
    pub fn on_gps_input(&mut self, arb: &mut Arbiter, fix: Option<Fix>)
        requires
            old(self).wf(),
            old(arb).may_dispatch(PRIO_SERIAL),
        ensures
            final(self).wf(),
            *final(arb) == *old(arb),
            final(self).channels@ == old(self).channels@,
    {
        let saved = arb.enter(PRIO_SERIAL, CEILING_SERIAL);
        match fix {
            Some(_) => {},
            None => {},
        }
        arb.exit(saved);
    }

    /// The periodic tick handler: one control period's production side.
    ///
    /// It clears its own pending flag first (inside the timer's critical
    /// section, and before any arming, so the re-armed hardware cannot
    /// re-trigger it at once), arms each of the four channels inside the
    /// combined section over that channel's transfer and driver state,
    /// and closes with the single indivisible re-arm of the shared
    /// timer. The action list carries exactly that order.
    pub fn on_tick(&mut self, arb: &mut Arbiter) -> (actions: Vec<HwAction>)
        requires
            old(self).wf(),
            old(arb).may_dispatch(PRIO_TICK),
        ensures
            final(self).wf(),
            *final(arb) == *old(arb),
            final(self).channels@ =~= spec_armed(old(self).channels@),
            actions@ =~= spec_tick_actions(),
    {
        let mut actions: Vec<HwAction> = Vec::new();
        let saved = arb.enter(PRIO_TICK, CEILING_TIMER);
        actions.push(HwAction::ClearTickFlag);
        arb.exit(saved);
        self.arm_channel(arb, 0, &mut actions);
        self.arm_channel(arb, 1, &mut actions);
        self.arm_channel(arb, 2, &mut actions);
        self.arm_channel(arb, 3, &mut actions);
        actions.push(HwAction::RearmSharedTimer);
        actions
    }

    /// One channel's transfer-completion handler: the consumption side.
    ///
    /// The hardware flag decides everything. Not set — the steady state
    /// between edges, or a spuriously shared line — and the handler is a
    /// no-op: no lock taken, no state touched, no action issued. Set, and
    /// the handler clears the flag and pauses the channel inside the
    /// combined critical section over its transfer and driver state.
    pub fn on_completion(&mut self, arb: &mut Arbiter, channel: usize, flag_set: bool) -> (actions:
        Vec<HwAction>)
        requires
            old(self).wf(),
            channel < NUM_CHANNELS,
            old(arb).may_dispatch(PRIO_COMPLETION),
        ensures
            final(self).wf(),
            *final(arb) == *old(arb),
            !flag_set ==> final(self).channels@ == old(self).channels@,
            !flag_set ==> actions@ == Seq::<HwAction>::empty(),
            flag_set ==> final(self).channels@ == old(self).channels@.update(
                channel as int,
                (Channel { state: ChannelState::Idle, ..old(self).channels@[channel as int] }),
            ),
            flag_set ==> actions@ =~= spec_completion_actions(channel),
    {
        let mut actions: Vec<HwAction> = Vec::new();
        if !flag_set {
            return actions;
        }
        let saved_transfer = arb.enter(PRIO_COMPLETION, CEILING_TRANSFER);
        actions.push(HwAction::ClearCompletionFlag { channel });
        let saved_driver = arb.enter(PRIO_COMPLETION, CEILING_CHANNEL);
        let mut c = self.channels[channel];
        c.pause();
        self.channels.set(channel, c);
        actions.push(HwAction::PauseTransfer { channel });
        arb.exit(saved_driver);
        arb.exit(saved_transfer);
        actions
    }
}

} // verus!
