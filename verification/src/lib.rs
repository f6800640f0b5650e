//! Verified core of an interrupt-driven flight-control loop.
//!
//! The library models the three mechanisms at the heart of the firmware:
//! a priority-ceiling resource arbiter that serialises access to state
//! shared between interrupt handlers of different static priorities
//! (`sched`), a per-motor output channel with a two-state transmit cycle
//! (`channel`), and the event handlers that tie them together: the serial
//! command dispatcher, the periodic tick that arms all four motor outputs,
//! and the per-channel completion handlers (`pipeline`, `trace`).
//!
//! Every hardware effect a handler demands is returned as an explicit
//! action list, so a thin unverified shell can perform the actual
//! peripheral writes in exactly the order the contracts prescribe.

pub mod channel;
pub mod command;
pub mod pipeline;
pub mod sched;
pub mod trace;
