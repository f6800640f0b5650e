use flightcontrol::channel::{Channel, ChannelState};
use flightcontrol::command::{scale_axis, Command, Fix};
use flightcontrol::pipeline::{HwAction, Pipeline, NUM_CHANNELS};
use flightcontrol::sched::{dispatch_latency, Arbiter};
use flightcontrol::trace::{dispatch_event, run_trace, Event};

fn fresh() -> (Pipeline, Arbiter) {
    (Pipeline::new(), Arbiter::new())
}

fn throttles(p: &Pipeline) -> Vec<u16> {
    p.channels.iter().map(|c| c.throttle).collect()
}

fn states(p: &Pipeline) -> Vec<ChannelState> {
    p.channels.iter().map(|c| c.state).collect()
}

#[test]
fn throttle_scaling_matches_formula() {
    assert_eq!(scale_axis(0), 0);
    assert_eq!(scale_axis(1), 256);
    assert_eq!(scale_axis(128), 32768);
    assert_eq!(scale_axis(255), 65280);
    for axis in 0..=255u16 {
        let throttle = scale_axis(axis as u8);
        assert_eq!(throttle as u32, axis as u32 * 256);
        assert!(throttle <= 65280);
    }
}

#[test]
fn new_pipeline_is_idle_at_zero() {
    let (p, _) = fresh();
    assert_eq!(p.channels.len(), NUM_CHANNELS);
    for c in p.channels.iter() {
        assert_eq!(c.throttle, 0);
        assert_eq!(c.loaded, 0);
        assert_eq!(c.state, ChannelState::Idle);
    }
}

#[test]
fn channel_cycle_latches_throttle_at_start() {
    let mut c = Channel::new();
    c.set_throttle(513);
    assert_eq!(c.loaded, 0);
    assert_eq!(c.state, ChannelState::Idle);
    c.start();
    assert_eq!(c.loaded, 513);
    assert_eq!(c.state, ChannelState::Transmitting);
    c.set_throttle(770);
    assert_eq!(c.loaded, 513);
    c.pause();
    assert_eq!(c.state, ChannelState::Idle);
    assert_eq!(c.loaded, 513);
    assert_eq!(c.throttle, 770);
}

#[test]
fn controller_command_sets_all_four_throttles() {
    let (mut p, mut arb) = fresh();
    let msg = Some(Command::Controller { right_trigger: 100 });
    let actions = dispatch_event(&mut p, &mut arb, Event::ControllerInput { message: msg });
    assert_eq!(actions, vec![]);
    assert_eq!(throttles(&p), vec![25600, 25600, 25600, 25600]);
    assert_eq!(states(&p), vec![ChannelState::Idle; 4]);
    assert_eq!(arb.mask, 0);
}

#[test]
fn rejected_input_changes_nothing() {
    let (mut p, mut arb) = fresh();
    let msg = Some(Command::Controller { right_trigger: 40 });
    dispatch_event(&mut p, &mut arb, Event::ControllerInput { message: msg });
    for _ in 0..5 {
        let actions = dispatch_event(&mut p, &mut arb, Event::ControllerInput { message: None });
        assert_eq!(actions, vec![]);
        assert_eq!(throttles(&p), vec![10240, 10240, 10240, 10240]);
        assert_eq!(states(&p), vec![ChannelState::Idle; 4]);
    }
}

#[test]
fn gps_fix_is_received_and_discarded() {
    let (mut p, mut arb) = fresh();
    let msg = Some(Command::Controller { right_trigger: 10 });
    dispatch_event(&mut p, &mut arb, Event::ControllerInput { message: msg });
    let before_throttles = throttles(&p);
    let before_states = states(&p);
    let actions = dispatch_event(
        &mut p,
        &mut arb,
        Event::GpsInput { fix: Some(Fix { valid: true }) },
    );
    assert_eq!(actions, vec![]);
    assert_eq!(throttles(&p), before_throttles);
    assert_eq!(states(&p), before_states);
    let actions = dispatch_event(&mut p, &mut arb, Event::GpsInput { fix: None });
    assert_eq!(actions, vec![]);
    assert_eq!(throttles(&p), before_throttles);
    assert_eq!(states(&p), before_states);
}

#[test]
fn tick_arms_all_channels_in_order() {
    let (mut p, mut arb) = fresh();
    let msg = Some(Command::Controller { right_trigger: 3 });
    dispatch_event(&mut p, &mut arb, Event::ControllerInput { message: msg });
    let actions = dispatch_event(&mut p, &mut arb, Event::Tick);
    assert_eq!(
        actions,
        vec![
            HwAction::ClearTickFlag,
            HwAction::StartTransfer { channel: 0 },
            HwAction::StartTransfer { channel: 1 },
            HwAction::StartTransfer { channel: 2 },
            HwAction::StartTransfer { channel: 3 },
            HwAction::RearmSharedTimer,
        ]
    );
    for c in p.channels.iter() {
        assert_eq!(c.state, ChannelState::Transmitting);
        assert_eq!(c.loaded, 768);
    }
    assert_eq!(arb.mask, 0);
}

#[test]
fn completion_with_flag_pauses_only_its_channel() {
    let (mut p, mut arb) = fresh();
    dispatch_event(&mut p, &mut arb, Event::Tick);
    let actions = dispatch_event(
        &mut p,
        &mut arb,
        Event::Completion { channel: 2, flag_set: true },
    );
    assert_eq!(
        actions,
        vec![
            HwAction::ClearCompletionFlag { channel: 2 },
            HwAction::PauseTransfer { channel: 2 },
        ]
    );
    assert_eq!(
        states(&p),
        vec![
            ChannelState::Transmitting,
            ChannelState::Transmitting,
            ChannelState::Idle,
            ChannelState::Transmitting,
        ]
    );
}

#[test]
fn completion_without_flag_is_a_no_op() {
    let (mut p, mut arb) = fresh();
    let actions = dispatch_event(
        &mut p,
        &mut arb,
        Event::Completion { channel: 0, flag_set: false },
    );
    assert_eq!(actions, vec![]);
    assert_eq!(states(&p), vec![ChannelState::Idle; 4]);
    dispatch_event(&mut p, &mut arb, Event::Tick);
    let actions = dispatch_event(
        &mut p,
        &mut arb,
        Event::Completion { channel: 1, flag_set: false },
    );
    assert_eq!(actions, vec![]);
    assert_eq!(states(&p), vec![ChannelState::Transmitting; 4]);
}

#[test]
fn full_control_period_scenario() {
    let (mut p, mut arb) = fresh();

    // The controller commands axis value 128.
    let msg = Some(Command::Controller { right_trigger: 128 });
    dispatch_event(&mut p, &mut arb, Event::ControllerInput { message: msg });
    assert_eq!(throttles(&p), vec![32768; 4]);

    // The next tick arms every channel with that throttle.
    dispatch_event(&mut p, &mut arb, Event::Tick);
    for c in p.channels.iter() {
        assert_eq!(c.loaded, 32768);
        assert_eq!(c.state, ChannelState::Transmitting);
    }

    // A malformed controller byte stream leaves the throttle in place.
    dispatch_event(&mut p, &mut arb, Event::ControllerInput { message: None });
    assert_eq!(throttles(&p), vec![32768; 4]);

    // All four completion events bring the channels back to idle
    // before the next tick fires.
    for channel in 0..NUM_CHANNELS {
        dispatch_event(&mut p, &mut arb, Event::Completion { channel, flag_set: true });
    }
    assert_eq!(states(&p), vec![ChannelState::Idle; 4]);
    assert_eq!(throttles(&p), vec![32768; 4]);

    // The following period arms them all again.
    dispatch_event(&mut p, &mut arb, Event::Tick);
    assert_eq!(states(&p), vec![ChannelState::Transmitting; 4]);
    assert_eq!(arb.mask, 0);
}

#[test]
fn run_trace_collects_actions_in_order() {
    let (mut p, mut arb) = fresh();
    let events = vec![
        Event::ControllerInput { message: Some(Command::Controller { right_trigger: 2 }) },
        Event::Tick,
        Event::Completion { channel: 0, flag_set: true },
        Event::Completion { channel: 1, flag_set: false },
    ];
    let actions = run_trace(&mut p, &mut arb, &events);
    assert_eq!(
        actions,
        vec![
            HwAction::ClearTickFlag,
            HwAction::StartTransfer { channel: 0 },
            HwAction::StartTransfer { channel: 1 },
            HwAction::StartTransfer { channel: 2 },
            HwAction::StartTransfer { channel: 3 },
            HwAction::RearmSharedTimer,
            HwAction::ClearCompletionFlag { channel: 0 },
            HwAction::PauseTransfer { channel: 0 },
        ]
    );
    assert_eq!(throttles(&p), vec![512; 4]);
    assert_eq!(
        states(&p),
        vec![
            ChannelState::Idle,
            ChannelState::Transmitting,
            ChannelState::Transmitting,
            ChannelState::Transmitting,
        ]
    );
    assert_eq!(arb.mask, 0);
}

#[test]
fn completion_latency_is_bounded_by_section_length() {
    // Pending at 5 during a section [3, 10) whose ceiling covers the
    // handler: dispatched when the section closes, 5 units later —
    // within the section's own length of 7.
    assert_eq!(dispatch_latency(5, 3, 10, 3, 3), 5);
    // Pending right after the section opened: the worst case, the whole
    // section length.
    assert_eq!(dispatch_latency(3, 3, 10, 3, 3), 7);
    // A handler above the ceiling preempts at once.
    assert_eq!(dispatch_latency(5, 3, 10, 3, 2), 0);
}
