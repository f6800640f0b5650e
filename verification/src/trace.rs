//! The system as one state machine over interrupt events.
//!
//! Each interrupt invocation is one `Event`; `dispatch_event` is the
//! verified handler table, and `spec_step` / `spec_run` are the
//! mathematical transition function and its fold over a whole event
//! trace. The trace lemmas state the system-wide laws: rejected serial
//! input never moves the state, and — as long as each arming's
//! completion event arrives before the next tick, the hardware's
//! steady-state guarantee — a channel is never armed twice without an
//! intervening pause.

use vstd::prelude::*;

use crate::channel::{Channel, ChannelState};
use crate::command::{spec_scale_axis, Command, Fix};
use crate::pipeline::{
    spec_all_throttles, spec_armed, spec_completion_actions, spec_tick_actions, HwAction, Pipeline,
    NUM_CHANNELS,
};
use crate::sched::{Arbiter, PRIO_COMPLETION, PRIO_SERIAL, PRIO_TICK};

verus! {

/// One interrupt invocation, as the handlers see it once the shell has
/// done the raw peripheral reads.
#[derive(Clone, Copy, Debug)]
pub enum Event {
    /// The controller link's data-ready interrupt: the decoded message,
    /// or `None` when the bytes were incomplete or malformed.
    ControllerInput { message: Option<Command> },
    /// The receiver link's data-ready interrupt: the decoded fix, or
    /// `None`; discarded either way.
    GpsInput { fix: Option<Fix> },
    /// The periodic timer fired: one control period begins.
    Tick,
    /// `channel`'s transfer-completion line fired; `flag_set` is the
    /// hardware completion flag for that specific channel.
    Completion { channel: usize, flag_set: bool },
}

/// The static priority of the handler an event is bound to.
pub open spec fn prio_of(e: Event) -> u8 {
    match e {
        Event::ControllerInput { .. } => PRIO_SERIAL,
        Event::GpsInput { .. } => PRIO_SERIAL,
        Event::Tick => PRIO_TICK,
        Event::Completion { .. } => PRIO_COMPLETION,
    }
}

/// The fixed dispatch table's priority column, as executable code for
/// the shell that routes raw interrupts.
pub fn event_priority(e: &Event) -> (prio: u8)
    ensures
        prio == prio_of(*e),
{
    match e {
        Event::ControllerInput { .. } => PRIO_SERIAL,
        Event::GpsInput { .. } => PRIO_SERIAL,
        Event::Tick => PRIO_TICK,
        Event::Completion { .. } => PRIO_COMPLETION,
    }
}

/// An event names only channels that exist.
pub open spec fn event_wf(e: Event) -> bool {
    e matches Event::Completion { channel, .. } ==> channel < NUM_CHANNELS
}

/// Every event of a trace is well formed.
pub open spec fn events_wf(events: Seq<Event>) -> bool {
    forall|k: int| 0 <= k < events.len() ==> event_wf(#[trigger] events[k])
}

/// The transition function: what one event does to the channel state.
pub open spec fn spec_step(s: Seq<Channel>, e: Event) -> Seq<Channel> {
    match e {
        Event::ControllerInput { message } => match message {
            Some(Command::Controller { right_trigger }) => spec_all_throttles(
                s,
                spec_scale_axis(right_trigger),
            ),
            None => s,
        },
        Event::GpsInput { .. } => s,
        Event::Tick => spec_armed(s),
        Event::Completion { channel, flag_set } => if flag_set && channel < s.len() {
            s.update(
                channel as int,
                (Channel { state: ChannelState::Idle, ..s[channel as int] }),
            )
        } else {
            s
        },
    }
}

/// The hardware actions one event demands of the shell.
pub open spec fn spec_event_actions(e: Event) -> Seq<HwAction> {
    match e {
        Event::Tick => spec_tick_actions(),
        Event::Completion { channel, flag_set } => if flag_set {
            spec_completion_actions(channel)
        } else {
            Seq::empty()
        },
        _ => Seq::empty(),
    }
}

/// The hardware actions a whole trace demands, in order.
pub open spec fn spec_trace_actions(events: Seq<Event>) -> Seq<HwAction>
    decreases events.len(),
{
    if events.len() == 0 {
        Seq::empty()
    } else {
        spec_event_actions(events[0]) + spec_trace_actions(events.drop_first())
    }
}

/// A whole trace, folded from the front.
pub open spec fn spec_run(s: Seq<Channel>, events: Seq<Event>) -> Seq<Channel>
    decreases events.len(),
{
    if events.len() == 0 {
        s
    } else {
        spec_run(spec_step(s, events[0]), events.drop_first())
    }
}

/// The state after the first `n` events of a trace.
pub open spec fn spec_run_prefix(s: Seq<Channel>, events: Seq<Event>, n: int) -> Seq<Channel> {
    spec_run(s, events.take(n))
}

/// The verified handler table: route one event to its handler, at its
/// handler's priority. The channel state moves exactly as `spec_step`
/// says, the arbiter mask comes back as it was, and the returned actions
/// are exactly the ones the event demands, in order.
pub fn dispatch_event(p: &mut Pipeline, arb: &mut Arbiter, event: Event) -> (actions: Vec<
    HwAction,
>)
    requires
        old(p).wf(),
        event_wf(event),
        old(arb).may_dispatch(prio_of(event)),
    ensures
        final(p).wf(),
        *final(arb) == *old(arb),
        final(p).channels@ == spec_step(old(p).channels@, event),
        actions@ =~= spec_event_actions(event),
{
    match event {
        Event::ControllerInput { message } => {
            p.on_controller_input(arb, message);
            Vec::new()
        },
        Event::GpsInput { fix } => {
            p.on_gps_input(arb, fix);
            Vec::new()
        },
        Event::Tick => p.on_tick(arb),
        Event::Completion { channel, flag_set } => p.on_completion(arb, channel, flag_set),
    }
}

/// A controller invocation whose bytes did not decode to a message.
pub open spec fn is_rejected_input(e: Event) -> bool {
    e == (Event::ControllerInput { message: None })
}

/// A tick event.
pub open spec fn is_tick(e: Event) -> bool {
    e is Tick
}

/// The completion event that actually pauses `channel`: its line fired
/// with its hardware flag set.
pub open spec fn is_finish(e: Event, channel: usize) -> bool {
    e == (Event::Completion { channel, flag_set: true })
}

/// Some event strictly between positions `i` and `j` pauses `channel`.
pub open spec fn has_finish_between(events: Seq<Event>, channel: usize, i: int, j: int) -> bool {
    exists|k: int| i < k < j && #[trigger] is_finish(events[k], channel)
}

/// The hardware's steady-state pacing guarantee for one channel:
/// between any two ticks of the trace, the channel's completion event
/// fires with its flag set.
pub open spec fn completion_paced(events: Seq<Event>, channel: usize) -> bool {
    forall|i: int, j: int|
        0 <= i < j < events.len() && #[trigger] is_tick(events[i]) && #[trigger] is_tick(events[j])
            ==> has_finish_between(events, channel, i, j)
}

/// Rejected serial input is idempotent: a trace made only of controller
/// invocations that decoded nothing leaves the whole channel state —
/// every throttle included — exactly where it was, however long the
/// trace is.
pub proof fn lemma_rejected_inputs_change_nothing(s: Seq<Channel>, events: Seq<Event>)
    requires
        forall|k: int| 0 <= k < events.len() ==> is_rejected_input(#[trigger] events[k]),
    ensures
        spec_run(s, events) == s,
    decreases events.len(),
{
    if events.len() > 0 {
        assert(is_rejected_input(events[0]));
        assert(spec_step(s, events[0]) == s);
        assert(forall|k: int|
            0 <= k < events.drop_first().len() ==> is_rejected_input(
                #[trigger] events.drop_first()[k],
            ));
        lemma_rejected_inputs_change_nothing(s, events.drop_first());
    }
}

/// Folding one more event onto a run is one more step.
proof fn lemma_run_snoc(s: Seq<Channel>, events: Seq<Event>, e: Event)
    ensures
        spec_run(s, events.push(e)) == spec_step(spec_run(s, events), e),
    decreases events.len(),
{
    reveal_with_fuel(spec_run, 3);
    if events.len() == 0 {
        assert(events.push(e)[0] == e);
        assert(events.push(e).drop_first() =~= Seq::<Event>::empty());
    } else {
        assert(events.push(e)[0] == events[0]);
        assert(events.push(e).drop_first() =~= events.drop_first().push(e));
        lemma_run_snoc(spec_step(s, events[0]), events.drop_first(), e);
    }
}

/// Folding one more event onto a trace's action list appends that
/// event's actions.
proof fn lemma_trace_actions_snoc(events: Seq<Event>, e: Event)
    ensures
        spec_trace_actions(events.push(e)) == spec_trace_actions(events) + spec_event_actions(e),
    decreases events.len(),
{
    reveal_with_fuel(spec_trace_actions, 3);
    if events.len() == 0 {
        assert(events.push(e)[0] == e);
        assert(events.push(e).drop_first() =~= Seq::<Event>::empty());
        assert(spec_trace_actions(events.push(e)) =~= spec_trace_actions(events)
            + spec_event_actions(e));
    } else {
        assert(events.push(e)[0] == events[0]);
        assert(events.push(e).drop_first() =~= events.drop_first().push(e));
        lemma_trace_actions_snoc(events.drop_first(), e);
        assert(spec_trace_actions(events.push(e)) =~= spec_trace_actions(events)
            + spec_event_actions(e));
    }
}

/// Drive a whole event trace through the handler table, collecting every
/// hardware action in order. The channel state lands exactly where the
/// trace fold says, and the arbiter comes back as it went in: every
/// handler invocation finds the mask at rest, as the interrupt hardware
/// guarantees between invocations.
pub fn run_trace(p: &mut Pipeline, arb: &mut Arbiter, events: &Vec<Event>) -> (actions: Vec<
    HwAction,
>)
    requires
        old(p).wf(),
        events_wf(events@),
        old(arb).mask == 0,
    ensures
        final(p).wf(),
        *final(arb) == *old(arb),
        final(p).channels@ == spec_run(old(p).channels@, events@),
        actions@ == spec_trace_actions(events@),
{
    let ghost init = old(p).channels@;
    let ghost init_arb = *old(arb);
    let mut actions: Vec<HwAction> = Vec::new();
    let mut i: usize = 0;
    while i < events.len()
        invariant
            p.wf(),
            *arb == init_arb,
            init_arb.mask == 0,
            i <= events.len(),
            events_wf(events@),
            p.channels@ == spec_run(init, events@.take(i as int)),
            actions@ == spec_trace_actions(events@.take(i as int)),
        decreases events.len() - i,
    {
        let event = events[i];
        proof {
            assert(event_wf(events@[i as int]));
            assert(prio_of(event) >= PRIO_SERIAL);
            assert(events@.take(i + 1) =~= events@.take(i as int).push(events@[i as int]));
            lemma_run_snoc(init, events@.take(i as int), events@[i as int]);
            lemma_trace_actions_snoc(events@.take(i as int), events@[i as int]);
        }
        let mut step_actions = dispatch_event(p, arb, event);
        actions.append(&mut step_actions);
        i = i + 1;
    }
    proof {
        assert(events@.take(events@.len() as int) =~= events@);
    }
    actions
}

/// The history invariant behind the legality law: after any prefix of a
/// trace, a channel is transmitting exactly when some tick armed it and
/// no completion of that channel has fired since.
proof fn lemma_transmitting_iff_open_start(
    s: Seq<Channel>,
    events: Seq<Event>,
    channel: usize,
    n: int,
)
    requires
        s.len() == NUM_CHANNELS,
        channel < NUM_CHANNELS,
        s[channel as int].state is Idle,
        0 <= n <= events.len(),
    ensures
        spec_run_prefix(s, events, n).len() == NUM_CHANNELS,
        spec_run_prefix(s, events, n)[channel as int].state is Transmitting <==> exists|i: int|
            0 <= i < n && #[trigger] is_tick(events[i]) && !has_finish_between(
                events,
                channel,
                i,
                n,
            ),
    decreases n,
{
    if n == 0 {
        assert(events.take(0) =~= Seq::<Event>::empty());
    } else {
        lemma_transmitting_iff_open_start(s, events, channel, n - 1);
        let prev = spec_run_prefix(s, events, n - 1);
        let cur = spec_run_prefix(s, events, n);
        let e = events[n - 1];
        assert(events.take(n) =~= events.take(n - 1).push(e));
        lemma_run_snoc(s, events.take(n - 1), e);
        assert(cur == spec_step(prev, e));
        if is_tick(e) {
            assert(cur[channel as int].state is Transmitting);
            assert(!has_finish_between(events, channel, n - 1, n));
            assert(0 <= n - 1 < n && is_tick(events[n - 1]) && !has_finish_between(
                events,
                channel,
                n - 1,
                n,
            ));
        } else if is_finish(e, channel) {
            assert(cur[channel as int].state is Idle);
            assert forall|i: int| 0 <= i < n && #[trigger] is_tick(events[i]) implies
                has_finish_between(events, channel, i, n) by {
                assert(i != n - 1);
                assert(i < n - 1 < n && is_finish(events[n - 1], channel));
            }
        } else {
            assert(cur[channel as int].state == prev[channel as int].state);
            if prev[channel as int].state is Transmitting {
                let i = choose|i: int|
                    0 <= i < n - 1 && #[trigger] is_tick(events[i]) && !has_finish_between(
                        events,
                        channel,
                        i,
                        n - 1,
                    );
                assert forall|k: int| i < k < n implies !is_finish(
                    #[trigger] events[k],
                    channel,
                ) by {
                    if k < n - 1 {
                        assert(!has_finish_between(events, channel, i, n - 1));
                    }
                }
                assert(!has_finish_between(events, channel, i, n));
                assert(0 <= i < n && is_tick(events[i]) && !has_finish_between(
                    events,
                    channel,
                    i,
                    n,
                ));
            }
            if cur[channel as int].state is Transmitting {
                let i = choose|i: int|
                    0 <= i < n && #[trigger] is_tick(events[i]) && !has_finish_between(
                        events,
                        channel,
                        i,
                        n,
                    );
                assert(i != n - 1);
                assert forall|k: int| i < k < n - 1 implies !is_finish(
                    #[trigger] events[k],
                    channel,
                ) by {
                    assert(!has_finish_between(events, channel, i, n));
                }
                assert(!has_finish_between(events, channel, i, n - 1));
                assert(0 <= i < n - 1 && is_tick(events[i]) && !has_finish_between(
                    events,
                    channel,
                    i,
                    n - 1,
                ));
            }
        }
    }
}

/// The per-channel ordering guarantee: a completion that finds its
/// channel transmitting is always matched by an earlier tick whose
/// arming is still open — a pause can never be observed before the
/// arming it belongs to.
pub proof fn lemma_pause_matches_earlier_start(
    s: Seq<Channel>,
    events: Seq<Event>,
    channel: usize,
    n: int,
)
    requires
        s.len() == NUM_CHANNELS,
        channel < NUM_CHANNELS,
        s[channel as int].state is Idle,
        0 <= n < events.len(),
        spec_run_prefix(s, events, n)[channel as int].state is Transmitting,
    ensures
        exists|i: int|
            0 <= i < n && #[trigger] is_tick(events[i]) && !has_finish_between(
                events,
                channel,
                i,
                n,
            ),
{
    lemma_transmitting_iff_open_start(s, events, channel, n);
}

/// State-machine legality: provided each arming's completion event
/// arrives before the next tick — the pacing the hardware guarantees in
/// steady state — every tick finds the channel idle. Armings and pauses
/// therefore strictly alternate: a channel is never started twice
/// without an intervening pause.
pub proof fn lemma_no_double_start(s: Seq<Channel>, events: Seq<Event>, channel: usize, j: int)
    requires
        s.len() == NUM_CHANNELS,
        channel < NUM_CHANNELS,
        s[channel as int].state is Idle,
        completion_paced(events, channel),
        0 <= j < events.len(),
        is_tick(events[j]),
    ensures
        spec_run_prefix(s, events, j)[channel as int].state is Idle,
{
    lemma_transmitting_iff_open_start(s, events, channel, j);
    if spec_run_prefix(s, events, j)[channel as int].state is Transmitting {
        let i = choose|i: int|
            0 <= i < j && #[trigger] is_tick(events[i]) && !has_finish_between(
                events,
                channel,
                i,
                j,
            );
        assert(has_finish_between(events, channel, i, j));
        assert(false);
    }
}

} // verus!
