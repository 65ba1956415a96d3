//! What holds of every measurement.

use crate::error::HcSr04Error;
use crate::protocol::{
    in_progress, next_phase, passed_over, pending_action, phase_after, run, Action, Edge, Event,
    Level, Phase, TRIGGER_PULSE_MICROSECS, TRIGGER_SETTLE_MICROSECS,
};
use crate::resolver::{echo_picometres, lemma_echo_distance, too_close};
use crate::sensor::HcSr04;
use crate::timing::{elapsed_between, remaining_budget};
use crate::units::DistanceUnit;
use vstd::prelude::*;

verus! {

/// The reports of a trigger pulse on which every step went well.
pub open spec fn clean_pulse() -> Seq<Event> {
    seq![Event::LevelSet, Event::Held, Event::LevelSet, Event::Held, Event::LevelSet]
}

/// The reports of a measurement on which the pulse went well, the
/// subscription was granted at `start`, and the events in `echo` followed.
pub open spec fn after_pulse(start: u64, echo: Seq<Event>) -> Seq<Event> {
    clean_pulse() + seq![Event::Subscribed { at: start }] + echo
}

/// What is done on the trigger line to arm the sensor.
pub open spec fn trigger_pulse() -> Seq<Action> {
    seq![
        Action::SetLevel(Level::Low),
        Action::Hold(TRIGGER_SETTLE_MICROSECS),
        Action::SetLevel(Level::High),
        Action::Hold(TRIGGER_PULSE_MICROSECS),
        Action::SetLevel(Level::Low),
    ]
}

/// Whether none of `events` is a rising edge.
pub open spec fn no_rising_edge(events: Seq<Event>) -> bool {
    forall|i: int|
        0 <= i < events.len() ==> !(#[trigger] events[i] matches Event::Edge {
            edge: Edge::Rising,
            ..
        })
}

/// Whether the reports `j - 1` and `j` of `events` are a rising edge and the
/// falling edge after it, and `cm` is the distance of the time between them.
pub open spec fn echo_at(events: Seq<Event>, j: int, cm: DistanceUnit) -> bool {
    &&& 1 <= j < events.len()
    &&& events[j - 1] matches Event::Edge { edge: Edge::Rising, at: rise }
    &&& events[j] matches Event::Edge { edge: Edge::Falling, at: fall }
    &&& cm == DistanceUnit::Cm(echo_picometres(elapsed_between(rise, fall)) as u128)
}

/// How many of the first `n` of `events` a measurement that sets out from
/// `phase` passes over as noise.
pub open spec fn noise_among(budget: u128, phase: Phase, events: Seq<Event>, n: nat) -> nat
    decreases n,
{
    if n == 0 {
        0
    } else {
        let before = phase_after(budget, phase, events, (n - 1) as nat);
        let earlier = noise_among(budget, phase, events, (n - 1) as nat);
        if passed_over(budget, before, events[n - 1]) {
            earlier + 1
        } else {
            earlier
        }
    }
}

/// The most reports, noise apart, that a measurement in this phase can still
/// take before it has ended.
pub open spec fn steps_left(phase: Phase) -> nat {
    match phase {
        Phase::Lowering => 8,
        Phase::SettlingLow => 7,
        Phase::Raising => 6,
        Phase::HoldingHigh => 5,
        Phase::Releasing => 4,
        Phase::Subscribing => 3,
        Phase::AwaitingRisingEdge { .. } => 2,
        Phase::AwaitingFallingEdge { .. } => 1,
        Phase::Idle => 0,
        Phase::Computed { .. } => 0,
        Phase::Failed { .. } => 0,
    }
}

/// Running over two runs of reports one after the other is running over the
/// first and going on from there over the second.
pub proof fn lemma_run_in_two_parts(
    budget: u128,
    phase: Phase,
    first: Seq<Event>,
    then: Seq<Event>,
    n: nat,
)
    requires
        n <= then.len(),
    ensures
        phase_after(budget, phase, first + then, first.len() + n) == phase_after(
            budget,
            run(budget, phase, first),
            then,
            n,
        ),
    decreases n,
{
    let all = first + then;
    if n == 0 {
        lemma_run_of_a_prefix(budget, phase, first, all, first.len());
    } else {
        lemma_run_in_two_parts(budget, phase, first, then, (n - 1) as nat);
        assert(all[first.len() + n - 1] == then[n - 1]);
    }
}

proof fn lemma_run_of_a_prefix(
    budget: u128,
    phase: Phase,
    part: Seq<Event>,
    all: Seq<Event>,
    n: nat,
)
    requires
        n <= part.len() <= all.len(),
        forall|i: int| 0 <= i < part.len() ==> part[i] == all[i],
    ensures
        phase_after(budget, phase, all, n) == phase_after(budget, phase, part, n),
    decreases n,
{
    if n > 0 {
        lemma_run_of_a_prefix(budget, phase, part, all, (n - 1) as nat);
    }
}

/// After a pulse that went well and a subscription granted at `start`, the
/// rising edge is awaited for the whole budget.
pub proof fn lemma_pulse_then_subscription(budget: u128, start: u64)
    ensures
        run(budget, Phase::Lowering, clean_pulse() + seq![Event::Subscribed { at: start }]) == (
        Phase::AwaitingRisingEdge { start, remaining: budget }),
{
    let events = clean_pulse() + seq![Event::Subscribed { at: start }];
    assert(events.len() == 6);
    reveal_with_fuel(phase_after, 7);
}

/// A whole measurement whose pulse went well is what follows from awaiting
/// the rising edge with the whole budget.
pub proof fn lemma_echo_part(budget: u128, start: u64, echo: Seq<Event>, n: nat)
    requires
        n <= echo.len(),
    ensures
        phase_after(budget, Phase::Lowering, after_pulse(start, echo), 6 + n) == phase_after(
            budget,
            Phase::AwaitingRisingEdge { start, remaining: budget },
            echo,
            n,
        ),
{
    let head = clean_pulse() + seq![Event::Subscribed { at: start }];
    assert(head.len() == 6);
    lemma_pulse_then_subscription(budget, start);
    lemma_run_in_two_parts(budget, Phase::Lowering, head, echo, n);
}

/// A measurement opens with the trigger pulse and with nothing else: the line
/// goes low, rests for 2 microseconds, goes high, is held for 10
/// microseconds and goes low again, in this order, each step asked for when
/// the one before it went well. Then the echo line is subscribed to.
pub proof fn lemma_trigger_pulse(budget: u128)
    ensures
        forall|i: nat|
            i < 5 ==> pending_action(
                #[trigger] phase_after(budget, Phase::Lowering, clean_pulse(), i),
            ) == trigger_pulse()[i as int],
        pending_action(run(budget, Phase::Lowering, clean_pulse())) == Action::Subscribe,
{
    reveal_with_fuel(phase_after, 6);
}

/// A level that the trigger line refuses ends the measurement with `Io`, at
/// whichever of the three steps it happens.
pub proof fn lemma_refused_level_is_io(budget: u128, phase: Phase)
    requires
        pending_action(phase) is SetLevel,
    ensures
        next_phase(budget, phase, Event::LevelRefused) == (Phase::Failed { error: HcSr04Error::Io }),
{
}

/// A subscription that the echo line refuses ends the measurement with an
/// error of its own, after a pulse that went well.
pub proof fn lemma_refused_subscription(budget: u128)
    ensures
        run(budget, Phase::Lowering, clean_pulse() + seq![Event::SubscriptionRefused]) == (
        Phase::Failed { error: HcSr04Error::LineEventHandleRequest }),
{
    let events = clean_pulse() + seq![Event::SubscriptionRefused];
    assert(events.len() == 6);
    reveal_with_fuel(phase_after, 7);
}

/// A wait that fails and an event that cannot be read are failures of their
/// own and end the measurement with `Io`, on either wait; neither is taken
/// for a timeout or let pass.
pub proof fn lemma_failed_wait_is_io(budget: u128, phase: Phase, event: Event)
    requires
        phase is AwaitingRisingEdge || phase is AwaitingFallingEdge,
        event is WaitFailed || event is Unreadable,
    ensures
        next_phase(budget, phase, event) == (Phase::Failed { error: HcSr04Error::Io }),
{
}

/// The wait for the rising edge gets the whole budget at first, and every
/// wait after an event what is left of it at the time of that event.
pub proof fn lemma_waits_get_what_is_left(budget: u128, start: u64, edge: Edge, at: u64)
    ensures
        pending_action(Phase::AwaitingRisingEdge { start, remaining: budget }) == Action::AwaitEdge(
            budget,
        ),
        remaining_budget(budget, start, at) <= budget,
        in_progress(
            next_phase(
                budget,
                Phase::AwaitingRisingEdge { start, remaining: budget },
                Event::Edge { edge, at },
            ),
        ) ==> pending_action(
            next_phase(
                budget,
                Phase::AwaitingRisingEdge { start, remaining: budget },
                Event::Edge { edge, at },
            ),
        ) == Action::AwaitEdge(remaining_budget(budget, start, at) as u128),
{
}

/// A falling edge that comes before the rising edge starts nothing: the
/// rising edge stays awaited, from the same start of the clock, for what is
/// left of the budget. Once nothing is left, the time has run out.
pub proof fn lemma_noise_is_passed_over(
    budget: u128,
    start: u64,
    remaining: u128,
    at: u64,
)
    ensures
        remaining_budget(budget, start, at) > 0 ==> next_phase(
            budget,
            Phase::AwaitingRisingEdge { start, remaining },
            Event::Edge { edge: Edge::Falling, at },
        ) == (Phase::AwaitingRisingEdge {
            start,
            remaining: remaining_budget(budget, start, at) as u128,
        }),
        remaining_budget(budget, start, at) == 0 ==> next_phase(
            budget,
            Phase::AwaitingRisingEdge { start, remaining },
            Event::Edge { edge: Edge::Falling, at },
        ) == (Phase::Failed { error: HcSr04Error::PollFd }),
        elapsed_between(start, at) >= budget ==> remaining_budget(budget, start, at) == 0,
{
}

/// An echo pulse that rises `wait` nanoseconds after the subscription and
/// falls `tof` nanoseconds later is resolved to `171_500 * tof` picometres,
/// which is `50 * 343 * tof` centimetres with `tof` in seconds, whatever the
/// budget and however long the rising edge took. The sensor reports that
/// distance unless it lies below its threshold.
pub proof fn lemma_echo_resolves_time_of_flight(sensor: HcSr04, start: u64, wait: u64, tof: u64)
    requires
        start + wait + tof <= u64::MAX,
        sensor.phase() == run(
            sensor.budget(),
            Phase::Lowering,
            after_pulse(
                start,
                seq![
                    Event::Edge { edge: Edge::Rising, at: (start + wait) as u64 },
                    Event::Edge { edge: Edge::Falling, at: (start + wait + tof) as u64 },
                ],
            ),
        ),
    ensures
        sensor.phase() == (Phase::Computed {
            distance: Some(DistanceUnit::Cm((171_500 * tof) as u128)),
        }),
        DistanceUnit::Cm((171_500 * tof) as u128).measures((50 * 343 * tof) as nat, 1_000_000_000),
        !too_close(DistanceUnit::Cm((171_500 * tof) as u128), sensor.dist_threshold())
            ==> sensor.reported() == Ok::<DistanceUnit, HcSr04Error>(
            DistanceUnit::Cm((171_500 * tof) as u128),
        ),
        too_close(DistanceUnit::Cm((171_500 * tof) as u128), sensor.dist_threshold())
            ==> sensor.reported() == Err::<DistanceUnit, HcSr04Error>(HcSr04Error::Io),
{
    let echo = seq![
        Event::Edge { edge: Edge::Rising, at: (start + wait) as u64 },
        Event::Edge { edge: Edge::Falling, at: (start + wait + tof) as u64 },
    ];
    assert(after_pulse(start, echo).len() == 8);
    lemma_echo_part(sensor.budget(), start, echo, 2);
    reveal_with_fuel(phase_after, 3);
    lemma_echo_distance(tof);
}

/// Noise before the echo changes nothing: where falling edges come first,
/// each while something is left of the budget, and the pulse then rises at
/// `rise` and falls at `fall`, the distance is that of the time from `rise`
/// to `fall`.
pub proof fn lemma_noise_before_the_echo(
    budget: u128,
    start: u64,
    noise: Seq<Event>,
    rise: u64,
    fall: u64,
)
    requires
        forall|i: int|
            0 <= i < noise.len() ==> (#[trigger] noise[i] matches Event::Edge {
                edge: Edge::Falling,
                at,
            } && remaining_budget(budget, start, at) > 0),
    ensures
        run(
            budget,
            Phase::Lowering,
            after_pulse(
                start,
                noise + seq![
                    Event::Edge { edge: Edge::Rising, at: rise },
                    Event::Edge { edge: Edge::Falling, at: fall },
                ],
            ),
        ) == (Phase::Computed {
            distance: Some(DistanceUnit::Cm(echo_picometres(elapsed_between(rise, fall)) as u128)),
        }),
{
    let tail = seq![
        Event::Edge { edge: Edge::Rising, at: rise },
        Event::Edge { edge: Edge::Falling, at: fall },
    ];
    let echo = noise + tail;
    let waiting = Phase::AwaitingRisingEdge { start, remaining: budget };
    lemma_only_noise_keeps_waiting(budget, start, noise, noise.len());
    lemma_run_in_two_parts(budget, waiting, noise, tail, 2);
    reveal_with_fuel(phase_after, 3);
    assert(after_pulse(start, echo).len() == 6 + echo.len());
    lemma_echo_part(budget, start, echo, echo.len());
}

proof fn lemma_only_noise_keeps_waiting(budget: u128, start: u64, noise: Seq<Event>, n: nat)
    requires
        n <= noise.len(),
        forall|i: int|
            0 <= i < noise.len() ==> (#[trigger] noise[i] matches Event::Edge {
                edge: Edge::Falling,
                at,
            } && remaining_budget(budget, start, at) > 0),
    ensures
        phase_after(budget, Phase::AwaitingRisingEdge { start, remaining: budget }, noise, n)
            matches Phase::AwaitingRisingEdge { start: s, .. } && s == start,
    decreases n,
{
    if n > 0 {
        lemma_only_noise_keeps_waiting(budget, start, noise, (n - 1) as nat);
        assert(noise[n - 1] is Edge);
    }
}

/// Without a rising edge there is no distance. Whatever else is reported
/// after the subscription, falling edges or anything, the measurement still
/// awaits the rising edge or has failed; it has never computed a distance,
/// and it never awaits the falling edge.
pub proof fn lemma_no_rising_edge_no_distance(budget: u128, start: u64, echo: Seq<Event>, n: nat)
    requires
        n <= echo.len(),
        no_rising_edge(echo),
    ensures
        ({
            let phase = phase_after(budget, Phase::Lowering, after_pulse(start, echo), 6 + n);
            phase is Failed || (phase matches Phase::AwaitingRisingEdge { start: s, .. } && s
                == start)
        }),
{
    lemma_without_rise(budget, start, echo, n);
    lemma_echo_part(budget, start, echo, n);
}

proof fn lemma_without_rise(budget: u128, start: u64, echo: Seq<Event>, n: nat)
    requires
        n <= echo.len(),
        no_rising_edge(echo),
    ensures
        ({
            let phase = phase_after(
                budget,
                Phase::AwaitingRisingEdge { start, remaining: budget },
                echo,
                n,
            );
            phase is Failed || (phase matches Phase::AwaitingRisingEdge { start: s, .. } && s
                == start)
        }),
    decreases n,
{
    if n > 0 {
        lemma_without_rise(budget, start, echo, (n - 1) as nat);
        let event = echo[n - 1];
        assert(!(event matches Event::Edge { edge: Edge::Rising, .. }));
    }
}

/// Where no rising edge comes within the budget, the measurement ends with
/// `PollFd` and reports no distance: whatever falling edges came before, the
/// wait that runs out ends it, and so does the falling edge that comes when
/// nothing is left of the budget.
pub proof fn lemma_no_rising_edge_is_timeout(
    sensor: HcSr04,
    start: u64,
    noise: Seq<Event>,
    last: Event,
)
    requires
        forall|i: int|
            0 <= i < noise.len() ==> (#[trigger] noise[i] matches Event::Edge {
                edge: Edge::Falling,
                at,
            } && remaining_budget(sensor.budget(), start, at) > 0),
        last is TimedOut || (last matches Event::Edge { edge: Edge::Falling, at }
            && remaining_budget(sensor.budget(), start, at) == 0),
        sensor.phase() == run(
            sensor.budget(),
            Phase::Lowering,
            after_pulse(start, noise + seq![last]),
        ),
    ensures
        sensor.phase() == (Phase::Failed { error: HcSr04Error::PollFd }),
        sensor.reading() == Err::<Option<DistanceUnit>, HcSr04Error>(HcSr04Error::PollFd),
        sensor.reported() == Err::<DistanceUnit, HcSr04Error>(HcSr04Error::PollFd),
{
    let budget = sensor.budget();
    let tail = seq![last];
    let echo = noise + tail;
    let waiting = Phase::AwaitingRisingEdge { start, remaining: budget };
    lemma_only_noise_keeps_waiting(budget, start, noise, noise.len());
    lemma_run_in_two_parts(budget, waiting, noise, tail, 1);
    reveal_with_fuel(phase_after, 2);
    assert(after_pulse(start, echo).len() == 6 + echo.len());
    lemma_echo_part(budget, start, echo, echo.len());
}

/// Where the rising edge came and nothing comes within what is left of the
/// budget, the measurement ends with `PollFd` and reports no distance.
pub proof fn lemma_no_falling_edge_is_timeout(sensor: HcSr04, start: u64, rise: u64)
    requires
        sensor.phase() == run(
            sensor.budget(),
            Phase::Lowering,
            after_pulse(
                start,
                seq![Event::Edge { edge: Edge::Rising, at: rise }, Event::TimedOut],
            ),
        ),
    ensures
        sensor.phase() == (Phase::Failed { error: HcSr04Error::PollFd }),
        sensor.reading() == Err::<Option<DistanceUnit>, HcSr04Error>(HcSr04Error::PollFd),
        sensor.reported() == Err::<DistanceUnit, HcSr04Error>(HcSr04Error::PollFd),
{
    let echo = seq![Event::Edge { edge: Edge::Rising, at: rise }, Event::TimedOut];
    assert(after_pulse(start, echo).len() == 8);
    lemma_echo_part(sensor.budget(), start, echo, 2);
    reveal_with_fuel(phase_after, 3);
}

/// The echo pulse counts from a rising edge and from nothing else. Whatever
/// is reported to a measurement, where it awaits the falling edge, the last
/// report was a rising edge and the pulse counts from the time of it; and
/// where it has computed a distance, the echo of that distance is among the
/// reports.
pub proof fn lemma_echo_is_on_record(budget: u128, events: Seq<Event>, n: nat)
    requires
        n <= events.len(),
    ensures
        ({
            let phase = phase_after(budget, Phase::Lowering, events, n);
            &&& phase matches Phase::AwaitingFallingEdge { rise, .. } ==> n >= 1 && (events[n
                - 1] matches Event::Edge { edge: Edge::Rising, at } && at == rise)
            &&& phase matches Phase::Computed { distance: Some(cm) } ==> exists|j: int|
                j < n && #[trigger] echo_at(events, j, cm)
        }),
    decreases n,
{
    if n > 0 {
        lemma_echo_is_on_record(budget, events, (n - 1) as nat);
        let before = phase_after(budget, Phase::Lowering, events, (n - 1) as nat);
        let phase = phase_after(budget, Phase::Lowering, events, n);
        if let Phase::Computed { distance: Some(cm) } = phase {
            if before is Computed {
                let j = choose|j: int| j < n - 1 && #[trigger] echo_at(events, j, cm);
                assert(j < n && echo_at(events, j, cm));
            } else {
                assert(before is AwaitingFallingEdge);
                assert(echo_at(events, n - 1, cm));
            }
        }
    }
}

/// A distance stands for an echo that was seen. Whatever is reported to a
/// measurement, where it has computed a distance, a rising edge and the
/// falling edge right after it are among the reports, and the distance is
/// that of the time between the two.
pub proof fn lemma_distance_has_its_echo(
    budget: u128,
    events: Seq<Event>,
    n: nat,
    cm: DistanceUnit,
)
    requires
        n <= events.len(),
        phase_after(budget, Phase::Lowering, events, n) == (Phase::Computed { distance: Some(cm) }),
    ensures
        exists|j: int| j < n && #[trigger] echo_at(events, j, cm),
{
    lemma_echo_is_on_record(budget, events, n);
}

/// No distance is made up. A sensor reports a distance only where a
/// measurement ended with one, and that distance does not lie below the
/// threshold; a distance below the threshold is reported as `Io`.
pub proof fn lemma_reported_distance_is_measured(sensor: HcSr04)
    ensures
        sensor.reported() matches Ok(cm) ==> {
            &&& sensor.phase() == (Phase::Computed { distance: Some(cm) })
            &&& sensor.dist_threshold() matches Some(least) ==> cm.picometres()
                >= least.picometres()
        },
        sensor.phase() matches Phase::Computed { distance: Some(cm) } ==> {
            too_close(cm, sensor.dist_threshold()) ==> sensor.reported() == Err::<
                DistanceUnit,
                HcSr04Error,
            >(HcSr04Error::Io)
        },
        sensor.phase() matches Phase::Failed { error } ==> sensor.reported() == Err::<
            DistanceUnit,
            HcSr04Error,
        >(error),
{
}

/// No wait is longer than the budget of the measurement, whatever was
/// reported before it.
pub proof fn lemma_waits_fit_the_budget(budget: u128, events: Seq<Event>, n: nat)
    ensures
        pending_action(phase_after(budget, Phase::Lowering, events, n)) matches Action::AwaitEdge(
            wait,
        ) ==> wait <= budget,
{
}

/// Every report that is not passed over as noise brings a measurement nearer
/// to its end, and noise leaves it where it is.
pub proof fn lemma_report_uses_up_a_step(budget: u128, phase: Phase, event: Event)
    requires
        in_progress(phase),
    ensures
        !passed_over(budget, phase, event) ==> steps_left(next_phase(budget, phase, event))
            < steps_left(phase),
        passed_over(budget, phase, event) ==> steps_left(next_phase(budget, phase, event))
            == steps_left(phase),
{
}

proof fn lemma_steps_run_out(budget: u128, events: Seq<Event>, n: nat)
    ensures
        noise_among(budget, Phase::Lowering, events, n) <= n,
        steps_left(phase_after(budget, Phase::Lowering, events, n)) + n <= 8 + noise_among(
            budget,
            Phase::Lowering,
            events,
            n,
        ) || !in_progress(phase_after(budget, Phase::Lowering, events, n)),
    decreases n,
{
    if n > 0 {
        lemma_steps_run_out(budget, events, (n - 1) as nat);
        let before = phase_after(budget, Phase::Lowering, events, (n - 1) as nat);
        if in_progress(before) {
            lemma_report_uses_up_a_step(budget, before, events[n - 1]);
        }
    }
}

/// A measurement has ended after eight reports at the latest, not counting
/// the noise that it passed over: nothing is waited for or tried a second
/// time. Noise is passed over only while something is left of the budget,
/// so on a clock that runs the budget bounds the measurement.
pub proof fn lemma_measurement_ends(budget: u128, events: Seq<Event>, n: nat)
    requires
        n >= 8 + noise_among(budget, Phase::Lowering, events, n),
    ensures
        !in_progress(phase_after(budget, Phase::Lowering, events, n)),
{
    lemma_steps_run_out(budget, events, n);
}

/// A distance comes from a falling edge that follows the rising edge and
/// from nothing else, and it is the distance of the time between the two.
pub proof fn lemma_distance_comes_from_a_falling_edge(
    budget: u128,
    phase: Phase,
    event: Event,
    cm: DistanceUnit,
)
    requires
        in_progress(phase),
        next_phase(budget, phase, event) == (Phase::Computed { distance: Some(cm) }),
    ensures
        phase matches Phase::AwaitingFallingEdge { rise, .. } && event matches Event::Edge {
            edge: Edge::Falling,
            at,
        } && cm == DistanceUnit::Cm(echo_picometres(elapsed_between(rise, at)) as u128),
{
}

/// A measurement that has ended stays as it is, whatever is reported to it,
/// and asks for nothing more.
pub proof fn lemma_ended_measurement_is_final(budget: u128, phase: Phase, event: Event)
    requires
        phase is Computed || phase is Failed,
    ensures
        next_phase(budget, phase, event) == phase,
        pending_action(phase) == Action::Finish,
{
}

} // verus!
