//! Whole runs of the sequence, and what holds of every one of them.
//!
//! A run is given by the time steps that the host hands in, one after the
//! other, starting from a fresh clock.

use vstd::prelude::*;
use crate::clock::{PhaseClock, PhaseTransition};
use crate::config::SequenceConfig;
use crate::motion::{eased, lemma_ease_endpoints, lemma_lerp_between, progress_of, unit};
use crate::phase::{order_up_to, phase_order, Phase};
use crate::sequencer::{offset_at, settled, ticked, visible_in};

verus! {

/// The time that a step of `delta` microseconds adds: a negative step counts
/// as zero.
pub open spec fn counted(delta: i64) -> int {
    if delta > 0 {
        delta as int
    } else {
        0
    }
}

/// The clock after the evaluations `deltas`, one after the other, from the
/// start.
pub open spec fn replayed(config: SequenceConfig, deltas: Seq<i64>) -> PhaseClock
    decreases deltas.len(),
{
    if deltas.len() == 0 {
        PhaseClock::start()
    } else {
        replayed(config, deltas.drop_last()).advanced(deltas.last(), config)
    }
}

/// The phases that the evaluations `deltas` have been in, in the order in
/// which they were entered: the first phase, then the target of every
/// transition that an evaluation reported.
pub open spec fn entered(config: SequenceConfig, deltas: Seq<i64>) -> Seq<Phase>
    decreases deltas.len(),
{
    if deltas.len() == 0 {
        seq![Phase::InitialHold]
    } else {
        let before = entered(config, deltas.drop_last());
        match replayed(config, deltas.drop_last()).event(deltas.last(), config) {
            Some(PhaseTransition::Advanced { from, to }) => before.push(to),
            _ => before,
        }
    }
}

/// The clock of a sequencer after the ticks `deltas`, from the start.
pub open spec fn run(config: SequenceConfig, deltas: Seq<i64>) -> PhaseClock
    decreases deltas.len(),
{
    if deltas.len() == 0 {
        PhaseClock::start()
    } else {
        ticked(run(config, deltas.drop_last()), deltas.last(), config)
    }
}

/// Whether a tick with `delta` in state `clock` reports the end of the
/// sequence: the sequence is over after the tick and was not over before it.
pub open spec fn fires(clock: PhaseClock, delta: i64, config: SequenceConfig) -> bool {
    ticked(clock, delta, config).is_done(config) && !clock.is_done(config)
}

/// On how many of the ticks `deltas` the end of the sequence is reported.
pub open spec fn signals(config: SequenceConfig, deltas: Seq<i64>) -> nat
    decreases deltas.len(),
{
    if deltas.len() == 0 {
        0
    } else {
        let earlier = signals(config, deltas.drop_last());
        if fires(run(config, deltas.drop_last()), deltas.last(), config) {
            earlier + 1
        } else {
            earlier
        }
    }
}

/// One evaluation keeps the phase or enters the one that follows it, never
/// another. It reports a transition exactly when the phase changed, naming
/// the phase left and the phase entered. The time in the phase starts again
/// at zero when the phase changes, and otherwise never goes down.
pub proof fn lemma_advance_one_phase(clock: PhaseClock, delta: i64, config: SequenceConfig)
    ensures
        ({
            let after = clock.advanced(delta, config);
            let event = clock.event(delta, config);
            &&& after.current_phase == clock.current_phase || Some(after.current_phase)
                == clock.current_phase.following()
            &&& after.current_phase.ordinal() >= clock.current_phase.ordinal()
            &&& after.current_phase != clock.current_phase <==> event == Some(
                PhaseTransition::Advanced { from: clock.current_phase, to: after.current_phase },
            )
            &&& after.current_phase != clock.current_phase ==> after.elapsed_in_phase == 0
            &&& after.current_phase == clock.current_phase ==> after.elapsed_in_phase
                >= clock.elapsed_in_phase
        }),
{
}

/// Once the sequence is over nothing changes any more: every evaluation and
/// every tick leaves the clock as it is, and reports the end again.
pub proof fn lemma_done_is_final(clock: PhaseClock, delta: i64, config: SequenceConfig)
    requires
        clock.is_done(config),
    ensures
        clock.advanced(delta, config) == clock,
        clock.event(delta, config) == Some(PhaseTransition::SequenceComplete),
        settled(clock, config) == clock,
        ticked(clock, delta, config) == clock,
        !fires(clock, delta, config),
{
    reveal_with_fuel(settled, 2);
}

/// A clock that has come to rest is either in a phase whose hold has not run
/// out, or at the end of the sequence. It is in the phase it was in or in a
/// later one, and where it moved on it stands at the start of its phase.
pub proof fn lemma_settled_rests(clock: PhaseClock, config: SequenceConfig)
    ensures
        ({
            let rest = settled(clock, config);
            &&& rest.current_phase.ordinal() >= clock.current_phase.ordinal()
            &&& rest.is_done(config) || rest.elapsed_in_phase < config.hold(rest.current_phase)
            &&& rest.current_phase != clock.current_phase ==> rest.elapsed_in_phase == 0
            &&& rest.current_phase == clock.current_phase ==> rest == clock
            &&& settled(rest, config) == rest
        }),
    decreases 4 - clock.current_phase.ordinal(),
{
    if clock.event(0, config) is Some && clock.event(0, config)->Some_0 is Advanced {
        lemma_settled_rests(clock.advanced(0, config), config);
    }
}

/// However long the holds are, the phases are entered in their fixed order,
/// none twice and none left out: what a run of evaluations has been in is the
/// fixed order up to the phase it is in now. A run that is over has been in
/// all five.
pub proof fn lemma_phases_in_order(config: SequenceConfig, deltas: Seq<i64>)
    ensures
        entered(config, deltas) == order_up_to(
            replayed(config, deltas).current_phase,
        ),
        entered(config, deltas).last() == replayed(config, deltas).current_phase,
        replayed(config, deltas).is_done(config) ==> entered(config, deltas) == phase_order(),
    decreases deltas.len(),
{
    if deltas.len() == 0 {
        assert(entered(config, deltas) =~= order_up_to(Phase::InitialHold));
    } else {
        let earlier = deltas.drop_last();
        lemma_phases_in_order(config, earlier);
        let before = replayed(config, earlier);
        lemma_advance_one_phase(before, deltas.last(), config);
        let after = before.advanced(deltas.last(), config);
        if after.current_phase != before.current_phase {
            assert(phase_order()[after.current_phase.ordinal() as int] == after.current_phase);
            assert(entered(config, deltas) =~= order_up_to(after.current_phase));
        }
    }
    assert(order_up_to(Phase::FinalHold) =~= phase_order());
}

/// With no hold at all every evaluation enters one more phase, whatever the
/// steps are, until the last phase is reached: after `n` evaluations the
/// clock is in phase `n` of the order, or in the last one.
pub proof fn lemma_zero_holds_one_phase_each(config: SequenceConfig, deltas: Seq<i64>)
    requires
        forall|phase: Phase| config.hold(phase) == 0,
    ensures
        replayed(config, deltas).current_phase.ordinal() == (if deltas.len() < 4 {
            deltas.len()
        } else {
            4
        }),
        replayed(config, deltas).elapsed_in_phase == 0,
    decreases deltas.len(),
{
    if deltas.len() > 0 {
        lemma_zero_holds_one_phase_each(config, deltas.drop_last());
        let before = replayed(config, deltas.drop_last());
        assert(config.hold(before.current_phase) == 0);
        assert(config.hold(Phase::FinalHold) == 0);
    }
}

/// The number of evaluations without time that a clock needs to come to rest.
pub open spec fn rest_steps(clock: PhaseClock, config: SequenceConfig) -> nat
    decreases 4 - clock.current_phase.ordinal(),
{
    if clock.event(0, config) is Some && clock.event(0, config)->Some_0 is Advanced {
        1 + rest_steps(clock.advanced(0, config), config)
    } else {
        0
    }
}

/// The evaluations that a sequencer makes of its clock on the ticks
/// `deltas`: for each tick one with the step of the tick, then as many
/// without time as the clock needs to come to rest.
pub open spec fn evaluations(config: SequenceConfig, deltas: Seq<i64>) -> Seq<i64>
    decreases deltas.len(),
{
    if deltas.len() == 0 {
        Seq::empty()
    } else {
        let first = run(config, deltas.drop_last()).advanced(deltas.last(), config);
        evaluations(config, deltas.drop_last()).push(deltas.last()) + Seq::new(
            rest_steps(first, config),
            |i: int| 0i64,
        )
    }
}

/// Coming to rest is a run of evaluations without time: after
/// `rest_steps` more evaluations with step zero the clock is where `settled`
/// says.
pub proof fn lemma_rest_is_evaluations(config: SequenceConfig, deltas: Seq<i64>)
    ensures
        replayed(
            config,
            deltas + Seq::new(rest_steps(replayed(config, deltas), config), |i: int| 0i64),
        ) == settled(replayed(config, deltas), config),
    decreases 4 - replayed(config, deltas).current_phase.ordinal(),
{
    let clock = replayed(config, deltas);
    let zeros = Seq::new(rest_steps(clock, config), |i: int| 0i64);
    if clock.event(0, config) is Some && clock.event(0, config)->Some_0 is Advanced {
        let longer = deltas.push(0i64);
        assert(longer.drop_last() =~= deltas);
        assert(replayed(config, longer) == clock.advanced(0, config));
        lemma_rest_is_evaluations(config, longer);
        let fewer = Seq::new(rest_steps(clock.advanced(0, config), config), |i: int| 0i64);
        assert(deltas + zeros =~= longer + fewer);
    } else {
        assert(deltas + zeros =~= deltas);
    }
}

/// A run of ticks is a run of evaluations of the clock: the sequencer's
/// state after its ticks is the clock's state after the evaluations that
/// the ticks consist of. So the phases it has been in are the fixed order up
/// to the phase it is in, with none left out, also where a tick passed
/// through several phases.
pub proof fn lemma_ticks_are_evaluations(config: SequenceConfig, deltas: Seq<i64>)
    ensures
        run(config, deltas) == replayed(config, evaluations(config, deltas)),
        entered(config, evaluations(config, deltas)) == order_up_to(
            run(config, deltas).current_phase,
        ),
        run(config, deltas).is_done(config) ==> entered(config, evaluations(config, deltas))
            == phase_order(),
    decreases deltas.len(),
{
    if deltas.len() > 0 {
        lemma_ticks_are_evaluations(config, deltas.drop_last());
        let head = evaluations(config, deltas.drop_last()).push(deltas.last());
        assert(head.drop_last() =~= evaluations(config, deltas.drop_last()));
        assert(replayed(config, head) == run(config, deltas.drop_last()).advanced(
            deltas.last(),
            config,
        ));
        lemma_rest_is_evaluations(config, head);
    }
    lemma_phases_in_order(config, evaluations(config, deltas));
}

/// A tick never moves the clock backward, and it leaves the clock at rest.
pub proof fn lemma_tick_moves_forward(clock: PhaseClock, delta: i64, config: SequenceConfig)
    ensures
        ticked(clock, delta, config).current_phase.ordinal() >= clock.current_phase.ordinal(),
        settled(ticked(clock, delta, config), config) == ticked(clock, delta, config),
        clock.is_done(config) ==> ticked(clock, delta, config).is_done(config),
{
    lemma_advance_one_phase(clock, delta, config);
    lemma_settled_rests(clock.advanced(delta, config), config);
    if clock.is_done(config) {
        lemma_done_is_final(clock, delta, config);
    }
}

/// Along a run the phase only ever moves forward: after the first `n` ticks
/// of a run the clock is no further than after all of them, and a run that
/// was over after `n` ticks is still over, in the same state.
pub proof fn lemma_run_moves_forward(config: SequenceConfig, deltas: Seq<i64>, n: int)
    requires
        0 <= n <= deltas.len(),
    ensures
        run(config, deltas.take(n)).current_phase.ordinal() <= run(
            config,
            deltas,
        ).current_phase.ordinal(),
        run(config, deltas.take(n)).is_done(config) ==> run(config, deltas) == run(
            config,
            deltas.take(n),
        ),
    decreases deltas.len(),
{
    if n == deltas.len() {
        assert(deltas.take(n) =~= deltas);
    } else {
        let earlier = deltas.drop_last();
        assert(earlier.take(n) =~= deltas.take(n));
        lemma_run_moves_forward(config, earlier, n);
        lemma_tick_moves_forward(run(config, earlier), deltas.last(), config);
        if run(config, earlier).is_done(config) {
            lemma_done_is_final(run(config, earlier), deltas.last(), config);
        }
    }
}

/// The secondary element is hidden on every tick before the phase that
/// switches it on is entered, and shown on every tick from then on: once it
/// is shown after some tick of a run, it is shown after every later one. It
/// is shown exactly when that phase is among those the run has entered.
pub proof fn lemma_secondary_stays_visible(config: SequenceConfig, deltas: Seq<i64>, n: int)
    requires
        0 <= n <= deltas.len(),
    ensures
        visible_in(run(config, deltas.take(n)).current_phase) ==> visible_in(
            run(config, deltas).current_phase,
        ),
        visible_in(run(config, deltas).current_phase) <==> entered(
            config,
            evaluations(config, deltas),
        ).contains(Phase::RevealSecondary),
{
    lemma_run_moves_forward(config, deltas, n);
    lemma_ticks_are_evaluations(config, deltas);
    let now = run(config, deltas).current_phase;
    let seen = order_up_to(now);
    if visible_in(now) {
        assert(seen[3] == Phase::RevealSecondary);
    } else {
        assert(forall|i: int| 0 <= i < seen.len() ==> seen[i] != Phase::RevealSecondary);
    }
}

/// The end of the sequence is reported on exactly one tick of a run that
/// reaches it, and on none of a run that does not: the count of reports is
/// one if the run is over and zero if it is not.
pub proof fn lemma_completion_fires_once(config: SequenceConfig, deltas: Seq<i64>)
    ensures
        signals(config, deltas) == (if run(config, deltas).is_done(config) {
            1nat
        } else {
            0nat
        }),
        signals(config, deltas) <= 1,
    decreases deltas.len(),
{
    if deltas.len() > 0 {
        let earlier = deltas.drop_last();
        lemma_completion_fires_once(config, earlier);
        if run(config, earlier).is_done(config) {
            lemma_done_is_final(run(config, earlier), deltas.last(), config);
        }
    }
}

/// The tick that reports the end is the one on which the hold of the last
/// phase is first reached: for a clock in the last phase whose hold has not
/// run out, a tick reports the end exactly if the time in the phase, with
/// the step of the tick added, reaches the hold.
pub proof fn lemma_final_hold_fires_when_reached(
    clock: PhaseClock,
    delta: i64,
    config: SequenceConfig,
)
    requires
        clock.current_phase == Phase::FinalHold,
        clock.elapsed_in_phase < config.final_hold,
    ensures
        fires(clock, delta, config) <==> clock.elapsed_in_phase + counted(delta)
            >= config.final_hold,
{
    reveal_with_fuel(settled, 2);
}

/// After an evaluation of a clock that was not yet done, the time in the
/// running phase is at most the hold of that phase plus the step just
/// taken, and below that sum whenever the sum is not zero.
pub proof fn lemma_elapsed_within_hold_and_step(
    clock: PhaseClock,
    delta: i64,
    config: SequenceConfig,
)
    requires
        !clock.is_done(config),
    ensures
        ({
            let after = clock.advanced(delta, config);
            let bound = config.hold(after.current_phase) + counted(delta);
            &&& after.elapsed_in_phase <= bound
            &&& bound > 0 ==> after.elapsed_in_phase < bound
        }),
        ({
            let after = ticked(clock, delta, config);
            let bound = config.hold(after.current_phase) + counted(delta);
            &&& after.elapsed_in_phase <= bound
            &&& bound > 0 ==> after.elapsed_in_phase < bound
        }),
{
    lemma_settled_rests(clock.advanced(delta, config), config);
}

/// Where the travel of the primary element begins and ends: at the start of
/// its phase, if the travel takes any time, it stands at its start offset;
/// once the time of the travel has run out it stands at its rest offset,
/// where it stays in every later phase. The ease curve itself starts at zero
/// and ends at one.
pub proof fn lemma_reveal_endpoints(config: SequenceConfig, elapsed: int)
    ensures
        eased(0) == 0,
        eased(unit()) == unit(),
        config.drop_duration > 0 ==> offset_at(Phase::Reveal, 0, config) == config.start_y,
        elapsed >= config.drop_duration ==> offset_at(Phase::Reveal, elapsed, config)
            == config.end_y,
        offset_at(Phase::InitialHold, elapsed, config) == config.start_y,
        offset_at(Phase::InterStagePause, elapsed, config) == config.end_y,
        offset_at(Phase::RevealSecondary, elapsed, config) == config.end_y,
        offset_at(Phase::FinalHold, elapsed, config) == config.end_y,
{
    lemma_ease_endpoints(0);
    lemma_ease_endpoints(unit());
    lemma_lerp_between(config.start_y as int, config.end_y as int, 0);
    if config.drop_duration > 0 {
        assert(progress_of(0, config.drop_duration as int) == 0);
    }
}

/// With no hold at all the first tick passes through all five phases and
/// ends the sequence, whatever its step.
pub proof fn lemma_zero_holds_end_on_first_tick(config: SequenceConfig, delta: i64)
    requires
        forall|phase: Phase| config.hold(phase) == 0,
    ensures
        ticked(PhaseClock::start(), delta, config) == (PhaseClock {
            current_phase: Phase::FinalHold,
            elapsed_in_phase: 0,
        }),
        fires(PhaseClock::start(), delta, config),
{
    reveal_with_fuel(settled, 5);
    assert(config.hold(Phase::InitialHold) == 0);
    assert(config.hold(Phase::Reveal) == 0);
    assert(config.hold(Phase::InterStagePause) == 0);
    assert(config.hold(Phase::RevealSecondary) == 0);
    assert(config.hold(Phase::FinalHold) == 0);
}

} // verus!
