//! The sequencer: a clock together with its settings, and what the host
//! shows for each state of the clock.

use vstd::prelude::*;
use crate::clock::{PhaseClock, PhaseTransition};
use crate::config::SequenceConfig;
use crate::motion::{ease_out_back, eased, lerp, lerp_value, progress, progress_of};
use crate::phase::Phase;

verus! {

/// Offset of the primary element in `phase` after `elapsed` microseconds of
/// it: at its start offset before its travel, on the eased way between start
/// and rest during it, at its rest offset from then on.
pub open spec fn offset_at(phase: Phase, elapsed: int, config: SequenceConfig) -> int {
    match phase {
        Phase::InitialHold => config.start_y as int,
        Phase::Reveal => lerp_value(
            config.start_y as int,
            config.end_y as int,
            eased(progress_of(elapsed, config.drop_duration as int)),
        ),
        _ => config.end_y as int,
    }
}

/// Whether the secondary element is shown in `phase`: from the phase that
/// switches it on until the end.
pub open spec fn visible_in(phase: Phase) -> bool {
    phase == Phase::RevealSecondary || phase == Phase::FinalHold
}

/// The state in which a clock comes to rest when it is evaluated again and
/// again with no time passing: it moves on through every phase whose hold has
/// already run out, one phase per evaluation.
pub open spec fn settled(clock: PhaseClock, config: SequenceConfig) -> PhaseClock
    decreases 4 - clock.current_phase.ordinal(),
{
    if clock.event(0, config) is Some && clock.event(0, config)->Some_0 is Advanced {
        settled(clock.advanced(0, config), config)
    } else {
        clock
    }
}

/// The state of the clock after one tick of the sequencer: one evaluation
/// with the time that has passed, then evaluations without time until the
/// clock rests.
pub open spec fn ticked(clock: PhaseClock, delta: i64, config: SequenceConfig) -> PhaseClock {
    settled(clock.advanced(delta, config), config)
}

/// Offset of the primary element in `phase` after `elapsed` microseconds.
pub fn primary_offset(phase: Phase, elapsed: u64, config: &SequenceConfig) -> (y: i64)
    ensures
        y == offset_at(phase, elapsed as int, *config),
{
    match phase {
        Phase::InitialHold => config.start_y as i64,
        Phase::Reveal => {
            let covered = progress(elapsed, config.drop_duration);
            lerp(config.start_y, config.end_y, ease_out_back(covered))
        },
        _ => config.end_y as i64,
    }
}

/// Whether the secondary element is shown in `phase`.
pub fn secondary_visible(phase: Phase) -> (shown: bool)
    ensures
        shown == visible_in(phase),
        shown <==> phase.ordinal() >= Phase::RevealSecondary.ordinal(),
{
    match phase {
        Phase::RevealSecondary => true,
        Phase::FinalHold => true,
        _ => false,
    }
}

/// What the host is to show after a tick, and whether the sequence has just
/// ended.
#[derive(Debug, Clone, Copy, PartialEq, Eq, Structural)]
pub struct Frame {
    /// The phase that is running after the tick.
    pub phase: Phase,
    /// Offset at which to place the primary element.
    pub primary_offset: i64,
    /// Whether to show the secondary element.
    pub secondary_visible: bool,
    /// True on the one tick on which the sequence ended, false on all others.
    pub completed: bool,
}

/// A sequence in progress: its settings, which never change, and its clock.
#[derive(Debug, Clone, Copy)]
pub struct IntroSequencer {
    config: SequenceConfig,
    clock: PhaseClock,
}

impl IntroSequencer {
    /// The settings the sequencer was made with.
    pub closed spec fn spec_config(&self) -> SequenceConfig {
        self.config
    }

    /// The running state.
    pub closed spec fn spec_clock(&self) -> PhaseClock {
        self.clock
    }

    /// A sequencer at the start of its sequence.
    pub fn new(config: SequenceConfig) -> (sequencer: IntroSequencer)
        ensures
            sequencer.spec_config() == config,
            sequencer.spec_clock() == PhaseClock::start(),
    {
        IntroSequencer { config, clock: PhaseClock::new() }
    }

    /// The settings the sequencer was made with.
    #[verifier::when_used_as_spec(spec_config)]
    pub fn config(&self) -> (config: SequenceConfig)
        ensures
            config == self.spec_config(),
    {
        self.config
    }

    /// The running state.
    #[verifier::when_used_as_spec(spec_clock)]
    pub fn clock(&self) -> (clock: PhaseClock)
        ensures
            clock == self.spec_clock(),
    {
        self.clock
    }

    /// The phase that is running.
    pub fn phase(&self) -> (phase: Phase)
        ensures
            phase == self.clock().current_phase,
    {
        self.clock.current_phase
    }

    /// Microseconds spent in the running phase.
    pub fn elapsed_in_phase(&self) -> (elapsed: u64)
        ensures
            elapsed == self.clock().elapsed_in_phase,
    {
        self.clock.elapsed_in_phase
    }

    /// Whether the sequence is over.
    pub fn is_complete(&self) -> (done: bool)
        ensures
            done == self.clock().is_done(self.config()),
    {
        self.clock.is_complete(&self.config)
    }

    /// Offset at which the primary element stands now.
    pub fn current_offset(&self) -> (y: i64)
        ensures
            y == offset_at(
                self.clock().current_phase,
                self.clock().elapsed_in_phase as int,
                self.config(),
            ),
    {
        primary_offset(self.clock.current_phase, self.clock.elapsed_in_phase, &self.config)
    }

    /// Whether the secondary element is shown now.
    pub fn is_secondary_visible(&self) -> (shown: bool)
        ensures
            shown == visible_in(self.clock().current_phase),
    {
        secondary_visible(self.clock.current_phase)
    }

    /// One tick: `delta` microseconds have passed since the last one.
    ///
    /// The clock is evaluated with `delta`, and then, as long as it has just
    /// entered a phase, once more without time, so that a phase with no hold
    /// is passed through within the tick. The frame shows the state in which
    /// the clock came to rest. `completed` is true exactly if the sequence was
    /// not over before the tick and is over after it.
    pub fn tick(&mut self, delta: i64) -> (frame: Frame)
        ensures
            final(self).config() == old(self).config(),
            final(self).clock() == ticked(old(self).clock(), delta, old(self).config()),
            frame.phase == final(self).clock().current_phase,
            frame.primary_offset == offset_at(
                final(self).clock().current_phase,
                final(self).clock().elapsed_in_phase as int,
                old(self).config(),
            ),
            frame.secondary_visible == visible_in(final(self).clock().current_phase),
            frame.completed == (final(self).clock().is_done(old(self).config())
                && !old(self).clock().is_done(old(self).config())),
    {
        let config = self.config;
        let was_done = self.clock.is_complete(&config);
        let ghost target = ticked(self.clock, delta, config);
        let mut event = self.clock.advance(delta, &config);
        let mut moving = is_advance(&event);
        while moving
            invariant
                self.config == config,
                settled(self.clock, config) == target,
                moving == (event is Some && event->Some_0 is Advanced),
                !moving ==> settled(self.clock, config) == self.clock,
            decreases 4 - self.clock.current_phase.ordinal() + (if moving { 1int } else { 0 }),
        {
            event = self.clock.advance(0, &config);
            moving = is_advance(&event);
        }
        Frame {
            phase: self.clock.current_phase,
            primary_offset: primary_offset(
                self.clock.current_phase,
                self.clock.elapsed_in_phase,
                &config,
            ),
            secondary_visible: secondary_visible(self.clock.current_phase),
            completed: self.clock.is_complete(&config) && !was_done,
        }
    }
}

/// Whether an evaluation reported that a new phase was entered.
fn is_advance(event: &Option<PhaseTransition>) -> (yes: bool)
    ensures
        yes == (event is Some && event->Some_0 is Advanced),
{
    match event {
        Some(PhaseTransition::Advanced { .. }) => true,
        _ => false,
    }
}

} // verus!
