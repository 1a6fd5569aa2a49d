//! The settings of one sequence: how long each phase holds, and between
//! which offsets the primary element travels.

use vstd::prelude::*;
use crate::phase::Phase;

verus! {

/// Number of time units in one second: all times are whole microseconds.
pub const MICROS_PER_SECOND: u64 = 1_000_000;

/// Settings of a sequence, fixed when the sequencer is made.
///
/// The five durations are in microseconds. A duration of zero is allowed: the
/// phase is then left by the first evaluation after it was entered. The two
/// offsets are in whatever unit the host lays its elements out in.
#[derive(Debug, Clone, Copy, PartialEq, Eq, Structural)]
pub struct SequenceConfig {
    /// How long nothing is shown.
    pub black_hold: u64,
    /// How long the primary element takes to travel into place.
    pub drop_duration: u64,
    /// How long the primary element rests before the secondary one appears.
    pub after_drop_pause: u64,
    /// How long the secondary element has been shown before the final hold.
    pub subtitle_reveal_pause: u64,
    /// How long the finished picture stays before the sequence is over.
    pub final_hold: u64,
    /// Offset of the primary element before and at the start of its travel.
    pub start_y: i32,
    /// Offset at which the primary element comes to rest.
    pub end_y: i32,
}

impl SequenceConfig {
    /// The duration that belongs to `phase`.
    pub open spec fn hold(self, phase: Phase) -> u64 {
        match phase {
            Phase::InitialHold => self.black_hold,
            Phase::Reveal => self.drop_duration,
            Phase::InterStagePause => self.after_drop_pause,
            Phase::RevealSecondary => self.subtitle_reveal_pause,
            Phase::FinalHold => self.final_hold,
        }
    }

    /// The settings used when nothing is overridden: one second for each of
    /// the first four phases, ten for the last, and a 96 unit high title that
    /// drops from just above the top edge to rest 10 units above the middle of
    /// a 720 unit high view.
    pub open spec fn standard() -> SequenceConfig {
        SequenceConfig {
            black_hold: 1_000_000,
            drop_duration: 1_000_000,
            after_drop_pause: 1_000_000,
            subtitle_reveal_pause: 1_000_000,
            final_hold: 10_000_000,
            start_y: (-96) as i32,
            end_y: 254,
        }
    }

    /// Settings with every field given.
    pub fn new(
        black_hold: u64,
        drop_duration: u64,
        after_drop_pause: u64,
        subtitle_reveal_pause: u64,
        final_hold: u64,
        start_y: i32,
        end_y: i32,
    ) -> (config: SequenceConfig)
        ensures
            config == (SequenceConfig {
                black_hold,
                drop_duration,
                after_drop_pause,
                subtitle_reveal_pause,
                final_hold,
                start_y,
                end_y,
            }),
    {
        SequenceConfig {
            black_hold,
            drop_duration,
            after_drop_pause,
            subtitle_reveal_pause,
            final_hold,
            start_y,
            end_y,
        }
    }

    /// The duration that belongs to `phase`.
    pub fn duration_of(&self, phase: Phase) -> (d: u64)
        ensures
            d == self.hold(phase),
    {
        match phase {
            Phase::InitialHold => self.black_hold,
            Phase::Reveal => self.drop_duration,
            Phase::InterStagePause => self.after_drop_pause,
            Phase::RevealSecondary => self.subtitle_reveal_pause,
            Phase::FinalHold => self.final_hold,
        }
    }
}

impl Default for SequenceConfig {
    fn default() -> (config: SequenceConfig)
        ensures
            config == SequenceConfig::standard(),
    {
        SequenceConfig {
            black_hold: MICROS_PER_SECOND,
            drop_duration: MICROS_PER_SECOND,
            after_drop_pause: MICROS_PER_SECOND,
            subtitle_reveal_pause: MICROS_PER_SECOND,
            final_hold: 10_000_000,
            start_y: -96,
            end_y: 254,
        }
    }
}

} // verus!
