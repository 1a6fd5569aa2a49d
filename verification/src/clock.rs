//! The clock of a sequence: which phase is running and for how long.
//!
//! The clock is a plain value. `advance` is one evaluation: it adds the time
//! that has passed, then leaves the current phase if its hold has run out.

use vstd::prelude::*;
use crate::config::SequenceConfig;
use crate::phase::Phase;

verus! {

/// What an evaluation of the clock reports when the current phase's hold has
/// run out.
#[derive(Debug, Clone, Copy, PartialEq, Eq, Structural)]
pub enum PhaseTransition {
    /// The clock left `from` and entered `to`, the phase that follows it.
    Advanced { from: Phase, to: Phase },
    /// The hold of the last phase has run out: the sequence is over.
    SequenceComplete,
}

/// Running state of a sequence.
#[derive(Debug, Clone, Copy, PartialEq, Eq, Structural)]
pub struct PhaseClock {
    /// The phase that is running.
    pub current_phase: Phase,
    /// Microseconds spent in the running phase.
    pub elapsed_in_phase: u64,
}

/// Another name for the clock, for code that handles it as plain data.
pub type SequenceClock = PhaseClock;

impl PhaseClock {
    /// The state in which every sequence starts.
    pub open spec fn start() -> PhaseClock {
        PhaseClock { current_phase: Phase::InitialHold, elapsed_in_phase: 0 }
    }

    /// Whether the sequence is over: the last phase is running and its hold
    /// has been reached.
    pub open spec fn is_done(self, config: SequenceConfig) -> bool {
        self.current_phase == Phase::FinalHold && self.elapsed_in_phase >= config.final_hold
    }

    /// Time in the running phase once `delta` has been added. A negative
    /// `delta` adds nothing, and the sum stops at the largest `u64`.
    pub open spec fn gathered(self, delta: i64) -> int {
        let step: int = if delta > 0 { delta as int } else { 0 };
        if self.elapsed_in_phase + step > u64::MAX {
            u64::MAX as int
        } else {
            self.elapsed_in_phase + step
        }
    }

    /// Whether the hold of the running phase has run out once `delta` has been
    /// added.
    pub open spec fn due(self, delta: i64, config: SequenceConfig) -> bool {
        self.gathered(delta) >= config.hold(self.current_phase)
    }

    /// The state after one evaluation with `delta`.
    ///
    /// A clock that is done stays as it is. Otherwise time is added; if the
    /// hold of the running phase has then run out, the next phase starts at
    /// zero, or, in the last phase, the clock stops where it is.
    pub open spec fn advanced(self, delta: i64, config: SequenceConfig) -> PhaseClock {
        if self.is_done(config) {
            self
        } else if self.due(delta, config) && self.current_phase.following().is_some() {
            PhaseClock {
                current_phase: self.current_phase.following().unwrap(),
                elapsed_in_phase: 0,
            }
        } else {
            PhaseClock {
                current_phase: self.current_phase,
                elapsed_in_phase: self.gathered(delta) as u64,
            }
        }
    }

    /// What one evaluation with `delta` reports.
    pub open spec fn event(self, delta: i64, config: SequenceConfig) -> Option<PhaseTransition> {
        if self.is_done(config) {
            Some(PhaseTransition::SequenceComplete)
        } else if !self.due(delta, config) {
            None
        } else {
            match self.current_phase.following() {
                Some(next) => Some(PhaseTransition::Advanced { from: self.current_phase, to: next }),
                None => Some(PhaseTransition::SequenceComplete),
            }
        }
    }

    /// A clock at the start of the sequence.
    pub fn new() -> (clock: PhaseClock)
        ensures
            clock == PhaseClock::start(),
    {
        PhaseClock { current_phase: Phase::InitialHold, elapsed_in_phase: 0 }
    }

    /// Whether the sequence is over.
    pub fn is_complete(&self, config: &SequenceConfig) -> (done: bool)
        ensures
            done == self.is_done(*config),
    {
        self.current_phase.is_terminal() && self.elapsed_in_phase >= config.final_hold
    }

    /// One evaluation: adds `delta` microseconds to the time in the running
    /// phase, and leaves the phase if its hold has run out.
    ///
    /// Returns `None` while the phase goes on, the transition when the next
    /// phase was entered, and `SequenceComplete` when the hold of the last
    /// phase ran out, on this evaluation or on an earlier one. After that the
    /// clock no longer changes.
    pub fn advance(&mut self, delta: i64, config: &SequenceConfig) -> (event: Option<
        PhaseTransition,
    >)
        ensures
            *final(self) == old(self).advanced(delta, *config),
            event == old(self).event(delta, *config),
    {
        let hold = config.duration_of(self.current_phase);
        if self.current_phase.is_terminal() && self.elapsed_in_phase >= hold {
            return Some(PhaseTransition::SequenceComplete);
        }
        let step: u64 = if delta > 0 { delta as u64 } else { 0 };
        let elapsed = self.elapsed_in_phase.saturating_add(step);
        if elapsed < hold {
            self.elapsed_in_phase = elapsed;
            return None;
        }
        match self.current_phase.successor() {
            Some(next) => {
                let from = self.current_phase;
                self.current_phase = next;
                self.elapsed_in_phase = 0;
                Some(PhaseTransition::Advanced { from, to: next })
            },
            None => {
                self.elapsed_in_phase = elapsed;
                Some(PhaseTransition::SequenceComplete)
            },
        }
    }
}

} // verus!
