use intro_sequencer::clock::{PhaseClock, PhaseTransition, SequenceClock};
use intro_sequencer::config::{SequenceConfig, MICROS_PER_SECOND};
use intro_sequencer::phase::Phase;

fn one_second_each() -> SequenceConfig {
    SequenceConfig::new(1_000_000, 1_000_000, 1_000_000, 1_000_000, 1_000_000, 520, 160)
}

fn no_holds() -> SequenceConfig {
    SequenceConfig::new(0, 0, 0, 0, 0, 520, 160)
}

#[test]
fn phases_follow_one_another() {
    assert_eq!(Phase::InitialHold.successor(), Some(Phase::Reveal));
    assert_eq!(Phase::Reveal.successor(), Some(Phase::InterStagePause));
    assert_eq!(Phase::InterStagePause.successor(), Some(Phase::RevealSecondary));
    assert_eq!(Phase::RevealSecondary.successor(), Some(Phase::FinalHold));
    assert_eq!(Phase::FinalHold.successor(), None);
}

#[test]
fn phase_index_follows_the_order() {
    let order = [
        Phase::InitialHold,
        Phase::Reveal,
        Phase::InterStagePause,
        Phase::RevealSecondary,
        Phase::FinalHold,
    ];
    for (i, phase) in order.iter().enumerate() {
        assert_eq!(phase.index() as usize, i);
        assert_eq!(phase.is_terminal(), i == 4);
    }
}

#[test]
fn default_settings() {
    let config = SequenceConfig::default();
    assert_eq!(config.black_hold, 1_000_000);
    assert_eq!(config.drop_duration, 1_000_000);
    assert_eq!(config.after_drop_pause, 1_000_000);
    assert_eq!(config.subtitle_reveal_pause, 1_000_000);
    assert_eq!(config.final_hold, 10_000_000);
    assert_eq!(config.start_y, -96);
    assert_eq!(config.end_y, 254);
    assert_eq!(MICROS_PER_SECOND, 1_000_000);
}

#[test]
fn settings_can_be_overridden() {
    let config = SequenceConfig { final_hold: 3, end_y: 9, ..SequenceConfig::default() };
    assert_eq!(config.final_hold, 3);
    assert_eq!(config.end_y, 9);
    assert_eq!(config.black_hold, 1_000_000);
    let full = SequenceConfig::new(1, 2, 3, 4, 5, 6, 7);
    assert_eq!(
        full,
        SequenceConfig {
            black_hold: 1,
            drop_duration: 2,
            after_drop_pause: 3,
            subtitle_reveal_pause: 4,
            final_hold: 5,
            start_y: 6,
            end_y: 7,
        }
    );
}

#[test]
fn each_phase_has_its_own_duration() {
    let config = SequenceConfig::new(1, 2, 3, 4, 5, 6, 7);
    assert_eq!(config.duration_of(Phase::InitialHold), 1);
    assert_eq!(config.duration_of(Phase::Reveal), 2);
    assert_eq!(config.duration_of(Phase::InterStagePause), 3);
    assert_eq!(config.duration_of(Phase::RevealSecondary), 4);
    assert_eq!(config.duration_of(Phase::FinalHold), 5);
}

#[test]
fn clock_starts_in_the_first_phase_at_zero() {
    let clock: SequenceClock = PhaseClock::new();
    assert_eq!(clock.current_phase, Phase::InitialHold);
    assert_eq!(clock.elapsed_in_phase, 0);
    assert!(!clock.is_complete(&one_second_each()));
    assert!(!clock.is_complete(&no_holds()));
}

#[test]
fn advance_adds_up_until_the_hold_is_reached() {
    let config = one_second_each();
    let mut clock = PhaseClock::new();
    assert_eq!(clock.advance(250_000, &config), None);
    assert_eq!(clock.elapsed_in_phase, 250_000);
    assert_eq!(clock.advance(749_999, &config), None);
    assert_eq!(clock.elapsed_in_phase, 999_999);
    assert_eq!(
        clock.advance(1, &config),
        Some(PhaseTransition::Advanced { from: Phase::InitialHold, to: Phase::Reveal })
    );
    assert_eq!(clock.current_phase, Phase::Reveal);
    assert_eq!(clock.elapsed_in_phase, 0);
}

#[test]
fn overshoot_is_dropped_when_the_phase_changes() {
    let config = one_second_each();
    let mut clock = PhaseClock::new();
    assert_eq!(
        clock.advance(3_500_000, &config),
        Some(PhaseTransition::Advanced { from: Phase::InitialHold, to: Phase::Reveal })
    );
    assert_eq!(clock, PhaseClock { current_phase: Phase::Reveal, elapsed_in_phase: 0 });
}

#[test]
fn negative_steps_count_as_zero() {
    let config = one_second_each();
    let mut clock = PhaseClock { current_phase: Phase::Reveal, elapsed_in_phase: 400_000 };
    assert_eq!(clock.advance(-1, &config), None);
    assert_eq!(clock.elapsed_in_phase, 400_000);
    assert_eq!(clock.advance(i64::MIN, &config), None);
    assert_eq!(clock, PhaseClock { current_phase: Phase::Reveal, elapsed_in_phase: 400_000 });
    assert_eq!(clock.advance(0, &config), None);
    assert_eq!(clock.elapsed_in_phase, 400_000);
}

#[test]
fn a_phase_without_hold_is_left_by_the_next_evaluation() {
    let config = SequenceConfig::new(1_000_000, 0, 1_000_000, 1_000_000, 1_000_000, 520, 160);
    let mut clock = PhaseClock::new();
    assert!(clock.advance(1_000_000, &config).is_some());
    assert_eq!(clock.current_phase, Phase::Reveal);
    assert_eq!(
        clock.advance(0, &config),
        Some(PhaseTransition::Advanced { from: Phase::Reveal, to: Phase::InterStagePause })
    );
    assert_eq!(clock.advance(0, &config), None);
    assert_eq!(clock.current_phase, Phase::InterStagePause);
}

#[test]
fn without_holds_every_evaluation_enters_one_phase() {
    let config = no_holds();
    let mut clock = PhaseClock::new();
    let mut seen = vec![clock.current_phase];
    let steps: [i64; 6] = [16_000, 0, -3, 5, 0, 16_000];
    let mut events = Vec::new();
    for step in steps {
        let event = clock.advance(step, &config);
        if let Some(PhaseTransition::Advanced { from, to }) = event {
            assert_eq!(from, *seen.last().unwrap());
            seen.push(to);
        }
        assert_eq!(clock.elapsed_in_phase, 0);
        events.push(event);
    }
    assert_eq!(
        seen,
        vec![
            Phase::InitialHold,
            Phase::Reveal,
            Phase::InterStagePause,
            Phase::RevealSecondary,
            Phase::FinalHold,
        ]
    );
    assert_eq!(events[4], Some(PhaseTransition::SequenceComplete));
    assert_eq!(events[5], Some(PhaseTransition::SequenceComplete));
}

#[test]
fn the_end_is_reported_when_the_last_hold_runs_out() {
    let config = one_second_each();
    let mut clock = PhaseClock { current_phase: Phase::FinalHold, elapsed_in_phase: 0 };
    assert_eq!(clock.advance(999_999, &config), None);
    assert!(!clock.is_complete(&config));
    assert_eq!(clock.advance(300, &config), Some(PhaseTransition::SequenceComplete));
    assert!(clock.is_complete(&config));
    assert_eq!(clock, PhaseClock { current_phase: Phase::FinalHold, elapsed_in_phase: 1_000_299 });
}

#[test]
fn a_clock_that_is_done_no_longer_changes() {
    let config = one_second_each();
    let mut clock = PhaseClock { current_phase: Phase::FinalHold, elapsed_in_phase: 1_000_299 };
    for step in [0, 1, 250_000, -7, i64::MAX] {
        assert_eq!(clock.advance(step, &config), Some(PhaseTransition::SequenceComplete));
        assert_eq!(
            clock,
            PhaseClock { current_phase: Phase::FinalHold, elapsed_in_phase: 1_000_299 }
        );
    }
}

#[test]
fn elapsed_time_stops_at_the_largest_value() {
    let config = SequenceConfig::new(u64::MAX, 0, 0, 0, u64::MAX, 0, 0);
    let mut clock = PhaseClock { current_phase: Phase::InitialHold, elapsed_in_phase: u64::MAX - 5 };
    assert_eq!(clock.advance(3, &config), None);
    assert_eq!(clock.elapsed_in_phase, u64::MAX - 2);
    assert_eq!(
        clock.advance(i64::MAX, &config),
        Some(PhaseTransition::Advanced { from: Phase::InitialHold, to: Phase::Reveal })
    );
    let mut last = PhaseClock { current_phase: Phase::FinalHold, elapsed_in_phase: u64::MAX - 5 };
    assert_eq!(last.advance(i64::MAX, &config), Some(PhaseTransition::SequenceComplete));
    assert_eq!(last.elapsed_in_phase, u64::MAX);
}

#[test]
fn elapsed_stays_below_hold_plus_step() {
    let config = SequenceConfig::new(700_000, 300_000, 1, 900_000, 1_200_000, 520, 160);
    let mut clock = PhaseClock::new();
    let steps: [i64; 12] =
        [250_000, 250_000, 400_000, 100_000, 250_000, 1, 899_999, 5, 600_000, 599_999, 7, 9];
    for step in steps {
        let was_done = clock.is_complete(&config);
        clock.advance(step, &config);
        if !was_done {
            let bound = config.duration_of(clock.current_phase) as u128 + step as u128;
            assert!((clock.elapsed_in_phase as u128) < bound);
        }
    }
    assert!(clock.is_complete(&config));
}
