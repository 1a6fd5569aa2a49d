use intro_sequencer::motion::{ease_out_back, lerp, progress, BACK_C1, BACK_C3, UNIT};

#[test]
fn lerp_starts_at_a_and_ends_at_b() {
    assert_eq!(lerp(520, 160, 0), 520);
    assert_eq!(lerp(520, 160, UNIT), 160);
    assert_eq!(lerp(160, 520, 0), 160);
    assert_eq!(lerp(160, 520, UNIT), 520);
    assert_eq!(lerp(7, 7, 123_456), 7);
}

#[test]
fn lerp_halfway() {
    assert_eq!(lerp(520, 160, 500_000), 340);
    assert_eq!(lerp(160, 520, 500_000), 340);
    assert_eq!(lerp(-5, 5, 500_000), 0);
    assert_eq!(lerp(5, -5, 500_000), 0);
}

#[test]
fn lerp_rounds_down() {
    assert_eq!(lerp(160, 520, 333_333), 279);
    assert_eq!(lerp(520, 160, 333_333), 400);
    assert_eq!(lerp(0, 1, 999_999), 0);
    assert_eq!(lerp(1, 0, 1), 0);
}

#[test]
fn lerp_goes_beyond_b_for_fractions_above_one() {
    assert_eq!(lerp(520, 160, 1_087_697), 128);
    assert_eq!(lerp(160, 520, 1_087_697), 551);
    assert_eq!(lerp(0, 10, 2 * UNIT), 20);
}

#[test]
fn lerp_takes_the_widest_span() {
    assert_eq!(lerp(i32::MIN, i32::MAX, u32::MAX), 18_444_596_581_471);
    assert_eq!(lerp(i32::MIN, i32::MAX, UNIT), i32::MAX as i64);
    assert_eq!(lerp(i32::MAX, i32::MIN, UNIT), i32::MIN as i64);
}

#[test]
fn lerp_stays_between_its_ends_on_the_unit_interval() {
    let mut t: u32 = 0;
    while t <= UNIT {
        let down = lerp(520, 160, t);
        let up = lerp(-300, 900, t);
        assert!(160 <= down && down <= 520);
        assert!(-300 <= up && up <= 900);
        t += 12_500;
    }
}

#[test]
fn progress_is_the_covered_fraction() {
    assert_eq!(progress(250_000, 1_000_000), 250_000);
    assert_eq!(progress(1, 3), 333_333);
    assert_eq!(progress(2, 3), 666_666);
    assert_eq!(progress(0, 5), 0);
}

#[test]
fn progress_is_held_to_one() {
    assert_eq!(progress(3, 3), UNIT);
    assert_eq!(progress(4, 3), UNIT);
    assert_eq!(progress(u64::MAX, 1), UNIT);
}

#[test]
fn progress_of_an_empty_span_is_one() {
    assert_eq!(progress(0, 0), UNIT);
    assert_eq!(progress(5, 0), UNIT);
}

#[test]
fn progress_of_the_longest_span() {
    assert_eq!(progress(u64::MAX - 1, u64::MAX), 999_999);
    assert_eq!(progress(u64::MAX, u64::MAX), UNIT);
}

#[test]
fn ease_runs_from_zero_to_one() {
    assert_eq!(ease_out_back(0), 0);
    assert_eq!(ease_out_back(UNIT), UNIT);
}

#[test]
fn ease_counts_fractions_above_one_as_one() {
    assert_eq!(ease_out_back(UNIT + 1), UNIT);
    assert_eq!(ease_out_back(2 * UNIT), UNIT);
    assert_eq!(ease_out_back(u32::MAX), UNIT);
}

#[test]
fn ease_values_on_the_way() {
    assert_eq!(ease_out_back(1), 4);
    assert_eq!(ease_out_back(250_000), 817_409);
    assert_eq!(ease_out_back(500_000), 1_087_697);
    assert_eq!(ease_out_back(750_000), 1_064_136);
    assert_eq!(ease_out_back(999_999), 1_000_000);
}

#[test]
fn ease_overshoots_by_a_tenth_at_most() {
    assert_eq!(ease_out_back(580_000), 1_100_004);
    let mut t: u32 = 0;
    while t <= UNIT {
        assert!(ease_out_back(t) <= 1_100_004);
        t += 100;
    }
}

#[test]
fn ease_is_beyond_one_from_where_the_square_term_wins() {
    // one minus c1 / c3 is 0.370153...
    assert!(ease_out_back(370_153) < UNIT);
    assert!(ease_out_back(370_154) >= UNIT);
    assert!(ease_out_back(370_160) >= UNIT);
    assert!(ease_out_back(900_000) >= UNIT);
    assert!(ease_out_back(100_000) < UNIT);
}

#[test]
fn curve_coefficients() {
    assert_eq!(UNIT, 1_000_000);
    assert_eq!(BACK_C1, 1_701_580);
    assert_eq!(BACK_C3, BACK_C1 + UNIT);
}
