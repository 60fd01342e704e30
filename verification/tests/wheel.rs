use thumbvol::wheel::{VolumeStep, WheelAccumulator, WheelConfigError, MAX_STEPS_PER_FEED};

// --- correctness ---

#[test]
fn single_notch_up_emits_one_step() {
    let mut acc = WheelAccumulator::new(1, false, 1).unwrap();
    assert_eq!(acc.feed(1), vec![VolumeStep::Up]);
}

#[test]
fn single_notch_down_emits_one_step() {
    let mut acc = WheelAccumulator::new(1, false, 1).unwrap();
    assert_eq!(acc.feed(-1), vec![VolumeStep::Down]);
}

#[test]
fn sub_threshold_delta_accumulates_across_calls() {
    let mut acc = WheelAccumulator::new(3, false, 1).unwrap();
    assert_eq!(acc.feed(2), Vec::<VolumeStep>::new());
    assert_eq!(acc.feed(2), vec![VolumeStep::Up]); // 2+2=4 >= 3, one step, remainder 1
}

#[test]
fn fast_spin_emits_multiple_steps_in_one_tick() {
    let mut acc = WheelAccumulator::new(1, false, 1).unwrap();
    assert_eq!(
        acc.feed(3),
        vec![VolumeStep::Up, VolumeStep::Up, VolumeStep::Up]
    );
}

#[test]
fn invert_flips_direction() {
    let mut acc = WheelAccumulator::new(1, true, 1).unwrap();
    assert_eq!(acc.feed(1), vec![VolumeStep::Down]);
    assert_eq!(acc.feed(-1), vec![VolumeStep::Up]);
}

#[test]
fn opposite_delta_cancels_pending_accumulation_before_stepping() {
    let mut acc = WheelAccumulator::new(10, false, 1).unwrap();
    assert_eq!(acc.feed(6), Vec::<VolumeStep>::new()); // accumulated = 6
    assert_eq!(acc.feed(-6), Vec::<VolumeStep>::new()); // accumulated = 0, no step
    assert_eq!(acc.feed(-10), vec![VolumeStep::Down]);
}

#[test]
fn presses_per_step_multiplies_each_notch() {
    let mut acc = WheelAccumulator::new(1, false, 3).unwrap();
    assert_eq!(
        acc.feed(1),
        vec![VolumeStep::Up, VolumeStep::Up, VolumeStep::Up]
    );
}

// --- rejection: invalid construction ---

#[test]
fn core_zero_notches_per_step_is_rejected() {
    assert_eq!(
        WheelAccumulator::new(0, false, 1).unwrap_err(),
        WheelConfigError::InvalidNotchesPerStep(0)
    );
}

#[test]
fn core_negative_notches_per_step_is_rejected() {
    assert_eq!(
        WheelAccumulator::new(-5, false, 1).unwrap_err(),
        WheelConfigError::InvalidNotchesPerStep(-5)
    );
}

#[test]
fn zero_presses_per_step_is_rejected() {
    assert_eq!(
        WheelAccumulator::new(1, false, 0).unwrap_err(),
        WheelConfigError::InvalidPressesPerStep(0)
    );
}

#[test]
fn negative_presses_per_step_is_rejected() {
    assert_eq!(
        WheelAccumulator::new(1, false, -2).unwrap_err(),
        WheelConfigError::InvalidPressesPerStep(-2)
    );
}

// --- misuse: degenerate/extreme input, no partial-state corruption ---

#[test]
fn zero_delta_is_a_noop() {
    let mut acc = WheelAccumulator::new(1, false, 1).unwrap();
    assert_eq!(acc.feed(0), Vec::<VolumeStep>::new());
}

#[test]
fn extreme_delta_saturates_and_is_bounded_instead_of_overflowing() {
    let mut acc = WheelAccumulator::new(1, false, 1).unwrap();
    let steps = acc.feed(i32::MAX);
    assert!(!steps.is_empty());
    assert!(steps.len() <= MAX_STEPS_PER_FEED);
    assert!(steps.iter().all(|s| *s == VolumeStep::Up));

    let mut acc = WheelAccumulator::new(1, false, 1).unwrap();
    let steps = acc.feed(i32::MIN);
    assert!(!steps.is_empty());
    assert!(steps.len() <= MAX_STEPS_PER_FEED);
    assert!(steps.iter().all(|s| *s == VolumeStep::Down));
}

#[test]
fn extreme_presses_per_step_is_still_bounded() {
    let mut acc = WheelAccumulator::new(1, false, i32::MAX).unwrap();
    let steps = acc.feed(1);
    assert_eq!(steps.len(), MAX_STEPS_PER_FEED);
    assert!(steps.iter().all(|s| *s == VolumeStep::Up));
}

// --- further cases ---

#[test]
fn notch_setting_is_checked_before_presses() {
    assert_eq!(
        WheelAccumulator::new(0, false, 0).unwrap_err(),
        WheelConfigError::InvalidNotchesPerStep(0)
    );
}

#[test]
fn remainder_carries_to_the_next_feed() {
    // 7 notches at 3 per step: two steps, one notch pending.
    let mut acc = WheelAccumulator::new(3, false, 1).unwrap();
    assert_eq!(acc.feed(7), vec![VolumeStep::Up, VolumeStep::Up]);
    assert_eq!(acc.feed(2), vec![VolumeStep::Up]);
    assert_eq!(acc.feed(2), Vec::<VolumeStep>::new());
}

#[test]
fn negative_motion_rounds_toward_zero() {
    let mut acc = WheelAccumulator::new(4, false, 2).unwrap();
    assert_eq!(acc.feed(-9), vec![VolumeStep::Down; 4]);
    // One notch is left pending downward: three more make a step.
    assert_eq!(acc.feed(-3), vec![VolumeStep::Down; 2]);
}

#[test]
fn reaching_the_cap_drops_the_backlog() {
    let mut acc = WheelAccumulator::new(2, false, 8).unwrap();
    // 17 notches: 8 steps of 8 presses reach the cap exactly; the odd notch is dropped.
    assert_eq!(acc.feed(17), vec![VolumeStep::Up; MAX_STEPS_PER_FEED]);
    assert_eq!(acc.feed(1), Vec::<VolumeStep>::new());
    assert_eq!(acc.feed(1), vec![VolumeStep::Up; 8]);
}

#[test]
fn below_the_cap_the_remainder_is_kept() {
    let mut acc = WheelAccumulator::new(2, false, 7).unwrap();
    // 9 notches: 4 steps of 7 presses (28), one notch pending.
    assert_eq!(acc.feed(9), vec![VolumeStep::Up; 28]);
    assert_eq!(acc.feed(1), vec![VolumeStep::Up; 7]);
}

#[test]
fn inverted_extreme_negative_delta_saturates() {
    let mut acc = WheelAccumulator::new(1, true, 1).unwrap();
    let steps = acc.feed(i32::MIN);
    assert_eq!(steps, vec![VolumeStep::Up; MAX_STEPS_PER_FEED]);
    assert_eq!(acc.feed(0), Vec::<VolumeStep>::new());
}

#[test]
fn inverted_mirror_of_pending_motion() {
    // Law: an inverted accumulator with the opposite pending motion mirrors
    // the plain one.
    let mut plain = WheelAccumulator::new(5, false, 2).unwrap();
    let mut inverted = WheelAccumulator::new(5, true, 2).unwrap();
    assert_eq!(plain.feed(3), Vec::<VolumeStep>::new());
    assert_eq!(inverted.feed(3), Vec::<VolumeStep>::new());
    // plain holds +3, inverted holds -3; feed both 9.
    let a = plain.feed(9);
    let b = inverted.feed(9);
    assert_eq!(a, vec![VolumeStep::Up; 4]);
    assert_eq!(b, vec![VolumeStep::Down; 4]);
}

#[test]
fn one_feed_goes_one_way_and_respects_the_cap() {
    for &(n, p, invert) in &[(1, 1, false), (3, 2, true), (7, 100, false), (1000, 1, true)] {
        let mut acc = WheelAccumulator::new(n, invert, p).unwrap();
        for &d in &[0, 1, -1, 5, -17, 999, -12345, i32::MAX, i32::MIN, 3, -3] {
            let steps = acc.feed(d);
            assert!(steps.len() <= MAX_STEPS_PER_FEED);
            assert!(steps.iter().all(|s| *s == steps[0]));
        }
    }
}

#[test]
fn conservation_of_motion_below_the_cap() {
    // Law: crossed notches * notches_per_step + remainder == pending + delta.
    let mut acc = WheelAccumulator::new(3, false, 1).unwrap();
    let mut pending = 0i64;
    for &d in &[1, 4, -2, -8, 10, 2, -1] {
        let steps = acc.feed(d);
        let signed: i64 = steps
            .iter()
            .map(|s| if *s == VolumeStep::Up { 1 } else { -1 })
            .sum();
        pending += d as i64;
        pending -= signed * 3;
        assert!(pending.abs() < 3);
    }
    // After the sequence, feeding the pending motion's opposite empties it.
    let back = acc.feed(-(pending as i32));
    assert!(back.is_empty());
    assert_eq!(acc.feed(0), Vec::<VolumeStep>::new());
}

#[test]
fn error_messages() {
    assert_eq!(
        WheelConfigError::InvalidNotchesPerStep(-5).to_string(),
        "notches_per_step must be positive, got -5"
    );
    assert_eq!(
        WheelConfigError::InvalidPressesPerStep(0).to_string(),
        "sensitivity (presses_per_step) must be positive, got 0"
    );
}
