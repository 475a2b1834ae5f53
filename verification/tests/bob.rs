use flappy::bob::{advance, offset_at, AMPLITUDE, HALF_PERIOD, PERIOD, PHASE_PER_STEP};

#[test]
fn bob_wave_has_exact_values_at_its_marks() {
    assert_eq!(offset_at(0), 0);
    assert_eq!(offset_at(791), 1280);
    assert_eq!(offset_at(14_200), 21_600);
    assert_eq!(offset_at(42_600), 43_200);
    assert_eq!(offset_at(71_000), 21_600);
    assert_eq!(offset_at(85_199), 1);
    assert_eq!(offset_at(85_200), 0);
    assert_eq!(offset_at(85_200 + 14_200), -21_600);
    assert_eq!(offset_at(85_200 + 42_600), -43_200);
    assert_eq!(offset_at(170_399), -1);
}

#[test]
fn bob_wave_stays_within_its_amplitude() {
    assert_eq!(AMPLITUDE, 12 * 3600);
    assert_eq!(PERIOD, 2 * HALF_PERIOD);
    let mut phase = 0;
    while phase < PERIOD {
        let y = offset_at(phase);
        assert!((-AMPLITUDE..=AMPLITUDE).contains(&y));
        if phase < HALF_PERIOD {
            assert!(y >= 0);
            assert_eq!(offset_at(phase + HALF_PERIOD), -y);
        }
        phase += 7;
    }
}

#[test]
fn bob_phase_advances_and_wraps() {
    assert_eq!(PHASE_PER_STEP, 791);
    assert_eq!(advance(0), 791);
    assert_eq!(advance(170_399), 790);
    assert_eq!(advance(169_609), 0);
    let mut phase = 0;
    let mut steps = 0;
    loop {
        phase = advance(phase);
        steps += 1;
        if phase < PHASE_PER_STEP {
            break;
        }
    }
    assert_eq!(steps, 216);
}

#[test]
fn bob_wave_is_close_to_the_sine() {
    let mut phase = 0i64;
    while phase < PERIOD {
        let angle = phase as f64 / PERIOD as f64 * std::f64::consts::TAU;
        let sine = angle.sin() * AMPLITUDE as f64;
        let wave = offset_at(phase) as f64;
        assert!((sine - wave).abs() <= 0.002 * AMPLITUDE as f64);
        phase += 100;
    }
}
