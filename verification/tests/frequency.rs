use microbit_board::frequency::{
    compute_timer_config, max_period_ticks, ConfigError, ToneRequest,
    MIN_FREQUENCY_HZ_NO_PRESCALER, PRESCALER_LOW_FREQUENCY,
};

const CLOCK: u32 = 16_000_000;

#[test]
fn tone_of_220_hz_uses_the_prescaler() {
    let config = compute_timer_config(220, 50, CLOCK, 16).unwrap();
    assert_eq!(config.prescaler_exponent(), 4);
    assert_eq!(config.period_ticks(), 4545);
    assert_eq!(config.compare_rising(), 2271);
    assert_eq!(config.compare_falling(), 2273);
}

#[test]
fn unscaled_period_of_220_hz_would_not_fit() {
    assert_eq!(CLOCK / 220, 72727);
    assert!(CLOCK / 220 > max_period_ticks(16));
    assert_eq!(CLOCK / (220 << 4), 4545);
}

#[test]
fn threshold_lies_between_244_and_245_hz() {
    let below = compute_timer_config(244, 50, CLOCK, 16).unwrap();
    assert_eq!(below.prescaler_exponent(), PRESCALER_LOW_FREQUENCY);
    assert_eq!(below.period_ticks(), (CLOCK / (244 * 16)) as u16);
    assert_eq!(below.period_ticks(), 4098);
    let at = compute_timer_config(245, 50, CLOCK, 16).unwrap();
    assert_eq!(at.prescaler_exponent(), 0);
    assert_eq!(at.period_ticks(), 65306);
    assert_eq!(MIN_FREQUENCY_HZ_NO_PRESCALER, 245);
}

#[test]
fn prescaler_follows_the_frequency_alone() {
    for frequency in [16u32, 100, 200, 244] {
        let config = compute_timer_config(frequency, 25, CLOCK, 16).unwrap();
        assert_eq!(config.prescaler_exponent(), 4);
    }
    for frequency in [245u32, 246, 440, 1000, 20_000, 1_000_000] {
        let config = compute_timer_config(frequency, 25, CLOCK, 16).unwrap();
        assert_eq!(config.prescaler_exponent(), 0);
    }
}

#[test]
fn edges_are_ordered_inside_the_period() {
    for frequency in [16u32, 50, 220, 244, 245, 440, 880, 5000, 20_000, 400_000] {
        for duty in [1u32, 2, 10, 25, 33, 34, 49, 50] {
            if let Ok(config) = compute_timer_config(frequency, duty, CLOCK, 16) {
                assert!(config.compare_rising() < config.compare_falling());
                assert!(config.compare_falling() < config.period_ticks());
                let period = config.period_ticks() as u32;
                let pulse = config.compare_rising() as u32 + 1;
                assert_eq!(pulse, period - config.compare_falling() as u32);
                assert!(100 * pulse <= period * duty);
                assert!(period * duty < 100 * (pulse + 1));
            }
        }
    }
}

#[test]
fn quarter_duty_at_440_hz() {
    let config = compute_timer_config(440, 25, CLOCK, 16).unwrap();
    assert_eq!(config.prescaler_exponent(), 0);
    assert_eq!(config.period_ticks(), 36363);
    assert_eq!(config.compare_rising(), 9089);
    assert_eq!(config.compare_falling(), 27273);
}

#[test]
fn period_never_grows_with_the_frequency() {
    let mut last = u16::MAX;
    for frequency in 16u32..245 {
        let period = compute_timer_config(frequency, 50, CLOCK, 16).unwrap().period_ticks();
        assert!(period <= last);
        last = period;
    }
    let mut last = u16::MAX;
    for frequency in 245u32..3000 {
        let period = compute_timer_config(frequency, 50, CLOCK, 16).unwrap().period_ticks();
        assert!(period <= last);
        last = period;
    }
}

#[test]
fn same_request_gives_same_configuration() {
    let first = compute_timer_config(523, 37, CLOCK, 16).unwrap();
    let second = compute_timer_config(523, 37, CLOCK, 16).unwrap();
    assert_eq!(first.prescaler_exponent(), second.prescaler_exponent());
    assert_eq!(first.period_ticks(), second.period_ticks());
    assert_eq!(first.compare_rising(), second.compare_rising());
    assert_eq!(first.compare_falling(), second.compare_falling());
    let request = ToneRequest { frequency_hz: 523, duty_percent: 37 };
    let third = request.timer_config(CLOCK, 16).unwrap();
    assert_eq!(third.period_ticks(), first.period_ticks());
    assert_eq!(third.compare_rising(), first.compare_rising());
    assert_eq!(third.compare_falling(), first.compare_falling());
}

#[test]
fn zero_frequency_is_invalid() {
    assert_eq!(compute_timer_config(0, 50, CLOCK, 16).err(), Some(ConfigError::InvalidInput));
}

#[test]
fn duty_outside_its_range_is_invalid() {
    assert_eq!(compute_timer_config(440, 0, CLOCK, 16).err(), Some(ConfigError::InvalidInput));
    assert_eq!(compute_timer_config(440, 51, CLOCK, 16).err(), Some(ConfigError::InvalidInput));
    assert_eq!(compute_timer_config(440, 100, CLOCK, 16).err(), Some(ConfigError::InvalidInput));
    assert!(compute_timer_config(440, 1, CLOCK, 16).is_ok());
    assert!(compute_timer_config(440, 50, CLOCK, 16).is_ok());
}

#[test]
fn invalid_input_is_reported_before_a_period_that_does_not_fit() {
    assert_eq!(compute_timer_config(1, 0, CLOCK, 16).err(), Some(ConfigError::InvalidInput));
}

#[test]
fn period_beyond_the_timer_is_too_low_a_frequency() {
    assert_eq!(compute_timer_config(1, 50, CLOCK, 16).err(), Some(ConfigError::FrequencyTooLow));
    assert_eq!(compute_timer_config(15, 50, CLOCK, 16).err(), Some(ConfigError::FrequencyTooLow));
    assert_eq!(compute_timer_config(16, 50, CLOCK, 16).unwrap().period_ticks(), 62500);
}

#[test]
fn narrow_timer_holds_shorter_periods_only() {
    assert_eq!(max_period_ticks(0), 0);
    assert_eq!(max_period_ticks(1), 1);
    assert_eq!(max_period_ticks(8), 255);
    assert_eq!(max_period_ticks(15), 32767);
    assert_eq!(max_period_ticks(16), 65535);
    assert_eq!(max_period_ticks(24), 65535);
    assert_eq!(max_period_ticks(32), 65535);
    assert_eq!(
        compute_timer_config(62_500, 50, CLOCK, 8).err(),
        Some(ConfigError::FrequencyTooLow)
    );
    assert_eq!(compute_timer_config(62_746, 50, CLOCK, 8).unwrap().period_ticks(), 254);
    assert_eq!(compute_timer_config(62_745, 50, CLOCK, 8).unwrap().period_ticks(), 255);
}

#[test]
fn period_without_room_for_a_pulse_is_rejected() {
    // one tick per period: the rising compare value would fall below zero
    assert_eq!(
        compute_timer_config(CLOCK, 50, CLOCK, 16).err(),
        Some(ConfigError::FrequencyTooLow)
    );
    // no tick at all
    assert_eq!(
        compute_timer_config(CLOCK + 1, 50, CLOCK, 16).err(),
        Some(ConfigError::FrequencyTooLow)
    );
    // three ticks at a quarter duty: still no whole tick of pulse
    assert_eq!(
        compute_timer_config(CLOCK / 3, 25, CLOCK, 16).err(),
        Some(ConfigError::FrequencyTooLow)
    );
    // two ticks at half duty is the shortest period there is
    let shortest = compute_timer_config(CLOCK / 2, 50, CLOCK, 16).unwrap();
    assert_eq!(shortest.period_ticks(), 2);
    assert_eq!(shortest.compare_rising(), 0);
    assert_eq!(shortest.compare_falling(), 1);
}

#[test]
fn clock_that_stands_still_gives_no_period() {
    assert_eq!(compute_timer_config(440, 50, 0, 16).err(), Some(ConfigError::FrequencyTooLow));
}
