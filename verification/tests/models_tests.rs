use weight_sensor_pump_controller::models::{MovingAverage, SystemConfig, SystemState, WeightReading};

/// Grams as the library's milligrams.
fn grams(g: f32) -> i32 {
    (g as f64 * 1000.0).round() as i32
}

/// A variance in square grams as square milligrams.
fn square_grams(g2: f64) -> i64 {
    (g2 * 1_000_000.0).round() as i64
}

#[test]
fn test_weight_reading_creation() {
    let reading = WeightReading::new(grams(25.5), true, 0);
    assert_eq!(reading.value, grams(25.5));
    assert!(reading.is_stable);
    assert!(reading.is_valid());
}

#[test]
fn test_weight_reading_validation() {
    let valid_reading = WeightReading::new(grams(50.0), true, 0);
    assert!(valid_reading.is_valid());

    let invalid_reading_negative = WeightReading::new(grams(-5.0), true, 0);
    assert!(!invalid_reading_negative.is_valid());

    let invalid_reading_over_limit = WeightReading::new(grams(150.0), true, 0);
    assert!(!invalid_reading_over_limit.is_valid());
}

#[test]
fn test_system_config_default() {
    let config = SystemConfig::default();
    assert_eq!(config.target_weight, grams(50.0));
    assert_eq!(config.dt_pin, 5);
    assert_eq!(config.sck_pin, 6);
    assert_eq!(config.pump_pin, 18);
    assert_eq!(config.button_pin, 2);
}

#[test]
fn tests_test_system_config_validation() {
    let valid_config = SystemConfig::default();
    assert!(valid_config.validate().is_ok());

    let mut invalid_config = SystemConfig::default();
    invalid_config.target_weight = grams(-10.0);
    assert!(invalid_config.validate().is_err());

    let mut duplicate_pin_config = SystemConfig::default();
    duplicate_pin_config.sck_pin = duplicate_pin_config.dt_pin;
    assert!(duplicate_pin_config.validate().is_err());
}

#[test]
fn test_system_state() {
    let idle_state = SystemState::Idle;
    assert!(!idle_state.is_active());
    assert!(!idle_state.is_error());
    assert_eq!(idle_state.as_str(), "Idle");

    let pumping_state = SystemState::Pumping;
    assert!(pumping_state.is_active());
    assert!(!pumping_state.is_error());

    let error_state = SystemState::Error("Test error".to_string());
    assert!(!error_state.is_active());
    assert!(error_state.is_error());
}

#[test]
fn test_moving_average() {
    let mut filter = MovingAverage::new(3);

    assert_eq!(filter.add(grams(10.0)), grams(10.0));
    assert_eq!(filter.add(grams(20.0)), grams(15.0));
    assert_eq!(filter.add(grams(30.0)), grams(20.0));
    assert_eq!(filter.add(grams(40.0)), grams(30.0)); // the oldest value (10.0) drops out

    assert_eq!(filter.average(), Some(grams(30.0)));

    filter.reset();
    assert_eq!(filter.average(), None);
}

#[test]
fn test_moving_average_stability() {
    let mut filter = MovingAverage::new(3);

    filter.add(grams(10.0));
    filter.add(grams(10.1));
    filter.add(grams(9.9));

    assert!(filter.is_stable(square_grams(0.5)));

    filter.add(grams(15.0));
    assert!(!filter.is_stable(square_grams(0.5)));
}

// ---- further cases ----

#[test]
fn moving_average_not_stable_until_full() {
    let mut filter = MovingAverage::new(3);
    filter.add(grams(10.0));
    filter.add(grams(10.0));
    assert!(!filter.is_stable(square_grams(0.5)));
    filter.add(grams(10.0));
    assert!(filter.is_stable(square_grams(0.5)));
    // a variance of exactly zero is not below a zero threshold
    assert!(!filter.is_stable(0));
}

#[test]
fn moving_average_zero_window_holds_one_sample() {
    let mut filter = MovingAverage::new(0);
    assert_eq!(filter.add(7), 7);
    assert_eq!(filter.add(9), 9);
    assert_eq!(filter.average(), Some(9));
}

#[test]
fn moving_average_rounds_toward_zero() {
    let mut filter = MovingAverage::new(2);
    assert_eq!(filter.add(1), 1);
    assert_eq!(filter.add(2), 1); // 3 / 2
    let mut neg = MovingAverage::new(2);
    neg.add(-1);
    assert_eq!(neg.add(-2), -1); // -3 / 2 rounds toward zero
}

#[test]
fn moving_average_reset_keeps_window() {
    let mut filter = MovingAverage::new(2);
    filter.add(5);
    filter.add(7);
    filter.reset();
    assert_eq!(filter.add(4), 4);
    assert_eq!(filter.add(6), 5);
    assert_eq!(filter.add(8), 7);
}

#[test]
fn weight_reading_bounds_and_rounding() {
    assert!(WeightReading::new(0, false, 0).is_valid());
    assert!(WeightReading::new(grams(100.0), false, 0).is_valid());
    assert!(!WeightReading::new(grams(100.0) + 1, false, 0).is_valid());
    assert_eq!(WeightReading::new(grams(25.5), true, 0).rounded_value(), 26_000);
    assert_eq!(WeightReading::new(grams(25.4), true, 0).rounded_value(), 25_000);
    assert_eq!(WeightReading::new(grams(-2.5), true, 0).rounded_value(), -3_000);
    assert_eq!(WeightReading::new(12, true, 42).timestamp, 42);
}

#[test]
fn validate_messages() {
    let mut c = SystemConfig::default();
    c.target_weight = grams(-10.0);
    assert_eq!(c.validate(), Err("Invalid target weight: -10g".to_string()));
    c.target_weight = grams(100.5);
    assert_eq!(c.validate(), Err("Invalid target weight: 100.5g".to_string()));

    let mut c = SystemConfig::default();
    c.moving_average_window = 0;
    assert_eq!(c.validate(), Err("Moving average window must be greater than 0".to_string()));

    let mut c = SystemConfig::default();
    c.button_pin = c.pwm_reverse_pin;
    assert_eq!(c.validate(), Err("GPIO pin numbers must be unique".to_string()));

    let mut c = SystemConfig::default();
    c.pwm_frequency = 6_000_000;
    assert_eq!(
        c.validate(),
        Err("PWM frequency must be between 1Hz and 5kHz, got: 6000Hz".to_string())
    );
    c.pwm_frequency = 500;
    assert_eq!(
        c.validate(),
        Err("PWM frequency must be between 1Hz and 5kHz, got: 0.5Hz".to_string())
    );

    let mut c = SystemConfig::default();
    c.forward_speed = 1500;
    assert_eq!(c.validate(), Err("Forward speed must be between 0.0 and 1.0, got: 1.5".to_string()));
    c.forward_speed = 800;
    c.reverse_speed = -100;
    assert_eq!(c.validate(), Err("Reverse speed must be between 0.0 and 1.0, got: -0.1".to_string()));
}

#[test]
fn validate_reports_first_broken_rule() {
    let mut c = SystemConfig::default();
    c.target_weight = 0;
    c.moving_average_window = 0;
    assert_eq!(c.validate(), Err("Invalid target weight: 0g".to_string()));
}

#[test]
fn pump_pin_may_share_forward_pwm_pin() {
    let c = SystemConfig::default();
    assert_eq!(c.pump_pin, c.pwm_forward_pin);
    assert!(c.validate().is_ok());
}

#[test]
fn state_names_and_activity() {
    let all = [
        (SystemState::Idle, "Idle", false),
        (SystemState::Measuring, "Measuring", true),
        (SystemState::Pumping, "Pumping", true),
        (SystemState::WeightStabilizing, "WeightStabilizing", true),
        (SystemState::Forward, "Forward", true),
        (SystemState::TargetReached, "TargetReached", true),
        (SystemState::Reverse, "Reverse", true),
        (SystemState::Completed, "Completed", false),
        (SystemState::Stopping, "Stopping", true),
        (SystemState::Error("x".to_string()), "Error", false),
    ];
    for (s, name, active) in all.iter() {
        assert_eq!(s.as_str(), *name);
        assert_eq!(s.is_active(), *active);
        // a working state is never a fault
        assert!(!(s.is_active() && s.is_error()));
    }
}

#[test]
fn moving_average_variance_threshold_is_exact() {
    // 0 and 1000 mg: variance 250 000 mg²
    let mut filter = MovingAverage::new(2);
    filter.add(0);
    filter.add(1000);
    assert!(filter.is_stable(250_001));
    assert!(!filter.is_stable(250_000));
    // 0 and 1414 mg: 499 849 mg², below 0.5 g²; 0 and 1416 mg: 501 264 mg²
    let mut filter = MovingAverage::new(2);
    filter.add(0);
    filter.add(1414);
    assert!(filter.is_stable(500_000));
    // 1414 and -2 mg: 501 264 mg²
    filter.add(-2);
    assert_eq!(filter.average(), Some(706));
    assert!(!filter.is_stable(500_000));
    let mut filter = MovingAverage::new(2);
    filter.add(0);
    filter.add(1416);
    assert!(!filter.is_stable(500_000));
    // negative samples: -3, -4, -8 mg have mean -5 and variance 14/3 mg²
    let mut filter = MovingAverage::new(3);
    filter.add(-3);
    filter.add(-4);
    assert_eq!(filter.add(-8), -5);
    assert!(filter.is_stable(5));
    assert!(!filter.is_stable(4));
    // a negative threshold is never met
    assert!(!filter.is_stable(-1));
    // extreme samples
    let mut filter = MovingAverage::new(2);
    filter.add(i32::MIN);
    filter.add(i32::MAX);
    // variance (2^32 - 1)^2 / 4 = 4 611 686 016 279 904 256.25 mg²
    assert!(filter.is_stable(4_611_686_016_279_904_257));
    assert!(!filter.is_stable(4_611_686_016_279_904_256));
    filter.add(i32::MAX);
    assert!(filter.is_stable(1));
}

#[test]
fn moving_average_window_is_not_capped() {
    let mut filter = MovingAverage::new(usize::MAX);
    assert_eq!(filter.add(4), 4);
    assert_eq!(filter.add(8), 6);
    assert_eq!(filter.average(), Some(6));
    // far from full, so never stable
    assert!(!filter.is_stable(i64::MAX));
}
