use weight_sensor_pump_controller::controllers::button::{ButtonController, ButtonStatus};
use weight_sensor_pump_controller::controllers::motor::{Direction, MotorController, MotorStatus, PwmChannel};
use weight_sensor_pump_controller::controllers::pump::{PumpController, PumpStatus};
use weight_sensor_pump_controller::controllers::weight_sensor::{
    health_attempt_outcome, raw_from_data_bits, read_attempt_outcome, AttemptStep,
    WeightSensorController,
};
use weight_sensor_pump_controller::errors::{MotorError, PumpError, SensorError};
use weight_sensor_pump_controller::models::{MotorState, WeightReading};
use weight_sensor_pump_controller::text::{int_string, milli_string};

fn bits_of(v: u32) -> Vec<bool> {
    (0..24).rev().map(|i| (v >> i) & 1 == 1).collect()
}

#[test]
fn decodes_hx711_samples() {
    assert_eq!(raw_from_data_bits(&bits_of(0)), 0);
    assert_eq!(raw_from_data_bits(&bits_of(1)), 1);
    assert_eq!(raw_from_data_bits(&bits_of(0x7F_FFFF)), 0x7F_FFFF);
    assert_eq!(raw_from_data_bits(&bits_of(0x80_0000)), -0x80_0000);
    assert_eq!(raw_from_data_bits(&bits_of(0xFF_FFFF)), -1);
    assert_eq!(raw_from_data_bits(&bits_of(0xFF_FFFE)), -2);
}

#[test]
fn converts_raw_counts_to_weight() {
    // factor 1.0 count per gram: 25 counts are 25 g
    let mut s = WeightSensorController::new(1000, 1);
    let r = s.try_read_weight(25, 7).unwrap();
    assert_eq!(r, WeightReading { value: 25_000, timestamp: 7, is_stable: true });
    // factor 420.0 counts per gram with a zero point of 1000 counts
    let mut s = WeightSensorController::new(420_000, 1);
    s.calibrate_zero(&[1000; 10]);
    let r = s.try_read_weight(1000 + 4200, 0).unwrap();
    assert_eq!(r.value, 10_000);
    // 1 count at 3 counts per gram is 333 mg (rounded toward zero)
    let mut s = WeightSensorController::new(3000, 1);
    assert_eq!(s.try_read_weight(1, 0).unwrap().value, 333);
}

#[test]
fn refuses_out_of_range_and_invalid_samples() {
    let mut s = WeightSensorController::new(1000, 3);
    match s.try_read_weight(-1, 0) {
        Err(SensorError::OutOfRange { value, max }) => {
            assert_eq!(value, -1000);
            assert_eq!(max, 100_000);
        }
        other => panic!("unexpected {:?}", other),
    }
    assert!(matches!(s.try_read_weight(101, 0), Err(SensorError::OutOfRange { value: 101_000, .. })));
    assert_eq!(s.get_current_average(), None);
    // a zero factor makes any nonzero count an infinite weight
    s.set_calibration_factor(0);
    assert!(matches!(
        s.try_read_weight(5, 0),
        Err(SensorError::OutOfRange { value: i64::MAX, max: 100_000 })
    ));
    assert!(matches!(
        s.try_read_weight(-5, 0),
        Err(SensorError::OutOfRange { value: i64::MIN, max: 100_000 })
    ));
    assert!(matches!(s.try_read_weight(0, 0), Err(SensorError::InvalidReading(0))));
    // a negative factor turns positive counts into negative weights
    s.set_calibration_factor(-1000);
    assert!(matches!(s.try_read_weight(5, 0), Err(SensorError::OutOfRange { value: -5000, .. })));
    s.set_max_weight(1000);
    s.set_calibration_factor(1000);
    assert!(matches!(s.try_read_weight(2, 0), Err(SensorError::OutOfRange { value: 2000, max: 1000 })));
}

#[test]
fn filtered_readings_settle() {
    let mut s = WeightSensorController::new(1000, 3);
    assert!(!s.try_read_weight(10, 0).unwrap().is_stable);
    assert!(!s.try_read_weight(10, 1).unwrap().is_stable);
    let r = s.try_read_weight(10, 2).unwrap();
    assert!(r.is_stable);
    assert_eq!(r.value, 10_000);
    let r = s.try_read_weight(14, 3).unwrap();
    assert!(!r.is_stable);
    assert_eq!(r.value, 11_333);
    s.reset_filter();
    assert_eq!(s.get_current_average(), None);
    s.set_moving_average_window(1);
    assert!(s.try_read_weight(50, 4).unwrap().is_stable);
}

#[test]
fn zero_calibration_averages_samples() {
    let mut s = WeightSensorController::new(1000, 3);
    s.try_read_weight(5, 0).unwrap();
    s.calibrate_zero(&[100, 100, 100, 100, 100, 101, 101, 101, 101, 104]);
    assert_eq!(s.zero_offset(), 100);
    assert_eq!(s.get_current_average(), None);
    s.calibrate_zero(&[-15, -15, -15, -15, -15, -15, -15, -15, -15, -16]);
    assert_eq!(s.zero_offset(), -15);
}

#[test]
fn known_weight_calibration() {
    let mut s = WeightSensorController::new(1000, 3);
    s.calibrate_zero(&[100; 10]);
    // 50 g reads 21 100 counts: 21 000 above zero, 420 counts per gram
    let samples = [21_100; 10];
    assert!(s.calibrate_with_known_weight(50_000, &samples).is_ok());
    assert_eq!(s.calibration_factor(), 420_000);
    assert!(matches!(
        s.calibrate_with_known_weight(0, &[]),
        Err(SensorError::CalibrationFailed)
    ));
    assert_eq!(s.calibration_factor(), 420_000);
    // samples below the zero point give a negative factor, stored and refused
    assert!(matches!(
        s.calibrate_with_known_weight(50_000, &[0; 10]),
        Err(SensorError::CalibrationFailed)
    ));
    assert_eq!(s.calibration_factor(), -2000);
}

#[test]
fn known_weight_calibration_keeps_small_factors() {
    // ten samples one count above zero in all under 200 g: 0.0005 counts per
    // gram, kept as the smallest positive factor rather than lost
    let mut s = WeightSensorController::new(1000, 3);
    let samples = [0, 0, 0, 0, 0, 0, 0, 0, 0, 1];
    assert_eq!(s.calibrate_with_known_weight(200_000, &samples), Ok(()));
    assert_eq!(s.calibration_factor(), 1);
    // a mean of exactly zero above the zero point is refused
    assert_eq!(
        s.calibrate_with_known_weight(200_000, &[0; 10]),
        Err(SensorError::CalibrationFailed)
    );
    assert_eq!(s.calibration_factor(), 0);
    // 3 counts in all under 7 g: 300 000 / 7 000 = 42.86, rounded up to 43
    let samples = [0, 0, 0, 0, 0, 0, 0, 1, 1, 1];
    assert_eq!(s.calibrate_with_known_weight(7_000, &samples), Ok(()));
    assert_eq!(s.calibration_factor(), 43);
    // and a negative mean rounds away from zero too
    let samples = [0, 0, 0, 0, 0, 0, 0, -1, -1, -1];
    assert!(s.calibrate_with_known_weight(7_000, &samples).is_err());
    assert_eq!(s.calibration_factor(), -43);
}

#[test]
fn slightly_negative_weights_are_out_of_range() {
    // one count below zero at 2000 counts per gram is -0.5 mg: refused
    let mut s = WeightSensorController::new(2_000_000, 3);
    assert!(matches!(
        s.try_read_weight(-1, 0),
        Err(SensorError::OutOfRange { value: 0, max: 100_000 })
    ));
    assert_eq!(s.get_current_average(), None);
    // and one count above is 0.5 mg, accepted as 0 mg
    assert_eq!(s.try_read_weight(1, 0).unwrap().value, 0);
    // just above the maximum by less than a milligram is refused as well
    let mut s = WeightSensorController::new(3000, 1);
    s.set_max_weight(333);
    assert!(matches!(
        s.try_read_weight(1, 0),
        Err(SensorError::OutOfRange { value: 333, max: 333 })
    ));
    s.set_max_weight(334);
    assert_eq!(s.try_read_weight(1, 0).unwrap().value, 333);
}

#[test]
fn stability_of_reading_series() {
    let s = WeightSensorController::new(1000, 5);
    let steady = [10_000, 10_100, 9_900, 10_200, 9_800];
    assert!(s.check_weight_stability(&steady, 500));
    assert!(!s.check_weight_stability(&steady, 100));
    assert!(!s.check_weight_stability(&steady[..4], 500));
    assert_eq!(s.stabilize_weight(&steady, 500), Ok(10_000));
    assert!(matches!(s.stabilize_weight(&[], 500), Err(SensorError::ReadFailure)));
    assert!(matches!(s.stabilize_weight(&steady, 100), Err(SensorError::CalibrationFailed)));
    assert!(s.is_in_range(100_000));
    assert!(!s.is_in_range(-1));
}

#[test]
fn target_monitoring() {
    let stable = WeightReading::new(60_000, true, 0);
    let unstable = WeightReading::new(60_000, false, 0);
    assert!(WeightSensorController::monitor_weight_for_target(&stable, 50_000, 10_000));
    assert!(!WeightSensorController::monitor_weight_for_target(&stable, 50_001, 10_000));
    assert!(!WeightSensorController::monitor_weight_for_target(&unstable, 50_000, 0));
}

#[test]
fn pump_runtime_accounting() {
    let mut p = PumpController::new();
    assert!(!p.is_running());
    assert!(matches!(p.stop(10, false), Err(PumpError::NotRunning)));
    assert!(matches!(p.start(100, false), Err(PumpError::StartFailure)));
    assert!(!p.is_running());
    assert!(p.start(100, true).is_ok());
    assert!(matches!(p.start(150, true), Err(PumpError::AlreadyRunning)));
    assert_eq!(p.current_runtime(350), 250);
    assert!(p.stop(400, false).is_ok());
    assert_eq!(p.total_runtime(1000), 300);
    assert!(p.start(1000, true).is_ok());
    assert!(matches!(p.stop(1100, true), Err(PumpError::StopFailure)));
    assert!(!p.is_running());
    assert_eq!(p.total_runtime(2000), 400);
    assert!(p.start(2000, true).is_ok());
    p.emergency_stop(2050);
    assert_eq!(p.total_runtime(9000), 450);
    p.reset_runtime(9000);
    assert_eq!(p.total_runtime(9000), 0);
}

#[test]
fn pump_safe_stop_and_health() {
    let mut p = PumpController::new();
    assert!(p.safe_stop(5, false).is_ok());
    p.start(0, true).unwrap();
    assert!(p.health_check(true).is_ok());
    match p.health_check(false) {
        Err(PumpError::Gpio(m)) => assert_eq!(m, "GPIO state inconsistent with running state"),
        other => panic!("unexpected {:?}", other),
    }
    assert!(matches!(p.safe_stop(30, false), Err(PumpError::StopFailure)));
    assert!(!p.is_running());
    match p.health_check(true) {
        Err(PumpError::Gpio(m)) => assert_eq!(m, "GPIO state inconsistent with stopped state"),
        other => panic!("unexpected {:?}", other),
    }
    assert_eq!(p.total_runtime(100), 30);
    assert_eq!(PumpController::poll_stopped(10, 5000, true), None);
    assert!(matches!(PumpController::poll_stopped(10, 5000, false), Some(Ok(()))));
    assert!(matches!(PumpController::poll_stopped(5000, 5000, false), Some(Err(PumpError::StopFailure))));
}

#[test]
fn pump_status() {
    let mut p = PumpController::new();
    p.start(10, true).unwrap();
    let s = p.status(40, true);
    assert_eq!(s, PumpStatus { is_running: true, current_runtime: 30, total_runtime: 30, gpio_state: true });
    assert_eq!(s.as_str(), "Running");
    assert!(s.is_healthy());
    let s = PumpStatus { is_running: false, current_runtime: 0, total_runtime: 0, gpio_state: true };
    assert_eq!(s.as_str(), "Stopped");
    assert!(!s.is_healthy());
}

#[test]
fn button_debounces_and_counts() {
    let mut b = ButtonController::new(false, 0);
    assert!(!b.detect_press(true, 10)); // within 50 ms of start
    assert!(b.detect_press(true, 60));
    assert_eq!(b.press_count(), 1);
    assert!(!b.detect_press(true, 200)); // still held
    assert!(!b.detect_release(false, 100)); // within 50 ms of the press
    assert!(b.detect_release(false, 200));
    assert!(b.detect_press(true, 300));
    assert_eq!(b.press_count(), 2);
    b.reset_press_count();
    assert_eq!(b.press_count(), 0);
}

#[test]
fn button_level_and_long_press() {
    let mut b = ButtonController::new(false, 0);
    assert!(!b.is_pressed(true, 20)); // debounced: last accepted level
    assert!(b.is_pressed(true, 100));
    assert_eq!(b.press_count(), 1);
    assert!(!b.detect_long_press(true, 500, 1000));
    assert!(b.detect_long_press(true, 1100, 1000));
    b.set_debounce_duration(0);
    assert!(!b.is_pressed(false, 1200));
}

#[test]
fn button_double_click() {
    let mut b = ButtonController::new(false, 0);
    assert!(!b.detect_double_click(true, 100, 400));
    assert!(b.detect_release(false, 200));
    assert!(b.detect_double_click(true, 300, 400));
    assert!(b.detect_release(false, 400));
    // memory cleared: the next click starts over
    assert!(!b.detect_double_click(true, 500, 400));
}

#[test]
fn button_status() {
    let mut b = ButtonController::new(false, 0);
    b.detect_press(true, 100);
    let s = b.status(120, true);
    assert_eq!(s, ButtonStatus { is_pressed: true, press_count: 1, debounce_remaining: 30, gpio_state: true });
    assert_eq!(s.as_str(), "Pressed");
    assert!(s.is_debouncing());
    let s = b.status(500, true);
    assert!(!s.is_debouncing());
    let released = ButtonStatus { is_pressed: false, press_count: 0, debounce_remaining: 0, gpio_state: false };
    assert_eq!(released.as_str(), "Released");
}

#[test]
fn motor_setup_checks() {
    assert!(matches!(MotorController::new(18, 19, 500), Err(MotorError::FrequencyOutOfRange(500))));
    assert!(matches!(MotorController::new(18, 19, 5_000_001), Err(MotorError::FrequencyOutOfRange(_))));
    match MotorController::new(12, 19, 1_000_000) {
        Err(MotorError::Gpio(m)) => assert_eq!(m, "GPIO 12 does not support PWM"),
        _ => panic!("pin 12 has no PWM"),
    }
    match MotorController::new(18, 5, 1_000_000) {
        Err(MotorError::Gpio(m)) => assert_eq!(m, "GPIO 5 does not support PWM"),
        _ => panic!("pin 5 has no PWM"),
    }
    match MotorController::new(18, 18, 1_000_000) {
        Err(MotorError::Gpio(m)) => {
            assert_eq!(m, "Forward and reverse pins cannot use the same PWM channel")
        }
        _ => panic!("same channel"),
    }
    let m = MotorController::new(19, 18, 1_000_000).unwrap();
    assert_eq!(m.channels(), (PwmChannel::Pwm1, PwmChannel::Pwm0));
    assert_eq!(m.current_state(), MotorState::Stopped);
    assert_eq!(m.pwm_frequency(), 1_000_000);
}

#[test]
fn motor_start_stop_cycle() {
    let mut m = MotorController::new(18, 19, 1_000_000).unwrap();
    assert!(matches!(m.begin_start(1500, 0), Err(MotorError::InvalidSpeed(1500))));
    assert!(m.begin_start(800, 0).is_ok());
    // forward output read back at 75% of an 80% request: too low
    assert!(matches!(m.finish_start(Direction::Forward, 800, 0, 710, 0), Err(MotorError::StartFailure)));
    assert!(!m.is_running());
    assert!(m.finish_start(Direction::Forward, 800, 0, 720, 0).is_ok());
    assert_eq!(m.current_state(), MotorState::Forward(800));
    assert_eq!(m.current_speed(), 800);
    assert!(m.set_speed(500).is_ok());
    assert_eq!(m.current_state(), MotorState::Forward(500));
    // starting in reverse stops the forward run first
    assert!(m.begin_start(600, 100).is_ok());
    assert!(!m.is_running());
    assert_eq!(m.total_runtime(100), 100);
    assert!(matches!(m.finish_start(Direction::Reverse, 600, 100, 20, 600), Err(MotorError::StartFailure)));
    assert!(m.finish_start(Direction::Reverse, 600, 100, 0, 600).is_ok());
    assert_eq!(m.speed_target(300).ok(), Some(Direction::Reverse));
    m.emergency_stop(150);
    assert_eq!(m.total_runtime(200), 150);
    assert!(matches!(m.set_speed(300), Err(MotorError::NotRunning)));
    assert!(MotorController::check_stopped(10, 0).is_ok());
    assert!(matches!(MotorController::check_stopped(11, 0), Err(MotorError::StopFailure)));
    m.reset_runtime(300);
    assert_eq!(m.total_runtime(300), 0);
    assert!(m.set_frequency(2_000_000).is_ok());
    assert_eq!(m.pwm_frequency(), 2_000_000);
    assert!(matches!(m.set_frequency(0), Err(MotorError::FrequencyOutOfRange(0))));
}

#[test]
fn motor_health_and_safety() {
    let mut m = MotorController::new(18, 19, 1_000_000).unwrap();
    assert!(m.health_check(Some(0), Some(0)).is_ok());
    assert!(matches!(m.health_check(None, Some(0)), Err(MotorError::UnsafeState)));
    assert!(matches!(m.health_check(Some(500), Some(500)), Err(MotorError::UnsafeState)));
    match m.health_check(Some(500), Some(0)) {
        Err(MotorError::PwmControl(s)) => assert_eq!(s, "Motor state inconsistent with PWM state"),
        _ => panic!("state mismatch"),
    }
    m.begin_start(800, 0).unwrap();
    m.finish_start(Direction::Forward, 800, 0, 800, 0).unwrap();
    assert!(m.health_check(Some(750), Some(0)).is_ok());
    match m.health_check(Some(650), Some(0)) {
        Err(MotorError::PwmControl(s)) => assert_eq!(s, "Motor speed inconsistent with PWM state"),
        _ => panic!("speed mismatch"),
    }
    assert!(MotorController::is_safe_state(Some(800), Some(0)));
    assert!(!MotorController::is_safe_state(Some(800), Some(11)));
    assert!(!MotorController::is_safe_state(Some(0), None));
    assert_eq!(MotorController::poll_stopped(0, 100, Some(0), Some(5)).map(|r| r.is_ok()), Some(true));
    assert!(MotorController::poll_stopped(0, 100, Some(50), Some(0)).is_none());
    assert!(matches!(MotorController::poll_stopped(100, 100, None, None), Some(Err(MotorError::StopFailure))));
}

#[test]
fn motor_status_snapshots() {
    let mut m = MotorController::new(18, 19, 1_000_000).unwrap();
    m.begin_start(600, 10).unwrap();
    m.finish_start(Direction::Reverse, 600, 10, 0, 600).unwrap();
    let s = m.status(30, Some(0), Some(650));
    assert_eq!(
        s,
        MotorStatus {
            state: MotorState::Reverse(600),
            current_runtime: 20,
            total_runtime: 20,
            forward_duty_cycle: 0,
            reverse_duty_cycle: 650,
            pwm_frequency: 1_000_000,
            is_safe: true,
        }
    );
    assert_eq!(s.as_str(), "Reverse");
    assert!(s.is_healthy());
    let off = m.status(30, Some(0), Some(700));
    assert!(!off.is_healthy());
    let failed_read = m.status(30, None, Some(600));
    assert_eq!(failed_read.forward_duty_cycle, 0);
    assert!(!failed_read.is_safe);
}

#[test]
fn decimal_text() {
    assert_eq!(milli_string(0), "0");
    assert_eq!(milli_string(1500), "1.5");
    assert_eq!(milli_string(-100), "-0.1");
    assert_eq!(milli_string(50_000), "50");
    assert_eq!(milli_string(1_234), "1.234");
    assert_eq!(milli_string(20), "0.02");
    assert_eq!(milli_string(i64::MIN), "-9223372036854775.808");
    assert_eq!(int_string(0), "0");
    assert_eq!(int_string(18), "18");
    assert_eq!(int_string(u64::MAX), "18446744073709551615");
}

#[test]
fn read_retries_give_up_after_three() {
    let ok = WeightReading::new(1, true, 0);
    assert_eq!(read_attempt_outcome(0, Ok(ok)), AttemptStep::Finish(Ok(ok)));
    assert_eq!(read_attempt_outcome(0, Err(SensorError::Timeout)), AttemptStep::Retry);
    assert_eq!(read_attempt_outcome(1, Err(SensorError::ReadFailure)), AttemptStep::Retry);
    assert_eq!(
        read_attempt_outcome(2, Err(SensorError::Timeout)),
        AttemptStep::Finish(Err(SensorError::Timeout))
    );
}

#[test]
fn health_reads_retry_timeouts_only() {
    assert_eq!(health_attempt_outcome(0, Ok(5)), AttemptStep::Finish(Ok(())));
    assert_eq!(health_attempt_outcome(0, Err(SensorError::Timeout)), AttemptStep::Retry);
    assert_eq!(
        health_attempt_outcome(0, Err(SensorError::ReadFailure)),
        AttemptStep::Finish(Err(SensorError::ReadFailure))
    );
    assert_eq!(
        health_attempt_outcome(0, Err(SensorError::Gpio("x".to_string()))),
        AttemptStep::Finish(Err(SensorError::Gpio("x".to_string())))
    );
    assert_eq!(
        health_attempt_outcome(2, Err(SensorError::Timeout)),
        AttemptStep::Finish(Err(SensorError::ReadFailure))
    );
}

fn running_forward(speed: i32, now: u64) -> MotorController {
    let mut m = MotorController::new(18, 19, 1_000_000).unwrap();
    m.begin_start(speed, now).unwrap();
    m.finish_start(Direction::Forward, speed, now, speed, 0).unwrap();
    m
}

#[test]
fn motor_stop_records_the_run_once() {
    let mut m = running_forward(800, 1000);
    assert_eq!(m.stop(1500, Ok(()), Ok((0, 0))), Ok(()));
    assert_eq!(m.current_state(), MotorState::Stopped);
    assert_eq!(m.current_speed(), 0);
    assert_eq!(m.total_runtime(1500), 500);
    // a second stop touches nothing and succeeds, whatever is reported
    assert_eq!(m.stop(9000, Err("ignored".to_string()), Ok((900, 900))), Ok(()));
    assert_eq!(m.total_runtime(9000), 500);
}

#[test]
fn motor_stop_failures() {
    // a write that fails leaves the motor running
    let mut m = running_forward(800, 0);
    assert_eq!(
        m.stop(100, Err("write failed".to_string()), Ok((0, 0))),
        Err(MotorError::PwmControl("write failed".to_string()))
    );
    assert_eq!(m.current_state(), MotorState::Forward(800));
    // an output still active after zeroing: stopped, but the stop failed
    assert_eq!(m.stop(200, Ok(()), Ok((0, 11))), Err(MotorError::StopFailure));
    assert_eq!(m.current_state(), MotorState::Stopped);
    assert_eq!(m.total_runtime(200), 200);
    // a read that fails after zeroing
    let mut m = running_forward(500, 0);
    assert_eq!(
        m.stop(50, Ok(()), Err("read failed".to_string())),
        Err(MotorError::PwmControl("read failed".to_string()))
    );
    assert_eq!(m.current_state(), MotorState::Stopped);
}

#[test]
fn motor_safe_stop_falls_back_to_emergency_stop() {
    // a normal stop that works
    let mut m = running_forward(800, 0);
    assert!(MotorController::stop_took_effect(&Ok(()), &Ok((10, 0))));
    assert_eq!(m.safe_stop(100, Ok(()), Ok((10, 0)), false), Ok(()));
    assert_eq!(m.total_runtime(100), 100);
    // a failed write: the emergency stop still stops the motor
    let mut m = running_forward(800, 0);
    let zeroed: Result<(), String> = Err("write failed".to_string());
    assert!(!MotorController::stop_took_effect(&zeroed, &Ok((0, 0))));
    assert_eq!(m.safe_stop(300, zeroed, Ok((0, 0)), true), Ok(()));
    assert_eq!(m.current_state(), MotorState::Stopped);
    assert_eq!(m.total_runtime(300), 300);
    // outputs that never fall within the wait
    let mut m = running_forward(800, 0);
    assert_eq!(m.safe_stop(40, Ok(()), Ok((800, 0)), false), Err(MotorError::StopFailure));
    assert_eq!(m.current_state(), MotorState::Stopped);
    assert_eq!(m.total_runtime(40), 40);
    // a stopped motor is left alone
    assert_eq!(m.safe_stop(90, Ok(()), Ok((800, 800)), false), Ok(()));
}

#[test]
fn motor_resumes_where_it_was() {
    let m = MotorController::new(18, 19, 1_000_000).unwrap();
    assert_eq!(m.resume_plan(), None);
    let m = running_forward(700, 0);
    assert_eq!(m.resume_plan(), Some((Direction::Forward, 700)));
    let mut m = MotorController::new(18, 19, 1_000_000).unwrap();
    m.begin_start(600, 0).unwrap();
    m.finish_start(Direction::Reverse, 600, 0, 0, 600).unwrap();
    assert_eq!(m.resume_plan(), Some((Direction::Reverse, 600)));
}

#[test]
fn button_wait_ends_on_release() {
    assert!(ButtonController::press_completed(true, false));
    assert!(!ButtonController::press_completed(false, false));
    assert!(!ButtonController::press_completed(true, true));
    assert!(!ButtonController::press_completed(false, true));
}
