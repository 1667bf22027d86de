use weight_sensor_pump_controller::controllers::system::{loop_step, ButtonAction, CycleAction, CycleEvent, CycleNext, ErrorDecision, LoopStep};
use weight_sensor_pump_controller::errors::{MotorError, PumpError, SensorError};
use weight_sensor_pump_controller::{SystemConfig, SystemController, SystemError, SystemState, WeightReading};

fn controller() -> SystemController {
    SystemController::new(SystemConfig::default(), false, 0).unwrap()
}

#[test]
fn new_validates_settings() {
    let mut c = SystemConfig::default();
    c.moving_average_window = 0;
    match SystemController::new(c, false, 0) {
        Err(SystemError::Config(m)) => assert_eq!(m, "Moving average window must be greater than 0"),
        _ => panic!("invalid settings accepted"),
    }
    let s = controller();
    assert_eq!(*s.state(), SystemState::Idle);
    assert_eq!(s.error_count(), 0);
    assert_eq!(s.last_weight_reading(), None);
    assert_eq!(s.config(), &SystemConfig::default());
}

#[test]
fn dispensing_cycle_stops_at_target() {
    let mut s = controller();
    assert_eq!(s.button_action(), ButtonAction::StartPumping);
    assert!(s.start_pumping(100, true).is_ok());
    assert_eq!(*s.state(), SystemState::Pumping);
    assert!(s.pump().is_running());
    assert_eq!(s.button_action(), ButtonAction::StopPumping);

    // below target, or not yet settled: keep going
    s.record_weight(Ok(WeightReading::new(40_000, true, 200))).unwrap();
    assert_eq!(s.cycle_action(), CycleAction::Continue);
    s.record_weight(Ok(WeightReading::new(55_000, false, 300))).unwrap();
    assert_eq!(s.cycle_action(), CycleAction::Continue);
    // settled at the target: stop
    s.record_weight(Ok(WeightReading::new(50_000, true, 400))).unwrap();
    assert!(s.target_reached());
    assert_eq!(s.cycle_action(), CycleAction::StopAtTarget);
    assert!(s.stop_pumping(400, true).is_ok());
    assert_eq!(*s.state(), SystemState::Idle);
    assert!(!s.pump().is_running());
    let stats = s.statistics(500);
    assert_eq!(stats.pump_runtime, 300);
    assert_eq!(stats.current_weight, Some(50_000));
    assert_eq!(stats.target_weight, 50_000);
    assert_eq!(stats.uptime, None);
}

#[test]
fn failed_pump_start_keeps_idle() {
    let mut s = controller();
    match s.start_pumping(0, false) {
        Err(SystemError::Pump(PumpError::StartFailure)) => {}
        other => panic!("unexpected {:?}", other),
    }
    assert_eq!(*s.state(), SystemState::Idle);
    assert!(!s.pump().is_running());
}

#[test]
fn failed_stop_stays_stopping_then_finishes() {
    let mut s = controller();
    s.start_pumping(0, true).unwrap();
    match s.stop_pumping(50, false) {
        Err(SystemError::Pump(PumpError::StopFailure)) => {}
        other => panic!("unexpected {:?}", other),
    }
    assert_eq!(*s.state(), SystemState::Stopping);
    assert!(!s.pump().is_running());
    assert_eq!(s.button_action(), ButtonAction::Ignore);
    assert_eq!(s.cycle_action(), CycleAction::FinishStop);
    s.finalize_stop();
    assert_eq!(*s.state(), SystemState::Idle);
}

#[test]
fn read_failures_are_tolerated_three_times() {
    let mut s = controller();
    for n in 1..=3 {
        assert!(s.record_weight(Err(SensorError::Timeout)).is_ok());
        assert_eq!(s.error_count(), n);
    }
    match s.record_weight(Err(SensorError::Timeout)) {
        Err(SystemError::Sensor(SensorError::Timeout)) => {}
        other => panic!("unexpected {:?}", other),
    }
    // an invalid reading does not clear the count, a valid one does
    s.record_weight(Ok(WeightReading::new(150_000, true, 0))).unwrap();
    assert_eq!(s.error_count(), 3);
    s.record_weight(Ok(WeightReading::new(10_000, true, 0))).unwrap();
    assert_eq!(s.error_count(), 0);
}

#[test]
fn errors_escalate_by_level() {
    let mut s = controller();
    s.start_pumping(0, true).unwrap();
    let warn = SystemError::Sensor(SensorError::OutOfRange { value: 150_000, max: 100_000 });
    assert_eq!(s.error_decision(&warn), ErrorDecision::Continue);
    assert!(s.handle_error(warn, 10).is_ok());
    let retry = SystemError::Motor(MotorError::StartFailure);
    assert!(matches!(s.error_decision(&retry), ErrorDecision::Retry));
    assert!(s.handle_error(retry, 10).is_ok());
    assert_eq!(s.error_count(), 1);
    assert_eq!(*s.state(), SystemState::Pumping);
    let critical = SystemError::Gpio("gpio lost".to_string());
    let r = s.handle_error(critical, 20);
    assert!(matches!(r, Err(SystemError::Gpio(_))));
    assert_eq!(*s.state(), SystemState::Error("GPIO error: gpio lost".to_string()));
    assert!(!s.pump().is_running());
    assert_eq!(s.cycle_action(), CycleAction::Halt);
    assert_eq!(s.button_action(), ButtonAction::Reset);
    assert!(s.check_calibration_allowed().is_ok());
    s.reset_system(30);
    assert_eq!(*s.state(), SystemState::Idle);
    assert_eq!(s.error_count(), 0);
    assert_eq!(s.last_weight_reading(), None);
}

#[test]
fn retries_stop_after_three() {
    let mut s = controller();
    for _ in 0..3 {
        s.record_weight(Err(SensorError::ReadFailure)).unwrap();
    }
    let e = SystemError::Sensor(SensorError::ReadFailure);
    assert!(matches!(s.error_decision(&e), ErrorDecision::Fault));
}

#[test]
fn calibration_refused_while_working() {
    let mut s = controller();
    s.start_pumping(0, true).unwrap();
    match s.check_calibration_allowed() {
        Err(SystemError::Config(m)) => assert_eq!(m, "Cannot calibrate while system is active"),
        other => panic!("unexpected {:?}", other),
    }
}

#[test]
fn button_press_detection_and_startup() {
    let mut s = controller();
    assert!(s.detect_button_press(true, 100));
    assert_eq!(s.button().press_count(), 1);
    s.start_pumping(100, true).unwrap();
    s.startup_sequence(Ok(WeightReading::new(1_000, false, 200)), 200);
    assert!(!s.pump().is_running());
    assert_eq!(*s.state(), SystemState::Idle);
    assert_eq!(s.button().press_count(), 0);
    assert_eq!(s.last_weight_reading(), Some(WeightReading::new(1_000, false, 200)));
    s.startup_sequence(Err(SensorError::Timeout), 300);
    assert_eq!(s.last_weight_reading(), Some(WeightReading::new(1_000, false, 200)));
    assert!(s.health_check(false).is_ok());
    assert!(matches!(s.health_check(true), Err(SystemError::Pump(PumpError::Gpio(_)))));
    s.finish_shutdown();
    assert_eq!(*s.state(), SystemState::Idle);
}

#[test]
fn completed_and_stopping_button_meaning() {
    assert_eq!(ButtonAction::in_state(&SystemState::Completed), ButtonAction::StartPumping);
    assert_eq!(ButtonAction::in_state(&SystemState::Forward), ButtonAction::StopPumping);
    assert_eq!(ButtonAction::in_state(&SystemState::Measuring), ButtonAction::StopPumping);
    assert_eq!(ButtonAction::in_state(&SystemState::Stopping), ButtonAction::Ignore);
    let s = controller();
    assert_eq!(s.button_action(), ButtonAction::StartPumping);
    assert_eq!(s.cycle_action(), CycleAction::Continue);
}

#[test]
fn control_loop_escalates_only_critical_errors() {
    assert_eq!(loop_step(&Ok(true)), LoopStep::Continue);
    assert_eq!(loop_step(&Ok(false)), LoopStep::Stop);
    // a warning and a retryable error are let through
    let warning = SystemError::Sensor(SensorError::OutOfRange { value: -1, max: 100_000 });
    assert_eq!(loop_step(&Err(warning)), LoopStep::Continue);
    let retryable = SystemError::Sensor(SensorError::Timeout);
    assert_eq!(loop_step(&Err(retryable)), LoopStep::Continue);
    // a pump failure is critical and ends the loop
    let critical = SystemError::Pump(PumpError::StartFailure);
    assert_eq!(loop_step(&Err(critical)), LoopStep::Fail);
}

#[test]
fn calibration_through_the_system() {
    let mut s = controller();
    // zero point from ten samples of the empty scale
    assert_eq!(s.calibrate_zero(&[100; 10]), Ok(()));
    assert_eq!(s.weight_sensor().zero_offset(), 100);
    // 50 g reads 21 100 counts: 420 counts per gram
    assert_eq!(s.calibrate_with_known_weight(50_000, &[21_100; 10]), Ok(()));
    assert_eq!(s.weight_sensor().calibration_factor(), 420_000);
    assert_eq!(
        s.calibrate_with_known_weight(0, &[]),
        Err(SystemError::Sensor(SensorError::CalibrationFailed))
    );
    // 10 g reads 4200 counts above zero
    let r = s.try_read_weight(100 + 4200, 9).unwrap();
    assert_eq!(r.value, 10_000);
    assert_eq!(s.weight_sensor().get_current_average(), Some(10_000));
    // refused while dispensing, and nothing changes
    s.start_pumping(0, true).unwrap();
    match s.calibrate_zero(&[0; 10]) {
        Err(SystemError::Config(m)) => assert_eq!(m, "Cannot calibrate while system is active"),
        other => panic!("unexpected {:?}", other),
    }
    assert_eq!(s.weight_sensor().zero_offset(), 100);
    assert!(matches!(
        s.calibrate_with_known_weight(50_000, &[0; 10]),
        Err(SystemError::Config(_))
    ));
    assert_eq!(s.weight_sensor().calibration_factor(), 420_000);
}

#[test]
fn control_cycle_steps() {
    let mut s = controller();
    // no press: straight to the weight read
    assert_eq!(s.cycle_step(CycleEvent::Button { pressed: false, now: 0 }), CycleNext::ReadWeight);
    assert_eq!(
        s.cycle_step(CycleEvent::Weight(Ok(WeightReading::new(1_000, false, 0)))),
        CycleNext::Done(Ok(true))
    );
    // a press when idle asks to start
    assert_eq!(
        s.cycle_step(CycleEvent::Button { pressed: true, now: 100 }),
        CycleNext::ButtonAction(ButtonAction::StartPumping)
    );
    // a failed action ends the cycle before the weight read
    let failed = Err(SystemError::Pump(PumpError::StartFailure));
    assert_eq!(
        s.cycle_step(CycleEvent::ButtonDone(failed)),
        CycleNext::Done(Err(SystemError::Pump(PumpError::StartFailure)))
    );
    // dispensing: a stable reading at the target asks for a stop
    s.start_pumping(200, true).unwrap();
    assert_eq!(s.cycle_step(CycleEvent::ButtonDone(Ok(()))), CycleNext::ReadWeight);
    assert_eq!(
        s.cycle_step(CycleEvent::Weight(Ok(WeightReading::new(10_000, false, 300)))),
        CycleNext::Done(Ok(true))
    );
    assert_eq!(
        s.cycle_step(CycleEvent::Weight(Ok(WeightReading::new(50_000, true, 400)))),
        CycleNext::StopAtTarget
    );
    s.stop_pumping(500, true).unwrap();
    assert_eq!(s.cycle_step(CycleEvent::TargetStopDone(Ok(()))), CycleNext::Done(Ok(true)));
    assert_eq!(*s.state(), SystemState::Idle);
    // read failures are counted, then end the cycle with the error
    for _ in 0..3 {
        assert_eq!(
            s.cycle_step(CycleEvent::Weight(Err(SensorError::Timeout))),
            CycleNext::Done(Ok(true))
        );
    }
    assert_eq!(
        s.cycle_step(CycleEvent::Weight(Err(SensorError::Timeout))),
        CycleNext::Done(Err(SystemError::Sensor(SensorError::Timeout)))
    );
    // in a fault the loop ends
    let _ = s.enter_error_state(SystemError::Gpio("pin".to_string()), 600);
    assert_eq!(
        s.cycle_step(CycleEvent::Weight(Ok(WeightReading::new(0, true, 700)))),
        CycleNext::Done(Ok(false))
    );
}

#[test]
fn cycle_finishes_a_stop_under_way() {
    let mut s = controller();
    s.start_pumping(0, true).unwrap();
    // the pump pin stays high: the stop fails and the system stays stopping
    assert!(s.stop_pumping(10, false).is_err());
    assert_eq!(*s.state(), SystemState::Stopping);
    assert_eq!(
        s.cycle_step(CycleEvent::Weight(Ok(WeightReading::new(0, true, 20)))),
        CycleNext::Done(Ok(true))
    );
    assert_eq!(*s.state(), SystemState::Idle);
}
