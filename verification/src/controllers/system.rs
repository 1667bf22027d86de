//! The dispensing sequence: what the button does in each state, how weight
//! readings and read failures are handled, when the target is reached, how
//! errors are escalated, and the statistics.  The caller drives the pins,
//! reads the sensor and supplies the time (milliseconds of its monotonic
//! clock); every decision is taken here.
use crate::controllers::button::{level_counts_press, press_step, ButtonController, ButtonModel};
use crate::controllers::pump::{
    closed_at, current_runtime_at, runtime_fits, safe_stop_step, start_step, PumpController,
    PumpModel,
};
use crate::controllers::weight_sensor::{
    known_weight_calibration, known_weight_result, read_outcome, zero_calibration, SensorModel,
    WeightSensorController,
    CALIBRATION_SAMPLES,
};
use crate::errors::{level_of, retryable, system_text, ErrorLevel, SensorError, SystemError};
use crate::models::moving_average::clamp_window;
use crate::models::{config_check, state_active, SystemConfig, SystemState, WeightReading};
use vstd::prelude::*;
use vstd::string::*;

verus! {

/// How many consecutive failed or retried operations are tolerated.
pub const MAX_ERROR_COUNT: u32 = 3;

/// How long a safe stop of the pump waits for the pin to fall, in
/// milliseconds.
pub const PUMP_STOP_TIMEOUT_MS: u64 = 5000;

/// What a button press asks for in the current state.
#[derive(Debug, Clone, Copy, PartialEq, Eq, Structural)]
pub enum ButtonAction {
    /// Start dispensing.
    StartPumping,
    /// Stop dispensing.
    StopPumping,
    /// Nothing: a stop is under way.
    Ignore,
    /// Leave the fault state.
    Reset,
}

impl ButtonAction {
    /// What a button press asks for in `state`.
    pub fn in_state(state: &SystemState) -> (r: ButtonAction)
        ensures
            r == button_action_for(*state),
    {
        match state {
            SystemState::Idle | SystemState::Completed => ButtonAction::StartPumping,
            SystemState::Stopping => ButtonAction::Ignore,
            SystemState::Error(_) => ButtonAction::Reset,
            _ => ButtonAction::StopPumping,
        }
    }
}

/// What the rest of a control cycle does in the current state.
#[derive(Debug, Clone, Copy, PartialEq, Eq, Structural)]
pub enum CycleAction {
    /// The target weight is reached: stop dispensing.
    StopAtTarget,
    /// Finish a stop.
    FinishStop,
    /// End the control loop.
    Halt,
    /// Nothing more this cycle.
    Continue,
}

/// The button's meaning in each state: from idle or a finished run it
/// starts; while working (other than stopping) it stops; while stopping it
/// is ignored; in a fault it resets.
pub open spec fn button_action_for(s: SystemState) -> ButtonAction {
    match s {
        SystemState::Idle | SystemState::Completed => ButtonAction::StartPumping,
        SystemState::Stopping => ButtonAction::Ignore,
        SystemState::Error(_) => ButtonAction::Reset,
        _ => ButtonAction::StopPumping,
    }
}

/// Whether a reading shows the target reached: stable and at least the
/// target weight.
pub open spec fn reading_reaches_target(r: Option<WeightReading>, target: i32) -> bool {
    r matches Some(w) && w.is_stable && w.value >= target
}

/// The rest of a control cycle: while pumping, stop once the last reading
/// reaches the target; while stopping, finish the stop; in a fault, end the
/// loop; otherwise nothing.
pub open spec fn cycle_action_for(s: SystemState, last: Option<WeightReading>, target: i32) -> CycleAction {
    match s {
        SystemState::Pumping => if reading_reaches_target(last, target) {
            CycleAction::StopAtTarget
        } else {
            CycleAction::Continue
        },
        SystemState::Stopping => CycleAction::FinishStop,
        SystemState::Error(_) => CycleAction::Halt,
        _ => CycleAction::Continue,
    }
}

/// What handling an error decides.
#[derive(Debug, Clone, Copy, PartialEq, Eq, Structural)]
pub enum ErrorDecision {
    /// Carry on.
    Continue,
    /// Carry on and count a retry.
    Retry,
    /// Enter the fault state.
    Fault,
}

/// How an error is handled with `error_count` retries already made:
/// warnings are let through; plain errors are retried while retryable and
/// fewer than three retries were made; everything else is a fault.
pub open spec fn error_decision(e: SystemError, error_count: u32) -> ErrorDecision {
    match level_of(e) {
        ErrorLevel::Warning => ErrorDecision::Continue,
        ErrorLevel::Error => if retryable(e) && error_count < MAX_ERROR_COUNT {
            ErrorDecision::Retry
        } else {
            ErrorDecision::Fault
        },
        ErrorLevel::Critical => ErrorDecision::Fault,
    }
}

/// What the control loop does after a cycle.
#[derive(Debug, Clone, Copy, PartialEq, Eq, Structural)]
pub enum LoopStep {
    /// Run the next cycle.
    Continue,
    /// Leave the loop normally: the system asked to halt.
    Stop,
    /// Leave the loop with the cycle's error.
    Fail,
}

/// The control loop's escalation rule: a cycle that asks to go on is
/// followed by the next one, a cycle that asks to halt ends the loop, a
/// critical error ends it with that error, and any other error is let
/// through and the loop goes on.
pub fn loop_step(outcome: &Result<bool, SystemError>) -> (r: LoopStep)
    ensures
        r == match *outcome {
            Ok(true) => LoopStep::Continue,
            Ok(false) => LoopStep::Stop,
            Err(e) => if level_of(e) == ErrorLevel::Critical {
                LoopStep::Fail
            } else {
                LoopStep::Continue
            },
        },
{
    match outcome {
        Ok(true) => LoopStep::Continue,
        Ok(false) => LoopStep::Stop,
        Err(e) => {
            if e.level() == ErrorLevel::Critical {
                LoopStep::Fail
            } else {
                LoopStep::Continue
            }
        },
    }
}

/// What handling the outcome of a weight read does to `o`: a reading is
/// kept, and a valid one (0 to 100 g) clears the error count while an
/// invalid one is only warned about; a failed read is counted while fewer
/// than three are counted, and returned as an error otherwise.
pub open spec fn record_step(o: SystemView, reading: Result<WeightReading, SensorError>) -> (
    SystemView,
    Result<(), SystemError>,
) {
    match reading {
        Ok(w) => (
            SystemView {
                last_weight_reading: Some(w),
                error_count: if 0 <= w.value <= crate::models::MAX_VALID_WEIGHT {
                    0
                } else {
                    o.error_count
                },
                ..o
            },
            Ok(()),
        ),
        Err(e) => if o.error_count < MAX_ERROR_COUNT {
            (SystemView { error_count: (o.error_count + 1) as u32, ..o }, Ok(()))
        } else {
            (o, Err(SystemError::Sensor(e)))
        },
    }
}

/// What the caller reports in a control cycle.
#[derive(Debug, PartialEq, Eq)]
pub enum CycleEvent {
    /// At the start of the cycle: the button's pin level `pressed`, read at
    /// `now`.
    Button { pressed: bool, now: u64 },
    /// The outcome of the button's action.
    ButtonDone(Result<(), SystemError>),
    /// The outcome of the weight read.
    Weight(Result<WeightReading, SensorError>),
    /// The outcome of stopping at the target.
    TargetStopDone(Result<(), SystemError>),
}

/// What the caller does next in a control cycle.
#[derive(Debug, PartialEq, Eq)]
pub enum CycleNext {
    /// Carry out the button's action, then report `ButtonDone`.
    ButtonAction(ButtonAction),
    /// Read the weight, then report `Weight`.
    ReadWeight,
    /// Stop dispensing (`stop_pumping`), then report `TargetStopDone`.
    StopAtTarget,
    /// The cycle is over: `Ok(true)` to go on, `Ok(false)` to end the
    /// loop, or the error that ended the cycle.
    Done(Result<bool, SystemError>),
}

/// Statistics of the system.  Weights in milligrams, times in milliseconds.
#[derive(Debug, Clone, PartialEq, Eq)]
pub struct SystemStatistics {
    pub state: SystemState,
    pub error_count: u32,
    pub pump_runtime: u64,
    pub button_press_count: u32,
    pub current_weight: Option<i32>,
    pub target_weight: i32,
    pub uptime: Option<u64>,
}

/// The control state of the whole system.
#[derive(Debug)]
pub struct SystemController {
    weight_sensor: WeightSensorController,
    pump: PumpController,
    button: ButtonController,
    config: SystemConfig,
    state: SystemState,
    last_weight_reading: Option<WeightReading>,
    error_count: u32,
    /// When the current run started.
    start_time: Option<u64>,
}

/// What the system's control state holds: the sensor, the pump and the
/// button as models, the settings, the state, the last reading, the errors
/// counted and when the current run started.
pub struct SystemView {
    pub weight_sensor: SensorModel,
    pub pump: PumpModel,
    pub button: ButtonModel,
    pub config: SystemConfig,
    pub state: SystemState,
    pub last_weight_reading: Option<WeightReading>,
    pub error_count: u32,
    pub start_time: Option<u64>,
}

impl View for SystemController {
    type V = SystemView;

    closed spec fn view(&self) -> SystemView {
        SystemView {
            weight_sensor: self.weight_sensor@,
            pump: self.pump@,
            button: self.button@,
            config: self.config,
            state: self.state,
            last_weight_reading: self.last_weight_reading,
            error_count: self.error_count,
            start_time: self.start_time,
        }
    }
}

/// The safety rule: the pump runs only while the system is in the pumping
/// state.
pub open spec fn pump_safe(v: SystemView) -> bool {
    v.pump.start_time is Some ==> v.state is Pumping
}

/// An exact copy of a state.
fn copy_state(s: &SystemState) -> (r: SystemState)
    ensures
        r == *s,
{
    match s {
        SystemState::Idle => SystemState::Idle,
        SystemState::Measuring => SystemState::Measuring,
        SystemState::Pumping => SystemState::Pumping,
        SystemState::WeightStabilizing => SystemState::WeightStabilizing,
        SystemState::Forward => SystemState::Forward,
        SystemState::TargetReached => SystemState::TargetReached,
        SystemState::Reverse => SystemState::Reverse,
        SystemState::Completed => SystemState::Completed,
        SystemState::Stopping => SystemState::Stopping,
        SystemState::Error(m) => SystemState::Error(m.clone()),
    }
}

/// `b` keeps `a`'s settings, sensor and button.
pub open spec fn keeps_parts(a: SystemView, b: SystemView) -> bool {
    &&& b.config == a.config
    &&& b.weight_sensor == a.weight_sensor
    &&& b.button == a.button
}

/// `b` keeps `a`'s sensor calibration, range and filter window (the filter's
/// samples may differ).
pub open spec fn keeps_calibration(a: SensorModel, b: SensorModel) -> bool {
    &&& b.calibration_factor == a.calibration_factor
    &&& b.zero_offset == a.zero_offset
    &&& b.max_weight == a.max_weight
    &&& b.window == a.window
}

impl SystemController {
    /// The safety invariant: the pump runs only while the system is in the
    /// pumping state.
    #[verifier::type_invariant]
    spec fn inv(self) -> bool {
        pump_safe(self@)
    }

    /// A controller for `config`, whose button shows `button_pressed` at
    /// `now`: idle, pump stopped, no reading, no error counted.  Settings that
    /// fail validation are refused with the validation message.
    pub fn new(config: SystemConfig, button_pressed: bool, now: u64) -> (r: Result<
        Self,
        SystemError,
    >)
        ensures
            config_check(config) is Ok <==> r is Ok,
            r matches Err(e) ==> e matches SystemError::Config(m) && config_check(config)
                == Err::<(), Seq<char>>(m@),
            r matches Ok(s) ==> {
                &&& s@.config == config
                &&& s@.state == SystemState::Idle
                &&& s@.last_weight_reading is None
                &&& s@.error_count == 0
                &&& s@.start_time is None
                &&& s@.pump == (PumpModel { start_time: None, total_runtime: 0 })
                &&& s@.button == (ButtonModel {
                    last_state: button_pressed,
                    debounce_timer: now,
                    debounce_duration: crate::controllers::button::DEFAULT_DEBOUNCE_MS,
                    press_count: 0,
                    last_click: None,
                })
                &&& s@.weight_sensor.calibration_factor == config.calibration_factor
                &&& s@.weight_sensor.zero_offset == 0
                &&& s@.weight_sensor.max_weight == crate::controllers::weight_sensor::DEFAULT_MAX_WEIGHT
                &&& s@.weight_sensor.filter == Seq::<i32>::empty()
                &&& s@.weight_sensor.window == clamp_window(
                    config.moving_average_window as nat,
                )
            },
    {
        match config.validate() {
            Err(m) => {
                return Err(SystemError::Config(m));
            },
            Ok(()) => {},
        }
        let weight_sensor = WeightSensorController::new(
            config.calibration_factor,
            config.moving_average_window,
        );
        Ok(
            SystemController {
                weight_sensor,
                pump: PumpController::new(),
                button: ButtonController::new(button_pressed, now),
                config,
                state: SystemState::Idle,
                last_weight_reading: None,
                error_count: 0,
                start_time: None,
            },
        )
    }

    /// The start-up sequence after the caller's health check, given the first
    /// weight read: a good reading is kept (a failed one only warned about), a
    /// running pump is stopped, the press count cleared, and the system
    /// made idle with no error counted.
    pub fn startup_sequence(&mut self, initial: Result<WeightReading, SensorError>, now: u64)
        requires
            runtime_fits(old(self)@.pump, now),
        ensures
            final(self)@.state == SystemState::Idle,
            final(self)@.error_count == 0,
            final(self)@.last_weight_reading == match initial {
                Ok(r) => Some(r),
                Err(_) => old(self)@.last_weight_reading,
            },
            final(self)@.pump == if old(self)@.pump.start_time is Some {
                closed_at(old(self)@.pump, now)
            } else {
                old(self)@.pump
            },
            final(self)@.button == (ButtonModel { press_count: 0, ..old(self)@.button }),
            final(self)@.start_time == old(self)@.start_time,
            final(self)@.config == old(self)@.config,
            final(self)@.weight_sensor == old(self)@.weight_sensor,
    {
        proof {
            use_type_invariant(&*self);
        }
        match initial {
            Ok(r) => {
                self.last_weight_reading = Some(r);
            },
            Err(_) => {},
        }
        self.stop_pump_now(now);
        self.clear_press_count();
        self.state = SystemState::Idle;
        self.error_count = 0;
    }

    /// The end of the shutdown sequence, after the caller stopped the pump:
    /// idle, no run, no error counted.
    pub fn finish_shutdown(&mut self)
        requires
            old(self)@.pump.start_time is None,
        ensures
            final(self)@.state == SystemState::Idle,
            final(self)@.start_time is None,
            final(self)@.error_count == 0,
            final(self)@.pump == old(self)@.pump,
            final(self)@.button == old(self)@.button,
            final(self)@.last_weight_reading == old(self)@.last_weight_reading,
            final(self)@.config == old(self)@.config,
            final(self)@.weight_sensor == old(self)@.weight_sensor,
    {
        proof {
            use_type_invariant(&*self);
        }
        self.state = SystemState::Idle;
        self.start_time = None;
        self.error_count = 0;
    }

    /// Stops the pump safely at `now` (shutdown, errors, or a stop request):
    /// `pin_settled_low` tells whether its pin, driven low, read low again
    /// within the wait.
    pub fn safe_stop_pump(&mut self, now: u64, pin_settled_low: bool) -> (r: Result<
        (),
        SystemError,
    >)
        requires
            runtime_fits(old(self)@.pump, now),
        ensures
            keeps_parts(old(self)@, final(self)@),
            final(self)@.pump == safe_stop_step(old(self)@.pump, now, pin_settled_low).0,
            final(self)@.pump.start_time is None,
            r matches Err(e) ==> e == SystemError::Pump(
                safe_stop_step(old(self)@.pump, now, pin_settled_low).1->Err_0,
            ),
            r is Ok <==> safe_stop_step(old(self)@.pump, now, pin_settled_low).1 is Ok,
            final(self)@.state == old(self)@.state,
            final(self)@.start_time == old(self)@.start_time,
            final(self)@.error_count == old(self)@.error_count,
            final(self)@.last_weight_reading == old(self)@.last_weight_reading,
    {
        proof {
            use_type_invariant(&*self);
        }
        let mut pump = PumpController::new();
        std::mem::swap(&mut pump, &mut self.pump);
        let stopped = pump.safe_stop(now, pin_settled_low);
        self.pump = pump;
        match stopped {
            Ok(()) => Ok(()),
            Err(e) => Err(SystemError::Pump(e)),
        }
    }

    /// Stops the pump at `now` without checks (the caller drives its pin low).
    pub fn emergency_stop_pump(&mut self, now: u64)
        requires
            runtime_fits(old(self)@.pump, now),
        ensures
            keeps_parts(old(self)@, final(self)@),
            final(self)@.last_weight_reading == old(self)@.last_weight_reading,
            final(self)@.pump == if old(self)@.pump.start_time is Some {
                closed_at(old(self)@.pump, now)
            } else {
                old(self)@.pump
            },
            final(self)@.state == old(self)@.state,
            final(self)@.start_time == old(self)@.start_time,
            final(self)@.error_count == old(self)@.error_count,
    {
        proof {
            use_type_invariant(&*self);
        }
        self.stop_pump_now(now);
    }

    /// Stops the pump at `now` if it runs, recording the run.
    fn stop_pump_now(&mut self, now: u64)
        requires
            runtime_fits(old(self)@.pump, now),
        ensures
            final(self)@ == (SystemView {
                pump: if old(self)@.pump.start_time is Some {
                    closed_at(old(self)@.pump, now)
                } else {
                    old(self)@.pump
                },
                ..old(self)@
            }),
    {
        proof {
            use_type_invariant(&*self);
        }
        let mut pump = PumpController::new();
        std::mem::swap(&mut pump, &mut self.pump);
        if pump.is_running() {
            pump.emergency_stop(now);
        }
        self.pump = pump;
    }

    /// Clears the button's press count.
    fn clear_press_count(&mut self)
        ensures
            final(self)@ == (SystemView {
                button: ButtonModel { press_count: 0, ..old(self)@.button },
                ..old(self)@
            }),
    {
        proof {
            use_type_invariant(&*self);
        }
        let mut button = ButtonController::new(false, 0);
        std::mem::swap(&mut button, &mut self.button);
        button.reset_press_count();
        self.button = button;
    }

    /// Empties the weight filter, keeping the sensor's calibration.
    fn clear_filter(&mut self)
        ensures
            keeps_calibration(old(self)@.weight_sensor, final(self)@.weight_sensor),
            final(self)@.weight_sensor.filter == Seq::<i32>::empty(),
            final(self)@ == (SystemView { weight_sensor: final(self)@.weight_sensor, ..old(self)@ }),
    {
        proof {
            use_type_invariant(&*self);
        }
        let mut sensor = WeightSensorController::new(0, 1);
        std::mem::swap(&mut sensor, &mut self.weight_sensor);
        sensor.reset_filter();
        self.weight_sensor = sensor;
    }

    /// The pump's run state.
    pub fn pump(&self) -> (r: &PumpController)
        ensures
            r@ == self@.pump,
    {
        &self.pump
    }

    /// The button's debounce state.
    pub fn button(&self) -> (r: &ButtonController)
        ensures
            r@ == self@.button,
    {
        &self.button
    }

    /// The weight sensor's state.
    pub fn weight_sensor(&self) -> (r: &WeightSensorController)
        ensures
            r@ == self@.weight_sensor,
    {
        &self.weight_sensor
    }

    /// Converts a raw sample taken at `timestamp` with the weight sensor, as
    /// `read_outcome` states; nothing else changes.
    pub fn try_read_weight(&mut self, raw: i32, timestamp: u64) -> (r: Result<
        WeightReading,
        SensorError,
    >)
        ensures
            read_outcome(old(self)@.weight_sensor, raw, timestamp, final(self)@.weight_sensor, r),
            final(self)@ == (SystemView { weight_sensor: final(self)@.weight_sensor, ..old(self)@ }),
    {
        proof {
            use_type_invariant(&*self);
        }
        let mut sensor = WeightSensorController::new(0, 1);
        std::mem::swap(&mut sensor, &mut self.weight_sensor);
        let r = sensor.try_read_weight(raw, timestamp);
        self.weight_sensor = sensor;
        r
    }

    /// Zero calibration from ten samples of the empty scale: refused while
    /// the system is working, otherwise as `zero_calibration` states.
    pub fn calibrate_zero(&mut self, samples: &[i32]) -> (r: Result<(), SystemError>)
        requires
            samples@.len() == CALIBRATION_SAMPLES,
        ensures
            state_active(old(self)@.state) ==> final(self)@ == old(self)@ && (r matches Err(
                SystemError::Config(m),
            ) && m@ == "Cannot calibrate while system is active"@),
            !state_active(old(self)@.state) ==> r is Ok && zero_calibration(
                old(self)@.weight_sensor,
                samples@,
                final(self)@.weight_sensor,
            ),
            final(self)@ == (SystemView { weight_sensor: final(self)@.weight_sensor, ..old(self)@ }),
    {
        proof {
            use_type_invariant(&*self);
        }
        self.check_calibration_allowed()?;
        let mut sensor = WeightSensorController::new(0, 1);
        std::mem::swap(&mut sensor, &mut self.weight_sensor);
        sensor.calibrate_zero(samples);
        self.weight_sensor = sensor;
        Ok(())
    }

    /// Calibration against `known_weight` milligrams from ten samples taken
    /// with it on the scale: refused while the system is working, otherwise
    /// as `known_weight_calibration` states, a sensor error becoming a
    /// system error.
    pub fn calibrate_with_known_weight(&mut self, known_weight: i32, samples: &[i32]) -> (r: Result<
        (),
        SystemError,
    >)
        requires
            known_weight > 0 ==> samples@.len() == CALIBRATION_SAMPLES,
        ensures
            state_active(old(self)@.state) ==> final(self)@ == old(self)@ && (r matches Err(
                SystemError::Config(m),
            ) && m@ == "Cannot calibrate while system is active"@),
            !state_active(old(self)@.state) ==> {
                let sr = known_weight_result(old(self)@.weight_sensor, known_weight, samples@);
                &&& known_weight_calibration(
                    old(self)@.weight_sensor,
                    known_weight,
                    samples@,
                    final(self)@.weight_sensor,
                    sr,
                )
                &&& r == match sr {
                    Ok(()) => Ok::<(), SystemError>(()),
                    Err(e) => Err(SystemError::Sensor(e)),
                }
            },
            final(self)@ == (SystemView { weight_sensor: final(self)@.weight_sensor, ..old(self)@ }),
    {
        proof {
            use_type_invariant(&*self);
        }
        self.check_calibration_allowed()?;
        let mut sensor = WeightSensorController::new(0, 1);
        std::mem::swap(&mut sensor, &mut self.weight_sensor);
        let sr = sensor.calibrate_with_known_weight(known_weight, samples);
        self.weight_sensor = sensor;
        match sr {
            Ok(()) => Ok(()),
            Err(e) => Err(SystemError::Sensor(e)),
        }
    }

    /// The system's health, after the caller checked the sensor: the pump's
    /// pin level `pump_pin_high` must agree with its run state.
    pub fn health_check(&self, pump_pin_high: bool) -> (r: Result<(), SystemError>)
        ensures
            r is Ok <==> ((self@.pump.start_time is Some) == pump_pin_high),
            r is Err ==> r->Err_0 is Pump,
    {
        match self.pump.health_check(pump_pin_high) {
            Ok(()) => Ok(()),
            Err(e) => Err(SystemError::Pump(e)),
        }
    }

    /// The state; whatever it is, the pump runs only if it is pumping.
    pub fn state(&self) -> (r: &SystemState)
        ensures
            *r == self@.state,
            pump_safe(self@),
    {
        proof {
            use_type_invariant(self);
        }
        &self.state
    }

    /// The last weight reading.
    pub fn last_weight_reading(&self) -> (r: Option<WeightReading>)
        ensures
            r == self@.last_weight_reading,
    {
        self.last_weight_reading
    }

    /// The settings.
    pub fn config(&self) -> (r: &SystemConfig)
        ensures
            *r == self@.config,
    {
        &self.config
    }

    /// The number of errors counted.
    pub fn error_count(&self) -> (r: u32)
        ensures
            r == self@.error_count,
    {
        self.error_count
    }

    /// Whether the button's level `pressed` at `now` is a press.
    pub fn detect_button_press(&mut self, pressed: bool, now: u64) -> (r: bool)
        requires
            level_counts_press(old(self)@.button, pressed, now) ==> old(self)@.button.press_count
                < u32::MAX,
        ensures
            (final(self)@.button, r) == press_step(old(self)@.button, pressed, now),
            final(self)@.pump == old(self)@.pump,
            final(self)@.state == old(self)@.state,
            final(self)@.error_count == old(self)@.error_count,
            final(self)@.last_weight_reading == old(self)@.last_weight_reading,
            final(self)@.start_time == old(self)@.start_time,
            final(self)@.config == old(self)@.config,
            final(self)@.weight_sensor == old(self)@.weight_sensor,
    {
        proof {
            use_type_invariant(&*self);
        }
        let mut button = ButtonController::new(false, 0);
        std::mem::swap(&mut button, &mut self.button);
        let pressed_now = button.detect_press(pressed, now);
        self.button = button;
        pressed_now
    }

    /// What a button press asks for now.
    pub fn button_action(&self) -> (r: ButtonAction)
        ensures
            r == button_action_for(self@.state),
    {
        ButtonAction::in_state(&self.state)
    }

    /// Starts dispensing at `now`: the filter is cleared and the pump
    /// started (`pin_high` is its pin read back after being driven high).  If
    /// the pump starts, the system is pumping from `now` with no error
    /// counted; otherwise the pump's error is returned and the state kept.
    pub fn start_pumping(&mut self, now: u64, pin_high: bool) -> (r: Result<(), SystemError>)
        ensures
            final(self)@.config == old(self)@.config,
            final(self)@.button == old(self)@.button,
            keeps_calibration(old(self)@.weight_sensor, final(self)@.weight_sensor),
            final(self)@.weight_sensor.filter == Seq::<i32>::empty(),
            final(self)@.weight_sensor.window
                == old(self)@.weight_sensor.window,
            final(self)@.pump == start_step(old(self)@.pump, now, pin_high).0,
            r is Ok <==> start_step(old(self)@.pump, now, pin_high).1 is Ok,
            r matches Err(e) ==> e == SystemError::Pump(
                start_step(old(self)@.pump, now, pin_high).1->Err_0,
            ),
            r is Ok ==> final(self)@.state == SystemState::Pumping && final(self)@.start_time == Some(
                now,
            ) && final(self)@.error_count == 0,
            r is Err ==> final(self)@.state == old(self)@.state,
            r is Err ==> final(self)@.start_time == old(self)@.start_time,
            r is Err ==> final(self)@.error_count == old(self)@.error_count,
            final(self)@.last_weight_reading == old(self)@.last_weight_reading,
    {
        proof {
            use_type_invariant(&*self);
        }
        self.clear_filter();
        let mut pump = PumpController::new();
        std::mem::swap(&mut pump, &mut self.pump);
        match pump.start(now, pin_high) {
            Ok(()) => {},
            Err(e) => {
                self.pump = pump;
                return Err(SystemError::Pump(e));
            },
        }
        self.state = SystemState::Pumping;
        self.start_time = Some(now);
        self.error_count = 0;
        self.pump = pump;
        Ok(())
    }

    /// Stops dispensing at `now`: the system enters the stopping state and
    /// the pump is stopped safely (`pin_settled_low` as for
    /// `safe_stop_pump`).  If that succeeds the stop is finished (idle, no
    /// run); otherwise the pump's error is returned in the stopping state.
    pub fn stop_pumping(&mut self, now: u64, pin_settled_low: bool) -> (r: Result<
        (),
        SystemError,
    >)
        requires
            runtime_fits(old(self)@.pump, now),
        ensures
            keeps_parts(old(self)@, final(self)@),
            final(self)@.pump == safe_stop_step(old(self)@.pump, now, pin_settled_low).0,
            final(self)@.pump.start_time is None,
            r is Ok <==> safe_stop_step(old(self)@.pump, now, pin_settled_low).1 is Ok,
            r is Ok ==> final(self)@.state == SystemState::Idle && final(self)@.start_time is None,
            r matches Err(e) ==> final(self)@.state == SystemState::Stopping && final(self)@.start_time
                == old(self)@.start_time && e == SystemError::Pump(
                safe_stop_step(old(self)@.pump, now, pin_settled_low).1->Err_0,
            ),
            final(self)@.error_count == old(self)@.error_count,
            final(self)@.last_weight_reading == old(self)@.last_weight_reading,
    {
        proof {
            use_type_invariant(&*self);
        }
        let mut pump = PumpController::new();
        std::mem::swap(&mut pump, &mut self.pump);
        self.state = SystemState::Stopping;
        let stopped = pump.safe_stop(now, pin_settled_low);
        self.pump = pump;
        match stopped {
            Ok(()) => {},
            Err(e) => {
                return Err(SystemError::Pump(e));
            },
        }
        self.finalize_stop();
        Ok(())
    }

    /// Finishes a stop: idle, no run.
    pub fn finalize_stop(&mut self)
        requires
            old(self)@.pump.start_time is None,
        ensures
            keeps_parts(old(self)@, final(self)@),
            final(self)@.state == SystemState::Idle,
            final(self)@.start_time is None,
            final(self)@.pump == old(self)@.pump,
            final(self)@.error_count == old(self)@.error_count,
            final(self)@.last_weight_reading == old(self)@.last_weight_reading,
    {
        proof {
            use_type_invariant(&*self);
        }
        self.state = SystemState::Idle;
        self.start_time = None;
    }

    /// Handles the outcome of a weight read.  A reading is kept; a valid one
    /// (0 to 100 g) clears the error count, an invalid one is only warned
    /// about.  A failed read is counted while fewer than three are counted,
    /// and returned as an error otherwise.
    pub fn record_weight(&mut self, reading: Result<WeightReading, SensorError>) -> (r: Result<
        (),
        SystemError,
    >)
        ensures
            keeps_parts(old(self)@, final(self)@),
            final(self)@.state == old(self)@.state,
            final(self)@.pump == old(self)@.pump,
            final(self)@.start_time == old(self)@.start_time,
            (final(self)@, r) == record_step(old(self)@, reading),
    {
        proof {
            use_type_invariant(&*self);
        }
        match reading {
            Ok(w) => {
                self.last_weight_reading = Some(w);
                if w.is_valid() {
                    self.error_count = 0;
                }
                Ok(())
            },
            Err(e) => {
                if self.error_count < MAX_ERROR_COUNT {
                    self.error_count = self.error_count + 1;
                    Ok(())
                } else {
                    Err(SystemError::Sensor(e))
                }
            },
        }
    }

    /// One step of a control cycle, from what the caller reports.  A cycle
    /// starts with the button: a press asks for the state's button action,
    /// otherwise the weight is read.  A failed button action ends the cycle
    /// with its error; a successful one goes on to the weight read.  The
    /// read's outcome is recorded (`record_step`); an error there ends the
    /// cycle, otherwise the state decides: pumping with the target reached
    /// asks for a stop at the target, a stop under way is finished, a fault
    /// ends the loop, and anything else ends the cycle to go on.  The
    /// outcome of a stop at the target ends the cycle.
    pub fn cycle_step(&mut self, event: CycleEvent) -> (r: CycleNext)
        requires
            event matches CycleEvent::Button { pressed, now } ==> (level_counts_press(
                old(self)@.button,
                pressed,
                now,
            ) ==> old(self)@.button.press_count < u32::MAX),
        ensures
            match event {
                CycleEvent::Button { pressed, now } => {
                    let (b, p) = press_step(old(self)@.button, pressed, now);
                    &&& final(self)@ == (SystemView { button: b, ..old(self)@ })
                    &&& r == if p {
                        CycleNext::ButtonAction(button_action_for(old(self)@.state))
                    } else {
                        CycleNext::ReadWeight
                    }
                },
                CycleEvent::ButtonDone(res) => {
                    &&& final(self)@ == old(self)@
                    &&& r == match res {
                        Ok(()) => CycleNext::ReadWeight,
                        Err(e) => CycleNext::Done(Err(e)),
                    }
                },
                CycleEvent::Weight(reading) => {
                    let (v, rr) = record_step(old(self)@, reading);
                    match rr {
                        Err(e) => final(self)@ == v && r == CycleNext::Done(Err(e)),
                        Ok(()) => match cycle_action_for(
                            v.state,
                            v.last_weight_reading,
                            v.config.target_weight,
                        ) {
                            CycleAction::StopAtTarget => final(self)@ == v && r
                                == CycleNext::StopAtTarget,
                            CycleAction::FinishStop => final(self)@ == (SystemView {
                                state: SystemState::Idle,
                                start_time: None,
                                ..v
                            }) && r == CycleNext::Done(Ok(true)),
                            CycleAction::Halt => final(self)@ == v && r == CycleNext::Done(
                                Ok(false),
                            ),
                            CycleAction::Continue => final(self)@ == v && r == CycleNext::Done(
                                Ok(true),
                            ),
                        },
                    }
                },
                CycleEvent::TargetStopDone(res) => {
                    &&& final(self)@ == old(self)@
                    &&& r == match res {
                        Ok(()) => CycleNext::Done(Ok(true)),
                        Err(e) => CycleNext::Done(Err(e)),
                    }
                },
            },
    {
        proof {
            use_type_invariant(&*self);
        }
        match event {
            CycleEvent::Button { pressed, now } => {
                if self.detect_button_press(pressed, now) {
                    CycleNext::ButtonAction(self.button_action())
                } else {
                    CycleNext::ReadWeight
                }
            },
            CycleEvent::ButtonDone(res) => match res {
                Ok(()) => CycleNext::ReadWeight,
                Err(e) => CycleNext::Done(Err(e)),
            },
            CycleEvent::Weight(reading) => {
                match self.record_weight(reading) {
                    Err(e) => CycleNext::Done(Err(e)),
                    Ok(()) => {
                        proof {
                            use_type_invariant(&*self);
                        }
                        match self.cycle_action() {
                            CycleAction::StopAtTarget => CycleNext::StopAtTarget,
                            CycleAction::FinishStop => {
                                self.finalize_stop();
                                CycleNext::Done(Ok(true))
                            },
                            CycleAction::Halt => CycleNext::Done(Ok(false)),
                            CycleAction::Continue => CycleNext::Done(Ok(true)),
                        }
                    },
                }
            },
            CycleEvent::TargetStopDone(res) => match res {
                Ok(()) => CycleNext::Done(Ok(true)),
                Err(e) => CycleNext::Done(Err(e)),
            },
        }
    }

    /// What the rest of the cycle does now.
    pub fn cycle_action(&self) -> (r: CycleAction)
        ensures
            r == cycle_action_for(self@.state, self@.last_weight_reading, self@.config.target_weight),
    {
        match self.state {
            SystemState::Pumping => {
                if self.target_reached() {
                    CycleAction::StopAtTarget
                } else {
                    CycleAction::Continue
                }
            },
            SystemState::Stopping => CycleAction::FinishStop,
            SystemState::Error(_) => CycleAction::Halt,
            _ => CycleAction::Continue,
        }
    }

    /// Whether the last reading shows the target reached.
    pub fn target_reached(&self) -> (r: bool)
        ensures
            r == reading_reaches_target(self@.last_weight_reading, self@.config.target_weight),
    {
        match self.last_weight_reading {
            Some(w) => w.is_stable && w.value >= self.config.target_weight,
            None => false,
        }
    }

    /// How an error is handled now.
    pub fn error_decision(&self, error: &SystemError) -> (r: ErrorDecision)
        ensures
            r == error_decision(*error, self@.error_count),
    {
        match error.level() {
            ErrorLevel::Warning => ErrorDecision::Continue,
            ErrorLevel::Error => {
                if error.is_retryable() && self.error_count < MAX_ERROR_COUNT {
                    ErrorDecision::Retry
                } else {
                    ErrorDecision::Fault
                }
            },
            ErrorLevel::Critical => ErrorDecision::Fault,
        }
    }

    /// Handles an error at `now`.  Warnings are let through; retryable
    /// errors are counted while fewer than three retries were made (the
    /// caller waits before retrying); anything else stops the pump and enters
    /// the fault state with the error's message, and is returned.
    pub fn handle_error(&mut self, error: SystemError, now: u64) -> (r: Result<
        (),
        SystemError,
    >)
        requires
            runtime_fits(old(self)@.pump, now),
        ensures
            keeps_parts(old(self)@, final(self)@),
            final(self)@.last_weight_reading == old(self)@.last_weight_reading,
            ({
                let o = old(self)@;
                let f = final(self)@;
                match error_decision(error, o.error_count) {
                    ErrorDecision::Continue => {
                        &&& r is Ok
                        &&& f.start_time == o.start_time
                        &&& f.state == o.state
                        &&& f.error_count == o.error_count
                        &&& f.pump == o.pump
                    },
                    ErrorDecision::Retry => {
                        &&& r is Ok
                        &&& f.start_time == o.start_time
                        &&& f.state == o.state
                        &&& f.error_count == o.error_count + 1
                        &&& f.pump == o.pump
                    },
                    ErrorDecision::Fault => {
                        &&& r == Err::<(), SystemError>(error)
                        &&& f.state matches SystemState::Error(m) && m@ == system_text(error)
                        &&& f.start_time is None
                        &&& f.pump == if o.pump.start_time is Some {
                            closed_at(o.pump, now)
                        } else {
                            o.pump
                        }
                        &&& f.error_count == o.error_count
                    },
                }
            }),
    {
        proof {
            use_type_invariant(&*self);
        }
        match self.error_decision(&error) {
            ErrorDecision::Continue => Ok(()),
            ErrorDecision::Retry => {
                self.error_count = self.error_count + 1;
                Ok(())
            },
            ErrorDecision::Fault => self.enter_error_state(error, now),
        }
    }

    /// Enters the fault state at `now` with the error's message: the pump is
    /// stopped (the caller drives its pin low), the run ended, and the error
    /// returned.
    pub fn enter_error_state(&mut self, error: SystemError, now: u64) -> (r:
        Result<(), SystemError>)
        requires
            runtime_fits(old(self)@.pump, now),
        ensures
            keeps_parts(old(self)@, final(self)@),
            r == Err::<(), SystemError>(error),
            final(self)@.state matches SystemState::Error(m) && m@ == system_text(error),
            final(self)@.start_time is None,
            final(self)@.pump == if old(self)@.pump.start_time is Some {
                closed_at(old(self)@.pump, now)
            } else {
                old(self)@.pump
            },
            final(self)@.error_count == old(self)@.error_count,
            final(self)@.last_weight_reading == old(self)@.last_weight_reading,
    {
        proof {
            use_type_invariant(&*self);
        }
        self.stop_pump_now(now);
        let message = error.message();
        self.state = SystemState::Error(message);
        self.start_time = None;
        Err(error)
    }

    /// Resets the system at `now` before the caller's health check: the
    /// pump is stopped, the filter and press count cleared, and the system
    /// made idle with no run, no error and no reading.
    pub fn reset_system(&mut self, now: u64)
        requires
            runtime_fits(old(self)@.pump, now),
        ensures
            final(self)@.config == old(self)@.config,
            keeps_calibration(old(self)@.weight_sensor, final(self)@.weight_sensor),
            final(self)@.state == SystemState::Idle,
            final(self)@.start_time is None,
            final(self)@.error_count == 0,
            final(self)@.last_weight_reading is None,
            final(self)@.pump == if old(self)@.pump.start_time is Some {
                closed_at(old(self)@.pump, now)
            } else {
                old(self)@.pump
            },
            final(self)@.weight_sensor.filter == Seq::<i32>::empty(),
            final(self)@.button == (ButtonModel { press_count: 0, ..old(self)@.button }),
    {
        proof {
            use_type_invariant(&*self);
        }
        self.stop_pump_now(now);
        self.clear_filter();
        self.clear_press_count();
        self.state = SystemState::Idle;
        self.start_time = None;
        self.error_count = 0;
        self.last_weight_reading = None;
    }

    /// Refuses calibration while the system is working.
    pub fn check_calibration_allowed(&self) -> (r: Result<(), SystemError>)
        ensures
            r is Ok <==> !state_active(self@.state),
            r matches Err(e) ==> e matches SystemError::Config(m) && m@
                == "Cannot calibrate while system is active"@,
    {
        if self.state.is_active() {
            return Err(
                SystemError::Config(String::from_str("Cannot calibrate while system is active")),
            );
        }
        Ok(())
    }

    /// The statistics at `now`.
    pub fn statistics(&self, now: u64) -> (r: SystemStatistics)
        requires
            runtime_fits(self@.pump, now),
        ensures
            r == (SystemStatistics {
                state: self@.state,
                error_count: self@.error_count,
                pump_runtime: (self@.pump.total_runtime + current_runtime_at(self@.pump, now))
                    as u64,
                button_press_count: self@.button.press_count,
                current_weight: match self@.last_weight_reading {
                    Some(w) => Some(w.value),
                    None => None,
                },
                target_weight: self@.config.target_weight,
                uptime: match self@.start_time {
                    Some(t) => Some(
                        if now >= t {
                            (now - t) as u64
                        } else {
                            0
                        },
                    ),
                    None => None,
                },
            }),
    {
        SystemStatistics {
            state: copy_state(&self.state),
            error_count: self.error_count,
            pump_runtime: self.pump.total_runtime(now),
            button_press_count: self.button.press_count(),
            current_weight: match self.last_weight_reading {
                Some(w) => Some(w.value),
                None => None,
            },
            target_weight: self.config.target_weight,
            uptime: match self.start_time {
                Some(t) => Some(now.saturating_sub(t)),
                None => None,
            },
        }
    }
}

/// Every critical error is a fault, never let through or retried; handling
/// a fault stops the pump (see `handle_error`).
pub proof fn lemma_critical_errors_fault(e: SystemError, error_count: u32)
    requires
        level_of(e) == ErrorLevel::Critical,
    ensures
        error_decision(e, error_count) is Fault,
{
}

/// Retries are bounded: once three retries are counted, no error is retried
/// again.
pub proof fn lemma_retries_bounded(e: SystemError, error_count: u32)
    requires
        error_count >= MAX_ERROR_COUNT,
    ensures
        !(error_decision(e, error_count) is Retry),
{
}

/// Dispensing stops at the target: while pumping, a stable reading at or
/// above the target makes the cycle stop the pump, and a stop that succeeds
/// leaves the pump stopped and the system idle.
pub proof fn lemma_stops_at_target(s: SystemState, last: Option<WeightReading>, target: i32)
    requires
        s is Pumping,
        reading_reaches_target(last, target),
    ensures
        cycle_action_for(s, last, target) == CycleAction::StopAtTarget,
{
}

/// Nothing stops the dispenser early: while pumping and short of the
/// target (or unsettled), the cycle carries on.
pub proof fn lemma_continues_below_target(s: SystemState, last: Option<WeightReading>, target: i32)
    requires
        s is Pumping,
        !reading_reaches_target(last, target),
    ensures
        cycle_action_for(s, last, target) == CycleAction::Continue,
{
}

/// The button cycles the dispenser: from idle a press starts, while pumping
/// a press stops, and a press in a fault resets.
pub proof fn lemma_button_cycle()
    ensures
        button_action_for(SystemState::Idle) == ButtonAction::StartPumping,
        button_action_for(SystemState::Pumping) == ButtonAction::StopPumping,
        forall|m: String| button_action_for(SystemState::Error(m)) == ButtonAction::Reset,
{
}

/// While pumping, the cycle stops exactly when the last reading is stable
/// and weighs at least the target: any stable reading at or above the target
/// stops the pump, and an unsettled or lighter reading, or none, lets it
/// run on.
pub proof fn lemma_target_reading_stops_pump(w: WeightReading, target: i32)
    ensures
        w.is_stable && w.value >= target ==> cycle_action_for(
            SystemState::Pumping,
            Some(w),
            target,
        ) == CycleAction::StopAtTarget,
        !w.is_stable || w.value < target ==> cycle_action_for(
            SystemState::Pumping,
            Some(w),
            target,
        ) == CycleAction::Continue,
        cycle_action_for(SystemState::Pumping, None, target) == CycleAction::Continue,
{
}

/// Only warnings are let through: an error that is not a warning is
/// retried (when retryable, with fewer than three retries counted) or is a
/// fault; in particular a plain error that cannot be retried is always a
/// fault.
pub proof fn lemma_only_warnings_continue(e: SystemError, error_count: u32)
    ensures
        error_decision(e, error_count) is Continue <==> level_of(e) == ErrorLevel::Warning,
        error_decision(e, error_count) is Retry <==> (level_of(e) == ErrorLevel::Error
            && retryable(e) && error_count < MAX_ERROR_COUNT),
        level_of(e) == ErrorLevel::Error && !retryable(e) ==> error_decision(e, error_count)
            is Fault,
        level_of(e) != ErrorLevel::Warning && !(retryable(e) && error_count < MAX_ERROR_COUNT)
            ==> error_decision(e, error_count) is Fault,
{
}

} // verus!
