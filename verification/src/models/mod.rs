use crate::text::{milli_string, milli_text};
use vstd::prelude::*;
use vstd::string::*;

pub mod config;
pub mod moving_average;

pub use moving_average::MovingAverage;

verus! {

/// The state of the PWM motor.  Speeds are thousandths of full duty.
#[derive(Debug, Clone, Copy, PartialEq, Eq, Structural)]
pub enum MotorState {
    /// Both PWM outputs at 0%.
    Stopped,
    /// Turning forward at the given speed.
    Forward(i32),
    /// Turning in reverse at the given speed.
    Reverse(i32),
}

/// The speed a motor state runs at (0 when stopped).
pub open spec fn motor_speed(s: MotorState) -> i32 {
    match s {
        MotorState::Stopped => 0,
        MotorState::Forward(v) => v,
        MotorState::Reverse(v) => v,
    }
}

impl MotorState {
    /// The name of the state.
    pub fn as_str(&self) -> (r: &'static str)
        ensures
            r@ == match *self {
                MotorState::Stopped => "Stopped"@,
                MotorState::Forward(_) => "Forward"@,
                MotorState::Reverse(_) => "Reverse"@,
            },
    {
        match self {
            MotorState::Stopped => "Stopped",
            MotorState::Forward(_) => "Forward",
            MotorState::Reverse(_) => "Reverse",
        }
    }

    /// Whether the motor turns in either direction.
    pub fn is_running(&self) -> (r: bool)
        ensures
            r == !(*self is Stopped),
    {
        match self {
            MotorState::Stopped => false,
            _ => true,
        }
    }

    /// The current speed, in thousandths of full duty.
    pub fn speed(&self) -> (r: i32)
        ensures
            r == motor_speed(*self),
    {
        match self {
            MotorState::Stopped => 0,
            MotorState::Forward(v) => *v,
            MotorState::Reverse(v) => *v,
        }
    }
}

/// The heaviest valid reading, in milligrams.
pub const MAX_VALID_WEIGHT: i32 = 100_000;

/// A weight measurement.
#[derive(Debug, Clone, Copy, PartialEq, Eq, Structural)]
pub struct WeightReading {
    /// The weight in milligrams.
    pub value: i32,
    /// When it was measured, in milliseconds of the caller's clock.
    pub timestamp: u64,
    /// Whether the filtered signal had settled.
    pub is_stable: bool,
}

/// `v` milligrams rounded to the nearest whole gram, halves away from zero,
/// in milligrams.
pub open spec fn round_to_gram(v: int) -> int {
    if v >= 0 {
        ((v + 500) / 1000) * 1000
    } else {
        -((((-v) + 500) / 1000) * 1000)
    }
}

impl WeightReading {
    /// A reading of `value` milligrams taken at `timestamp`.
    pub fn new(value: i32, is_stable: bool, timestamp: u64) -> (r: Self)
        ensures
            r == (WeightReading { value, timestamp, is_stable }),
    {
        WeightReading { value, timestamp, is_stable }
    }

    /// Whether the value is within the scale's range, 0 to 100 g.
    pub fn is_valid(&self) -> (r: bool)
        ensures
            r == (0 <= self.value <= MAX_VALID_WEIGHT),
    {
        self.value >= 0 && self.value <= MAX_VALID_WEIGHT
    }

    /// The value rounded to whole grams (in milligrams).
    pub fn rounded_value(&self) -> (r: i64)
        ensures
            r == round_to_gram(self.value as int),
    {
        let v = self.value as i64;
        if v >= 0 {
            ((v + 500) / 1000) * 1000
        } else {
            -((((-v) + 500) / 1000) * 1000)
        }
    }
}

/// The settings of the system.
///
/// Weights are in milligrams, durations in milliseconds, the PWM frequency in
/// millihertz, speeds in thousandths of full duty and the calibration factor
/// in thousandths of a raw count per gram.
#[derive(Debug, Clone, PartialEq, Eq, Structural)]
pub struct SystemConfig {
    /// The weight to dispense.
    pub target_weight: i32,
    /// GPIO of the HX711 data line.
    pub dt_pin: u8,
    /// GPIO of the HX711 clock line.
    pub sck_pin: u8,
    /// GPIO of the pump's control line.
    pub pump_pin: u8,
    /// GPIO of the motor's forward PWM output.
    pub pwm_forward_pin: u8,
    /// GPIO of the motor's reverse PWM output.
    pub pwm_reverse_pin: u8,
    /// GPIO of the start/stop button.
    pub button_pin: u8,
    /// The load cell's calibration factor.
    pub calibration_factor: i64,
    /// Samples in the moving-average filter.
    pub moving_average_window: usize,
    /// How long the weight is left to settle.
    pub stabilization_duration: u64,
    /// How long the motor runs in reverse.
    pub reverse_duration: u64,
    /// How far readings may stray while the weight counts as settled.
    pub weight_tolerance: i32,
    /// The PWM frequency (at most 5 kHz).
    pub pwm_frequency: i64,
    /// The forward speed, between 0 and full duty.
    pub forward_speed: i32,
    /// The reverse speed, between 0 and full duty.
    pub reverse_speed: i32,
}

/// The default settings: 50 g target; HX711 on GPIO 5 (DT) and 6 (SCK);
/// pump on 18; PWM forward on 18 and reverse on 19; button on 2;
/// calibration factor 1.0; a 5-sample filter; 3 s stabilisation and reverse;
/// 0.5 g tolerance; 1 kHz PWM; 80% forward and 60% reverse speed.
pub open spec fn default_config() -> SystemConfig {
    SystemConfig {
        target_weight: 50_000,
        dt_pin: 5,
        sck_pin: 6,
        pump_pin: 18,
        pwm_forward_pin: 18,
        pwm_reverse_pin: 19,
        button_pin: 2,
        calibration_factor: 1000,
        moving_average_window: 5,
        stabilization_duration: 3000,
        reverse_duration: 3000,
        weight_tolerance: 500,
        pwm_frequency: 1_000_000,
        forward_speed: 800,
        reverse_speed: 600,
    }
}

/// The GPIO pins that must all differ: DT, SCK, PWM forward, PWM reverse and
/// the button.
pub open spec fn distinct_pins(c: SystemConfig) -> Seq<u8> {
    seq![c.dt_pin, c.sck_pin, c.pwm_forward_pin, c.pwm_reverse_pin, c.button_pin]
}

/// What checking a configuration gives: the first violated rule's message,
/// or `Ok`.
pub open spec fn config_check(c: SystemConfig) -> Result<(), Seq<char>> {
    if c.target_weight <= 0 || c.target_weight > MAX_VALID_WEIGHT {
        Err("Invalid target weight: "@ + milli_text(c.target_weight as int) + "g"@)
    } else if c.moving_average_window == 0 {
        Err("Moving average window must be greater than 0"@)
    } else if !distinct_pins(c).no_duplicates() {
        Err("GPIO pin numbers must be unique"@)
    } else if c.pwm_frequency < 1000 || c.pwm_frequency > 5_000_000 {
        Err("PWM frequency must be between 1Hz and 5kHz, got: "@ + milli_text(c.pwm_frequency as int)
            + "Hz"@)
    } else if c.forward_speed < 0 || c.forward_speed > 1000 {
        Err("Forward speed must be between 0.0 and 1.0, got: "@ + milli_text(
            c.forward_speed as int,
        ))
    } else if c.reverse_speed < 0 || c.reverse_speed > 1000 {
        Err("Reverse speed must be between 0.0 and 1.0, got: "@ + milli_text(
            c.reverse_speed as int,
        ))
    } else {
        Ok(())
    }
}

/// Whether a configuration passes every check.
pub open spec fn config_valid(c: SystemConfig) -> bool {
    config_check(c) is Ok
}

/// Joins two pieces of text.
fn join2(a: &str, b: &str) -> (s: String)
    ensures
        s@ == a@ + b@,
{
    let s = String::from_str(a);
    s.concat(b)
}

/// Joins three pieces of text.
fn join3(a: &str, b: &str, c: &str) -> (s: String)
    ensures
        s@ == a@ + b@ + c@,
{
    let s = String::from_str(a);
    let s = s.concat(b);
    s.concat(c)
}

fn pins_are_distinct(c: &SystemConfig) -> (r: bool)
    ensures
        r == distinct_pins(*c).no_duplicates(),
{
    let ghost p = distinct_pins(*c);
    let r = c.dt_pin != c.sck_pin && c.dt_pin != c.pwm_forward_pin && c.dt_pin != c.pwm_reverse_pin
        && c.dt_pin != c.button_pin && c.sck_pin != c.pwm_forward_pin && c.sck_pin
        != c.pwm_reverse_pin && c.sck_pin != c.button_pin && c.pwm_forward_pin
        != c.pwm_reverse_pin && c.pwm_forward_pin != c.button_pin && c.pwm_reverse_pin
        != c.button_pin;
    proof {
        assert(p[0] == c.dt_pin && p[1] == c.sck_pin && p[2] == c.pwm_forward_pin && p[3]
            == c.pwm_reverse_pin && p[4] == c.button_pin);
        if !r {
            if c.dt_pin == c.sck_pin {
                assert(p[0] == p[1]);
            } else if c.dt_pin == c.pwm_forward_pin {
                assert(p[0] == p[2]);
            } else if c.dt_pin == c.pwm_reverse_pin {
                assert(p[0] == p[3]);
            } else if c.dt_pin == c.button_pin {
                assert(p[0] == p[4]);
            } else if c.sck_pin == c.pwm_forward_pin {
                assert(p[1] == p[2]);
            } else if c.sck_pin == c.pwm_reverse_pin {
                assert(p[1] == p[3]);
            } else if c.sck_pin == c.button_pin {
                assert(p[1] == p[4]);
            } else if c.pwm_forward_pin == c.pwm_reverse_pin {
                assert(p[2] == p[3]);
            } else if c.pwm_forward_pin == c.button_pin {
                assert(p[2] == p[4]);
            } else {
                assert(p[3] == p[4]);
            }
        } else {
            assert forall|i: int, j: int| 0 <= i < p.len() && 0 <= j < p.len() && i != j implies p[i]
                != p[j] by {
                assert(p.len() == 5);
            }
        }
    }
    r
}

impl SystemConfig {
    /// The library's compiled settings: the defaults.  A program that fixes
    /// settings when it is built lays them over these with
    /// `apply_overrides`.
    pub fn from_compiled() -> (r: Self)
        ensures
            r == default_config(),
    {
        Self::default()
    }

    /// Checks the settings: the target weight is above 0 g and at most
    /// 100 g, the filter window is not empty, the DT, SCK, PWM and button
    /// pins all differ, the PWM frequency is between 1 Hz and 5 kHz, and both
    /// speeds are between 0 and 1.  The error is the message of the first
    /// rule broken, in that order.
    pub fn validate(&self) -> (r: Result<(), String>)
        ensures
            match r {
                Ok(()) => config_check(*self) is Ok,
                Err(m) => config_check(*self) == Err::<(), Seq<char>>(m@),
            },
    {
        if self.target_weight <= 0 || self.target_weight > MAX_VALID_WEIGHT {
            let w = milli_string(self.target_weight as i64);
            return Err(join3("Invalid target weight: ", w.as_str(), "g"));
        }
        if self.moving_average_window == 0 {
            return Err(String::from_str("Moving average window must be greater than 0"));
        }
        if !pins_are_distinct(self) {
            return Err(String::from_str("GPIO pin numbers must be unique"));
        }
        if self.pwm_frequency < 1000 || self.pwm_frequency > 5_000_000 {
            let f = milli_string(self.pwm_frequency);
            return Err(
                join3("PWM frequency must be between 1Hz and 5kHz, got: ", f.as_str(), "Hz"),
            );
        }
        if self.forward_speed < 0 || self.forward_speed > 1000 {
            let v = milli_string(self.forward_speed as i64);
            return Err(join2("Forward speed must be between 0.0 and 1.0, got: ", v.as_str()));
        }
        if self.reverse_speed < 0 || self.reverse_speed > 1000 {
            let v = milli_string(self.reverse_speed as i64);
            return Err(join2("Reverse speed must be between 0.0 and 1.0, got: ", v.as_str()));
        }
        Ok(())
    }
}

impl Default for SystemConfig {
    fn default() -> (r: Self)
        ensures
            r == default_config(),
    {
        SystemConfig {
            target_weight: 50_000,
            dt_pin: 5,
            sck_pin: 6,
            pump_pin: 18,
            pwm_forward_pin: 18,
            pwm_reverse_pin: 19,
            button_pin: 2,
            calibration_factor: 1000,
            moving_average_window: 5,
            stabilization_duration: 3000,
            reverse_duration: 3000,
            weight_tolerance: 500,
            pwm_frequency: 1_000_000,
            forward_speed: 800,
            reverse_speed: 600,
        }
    }
}

/// The states of the dispensing sequence.
#[derive(Debug, Clone, PartialEq, Eq)]
pub enum SystemState {
    /// Waiting for the button.
    Idle,
    /// Taking measurements before dispensing.
    Measuring,
    /// The pump is dispensing.
    Pumping,
    /// Waiting for the weight to settle.
    WeightStabilizing,
    /// The motor turns forward.
    Forward,
    /// The target weight was reached; forward rotation stopped.
    TargetReached,
    /// The motor turns in reverse.
    Reverse,
    /// The sequence finished.
    Completed,
    /// Stopping.
    Stopping,
    /// A fault, with its message.
    Error(String),
}

/// The states in which the machine is working: measuring, pumping,
/// stabilising, turning either way, at the target, or stopping.
pub open spec fn state_active(s: SystemState) -> bool {
    match s {
        SystemState::Measuring | SystemState::Pumping | SystemState::WeightStabilizing
        | SystemState::Forward | SystemState::TargetReached | SystemState::Reverse
        | SystemState::Stopping => true,
        _ => false,
    }
}

/// The name of each state.
pub open spec fn state_name(s: SystemState) -> Seq<char> {
    match s {
        SystemState::Idle => "Idle"@,
        SystemState::Measuring => "Measuring"@,
        SystemState::Pumping => "Pumping"@,
        SystemState::WeightStabilizing => "WeightStabilizing"@,
        SystemState::Forward => "Forward"@,
        SystemState::TargetReached => "TargetReached"@,
        SystemState::Reverse => "Reverse"@,
        SystemState::Completed => "Completed"@,
        SystemState::Stopping => "Stopping"@,
        SystemState::Error(_) => "Error"@,
    }
}

impl SystemState {
    /// Whether the machine is working.
    pub fn is_active(&self) -> (r: bool)
        ensures
            r == state_active(*self),
    {
        match self {
            SystemState::Measuring | SystemState::Pumping | SystemState::WeightStabilizing
            | SystemState::Forward | SystemState::TargetReached | SystemState::Reverse
            | SystemState::Stopping => true,
            _ => false,
        }
    }

    /// Whether the state is a fault.
    pub fn is_error(&self) -> (r: bool)
        ensures
            r == (*self is Error),
    {
        match self {
            SystemState::Error(_) => true,
            _ => false,
        }
    }

    /// The name of the state.
    pub fn as_str(&self) -> (r: &'static str)
        ensures
            r@ == state_name(*self),
    {
        match self {
            SystemState::Idle => "Idle",
            SystemState::Measuring => "Measuring",
            SystemState::Pumping => "Pumping",
            SystemState::WeightStabilizing => "WeightStabilizing",
            SystemState::Forward => "Forward",
            SystemState::TargetReached => "TargetReached",
            SystemState::Reverse => "Reverse",
            SystemState::Completed => "Completed",
            SystemState::Stopping => "Stopping",
            SystemState::Error(_) => "Error",
        }
    }
}

/// A working state is never a fault: `is_active` and `is_error` never both
/// hold.
pub proof fn lemma_active_is_not_error(s: SystemState)
    ensures
        !(state_active(s) && s is Error),
{
}

} // verus!
