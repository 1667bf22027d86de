use crate::text::{milli_string, milli_text, signed_string, signed_text};
use vstd::prelude::*;
use vstd::string::*;

verus! {

/// Errors of the weight sensor.
///
/// Weights are in milligrams.
#[derive(Debug, Clone, PartialEq, Eq)]
pub enum SensorError {
    ReadFailure,
    Timeout,
    InvalidReading(i64),
    CalibrationFailed,
    OutOfRange { value: i64, max: i64 },
    Gpio(String),
}

/// Errors of the pump.
#[derive(Debug, Clone, PartialEq, Eq)]
pub enum PumpError {
    StartFailure,
    StopFailure,
    AlreadyRunning,
    NotRunning,
    Gpio(String),
}

/// Errors of the PWM motor.
///
/// Speeds are in thousandths of full duty, frequencies in millihertz.
#[derive(Debug, Clone, PartialEq, Eq)]
pub enum MotorError {
    RelayControl(String),
    UnsafeState,
    StartFailure,
    StopFailure,
    AlreadyRunning,
    NotRunning,
    Gpio(String),
    InvalidSpeed(i64),
    PwmControl(String),
    FrequencyOutOfRange(i64),
}

/// Errors of the start/stop button.
#[derive(Debug, Clone, PartialEq, Eq)]
pub enum ButtonError {
    ReadFailure,
    DebounceTimeout,
    Gpio(String),
}

/// Errors of the whole system.
#[derive(Debug, Clone, PartialEq, Eq)]
pub enum SystemError {
    Sensor(SensorError),
    Pump(PumpError),
    Motor(MotorError),
    Button(ButtonError),
    Gpio(String),
    Config(String),
    RelaySafety(String),
    Sequence(String),
}

/// How serious an error is.
#[derive(Debug, Clone, Copy, PartialEq, Eq, Structural)]
pub enum ErrorLevel {
    Warning,
    Error,
    Critical,
}

/// The severity of each error.
pub open spec fn level_of(e: SystemError) -> ErrorLevel {
    match e {
        SystemError::Sensor(SensorError::OutOfRange { .. }) => ErrorLevel::Warning,
        SystemError::Sensor(SensorError::InvalidReading(_)) => ErrorLevel::Warning,
        SystemError::Sensor(_) => ErrorLevel::Error,
        SystemError::Pump(_) => ErrorLevel::Critical,
        SystemError::Motor(MotorError::UnsafeState) => ErrorLevel::Critical,
        SystemError::Motor(_) => ErrorLevel::Error,
        SystemError::Button(_) => ErrorLevel::Warning,
        SystemError::Gpio(_) => ErrorLevel::Critical,
        SystemError::Config(_) => ErrorLevel::Error,
        SystemError::RelaySafety(_) => ErrorLevel::Critical,
        SystemError::Sequence(_) => ErrorLevel::Error,
    }
}

/// The errors that may go away when the operation is tried again:
/// sensor read failures and timeouts, motor start and stop failures,
/// and button read failures.
pub open spec fn retryable(e: SystemError) -> bool {
    match e {
        SystemError::Sensor(SensorError::ReadFailure) => true,
        SystemError::Sensor(SensorError::Timeout) => true,
        SystemError::Motor(MotorError::StartFailure) => true,
        SystemError::Motor(MotorError::StopFailure) => true,
        SystemError::Button(ButtonError::ReadFailure) => true,
        _ => false,
    }
}

impl SystemError {
    /// The severity of this error.
    pub fn level(&self) -> (r: ErrorLevel)
        ensures
            r == level_of(*self),
    {
        match self {
            SystemError::Sensor(SensorError::OutOfRange { .. }) => ErrorLevel::Warning,
            SystemError::Sensor(SensorError::InvalidReading(_)) => ErrorLevel::Warning,
            SystemError::Sensor(_) => ErrorLevel::Error,
            SystemError::Pump(_) => ErrorLevel::Critical,
            SystemError::Motor(MotorError::UnsafeState) => ErrorLevel::Critical,
            SystemError::Motor(_) => ErrorLevel::Error,
            SystemError::Button(_) => ErrorLevel::Warning,
            SystemError::Gpio(_) => ErrorLevel::Critical,
            SystemError::Config(_) => ErrorLevel::Error,
            SystemError::RelaySafety(_) => ErrorLevel::Critical,
            SystemError::Sequence(_) => ErrorLevel::Error,
        }
    }

    /// Whether trying the operation again may succeed.
    pub fn is_retryable(&self) -> (r: bool)
        ensures
            r == retryable(*self),
    {
        match self {
            SystemError::Sensor(SensorError::ReadFailure) => true,
            SystemError::Sensor(SensorError::Timeout) => true,
            SystemError::Motor(MotorError::StartFailure) => true,
            SystemError::Motor(MotorError::StopFailure) => true,
            SystemError::Button(ButtonError::ReadFailure) => true,
            _ => false,
        }
    }
}

/// A retryable error is never critical: whatever can be tried again is at
/// most an `Error`, so a caller that retries never retries through a
/// critical fault.
pub proof fn lemma_retryable_is_not_critical(e: SystemError)
    requires
        retryable(e),
    ensures
        level_of(e) != ErrorLevel::Critical,
{
}

impl From<SensorError> for SystemError {
    fn from(e: SensorError) -> (r: SystemError) {
        SystemError::Sensor(e)
    }
}

impl vstd::std_specs::convert::FromSpecImpl<SensorError> for SystemError {
    open spec fn obeys_from_spec() -> bool {
        true
    }

    open spec fn from_spec(e: SensorError) -> SystemError {
        SystemError::Sensor(e)
    }
}

impl From<PumpError> for SystemError {
    fn from(e: PumpError) -> (r: SystemError) {
        SystemError::Pump(e)
    }
}

impl vstd::std_specs::convert::FromSpecImpl<PumpError> for SystemError {
    open spec fn obeys_from_spec() -> bool {
        true
    }

    open spec fn from_spec(e: PumpError) -> SystemError {
        SystemError::Pump(e)
    }
}

impl From<MotorError> for SystemError {
    fn from(e: MotorError) -> (r: SystemError) {
        SystemError::Motor(e)
    }
}

impl vstd::std_specs::convert::FromSpecImpl<MotorError> for SystemError {
    open spec fn obeys_from_spec() -> bool {
        true
    }

    open spec fn from_spec(e: MotorError) -> SystemError {
        SystemError::Motor(e)
    }
}

impl From<ButtonError> for SystemError {
    fn from(e: ButtonError) -> (r: SystemError) {
        SystemError::Button(e)
    }
}

impl vstd::std_specs::convert::FromSpecImpl<ButtonError> for SystemError {
    open spec fn obeys_from_spec() -> bool {
        true
    }

    open spec fn from_spec(e: ButtonError) -> SystemError {
        SystemError::Button(e)
    }
}

/// The message of a sensor error.  Weights are shown in grams.
pub open spec fn sensor_text(e: SensorError) -> Seq<char> {
    match e {
        SensorError::ReadFailure => "Failed to read sensor data"@,
        SensorError::Timeout => "Sensor communication timeout"@,
        SensorError::InvalidReading(v) => "Invalid sensor reading: "@ + signed_text(v as int),
        SensorError::CalibrationFailed => "Sensor calibration failed"@,
        SensorError::OutOfRange { value, max } => "Sensor out of range: "@ + milli_text(value as int)
            + "g (max: "@ + milli_text(max as int) + "g)"@,
        SensorError::Gpio(m) => "GPIO error: "@ + m@,
    }
}

/// The message of a pump error.
pub open spec fn pump_text(e: PumpError) -> Seq<char> {
    match e {
        PumpError::StartFailure => "Failed to start pump"@,
        PumpError::StopFailure => "Failed to stop pump"@,
        PumpError::AlreadyRunning => "Pump is already running"@,
        PumpError::NotRunning => "Pump is not running"@,
        PumpError::Gpio(m) => "GPIO error: "@ + m@,
    }
}

/// The message of a motor error.  Speeds are shown as ratios of full duty,
/// frequencies in hertz.
pub open spec fn motor_text(e: MotorError) -> Seq<char> {
    match e {
        MotorError::RelayControl(m) => "Relay control error: "@ + m@,
        MotorError::UnsafeState => "Unsafe relay state: both relays active"@,
        MotorError::StartFailure => "Motor start failure"@,
        MotorError::StopFailure => "Motor stop failure"@,
        MotorError::AlreadyRunning => "Motor is already running"@,
        MotorError::NotRunning => "Motor is not running"@,
        MotorError::Gpio(m) => "GPIO error: "@ + m@,
        MotorError::InvalidSpeed(v) => "Invalid motor speed: "@ + milli_text(v as int),
        MotorError::PwmControl(m) => "PWM control error: "@ + m@,
        MotorError::FrequencyOutOfRange(f) => "PWM frequency out of range: "@ + milli_text(f as int)
            + "Hz"@,
    }
}

/// The message of a button error.
pub open spec fn button_text(e: ButtonError) -> Seq<char> {
    match e {
        ButtonError::ReadFailure => "Failed to read button state"@,
        ButtonError::DebounceTimeout => "Button debounce timeout"@,
        ButtonError::Gpio(m) => "GPIO error: "@ + m@,
    }
}

/// The message of a system error.
pub open spec fn system_text(e: SystemError) -> Seq<char> {
    match e {
        SystemError::Sensor(s) => "Sensor error: "@ + sensor_text(s),
        SystemError::Pump(p) => "Pump error: "@ + pump_text(p),
        SystemError::Motor(m) => "Motor error: "@ + motor_text(m),
        SystemError::Button(b) => "Button error: "@ + button_text(b),
        SystemError::Gpio(m) => "GPIO error: "@ + m@,
        SystemError::Config(m) => "Configuration error: "@ + m@,
        SystemError::RelaySafety(m) => "Relay safety error: "@ + m@,
        SystemError::Sequence(m) => "Sequence error: "@ + m@,
    }
}

fn text(s: &str) -> (r: String)
    ensures
        r@ == s@,
{
    String::from_str(s)
}

fn text2(a: &str, b: &str) -> (r: String)
    ensures
        r@ == a@ + b@,
{
    String::from_str(a).concat(b)
}

impl SensorError {
    /// The error's message.
    pub fn message(&self) -> (r: String)
        ensures
            r@ == sensor_text(*self),
    {
        match self {
            SensorError::ReadFailure => text("Failed to read sensor data"),
            SensorError::Timeout => text("Sensor communication timeout"),
            SensorError::InvalidReading(v) => {
                let t = signed_string(*v);
                text2("Invalid sensor reading: ", t.as_str())
            },
            SensorError::CalibrationFailed => text("Sensor calibration failed"),
            SensorError::OutOfRange { value, max } => {
                let v = milli_string(*value);
                let m = milli_string(*max);
                let r = text2("Sensor out of range: ", v.as_str());
                let r = r.concat("g (max: ");
                let r = r.concat(m.as_str());
                r.concat("g)")
            },
            SensorError::Gpio(m) => text2("GPIO error: ", m.as_str()),
        }
    }
}

impl PumpError {
    /// The error's message.
    pub fn message(&self) -> (r: String)
        ensures
            r@ == pump_text(*self),
    {
        match self {
            PumpError::StartFailure => text("Failed to start pump"),
            PumpError::StopFailure => text("Failed to stop pump"),
            PumpError::AlreadyRunning => text("Pump is already running"),
            PumpError::NotRunning => text("Pump is not running"),
            PumpError::Gpio(m) => text2("GPIO error: ", m.as_str()),
        }
    }
}

impl MotorError {
    /// The error's message.
    pub fn message(&self) -> (r: String)
        ensures
            r@ == motor_text(*self),
    {
        match self {
            MotorError::RelayControl(m) => text2("Relay control error: ", m.as_str()),
            MotorError::UnsafeState => text("Unsafe relay state: both relays active"),
            MotorError::StartFailure => text("Motor start failure"),
            MotorError::StopFailure => text("Motor stop failure"),
            MotorError::AlreadyRunning => text("Motor is already running"),
            MotorError::NotRunning => text("Motor is not running"),
            MotorError::Gpio(m) => text2("GPIO error: ", m.as_str()),
            MotorError::InvalidSpeed(v) => {
                let t = milli_string(*v);
                text2("Invalid motor speed: ", t.as_str())
            },
            MotorError::PwmControl(m) => text2("PWM control error: ", m.as_str()),
            MotorError::FrequencyOutOfRange(f) => {
                let t = milli_string(*f);
                text2("PWM frequency out of range: ", t.as_str()).concat("Hz")
            },
        }
    }
}

impl ButtonError {
    /// The error's message.
    pub fn message(&self) -> (r: String)
        ensures
            r@ == button_text(*self),
    {
        match self {
            ButtonError::ReadFailure => text("Failed to read button state"),
            ButtonError::DebounceTimeout => text("Button debounce timeout"),
            ButtonError::Gpio(m) => text2("GPIO error: ", m.as_str()),
        }
    }
}

impl SystemError {
    /// The error's message.
    pub fn message(&self) -> (r: String)
        ensures
            r@ == system_text(*self),
    {
        match self {
            SystemError::Sensor(e) => {
                let t = e.message();
                text2("Sensor error: ", t.as_str())
            },
            SystemError::Pump(e) => {
                let t = e.message();
                text2("Pump error: ", t.as_str())
            },
            SystemError::Motor(e) => {
                let t = e.message();
                text2("Motor error: ", t.as_str())
            },
            SystemError::Button(e) => {
                let t = e.message();
                text2("Button error: ", t.as_str())
            },
            SystemError::Gpio(m) => text2("GPIO error: ", m.as_str()),
            SystemError::Config(m) => text2("Configuration error: ", m.as_str()),
            SystemError::RelaySafety(m) => text2("Relay safety error: ", m.as_str()),
            SystemError::Sequence(m) => text2("Sequence error: ", m.as_str()),
        }
    }
}

} // verus!
