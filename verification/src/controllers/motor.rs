//! The two-channel PWM motor: direction, speed, frequency, the checks made
//! on the duty cycles read back, and run-time accounting.  The caller drives
//! the PWM outputs and reports the duty cycles it reads back.
//!
//! Speeds and duty cycles are thousandths of full duty; a duty cycle above
//! 10 (1%) counts as active.  Frequencies are in millihertz, times in
//! milliseconds of the caller's monotonic clock.
use crate::errors::MotorError;
use crate::models::{motor_speed, MotorState};
use crate::text::{decimal_digits, int_string};
use vstd::prelude::*;
use vstd::string::*;

verus! {

/// Lowest PWM frequency, 1 Hz, in millihertz.
pub const MIN_PWM_FREQUENCY: i64 = 1000;

/// Highest PWM frequency, 5 kHz, in millihertz.
pub const MAX_PWM_FREQUENCY: i64 = 5_000_000;

/// Duty cycle (thousandths) above which an output counts as active.
pub const ACTIVE_DUTY: i32 = 10;

/// Largest difference (thousandths) between the speed the controller holds
/// and the duty cycle read back that a health check accepts.
pub const SPEED_TOLERANCE: i32 = 100;

/// The hardware PWM channels.
#[derive(Debug, Clone, Copy, PartialEq, Eq, Structural)]
pub enum PwmChannel {
    Pwm0,
    Pwm1,
}

/// The direction a speed change or start applies to.
#[derive(Debug, Clone, Copy, PartialEq, Eq, Structural)]
pub enum Direction {
    Forward,
    Reverse,
}

/// The PWM channel a GPIO pin drives: GPIO 18 is PWM0, GPIO 19 is PWM1;
/// other pins have none.
pub open spec fn pin_channel(pin: u8) -> Option<PwmChannel> {
    if pin == 18 {
        Some(PwmChannel::Pwm0)
    } else if pin == 19 {
        Some(PwmChannel::Pwm1)
    } else {
        None
    }
}

/// The message for a pin without PWM.
pub open spec fn no_pwm_message(pin: u8) -> Seq<char> {
    "GPIO "@ + decimal_digits(pin as nat) + " does not support PWM"@
}

/// Whether a speed is between 0 and full.
pub open spec fn speed_valid(speed: i32) -> bool {
    0 <= speed <= 1000
}

/// Whether a frequency is between 1 Hz and 5 kHz.
pub open spec fn frequency_valid(f: i64) -> bool {
    MIN_PWM_FREQUENCY <= f <= MAX_PWM_FREQUENCY
}

/// Whether `r` is a GPIO error with message `msg`.
pub open spec fn gpio_error<T>(r: Result<T, MotorError>, msg: Seq<char>) -> bool {
    r matches Err(MotorError::Gpio(m)) && m@ == msg
}

/// Whether both duty cycles were read and neither output is active.
pub open spec fn both_inactive(forward: Option<i32>, reverse: Option<i32>) -> bool {
    match (forward, reverse) {
        (Some(f), Some(r)) => f <= ACTIVE_DUTY && r <= ACTIVE_DUTY,
        _ => false,
    }
}

/// The abstract state of the motor.
pub struct MotorModel {
    pub state: MotorState,
    /// When the current run started; present exactly while turning.
    pub start_time: Option<u64>,
    /// Run time of the finished runs, in milliseconds.
    pub total_runtime: u64,
    pub pwm_frequency: i64,
    pub forward_channel: PwmChannel,
    pub reverse_channel: PwmChannel,
}

/// Whether a motor model is consistent: a run start is recorded exactly
/// while the motor turns.
pub open spec fn model_wf(m: MotorModel) -> bool {
    (m.state is Stopped) == (m.start_time is None)
}

/// Milliseconds from `start` to `now`, or 0 when `now` is earlier.
pub open spec fn elapsed(start: u64, now: u64) -> u64 {
    if now >= start {
        (now - start) as u64
    } else {
        0
    }
}

/// The run time of the current run at `now` (0 when stopped).
pub open spec fn current_runtime_at(m: MotorModel, now: u64) -> u64 {
    match m.start_time {
        Some(t) => elapsed(t, now),
        None => 0,
    }
}

/// Whether closing the current run at `now` can add its time to the total
/// without overflow.
pub open spec fn runtime_fits(m: MotorModel, now: u64) -> bool {
    m.total_runtime + current_runtime_at(m, now) <= u64::MAX
}

/// The motor after it is stopped at `now`: stopped, with the run's time added.
pub open spec fn stopped_at(m: MotorModel, now: u64) -> MotorModel {
    MotorModel {
        state: MotorState::Stopped,
        start_time: None,
        total_runtime: (m.total_runtime + current_runtime_at(m, now)) as u64,
        ..m
    }
}

/// Preparing a start at `speed` at `now`: an invalid speed is refused with
/// nothing changed; a motor that is not stopped is stopped first.
pub open spec fn begin_start_step(m: MotorModel, speed: i32, now: u64) -> (
    MotorModel,
    Result<(), MotorError>,
) {
    if !speed_valid(speed) {
        (m, Err(MotorError::InvalidSpeed(speed as i64)))
    } else if !(m.state is Stopped) {
        (stopped_at(m, now), Ok(()))
    } else {
        (m, Ok(()))
    }
}

/// Whether the duty cycles read back after a start in direction `dir` at
/// `speed` show it took effect: the driven output is at least 90% of the
/// speed (when the speed is above 0) and the other output is not active.
pub open spec fn start_took_effect(dir: Direction, speed: i32, forward: i32, reverse: i32) -> bool {
    let (driven, other) = match dir {
        Direction::Forward => (forward, reverse),
        Direction::Reverse => (reverse, forward),
    };
    !(speed > 0 && driven * 10 < speed * 9) && other <= ACTIVE_DUTY
}

/// Finishing a start at `now` from the duty cycles read back: when it took
/// effect, the motor turns in `dir` at `speed` from `now`; otherwise it is
/// stopped and the start failed.
pub open spec fn finish_start_step(
    m: MotorModel,
    dir: Direction,
    speed: i32,
    now: u64,
    forward: i32,
    reverse: i32,
) -> (MotorModel, Result<(), MotorError>) {
    if start_took_effect(dir, speed, forward, reverse) {
        (
            MotorModel {
                state: match dir {
                    Direction::Forward => MotorState::Forward(speed),
                    Direction::Reverse => MotorState::Reverse(speed),
                },
                start_time: Some(now),
                ..m
            },
            Ok(()),
        )
    } else {
        (stopped_at(m, now), Err(MotorError::StartFailure))
    }
}

/// Whether a stop took effect: both outputs were set to zero and read back
/// inactive.
pub open spec fn stop_took_effect(
    zeroed: Result<(), String>,
    readback: Result<(i32, i32), String>,
) -> bool {
    &&& zeroed is Ok
    &&& (readback matches Ok((f, r)) && f <= ACTIVE_DUTY && r <= ACTIVE_DUTY)
}

/// A stop at `now`, given how setting both outputs to zero went (`zeroed`,
/// the error's text where a write failed) and the duty cycles then read
/// back (`readback`): a stopped motor is left as it is and the stop
/// succeeds; a failed write is reported with the motor unchanged;
/// otherwise the motor is stopped with its run recorded, and the stop fails
/// when a read failed or an output is still active.
pub open spec fn stop_step(
    m: MotorModel,
    now: u64,
    zeroed: Result<(), String>,
    readback: Result<(i32, i32), String>,
) -> (MotorModel, Result<(), MotorError>) {
    if m.state is Stopped {
        (m, Ok(()))
    } else {
        match zeroed {
            Err(msg) => (m, Err(MotorError::PwmControl(msg))),
            Ok(_) => (
                stopped_at(m, now),
                match readback {
                    Err(msg) => Err(MotorError::PwmControl(msg)),
                    Ok((f, r)) => if f <= ACTIVE_DUTY && r <= ACTIVE_DUTY {
                        Ok(())
                    } else {
                        Err(MotorError::StopFailure)
                    },
                },
            ),
        }
    }
}

/// A safe stop at `now`: a stopped motor is left as it is; otherwise a
/// normal stop is made, and when it fails the motor is stopped outright and
/// the safe stop succeeds exactly when both outputs read inactive within
/// the wait that follows (`settled_later`).
pub open spec fn safe_stop_step(
    m: MotorModel,
    now: u64,
    zeroed: Result<(), String>,
    readback: Result<(i32, i32), String>,
    settled_later: bool,
) -> (MotorModel, Result<(), MotorError>) {
    if m.state is Stopped {
        (m, Ok(()))
    } else {
        let (m1, r1) = stop_step(m, now, zeroed, readback);
        if r1 is Ok {
            (m1, Ok(()))
        } else {
            (
                stopped_at(m1, now),
                if settled_later {
                    Ok(())
                } else {
                    Err(MotorError::StopFailure)
                },
            )
        }
    }
}

/// Where a motor in `state` resumes after a pause: in the same direction at
/// the same speed, or nowhere when it was stopped.
pub open spec fn resume_plan_of(state: MotorState) -> Option<(Direction, i32)> {
    match state {
        MotorState::Forward(s) => Some((Direction::Forward, s)),
        MotorState::Reverse(s) => Some((Direction::Reverse, s)),
        MotorState::Stopped => None,
    }
}

/// Which output a speed change drives: refused for an invalid speed, or
/// when the motor is stopped.
pub open spec fn speed_target(m: MotorModel, speed: i32) -> Result<Direction, MotorError> {
    if !speed_valid(speed) {
        Err(MotorError::InvalidSpeed(speed as i64))
    } else {
        match m.state {
            MotorState::Forward(_) => Ok(Direction::Forward),
            MotorState::Reverse(_) => Ok(Direction::Reverse),
            MotorState::Stopped => Err(MotorError::NotRunning),
        }
    }
}

/// Whether both outputs are read and not both active.
pub open spec fn safe_duties(forward: Option<i32>, reverse: Option<i32>) -> bool {
    match (forward, reverse) {
        (Some(f), Some(r)) => !(f > ACTIVE_DUTY && r > ACTIVE_DUTY),
        _ => false,
    }
}

/// The absolute difference of two speeds.
pub open spec fn speed_gap(a: i32, b: i32) -> int {
    if a >= b {
        a - b
    } else {
        b - a
    }
}

/// The outcomes of a health check.
pub enum Health {
    Healthy,
    /// A read failed or both outputs are active.
    Unsafe,
    /// The active output's duty cycle is more than 10% off the held speed.
    SpeedMismatch,
    /// The active outputs disagree with the held state.
    StateMismatch,
}

/// What a health check finds from the duty cycles read back (`None` where a
/// read failed).
pub open spec fn health_of(state: MotorState, forward: Option<i32>, reverse: Option<i32>) -> Health {
    if !safe_duties(forward, reverse) {
        Health::Unsafe
    } else {
        let f = forward->0;
        let r = reverse->0;
        match (state, f > ACTIVE_DUTY, r > ACTIVE_DUTY) {
            (MotorState::Stopped, false, false) => Health::Healthy,
            (MotorState::Forward(s), true, false) => if speed_gap(s, f) > SPEED_TOLERANCE {
                Health::SpeedMismatch
            } else {
                Health::Healthy
            },
            (MotorState::Reverse(s), false, true) => if speed_gap(s, r) > SPEED_TOLERANCE {
                Health::SpeedMismatch
            } else {
                Health::Healthy
            },
            _ => Health::StateMismatch,
        }
    }
}

/// Whether `r` reports the health check outcome `h`.
pub open spec fn reports_health(r: Result<(), MotorError>, h: Health) -> bool {
    match h {
        Health::Healthy => r is Ok,
        Health::Unsafe => r == Err::<(), MotorError>(MotorError::UnsafeState),
        Health::SpeedMismatch => r matches Err(MotorError::PwmControl(m))
            && m@ == "Motor speed inconsistent with PWM state"@,
        Health::StateMismatch => r matches Err(MotorError::PwmControl(m))
            && m@ == "Motor state inconsistent with PWM state"@,
    }
}

/// The motor's control state.
#[derive(Debug)]
pub struct MotorController {
    state: MotorState,
    start_time: Option<u64>,
    total_runtime: u64,
    pwm_frequency: i64,
    forward_channel: PwmChannel,
    reverse_channel: PwmChannel,
}

/// A snapshot of the motor.  Times in milliseconds, duty cycles in
/// thousandths, the frequency in millihertz.
#[derive(Debug, Clone, Copy, PartialEq, Eq, Structural)]
pub struct MotorStatus {
    pub state: MotorState,
    pub current_runtime: u64,
    pub total_runtime: u64,
    pub forward_duty_cycle: i32,
    pub reverse_duty_cycle: i32,
    pub pwm_frequency: i64,
    pub is_safe: bool,
}

impl View for MotorController {
    type V = MotorModel;

    closed spec fn view(&self) -> MotorModel {
        MotorModel {
            state: self.state,
            start_time: self.start_time,
            total_runtime: self.total_runtime,
            pwm_frequency: self.pwm_frequency,
            forward_channel: self.forward_channel,
            reverse_channel: self.reverse_channel,
        }
    }
}

fn channel_of(pin: u8) -> (r: Result<PwmChannel, MotorError>)
    ensures
        match pin_channel(pin) {
            Some(c) => r == Ok::<PwmChannel, MotorError>(c),
            None => gpio_error(r, no_pwm_message(pin)),
        },
{
    if pin == 18 {
        Ok(PwmChannel::Pwm0)
    } else if pin == 19 {
        Ok(PwmChannel::Pwm1)
    } else {
        let digits = int_string(pin as u64);
        let s = String::from_str("GPIO ");
        let s = s.concat(digits.as_str());
        Err(MotorError::Gpio(s.concat(" does not support PWM")))
    }
}

impl MotorController {
    #[verifier::type_invariant]
    spec fn wf(self) -> bool {
        (self.state is Stopped) == (self.start_time is None)
    }

    /// A stopped motor driven through the PWM channels of `forward_pin` and
    /// `reverse_pin` at `frequency`.  Refused when the frequency is outside
    /// 1 Hz to 5 kHz, when a pin has no PWM channel (the forward pin is
    /// checked first), or when both pins use the same channel.
    pub fn new(forward_pin: u8, reverse_pin: u8, frequency: i64) -> (r: Result<Self, MotorError>)
        ensures
            !frequency_valid(frequency) ==> r == Err::<Self, MotorError>(
                MotorError::FrequencyOutOfRange(frequency),
            ),
            frequency_valid(frequency) && pin_channel(forward_pin) is None ==> gpio_error(
                r,
                no_pwm_message(forward_pin),
            ),
            frequency_valid(frequency) && pin_channel(forward_pin) is Some && pin_channel(
                reverse_pin,
            ) is None ==> gpio_error(r, no_pwm_message(reverse_pin)),
            frequency_valid(frequency) && pin_channel(forward_pin) is Some && pin_channel(
                reverse_pin,
            ) is Some && pin_channel(forward_pin) == pin_channel(reverse_pin) ==> gpio_error(
                r,
                "Forward and reverse pins cannot use the same PWM channel"@,
            ),
            r is Ok <==> frequency_valid(frequency) && pin_channel(forward_pin) is Some
                && pin_channel(reverse_pin) is Some && pin_channel(forward_pin) != pin_channel(
                reverse_pin,
            ),
            r matches Ok(c) ==> c@ == (MotorModel {
                state: MotorState::Stopped,
                start_time: None,
                total_runtime: 0,
                pwm_frequency: frequency,
                forward_channel: pin_channel(forward_pin)->0,
                reverse_channel: pin_channel(reverse_pin)->0,
            }),
    {
        if frequency < MIN_PWM_FREQUENCY || frequency > MAX_PWM_FREQUENCY {
            return Err(MotorError::FrequencyOutOfRange(frequency));
        }
        let forward_channel = match channel_of(forward_pin) {
            Ok(c) => c,
            Err(e) => {
                return Err(e);
            },
        };
        let reverse_channel = match channel_of(reverse_pin) {
            Ok(c) => c,
            Err(e) => {
                return Err(e);
            },
        };
        if forward_channel == reverse_channel {
            return Err(
                MotorError::Gpio(
                    String::from_str("Forward and reverse pins cannot use the same PWM channel"),
                ),
            );
        }
        Ok(
            MotorController {
                state: MotorState::Stopped,
                start_time: None,
                total_runtime: 0,
                pwm_frequency: frequency,
                forward_channel,
                reverse_channel,
            },
        )
    }

    fn stop_run(&mut self, now: u64)
        requires
            runtime_fits(old(self)@, now),
        ensures
            final(self)@ == stopped_at(old(self)@, now),
    {
        let run = self.current_runtime(now);
        *self = MotorController {
            state: MotorState::Stopped,
            start_time: None,
            total_runtime: self.total_runtime + run,
            pwm_frequency: self.pwm_frequency,
            forward_channel: self.forward_channel,
            reverse_channel: self.reverse_channel,
        };
    }

    /// Prepares a start at `speed` at `now`.  On `Ok` the caller sets the
    /// other output to 0, the driven one to `speed` when above 0, reads both
    /// back and calls `finish_start`.
    pub fn begin_start(&mut self, speed: i32, now: u64) -> (r: Result<(), MotorError>)
        requires
            runtime_fits(old(self)@, now),
        ensures
            (final(self)@, r) == begin_start_step(old(self)@, speed, now),
    {
        if speed < 0 || speed > 1000 {
            return Err(MotorError::InvalidSpeed(speed as i64));
        }
        if self.state.is_running() {
            self.stop_run(now);
        }
        Ok(())
    }

    /// Finishes a start in `dir` at `speed` from the duty cycles read back.
    pub fn finish_start(
        &mut self,
        dir: Direction,
        speed: i32,
        now: u64,
        forward_duty: i32,
        reverse_duty: i32,
    ) -> (r: Result<(), MotorError>)
        requires
            runtime_fits(old(self)@, now),
        ensures
            (final(self)@, r) == finish_start_step(
                old(self)@,
                dir,
                speed,
                now,
                forward_duty,
                reverse_duty,
            ),
    {
        let (driven, other) = match dir {
            Direction::Forward => (forward_duty, reverse_duty),
            Direction::Reverse => (reverse_duty, forward_duty),
        };
        if (speed > 0 && (driven as i64) * 10 < (speed as i64) * 9) || other > ACTIVE_DUTY {
            self.stop_run(now);
            return Err(MotorError::StartFailure);
        }
        let state = match dir {
            Direction::Forward => MotorState::Forward(speed),
            Direction::Reverse => MotorState::Reverse(speed),
        };
        *self = MotorController {
            state,
            start_time: Some(now),
            total_runtime: self.total_runtime,
            pwm_frequency: self.pwm_frequency,
            forward_channel: self.forward_channel,
            reverse_channel: self.reverse_channel,
        };
        Ok(())
    }

    /// The output a speed change drives, or why it is refused.
    pub fn speed_target(&self, speed: i32) -> (r: Result<Direction, MotorError>)
        ensures
            r == speed_target(self@, speed),
    {
        if speed < 0 || speed > 1000 {
            return Err(MotorError::InvalidSpeed(speed as i64));
        }
        match self.state {
            MotorState::Forward(_) => Ok(Direction::Forward),
            MotorState::Reverse(_) => Ok(Direction::Reverse),
            MotorState::Stopped => Err(MotorError::NotRunning),
        }
    }

    /// Records a speed change the caller has applied to the driven output.
    pub fn set_speed(&mut self, speed: i32) -> (r: Result<(), MotorError>)
        ensures
            r is Ok <==> speed_target(old(self)@, speed) is Ok,
            r is Err ==> speed_target(old(self)@, speed) == Err::<Direction, MotorError>(r->Err_0),
            r is Ok ==> final(self)@ == (MotorModel {
                state: match old(self)@.state {
                    MotorState::Forward(_) => MotorState::Forward(speed),
                    _ => MotorState::Reverse(speed),
                },
                ..old(self)@
            }),
            r is Err ==> final(self)@ == old(self)@,
    {
        proof {
            use_type_invariant(&*self);
        }
        match self.speed_target(speed) {
            Ok(Direction::Forward) => {
                self.state = MotorState::Forward(speed);
                Ok(())
            },
            Ok(Direction::Reverse) => {
                self.state = MotorState::Reverse(speed);
                Ok(())
            },
            Err(e) => Err(e),
        }
    }

    /// Records that the caller zeroed both outputs at `now`: the motor is
    /// stopped and the run's time recorded.  Used by a normal stop once the
    /// outputs were zeroed, and by an emergency stop.
    pub fn emergency_stop(&mut self, now: u64)
        requires
            runtime_fits(old(self)@, now),
        ensures
            final(self)@ == stopped_at(old(self)@, now),
    {
        self.stop_run(now);
    }

    /// Stops the motor at `now`.  The caller, when the motor runs, sets both
    /// outputs to zero and reports how that went (`zeroed`), then waits
    /// briefly and reports the duty cycles read back (`readback`); when the
    /// motor is stopped it touches nothing and these are not looked at.
    pub fn stop(
        &mut self,
        now: u64,
        zeroed: Result<(), String>,
        readback: Result<(i32, i32), String>,
    ) -> (r: Result<(), MotorError>)
        requires
            runtime_fits(old(self)@, now),
        ensures
            (final(self)@, r) == stop_step(old(self)@, now, zeroed, readback),
    {
        if !self.state.is_running() {
            return Ok(());
        }
        match zeroed {
            Err(msg) => {
                return Err(MotorError::PwmControl(msg));
            },
            Ok(()) => {},
        }
        self.stop_run(now);
        match readback {
            Err(msg) => Err(MotorError::PwmControl(msg)),
            Ok((f, r)) => Self::check_stopped(f, r),
        }
    }

    /// Whether a stop took effect: both writes went through and both
    /// outputs read back inactive.  A safe stop that finds it did not stops
    /// the motor outright and waits for the outputs to fall.
    pub fn stop_took_effect(
        zeroed: &Result<(), String>,
        readback: &Result<(i32, i32), String>,
    ) -> (r: bool)
        ensures
            r == stop_took_effect(*zeroed, *readback),
    {
        match (zeroed, readback) {
            (Ok(()), Ok((f, r))) => *f <= ACTIVE_DUTY && *r <= ACTIVE_DUTY,
            _ => false,
        }
    }

    /// Stops the motor safely at `now`: a normal stop from `zeroed` and
    /// `readback` (see `stop`); when that fails, an emergency stop, with
    /// `settled_later` telling whether both outputs then read inactive
    /// before the wait ran out.
    pub fn safe_stop(
        &mut self,
        now: u64,
        zeroed: Result<(), String>,
        readback: Result<(i32, i32), String>,
        settled_later: bool,
    ) -> (r: Result<(), MotorError>)
        requires
            runtime_fits(old(self)@, now),
        ensures
            (final(self)@, r) == safe_stop_step(old(self)@, now, zeroed, readback, settled_later),
    {
        if !self.state.is_running() {
            return Ok(());
        }
        let first = self.stop(now, zeroed, readback);
        if first.is_ok() {
            return Ok(());
        }
        proof {
            use_type_invariant(&*self);
        }
        self.stop_run(now);
        if settled_later {
            Ok(())
        } else {
            Err(MotorError::StopFailure)
        }
    }

    /// Where the motor resumes after a pause, such as a change of
    /// frequency: the direction and speed it turns at, if it turns.
    pub fn resume_plan(&self) -> (r: Option<(Direction, i32)>)
        ensures
            r == resume_plan_of(self@.state),
    {
        match self.state {
            MotorState::Forward(s) => Some((Direction::Forward, s)),
            MotorState::Reverse(s) => Some((Direction::Reverse, s)),
            MotorState::Stopped => None,
        }
    }

    /// Checks the duty cycles read back after a stop: both outputs must be
    /// inactive.
    pub fn check_stopped(forward_duty: i32, reverse_duty: i32) -> (r: Result<(), MotorError>)
        ensures
            r == if forward_duty <= ACTIVE_DUTY && reverse_duty <= ACTIVE_DUTY {
                Ok::<(), MotorError>(())
            } else {
                Err(MotorError::StopFailure)
            },
    {
        if forward_duty > ACTIVE_DUTY || reverse_duty > ACTIVE_DUTY {
            return Err(MotorError::StopFailure);
        }
        Ok(())
    }

    /// The motor's state.
    pub fn current_state(&self) -> (r: MotorState)
        ensures
            r == self@.state,
    {
        self.state
    }

    /// The current speed (0 when stopped).
    pub fn current_speed(&self) -> (r: i32)
        ensures
            r == motor_speed(self@.state),
    {
        self.state.speed()
    }

    /// The PWM frequency, in millihertz.
    pub fn pwm_frequency(&self) -> (r: i64)
        ensures
            r == self@.pwm_frequency,
    {
        self.pwm_frequency
    }

    /// The channels of the forward and reverse outputs.
    pub fn channels(&self) -> (r: (PwmChannel, PwmChannel))
        ensures
            r == (self@.forward_channel, self@.reverse_channel),
    {
        (self.forward_channel, self.reverse_channel)
    }

    /// Checks a new PWM frequency.
    pub fn check_frequency(frequency: i64) -> (r: Result<(), MotorError>)
        ensures
            frequency_valid(frequency) ==> r is Ok,
            !frequency_valid(frequency) ==> r == Err::<(), MotorError>(
                MotorError::FrequencyOutOfRange(frequency),
            ),
    {
        if frequency < MIN_PWM_FREQUENCY || frequency > MAX_PWM_FREQUENCY {
            return Err(MotorError::FrequencyOutOfRange(frequency));
        }
        Ok(())
    }

    /// Records a new PWM frequency the caller has applied.
    pub fn set_frequency(&mut self, frequency: i64) -> (r: Result<(), MotorError>)
        ensures
            frequency_valid(frequency) ==> r is Ok && final(self)@ == (MotorModel {
                pwm_frequency: frequency,
                ..old(self)@
            }),
            !frequency_valid(frequency) ==> r == Err::<(), MotorError>(
                MotorError::FrequencyOutOfRange(frequency),
            ) && final(self)@ == old(self)@,
    {
        proof {
            use_type_invariant(&*self);
        }
        match Self::check_frequency(frequency) {
            Ok(()) => {
                self.pwm_frequency = frequency;
                Ok(())
            },
            Err(e) => Err(e),
        }
    }

    /// Whether the motor turns.
    pub fn is_running(&self) -> (r: bool)
        ensures
            r == !(self@.state is Stopped),
            r == (self@.start_time is Some),
    {
        proof {
            use_type_invariant(self);
        }
        self.state.is_running()
    }

    /// Whether both duty cycles were read (`None` where a read failed) and
    /// are not both active.
    pub fn is_safe_state(forward_duty: Option<i32>, reverse_duty: Option<i32>) -> (r: bool)
        ensures
            r == safe_duties(forward_duty, reverse_duty),
    {
        match (forward_duty, reverse_duty) {
            (Some(f), Some(r)) => !(f > ACTIVE_DUTY && r > ACTIVE_DUTY),
            _ => false,
        }
    }

    /// The time the current run has lasted at `now`.
    pub fn current_runtime(&self, now: u64) -> (r: u64)
        ensures
            r == current_runtime_at(self@, now),
    {
        match self.start_time {
            Some(t) => now.saturating_sub(t),
            None => 0,
        }
    }

    /// Whether stopping at `now` can add the run's time without overflow.
    pub fn can_record_runtime(&self, now: u64) -> (r: bool)
        ensures
            r == runtime_fits(self@, now),
    {
        self.total_runtime.checked_add(self.current_runtime(now)).is_some()
    }

    /// The total run time at `now`, the current run included.
    pub fn total_runtime(&self, now: u64) -> (r: u64)
        requires
            runtime_fits(self@, now),
        ensures
            r == self@.total_runtime + current_runtime_at(self@, now),
    {
        self.total_runtime + self.current_runtime(now)
    }

    /// Clears the run time; a running motor's current run restarts at `now`.
    pub fn reset_runtime(&mut self, now: u64)
        ensures
            final(self)@ == (MotorModel {
                start_time: if old(self)@.state is Stopped {
                    None
                } else {
                    Some(now)
                },
                total_runtime: 0,
                ..old(self)@
            }),
    {
        proof {
            use_type_invariant(&*self);
        }
        let start = if self.state.is_running() {
            Some(now)
        } else {
            None
        };
        *self = MotorController {
            state: self.state,
            start_time: start,
            total_runtime: 0,
            pwm_frequency: self.pwm_frequency,
            forward_channel: self.forward_channel,
            reverse_channel: self.reverse_channel,
        };
    }

    /// Checks the motor from the duty cycles read back (`None` where a read
    /// failed).
    pub fn health_check(&self, forward_duty: Option<i32>, reverse_duty: Option<i32>) -> (r: Result<
        (),
        MotorError,
    >)
        ensures
            reports_health(r, health_of(self@.state, forward_duty, reverse_duty)),
    {
        if !Self::is_safe_state(forward_duty, reverse_duty) {
            return Err(MotorError::UnsafeState);
        }
        let f = match forward_duty {
            Some(v) => v,
            None => 0,
        };
        let r = match reverse_duty {
            Some(v) => v,
            None => 0,
        };
        let fa = f > ACTIVE_DUTY;
        let ra = r > ACTIVE_DUTY;
        match self.state {
            MotorState::Stopped => {
                if !fa && !ra {
                    return Ok(());
                }
            },
            MotorState::Forward(s) => {
                if fa && !ra {
                    let gap = if s >= f {
                        s as i64 - f as i64
                    } else {
                        f as i64 - s as i64
                    };
                    if gap > SPEED_TOLERANCE as i64 {
                        return Err(
                            MotorError::PwmControl(
                                String::from_str("Motor speed inconsistent with PWM state"),
                            ),
                        );
                    }
                    return Ok(());
                }
            },
            MotorState::Reverse(s) => {
                if !fa && ra {
                    let gap = if s >= r {
                        s as i64 - r as i64
                    } else {
                        r as i64 - s as i64
                    };
                    if gap > SPEED_TOLERANCE as i64 {
                        return Err(
                            MotorError::PwmControl(
                                String::from_str("Motor speed inconsistent with PWM state"),
                            ),
                        );
                    }
                    return Ok(());
                }
            },
        }
        Err(MotorError::PwmControl(String::from_str("Motor state inconsistent with PWM state")))
    }

    /// One look at the outputs while a safe stop waits for them to fall,
    /// `waited` milliseconds into a wait of `timeout`: failure once the time
    /// is up, success once both read inactive, otherwise keep waiting.
    pub fn poll_stopped(
        waited: u64,
        timeout: u64,
        forward_duty: Option<i32>,
        reverse_duty: Option<i32>,
    ) -> (r: Option<Result<(), MotorError>>)
        ensures
            waited >= timeout ==> r == Some(Err::<(), MotorError>(MotorError::StopFailure)),
            waited < timeout ==> (r is Some <==> both_inactive(forward_duty, reverse_duty)),
            waited < timeout && r is Some ==> r->0 is Ok,
    {
        if waited >= timeout {
            return Some(Err(MotorError::StopFailure));
        }
        match (forward_duty, reverse_duty) {
            (Some(f), Some(r)) => {
                if f <= ACTIVE_DUTY && r <= ACTIVE_DUTY {
                    Some(Ok(()))
                } else {
                    None
                }
            },
            _ => None,
        }
    }

    /// A snapshot at `now` from the duty cycles read back (`None` where a
    /// read failed, reported as 0).
    pub fn status(&self, now: u64, forward_duty: Option<i32>, reverse_duty: Option<i32>) -> (r:
        MotorStatus)
        requires
            runtime_fits(self@, now),
        ensures
            r == (MotorStatus {
                state: self@.state,
                current_runtime: current_runtime_at(self@, now),
                total_runtime: (self@.total_runtime + current_runtime_at(self@, now)) as u64,
                forward_duty_cycle: match forward_duty {
                    Some(v) => v,
                    None => 0,
                },
                reverse_duty_cycle: match reverse_duty {
                    Some(v) => v,
                    None => 0,
                },
                pwm_frequency: self@.pwm_frequency,
                is_safe: safe_duties(forward_duty, reverse_duty),
            }),
    {
        MotorStatus {
            state: self.state,
            current_runtime: self.current_runtime(now),
            total_runtime: self.total_runtime(now),
            forward_duty_cycle: match forward_duty {
                Some(v) => v,
                None => 0,
            },
            reverse_duty_cycle: match reverse_duty {
                Some(v) => v,
                None => 0,
            },
            pwm_frequency: self.pwm_frequency,
            is_safe: Self::is_safe_state(forward_duty, reverse_duty),
        }
    }
}

/// Whether a snapshot is consistent: safe, and the outputs match the state
/// (only the driven output active, within 10% of the speed).
pub open spec fn status_healthy(s: MotorStatus) -> bool {
    s.is_safe && match s.state {
        MotorState::Stopped => s.forward_duty_cycle <= ACTIVE_DUTY && s.reverse_duty_cycle
            <= ACTIVE_DUTY,
        MotorState::Forward(v) => s.forward_duty_cycle > ACTIVE_DUTY && s.reverse_duty_cycle
            <= ACTIVE_DUTY && speed_gap(s.forward_duty_cycle, v) < SPEED_TOLERANCE,
        MotorState::Reverse(v) => s.forward_duty_cycle <= ACTIVE_DUTY && s.reverse_duty_cycle
            > ACTIVE_DUTY && speed_gap(s.reverse_duty_cycle, v) < SPEED_TOLERANCE,
    }
}

impl MotorStatus {
    /// The name of the motor state.
    pub fn as_str(&self) -> (r: &'static str)
        ensures
            r@ == match self.state {
                MotorState::Stopped => "Stopped"@,
                MotorState::Forward(_) => "Forward"@,
                MotorState::Reverse(_) => "Reverse"@,
            },
    {
        self.state.as_str()
    }

    /// Whether the snapshot is consistent.
    pub fn is_healthy(&self) -> (r: bool)
        ensures
            r == status_healthy(*self),
    {
        if !self.is_safe {
            return false;
        }
        let f = self.forward_duty_cycle;
        let v = self.reverse_duty_cycle;
        match self.state {
            MotorState::Stopped => f <= ACTIVE_DUTY && v <= ACTIVE_DUTY,
            MotorState::Forward(s) => {
                let gap = if f >= s {
                    f as i64 - s as i64
                } else {
                    s as i64 - f as i64
                };
                f > ACTIVE_DUTY && v <= ACTIVE_DUTY && gap < SPEED_TOLERANCE as i64
            },
            MotorState::Reverse(s) => {
                let gap = if v >= s {
                    v as i64 - s as i64
                } else {
                    s as i64 - v as i64
                };
                f <= ACTIVE_DUTY && v > ACTIVE_DUTY && gap < SPEED_TOLERANCE as i64
            },
        }
    }
}

/// The safety rule of the two relays: a motor that passes its health check
/// never has both outputs active.
pub proof fn lemma_healthy_never_both_active(
    state: MotorState,
    forward: Option<i32>,
    reverse: Option<i32>,
)
    requires
        health_of(state, forward, reverse) is Healthy,
    ensures
        forward is Some && reverse is Some,
        !(forward->0 > ACTIVE_DUTY && reverse->0 > ACTIVE_DUTY),
{
}

/// A start that took effect leaves the motor turning in the requested
/// direction at the requested speed; one that did not leaves it stopped.
pub proof fn lemma_start_outcome(
    m: MotorModel,
    dir: Direction,
    speed: i32,
    now: u64,
    forward: i32,
    reverse: i32,
)
    ensures
        ({
            let (m1, r) = finish_start_step(m, dir, speed, now, forward, reverse);
            &&& r is Ok ==> motor_speed(m1.state) == speed && !(m1.state is Stopped) && (m1.state is Forward
                <==> dir == Direction::Forward)
            &&& r is Err ==> m1.state is Stopped && m1.start_time is None
        }),
{
}

/// Stopping records the run: the total grows by the run's time and the
/// motor is stopped.
pub proof fn lemma_stop_records_run(m: MotorModel, now: u64)
    requires
        runtime_fits(m, now),
    ensures
        stopped_at(m, now).state is Stopped,
        stopped_at(m, now).total_runtime == m.total_runtime + current_runtime_at(m, now),
        stopped_at(m, now).pwm_frequency == m.pwm_frequency,
{
}

/// Stopping a stopped motor changes nothing and succeeds, whatever the
/// outputs report.
pub proof fn lemma_stop_of_stopped_is_noop(
    m: MotorModel,
    now: u64,
    zeroed: Result<(), String>,
    readback: Result<(i32, i32), String>,
)
    requires
        model_wf(m),
        m.state is Stopped,
    ensures
        stop_step(m, now, zeroed, readback) == (m, Ok::<(), MotorError>(())),
        safe_stop_step(m, now, zeroed, readback, false) == (m, Ok::<(), MotorError>(())),
{
}

/// Stopping twice acts as stopping once: once both outputs were set to
/// zero the motor is stopped, its run recorded once, and a second stop
/// leaves it as it is and succeeds.
pub proof fn lemma_stop_idempotent(
    m: MotorModel,
    now1: u64,
    now2: u64,
    readback1: Result<(i32, i32), String>,
    zeroed2: Result<(), String>,
    readback2: Result<(i32, i32), String>,
)
    requires
        model_wf(m),
        runtime_fits(m, now1),
    ensures
        ({
            let (m1, _) = stop_step(m, now1, Ok(()), readback1);
            &&& m1.state is Stopped
            &&& m1.total_runtime == m.total_runtime + current_runtime_at(m, now1)
            &&& stop_step(m1, now2, zeroed2, readback2) == (m1, Ok::<(), MotorError>(()))
        }),
{
}

/// A safe stop always leaves the motor stopped with its run recorded once,
/// whether the normal stop worked, could not write, or left an output
/// active; it succeeds exactly when the motor was already stopped, the stop
/// took effect, or the outputs fell within the wait.
pub proof fn lemma_safe_stop_always_stops(
    m: MotorModel,
    now: u64,
    zeroed: Result<(), String>,
    readback: Result<(i32, i32), String>,
    settled_later: bool,
)
    requires
        model_wf(m),
        runtime_fits(m, now),
    ensures
        ({
            let (m1, r) = safe_stop_step(m, now, zeroed, readback, settled_later);
            &&& m1.state is Stopped
            &&& m1.start_time is None
            &&& m1.total_runtime == m.total_runtime + current_runtime_at(m, now)
            &&& r is Ok <==> (m.state is Stopped || stop_took_effect(zeroed, readback)
                || settled_later)
        }),
{
}

/// The health check compares the held speed with the duty cycle of the
/// output that drives the motor: held in reverse at `s`, with the forward
/// output inactive and the reverse one active, the motor is healthy exactly
/// when the reverse duty cycle is within 100 of `s`; likewise forward with
/// the forward duty cycle; and a stopped motor with both outputs inactive
/// is healthy.
pub proof fn lemma_health_compares_driven_output(s: i32, f: i32, r: i32)
    ensures
        f <= ACTIVE_DUTY && r > ACTIVE_DUTY ==> (health_of(MotorState::Reverse(s), Some(f), Some(r))
            is Healthy <==> -SPEED_TOLERANCE <= s - r <= SPEED_TOLERANCE),
        f <= ACTIVE_DUTY && r > ACTIVE_DUTY ==> (health_of(MotorState::Reverse(s), Some(f), Some(r))
            is Healthy || health_of(MotorState::Reverse(s), Some(f), Some(r)) is SpeedMismatch),
        f > ACTIVE_DUTY && r <= ACTIVE_DUTY ==> (health_of(MotorState::Forward(s), Some(f), Some(r))
            is Healthy <==> -SPEED_TOLERANCE <= s - f <= SPEED_TOLERANCE),
        f > ACTIVE_DUTY && r <= ACTIVE_DUTY ==> (health_of(MotorState::Forward(s), Some(f), Some(r))
            is Healthy || health_of(MotorState::Forward(s), Some(f), Some(r)) is SpeedMismatch),
        f <= ACTIVE_DUTY && r <= ACTIVE_DUTY ==> health_of(MotorState::Stopped, Some(f), Some(r))
            is Healthy,
        s > ACTIVE_DUTY ==> health_of(MotorState::Reverse(s), Some(0), Some(s)) is Healthy,
        s > ACTIVE_DUTY ==> health_of(MotorState::Forward(s), Some(s), Some(0)) is Healthy,
{
}

} // verus!
