//! The peristaltic pump's run state and run-time accounting.  The caller
//! drives the control pin and reports what it reads back; times are
//! milliseconds of the caller's monotonic clock.
use crate::errors::PumpError;
use vstd::prelude::*;
use vstd::string::*;

verus! {

/// The abstract state of the pump: it runs exactly while a run start is
/// recorded.
pub struct PumpModel {
    /// When the current run started; present exactly while running.
    pub start_time: Option<u64>,
    /// Run time of the finished runs, in milliseconds.
    pub total_runtime: u64,
}

/// Milliseconds from `start` to `now`, or 0 when `now` is earlier.
pub open spec fn elapsed(start: u64, now: u64) -> u64 {
    if now >= start {
        (now - start) as u64
    } else {
        0
    }
}

/// The run time of the current run at `now` (0 when stopped).
pub open spec fn current_runtime_at(m: PumpModel, now: u64) -> u64 {
    match m.start_time {
        Some(t) => elapsed(t, now),
        None => 0,
    }
}

/// Whether stopping at `now` can record the run time without overflow.
pub open spec fn runtime_fits(m: PumpModel, now: u64) -> bool {
    m.total_runtime + current_runtime_at(m, now) <= u64::MAX
}

/// The pump after its run is closed at `now`: stopped, with the run's time
/// added to the total.
pub open spec fn closed_at(m: PumpModel, now: u64) -> PumpModel {
    PumpModel {
        start_time: None,
        total_runtime: (m.total_runtime + current_runtime_at(m, now)) as u64,
    }
}

/// Starting at `now`, when the pin read back `pin_high` after being driven
/// high: refused while running; a start failure, with nothing changed, when
/// the pin is not high; otherwise running from `now`.
pub open spec fn start_step(m: PumpModel, now: u64, pin_high: bool) -> (
    PumpModel,
    Result<(), PumpError>,
) {
    if m.start_time is Some {
        (m, Err(PumpError::AlreadyRunning))
    } else if !pin_high {
        (m, Err(PumpError::StartFailure))
    } else {
        (PumpModel { start_time: Some(now), ..m }, Ok(()))
    }
}

/// Stopping at `now`, when the pin read back `pin_high` after being driven
/// low: refused when not running; otherwise the run is closed, and the stop
/// reported as failed if the pin is still high.
pub open spec fn stop_step(m: PumpModel, now: u64, pin_high: bool) -> (
    PumpModel,
    Result<(), PumpError>,
) {
    if m.start_time is None {
        (m, Err(PumpError::NotRunning))
    } else if pin_high {
        (closed_at(m, now), Err(PumpError::StopFailure))
    } else {
        (closed_at(m, now), Ok(()))
    }
}

/// What one look at the pin gives while waiting for a stop to take effect,
/// `waited` milliseconds into a wait of `timeout`: failure once the time is
/// up, success once the pin is low, otherwise keep waiting (`None`).
pub open spec fn stop_poll(waited: u64, timeout: u64, pin_high: bool) -> Option<
    Result<(), PumpError>,
> {
    if waited >= timeout {
        Some(Err(PumpError::StopFailure))
    } else if !pin_high {
        Some(Ok(()))
    } else {
        None
    }
}

/// A safe stop at `now`, when the pin fell low within the wait
/// (`pin_settled_low`): nothing to do when not running; otherwise the run is
/// closed, and the stop failed if the pin stayed high.
pub open spec fn safe_stop_step(m: PumpModel, now: u64, pin_settled_low: bool) -> (
    PumpModel,
    Result<(), PumpError>,
) {
    if m.start_time is None {
        (m, Ok(()))
    } else if pin_settled_low {
        (closed_at(m, now), Ok(()))
    } else {
        (closed_at(m, now), Err(PumpError::StopFailure))
    }
}

/// The pump's run state.
#[derive(Debug)]
pub struct PumpController {
    start_time: Option<u64>,
    total_runtime: u64,
}

/// A snapshot of the pump.  Run times are in milliseconds.
#[derive(Debug, Clone, Copy, PartialEq, Eq, Structural)]
pub struct PumpStatus {
    pub is_running: bool,
    pub current_runtime: u64,
    pub total_runtime: u64,
    pub gpio_state: bool,
}

impl View for PumpController {
    type V = PumpModel;

    closed spec fn view(&self) -> PumpModel {
        PumpModel {
            start_time: self.start_time,
            total_runtime: self.total_runtime,
        }
    }
}

impl PumpController {
    /// A stopped pump with no run time.
    pub fn new() -> (r: Self)
        ensures
            r@ == (PumpModel { start_time: None, total_runtime: 0 }),
    {
        PumpController { start_time: None, total_runtime: 0 }
    }

    /// Starts the pump at `now`; `pin_high` is the control pin read back after
    /// driving it high.
    pub fn start(&mut self, now: u64, pin_high: bool) -> (r: Result<(), PumpError>)
        ensures
            (final(self)@, r) == start_step(old(self)@, now, pin_high),
    {
        if self.start_time.is_some() {
            return Err(PumpError::AlreadyRunning);
        }
        if !pin_high {
            return Err(PumpError::StartFailure);
        }
        *self = PumpController { start_time: Some(now), total_runtime: self.total_runtime };
        Ok(())
    }

    /// Stops the pump at `now`; `pin_high` is the control pin read back after
    /// driving it low.
    pub fn stop(&mut self, now: u64, pin_high: bool) -> (r: Result<(), PumpError>)
        requires
            runtime_fits(old(self)@, now),
        ensures
            (final(self)@, r) == stop_step(old(self)@, now, pin_high),
    {
        if self.start_time.is_none() {
            return Err(PumpError::NotRunning);
        }
        self.close_run(now);
        if pin_high {
            return Err(PumpError::StopFailure);
        }
        Ok(())
    }

    /// Stops the pump safely at `now`: `pin_settled_low` tells whether the
    /// control pin, driven low, read low again before the wait ran out.
    pub fn safe_stop(&mut self, now: u64, pin_settled_low: bool) -> (r: Result<(), PumpError>)
        requires
            runtime_fits(old(self)@, now),
        ensures
            (final(self)@, r) == safe_stop_step(old(self)@, now, pin_settled_low),
    {
        if self.start_time.is_none() {
            return Ok(());
        }
        self.close_run(now);
        if pin_settled_low {
            Ok(())
        } else {
            Err(PumpError::StopFailure)
        }
    }

    fn close_run(&mut self, now: u64)
        requires
            runtime_fits(old(self)@, now),
        ensures
            final(self)@ == closed_at(old(self)@, now),
    {
        let run = self.current_runtime(now);
        *self = PumpController {
            start_time: None,
            total_runtime: self.total_runtime + run,
        };
    }

    /// Whether closing the current run at `now` can add its time to the
    /// total without overflow.
    pub fn can_record_runtime(&self, now: u64) -> (r: bool)
        ensures
            r == runtime_fits(self@, now),
    {
        self.total_runtime.checked_add(self.current_runtime(now)).is_some()
    }

    /// Whether the pump runs.
    pub fn is_running(&self) -> (r: bool)
        ensures
            r == self@.start_time is Some,
    {
        self.start_time.is_some()
    }

    /// Marks the pump stopped at `now` without any check (the caller drives
    /// the pin low), recording the run time.
    pub fn emergency_stop(&mut self, now: u64)
        requires
            runtime_fits(old(self)@, now),
        ensures
            final(self)@ == closed_at(old(self)@, now),
    {
        self.close_run(now);
    }

    /// The time the current run has lasted at `now`.
    pub fn current_runtime(&self, now: u64) -> (r: u64)
        ensures
            r == current_runtime_at(self@, now),
    {
        match self.start_time {
            Some(t) => now.saturating_sub(t),
            None => 0,
        }
    }

    /// The total run time at `now`, the current run included.
    pub fn total_runtime(&self, now: u64) -> (r: u64)
        requires
            runtime_fits(self@, now),
        ensures
            r == self@.total_runtime + current_runtime_at(self@, now),
    {
        self.total_runtime + self.current_runtime(now)
    }

    /// Clears the run time; a running pump's current run restarts at `now`.
    pub fn reset_runtime(&mut self, now: u64)
        ensures
            final(self)@ == (PumpModel {
                start_time: if old(self)@.start_time is Some {
                    Some(now)
                } else {
                    None
                },
                total_runtime: 0,
            }),
    {
        let start = if self.start_time.is_some() {
            Some(now)
        } else {
            None
        };
        *self = PumpController { start_time: start, total_runtime: 0 };
    }

    /// A snapshot at `now`, with the pin's level `gpio_high`.
    pub fn status(&self, now: u64, gpio_high: bool) -> (r: PumpStatus)
        requires
            runtime_fits(self@, now),
        ensures
            r == (PumpStatus {
                is_running: self@.start_time is Some,
                current_runtime: current_runtime_at(self@, now),
                total_runtime: (self@.total_runtime + current_runtime_at(self@, now)) as u64,
                gpio_state: gpio_high,
            }),
    {
        PumpStatus {
            is_running: self.start_time.is_some(),
            current_runtime: self.current_runtime(now),
            total_runtime: self.total_runtime(now),
            gpio_state: gpio_high,
        }
    }

    /// Checks that the pin's level `gpio_high` agrees with the run state.
    pub fn health_check(&self, gpio_high: bool) -> (r: Result<(), PumpError>)
        ensures
            r is Ok <==> (self@.start_time is Some == gpio_high),
            r matches Err(e) ==> e matches PumpError::Gpio(m) && m@ == if self@.start_time is Some {
                "GPIO state inconsistent with running state"@
            } else {
                "GPIO state inconsistent with stopped state"@
            },
    {
        let running = self.start_time.is_some();
        if running && !gpio_high {
            return Err(
                PumpError::Gpio(String::from_str("GPIO state inconsistent with running state")),
            );
        }
        if !running && gpio_high {
            return Err(
                PumpError::Gpio(String::from_str("GPIO state inconsistent with stopped state")),
            );
        }
        Ok(())
    }

    /// One look at the pin while a safe stop waits for the pin to fall,
    /// `waited` milliseconds into a wait of `timeout`.
    pub fn poll_stopped(waited: u64, timeout: u64, pin_high: bool) -> (r: Option<
        Result<(), PumpError>,
    >)
        ensures
            r == stop_poll(waited, timeout, pin_high),
    {
        if waited >= timeout {
            Some(Err(PumpError::StopFailure))
        } else if !pin_high {
            Some(Ok(()))
        } else {
            None
        }
    }
}

impl PumpStatus {
    /// `Running` or `Stopped`.
    pub fn as_str(&self) -> (r: &'static str)
        ensures
            r@ == if self.is_running {
                "Running"@
            } else {
                "Stopped"@
            },
    {
        if self.is_running {
            "Running"
        } else {
            "Stopped"
        }
    }

    /// Whether the pin's level agrees with the run state.
    pub fn is_healthy(&self) -> (r: bool)
        ensures
            r == (self.is_running == self.gpio_state),
    {
        self.is_running == self.gpio_state
    }
}

/// Run-time accounting: a run started at `t0` and stopped at `t1 ≥ t0`
/// adds exactly `t1 − t0` to the total, and leaves the pump stopped.
pub proof fn lemma_start_stop_accounts_run(m: PumpModel, t0: u64, t1: u64)
    requires
        m.start_time is None,
        t0 <= t1,
        m.total_runtime + (t1 - t0) <= u64::MAX,
    ensures
        ({
            let (m1, r1) = start_step(m, t0, true);
            let (m2, r2) = stop_step(m1, t1, false);
            &&& r1 is Ok
            &&& r2 is Ok
            &&& m2.start_time is None
            &&& m2.total_runtime == m.total_runtime + (t1 - t0)
        }),
{
}

/// A refused or failed start leaves the pump exactly as it was.
pub proof fn lemma_failed_start_changes_nothing(m: PumpModel, now: u64, pin_high: bool)
    ensures
        start_step(m, now, pin_high).1 is Err ==> start_step(m, now, pin_high).0 == m,
{
}

} // verus!
