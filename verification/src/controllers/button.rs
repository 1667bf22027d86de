//! Debouncing and edge detection for the start/stop button.  The caller
//! reads the pin (pressed when low, the pin having a pull-up) and supplies
//! the time in milliseconds of its monotonic clock.
use vstd::prelude::*;

verus! {

/// The default debounce time, in milliseconds.
pub const DEFAULT_DEBOUNCE_MS: u64 = 50;

/// The abstract state of the button.
pub struct ButtonModel {
    /// The last level accepted (true when pressed).
    pub last_state: bool,
    /// When the accepted level last changed.
    pub debounce_timer: u64,
    /// How long a change blocks further changes, in milliseconds.
    pub debounce_duration: u64,
    /// Number of presses counted.
    pub press_count: u32,
    /// When the first click of a possible double click was seen.
    pub last_click: Option<u64>,
}

/// Milliseconds from `start` to `now`, or 0 when `now` is earlier.
pub open spec fn since(start: u64, now: u64) -> u64 {
    if now >= start {
        (now - start) as u64
    } else {
        0
    }
}

/// Whether a change at `now` would still fall in the debounce time.
pub open spec fn debouncing(m: ButtonModel, now: u64) -> bool {
    since(m.debounce_timer, now) < m.debounce_duration
}

/// `m` with the level `current` accepted at `now`.
pub open spec fn accept(m: ButtonModel, current: bool, now: u64) -> ButtonModel {
    ButtonModel { last_state: current, debounce_timer: now, ..m }
}

/// Whether a level check at `now` would count a press.
pub open spec fn level_counts_press(m: ButtonModel, current: bool, now: u64) -> bool {
    !debouncing(m, now) && current && !m.last_state
}

/// Reading the level: within the debounce time the last accepted level is
/// given back and nothing changes; otherwise a change of level is accepted
/// (a press is counted when the button went down) and the pin's level is
/// given.
pub open spec fn level_step(m: ButtonModel, current: bool, now: u64) -> (ButtonModel, bool) {
    if debouncing(m, now) {
        (m, m.last_state)
    } else if current != m.last_state {
        let m1 = accept(m, current, now);
        if current {
            (ButtonModel { press_count: (m.press_count + 1) as u32, ..m1 }, current)
        } else {
            (m1, current)
        }
    } else {
        (m, current)
    }
}

/// Detecting a press: nothing within the debounce time; a press when the
/// button went down (counted); any other change of level is accepted.
pub open spec fn press_step(m: ButtonModel, current: bool, now: u64) -> (ButtonModel, bool) {
    if debouncing(m, now) {
        (m, false)
    } else if !m.last_state && current {
        (ButtonModel { press_count: (m.press_count + 1) as u32, ..accept(m, current, now) }, true)
    } else if current != m.last_state {
        (accept(m, current, now), false)
    } else {
        (m, false)
    }
}

/// Detecting a release: nothing within the debounce time; a release when
/// the button came up; any other change of level is accepted.
pub open spec fn release_step(m: ButtonModel, current: bool, now: u64) -> (ButtonModel, bool) {
    if debouncing(m, now) {
        (m, false)
    } else if m.last_state && !current {
        (accept(m, current, now), true)
    } else if current != m.last_state {
        (accept(m, current, now), false)
    } else {
        (m, false)
    }
}

/// Detecting a double click within `window` milliseconds: after a press,
/// a click is double when the previous click was at most `window` ago
/// (which clears the memory); otherwise the press is remembered.
pub open spec fn double_click_step(m: ButtonModel, current: bool, now: u64, window: u64) -> (
    ButtonModel,
    bool,
) {
    let (m1, pressed) = press_step(m, current, now);
    if !pressed {
        (m1, false)
    } else {
        match m1.last_click {
            Some(t) => if since(t, now) <= window {
                (ButtonModel { last_click: None, ..m1 }, true)
            } else {
                (ButtonModel { last_click: Some(now), ..m1 }, false)
            },
            None => (ButtonModel { last_click: Some(now), ..m1 }, false),
        }
    }
}

/// The button's debounce state.
#[derive(Debug)]
pub struct ButtonController {
    last_state: bool,
    debounce_timer: u64,
    debounce_duration: u64,
    press_count: u32,
    last_click: Option<u64>,
}

/// A snapshot of the button.  Times are in milliseconds.
#[derive(Debug, Clone, Copy, PartialEq, Eq, Structural)]
pub struct ButtonStatus {
    pub is_pressed: bool,
    pub press_count: u32,
    pub debounce_remaining: u64,
    pub gpio_state: bool,
}

impl View for ButtonController {
    type V = ButtonModel;

    closed spec fn view(&self) -> ButtonModel {
        ButtonModel {
            last_state: self.last_state,
            debounce_timer: self.debounce_timer,
            debounce_duration: self.debounce_duration,
            press_count: self.press_count,
            last_click: self.last_click,
        }
    }
}

impl ButtonController {
    /// A button whose pin shows `pressed` at `now`, with a 50 ms debounce
    /// time and no press counted.
    pub fn new(pressed: bool, now: u64) -> (r: Self)
        ensures
            r@ == (ButtonModel {
                last_state: pressed,
                debounce_timer: now,
                debounce_duration: DEFAULT_DEBOUNCE_MS,
                press_count: 0,
                last_click: None,
            }),
    {
        ButtonController {
            last_state: pressed,
            debounce_timer: now,
            debounce_duration: DEFAULT_DEBOUNCE_MS,
            press_count: 0,
            last_click: None,
        }
    }

    /// Whether waiting for a press is over: the debounced level went from
    /// pressed (`was_pressed`) to released (`is_pressed` false), so the
    /// button was pressed and let go.
    pub fn press_completed(was_pressed: bool, is_pressed: bool) -> (r: bool)
        ensures
            r == (was_pressed && !is_pressed),
    {
        was_pressed && !is_pressed
    }

    /// Whether reading the level `current` at `now` would count a press.
    pub fn would_count_press(&self, current: bool, now: u64) -> (r: bool)
        ensures
            r == level_counts_press(self@, current, now),
    {
        !(now.saturating_sub(self.debounce_timer) < self.debounce_duration) && current
            && !self.last_state
    }

    /// The debounced level, given the pin's level `current` at `now`.
    pub fn is_pressed(&mut self, current: bool, now: u64) -> (r: bool)
        requires
            level_counts_press(old(self)@, current, now) ==> old(self)@.press_count < u32::MAX,
        ensures
            (final(self)@, r) == level_step(old(self)@, current, now),
    {
        if now.saturating_sub(self.debounce_timer) < self.debounce_duration {
            return self.last_state;
        }
        if current != self.last_state {
            self.debounce_timer = now;
            self.last_state = current;
            if current {
                self.press_count = self.press_count + 1;
            }
        }
        current
    }

    /// Whether the button went down, given the pin's level `current` at
    /// `now`.
    pub fn detect_press(&mut self, current: bool, now: u64) -> (r: bool)
        requires
            level_counts_press(old(self)@, current, now) ==> old(self)@.press_count < u32::MAX,
        ensures
            (final(self)@, r) == press_step(old(self)@, current, now),
    {
        if now.saturating_sub(self.debounce_timer) < self.debounce_duration {
            return false;
        }
        if !self.last_state && current {
            self.debounce_timer = now;
            self.last_state = current;
            self.press_count = self.press_count + 1;
            return true;
        }
        if current != self.last_state {
            self.debounce_timer = now;
            self.last_state = current;
        }
        false
    }

    /// Whether the button came up, given the pin's level `current` at `now`.
    pub fn detect_release(&mut self, current: bool, now: u64) -> (r: bool)
        ensures
            (final(self)@, r) == release_step(old(self)@, current, now),
    {
        if now.saturating_sub(self.debounce_timer) < self.debounce_duration {
            return false;
        }
        if self.last_state && !current {
            self.debounce_timer = now;
            self.last_state = current;
            return true;
        }
        if current != self.last_state {
            self.debounce_timer = now;
            self.last_state = current;
        }
        false
    }

    /// The number of presses counted.
    pub fn press_count(&self) -> (r: u32)
        ensures
            r == self@.press_count,
    {
        self.press_count
    }

    /// Clears the press count.
    pub fn reset_press_count(&mut self)
        ensures
            final(self)@ == (ButtonModel { press_count: 0, ..old(self)@ }),
    {
        self.press_count = 0;
    }

    /// Sets the debounce time, in milliseconds.
    pub fn set_debounce_duration(&mut self, duration: u64)
        ensures
            final(self)@ == (ButtonModel { debounce_duration: duration, ..old(self)@ }),
    {
        self.debounce_duration = duration;
    }

    /// A snapshot at `now`, with the pin's level `gpio_pressed`.
    pub fn status(&self, now: u64, gpio_pressed: bool) -> (r: ButtonStatus)
        ensures
            r == (ButtonStatus {
                is_pressed: self@.last_state,
                press_count: self@.press_count,
                debounce_remaining: if self@.debounce_duration >= since(self@.debounce_timer, now) {
                    (self@.debounce_duration - since(self@.debounce_timer, now)) as u64
                } else {
                    0
                },
                gpio_state: gpio_pressed,
            }),
    {
        ButtonStatus {
            is_pressed: self.last_state,
            press_count: self.press_count,
            debounce_remaining: self.debounce_duration.saturating_sub(
                now.saturating_sub(self.debounce_timer),
            ),
            gpio_state: gpio_pressed,
        }
    }

    /// Whether the button has been held for at least `long_press` ms, given
    /// the pin's level `current` at `now`.
    pub fn detect_long_press(&mut self, current: bool, now: u64, long_press: u64) -> (r: bool)
        requires
            level_counts_press(old(self)@, current, now) ==> old(self)@.press_count < u32::MAX,
        ensures
            final(self)@ == level_step(old(self)@, current, now).0,
            r == (level_step(old(self)@, current, now).1 && since(final(self)@.debounce_timer, now)
                >= long_press),
    {
        if !self.is_pressed(current, now) {
            return false;
        }
        now.saturating_sub(self.debounce_timer) >= long_press
    }

    /// Whether a press completes a double click within `window` ms, given the
    /// pin's level `current` at `now`.
    pub fn detect_double_click(&mut self, current: bool, now: u64, window: u64) -> (r: bool)
        requires
            level_counts_press(old(self)@, current, now) ==> old(self)@.press_count < u32::MAX,
        ensures
            (final(self)@, r) == double_click_step(old(self)@, current, now, window),
    {
        if self.detect_press(current, now) {
            match self.last_click {
                Some(t) => {
                    if now.saturating_sub(t) <= window {
                        self.last_click = None;
                        return true;
                    }
                },
                None => {},
            }
            self.last_click = Some(now);
        }
        false
    }
}

impl ButtonStatus {
    /// `Pressed` or `Released`.
    pub fn as_str(&self) -> (r: &'static str)
        ensures
            r@ == if self.is_pressed {
                "Pressed"@
            } else {
                "Released"@
            },
    {
        if self.is_pressed {
            "Pressed"
        } else {
            "Released"
        }
    }

    /// Whether the debounce time is still running.
    pub fn is_debouncing(&self) -> (r: bool)
        ensures
            r == (self.debounce_remaining > 0),
    {
        self.debounce_remaining > 0
    }
}

/// The press count counts detected presses: a detected press adds exactly
/// one, anything else leaves the count alone.
pub proof fn lemma_press_count_counts_presses(m: ButtonModel, current: bool, now: u64)
    requires
        m.press_count < u32::MAX,
    ensures
        press_step(m, current, now).1 ==> press_step(m, current, now).0.press_count == m.press_count
            + 1,
        !press_step(m, current, now).1 ==> press_step(m, current, now).0.press_count
            == m.press_count,
{
}

/// Within the debounce time the button ignores its pin: no press or release
/// is detected, the level read is the last accepted one, and nothing
/// changes.
pub proof fn lemma_debounce_ignores_pin(m: ButtonModel, current: bool, now: u64)
    requires
        debouncing(m, now),
    ensures
        press_step(m, current, now) == (m, false),
        release_step(m, current, now) == (m, false),
        level_step(m, current, now) == (m, m.last_state),
{
}

/// A press is detected only on a falling-to-pressed edge: the button was
/// last seen up and is now seen down.
pub proof fn lemma_press_is_edge(m: ButtonModel, current: bool, now: u64)
    ensures
        press_step(m, current, now).1 ==> !m.last_state && current && press_step(
            m,
            current,
            now,
        ).0.last_state,
        release_step(m, current, now).1 ==> m.last_state && !current && !release_step(
            m,
            current,
            now,
        ).0.last_state,
{
}

/// Outside the debounce time, detecting a press accepts the pin's level:
/// afterwards the button is seen at `current`, and a press is reported
/// exactly when it went down.
pub proof fn lemma_press_detection_follows_pin(m: ButtonModel, current: bool, now: u64)
    requires
        now >= m.debounce_timer,
        now - m.debounce_timer >= m.debounce_duration,
    ensures
        press_step(m, current, now).0.last_state == current,
        press_step(m, current, now).1 == (current && !m.last_state),
{
}

/// Press, release and press again, each after the debounce time, are two
/// detected presses: the release in between is recorded, so the second
/// press is seen.
pub proof fn lemma_press_release_press(m: ButtonModel, t1: u64, t2: u64, t3: u64)
    requires
        !m.last_state,
        m.press_count + 2 <= u32::MAX,
        t1 >= m.debounce_timer + m.debounce_duration,
        t2 >= t1 + m.debounce_duration,
        t3 >= t2 + m.debounce_duration,
    ensures
        ({
            let (m1, p1) = press_step(m, true, t1);
            let (m2, p2) = press_step(m1, false, t2);
            let (m3, p3) = press_step(m2, true, t3);
            &&& p1 && !p2 && p3
            &&& m3.press_count == m.press_count + 2
        }),
{
}

} // verus!
