//! The settings file and the merging of settings from several sources.
use crate::models::{default_config, SystemConfig};
use vstd::prelude::*;
use vstd::string::*;

verus! {

/// The contents of a settings file.  Weights are in milligrams and the
/// calibration factor in thousandths of a raw count per gram.
#[derive(Debug, Clone, PartialEq, Eq)]
pub struct ConfigFile {
    pub target_weight: Option<i32>,
    pub gpio: Option<GpioConfig>,
    pub sensor: Option<SensorConfig>,
    pub pump: Option<PumpConfig>,
    pub system: Option<SystemSettings>,
}

/// The `[gpio]` section.
#[derive(Debug, Clone, Copy, PartialEq, Eq)]
pub struct GpioConfig {
    pub dt_pin: Option<u8>,
    pub sck_pin: Option<u8>,
    pub pump_pin: Option<u8>,
    pub button_pin: Option<u8>,
}

/// The `[sensor]` section.
#[derive(Debug, Clone, Copy, PartialEq, Eq)]
pub struct SensorConfig {
    pub calibration_factor: Option<i64>,
    pub moving_average_window: Option<usize>,
    pub max_weight: Option<i32>,
}

/// The `[pump]` section; times in seconds.
#[derive(Debug, Clone, Copy, PartialEq, Eq)]
pub struct PumpConfig {
    pub max_runtime: Option<u64>,
    pub safety_timeout: Option<u64>,
}

/// The `[system]` section; intervals in seconds.
#[derive(Debug, Clone, PartialEq, Eq)]
pub struct SystemSettings {
    pub log_level: Option<String>,
    pub stats_interval: Option<u64>,
    pub health_check_interval: Option<u64>,
}

/// The value of an optional setting, or `d` when it is absent.
pub open spec fn or_default<T>(o: Option<T>, d: T) -> T {
    match o {
        Some(v) => v,
        None => d,
    }
}

/// The settings a file gives over `d`: `d`, with the target weight, the
/// four GPIO pins, the calibration factor and the filter window replaced
/// where the file sets them.  The file's maximum weight, pump and system
/// sections do not enter the settings.
pub open spec fn file_config_over(d: SystemConfig, f: ConfigFile) -> SystemConfig {
    let (dt, sck, pump, button) = match f.gpio {
        Some(g) => (
            or_default(g.dt_pin, d.dt_pin),
            or_default(g.sck_pin, d.sck_pin),
            or_default(g.pump_pin, d.pump_pin),
            or_default(g.button_pin, d.button_pin),
        ),
        None => (d.dt_pin, d.sck_pin, d.pump_pin, d.button_pin),
    };
    let (factor, window) = match f.sensor {
        Some(s) => (
            or_default(s.calibration_factor, d.calibration_factor),
            or_default(s.moving_average_window, d.moving_average_window),
        ),
        None => (d.calibration_factor, d.moving_average_window),
    };
    SystemConfig {
        target_weight: or_default(f.target_weight, d.target_weight),
        dt_pin: dt,
        sck_pin: sck,
        pump_pin: pump,
        button_pin: button,
        calibration_factor: factor,
        moving_average_window: window,
        ..d
    }
}

/// The settings a file gives on its own: laid over the defaults.
pub open spec fn file_config(f: ConfigFile) -> SystemConfig {
    file_config_over(default_config(), f)
}

/// Settings given one by one from outside the file (the environment), each
/// already read into its unit; `None` where a setting was not given.
#[derive(Debug, Clone, Copy, PartialEq, Eq)]
pub struct ConfigOverrides {
    pub target_weight: Option<i32>,
    pub dt_pin: Option<u8>,
    pub sck_pin: Option<u8>,
    pub pump_pin: Option<u8>,
    pub pwm_forward_pin: Option<u8>,
    pub pwm_reverse_pin: Option<u8>,
    pub button_pin: Option<u8>,
    pub calibration_factor: Option<i64>,
    pub moving_average_window: Option<usize>,
    pub pwm_frequency: Option<i64>,
    pub forward_speed: Option<i32>,
    pub reverse_speed: Option<i32>,
}

/// No setting given.
pub open spec fn no_overrides() -> ConfigOverrides {
    ConfigOverrides {
        target_weight: None,
        dt_pin: None,
        sck_pin: None,
        pump_pin: None,
        pwm_forward_pin: None,
        pwm_reverse_pin: None,
        button_pin: None,
        calibration_factor: None,
        moving_average_window: None,
        pwm_frequency: None,
        forward_speed: None,
        reverse_speed: None,
    }
}

/// `c` with every setting that `o` gives replaced by it.
pub open spec fn overridden(c: SystemConfig, o: ConfigOverrides) -> SystemConfig {
    SystemConfig {
        target_weight: or_default(o.target_weight, c.target_weight),
        dt_pin: or_default(o.dt_pin, c.dt_pin),
        sck_pin: or_default(o.sck_pin, c.sck_pin),
        pump_pin: or_default(o.pump_pin, c.pump_pin),
        pwm_forward_pin: or_default(o.pwm_forward_pin, c.pwm_forward_pin),
        pwm_reverse_pin: or_default(o.pwm_reverse_pin, c.pwm_reverse_pin),
        button_pin: or_default(o.button_pin, c.button_pin),
        calibration_factor: or_default(o.calibration_factor, c.calibration_factor),
        moving_average_window: or_default(o.moving_average_window, c.moving_average_window),
        pwm_frequency: or_default(o.pwm_frequency, c.pwm_frequency),
        forward_speed: or_default(o.forward_speed, c.forward_speed),
        reverse_speed: or_default(o.reverse_speed, c.reverse_speed),
        ..c
    }
}

/// The settings loaded by priority over the `compiled` ones: those, with
/// what a settings file sets laid over them when a file was read, then the
/// settings given one by one.
pub open spec fn prioritized_over(
    compiled: SystemConfig,
    file: Option<ConfigFile>,
    o: ConfigOverrides,
) -> SystemConfig {
    let base = match file {
        Some(f) => file_config_over(compiled, f),
        None => compiled,
    };
    overridden(base, o)
}

/// The settings loaded by priority over the library's compiled settings,
/// the defaults.
pub open spec fn prioritized_config(file: Option<ConfigFile>, o: ConfigOverrides) -> SystemConfig {
    prioritized_over(default_config(), file, o)
}

fn pick<T>(o: Option<T>, d: T) -> (r: T)
    ensures
        r == or_default(o, d),
{
    match o {
        Some(v) => v,
        None => d,
    }
}

impl ConfigFile {
    /// The settings file that spells out the defaults: 50 g; pins 5, 6, 18
    /// and 2; factor 1.0, window 5, 100 g maximum; 300 s maximum run time
    /// and 5 s safety timeout; log level `info`, statistics every 60 s and
    /// health checks every 30 s.
    pub fn create_default() -> (r: Self)
        ensures
            r.target_weight == Some(50_000i32),
            r.gpio == Some(
                GpioConfig {
                    dt_pin: Some(5u8),
                    sck_pin: Some(6u8),
                    pump_pin: Some(18u8),
                    button_pin: Some(2u8),
                },
            ),
            r.sensor == Some(
                SensorConfig {
                    calibration_factor: Some(1000i64),
                    moving_average_window: Some(5usize),
                    max_weight: Some(100_000i32),
                },
            ),
            r.pump == Some(PumpConfig { max_runtime: Some(300u64), safety_timeout: Some(5u64) }),
            r.system is Some,
            r.system->0.log_level is Some,
            r.system->0.log_level->0@ == "info"@,
            r.system->0.stats_interval == Some(60u64),
            r.system->0.health_check_interval == Some(30u64),
    {
        ConfigFile {
            target_weight: Some(50_000),
            gpio: Some(
                GpioConfig {
                    dt_pin: Some(5),
                    sck_pin: Some(6),
                    pump_pin: Some(18),
                    button_pin: Some(2),
                },
            ),
            sensor: Some(
                SensorConfig {
                    calibration_factor: Some(1000),
                    moving_average_window: Some(5),
                    max_weight: Some(100_000),
                },
            ),
            pump: Some(PumpConfig { max_runtime: Some(300), safety_timeout: Some(5) }),
            system: Some(
                SystemSettings {
                    log_level: Some(String::from_str("info")),
                    stats_interval: Some(60),
                    health_check_interval: Some(30),
                },
            ),
        }
    }
}

impl SystemConfig {
    /// The settings a parsed settings file gives.
    pub fn from_config_file_struct(config_file: ConfigFile) -> (r: Self)
        ensures
            r == file_config(config_file),
    {
        Self::with_file(Self::default(), config_file)
    }

    /// `base` with what a parsed settings file sets laid over it.
    pub fn with_file(base: SystemConfig, config_file: ConfigFile) -> (r: Self)
        ensures
            r == file_config_over(base, config_file),
    {
        let mut config = base;
        config.target_weight = pick(config_file.target_weight, config.target_weight);
        match config_file.gpio {
            Some(gpio) => {
                config.dt_pin = pick(gpio.dt_pin, config.dt_pin);
                config.sck_pin = pick(gpio.sck_pin, config.sck_pin);
                config.pump_pin = pick(gpio.pump_pin, config.pump_pin);
                config.button_pin = pick(gpio.button_pin, config.button_pin);
            },
            None => {},
        }
        match config_file.sensor {
            Some(sensor) => {
                config.calibration_factor = pick(
                    sensor.calibration_factor,
                    config.calibration_factor,
                );
                config.moving_average_window = pick(
                    sensor.moving_average_window,
                    config.moving_average_window,
                );
            },
            None => {},
        }
        config
    }

    /// These settings with every setting that `overrides` gives replaced.
    pub fn apply_overrides(self, overrides: &ConfigOverrides) -> (r: Self)
        ensures
            r == overridden(self, *overrides),
    {
        let mut config = self;
        config.target_weight = pick(overrides.target_weight, config.target_weight);
        config.dt_pin = pick(overrides.dt_pin, config.dt_pin);
        config.sck_pin = pick(overrides.sck_pin, config.sck_pin);
        config.pump_pin = pick(overrides.pump_pin, config.pump_pin);
        config.pwm_forward_pin = pick(overrides.pwm_forward_pin, config.pwm_forward_pin);
        config.pwm_reverse_pin = pick(overrides.pwm_reverse_pin, config.pwm_reverse_pin);
        config.button_pin = pick(overrides.button_pin, config.button_pin);
        config.calibration_factor = pick(overrides.calibration_factor, config.calibration_factor);
        config.moving_average_window = pick(
            overrides.moving_average_window,
            config.moving_average_window,
        );
        config.pwm_frequency = pick(overrides.pwm_frequency, config.pwm_frequency);
        config.forward_speed = pick(overrides.forward_speed, config.forward_speed);
        config.reverse_speed = pick(overrides.reverse_speed, config.reverse_speed);
        config
    }

    /// The settings by priority: those given one by one win over the
    /// settings file's, which win over the compiled ones.  `file` is the
    /// parsed settings file, or `None` when none could be read.
    pub fn load_with_priority_from(file: Option<ConfigFile>, overrides: &ConfigOverrides) -> (r:
        Self)
        ensures
            r == prioritized_config(file, *overrides),
    {
        Self::load_with_priority_over(Self::from_compiled(), file, overrides)
    }

    /// The settings by priority over `compiled`, the settings a build
    /// fixed: those given one by one win over the settings file's, which
    /// win over `compiled`.
    pub fn load_with_priority_over(
        compiled: SystemConfig,
        file: Option<ConfigFile>,
        overrides: &ConfigOverrides,
    ) -> (r: Self)
        ensures
            r == prioritized_over(compiled, file, *overrides),
            r.target_weight == or_default(
                overrides.target_weight,
                match file {
                    Some(f) => or_default(f.target_weight, compiled.target_weight),
                    None => compiled.target_weight,
                },
            ),
            r.calibration_factor == or_default(
                overrides.calibration_factor,
                match file {
                    Some(f) => match f.sensor {
                        Some(sn) => or_default(sn.calibration_factor, compiled.calibration_factor),
                        None => compiled.calibration_factor,
                    },
                    None => compiled.calibration_factor,
                },
            ),
            r.dt_pin == or_default(
                overrides.dt_pin,
                match file {
                    Some(f) => match f.gpio {
                        Some(g) => or_default(g.dt_pin, compiled.dt_pin),
                        None => compiled.dt_pin,
                    },
                    None => compiled.dt_pin,
                },
            ),
            r.pwm_frequency == or_default(overrides.pwm_frequency, compiled.pwm_frequency),
            r.forward_speed == or_default(overrides.forward_speed, compiled.forward_speed),
            r.reverse_speed == or_default(overrides.reverse_speed, compiled.reverse_speed),
            r.pwm_forward_pin == or_default(overrides.pwm_forward_pin, compiled.pwm_forward_pin),
            r.pwm_reverse_pin == or_default(overrides.pwm_reverse_pin, compiled.pwm_reverse_pin),
    {
        let config = match file {
            Some(f) => Self::with_file(compiled, f),
            None => compiled,
        };
        config.apply_overrides(overrides)
    }
}

/// Giving no setting leaves the settings as they were.
pub proof fn lemma_no_overrides_identity(c: SystemConfig)
    ensures
        overridden(c, no_overrides()) == c,
{
}

/// Applying the same settings twice is the same as applying them once.
pub proof fn lemma_overrides_idempotent(c: SystemConfig, o: ConfigOverrides)
    ensures
        overridden(overridden(c, o), o) == overridden(c, o),
{
}

/// A setting given from outside the file wins over the file: whatever the
/// file says, the loaded target weight, pins, factor, window, frequency and
/// speeds are the given ones where they are given.
pub proof fn lemma_overrides_win(file: Option<ConfigFile>, o: ConfigOverrides)
    ensures
        o.target_weight matches Some(v) ==> prioritized_config(file, o).target_weight == v,
        o.dt_pin matches Some(v) ==> prioritized_config(file, o).dt_pin == v,
        o.sck_pin matches Some(v) ==> prioritized_config(file, o).sck_pin == v,
        o.pump_pin matches Some(v) ==> prioritized_config(file, o).pump_pin == v,
        o.button_pin matches Some(v) ==> prioritized_config(file, o).button_pin == v,
        o.calibration_factor matches Some(v) ==> prioritized_config(file, o).calibration_factor
            == v,
        o.moving_average_window matches Some(v) ==> prioritized_config(
            file,
            o,
        ).moving_average_window == v,
        o.pwm_frequency matches Some(v) ==> prioritized_config(file, o).pwm_frequency == v,
        o.forward_speed matches Some(v) ==> prioritized_config(file, o).forward_speed == v,
        o.reverse_speed matches Some(v) ==> prioritized_config(file, o).reverse_speed == v,
{
}

/// A setting the file leaves out keeps the compiled value: with no setting
/// given from outside, each of the file's settings is the file's value when
/// it sets one and the compiled value otherwise, and the settings a file
/// cannot hold are the compiled ones.
pub proof fn lemma_file_falls_back_to_compiled(compiled: SystemConfig, f: ConfigFile)
    ensures
        ({
            let r = prioritized_over(compiled, Some(f), no_overrides());
            &&& r.target_weight == or_default(f.target_weight, compiled.target_weight)
            &&& r.dt_pin == (if f.gpio matches Some(g) && g.dt_pin is Some {
                f.gpio->0.dt_pin->0
            } else {
                compiled.dt_pin
            })
            &&& r.moving_average_window == (if f.sensor matches Some(sn)
                && sn.moving_average_window is Some {
                f.sensor->0.moving_average_window->0
            } else {
                compiled.moving_average_window
            })
            &&& r.pwm_forward_pin == compiled.pwm_forward_pin
            &&& r.pwm_reverse_pin == compiled.pwm_reverse_pin
            &&& r.pwm_frequency == compiled.pwm_frequency
            &&& r.forward_speed == compiled.forward_speed
            &&& r.reverse_speed == compiled.reverse_speed
            &&& r.weight_tolerance == compiled.weight_tolerance
        }),
{
}

} // verus!
