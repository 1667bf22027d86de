use weight_sensor_pump_controller::models::config::{
    ConfigFile, ConfigOverrides, GpioConfig, PumpConfig, SensorConfig, SystemSettings,
};
use weight_sensor_pump_controller::SystemConfig;

fn none() -> ConfigOverrides {
    ConfigOverrides {
        target_weight: None,
        dt_pin: None,
        sck_pin: None,
        pump_pin: None,
        pwm_forward_pin: None,
        pwm_reverse_pin: None,
        button_pin: None,
        calibration_factor: None,
        moving_average_window: None,
        pwm_frequency: None,
        forward_speed: None,
        reverse_speed: None,
    }
}

fn empty_file() -> ConfigFile {
    ConfigFile { target_weight: None, gpio: None, sensor: None, pump: None, system: None }
}

#[test]
fn default_file_spells_out_defaults() {
    let f = ConfigFile::create_default();
    assert_eq!(f.target_weight, Some(50_000));
    assert_eq!(
        f.gpio,
        Some(GpioConfig { dt_pin: Some(5), sck_pin: Some(6), pump_pin: Some(18), button_pin: Some(2) })
    );
    assert_eq!(
        f.sensor,
        Some(SensorConfig {
            calibration_factor: Some(1000),
            moving_average_window: Some(5),
            max_weight: Some(100_000)
        })
    );
    assert_eq!(f.pump, Some(PumpConfig { max_runtime: Some(300), safety_timeout: Some(5) }));
    assert_eq!(
        f.system,
        Some(SystemSettings {
            log_level: Some("info".to_string()),
            stats_interval: Some(60),
            health_check_interval: Some(30)
        })
    );
    assert_eq!(SystemConfig::from_config_file_struct(f), SystemConfig::default());
}

#[test]
fn empty_file_gives_defaults() {
    assert_eq!(SystemConfig::from_config_file_struct(empty_file()), SystemConfig::default());
}

#[test]
fn file_values_replace_defaults() {
    let mut f = empty_file();
    f.target_weight = Some(75_500);
    f.gpio = Some(GpioConfig { dt_pin: Some(7), sck_pin: None, pump_pin: Some(21), button_pin: None });
    f.sensor = Some(SensorConfig {
        calibration_factor: Some(420_000),
        moving_average_window: None,
        max_weight: Some(1),
    });
    let c = SystemConfig::from_config_file_struct(f);
    let d = SystemConfig::default();
    assert_eq!(c.target_weight, 75_500);
    assert_eq!(c.dt_pin, 7);
    assert_eq!(c.sck_pin, d.sck_pin);
    assert_eq!(c.pump_pin, 21);
    assert_eq!(c.button_pin, d.button_pin);
    assert_eq!(c.calibration_factor, 420_000);
    assert_eq!(c.moving_average_window, d.moving_average_window);
    assert_eq!(c.pwm_frequency, d.pwm_frequency);
}

#[test]
fn no_overrides_change_nothing() {
    let c = SystemConfig::default();
    assert_eq!(c.clone().apply_overrides(&none()), c);
}

#[test]
fn target_weight_override_wins() {
    // as loading with TARGET_WEIGHT=75.5 in the environment
    let mut o = none();
    let base = SystemConfig::load_with_priority_from(None, &o);
    assert!(base.validate().is_ok());
    o.target_weight = Some(75_500);
    let c = SystemConfig::load_with_priority_from(None, &o);
    assert_eq!(c.target_weight, 75_500);
}

#[test]
fn pwm_and_speed_overrides_win() {
    // as loading with PWM_FREQUENCY=2000.0, FORWARD_SPEED=0.9, REVERSE_SPEED=0.7,
    // PWM_FORWARD_PIN=12 and PWM_REVERSE_PIN=13 in the environment
    let mut o = none();
    o.pwm_frequency = Some(2_000_000);
    let c = SystemConfig::load_with_priority_from(None, &o);
    assert_eq!(c.pwm_frequency, 2_000_000);

    let mut o = none();
    o.forward_speed = Some(900);
    o.reverse_speed = Some(700);
    let c = SystemConfig::load_with_priority_from(None, &o);
    assert_eq!(c.forward_speed, 900);
    assert_eq!(c.reverse_speed, 700);

    let mut o = none();
    o.pwm_forward_pin = Some(12);
    o.pwm_reverse_pin = Some(13);
    let c = SystemConfig::load_with_priority_from(None, &o);
    assert_eq!(c.pwm_forward_pin, 12);
    assert_eq!(c.pwm_reverse_pin, 13);
}

#[test]
fn environment_wins_over_file() {
    let mut f = empty_file();
    f.target_weight = Some(20_000);
    f.gpio = Some(GpioConfig { dt_pin: Some(7), sck_pin: None, pump_pin: None, button_pin: None });
    let mut o = none();
    o.target_weight = Some(30_000);
    let c = SystemConfig::load_with_priority_from(Some(f), &o);
    assert_eq!(c.target_weight, 30_000);
    assert_eq!(c.dt_pin, 7);
}

#[test]
fn build_settings_yield_to_file_and_environment() {
    // settings fixed at build time: a 40 g target
    let mut compiled = SystemConfig::default();
    compiled.target_weight = 40_000;
    let c = SystemConfig::load_with_priority_over(compiled.clone(), None, &none());
    assert_eq!(c.target_weight, 40_000);
    // a settings file replaces them
    let mut f = empty_file();
    f.target_weight = Some(20_000);
    let c = SystemConfig::load_with_priority_over(compiled.clone(), Some(f), &none());
    assert_eq!(c.target_weight, 20_000);
    // and a setting from the environment wins over both
    let mut o = none();
    o.target_weight = Some(30_000);
    let c = SystemConfig::load_with_priority_over(compiled, None, &o);
    assert_eq!(c.target_weight, 30_000);
}

#[test]
fn file_leaves_unset_settings_to_the_compiled_ones() {
    // compiled with a 60 g target and DT on GPIO 7; the file sets only SCK
    let mut compiled = SystemConfig::default();
    compiled.target_weight = 60_000;
    compiled.dt_pin = 7;
    let mut f = empty_file();
    f.gpio = Some(GpioConfig { dt_pin: None, sck_pin: Some(9), pump_pin: None, button_pin: None });
    let c = SystemConfig::load_with_priority_over(compiled.clone(), Some(f.clone()), &none());
    assert_eq!(c.target_weight, 60_000);
    assert_eq!(c.dt_pin, 7);
    assert_eq!(c.sck_pin, 9);
    // the file on its own builds on the defaults
    let alone = SystemConfig::from_config_file_struct(f);
    assert_eq!(alone.target_weight, 50_000);
    assert_eq!(alone.dt_pin, 5);
    assert_eq!(alone.sck_pin, 9);
}
