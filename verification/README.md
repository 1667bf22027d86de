# weight-sensor-pump-controller

Control software for a liquid-dispensing scale on a Raspberry Pi: an HX711
load cell, a peristaltic pump (or a two-channel PWM motor) and a start/stop
button. A press starts dispensing; the pump stops once the filtered weight
settles at the target; another press stops it early.

## Layout

- `src/` — the verified library (Verus). Every decision is taken here:
  decoding HX711 samples, converting and filtering weights, calibration,
  stability checks, button debouncing, pump and motor run state and
  run-time accounting, PWM safety checks, settings validation and merging,
  the dispensing sequence and error escalation, and the error messages.
  - `models/` — settings, states, readings, the moving-average filter,
    the settings file and the merging of settings sources.
  - `controllers/` — the sensor, pump, motor, button and system logic.
  - `errors.rs`, `text.rs` — error types, their messages, number text.
- `app/` — the program around it: GPIO and PWM access, the clock, sleeps,
  reading `config.toml` and the environment, logging, the control loop.
- `tests/` — tests of the library.

## Units

The library holds no floating-point values. Weights are milligrams, speeds
and duty cycles thousandths of full duty, PWM frequencies millihertz, the
load-cell calibration factor thousandths of a raw count per gram, and times
milliseconds of a monotonic clock supplied by the caller. The program
converts at its edges (the settings file and environment give grams, ratios
and hertz).

## Settings

Settings are taken by priority: the environment at run time, then
`config.toml`, then the settings fixed when the program was built. The
latter are the library's defaults with whatever the build environment gave
(`TARGET_WEIGHT`, `DT_PIN`, `SCK_PIN`, `PWM_FORWARD_PIN`, `PWM_REVERSE_PIN`,
`BUTTON_PIN`, `CALIBRATION_FACTOR`, `MOVING_AVERAGE_WINDOW`, `PWM_FREQUENCY`,
`FORWARD_SPEED`, `REVERSE_SPEED`), read when `app/` is compiled.
