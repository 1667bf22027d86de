//! Control logic for a liquid-dispensing scale: an HX711 load cell, a
//! peristaltic pump (or a two-channel PWM motor) and a start/stop button.
//!
//! Quantities are fixed-point integers throughout:
//! weights in milligrams, ratios (speeds, duty cycles) in thousandths,
//! frequencies in millihertz, the load-cell calibration factor in
//! thousandths of a raw count per gram, and times and durations in
//! milliseconds of a monotonic clock that the caller supplies.
pub mod controllers;
pub mod errors;
pub mod models;
pub mod text;

pub use controllers::SystemController;
pub use errors::SystemError;
pub use models::{SystemConfig, SystemState, WeightReading};
