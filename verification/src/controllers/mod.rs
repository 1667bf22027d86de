pub mod button;
pub mod motor;
pub mod pump;
pub mod system;
pub mod weight_sensor;

pub use button::ButtonController;
pub use motor::MotorController;
pub use pump::PumpController;
pub use system::SystemController;
pub use weight_sensor::WeightSensorController;
