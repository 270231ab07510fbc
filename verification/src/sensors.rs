//! The three sensor lines and what combines them.

pub mod pms5003t;
pub mod s8;
pub mod sensor_manager;
pub mod sgp41;
pub mod task;
pub mod wire;

pub use sensor_manager::{SensorData, SensorManager, SharedSensorData};
pub use task::sensor_task;
