//! Commands on the sensor data repository and on sensors.

pub mod alloc_info;
pub mod device_sdr;
pub mod reading;
pub mod repository;
pub mod reserve_repository;

pub use alloc_info::{AllocInfo, GetAllocInfo};
pub use device_sdr::{GetDeviceSdrCommand, RecordInfo};
pub use reading::{GetSensorReading, RawSensorReading, ThresholdReading, ThresholdStatus};
pub use repository::{GetSDRRepositoryInfo, SDRRepositoryInfo};
pub use reserve_repository::{ReserveSDRRepository, ReserveSDRRepositoryCommand};
