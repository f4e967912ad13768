//! Sensor configuration value types: enumerations and small windows
//! that describe how the sensor is configured.  They are consumed by
//! the metadata layer and referenced by the packet-header codecs.

pub mod azimuth_window;
pub mod baud_rate;
pub mod column_window;
pub mod full_scale_range;
pub mod lidar_mode;
pub mod multipurpose_io_mode;
pub mod nmea_baud_rate;
pub mod operating_mode;
pub mod polarity;
pub mod return_order;
pub mod shot_limiting_status;
pub mod thermal_shutdown_status;
pub mod timestamp_mode;

pub use azimuth_window::AzimuthWindow;
pub use baud_rate::BaudRate;
pub use column_window::ColumnWindow;
pub use full_scale_range::FullScaleRange;
pub use lidar_mode::LidarMode;
pub use multipurpose_io_mode::MultipurposeIoMode;
pub use nmea_baud_rate::NmeaBaudRate;
pub use operating_mode::OperatingMode;
pub use polarity::Polarity;
pub use return_order::ReturnOrder;
pub use shot_limiting_status::ShotLimitingStatus;
pub use thermal_shutdown_status::ThermalShutdownStatus;
pub use timestamp_mode::TimestampMode;
