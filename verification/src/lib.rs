//! Decoder library for the binary UDP packet formats of a spinning
//! LIDAR/IMU sensor, together with the ingestion pipeline that routes
//! raw datagrams from live sockets, capture traces and message logs to
//! per-kind bounded queues.

pub mod bag;
pub mod capture;
pub mod frame;
pub mod imu;
pub mod lidar;
pub mod metadata;
pub mod packing;
pub mod pipeline;
pub mod types;
