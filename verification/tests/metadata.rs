use oyster::lidar::Profile;
use oyster::metadata::{ImuDataFormat, LidarDataFormat, DEFAULT_COLUMNS_PER_PACKET};
use oyster::types::{ColumnWindow, FullScaleRange, LidarMode};

#[test]
fn lidar_data_format_default_for_512() {
    let format = LidarDataFormat::default_for(LidarMode::Scan512x10);
    assert_eq!(format.profile, Profile::Legacy);
    assert_eq!(format.columns_per_frame, 512);
    assert_eq!(format.columns_per_packet, DEFAULT_COLUMNS_PER_PACKET);
    assert_eq!(format.column_window, ColumnWindow(0, 511));
    assert_eq!(format.pixels_per_column, 64);
    assert_eq!(format.pixel_shift_by_row.len(), 64);
    assert_eq!(&format.pixel_shift_by_row[..8], &[9, 6, 3, 0, 9, 6, 3, 0]);
}

#[test]
fn lidar_data_format_default_for_1024_and_2048() {
    let format = LidarDataFormat::default_for(LidarMode::Scan1024x20);
    assert_eq!(&format.pixel_shift_by_row[..4], &[18, 12, 6, 0]);
    assert_eq!(format.column_window, ColumnWindow(0, 1023));

    let format = LidarDataFormat::default_for(LidarMode::Scan2048x10);
    assert_eq!(&format.pixel_shift_by_row[..4], &[36, 24, 12, 0]);

    // No shift pattern is known for a 4096-column frame.
    let format = LidarDataFormat::default_for(LidarMode::Scan4096x5);
    assert!(format.pixel_shift_by_row.is_empty());
}

#[test]
fn lidar_data_format_sizes() {
    let mut format = LidarDataFormat::default_for(LidarMode::Scan1024x10);
    // The legacy profile's layout.
    assert_eq!(format.max_frame_id(), u32::MAX as usize);
    assert_eq!(format.header_size(), 0);
    assert_eq!(format.footer_size(), 0);
    assert_eq!(format.column_size(), 10);
    assert_eq!(format.column_header_size(), 16);
    assert_eq!(format.column_footer_size(), 4);
    assert_eq!(format.column_status_offset(), 6);

    // The configurable profiles' layout.
    format.profile = Profile::SingleReturns;
    assert_eq!(format.max_frame_id(), u16::MAX as usize);
    assert_eq!(format.header_size(), 32);
    assert_eq!(format.footer_size(), 32);
    assert_eq!(format.column_header_size(), 12);
    assert_eq!(format.column_footer_size(), 0);
    assert_eq!(format.column_status_offset(), 10);
}

#[test]
fn imu_data_format_fields() {
    let format = ImuDataFormat { accel_fsr: FullScaleRange::Normal, gyro_fsr: FullScaleRange::Extended };
    assert_eq!(format.accel_fsr, FullScaleRange::Normal);
    assert_eq!(format.gyro_fsr, FullScaleRange::Extended);
}
