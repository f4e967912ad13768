use oyster::types::{
    AzimuthWindow, BaudRate, ColumnWindow, FullScaleRange, LidarMode, MultipurposeIoMode,
    NmeaBaudRate, OperatingMode, Polarity, ReturnOrder, ShotLimitingStatus,
    ThermalShutdownStatus, TimestampMode,
};

#[test]
fn test_baud() {
    let cases = vec![(BaudRate::X9600, 9600), (BaudRate::X115200, 115200)];
    for (rate, want) in cases {
        let got = rate.baud();
        assert_eq!(want, got);
    }
}

#[test]
fn baud_rate_test_display() {
    let cases = vec![(BaudRate::X9600, "9600 baud"), (BaudRate::X115200, "115200 baud")];
    for (rate, want) in cases {
        let got = rate.display_str();
        assert_eq!(want, got);
    }
}

#[test]
fn baud_rate_test_default() {
    let want = BaudRate::X9600;
    let got = BaudRate::default();
    assert_eq!(want, got);
}

#[test]
fn nmea_baud_rate_test_default() {
    assert_eq!(NmeaBaudRate::default(), NmeaBaudRate::Baud9600);
    assert_eq!(NmeaBaudRate::Baud115200.display_str(), "115200 baud");
}

#[test]
fn full_scale_range_test_default() {
    let want = FullScaleRange::Normal;
    let got = FullScaleRange::default();
    assert_eq!(want, got);
}

#[test]
fn full_scale_range_test_display() {
    let cases = vec![(FullScaleRange::Normal, "normal"), (FullScaleRange::Extended, "extended")];
    for (fsr, want) in cases {
        let got = fsr.display_str();
        assert_eq!(want, got);
    }
}

#[test]
fn test_columns() {
    let cases = vec![
        (LidarMode::Scan512x10, 512),
        (LidarMode::Scan512x20, 512),
        (LidarMode::Scan1024x10, 1024),
        (LidarMode::Scan1024x20, 1024),
        (LidarMode::Scan2048x10, 2048),
        (LidarMode::Scan4096x5, 4096),
    ];
    for (mode, want) in cases {
        let got = mode.columns();
        assert_eq!(want, got);
    }
}

#[test]
fn test_frequency() {
    let cases = vec![
        (LidarMode::Scan512x10, 10),
        (LidarMode::Scan512x20, 20),
        (LidarMode::Scan1024x10, 10),
        (LidarMode::Scan1024x20, 20),
        (LidarMode::Scan2048x10, 10),
        (LidarMode::Scan4096x5, 5),
    ];
    for (mode, want) in cases {
        let got = mode.frequency();
        assert_eq!(want, got);
    }
}

#[test]
fn multipurpose_io_mode_test_default() {
    let want = MultipurposeIoMode::Off;
    let got = MultipurposeIoMode::default();
    assert_eq!(want, got);
}

#[test]
fn multipurpose_io_mode_test_display() {
    let cases = vec![
        (MultipurposeIoMode::Off, "off"),
        (MultipurposeIoMode::InputFromNmeaUart, "input from NMEA UART"),
        (MultipurposeIoMode::OutputFromInternalOscillator, "output from internal oscillator"),
        (MultipurposeIoMode::OutputFromSyncPulseIn, "output from SYNC_PULSE_IN"),
        (MultipurposeIoMode::OutputFromPtp1588, "output from IEEE PTP 1588"),
        (MultipurposeIoMode::OutputFromEncoderAngle, "output from encoder angle"),
    ];
    for (mode, want) in cases {
        let got = mode.display_str();
        assert_eq!(want, got);
    }
}

#[test]
fn operating_mode_test_default() {
    let want = OperatingMode::Normal;
    let got = OperatingMode::default();
    assert_eq!(want, got);
}

#[test]
fn operating_mode_test_display() {
    let cases = vec![(OperatingMode::Normal, "normal"), (OperatingMode::Standby, "standby")];
    for (mode, want) in cases {
        let got = mode.display_str();
        assert_eq!(want, got);
    }
}

#[test]
fn polarity_test_default() {
    let want = Polarity::ActiveHigh;
    let got = Polarity::default();
    assert_eq!(want, got);
}

#[test]
fn polarity_test_display() {
    let cases = vec![(Polarity::ActiveHigh, "active high"), (Polarity::ActiveLow, "active low")];
    for (polarity, want) in cases {
        let got = polarity.display_str();
        assert_eq!(want, got);
    }
}

#[test]
fn return_order_test_default() {
    let want = ReturnOrder::StrongestToWeakest;
    let got = ReturnOrder::default();
    assert_eq!(want, got);
}

#[test]
fn return_order_test_display() {
    let cases = vec![
        (ReturnOrder::StrongestToWeakest, "strongest to weakest"),
        (ReturnOrder::NearestToFarthest, "nearest to farthest"),
        (ReturnOrder::FarthestToNearest, "farthest to nearest"),
        (ReturnOrder::StrongestReturnFirst, "strongest return first"),
        (ReturnOrder::LastReturnFirst, "last return first"),
    ];
    for (return_order, want) in cases {
        let got = return_order.display_str();
        assert_eq!(want, got);
    }
}

#[test]
fn shot_limiting_status_test_default() {
    let want = ShotLimitingStatus::Normal;
    let got = ShotLimitingStatus::default();
    assert_eq!(want, got);
}

#[test]
fn thermal_shutdown_status_test_default() {
    let want = ThermalShutdownStatus::Normal;
    let got = ThermalShutdownStatus::default();
    assert_eq!(want, got);
}

#[test]
fn thermal_shutdown_status_test_display() {
    let cases = vec![
        (ThermalShutdownStatus::Normal, "normal"),
        (ThermalShutdownStatus::Imminent, "imminent"),
    ];
    for (status, want) in cases {
        let got = status.display_str();
        assert_eq!(want, got);
    }
}

#[test]
fn timestamp_mode_test_display() {
    let cases = vec![
        (TimestampMode::TimeFromInternalOscillator, "time from internal oscillator"),
        (TimestampMode::TimeFromSyncPulseIn, "time from SYNC_PULSE_IN"),
        (TimestampMode::TimeFromFromPtp1588, "time from PTP-1588"),
    ];
    for (mode, want) in cases {
        let got = mode.display_str();
        assert_eq!(want, got);
    }
}

#[test]
fn azimuth_window_unordered_equality() {
    let w1 = AzimuthWindow(1, 2);
    let w2 = AzimuthWindow(2, 1);
    assert!(w1.eq(&w2));
    assert_eq!(w1.start(), 1);
    assert_eq!(w1.end(), 2);
    assert_eq!(w1.size(), 1);
    assert!(!w1.zero_size());
    assert!(AzimuthWindow(0, 0).zero());
    assert!(w1.valid());
    assert!(!AzimuthWindow(0, 360001).valid());
    assert_eq!(AzimuthWindow::default(), AzimuthWindow(0, 360000));
}

#[test]
fn column_window_defaults() {
    assert_eq!(ColumnWindow::default_for(1024), ColumnWindow(0, 1023));
    assert_eq!(ColumnWindow::default(), ColumnWindow(0, 1023));
}
