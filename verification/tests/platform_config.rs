use app_builder::platform_config::{
    empty_platform_config, validate, ImuInstallationId, PlatformConfig, SerialAssignment,
    SerialPort, SerialService, SpiAssignment, SpiPort, SpiService,
};

#[test]
fn duplicate_logical_serial_port_is_rejected() {
    let config = PlatformConfig::new(
        [
            Some(SerialAssignment::new(SerialPort::Serial1, SerialService::RcSbus)),
            Some(SerialAssignment::new(SerialPort::Serial1, SerialService::MspV1Osd)),
        ],
        [None],
    );

    let error = validate(config).unwrap_err();
    assert!(error.contains("assigns serial port `Serial1` more than once"));
}

#[test]
fn duplicate_serial_service_is_rejected() {
    let config = PlatformConfig::new(
        [
            Some(SerialAssignment::new(SerialPort::Serial1, SerialService::MspV1Osd)),
            Some(SerialAssignment::new(SerialPort::Serial2, SerialService::MspV1Osd)),
        ],
        [None],
    );

    let error = validate(config).unwrap_err();
    assert!(error.contains("assigns serial service `MspV1Osd` more than once"));
}

#[test]
fn distinct_assignments_are_valid_and_found_by_service() {
    let config = PlatformConfig::empty()
        .serial1(SerialService::RcSbus)
        .serial2(SerialService::MspV1Osd)
        .spi1(SpiService::Imu(ImuInstallationId::new(1)));
    validate(config).unwrap();
    assert_eq!(config.serial_port(SerialService::RcSbus), Some(SerialPort::Serial1));
    assert_eq!(config.serial_port(SerialService::MspV1Osd), Some(SerialPort::Serial2));
    assert_eq!(
        config.spi_port(SpiService::Imu(ImuInstallationId::new(1))),
        Some(SpiPort::Spi1)
    );
    assert_eq!(config.spi_port(SpiService::Imu(ImuInstallationId::new(2))), None);
    assert_eq!(
        config.spi,
        [Some(SpiAssignment::new(SpiPort::Spi1, SpiService::Imu(ImuInstallationId::new(1))))]
    );
}

#[test]
fn empty_configuration_is_valid() {
    let config = empty_platform_config();
    validate(config).unwrap();
    assert_eq!(config.serial_port(SerialService::RcSbus), None);
}

fn foxeer_platform_config() -> PlatformConfig {
    PlatformConfig::empty()
        .serial1(SerialService::RcSbus)
        .serial2(SerialService::MspV1Osd)
        .spi1(SpiService::Imu(ImuInstallationId::new(1)))
}

#[test]
fn foxeer_boot_assignments_are_valid() {
    validate(foxeer_platform_config()).unwrap();
}
