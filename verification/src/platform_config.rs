//! Boot-time assignment of application services to hardware-neutral connectors.
//!
//! Endpoint declarations establish the physical RTIC interrupt topology. This
//! configuration is loaded during `init` and selects the protocol/service that
//! owns each endpoint's portable handles for that boot.

use vstd::prelude::*;

verus! {

/// Board IMU installation selected by a SPI service.
#[derive(Clone, Copy, Debug, PartialEq, Eq, Structural, PartialOrd, Ord)]
pub struct ImuInstallationId {
    /// Board-local installation number.
    pub id: u8,
}

impl ImuInstallationId {
    /// Names one board IMU installation.
    pub fn new(id: u8) -> (r: Self)
        ensures
            r.id == id,
    {
        ImuInstallationId { id }
    }

    /// Board-local installation number.
    pub fn get(self) -> (r: u8)
        ensures
            r == self.id,
    {
        self.id
    }
}

/// Portable serial service activated on a connector at boot.
#[derive(Clone, Copy, Debug, PartialEq, Eq, Structural, PartialOrd, Ord)]
pub enum SerialService {
    /// SBUS radio-control receiver.
    RcSbus,
    /// MSPv1 DisplayPort OSD.
    MspV1Osd,
}

/// Portable SPI service activated on a connector at boot.
#[derive(Clone, Copy, Debug, PartialEq, Eq, Structural, PartialOrd, Ord)]
pub enum SpiService {
    /// Inertial sensor at one board installation.
    Imu(ImuInstallationId),
}

/// Application-facing serial connector identifier.
#[derive(Clone, Copy, Debug, PartialEq, Eq, Structural, PartialOrd, Ord)]
pub enum SerialPort {
    /// First configurable serial connector.
    Serial1,
    /// Second configurable serial connector.
    Serial2,
}

/// Application-facing SPI connector identifier.
#[derive(Clone, Copy, Debug, PartialEq, Eq, Structural, PartialOrd, Ord)]
pub enum SpiPort {
    /// First configurable SPI connector.
    Spi1,
}

/// Name of a serial connector as written in diagnostics.
pub open spec fn serial_port_name(p: SerialPort) -> Seq<char> {
    match p {
        SerialPort::Serial1 => "Serial1"@,
        SerialPort::Serial2 => "Serial2"@,
    }
}

/// Name of a serial service as written in diagnostics.
pub open spec fn serial_service_name(s: SerialService) -> Seq<char> {
    match s {
        SerialService::RcSbus => "RcSbus"@,
        SerialService::MspV1Osd => "MspV1Osd"@,
    }
}

impl SerialPort {
    /// Diagnostic name of this connector.
    pub fn name(self) -> (r: &'static str)
        ensures
            r@ == serial_port_name(self),
    {
        match self {
            SerialPort::Serial1 => "Serial1",
            SerialPort::Serial2 => "Serial2",
        }
    }
}

impl SerialService {
    /// Diagnostic name of this service.
    pub fn name(self) -> (r: &'static str)
        ensures
            r@ == serial_service_name(self),
    {
        match self {
            SerialService::RcSbus => "RcSbus",
            SerialService::MspV1Osd => "MspV1Osd",
        }
    }
}

/// One boot-time serial service-to-connector assignment.
#[derive(Clone, Copy, Debug, PartialEq, Eq, Structural)]
pub struct SerialAssignment {
    /// Application-facing connector.
    pub port: SerialPort,
    /// Service activated on the connector at boot.
    pub service: SerialService,
}

impl SerialAssignment {
    /// Creates one boot-time serial assignment.
    pub fn new(port: SerialPort, service: SerialService) -> (r: Self)
        ensures
            r.port == port,
            r.service == service,
    {
        SerialAssignment { port, service }
    }
}

/// One boot-time SPI service-to-connector assignment.
#[derive(Clone, Copy, Debug, PartialEq, Eq, Structural)]
pub struct SpiAssignment {
    /// Application-facing connector.
    pub port: SpiPort,
    /// Service activated on the connector at boot.
    pub service: SpiService,
}

impl SpiAssignment {
    /// Creates one boot-time SPI assignment.
    pub fn new(port: SpiPort, service: SpiService) -> (r: Self)
        ensures
            r.port == port,
            r.service == service,
    {
        SpiAssignment { port, service }
    }
}

/// Complete set of service assignments loaded by generated RTIC `init`.
#[derive(Clone, Copy, Debug)]
pub struct PlatformConfig {
    /// Serial connector assignments.
    pub serial: [Option<SerialAssignment>; 2],
    /// SPI connector assignments.
    pub spi: [Option<SpiAssignment>; 1],
}

/// The first serial assignment, in connector-slot order, that carries `service`.
pub open spec fn spec_serial_port(c: PlatformConfig, service: SerialService) -> Option<SerialPort> {
    if carries(c.serial[0], service) {
        Some(c.serial[0]->Some_0.port)
    } else if carries(c.serial[1], service) {
        Some(c.serial[1]->Some_0.port)
    } else {
        None
    }
}

/// A serial slot holds an assignment of `service`.
pub open spec fn carries(slot: Option<SerialAssignment>, service: SerialService) -> bool {
    slot matches Some(a) && a.service == service
}

/// The SPI assignment that carries `service`.
pub open spec fn spec_spi_port(c: PlatformConfig, service: SpiService) -> Option<SpiPort> {
    if c.spi[0] matches Some(a) && a.service == service {
        Some(c.spi[0]->Some_0.port)
    } else {
        None
    }
}

/// Both serial connector slots carry an assignment for the same port.
pub open spec fn repeats_serial_port(c: PlatformConfig) -> bool {
    c.serial[0] matches Some(a) && c.serial[1] matches Some(b) && a.port == b.port
}

/// Both serial connector slots carry the same service.
pub open spec fn repeats_serial_service(c: PlatformConfig) -> bool {
    c.serial[0] matches Some(a) && c.serial[1] matches Some(b) && a.service == b.service
}

impl PlatformConfig {
    /// Creates a platform configuration with every connector unassigned.
    pub fn empty() -> (r: Self)
        ensures
            r.serial[0] is None,
            r.serial[1] is None,
            r.spi[0] is None,
    {
        Self::new([None, None], [None])
    }

    /// Creates a platform configuration without performing hardware access.
    pub fn new(serial: [Option<SerialAssignment>; 2], spi: [Option<SpiAssignment>; 1]) -> (r: Self)
        ensures
            r.serial == serial,
            r.spi == spi,
    {
        PlatformConfig { serial, spi }
    }

    /// Assigns the first serial connector.
    pub fn serial1(self, service: SerialService) -> (r: Self)
        ensures
            r.serial[0] == Some(SerialAssignment { port: SerialPort::Serial1, service }),
            r.serial[1] == self.serial[1],
            r.spi == self.spi,
    {
        let mut next = self;
        next.serial.set(0, Some(SerialAssignment::new(SerialPort::Serial1, service)));
        next
    }

    /// Assigns the second serial connector.
    pub fn serial2(self, service: SerialService) -> (r: Self)
        ensures
            r.serial[0] == self.serial[0],
            r.serial[1] == Some(SerialAssignment { port: SerialPort::Serial2, service }),
            r.spi == self.spi,
    {
        let mut next = self;
        next.serial.set(1, Some(SerialAssignment::new(SerialPort::Serial2, service)));
        next
    }

    /// Assigns the first SPI connector.
    pub fn spi1(self, service: SpiService) -> (r: Self)
        ensures
            r.serial == self.serial,
            r.spi[0] == Some(SpiAssignment { port: SpiPort::Spi1, service }),
    {
        let mut next = self;
        next.spi.set(0, Some(SpiAssignment::new(SpiPort::Spi1, service)));
        next
    }

    /// Returns the logical port carrying a serial service.
    pub fn serial_port(self, service: SerialService) -> (r: Option<SerialPort>)
        ensures
            r == spec_serial_port(self, service),
    {
        let mut i: usize = 0;
        while i < 2
            invariant
                i <= 2,
                forall|j: int| 0 <= j < i ==> !carries(self.serial[j], service),
            decreases 2 - i,
        {
            if let Some(assignment) = self.serial[i] {
                if assignment.service == service {
                    return Some(assignment.port);
                }
            }
            i = i + 1;
        }
        None
    }

    /// Returns the logical port carrying a SPI service.
    pub fn spi_port(self, service: SpiService) -> (r: Option<SpiPort>)
        ensures
            r == spec_spi_port(self, service),
    {
        if let Some(assignment) = self.spi[0] {
            if assignment.service == service {
                return Some(assignment.port);
            }
        }
        None
    }
}

/// Empty configuration used by compositions without configurable endpoints.
pub fn empty_platform_config() -> (r: PlatformConfig)
    ensures
        r.serial[0] is None,
        r.serial[1] is None,
        r.spi[0] is None,
{
    PlatformConfig::empty()
}

/// Diagnostic for a serial connector assigned twice.
pub open spec fn duplicate_port_message(p: SerialPort) -> Seq<char> {
    "platform config assigns serial port `"@ + serial_port_name(p) + "` more than once"@
}

/// Diagnostic for a serial service assigned twice.
pub open spec fn duplicate_service_message(s: SerialService) -> Seq<char> {
    "platform config assigns serial service `"@ + serial_service_name(s) + "` more than once"@
}

/// Validates that each runtime service is assigned to at most one connector
/// and each connector carries at most one service.
///
/// Physical routes are deliberately absent here. Endpoint declarations own
/// those facts; this configuration only wires portable services at boot. The
/// single SPI connector slot cannot repeat a port or a service.
pub fn validate(config: PlatformConfig) -> (r: Result<(), String>)
    ensures
        r is Ok <==> !repeats_serial_port(config) && !repeats_serial_service(config),
        r matches Err(e) ==> (repeats_serial_port(config) && e@ == duplicate_port_message(
            config.serial[1]->Some_0.port,
        )) || (!repeats_serial_port(config) && e@ == duplicate_service_message(
            config.serial[1]->Some_0.service,
        )),
{
    if let (Some(first), Some(second)) = (config.serial[0], config.serial[1]) {
        if first.port == second.port {
            let mut message = String::from_str("platform config assigns serial port `");
            message.append(second.port.name());
            message.append("` more than once");
            return Err(message);
        }
        if first.service == second.service {
            let mut message = String::from_str("platform config assigns serial service `");
            message.append(second.service.name());
            message.append("` more than once");
            return Err(message);
        }
    }
    Ok(())
}

} // verus!
