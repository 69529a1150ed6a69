//! Initialization statements of the boot-routed serial services and of the
//! SPI IMU endpoint.

use vstd::prelude::*;

use crate::board::{board_timer, BoardDeclaration, TimerPeripheral};
use crate::imu_endpoint::ImuEndpointResourceRole;
use crate::initialization::missing_timer_error;
use crate::lower::{
    ascii_upper, imu_role_name, supported_imu_pins, supported_spi_route, timer_peripheral,
    to_ascii_uppercase, validate_supported_imu_endpoint,
};
use crate::platform_config::{spec_serial_port, PlatformConfig, SerialService};
use crate::resolve::{imu_role_index_from, ResolvedImuEndpoint};
use crate::resource_lowering::{
    guard_line, imu_wiring_error, section_guard_line, timer_debug_name, timer_debug_str,
};
use crate::serial_endpoint::ResolvedSerialEndpoint;
use crate::text::{concat3, decimal, push_decimal, str_eq};
use crate::timing::InitDelayDeclaration;

verus! {

// ---------------------------------------------------------------------------
// Boot-time serial service routing
// ---------------------------------------------------------------------------

/// Statements, after the section comment, that hand the readers and writer
/// of the two serial endpoints to the RC SBUS and MSP OSD services in the
/// order the boot platform configuration assigns them.
pub const SERIAL_ROUTING: &'static str = "\nlet (\n    rc_sbus_reader,\n    rc_sbus_rx_discontinuities,\n    msp_v1_osd_reader,\n    msp_v1_osd_rx_discontinuities,\n    msp_v1_osd_writer,\n) =\n    match (platform_config.serial1, platform_config.serial2) {\n        (Some(SerialService::RcSbus), Some(SerialService::MspV1Osd)) =>\n            (\n                serial1_rx_reader,\n                serial1_rx_discontinuities,\n                serial2_rx_reader,\n                serial2_rx_discontinuities,\n                serial2_tx_writer,\n            ),\n        (Some(SerialService::MspV1Osd), Some(SerialService::RcSbus)) =>\n            (\n                serial2_rx_reader,\n                serial2_rx_discontinuities,\n                serial1_rx_reader,\n                serial1_rx_discontinuities,\n                serial1_tx_writer,\n            ),\n        _ => panic!(\"boot platform config must assign RcSbus and MspV1Osd to distinct serial endpoints\"),\n    };";

/// Some serial endpoint has the identifier `id`.
pub open spec fn has_endpoint_id(es: Seq<ResolvedSerialEndpoint>, id: Seq<char>) -> bool {
    exists|i: int| 0 <= i < es.len() && #[trigger] es[i].declaration.id@ == id
}

/// The routing statements, available only when endpoints `serial1` and
/// `serial2` exist and the configuration assigns both RC SBUS and MSP OSD.
pub open spec fn serial_routing(es: Seq<ResolvedSerialEndpoint>, config: PlatformConfig) -> Result<
    Seq<char>,
    Seq<char>,
> {
    if has_endpoint_id(es, "serial1"@) && has_endpoint_id(es, "serial2"@) && spec_serial_port(
        config,
        SerialService::RcSbus,
    ) is Some && spec_serial_port(config, SerialService::MspV1Osd) is Some {
        Ok(guard_line("Boot-time serial service routing"@) + SERIAL_ROUTING@)
    } else {
        Err("the current runtime serial router requires serial1, serial2, RcSbus, and MspV1Osd"@)
    }
}

fn has_endpoint_id_exec(endpoints: &Vec<ResolvedSerialEndpoint>, id: &str) -> (r: bool)
    ensures
        r == has_endpoint_id(endpoints@, id@),
{
    let mut i: usize = 0;
    while i < endpoints.len()
        invariant
            i <= endpoints.len(),
            forall|k: int| 0 <= k < i ==> #[trigger] endpoints@[k].declaration.id@ != id@,
        decreases endpoints.len() - i,
    {
        if str_eq(endpoints[i].declaration.id, id) {
            return true;
        }
        i += 1;
    }
    false
}

/// Renders the boot-time routing of the serial endpoints to the RC SBUS and
/// MSP OSD services.
pub fn render_serial_service_routing(
    endpoints: &Vec<ResolvedSerialEndpoint>,
    platform: PlatformConfig,
) -> (r: Result<String, String>)
    ensures
        match (r, serial_routing(endpoints@, platform)) {
            (Ok(s), Ok(t)) => s@ == t,
            (Err(e), Err(t)) => e@ == t,
            _ => false,
        },
{
    let has_serial1 = has_endpoint_id_exec(endpoints, "serial1");
    let has_serial2 = has_endpoint_id_exec(endpoints, "serial2");
    let has_sbus = platform.serial_port(SerialService::RcSbus).is_some();
    let has_msp = platform.serial_port(SerialService::MspV1Osd).is_some();
    if !(has_serial1 && has_serial2 && has_sbus && has_msp) {
        return Err(
            String::from_str(
                "the current runtime serial router requires serial1, serial2, RcSbus, and MspV1Osd",
            ),
        );
    }
    let mut out = section_guard_line("Boot-time serial service routing");
    out.append(SERIAL_ROUTING);
    Ok(out)
}

// ---------------------------------------------------------------------------
// SPI IMU endpoint
// ---------------------------------------------------------------------------

/// The endpoint has a resource with the role.
pub open spec fn has_imu_role(e: ResolvedImuEndpoint, role: ImuEndpointResourceRole) -> bool {
    imu_role_index_from(e.resources@, role, 0) is Some
}

/// Identifier of the first endpoint resource with the role.
pub open spec fn imu_role_id(e: ResolvedImuEndpoint, role: ImuEndpointResourceRole) -> Seq<char> {
    e.resources@[imu_role_index_from(e.resources@, role, 0)->Some_0].id@
}

/// The first role, in the order initialization looks them up, that the
/// endpoint has no resource for.
pub open spec fn first_missing_imu_role(e: ResolvedImuEndpoint) -> Option<ImuEndpointResourceRole> {
    if !has_imu_role(e, ImuEndpointResourceRole::Buffers) {
        Some(ImuEndpointResourceRole::Buffers)
    } else if !has_imu_role(e, ImuEndpointResourceRole::FreeQueue) {
        Some(ImuEndpointResourceRole::FreeQueue)
    } else if !has_imu_role(e, ImuEndpointResourceRole::FilledQueue) {
        Some(ImuEndpointResourceRole::FilledQueue)
    } else if !has_imu_role(e, ImuEndpointResourceRole::Owner) {
        Some(ImuEndpointResourceRole::Owner)
    } else if !has_imu_role(e, ImuEndpointResourceRole::Parser) {
        Some(ImuEndpointResourceRole::Parser)
    } else if !has_imu_role(e, ImuEndpointResourceRole::Device) {
        Some(ImuEndpointResourceRole::Device)
    } else if !has_imu_role(e, ImuEndpointResourceRole::DataReady) {
        Some(ImuEndpointResourceRole::DataReady)
    } else if !has_imu_role(e, ImuEndpointResourceRole::Kind) {
        Some(ImuEndpointResourceRole::Kind)
    } else if !has_imu_role(e, ImuEndpointResourceRole::Sample) {
        Some(ImuEndpointResourceRole::Sample)
    } else if !has_imu_role(e, ImuEndpointResourceRole::UnavailableLogged) {
        Some(ImuEndpointResourceRole::UnavailableLogged)
    } else {
        None
    }
}

/// Diagnostic for an endpoint without a resource of the role.
pub open spec fn missing_imu_role_error(e: ResolvedImuEndpoint, role: ImuEndpointResourceRole) -> Seq<
    char,
> {
    "IMU endpoint `"@ + e.declaration.id@ + "` has no "@ + imu_role_name(role) + " resource"@
}

/// Check that the boot configuration selected the IMU installation this
/// endpoint initializes.
pub open spec fn imu_service_selection(e: ResolvedImuEndpoint) -> Seq<char> {
    let n = decimal(e.hardware.id.id as nat);
    "match platform_config.spi1 {\n    Some(SpiService::Imu(id)) if id == ImuInstallationId::new("@ + n
        + ") => {},\n    Some(SpiService::Imu(id)) => panic!(\"boot platform config selected IMU installation {} but spi1 initialized installation "@
        + n
        + "\", id.get()),\n    None => panic!(\"boot platform config must assign spi1\"),\n}"@
}

/// Statements that bring up SPI1, probe the IMU, and build the endpoint's
/// owner, parser, device, data-ready input, sample, and flags.  The
/// data-ready input is PC4.
pub open spec fn imu_init_body(e: ResolvedImuEndpoint) -> Seq<char> {
    imu_init_part1(e) + imu_init_part2(e) + imu_init_part3(e) + imu_init_part4(e)
        + imu_init_part5(e) + imu_init_part6(e) + imu_init_part7(e) + imu_init_part8(e)
}

fn role_id<'a>(endpoint: &'a ResolvedImuEndpoint, role: ImuEndpointResourceRole) -> (r: &'a str)
    requires
        has_imu_role(*endpoint, role),
    ensures
        r@ == imu_role_id(*endpoint, role),
{
    match endpoint.resource_id(role) {
        Ok(id) => id,
        Err(_) => "",
    }
}

/// Part 1 of the IMU endpoint initialization statements.
pub open spec fn imu_init_part1(e: ResolvedImuEndpoint) -> Seq<char> {
    let id = e.declaration.id@;
    "let mut "@ + id + "_cs = spi_dma::init_spi1_imu_cs(gpioa.pa4);\nlet "@ + id + "_mode = spi::Mode {\n    polarity: spi::Polarity::IdleHigh,\n    phase: spi::Phase::CaptureOnSecondTransition,\n};\nlet mut "@ + id + "_bus = spi_dma::init_spi1_bus(\n    cx.device.SPI1,\n    gpioa.pa5,\n    gpioa.pa6,\n    gpioa.pa7,\n    "@ + id + "_mode,\n    1_000_000,\n    &mut rcc,\n);\nembedded_hal::delay::DelayNs::delay_ms(&mut init_delay, 10);\nlet "@ + imu_role_id(e, ImuEndpointResourceRole::Kind)
}

fn push_imu_init_part1(out: &mut String, endpoint: &ResolvedImuEndpoint)
    requires
        first_missing_imu_role(*endpoint) is None,
    ensures
        final(out)@ == old(out)@ + imu_init_part1(*endpoint),
{
    let id = endpoint.declaration.id;
    let kind = role_id(endpoint, ImuEndpointResourceRole::Kind);
    out.append("let mut ");
    out.append(id);
    out.append("_cs = spi_dma::init_spi1_imu_cs(gpioa.pa4);\nlet ");
    out.append(id);
    out.append("_mode = spi::Mode {\n    polarity: spi::Polarity::IdleHigh,\n    phase: spi::Phase::CaptureOnSecondTransition,\n};\nlet mut ");
    out.append(id);
    out.append("_bus = spi_dma::init_spi1_bus(\n    cx.device.SPI1,\n    gpioa.pa5,\n    gpioa.pa6,\n    gpioa.pa7,\n    ");
    out.append(id);
    out.append("_mode,\n    1_000_000,\n    &mut rcc,\n);\nembedded_hal::delay::DelayNs::delay_ms(&mut init_delay, 10);\nlet ");
    out.append(kind);
    proof {
        assert(out@ =~= old(out)@ + imu_init_part1(*endpoint));
    }
}

/// Part 2 of the IMU endpoint initialization statements.
pub open spec fn imu_init_part2(e: ResolvedImuEndpoint) -> Seq<char> {
    let id = e.declaration.id@;
    " = match ferrowasp_drivers::icm42688p::read_who_am_i(\n    &mut "@ + id + "_bus,\n    &mut "@ + id + "_cs,\n) {\n    Ok(ferrowasp_drivers::mpu6500::WHO_AM_I_EXPECTED)\n        if ferrowasp_drivers::mpu6500::init(\n            &mut "@ + id + "_bus,\n            &mut "@ + id + "_cs,\n            &mut init_delay,\n        ).is_ok() => IMU_KIND_MPU6500,\n    Ok(ferrowasp_drivers::icm42688p::WHO_AM_I_EXPECTED)\n        if ferrowasp_drivers::icm42688p::init(\n            &mut "@ + id
}

fn push_imu_init_part2(out: &mut String, endpoint: &ResolvedImuEndpoint)
    requires
        first_missing_imu_role(*endpoint) is None,
    ensures
        final(out)@ == old(out)@ + imu_init_part2(*endpoint),
{
    let id = endpoint.declaration.id;
    out.append(" = match ferrowasp_drivers::icm42688p::read_who_am_i(\n    &mut ");
    out.append(id);
    out.append("_bus,\n    &mut ");
    out.append(id);
    out.append("_cs,\n) {\n    Ok(ferrowasp_drivers::mpu6500::WHO_AM_I_EXPECTED)\n        if ferrowasp_drivers::mpu6500::init(\n            &mut ");
    out.append(id);
    out.append("_bus,\n            &mut ");
    out.append(id);
    out.append("_cs,\n            &mut init_delay,\n        ).is_ok() => IMU_KIND_MPU6500,\n    Ok(ferrowasp_drivers::icm42688p::WHO_AM_I_EXPECTED)\n        if ferrowasp_drivers::icm42688p::init(\n            &mut ");
    out.append(id);
    proof {
        assert(out@ =~= old(out)@ + imu_init_part2(*endpoint));
    }
}

/// Part 3 of the IMU endpoint initialization statements.
pub open spec fn imu_init_part3(e: ResolvedImuEndpoint) -> Seq<char> {
    let id = e.declaration.id@;
    "_bus,\n            &mut "@ + id + "_cs,\n            &mut init_delay,\n        ).is_ok() => IMU_KIND_ICM42688P,\n    Ok(identity) => {\n        defmt::warn!(\"unsupported SPI1 IMU identity: {=u8:02x}\", identity);\n        IMU_KIND_NONE\n    }\n    Err(_) => {\n        defmt::warn!(\"SPI1 IMU probe failed\");\n        IMU_KIND_NONE\n    }\n};\nlet "@ + id + "_dma = spi_dma::init_spi_dma::<_, _, _, 3, 3>(\n    "@ + id + "_bus,\n    dma2.0,\n    dma2.3,\n    SpiDmaStorageResources {\n        buffers: cx.local."@ + imu_role_id(e, ImuEndpointResourceRole::Buffers) + ",\n        free_queue: cx.local."@ + imu_role_id(e, ImuEndpointResourceRole::FreeQueue)
}

fn push_imu_init_part3(out: &mut String, endpoint: &ResolvedImuEndpoint)
    requires
        first_missing_imu_role(*endpoint) is None,
    ensures
        final(out)@ == old(out)@ + imu_init_part3(*endpoint),
{
    let id = endpoint.declaration.id;
    let buffers = role_id(endpoint, ImuEndpointResourceRole::Buffers);
    let free_queue = role_id(endpoint, ImuEndpointResourceRole::FreeQueue);
    out.append("_bus,\n            &mut ");
    out.append(id);
    out.append("_cs,\n            &mut init_delay,\n        ).is_ok() => IMU_KIND_ICM42688P,\n    Ok(identity) => {\n        defmt::warn!(\"unsupported SPI1 IMU identity: {=u8:02x}\", identity);\n        IMU_KIND_NONE\n    }\n    Err(_) => {\n        defmt::warn!(\"SPI1 IMU probe failed\");\n        IMU_KIND_NONE\n    }\n};\nlet ");
    out.append(id);
    out.append("_dma = spi_dma::init_spi_dma::<_, _, _, 3, 3>(\n    ");
    out.append(id);
    out.append("_bus,\n    dma2.0,\n    dma2.3,\n    SpiDmaStorageResources {\n        buffers: cx.local.");
    out.append(buffers);
    out.append(",\n        free_queue: cx.local.");
    out.append(free_queue);
    proof {
        assert(out@ =~= old(out)@ + imu_init_part3(*endpoint));
    }
}

/// Part 4 of the IMU endpoint initialization statements.
pub open spec fn imu_init_part4(e: ResolvedImuEndpoint) -> Seq<char> {
    let id = e.declaration.id@;
    ",\n        filled_queue: cx.local."@ + imu_role_id(e, ImuEndpointResourceRole::FilledQueue) + ",\n    }.into_backend(),\n);\nlet spi_dma::SpiDmaParts {\n    irq: "@ + id + "_irq,\n    poller: "@ + id + "_poller,\n    parser: "@ + id + "_parser_side,\n    recovery_rx_buffer: "@ + id
}

fn push_imu_init_part4(out: &mut String, endpoint: &ResolvedImuEndpoint)
    requires
        first_missing_imu_role(*endpoint) is None,
    ensures
        final(out)@ == old(out)@ + imu_init_part4(*endpoint),
{
    let id = endpoint.declaration.id;
    let filled_queue = role_id(endpoint, ImuEndpointResourceRole::FilledQueue);
    out.append(",\n        filled_queue: cx.local.");
    out.append(filled_queue);
    out.append(",\n    }.into_backend(),\n);\nlet spi_dma::SpiDmaParts {\n    irq: ");
    out.append(id);
    out.append("_irq,\n    poller: ");
    out.append(id);
    out.append("_poller,\n    parser: ");
    out.append(id);
    out.append("_parser_side,\n    recovery_rx_buffer: ");
    out.append(id);
    proof {
        assert(out@ =~= old(out)@ + imu_init_part4(*endpoint));
    }
}

/// Part 5 of the IMU endpoint initialization statements.
pub open spec fn imu_init_part5(e: ResolvedImuEndpoint) -> Seq<char> {
    let id = e.declaration.id@;
    "_recovery_rx_buffer,\n} = "@ + id + "_dma;\nlet "@ + imu_role_id(e, ImuEndpointResourceRole::Owner) + " = Spi1ImuEndpointOwner::new(\n    spi_dma::SpiDmaOwner::new(\n        "@ + id + "_irq,\n        "@ + id + "_poller,\n        "@ + id
}

fn push_imu_init_part5(out: &mut String, endpoint: &ResolvedImuEndpoint)
    requires
        first_missing_imu_role(*endpoint) is None,
    ensures
        final(out)@ == old(out)@ + imu_init_part5(*endpoint),
{
    let id = endpoint.declaration.id;
    let owner = role_id(endpoint, ImuEndpointResourceRole::Owner);
    out.append("_recovery_rx_buffer,\n} = ");
    out.append(id);
    out.append("_dma;\nlet ");
    out.append(owner);
    out.append(" = Spi1ImuEndpointOwner::new(\n    spi_dma::SpiDmaOwner::new(\n        ");
    out.append(id);
    out.append("_irq,\n        ");
    out.append(id);
    out.append("_poller,\n        ");
    out.append(id);
    proof {
        assert(out@ =~= old(out)@ + imu_init_part5(*endpoint));
    }
}

/// Part 6 of the IMU endpoint initialization statements.
pub open spec fn imu_init_part6(e: ResolvedImuEndpoint) -> Seq<char> {
    let id = e.declaration.id@;
    "_recovery_rx_buffer,\n        "@ + id + "_cs,\n    ),\n    &"@ + ascii_upper(id) + "_MAILBOX"@ + ",\n);\nlet "@ + imu_role_id(e, ImuEndpointResourceRole::Parser) + " = Spi1ImuParser::new("@ + id + "_parser_side);\nlet "@
}

fn push_imu_init_part6(out: &mut String, endpoint: &ResolvedImuEndpoint)
    requires
        first_missing_imu_role(*endpoint) is None,
    ensures
        final(out)@ == old(out)@ + imu_init_part6(*endpoint),
{
    let id = endpoint.declaration.id;
    let parser = role_id(endpoint, ImuEndpointResourceRole::Parser);
    let upper = to_ascii_uppercase(id);
    out.append("_recovery_rx_buffer,\n        ");
    out.append(id);
    out.append("_cs,\n    ),\n    &");
    out.append(upper.as_str());
    out.append("_MAILBOX");
    out.append(",\n);\nlet ");
    out.append(parser);
    out.append(" = Spi1ImuParser::new(");
    out.append(id);
    out.append("_parser_side);\nlet ");
    proof {
        assert(out@ =~= old(out)@ + imu_init_part6(*endpoint));
    }
}

/// Part 7 of the IMU endpoint initialization statements.
pub open spec fn imu_init_part7(e: ResolvedImuEndpoint) -> Seq<char> {
    let id = e.declaration.id@;
    imu_role_id(e, ImuEndpointResourceRole::DataReady) + " = ferrowasp_stm32f4::exti::init_input(\n    gpioc.pc4,\n    &mut syscfg,\n    &mut exti,\n    Edge::Rising,\n);\nlet "@ + imu_role_id(e, ImuEndpointResourceRole::Device) + " = Spi1ImuDevice::new(\n    &"@ + ascii_upper(id) + "_MAILBOX"@ + ",\n    || { let _ = "@ + id + "_owner_service"@ + "::spawn(); },\n);\nlet "@
}

fn push_imu_init_part7(out: &mut String, endpoint: &ResolvedImuEndpoint)
    requires
        first_missing_imu_role(*endpoint) is None,
    ensures
        final(out)@ == old(out)@ + imu_init_part7(*endpoint),
{
    let id = endpoint.declaration.id;
    let device = role_id(endpoint, ImuEndpointResourceRole::Device);
    let data_ready = role_id(endpoint, ImuEndpointResourceRole::DataReady);
    let upper = to_ascii_uppercase(id);
    out.append(data_ready);
    out.append(" = ferrowasp_stm32f4::exti::init_input(\n    gpioc.pc4,\n    &mut syscfg,\n    &mut exti,\n    Edge::Rising,\n);\nlet ");
    out.append(device);
    out.append(" = Spi1ImuDevice::new(\n    &");
    out.append(upper.as_str());
    out.append("_MAILBOX");
    out.append(",\n    || { let _ = ");
    out.append(id);
    out.append("_owner_service");
    out.append("::spawn(); },\n);\nlet ");
    proof {
        assert(out@ =~= old(out)@ + imu_init_part7(*endpoint));
    }
}

/// Part 8 of the IMU endpoint initialization statements.
pub open spec fn imu_init_part8(e: ResolvedImuEndpoint) -> Seq<char> {
    let id = e.declaration.id@;
    imu_role_id(e, ImuEndpointResourceRole::Sample) + " = ImuData::default();\nlet "@ + imu_role_id(e, ImuEndpointResourceRole::UnavailableLogged) + " = false;"@
}

fn push_imu_init_part8(out: &mut String, endpoint: &ResolvedImuEndpoint)
    requires
        first_missing_imu_role(*endpoint) is None,
    ensures
        final(out)@ == old(out)@ + imu_init_part8(*endpoint),
{
    let id = endpoint.declaration.id;
    let sample = role_id(endpoint, ImuEndpointResourceRole::Sample);
    let unavailable_logged = role_id(endpoint, ImuEndpointResourceRole::UnavailableLogged);
    out.append(sample);
    out.append(" = ImuData::default();\nlet ");
    out.append(unavailable_logged);
    out.append(" = false;");
    proof {
        assert(out@ =~= old(out)@ + imu_init_part8(*endpoint));
    }
}

/// Initialization statements of the SPI IMU endpoint, or the first
/// diagnostic: unsupported wiring, no TIM5 initialization delay, or a
/// missing resource role.
pub open spec fn imu_initialization(
    board: BoardDeclaration,
    init_delay: Option<InitDelayDeclaration>,
    e: ResolvedImuEndpoint,
) -> Result<Seq<char>, Seq<char>> {
    if !(supported_spi_route(e) && supported_imu_pins(e)) {
        Err(imu_wiring_error(e))
    } else {
        match init_delay {
            None => Err("SPI IMU initialization requires a general initialization delay timer"@),
            Some(d) => match board_timer(board, d.hardware_id@) {
                None => Err(missing_timer_error(d.hardware_id@)),
                Some(t) => if t.peripheral != TimerPeripheral::Tim5 {
                    Err(
                        "the STM32F4 renderer does not support "@ + timer_debug_name(t.peripheral)
                            + " as the initialization delay"@,
                    )
                } else {
                    match first_missing_imu_role(e) {
                        Some(role) => Err(missing_imu_role_error(e, role)),
                        None => Ok(imu_service_selection(e) + "\n"@ + imu_init_body(e)),
                    }
                },
            },
        }
    }
}

/// Renders the initialization of the SPI IMU endpoint: the boot selection
/// check, SPI1 bring-up with the IMU probe on the TIM5 initialization
/// delay, and the endpoint's resources.
pub fn render_imu_endpoint_initialization(
    board: &BoardDeclaration,
    init_delay: Option<InitDelayDeclaration>,
    endpoint: &ResolvedImuEndpoint,
) -> (r: Result<String, String>)
    ensures
        match (r, imu_initialization(*board, init_delay, *endpoint)) {
            (Ok(s), Ok(t)) => s@ == t,
            (Err(e), Err(t)) => e@ == t,
            _ => false,
        },
{
    validate_supported_imu_endpoint(endpoint)?;
    let delay = match init_delay {
        Some(d) => d,
        None => {
            return Err(
                String::from_str("SPI IMU initialization requires a general initialization delay timer"),
            );
        },
    };
    match timer_peripheral(board, delay.hardware_id)? {
        TimerPeripheral::Tim5 => {},
        unsupported => {
            return Err(
                concat3(
                    "the STM32F4 renderer does not support ",
                    timer_debug_str(unsupported),
                    " as the initialization delay",
                ),
            );
        },
    }
    endpoint.resource_id(ImuEndpointResourceRole::Buffers)?;
    endpoint.resource_id(ImuEndpointResourceRole::FreeQueue)?;
    endpoint.resource_id(ImuEndpointResourceRole::FilledQueue)?;
    endpoint.resource_id(ImuEndpointResourceRole::Owner)?;
    endpoint.resource_id(ImuEndpointResourceRole::Parser)?;
    endpoint.resource_id(ImuEndpointResourceRole::Device)?;
    endpoint.resource_id(ImuEndpointResourceRole::DataReady)?;
    endpoint.resource_id(ImuEndpointResourceRole::Kind)?;
    endpoint.resource_id(ImuEndpointResourceRole::Sample)?;
    endpoint.resource_id(ImuEndpointResourceRole::UnavailableLogged)?;
    let installation = endpoint.hardware.id.get();
    let mut out = String::from_str(
        "match platform_config.spi1 {\n    Some(SpiService::Imu(id)) if id == ImuInstallationId::new(",
    );
    push_decimal(&mut out, installation as u32);
    out.append(
        ") => {},\n    Some(SpiService::Imu(id)) => panic!(\"boot platform config selected IMU installation {} but spi1 initialized installation ",
    );
    push_decimal(&mut out, installation as u32);
    out.append("\", id.get()),\n    None => panic!(\"boot platform config must assign spi1\"),\n}");
    out.append("\n");
    push_imu_init_part1(&mut out, endpoint);
    push_imu_init_part2(&mut out, endpoint);
    push_imu_init_part3(&mut out, endpoint);
    push_imu_init_part4(&mut out, endpoint);
    push_imu_init_part5(&mut out, endpoint);
    push_imu_init_part6(&mut out, endpoint);
    push_imu_init_part7(&mut out, endpoint);
    push_imu_init_part8(&mut out, endpoint);
    proof {
        assert(out@ =~= imu_service_selection(*endpoint) + "\n"@ + imu_init_body(*endpoint));
    }
    Ok(out)
}

} // verus!
