use app_builder::board::McuDeclaration;
use app_builder::hardware_lowering::McuDevice;
use app_builder::initialization::ClockSource;
use app_builder::task::{Axis, FrameRotation, SignedAxis};
use app_builder::board::{
    BoardDeclaration, ImuInstallationDeclaration, SpiBus, SpiHardwareDeclaration, SpiPeripheral,
    TimerHardwareDeclaration, TimerPeripheral,
};
use app_builder::component::{validate_hardware_composition, ComponentDeclaration};
use app_builder::dma_route::{DmaChannel, DmaController, DmaRoute, DmaStream};
use app_builder::gpio::InterruptEdge;
use app_builder::imu_endpoint::spi_imu_endpoint;
use app_builder::periodic_control::periodic_control_timer;
use app_builder::pins::{GpioPort, PinId};
use app_builder::platform_config::{ImuInstallationId, PlatformConfig, SpiService};
use app_builder::timing::{InitDelayDeclaration, MonotonicDeclaration};

fn timer(id: &'static str, peripheral: TimerPeripheral) -> TimerHardwareDeclaration {
    TimerHardwareDeclaration { id, peripheral }
}

fn spi1(imus: Vec<ImuInstallationDeclaration>) -> SpiHardwareDeclaration {
    SpiHardwareDeclaration {
        id: "spi1",
        bus: SpiBus {
            peripheral: SpiPeripheral::Spi1,
            sck: PinId::new(GpioPort::A, 5),
            miso: PinId::new(GpioPort::A, 6),
            mosi: PinId::new(GpioPort::A, 7),
            dma_rx: DmaRoute::new(DmaController::Dma2, DmaStream::Stream0, DmaChannel::Channel3),
            dma_tx: DmaRoute::new(DmaController::Dma2, DmaStream::Stream3, DmaChannel::Channel3),
        },
        imu: imus,
    }
}

fn installation() -> ImuInstallationDeclaration {
    ImuInstallationDeclaration {
        id: ImuInstallationId::new(1),
        chip_select: PinId::new(GpioPort::A, 4),
        data_ready: PinId::new(GpioPort::C, 4),
        data_ready_edge: InterruptEdge::Rising,
        orientation: FrameRotation { body_x: SignedAxis { axis: Axis::X, negated: false }, body_y: SignedAxis { axis: Axis::Y, negated: false }, body_z: SignedAxis { axis: Axis::Z, negated: false } },
    }
}

fn board() -> BoardDeclaration {
    BoardDeclaration {
        mcu: McuDeclaration { device: McuDevice::Stm32f405, clock: ClockSource::Hsi, system_clock_hz: 16_000_000 },
        id: "foxeer_f405_v2",
        gpio: Vec::new(),
        timers: vec![
            timer("tim2", TimerPeripheral::Tim2),
            timer("tim4", TimerPeripheral::Tim4),
            timer("tim5", TimerPeripheral::Tim5),
        ],
        spi: vec![spi1(vec![installation()])],
        serial: Vec::new(),
    }
}

fn imu_component() -> ComponentDeclaration {
    ComponentDeclaration::ImuEndpoint(
        spi_imu_endpoint()
            .declare("spi1", "spi1")
            .data_ready_priority(8)
            .owner_priority(7)
            .poll_priority(6)
            .parser_priority(5),
    )
}

fn control(id: &'static str, hardware: &'static str) -> ComponentDeclaration {
    ComponentDeclaration::PeriodicControl(
        periodic_control_timer()
            .declare(id, hardware)
            .scheduler_hz(800)
            .control_hz(400)
            .interrupt_priority(14),
    )
}

fn platform() -> PlatformConfig {
    PlatformConfig::empty().spi1(SpiService::Imu(ImuInstallationId::new(1)))
}

fn check(
    board: &BoardDeclaration,
    platform: PlatformConfig,
    monotonic: MonotonicDeclaration,
    init_delay: Option<InitDelayDeclaration>,
    components: Vec<ComponentDeclaration>,
) -> Result<(), String> {
    validate_hardware_composition(board, platform, monotonic, init_delay, &components)
}

fn golden(components: Vec<ComponentDeclaration>) -> Result<(), String> {
    check(
        &board(),
        platform(),
        MonotonicDeclaration::timer("tim2", 1_000_000),
        Some(InitDelayDeclaration::timer("tim5", 1_000_000)),
        components,
    )
}

#[test]
fn golden_hardware_composition_is_valid() {
    golden(vec![imu_component(), control("control", "tim4")]).unwrap();
}

#[test]
fn zero_monotonic_frequency_is_rejected() {
    let error = check(
        &board(),
        platform(),
        MonotonicDeclaration::systick(0),
        Some(InitDelayDeclaration::timer("tim5", 1_000_000)),
        vec![imu_component()],
    )
    .unwrap_err();
    assert_eq!(error, "monotonic tick frequency must be nonzero");
}

#[test]
fn monotonic_requires_a_declared_board_timer() {
    let error = check(
        &board(),
        platform(),
        MonotonicDeclaration::timer("missing", 1_000_000),
        Some(InitDelayDeclaration::timer("tim5", 1_000_000)),
        vec![imu_component()],
    )
    .unwrap_err();
    assert_eq!(error, "monotonic consumes undeclared board timer `missing`");
}

#[test]
fn spi_imu_requires_the_general_initialization_delay() {
    let error = check(
        &board(),
        platform(),
        MonotonicDeclaration::timer("tim2", 1_000_000),
        None,
        vec![imu_component(), control("control", "tim4")],
    )
    .unwrap_err();
    assert_eq!(
        error,
        "SPI IMU initialization requires a general initialization delay timer"
    );
}

#[test]
fn initialization_delay_requires_a_declared_board_timer() {
    let error = check(
        &board(),
        platform(),
        MonotonicDeclaration::timer("tim2", 1_000_000),
        Some(InitDelayDeclaration::timer("missing", 1_000_000)),
        vec![imu_component()],
    )
    .unwrap_err();
    assert_eq!(
        error,
        "initialization delay consumes undeclared board timer `missing`"
    );
}

#[test]
fn monotonic_and_initialization_delay_cannot_share_a_timer() {
    let error = check(
        &board(),
        platform(),
        MonotonicDeclaration::timer("tim2", 1_000_000),
        Some(InitDelayDeclaration::timer("tim2", 1_000_000)),
        vec![imu_component()],
    )
    .unwrap_err();
    assert_eq!(
        error,
        "the monotonic and initialization delay cannot consume the same timer peripheral"
    );
}

#[test]
fn periodic_control_cannot_consume_the_tim2_monotonic() {
    let error = golden(vec![imu_component(), control("control", "tim2")]).unwrap_err();
    assert_eq!(
        error,
        "periodic control `control` conflicts with the monotonic timer peripheral"
    );
}

#[test]
fn periodic_control_cannot_consume_the_tim5_initialization_delay() {
    let error = golden(vec![imu_component(), control("control", "tim5")]).unwrap_err();
    assert_eq!(
        error,
        "periodic control `control` conflicts with the initialization delay timer peripheral"
    );
}

#[test]
fn two_components_cannot_own_the_same_periodic_timer() {
    let error = golden(vec![
        imu_component(),
        control("control", "tim4"),
        control("secondary_control", "tim4"),
    ])
    .unwrap_err();
    assert_eq!(
        error,
        "board hardware `tim4` is consumed by more than one component"
    );
}

#[test]
fn spi_endpoint_requires_hardware_declared_by_the_selected_board() {
    let board_without_imu = BoardDeclaration {
        mcu: McuDeclaration { device: McuDevice::Stm32f405, clock: ClockSource::Hsi, system_clock_hz: 16_000_000 },
        spi: Vec::new(),
        serial: Vec::new(),
        ..board()
    };
    let error = check(
        &board_without_imu,
        platform(),
        MonotonicDeclaration::timer("tim2", 1_000_000),
        Some(InitDelayDeclaration::timer("tim5", 1_000_000)),
        vec![imu_component()],
    )
    .unwrap_err();
    assert_eq!(
        error,
        "SPI endpoint `spi1` consumes undeclared board SPI hardware `spi1`"
    );
}

#[test]
fn platform_config_cannot_select_an_undeclared_imu_installation() {
    let error = check(
        &board(),
        PlatformConfig::empty().spi1(SpiService::Imu(ImuInstallationId::new(2))),
        MonotonicDeclaration::timer("tim2", 1_000_000),
        Some(InitDelayDeclaration::timer("tim5", 1_000_000)),
        vec![imu_component()],
    )
    .unwrap_err();
    assert_eq!(
        error,
        "platform SPI port `Spi1` selects undeclared IMU installation 2 on endpoint `spi1`"
    );
}

#[test]
fn spi_assignment_needs_an_spi1_endpoint() {
    let error = golden(vec![control("control", "tim4")]).unwrap_err();
    assert_eq!(
        error,
        "platform SPI port `Spi1` has no hardware endpoint declaration `spi1`"
    );
}

#[test]
fn duplicate_component_ids_are_rejected() {
    let error = golden(vec![imu_component(), control("spi1", "tim4")]).unwrap_err();
    assert_eq!(error, "component `spi1` is declared more than once");
}
