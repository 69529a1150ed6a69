use app_builder::board::McuDeclaration;
use app_builder::hardware_lowering::McuDevice;
use app_builder::initialization::ClockSource;
use app_builder::task::{Axis, FrameRotation, SignedAxis};
use app_builder::board::{BoardDeclaration, TimerHardwareDeclaration, TimerPeripheral};
use app_builder::gpio::{GpioHardwareDeclaration, InterruptEdge, Level};
use app_builder::imu_endpoint::ImuEndpointResourceRole;
use app_builder::lower::{
    render_globals, render_platform_config,
    imu_init_local, imu_resource_type, periodic_control_scheduler_type, port_letter,
    render_gpio_initialization, render_periodic_control_initialization, render_u32,
    section_guard, task_state_initializer, timer_pac_identifier, timer_peripheral,
};
use app_builder::periodic_control::periodic_control_timer;
use app_builder::pins::{GpioPort, PinId};
use app_builder::platform_config::{ImuInstallationId, PlatformConfig, SerialService, SpiService};
use app_builder::resolve::resolve_periodic_control;
use app_builder::state::TaskStateRecipe;
use app_builder::board::{ImuInstallationDeclaration, SpiBus, SpiHardwareDeclaration, SpiPeripheral};
use app_builder::dma_route::{DmaChannel, DmaController, DmaRoute, DmaStream};
use app_builder::imu_endpoint::spi_imu_endpoint;
use app_builder::lower::validate_supported_imu_endpoint;
use app_builder::resolve::ResolvedImuEndpoint;

#[test]
fn numbers_render_with_digit_group_separators() {
    assert_eq!(render_u32(0), "0");
    assert_eq!(render_u32(999), "999");
    assert_eq!(render_u32(1_000), "1_000");
    assert_eq!(render_u32(168_000_000), "168_000_000");
    assert_eq!(render_u32(u32::MAX), "4_294_967_295");
}

#[test]
fn ports_beyond_i_are_not_lowered() {
    assert_eq!(port_letter(GpioPort::C), Ok('C'));
    assert_eq!(
        port_letter(GpioPort::J).unwrap_err(),
        "STM32F405 lowering does not support GPIOJ"
    );
}

#[test]
fn gpio_output_and_exti_input_initialization() {
    let led = GpioHardwareDeclaration::output("led2", PinId::new(GpioPort::A, 5), Level::Low);
    assert_eq!(
        render_gpio_initialization(&led).unwrap(),
        "let mut led2 = gpioa.pa5.into_push_pull_output_in_state(PinState::Low);\nled2.set_internal_resistor(Pull::None);\nled2.set_speed(Speed::Low);"
    );
    let button = GpioHardwareDeclaration::input("user_button", PinId::new(GpioPort::C, 13))
        .pull_up()
        .interrupt_on(InterruptEdge::Both);
    assert_eq!(
        render_gpio_initialization(&button).unwrap(),
        "let user_button = Input::new(gpioc.pc13, Pull::Up);\nlet user_button = ferrowasp_stm32f4::exti::init_input(\n    user_button,\n    &mut syscfg,\n    &mut exti,\n    Edge::RisingFalling,\n);"
    );
    let unsupported = GpioHardwareDeclaration::input("k", PinId::new(GpioPort::K, 1));
    assert!(render_gpio_initialization(&unsupported).is_err());
}

#[test]
fn periodic_control_initialization_names_its_timer() {
    let board = BoardDeclaration {
        mcu: McuDeclaration { device: McuDevice::Stm32f405, clock: ClockSource::Hsi, system_clock_hz: 16_000_000 },
        id: "b",
        gpio: Vec::new(),
        timers: vec![TimerHardwareDeclaration {
            id: "tim4",
            peripheral: TimerPeripheral::Tim4,
        }],
        spi: Vec::new(),
        serial: Vec::new(),
    };
    let declaration = periodic_control_timer()
        .declare("control", "tim4")
        .scheduler_hz(8_000)
        .control_hz(400)
        .interrupt_priority(14);
    let control = resolve_periodic_control(&board, declaration).unwrap();
    assert_eq!(
        render_periodic_control_initialization(&control).unwrap(),
        "let control_scheduler = init_control_scheduler(\n    cx.device.TIM4,\n    &mut rcc,\n    8_000.Hz(),\n)\n.expect(\"validated periodic control timer must start\");\nlet control_phase = 0;"
    );
    assert_eq!(timer_peripheral(&board, "tim4"), Ok(TimerPeripheral::Tim4));
    assert_eq!(
        timer_peripheral(&board, "tim2").unwrap_err(),
        "board timer `tim2` disappeared after validation"
    );
}

#[test]
fn timer_and_section_fragments() {
    assert_eq!(timer_pac_identifier(TimerPeripheral::Tim6), "TIM6");
    assert_eq!(
        periodic_control_scheduler_type(TimerPeripheral::Tim2),
        "ferrowasp_stm32f4::rtic::hal::timer::CounterHz<ferrowasp_stm32f4::rtic::hal::pac::TIM2>"
    );
    assert_eq!(section_guard("GPIO"), "// ===== GPIO =====");
}

#[test]
fn imu_roles_split_between_fields_and_init_locals() {
    assert_eq!(imu_resource_type(ImuEndpointResourceRole::Sample), Ok("ImuData"));
    assert_eq!(
        imu_resource_type(ImuEndpointResourceRole::Buffers).unwrap_err(),
        "IMU endpoint role Buffers cannot be an RTIC field"
    );
    assert_eq!(
        imu_init_local(ImuEndpointResourceRole::FreeQueue),
        Ok(("SpiFreeQueue", "SpiFreeQueue::new()"))
    );
    assert_eq!(
        imu_init_local(ImuEndpointResourceRole::Owner).unwrap_err(),
        "IMU endpoint role Owner cannot be initialization-local"
    );
}

#[test]
fn task_state_initializers() {
    assert_eq!(task_state_initializer(TaskStateRecipe::U32(12_345)), "12_345");
    assert_eq!(task_state_initializer(TaskStateRecipe::Bool(false)), "false");
    assert_eq!(
        task_state_initializer(TaskStateRecipe::FoxeerGyroBiasCalibratorV1),
        "dt::GyroBiasCalibrator::new(800, 1_000)"
    );
}

#[test]
fn platform_config_loader_lists_each_connector() {
    let config = PlatformConfig::empty()
        .serial2(SerialService::RcSbus)
        .serial1(SerialService::MspV1Osd)
        .spi1(SpiService::Imu(ImuInstallationId::new(1)));
    assert_eq!(
        render_platform_config(config),
        "pub(crate) fn load_platform_config() -> RuntimePlatformConfig {\n    RuntimePlatformConfig {\n        serial1: Some(SerialService::MspV1Osd),\n        serial2: Some(SerialService::RcSbus),\n        spi1: Some(SpiService::Imu(ImuInstallationId::new(1))),\n    }\n}"
    );
    assert!(render_platform_config(PlatformConfig::empty()).contains("serial1: None,"));
}

#[test]
fn globals_are_empty_without_an_imu_endpoint() {
    assert_eq!(render_globals(&Vec::new()).unwrap(), "");
}

fn foxeer_imu_endpoint(data_ready_pin: u8) -> ResolvedImuEndpoint {
    ResolvedImuEndpoint {
        declaration: spi_imu_endpoint().declare("spi1", "spi1"),
        hardware: ImuInstallationDeclaration {
            id: ImuInstallationId::new(1),
            chip_select: PinId::new(GpioPort::A, 4),
            data_ready: PinId::new(GpioPort::C, data_ready_pin),
            data_ready_edge: InterruptEdge::Rising,
            orientation: FrameRotation { body_x: SignedAxis { axis: Axis::X, negated: false }, body_y: SignedAxis { axis: Axis::Y, negated: false }, body_z: SignedAxis { axis: Axis::Z, negated: false } },
        },
        spi: SpiHardwareDeclaration {
            id: "spi1",
            bus: SpiBus {
                peripheral: SpiPeripheral::Spi1,
                sck: PinId::new(GpioPort::A, 5),
                miso: PinId::new(GpioPort::A, 6),
                mosi: PinId::new(GpioPort::A, 7),
                dma_rx: DmaRoute::new(DmaController::Dma2, DmaStream::Stream0, DmaChannel::Channel3),
                dma_tx: DmaRoute::new(DmaController::Dma2, DmaStream::Stream3, DmaChannel::Channel3),
            },
            imu: Vec::new(),
        },
        resources: Vec::new(),
    }
}

#[test]
fn imu_endpoint_globals_name_an_upper_case_mailbox() {
    let endpoint = foxeer_imu_endpoint(4);
    validate_supported_imu_endpoint(&endpoint).unwrap();
    assert_eq!(
        render_globals(&vec![endpoint]).unwrap(),
        "// ===== SPI endpoint `spi1` static resources =====\nstatic SPI1_MAILBOX: Spi1ImuMailbox = new_spi1_imu_mailbox();"
    );
}

#[test]
fn unsupported_imu_wiring_is_rejected() {
    assert_eq!(
        validate_supported_imu_endpoint(&foxeer_imu_endpoint(5)).unwrap_err(),
        "IMU endpoint `spi1` must use Foxeer CS PA4 and DRDY PC4 rising"
    );
    assert_eq!(
        render_globals(&vec![foxeer_imu_endpoint(4), foxeer_imu_endpoint(4)]).unwrap_err(),
        "the initial STM32F4 renderer supports one SPI1 IMU endpoint"
    );
}
