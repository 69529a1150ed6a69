use app_builder::board::McuDeclaration;
use app_builder::hardware_lowering::McuDevice;
use app_builder::task::{Axis, FrameRotation, SignedAxis};
use app_builder::board::{
    BoardDeclaration, ImuInstallationDeclaration, SpiBus, SpiHardwareDeclaration, SpiPeripheral,
    TimerHardwareDeclaration, TimerPeripheral,
};
use app_builder::composition::SharedValue;
use app_builder::dma_route::{DmaChannel, DmaController, DmaRoute, DmaStream};
use app_builder::gpio::{GpioHardwareDeclaration, InterruptEdge, Level};
use app_builder::imu_endpoint::{
    spi_imu_endpoint, ImuEndpointResourceOwnership, ImuEndpointResourceRole,
    ImuEndpointResourceVisibility,
};
use app_builder::dshot::{DshotBankHardwareDeclaration, DshotLaneHardwareDeclaration, DshotTimerChannel};
use app_builder::dshot_initialization::{render_dshot_actuator_initialization, ResolvedDshotActuator};
use app_builder::imports::{render_imports, ImportNeeds};
use app_builder::init_source::render_initialization;
use app_builder::service_initialization::{
    render_imu_endpoint_initialization, render_serial_service_routing,
};
use app_builder::platform_config::{PlatformConfig, SerialService};
use app_builder::initialization::{
    initialization_ports, render_gpio_sections, render_initialization_head,
    render_initialization_preamble, render_periodic_control_sections, render_port_splits,
    ClockSource,
};
use app_builder::periodic_control::periodic_control_timer;
use app_builder::pins::{GpioPort, PinId};
use app_builder::platform_config::ImuInstallationId;
use app_builder::resolve::{
    resolve_periodic_control, ResolvedGpioResource, ResolvedImuEndpoint,
    ResolvedImuEndpointResource, ResolvedResourceBinding, ResolvedSharedResource, ResolvedTask,
    ResolvedTaskTrigger,
};
use app_builder::resource_lowering::{
    render_task_state_initialization, render_timing, LoweredResources,
};
use app_builder::serial::SerialPeripheral;
use app_builder::serial_endpoint::{
    ResolvedEndpointResource, ResolvedSerialEndpoint, SerialEndpointDeclaration,
    SerialEndpointDefinition, SerialEndpointResourceOwnership, SerialEndpointResourceRole,
    SerialEndpointResourceVisibility, SerialEndpointTasks, SerialHardwareDeclaration,
    SerialPortDeclaration, SerialSignalRoute,
};
use app_builder::serial_lowering::validate_supported_endpoint;
use app_builder::state::{ResolvedTaskState, TaskStateRecipe};
use app_builder::task::{TaskContract, TaskSafetyClass, TaskSource};
use app_builder::timing::{InitDelayDeclaration, MonotonicDeclaration};

fn board() -> BoardDeclaration {
    BoardDeclaration {
        mcu: McuDeclaration { device: McuDevice::Stm32f405, clock: ClockSource::Hsi, system_clock_hz: 16_000_000 },
        id: "board",
        gpio: Vec::new(),
        timers: vec![
            TimerHardwareDeclaration { id: "tim2", peripheral: TimerPeripheral::Tim2 },
            TimerHardwareDeclaration { id: "tim4", peripheral: TimerPeripheral::Tim4 },
            TimerHardwareDeclaration { id: "tim5", peripheral: TimerPeripheral::Tim5 },
        ],
        spi: Vec::new(),
        serial: Vec::new(),
    }
}

fn task(id: &str, local: &[&str], shared: &[&str]) -> ResolvedTask {
    let binding = |target: &&str| ResolvedResourceBinding { logical: "slot", target: target.to_string() };
    ResolvedTask {
        id: id.to_owned(),
        contract: TaskContract::new("body", TaskSource::new("tasks.rs", "body")),
        trigger: ResolvedTaskTrigger::Software,
        priority: 1,
        safety_class: TaskSafetyClass::NonSafetyCritical,
        local: local.iter().map(binding).collect(),
        shared: shared.iter().map(binding).collect(),
        config: Vec::new(),
        spawns: Vec::new(),
        owner_component: None,
    }
}

fn strings(lines: &[&str]) -> Vec<String> {
    lines.iter().map(|line| line.to_string()).collect()
}

#[test]
fn timing_preamble_names_the_clock_and_the_monotonic() {
    let board = board();
    assert_eq!(
        render_timing(&board, 168_000_000, MonotonicDeclaration::systick(1_000)).unwrap(),
        "const SYSTEM_CLOCK_HZ: u32 = 168_000_000;\n\nsystick_monotonic!(Mono, 1_000);"
    );
    assert_eq!(
        render_timing(&board, 168_000_000, MonotonicDeclaration::timer("tim2", 1_000_000)).unwrap(),
        "const SYSTEM_CLOCK_HZ: u32 = 168_000_000;\n\nstm32_tim2_monotonic!(Mono, 1_000_000);"
    );
    assert_eq!(
        render_timing(&board, 168_000_000, MonotonicDeclaration::timer("tim4", 1_000)).unwrap_err(),
        "the STM32F4 renderer does not support Tim4 as the RTIC monotonic"
    );
    assert_eq!(
        render_timing(&board, 168_000_000, MonotonicDeclaration::timer("tim9", 1_000)).unwrap_err(),
        "board timer `tim9` disappeared after validation"
    );
}

#[test]
fn shared_resources_name_the_tasks_that_bind_them() {
    let shared = vec![
        ResolvedSharedResource { id: "armed", initial: SharedValue::Bool(false) },
        ResolvedSharedResource { id: "throttle", initial: SharedValue::U32(1_500) },
    ];
    let tasks = vec![
        task("control", &["armed"], &[]),
        task("idle", &["other"], &[]),
        task("telemetry", &[], &["armed"]),
    ];
    let mut lowered = LoweredResources::new();
    lowered.lower_shared_resources(&shared, &tasks);
    assert_eq!(
        lowered.shared_fields,
        strings(&[
            "// ===== Application resource `armed`; tasks: control, telemetry =====",
            "armed: bool,",
            "// ===== Application resource `throttle`; tasks:  =====",
            "throttle: u32,",
        ])
    );
    assert_eq!(
        lowered.shared_values,
        strings(&[
            "// ===== Application resource `armed`; tasks: control, telemetry =====",
            "armed: false",
            "// ===== Application resource `throttle`; tasks:  =====",
            "throttle: 1_500",
        ])
    );
    assert!(lowered.local_fields.is_empty());
    assert!(lowered.init_locals.is_empty());
}

#[test]
fn board_gpios_lower_to_typed_pins_in_their_owner_section() {
    let gpio = vec![
        ResolvedGpioResource {
            hardware: GpioHardwareDeclaration::output("led", PinId::new(GpioPort::A, 5), Level::Low),
            owner_task: "blink",
        },
        ResolvedGpioResource {
            hardware: GpioHardwareDeclaration::input("user_button", PinId::new(GpioPort::C, 13)),
            owner_task: "button",
        },
    ];
    let mut lowered = LoweredResources::new();
    lowered.lower_gpio_resources(&gpio).unwrap();
    assert_eq!(
        lowered.local_fields,
        strings(&[
            "// ===== Task `blink` board GPIO resources =====",
            "led: Pin<'A', 5, Output<PushPull>>,",
            "// ===== Task `button` board GPIO resources =====",
            "user_button: Pin<'C', 13, Input>,",
        ])
    );
    assert_eq!(
        lowered.local_values,
        strings(&[
            "// ===== Task `blink` board GPIO resources =====",
            "led",
            "// ===== Task `button` board GPIO resources =====",
            "user_button",
        ])
    );

    let bad = vec![ResolvedGpioResource {
        hardware: GpioHardwareDeclaration::input("k1", PinId::new(GpioPort::K, 1)),
        owner_task: "t",
    }];
    let mut lowered = LoweredResources::new();
    assert_eq!(
        lowered.lower_gpio_resources(&bad).unwrap_err(),
        "STM32F405 lowering does not support GPIOK"
    );
}

#[test]
fn periodic_controls_lower_to_a_scheduler_and_a_phase() {
    let declaration = periodic_control_timer()
        .declare("control", "tim4")
        .scheduler_hz(8_000)
        .control_hz(400)
        .interrupt_priority(14);
    let control = resolve_periodic_control(&board(), declaration).unwrap();
    let mut lowered = LoweredResources::new();
    lowered.lower_periodic_controls(&vec![control.clone()]);
    assert_eq!(
        lowered.local_fields,
        strings(&[
            "// ===== Periodic control `control` task-local resources =====",
            "control_scheduler: ferrowasp_stm32f4::rtic::hal::timer::CounterHz<ferrowasp_stm32f4::rtic::hal::pac::TIM4>,",
            "control_phase: u32,",
        ])
    );
    assert_eq!(
        lowered.local_values,
        strings(&[
            "// ===== Periodic control `control` task-local resources =====",
            "control_scheduler",
            "control_phase",
        ])
    );
    assert_eq!(
        render_periodic_control_sections(&vec![control]).unwrap(),
        strings(&["// ===== Periodic control `control` initialization =====\nlet control_scheduler = init_control_scheduler(\n    cx.device.TIM4,\n    &mut rcc,\n    8_000.Hz(),\n)\n.expect(\"validated periodic control timer must start\");\nlet control_phase = 0;"])
    );
}

fn imu_resource(
    id: &str,
    role: ImuEndpointResourceRole,
    ownership: ImuEndpointResourceOwnership,
) -> ResolvedImuEndpointResource {
    ResolvedImuEndpointResource {
        id: id.to_owned(),
        role,
        ownership,
        visibility: ImuEndpointResourceVisibility::Private,
    }
}

fn imu_endpoint(resources: Vec<ResolvedImuEndpointResource>) -> ResolvedImuEndpoint {
    ResolvedImuEndpoint {
        declaration: spi_imu_endpoint().declare("spi1", "spi1"),
        hardware: ImuInstallationDeclaration {
            id: ImuInstallationId::new(1),
            chip_select: PinId::new(GpioPort::A, 4),
            data_ready: PinId::new(GpioPort::C, 4),
            data_ready_edge: InterruptEdge::Rising,
            orientation: FrameRotation { body_x: SignedAxis { axis: Axis::X, negated: false }, body_y: SignedAxis { axis: Axis::Y, negated: false }, body_z: SignedAxis { axis: Axis::Z, negated: false } },
        },
        spi: SpiHardwareDeclaration {
            id: "spi1",
            bus: SpiBus {
                peripheral: SpiPeripheral::Spi1,
                sck: PinId::new(GpioPort::A, 5),
                miso: PinId::new(GpioPort::A, 6),
                mosi: PinId::new(GpioPort::A, 7),
                dma_rx: DmaRoute::new(DmaController::Dma2, DmaStream::Stream0, DmaChannel::Channel3),
                dma_tx: DmaRoute::new(DmaController::Dma2, DmaStream::Stream3, DmaChannel::Channel3),
            },
            imu: Vec::new(),
        },
        resources,
    }
}

#[test]
fn imu_endpoint_resources_split_into_fields_and_init_locals() {
    let endpoint = imu_endpoint(vec![
        imu_resource("spi1_buffers", ImuEndpointResourceRole::Buffers, ImuEndpointResourceOwnership::InitLocal),
        imu_resource("spi1_owner", ImuEndpointResourceRole::Owner, ImuEndpointResourceOwnership::Shared),
        imu_resource("spi1_parser", ImuEndpointResourceRole::Parser, ImuEndpointResourceOwnership::Local),
    ]);
    let mut lowered = LoweredResources::new();
    lowered.lower_imu_endpoints(&vec![endpoint]).unwrap();
    assert_eq!(
        lowered.local_fields,
        strings(&["// ===== SPI endpoint `spi1` resources =====", "spi1_parser: Spi1ImuParser,"])
    );
    assert_eq!(
        lowered.shared_fields,
        strings(&["// ===== SPI endpoint `spi1` resources =====", "spi1_owner: Spi1ImuEndpointOwner,"])
    );
    assert_eq!(
        lowered.shared_values,
        strings(&["// ===== SPI endpoint `spi1` resources =====", "spi1_owner"])
    );
    assert_eq!(lowered.init_locals.len(), 1);
    let storage = &lowered.init_locals[0];
    assert_eq!(storage.section, "SPI endpoint `spi1` resources");
    assert_eq!(storage.id, "spi1_buffers");
    assert_eq!(storage.rust_type, "SpiDmaBufferBank");
    assert_eq!(storage.initializer, "ferrowasp_stm32f4::app_storage::new_spi_dma_buffer_bank()");

    let misplaced = imu_endpoint(vec![imu_resource(
        "spi1_buffers",
        ImuEndpointResourceRole::Buffers,
        ImuEndpointResourceOwnership::Local,
    )]);
    let mut lowered = LoweredResources::new();
    assert_eq!(
        lowered.lower_imu_endpoints(&vec![misplaced]).unwrap_err(),
        "IMU endpoint role Buffers cannot be an RTIC field"
    );
}

fn serial_resource(
    id: &str,
    role: SerialEndpointResourceRole,
    ownership: SerialEndpointResourceOwnership,
) -> ResolvedEndpointResource {
    ResolvedEndpointResource {
        id: id.to_owned(),
        role,
        ownership,
        visibility: SerialEndpointResourceVisibility::Private,
    }
}

fn usart2_endpoint(rx_pin: u8, resources: Vec<ResolvedEndpointResource>) -> ResolvedSerialEndpoint {
    let contract = || TaskContract::new("body", TaskSource::new("tasks.rs", "body"));
    let dma1 = |stream| DmaRoute::new(DmaController::Dma1, stream, DmaChannel::Channel4);
    ResolvedSerialEndpoint {
        declaration: SerialEndpointDeclaration {
            id: "serial2",
            definition: SerialEndpointDefinition {
                id: "uart_dma_endpoint",
                tasks: SerialEndpointTasks {
                    peripheral_irq: contract(),
                    rx_dma_irq: contract(),
                    rx_bridge: contract(),
                    tx_dma_irq: contract(),
                    tx_worker: contract(),
                },
                resources: Vec::new(),
            },
            hardware_id: "usart2",
            interrupt_priority: 7,
            bridge_priority: 5,
            worker_priority: Some(3),
            rx_buffer_count: 4,
            rx_queue_depth: 4,
            tx_queue_depth: 16,
        },
        hardware: SerialHardwareDeclaration {
            id: "usart2",
            port: SerialPortDeclaration {
                peripheral: SerialPeripheral::Usart2,
                rx: Some(SerialSignalRoute {
                    pin: PinId::new(GpioPort::A, rx_pin),
                    dma: Some(dma1(DmaStream::Stream5)),
                }),
                tx: Some(SerialSignalRoute {
                    pin: PinId::new(GpioPort::A, 2),
                    dma: Some(dma1(DmaStream::Stream6)),
                }),
            },
        },
        resources,
    }
}

#[test]
fn serial_endpoint_resources_skip_routed_readers_and_writers() {
    let endpoint = usart2_endpoint(
        3,
        vec![
            serial_resource("serial2_rx_buffers", SerialEndpointResourceRole::RxBuffers, SerialEndpointResourceOwnership::InitLocal),
            serial_resource("serial2_rx", SerialEndpointResourceRole::RxService, SerialEndpointResourceOwnership::Shared),
            serial_resource("serial2_rx_parser_side", SerialEndpointResourceRole::RxParser, SerialEndpointResourceOwnership::Local),
            serial_resource("serial2_reader", SerialEndpointResourceRole::RxReader, SerialEndpointResourceOwnership::Local),
            serial_resource("serial2_writer", SerialEndpointResourceRole::TxWriter, SerialEndpointResourceOwnership::Local),
        ],
    );
    let mut lowered = LoweredResources::new();
    lowered.lower_serial_endpoints(&vec![endpoint]).unwrap();
    assert_eq!(
        lowered.local_fields,
        strings(&[
            "// ===== Serial endpoint `serial2` resources =====",
            "serial2_rx_parser_side: UartOwnedRxBridge<'static, { memory::UART_RX_BUFFER_BYTES }, { memory::OWNED_UART_RX_QUEUE_DEPTH }>,",
        ])
    );
    assert_eq!(
        lowered.shared_fields,
        strings(&["// ===== Serial endpoint `serial2` resources =====", "serial2_rx: Uart2RxIrq,"])
    );
    assert_eq!(lowered.init_locals.len(), 1);
    assert_eq!(lowered.init_locals[0].section, "Serial endpoint `serial2` resources");
    assert_eq!(lowered.init_locals[0].rust_type, "UartRxBufferBank");
    assert_eq!(
        lowered.init_locals[0].initializer,
        "ferrowasp_stm32f4::app_storage::new_uart_rx_buffer_bank()"
    );

    let misplaced = usart2_endpoint(
        3,
        vec![serial_resource("serial2_tx_buffer", SerialEndpointResourceRole::TxBuffer, SerialEndpointResourceOwnership::Local)],
    );
    let mut lowered = LoweredResources::new();
    assert_eq!(
        lowered.lower_serial_endpoints(&vec![misplaced]).unwrap_err(),
        "endpoint role TxBuffer cannot be an RTIC field"
    );

    let rerouted = usart2_endpoint(4, Vec::new());
    let expected = validate_supported_endpoint(&rerouted).unwrap_err();
    let mut lowered = LoweredResources::new();
    assert_eq!(lowered.lower_serial_endpoints(&vec![rerouted]).unwrap_err(), expected);
}

#[test]
fn task_state_opens_one_section_per_owner() {
    let states = vec![
        ResolvedTaskState { id: "a_count", owner_task: "loop", recipe: TaskStateRecipe::U32(0) },
        ResolvedTaskState { id: "b_flag", owner_task: "other", recipe: TaskStateRecipe::Bool(true) },
        ResolvedTaskState { id: "c_count", owner_task: "loop", recipe: TaskStateRecipe::U32(1_000) },
    ];
    assert_eq!(
        render_task_state_initialization(&states),
        "// ===== Application-owned state for task `loop` initialization =====\nlet a_count = 0;\n// ===== Application-owned state for task `other` initialization =====\nlet b_flag = true;\nlet c_count = 1_000;"
    );
    assert_eq!(render_task_state_initialization(&Vec::new()), "");
}

#[test]
fn initialization_preamble_starts_clock_monotonic_and_delay() {
    let board = board();
    assert_eq!(
        render_initialization_preamble(
            &board,
            ClockSource::Hse { frequency_hz: 8_000_000 },
            MonotonicDeclaration::timer("tim2", 1_000_000),
            Some(InitDelayDeclaration::timer("tim5", 1_000_000)),
        )
        .unwrap(),
        strings(&[
            "// ===== Common initialization =====\nlet platform_config = load_platform_config();",
            "let mut rcc = ferrowasp_stm32f4::clocks::freeze_hse(\n    cx.device.RCC.constrain(),\n    8_000_000,\n    SYSTEM_CLOCK_HZ,\n    false,\n);",
            "Mono::start(rcc.clocks.timclk1().raw());",
            "let mut init_delay = cx.device.TIM5.delay::<1_000_000>(&mut rcc);",
        ])
    );
    assert_eq!(
        render_initialization_preamble(&board, ClockSource::Hsi, MonotonicDeclaration::systick(1_000), None)
            .unwrap()[1],
        "let mut rcc = ferrowasp_stm32f4::clocks::freeze_hsi(\n    cx.device.RCC.constrain(),\n    SYSTEM_CLOCK_HZ,\n    false,\n);"
    );
    assert_eq!(
        render_initialization_preamble(
            &board,
            ClockSource::Hsi,
            MonotonicDeclaration::systick(1_000),
            Some(InitDelayDeclaration::timer("tim4", 1_000)),
        )
        .unwrap_err(),
        "the STM32F4 renderer does not support Tim4 as the initialization delay"
    );
    assert_eq!(
        render_initialization_preamble(&board, ClockSource::Hsi, MonotonicDeclaration::timer("tim5", 1_000), None)
            .unwrap_err(),
        "the STM32F4 renderer does not support Tim5 as the RTIC monotonic"
    );
}

#[test]
fn port_splits_are_distinct_and_in_port_order() {
    assert_eq!(
        render_port_splits(&vec![GpioPort::C, GpioPort::A, GpioPort::C]).unwrap(),
        strings(&[
            "let gpioa = cx.device.GPIOA.split(&mut rcc);",
            "let gpioc = cx.device.GPIOC.split(&mut rcc);",
        ])
    );
    assert!(render_port_splits(&Vec::new()).unwrap().is_empty());
    assert_eq!(
        render_port_splits(&vec![GpioPort::A, GpioPort::K]).unwrap_err(),
        "STM32F405 lowering does not support GPIOK"
    );
}

#[test]
fn initialization_splits_every_port_its_resources_use() {
    let gpio = vec![ResolvedGpioResource {
        hardware: GpioHardwareDeclaration::output("led", PinId::new(GpioPort::B, 5), Level::Low),
        owner_task: "blink",
    }];
    let serials = vec![usart2_endpoint(3, Vec::new())];
    let imus = vec![imu_endpoint(Vec::new())];
    let ports = initialization_ports(&gpio, &serials, &imus);
    assert_eq!(
        render_port_splits(&ports).unwrap(),
        strings(&[
            "let gpioa = cx.device.GPIOA.split(&mut rcc);",
            "let gpiob = cx.device.GPIOB.split(&mut rcc);",
            "let gpioc = cx.device.GPIOC.split(&mut rcc);",
        ])
    );
}

#[test]
fn initialization_head_orders_its_sections() {
    let board = board();
    let gpio = vec![ResolvedGpioResource {
        hardware: GpioHardwareDeclaration::input("user_button", PinId::new(GpioPort::C, 13))
            .pull_up()
            .interrupt_on(InterruptEdge::Both),
        owner_task: "button",
    }];
    let states = vec![ResolvedTaskState { id: "presses", owner_task: "button", recipe: TaskStateRecipe::U32(0) }];
    let ports = initialization_ports(&gpio, &Vec::new(), &Vec::new());
    let lines = render_initialization_head(
        &board,
        ClockSource::Hsi,
        MonotonicDeclaration::systick(1_000),
        None,
        &Vec::new(),
        &states,
        &ports,
        &gpio,
        &Vec::new(),
    )
    .unwrap();
    assert_eq!(
        lines,
        strings(&[
            "// ===== Common initialization =====\nlet platform_config = load_platform_config();",
            "let mut rcc = ferrowasp_stm32f4::clocks::freeze_hsi(\n    cx.device.RCC.constrain(),\n    SYSTEM_CLOCK_HZ,\n    false,\n);",
            "Mono::start(cx.core.SYST, SYSTEM_CLOCK_HZ);",
            "// ===== Application-owned state for task `button` initialization =====\nlet presses = 0;",
            "let gpioc = cx.device.GPIOC.split(&mut rcc);",
            "let mut syscfg = cx.device.SYSCFG.constrain(&mut rcc);",
            "let mut exti = cx.device.EXTI;",
            "// ===== Task `button` board GPIO initialization =====\nlet user_button = Input::new(gpioc.pc13, Pull::Up);\nlet user_button = ferrowasp_stm32f4::exti::init_input(\n    user_button,\n    &mut syscfg,\n    &mut exti,\n    Edge::RisingFalling,\n);",
        ])
    );
    let output = vec![ResolvedGpioResource {
        hardware: GpioHardwareDeclaration::output("led", PinId::new(GpioPort::A, 5), Level::High),
        owner_task: "blink",
    }];
    assert_eq!(
        render_gpio_sections(&output).unwrap(),
        strings(&["// ===== Task `blink` board GPIO initialization =====\nlet mut led = gpioa.pa5.into_push_pull_output_in_state(PinState::High);\nled.set_internal_resistor(Pull::None);\nled.set_speed(Speed::Low);"])
    );
}

#[test]
fn lowering_stages_append_fields_paired_with_values() {
    let shared = vec![ResolvedSharedResource { id: "armed", initial: SharedValue::Bool(true) }];
    let tasks = vec![task("control", &[], &["armed"])];
    let gpio = vec![ResolvedGpioResource {
        hardware: GpioHardwareDeclaration::output("led", PinId::new(GpioPort::B, 1), Level::Low),
        owner_task: "blink",
    }];
    let endpoint = imu_endpoint(vec![
        imu_resource("spi1_owner", ImuEndpointResourceRole::Owner, ImuEndpointResourceOwnership::Shared),
        imu_resource("spi1_kind", ImuEndpointResourceRole::Kind, ImuEndpointResourceOwnership::Local),
    ]);
    let mut lowered = LoweredResources::new();
    lowered.lower_shared_resources(&shared, &tasks);
    let after_shared = lowered.shared_fields.clone();
    lowered.lower_gpio_resources(&gpio).unwrap();
    lowered.lower_imu_endpoints(&vec![endpoint]).unwrap();
    assert_eq!(lowered.shared_fields.len(), lowered.shared_values.len());
    assert_eq!(lowered.local_fields.len(), lowered.local_values.len());
    assert_eq!(&lowered.shared_fields[..after_shared.len()], &after_shared[..]);
    assert_eq!(lowered.shared_values[1], "armed: true");
    assert_eq!(lowered.local_fields.last().unwrap(), "spi1_kind: u8,");
    assert_eq!(lowered.local_values.last().unwrap(), "spi1_kind");
}

#[test]
fn imports_follow_the_kinds_of_resources_present() {
    let none = ImportNeeds {
        serial_endpoints: false,
        imu_endpoints: false,
        periodic_controls: false,
        dshot_actuators: false,
        golden_services: false,
        task_state: false,
    };
    let minimal = render_imports(none);
    assert!(minimal.starts_with(
        "pub(crate) use core::fmt::Write as FmtWrite;\npub(crate) use embedded_io_async::{Read, Write};\n"
    ));
    assert!(minimal.contains("    serial::{},\n    spi::SpiDeviceError,\n};"));
    assert!(!minimal.contains("UartTxDmaService"));
    assert!(minimal.ends_with("UartOwnedRxBridge, Usart2EndpointResources,\n    },\n};"));

    let serial = render_imports(ImportNeeds { serial_endpoints: true, ..none });
    assert!(serial.contains("    serial::{SerialFault},\n"));
    assert!(serial.contains(
        "    memory::{UartOwnedTxChannel, UartOwnedTxCompletion, UartOwnedTxOwner, UartOwnedWriter},\n    serial::{UartTxDmaService, UartTxIrqOutcome, UartTxStartError},\n    rtic::prelude::*,"
    ));

    let controls_and_state = render_imports(ImportNeeds { periodic_controls: true, task_state: true, ..none });
    assert!(controls_and_state.ends_with(
        "};\npub(crate) use ferrowasp_stm32f4::scheduler::{acknowledge_control_tick, init_control_scheduler};\npub(crate) use ferrowasp_tasks::drone_toolbox as dt;"
    ));
    let dshot = render_imports(ImportNeeds { dshot_actuators: true, ..none });
    assert!(dshot.contains("\npub(crate) use ferrowasp_stm32f4::{\ndshot::{\nDshotDmaStorage, DshotInterruptEvent,"));
}


fn full_imu_endpoint() -> ResolvedImuEndpoint {
    let roles = [
        ("spi1_buffers", ImuEndpointResourceRole::Buffers, ImuEndpointResourceOwnership::InitLocal),
        ("spi1_free_queue", ImuEndpointResourceRole::FreeQueue, ImuEndpointResourceOwnership::InitLocal),
        ("spi1_filled_queue", ImuEndpointResourceRole::FilledQueue, ImuEndpointResourceOwnership::InitLocal),
        ("spi1_owner", ImuEndpointResourceRole::Owner, ImuEndpointResourceOwnership::Shared),
        ("spi1_parser", ImuEndpointResourceRole::Parser, ImuEndpointResourceOwnership::Local),
        ("spi1_device", ImuEndpointResourceRole::Device, ImuEndpointResourceOwnership::Local),
        ("spi1_data_ready", ImuEndpointResourceRole::DataReady, ImuEndpointResourceOwnership::Local),
        ("spi1_kind", ImuEndpointResourceRole::Kind, ImuEndpointResourceOwnership::Shared),
        ("imu_sample", ImuEndpointResourceRole::Sample, ImuEndpointResourceOwnership::Shared),
        ("spi1_unavailable_logged", ImuEndpointResourceRole::UnavailableLogged, ImuEndpointResourceOwnership::Local),
    ];
    imu_endpoint(roles.iter().map(|(id, role, ownership)| imu_resource(id, *role, *ownership)).collect())
}

#[test]
fn imu_endpoint_initialization_is_rendered_exactly() {
    let board = board();
    let delay = Some(InitDelayDeclaration::timer("tim5", 1_000_000));
    assert_eq!(
        render_imu_endpoint_initialization(&board, delay, &full_imu_endpoint()).unwrap(),
        "match platform_config.spi1 {\n    Some(SpiService::Imu(id)) if id == ImuInstallationId::new(1) => {},\n    Some(SpiService::Imu(id)) => panic!(\"boot platform config selected IMU installation {} but spi1 initialized installation 1\", id.get()),\n    None => panic!(\"boot platform config must assign spi1\"),\n}\nlet mut spi1_cs = spi_dma::init_spi1_imu_cs(gpioa.pa4);\nlet spi1_mode = spi::Mode {\n    polarity: spi::Polarity::IdleHigh,\n    phase: spi::Phase::CaptureOnSecondTransition,\n};\nlet mut spi1_bus = spi_dma::init_spi1_bus(\n    cx.device.SPI1,\n    gpioa.pa5,\n    gpioa.pa6,\n    gpioa.pa7,\n    spi1_mode,\n    1_000_000,\n    &mut rcc,\n);\nembedded_hal::delay::DelayNs::delay_ms(&mut init_delay, 10);\nlet spi1_kind = match ferrowasp_drivers::icm42688p::read_who_am_i(\n    &mut spi1_bus,\n    &mut spi1_cs,\n) {\n    Ok(ferrowasp_drivers::mpu6500::WHO_AM_I_EXPECTED)\n        if ferrowasp_drivers::mpu6500::init(\n            &mut spi1_bus,\n            &mut spi1_cs,\n            &mut init_delay,\n        ).is_ok() => IMU_KIND_MPU6500,\n    Ok(ferrowasp_drivers::icm42688p::WHO_AM_I_EXPECTED)\n        if ferrowasp_drivers::icm42688p::init(\n            &mut spi1_bus,\n            &mut spi1_cs,\n            &mut init_delay,\n        ).is_ok() => IMU_KIND_ICM42688P,\n    Ok(identity) => {\n        defmt::warn!(\"unsupported SPI1 IMU identity: {=u8:02x}\", identity);\n        IMU_KIND_NONE\n    }\n    Err(_) => {\n        defmt::warn!(\"SPI1 IMU probe failed\");\n        IMU_KIND_NONE\n    }\n};\nlet spi1_dma = spi_dma::init_spi_dma::<_, _, _, 3, 3>(\n    spi1_bus,\n    dma2.0,\n    dma2.3,\n    SpiDmaStorageResources {\n        buffers: cx.local.spi1_buffers,\n        free_queue: cx.local.spi1_free_queue,\n        filled_queue: cx.local.spi1_filled_queue,\n    }.into_backend(),\n);\nlet spi_dma::SpiDmaParts {\n    irq: spi1_irq,\n    poller: spi1_poller,\n    parser: spi1_parser_side,\n    recovery_rx_buffer: spi1_recovery_rx_buffer,\n} = spi1_dma;\nlet spi1_owner = Spi1ImuEndpointOwner::new(\n    spi_dma::SpiDmaOwner::new(\n        spi1_irq,\n        spi1_poller,\n        spi1_recovery_rx_buffer,\n        spi1_cs,\n    ),\n    &SPI1_MAILBOX,\n);\nlet spi1_parser = Spi1ImuParser::new(spi1_parser_side);\nlet spi1_data_ready = ferrowasp_stm32f4::exti::init_input(\n    gpioc.pc4,\n    &mut syscfg,\n    &mut exti,\n    Edge::Rising,\n);\nlet spi1_device = Spi1ImuDevice::new(\n    &SPI1_MAILBOX,\n    || { let _ = spi1_owner_service::spawn(); },\n);\nlet imu_sample = ImuData::default();\nlet spi1_unavailable_logged = false;"
    );
    assert_eq!(
        render_imu_endpoint_initialization(&board, None, &full_imu_endpoint()).unwrap_err(),
        "SPI IMU initialization requires a general initialization delay timer"
    );
    assert_eq!(
        render_imu_endpoint_initialization(&board, Some(InitDelayDeclaration::timer("tim4", 1_000)), &full_imu_endpoint())
            .unwrap_err(),
        "the STM32F4 renderer does not support Tim4 as the initialization delay"
    );
    let mut partial = full_imu_endpoint();
    partial.resources.retain(|resource| resource.role != ImuEndpointResourceRole::Device);
    assert_eq!(
        render_imu_endpoint_initialization(&board, delay, &partial).unwrap_err(),
        "IMU endpoint `spi1` has no Device resource"
    );
}

#[test]
fn serial_routing_needs_both_endpoints_and_both_services() {
    let serial = |id: &'static str| {
        let mut endpoint = usart2_endpoint(3, Vec::new());
        endpoint.declaration.id = id;
        endpoint
    };
    let endpoints = vec![serial("serial1"), serial("serial2")];
    let config = PlatformConfig::empty()
        .serial1(SerialService::RcSbus)
        .serial2(SerialService::MspV1Osd);
    let routing = render_serial_service_routing(&endpoints, config).unwrap();
    assert!(routing.starts_with(
        "// ===== Boot-time serial service routing =====\nlet (\n    rc_sbus_reader,\n"
    ));
    assert!(routing.ends_with(
        "        _ => panic!(\"boot platform config must assign RcSbus and MspV1Osd to distinct serial endpoints\"),\n    };"
    ));
    let only_sbus = PlatformConfig::empty().serial1(SerialService::RcSbus);
    assert_eq!(
        render_serial_service_routing(&endpoints, only_sbus).unwrap_err(),
        "the current runtime serial router requires serial1, serial2, RcSbus, and MspV1Osd"
    );
    assert!(render_serial_service_routing(&vec![serial("serial1")], config).is_err());
}

fn foxeer_dshot_actuator() -> ResolvedDshotActuator {
    let dma2 = |stream, channel| DmaRoute::new(DmaController::Dma2, stream, channel);
    let lanes = [
        DshotLaneHardwareDeclaration::new(1, 1, DshotTimerChannel::Tim1Ch1, PinId::new(GpioPort::A, 8), dma2(DmaStream::Stream1, DmaChannel::Channel6)),
        DshotLaneHardwareDeclaration::new(2, 2, DshotTimerChannel::Tim8Ch4, PinId::new(GpioPort::C, 9), dma2(DmaStream::Stream7, DmaChannel::Channel7)),
        DshotLaneHardwareDeclaration::new(3, 3, DshotTimerChannel::Tim8Ch3, PinId::new(GpioPort::C, 8), dma2(DmaStream::Stream2, DmaChannel::Channel0)),
        DshotLaneHardwareDeclaration::new(4, 4, DshotTimerChannel::Tim1Ch3N, PinId::new(GpioPort::B, 15), dma2(DmaStream::Stream6, DmaChannel::Channel6)),
    ];
    ResolvedDshotActuator {
        hardware: DshotBankHardwareDeclaration::new("dshot_bank", lanes),
        telemetry: SerialHardwareDeclaration {
            id: "esc_telemetry",
            port: SerialPortDeclaration {
                peripheral: SerialPeripheral::Usart1,
                rx: Some(SerialSignalRoute {
                    pin: PinId::new(GpioPort::A, 10),
                    dma: Some(dma2(DmaStream::Stream5, DmaChannel::Channel4)),
                }),
                tx: None,
            },
        },
    }
}

#[test]
fn dshot_actuator_initialization_checks_the_reviewed_wiring() {
    let text = render_dshot_actuator_initialization(&vec![foxeer_dshot_actuator()]).unwrap();
    assert!(text.starts_with(
        "// ===== Physical DShot actuator initialization =====\nferrowasp_stm32f4::dshot::assert_foxeer_four_motor_dma_routes_compile();\nlet esc_uart_parts = ferrowasp_stm32f4::uart_dma::init_usart1_esc_telemetry(\n"
    ));
    assert!(text.contains("let esc_manager_state = EscManager::new(EscManagerConfig::legacy_uart(), 0);\n"));
    assert!(text.ends_with(".expect(\"reviewed Foxeer DShot600 timing must be valid\");"));

    assert_eq!(
        render_dshot_actuator_initialization(&Vec::new()).unwrap_err(),
        "the STM32F4 renderer requires exactly one DShot actuator"
    );
    let mut drifted = foxeer_dshot_actuator();
    drifted.hardware.lanes[1].pin = PinId::new(GpioPort::C, 7);
    assert_eq!(
        render_dshot_actuator_initialization(&vec![drifted]).unwrap_err(),
        "DShot physical output 2 drifted from the reviewed Foxeer route"
    );
    let mut deaf = foxeer_dshot_actuator();
    deaf.telemetry.port.rx = None;
    assert_eq!(
        render_dshot_actuator_initialization(&vec![deaf]).unwrap_err(),
        "validated ESC telemetry RX route disappeared"
    );
    let mut moved = foxeer_dshot_actuator();
    moved.telemetry.port.rx = Some(SerialSignalRoute { pin: PinId::new(GpioPort::B, 7), dma: None });
    assert_eq!(
        render_dshot_actuator_initialization(&vec![moved]).unwrap_err(),
        "serial endpoint `esc_telemetry` RX route PinId { port: B, pin: 7 }/None is unsupported; expected PinId { port: A, pin: 10 }/DmaRoute { controller: Dma2, stream: Stream5, channel: Channel4 }"
    );
}

#[test]
fn initialization_body_joins_every_section_with_blank_lines() {
    let board = board();
    let states = vec![ResolvedTaskState { id: "presses", owner_task: "blink", recipe: TaskStateRecipe::U32(0) }];
    let gpio = vec![ResolvedGpioResource {
        hardware: GpioHardwareDeclaration::output("led", PinId::new(GpioPort::B, 1), Level::Low),
        owner_task: "blink",
    }];
    let dshots = vec![foxeer_dshot_actuator()];
    let body = render_initialization(
        &board,
        ClockSource::Hsi,
        MonotonicDeclaration::systick(1_000),
        None,
        PlatformConfig::empty(),
        &Vec::new(),
        &states,
        &gpio,
        &Vec::new(),
        &Vec::new(),
        &dshots,
    )
    .unwrap();
    let dshot = render_dshot_actuator_initialization(&dshots).unwrap();
    let expected = [
        "// ===== Common initialization =====\nlet platform_config = load_platform_config();",
        "let mut rcc = ferrowasp_stm32f4::clocks::freeze_hsi(\n    cx.device.RCC.constrain(),\n    SYSTEM_CLOCK_HZ,\n    false,\n);",
        "Mono::start(cx.core.SYST, SYSTEM_CLOCK_HZ);",
        "// ===== Application-owned state for task `blink` initialization =====\nlet presses = 0;",
        "let gpioa = cx.device.GPIOA.split(&mut rcc);",
        "let gpiob = cx.device.GPIOB.split(&mut rcc);",
        "let gpioc = cx.device.GPIOC.split(&mut rcc);",
        "// ===== Task `blink` board GPIO initialization =====\nlet mut led = gpiob.pb1.into_push_pull_output_in_state(PinState::Low);\nled.set_internal_resistor(Pull::None);\nled.set_speed(Speed::Low);",
        "let dma2 = StreamsTuple::new(cx.device.DMA2, &mut rcc);",
        dshot.as_str(),
    ]
    .join("\n\n");
    assert_eq!(body, expected);

    let serials = vec![usart2_endpoint(3, Vec::new())];
    let missing = render_initialization(
        &board,
        ClockSource::Hsi,
        MonotonicDeclaration::systick(1_000),
        None,
        PlatformConfig::empty(),
        &Vec::new(),
        &Vec::new(),
        &Vec::new(),
        &serials,
        &Vec::new(),
        &Vec::new(),
    );
    assert_eq!(missing.unwrap_err(), "serial endpoint `serial2` has no active RxBuffers resource");
}

#[test]
fn every_lowered_gpio_is_bound_by_its_initialization() {
    let gpio = vec![
        ResolvedGpioResource {
            hardware: GpioHardwareDeclaration::output("led", PinId::new(GpioPort::A, 5), Level::Low),
            owner_task: "blink",
        },
        ResolvedGpioResource {
            hardware: GpioHardwareDeclaration::input("user_button", PinId::new(GpioPort::C, 13))
                .interrupt_on(InterruptEdge::Falling),
            owner_task: "button",
        },
    ];
    let mut lowered = LoweredResources::new();
    lowered.lower_gpio_resources(&gpio).unwrap();
    let sections = render_gpio_sections(&gpio).unwrap();
    assert_eq!(sections.len(), gpio.len());
    for (resource, section) in gpio.iter().zip(&sections) {
        let id = resource.hardware.id;
        assert!(lowered.local_values.iter().any(|value| value == id));
        let body = section.split_once('\n').unwrap().1;
        assert!(body.starts_with(&format!("let {id} ")) || body.starts_with(&format!("let mut {id} ")));
    }
}
