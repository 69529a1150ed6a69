use app_builder::board::McuDeclaration;
use app_builder::board::{BoardDeclaration, TimerHardwareDeclaration, TimerPeripheral};
use app_builder::composition::SharedValue;
use app_builder::dma_route::{DmaChannel, DmaController, DmaRoute, DmaStream};
use app_builder::dshot::{DshotBankHardwareDeclaration, DshotLaneHardwareDeclaration, DshotTimerChannel};
use app_builder::dshot_initialization::ResolvedDshotActuator;
use app_builder::gpio::{GpioHardwareDeclaration, Level};
use app_builder::hardware_lowering::{lower, McuDevice, ResolvedApp};
use app_builder::initialization::ClockSource;
use app_builder::lower::render_platform_config;
use app_builder::pins::{GpioPort, PinId};
use app_builder::platform_config::{PlatformConfig, SerialService};
use app_builder::resolve::{
    ResolvedGpioResource, ResolvedResourceBinding, ResolvedSharedResource, ResolvedTask,
    ResolvedTaskTrigger,
};
use app_builder::serial::SerialPeripheral;
use app_builder::serial_endpoint::{SerialHardwareDeclaration, SerialPortDeclaration, SerialSignalRoute};
use app_builder::task::{TaskContract, TaskSafetyClass, TaskSource};
use app_builder::timing::MonotonicDeclaration;

fn blink_task() -> ResolvedTask {
    let binding = |logical: &'static str, target: &str| ResolvedResourceBinding {
        logical,
        target: target.to_string(),
    };
    ResolvedTask {
        id: "blink_led".to_owned(),
        contract: TaskContract::new("blink_led", TaskSource::new("tasks/blink_led.rs", "blink_led")),
        trigger: ResolvedTaskTrigger::Software,
        priority: 1,
        safety_class: TaskSafetyClass::NonSafetyCritical,
        local: vec![binding("led", "led2")],
        shared: vec![binding("enabled", "button_enabled")],
        config: Vec::new(),
        spawns: Vec::new(),
        owner_component: None,
    }
}

fn blinky() -> ResolvedApp {
    ResolvedApp {
        board: BoardDeclaration {
            mcu: McuDeclaration { device: McuDevice::Stm32f405, clock: ClockSource::Hsi, system_clock_hz: 168_000_000 },
            id: "nucleo_f401re",
            gpio: vec![GpioHardwareDeclaration::output("led2", PinId::new(GpioPort::A, 5), Level::Low)],
            timers: vec![TimerHardwareDeclaration { id: "tim2", peripheral: TimerPeripheral::Tim2 }],
            spi: Vec::new(),
            serial: Vec::new(),
        },
        monotonic: MonotonicDeclaration::systick(1_000),
        init_delay: None,
        platform: PlatformConfig::empty(),
        shared_resources: vec![ResolvedSharedResource {
            id: "button_enabled",
            initial: SharedValue::Bool(true),
        }],
        safety_channels: Vec::new(),
        gpio_resources: vec![ResolvedGpioResource {
            hardware: GpioHardwareDeclaration::output("led2", PinId::new(GpioPort::A, 5), Level::Low),
            owner_task: "blink_led",
        }],
        task_state: Vec::new(),
        serial_endpoints: Vec::new(),
        imu_endpoints: Vec::new(),
        periodic_controls: Vec::new(),
        dshot_actuators: Vec::new(),
        tasks: vec![blink_task()],
        init_spawns: Vec::new(),
        dispatchers: vec!["EXTI0".to_string()],
    }
}

fn strings(lines: &[&str]) -> Vec<String> {
    lines.iter().map(|line| line.to_string()).collect()
}

#[test]
fn blinky_lowers_its_shared_flag_and_task_owned_led() {
    let hardware = lower(&blinky()).unwrap();
    assert_eq!(
        hardware.shared_fields,
        strings(&[
            "// ===== Application resource `button_enabled`; tasks: blink_led =====",
            "button_enabled: bool,",
        ])
    );
    assert_eq!(
        hardware.shared_values,
        strings(&[
            "// ===== Application resource `button_enabled`; tasks: blink_led =====",
            "button_enabled: true",
        ])
    );
    assert_eq!(
        hardware.local_fields,
        strings(&[
            "// ===== Task `blink_led` board GPIO resources =====",
            "led2: Pin<'A', 5, Output<PushPull>>,",
        ])
    );
    assert_eq!(
        hardware.local_values,
        strings(&["// ===== Task `blink_led` board GPIO resources =====", "led2"])
    );
    assert!(hardware.init_locals.is_empty());
    assert_eq!(
        hardware.timing,
        "const SYSTEM_CLOCK_HZ: u32 = 168_000_000;\n\nsystick_monotonic!(Mono, 1_000);"
    );
    assert_eq!(hardware.globals, "");
    assert_eq!(hardware.platform_config, render_platform_config(PlatformConfig::empty()));
    assert!(hardware.initialization.starts_with("// ===== Common initialization ====="));
    assert!(hardware.initialization.contains("gpioa.pa5"));
    assert!(!hardware.imports.contains("scheduler::"));
}

#[test]
fn only_the_stm32f405_is_supported() {
    let mut app = blinky();
    app.board.mcu.device = McuDevice::Stm32f401;
    assert_eq!(
        lower(&app).unwrap_err(),
        "the STM32F4 renderer currently supports only STM32F405"
    );
}

#[test]
fn unsupported_monotonic_timer_is_rejected_after_the_resources() {
    let mut app = blinky();
    app.board.timers.push(TimerHardwareDeclaration { id: "tim4", peripheral: TimerPeripheral::Tim4 });
    app.monotonic = MonotonicDeclaration::timer("tim4", 1_000);
    assert!(lower(&app).is_err());
}

#[test]
fn boot_routed_serial_services_get_task_local_handles() {
    let mut app = blinky();
    app.platform = PlatformConfig::empty()
        .serial1(SerialService::RcSbus)
        .serial2(SerialService::MspV1Osd);
    let lines = match lower(&app) {
        Ok(hardware) => hardware.local_fields,
        Err(error) => panic!("{error}"),
    };
    assert_eq!(
        lines[2..].to_vec(),
        strings(&[
            "// ===== Serial service `RcSbus` boot-routed resources =====",
            "rc_sbus_reader: UartOwnedReader<'static>,",
            "rc_sbus_rx_discontinuities: UartOwnedDiscontinuities<'static>,",
            "// ===== Serial service `MspV1Osd` boot-routed resources =====",
            "msp_v1_osd_reader: UartOwnedReader<'static>,",
            "msp_v1_osd_rx_discontinuities: UartOwnedDiscontinuities<'static>,",
            "msp_v1_osd_writer: UartOwnedWriter<'static>,",
        ])
    );
}

fn foxeer_dshot_actuator() -> ResolvedDshotActuator {
    let dma2 = |stream, channel| DmaRoute::new(DmaController::Dma2, stream, channel);
    let lanes = [
        DshotLaneHardwareDeclaration::new(1, 1, DshotTimerChannel::Tim1Ch1, PinId::new(GpioPort::A, 8), dma2(DmaStream::Stream1, DmaChannel::Channel6)),
        DshotLaneHardwareDeclaration::new(2, 2, DshotTimerChannel::Tim8Ch4, PinId::new(GpioPort::C, 9), dma2(DmaStream::Stream7, DmaChannel::Channel7)),
        DshotLaneHardwareDeclaration::new(3, 3, DshotTimerChannel::Tim8Ch3, PinId::new(GpioPort::C, 8), dma2(DmaStream::Stream2, DmaChannel::Channel0)),
        DshotLaneHardwareDeclaration::new(4, 4, DshotTimerChannel::Tim1Ch3N, PinId::new(GpioPort::B, 15), dma2(DmaStream::Stream6, DmaChannel::Channel6)),
    ];
    ResolvedDshotActuator {
        hardware: DshotBankHardwareDeclaration::new("dshot_bank", lanes),
        telemetry: SerialHardwareDeclaration {
            id: "esc_telemetry",
            port: SerialPortDeclaration {
                peripheral: SerialPeripheral::Usart1,
                rx: Some(SerialSignalRoute {
                    pin: PinId::new(GpioPort::A, 10),
                    dma: Some(dma2(DmaStream::Stream5, DmaChannel::Channel4)),
                }),
                tx: None,
            },
        },
    }
}

#[test]
fn physical_dshot_actuator_lowers_its_fixed_resources() {
    let mut app = blinky();
    app.dshot_actuators = vec![foxeer_dshot_actuator()];
    let hardware = match lower(&app) {
        Ok(hardware) => hardware,
        Err(error) => panic!("{error}"),
    };
    assert_eq!(
        hardware.shared_fields[2..].to_vec(),
        strings(&[
            "// ===== Physical DShot actuator resources =====",
            "dshot_motors: DshotMotorBank,",
            "uart1_rx: Uart1RxIrq,",
            "esc_telemetry_discontinuity: bool,",
        ])
    );
    assert_eq!(hardware.local_fields.len(), 2 + 1 + 12);
    assert_eq!(hardware.local_fields[14], "dshot_fault_reported: bool,");
    assert_eq!(hardware.init_locals.len(), 7);
    assert_eq!(hardware.init_locals[0].id, "dshot_dma_storage");
    assert_eq!(hardware.init_locals[6].initializer, "EscTelemetryUpdateQueue::new()");
    assert_eq!(hardware.init_locals[6].section, "Physical DShot actuator resources");
    assert!(hardware.imports.contains("DshotMotorBank"));

    app.dshot_actuators.push(foxeer_dshot_actuator());
    assert_eq!(
        lower(&app).unwrap_err(),
        "the STM32F4 renderer supports exactly one physical DShot actuator"
    );
}
