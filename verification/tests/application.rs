use app_builder::application::resolve;
use app_builder::board::{
    BoardDeclaration, ImuInstallationDeclaration, McuDeclaration, SpiBus, SpiHardwareDeclaration,
    SpiPeripheral, TimerHardwareDeclaration, TimerPeripheral,
};
use app_builder::component::ComponentDeclaration;
use app_builder::component_expansion::{expand_imu_endpoint_tasks, expand_periodic_control_task};
use app_builder::composition::{
    validate, AppComposition, InitSpawn, SharedResourceDeclaration, TaskDeclaration,
};
use app_builder::dma_route::{DmaChannel, DmaController, DmaRoute, DmaStream};
use app_builder::endpoint_resolution::{resolve_imu_endpoint, resolve_serial_endpoint};
use app_builder::gpio::{GpioHardwareDeclaration, InterruptEdge, Level};
use app_builder::hardware_lowering::{lower, McuDevice};
use app_builder::imu_endpoint::{spi_imu_endpoint, ImuEndpointDeclaration};
use app_builder::initialization::ClockSource;
use app_builder::periodic_control::{periodic_control_timer, PeriodicControlDeclaration};
use app_builder::pins::{GpioPort, PinId};
use app_builder::platform_config::{ImuInstallationId, PlatformConfig, SpiService};
use app_builder::resolve::{resolve_periodic_control, ResolvedTaskTrigger};
use app_builder::serial::SerialPeripheral;
use app_builder::serial_endpoint::{
    SerialEndpointDeclaration, SerialEndpointDefinition, SerialEndpointTasks,
    SerialHardwareDeclaration, SerialPortDeclaration, SerialSignalRoute,
};
use app_builder::state::{
    TaskStateDeclaration, TaskStateField, TaskStateRecipe, TaskStateRole, TaskStateSchema,
};
use app_builder::task::{
    Axis, ConfigBinding, ConfigValue, FrameRotation, ResourceBinding, ResourceRequirement,
    SignedAxis, SpawnBinding, SpawnRequirement, TaskContract, TaskSource,
};
use app_builder::timing::MonotonicDeclaration;

fn board() -> BoardDeclaration {
    BoardDeclaration {
        mcu: McuDeclaration {
            device: McuDevice::Stm32f405,
            clock: ClockSource::Hsi,
            system_clock_hz: 16_000_000,
        },
        id: "resolution_board",
        gpio: vec![
            GpioHardwareDeclaration::output("led2", PinId::new(GpioPort::A, 5), Level::Low),
            GpioHardwareDeclaration::input("user_button", PinId::new(GpioPort::C, 13))
                .interrupt_on(InterruptEdge::Falling),
        ],
        timers: vec![TimerHardwareDeclaration { id: "tim4", peripheral: TimerPeripheral::Tim4 }],
        spi: Vec::new(),
        serial: Vec::new(),
    }
}

fn identity() -> FrameRotation {
    FrameRotation {
        body_x: SignedAxis { axis: Axis::X, negated: false },
        body_y: SignedAxis { axis: Axis::Y, negated: false },
        body_z: SignedAxis { axis: Axis::Z, negated: false },
    }
}

fn spi_board() -> BoardDeclaration {
    let mut board = board();
    board.spi = vec![SpiHardwareDeclaration {
        id: "spi1",
        bus: SpiBus {
            peripheral: SpiPeripheral::Spi1,
            sck: PinId::new(GpioPort::A, 5),
            miso: PinId::new(GpioPort::A, 6),
            mosi: PinId::new(GpioPort::A, 7),
            dma_rx: DmaRoute::new(DmaController::Dma2, DmaStream::Stream0, DmaChannel::Channel3),
            dma_tx: DmaRoute::new(DmaController::Dma2, DmaStream::Stream3, DmaChannel::Channel3),
        },
        imu: vec![ImuInstallationDeclaration {
            id: ImuInstallationId::new(1),
            chip_select: PinId::new(GpioPort::A, 4),
            data_ready: PinId::new(GpioPort::C, 4),
            data_ready_edge: InterruptEdge::Rising,
            orientation: identity(),
        }],
    }];
    board
}

fn composition(tasks: Vec<TaskDeclaration>) -> AppComposition {
    AppComposition {
        board: board(),
        platform: PlatformConfig::empty(),
        monotonic: MonotonicDeclaration::systick(1_000),
        init_delay: None,
        components: Vec::new(),
        shared_resources: Vec::new(),
        safety_channels: Vec::new(),
        task_state: Vec::new(),
        tasks,
        init_spawns: Vec::new(),
    }
}

fn button_contract() -> TaskContract {
    TaskContract {
        id: "button_exti",
        source: TaskSource::new("src/backends/stm32f4/tasks/button_exti.rs", "button_exti"),
        local: vec![ResourceRequirement::new("button", "dyn ExtiPin")],
        shared: vec![ResourceRequirement::new("enabled", "bool")],
        config: vec![ResourceRequirement::new("toggle_on_press", "bool")],
        spawns: vec![SpawnRequirement::new("button_changed", vec!["bool"])],
    }
}

fn button() -> TaskDeclaration {
    TaskDeclaration::interrupt("button_exti", button_contract(), "EXTI15_10")
        .priority(2)
        .with_local(vec![ResourceBinding::new("button", "user_button", "dyn ExtiPin")])
        .with_shared(vec![ResourceBinding::new("enabled", "button_enabled", "bool")])
        .with_config(vec![ConfigBinding::new("toggle_on_press", "bool", ConfigValue::Bool(true))])
        .with_spawns(vec![SpawnBinding::new(
            "button_changed",
            "observe_button_change",
            vec!["bool"],
        )])
}

fn observer() -> TaskDeclaration {
    TaskDeclaration::software(
        "observe_button_change",
        TaskContract::new(
            "observe_button_change",
            TaskSource::new("tasks/observe_button_change.rs", "observe_button_change"),
        ),
    )
    .priority(1)
}

fn observer_state() -> TaskStateDeclaration {
    TaskStateSchema { id: "observer_state", version: 1 }.declare(
        "observe_button_change",
        vec![TaskStateField::new(
            "observed_sequence",
            TaskStateRole::ImuLastSequence,
            TaskStateRecipe::U32(0),
        )],
    )
}

fn button_app() -> AppComposition {
    let mut app = composition(vec![button(), observer()]);
    app.shared_resources = vec![SharedResourceDeclaration::bool("button_enabled", false)];
    app.task_state = vec![observer_state()];
    app.init_spawns = vec![InitSpawn { task: "observe_button_change" }];
    app
}

fn timing_only_control() -> PeriodicControlDeclaration {
    periodic_control_timer()
        .declare("control", "tim4")
        .scheduler_hz(800)
        .control_hz(400)
        .interrupt_priority(14)
}

fn imu_declaration() -> ImuEndpointDeclaration {
    spi_imu_endpoint()
        .declare("spi1", "spi1")
        .data_ready_priority(8)
        .owner_priority(7)
        .poll_priority(6)
        .parser_priority(5)
}

fn serial_declaration(hardware_id: &'static str) -> SerialEndpointDeclaration {
    let contract = || TaskContract::new("body", TaskSource::new("tasks.rs", "body"));
    SerialEndpointDeclaration {
        id: "serial1",
        definition: SerialEndpointDefinition {
            id: "uart_dma_endpoint",
            tasks: SerialEndpointTasks {
                peripheral_irq: contract(),
                rx_dma_irq: contract(),
                rx_bridge: contract(),
                tx_dma_irq: contract(),
                tx_worker: contract(),
            },
            resources: Vec::new(),
        },
        hardware_id,
        interrupt_priority: 7,
        bridge_priority: 5,
        worker_priority: Some(3),
        rx_buffer_count: 4,
        rx_queue_depth: 4,
        tx_queue_depth: 16,
    }
}

fn uart4() -> SerialHardwareDeclaration {
    let dma1 = |stream, channel| DmaRoute::new(DmaController::Dma1, stream, channel);
    SerialHardwareDeclaration {
        id: "uart4",
        port: SerialPortDeclaration {
            peripheral: SerialPeripheral::Uart4,
            rx: Some(SerialSignalRoute {
                pin: PinId::new(GpioPort::A, 1),
                dma: Some(dma1(DmaStream::Stream2, DmaChannel::Channel4)),
            }),
            tx: Some(SerialSignalRoute {
                pin: PinId::new(GpioPort::A, 0),
                dma: Some(dma1(DmaStream::Stream4, DmaChannel::Channel4)),
            }),
        },
    }
}

#[test]
fn button_application_resolves_tasks_resources_state_and_dispatchers() {
    let app = resolve(button_app(), "imu_sample").unwrap();
    let ids: Vec<&str> = app.tasks.iter().map(|task| task.id.as_str()).collect();
    assert_eq!(ids, vec!["button_exti", "observe_button_change"]);
    assert!(matches!(&app.tasks[0].trigger, ResolvedTaskTrigger::Interrupt(name) if name == "EXTI15_10"));
    assert_eq!(app.shared_resources.len(), 1);
    assert_eq!(app.shared_resources[0].id, "button_enabled");
    assert_eq!(app.gpio_resources.len(), 1);
    assert_eq!(app.gpio_resources[0].hardware.id, "user_button");
    assert_eq!(app.gpio_resources[0].owner_task, "button_exti");
    assert_eq!(app.task_state.len(), 1);
    assert_eq!(app.task_state[0].id, "observed_sequence");
    assert_eq!(app.task_state[0].owner_task, "observe_button_change");
    assert!(app.tasks[1]
        .local
        .iter()
        .any(|binding| binding.logical == "observed_sequence" && binding.target == "observed_sequence"));
    assert_eq!(app.init_spawns, vec!["observe_button_change".to_owned()]);
    assert_eq!(app.dispatchers, vec!["EXTI0".to_owned()]);
    assert!(app.safety_channels.is_empty());
    assert!(app.serial_endpoints.is_empty());
}

#[test]
fn resolved_task_state_lowers_to_a_guarded_local_field() {
    let app = resolve(button_app(), "imu_sample").unwrap();
    let hardware = lower(&app).unwrap();
    assert!(hardware.local_fields.iter().any(|line| line == "observed_sequence: u32,"));
    assert!(hardware
        .local_fields
        .iter()
        .any(|line| line.contains("Application-owned state for task `observe_button_change`")));
    assert!(hardware.local_values.iter().any(|line| line == "observed_sequence"));
    assert!(hardware.initialization.contains("observed_sequence"));
}

#[test]
fn invalid_composition_is_refused_with_its_validation_error() {
    let backup = TaskDeclaration::interrupt(
        "backup_button_exti",
        TaskContract::new("backup", TaskSource::new("tasks.rs", "backup")),
        "EXTI15_10",
    )
    .priority(2);
    let mut app = button_app();
    app.tasks.push(backup);
    let error = resolve(app, "imu_sample").unwrap_err();
    assert_eq!(
        error,
        "validate application composition: interrupt `EXTI15_10` is bound more than once"
    );
}

#[test]
fn ambiguous_timer_interrupt_binding_is_rejected() {
    let task = TaskDeclaration::interrupt(
        "competing_timer_task",
        TaskContract::new("competing_timer_task", TaskSource::new("test.rs", "competing_timer_task")),
        "TIM4",
    )
    .priority(1);
    let mut app = composition(vec![task]);
    app.components = vec![ComponentDeclaration::PeriodicControl(timing_only_control())];
    let error = resolve(app, "imu_sample").unwrap_err();
    assert!(error.contains("both bind interrupt `TIM4`"));
}

#[test]
fn state_cadence_must_match_the_periodic_control_declaration() {
    let state = TaskStateSchema { id: "cadence_state", version: 1 }.declare(
        "control_loop",
        vec![TaskStateField::new(
            "samples_per_control_loop",
            TaskStateRole::SamplesPerControlLoop,
            TaskStateRecipe::U32(3),
        )],
    );
    let mut app = composition(Vec::new());
    app.components = vec![ComponentDeclaration::PeriodicControl(timing_only_control())];
    app.task_state = vec![state];
    let error = resolve(app, "imu_sample").unwrap_err();
    assert!(error.contains("supplies 3 scheduler ticks"));
    assert!(error.contains("resolves to 2"));
}

#[test]
fn task_state_requires_a_resolved_owner_task() {
    let state = TaskStateSchema { id: "sequence_state", version: 1 }.declare(
        "missing_task",
        vec![TaskStateField::new(
            "imu_last_sequence",
            TaskStateRole::ImuLastSequence,
            TaskStateRecipe::U32(0),
        )],
    );
    let mut app = composition(Vec::new());
    app.task_state = vec![state];
    let error = resolve(app, "imu_sample").unwrap_err();
    assert!(error.contains("targets missing task `missing_task`"));
}

#[test]
fn periodic_control_expands_into_its_timer_interrupt_loop_task() {
    let control = resolve_periodic_control(&board(), timing_only_control()).unwrap();
    let task = expand_periodic_control_task(&control, &Vec::new()).unwrap();
    assert_eq!(task.id, "control_loop");
    assert!(matches!(&task.trigger, ResolvedTaskTrigger::Interrupt(name) if name == "TIM4"));
    assert_eq!(task.priority, 14);
    assert_eq!(task.owner_component, Some("control"));
    let targets: Vec<&str> = task.local.iter().map(|binding| binding.target.as_str()).collect();
    assert_eq!(targets, vec!["control_scheduler", "control_phase"]);
    assert_eq!(task.config.len(), 1);
    assert_eq!(task.config[0].logical, "ticks_per_control");
    assert_eq!(task.config[0].value, ConfigValue::U32(2));
}

#[test]
fn imu_endpoint_resolves_the_assigned_installation_and_names_its_sample() {
    let platform = PlatformConfig::empty().spi1(SpiService::Imu(ImuInstallationId::new(1)));
    let endpoint =
        resolve_imu_endpoint(&spi_board(), platform, imu_declaration(), "spi1_imu_sample").unwrap();
    assert_eq!(endpoint.hardware.data_ready, PinId::new(GpioPort::C, 4));
    assert_eq!(endpoint.spi.id, "spi1");
    assert!(endpoint.resources.iter().any(|resource| resource.id == "spi1_imu_sample"));
    assert!(endpoint.resources.iter().any(|resource| resource.id == "spi1_owner"));
    let missing = resolve_imu_endpoint(&board(), platform, imu_declaration(), "spi1_imu_sample");
    assert!(missing.is_err());
}

#[test]
fn imu_endpoint_expands_into_its_six_tasks() {
    let platform = PlatformConfig::empty().spi1(SpiService::Imu(ImuInstallationId::new(1)));
    let endpoint =
        resolve_imu_endpoint(&spi_board(), platform, imu_declaration(), "spi1_imu_sample").unwrap();
    let tasks = expand_imu_endpoint_tasks(&endpoint).unwrap();
    let ids: Vec<&str> = tasks.iter().map(|task| task.id.as_str()).collect();
    assert_eq!(
        ids,
        vec![
            "spi1_data_ready",
            "spi1_poll",
            "spi1_owner_service",
            "spi1_rx_dma_irq",
            "spi1_timeout",
            "spi1_parser",
        ]
    );
    assert!(matches!(&tasks[0].trigger, ResolvedTaskTrigger::Interrupt(name) if name == "EXTI4"));
    assert_eq!(tasks[0].priority, 8);
    assert!(matches!(&tasks[3].trigger, ResolvedTaskTrigger::Interrupt(name) if name == "DMA2_STREAM0"));
    assert_eq!(tasks[5].priority, 5);
}

#[test]
fn serial_endpoint_resolves_its_board_port() {
    let mut board = board();
    board.serial = vec![uart4()];
    let endpoint = resolve_serial_endpoint(&board, serial_declaration("uart4")).unwrap();
    assert_eq!(endpoint.hardware.id, "uart4");
    assert_eq!(endpoint.declaration.id, "serial1");
    let error = resolve_serial_endpoint(&board, serial_declaration("usart2")).unwrap_err();
    assert!(error.contains("usart2"));
}

#[test]
fn task_state_value_declared_twice_is_rejected() {
    let mut app = button_app();
    app.task_state.push(observer_state());
    let error = validate(&app).unwrap_err();
    assert_eq!(error.to_string(), "task-local state `observed_sequence` is declared more than once");
}

#[test]
fn task_state_value_cannot_take_a_board_resource_name() {
    let mut app = button_app();
    app.task_state = vec![TaskStateSchema { id: "observer_state", version: 1 }.declare(
        "observe_button_change",
        vec![TaskStateField::new("led2", TaskStateRole::ImuLastSequence, TaskStateRecipe::U32(0))],
    )];
    let error = validate(&app).unwrap_err();
    assert_eq!(
        error.to_string(),
        "task-local state `led2` collides with a declared hardware or service resource"
    );
}

#[test]
fn task_state_identifiers_must_be_rust_identifiers() {
    let mut app = button_app();
    app.task_state = vec![TaskStateSchema { id: "observer state", version: 1 }.declare(
        "observe_button_change",
        Vec::new(),
    )];
    let error = validate(&app).unwrap_err();
    assert_eq!(error.to_string(), "task-state schema ID `observer state` is not a Rust identifier");
}

#[test]
fn shared_resource_cannot_take_a_task_state_name() {
    let mut app = button_app();
    app.shared_resources.push(SharedResourceDeclaration::u32("observed_sequence", 0));
    let error = validate(&app).unwrap_err();
    assert_eq!(error.to_string(), "shared resource `observed_sequence` collides with task-local state");
}

#[test]
fn owner_task_may_bind_its_state_explicitly() {
    let mut app = button_app();
    let contract = TaskContract {
        id: "observe_button_change",
        source: TaskSource::new("tasks/observe_button_change.rs", "observe_button_change"),
        local: vec![ResourceRequirement::new("observed_sequence", "u32")],
        shared: Vec::new(),
        config: Vec::new(),
        spawns: Vec::new(),
    };
    app.tasks[1] = TaskDeclaration::software("observe_button_change", contract)
        .priority(1)
        .with_local(vec![ResourceBinding::new("observed_sequence", "observed_sequence", "u32")]);
    validate(&app).unwrap();
    let resolved = resolve(app.clone(), "imu_sample").unwrap();
    let bound = resolved.tasks[1]
        .local
        .iter()
        .filter(|binding| binding.target == "observed_sequence")
        .count();
    assert_eq!(bound, 1);
}
