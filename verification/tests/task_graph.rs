use app_builder::board::McuDeclaration;
use app_builder::hardware_lowering::McuDevice;
use app_builder::initialization::ClockSource;
use app_builder::task::{Axis, FrameRotation, SignedAxis};
use app_builder::bindings::local_resource_owners;
use app_builder::board::{
    ImuInstallationDeclaration, SpiBus, SpiHardwareDeclaration, SpiPeripheral,
    TimerHardwareDeclaration, TimerPeripheral,
};
use app_builder::dma_route::{DmaChannel, DmaController, DmaRoute, DmaStream};
use app_builder::imu_endpoint::spi_imu_endpoint;
use app_builder::serial::SerialPeripheral;
use app_builder::serial_endpoint::{
    SerialEndpointDeclaration, SerialEndpointDefinition, SerialEndpointTasks,
    SerialHardwareDeclaration, SerialPortDeclaration, SerialSignalRoute,
};
use app_builder::component::ComponentDeclaration;
use app_builder::composition::{
    rust_types_match, validate, validate_identifier, validate_slots, AppComposition, InitSpawn,
    SharedResourceDeclaration, TaskDeclaration,
};
use app_builder::gpio::{GpioHardwareDeclaration, InterruptEdge, Level};
use app_builder::periodic_control::{periodic_control_timer, PeriodicControlDeclaration};
use app_builder::pins::{GpioPort, PinId};
use app_builder::platform_config::{ImuInstallationId, PlatformConfig, SerialService, SpiService};
use app_builder::timing::{InitDelayDeclaration, MonotonicDeclaration};
use app_builder::safety_channel::SafetyChannelDeclaration;
use app_builder::task::{
    ConfigBinding, ConfigValue, ResourceBinding, ResourceRequirement, SpawnBinding,
    SpawnRequirement, TaskContract, TaskSafetyClass, TaskSource,
};
use app_builder::board::BoardDeclaration;
use app_builder::resolve::{resolve_safety_channel, resolve_standalone_task};

fn test_board() -> BoardDeclaration {
    BoardDeclaration {
        mcu: McuDeclaration { device: McuDevice::Stm32f405, clock: ClockSource::Hsi, system_clock_hz: 16_000_000 },
        id: "composition_test_board",
        gpio: vec![
            GpioHardwareDeclaration::output("led2", PinId::new(GpioPort::A, 5), Level::Low),
            GpioHardwareDeclaration::input("user_button", PinId::new(GpioPort::C, 13))
                .interrupt_on(InterruptEdge::Falling),
        ],
        timers: vec![TimerHardwareDeclaration {
            id: "tim4",
            peripheral: TimerPeripheral::Tim4,
        }],
        spi: Vec::new(),
        serial: Vec::new(),
    }
}

fn app(
    tasks: Vec<TaskDeclaration>,
    safety_channels: Vec<SafetyChannelDeclaration>,
    init_spawns: Vec<InitSpawn>,
) -> AppComposition {
    AppComposition {
        board: test_board(),
        platform: PlatformConfig::empty(),
        monotonic: MonotonicDeclaration::systick(1_000),
        init_delay: None,
        components: Vec::new(),
        shared_resources: vec![SharedResourceDeclaration::bool("button_enabled", false)],
        safety_channels,
        task_state: Vec::new(),
        tasks,
        init_spawns,
    }
}

fn button_contract() -> TaskContract {
    TaskContract {
        id: "button_exti",
        source: TaskSource::new("src/backends/stm32f4/tasks/button_exti.rs", "button_exti"),
        local: vec![ResourceRequirement::new("button", "dyn ExtiPin")],
        shared: vec![ResourceRequirement::new("enabled", "bool")],
        config: vec![ResourceRequirement::new("toggle_on_press", "bool")],
        spawns: vec![SpawnRequirement::new("button_changed", vec!["bool"])],
    }
}

fn observer_contract() -> TaskContract {
    TaskContract::new(
        "observe_button_change",
        TaskSource::new("tasks/observe_button_change.rs", "observe_button_change"),
    )
}

fn observer() -> TaskDeclaration {
    TaskDeclaration::software("observe_button_change", observer_contract()).priority(1)
}

fn button(id: &'static str) -> TaskDeclaration {
    TaskDeclaration::interrupt(id, button_contract(), "EXTI15_10")
        .priority(2)
        .with_local(vec![ResourceBinding::new("button", "user_button", "dyn ExtiPin")])
        .with_shared(vec![ResourceBinding::new("enabled", "button_enabled", "bool")])
        .with_config(vec![ConfigBinding::new(
            "toggle_on_press",
            "bool",
            ConfigValue::Bool(true),
        )])
        .with_spawns(vec![SpawnBinding::new(
            "button_changed",
            "observe_button_change",
            vec!["bool"],
        )])
}

fn producer_contract(id: &'static str) -> TaskContract {
    TaskContract {
        id,
        source: TaskSource::new("test_safety_tasks.rs", id),
        local: vec![ResourceRequirement::new(
            "commands",
            "SafetyProducer<'static, MotorCmd>",
        )],
        shared: Vec::new(),
        config: Vec::new(),
        spawns: Vec::new(),
    }
}

fn producer(id: &'static str) -> TaskDeclaration {
    TaskDeclaration::software(id, producer_contract(id))
        .priority(2)
        .safety_critical()
        .with_local(vec![ResourceBinding::new(
            "commands",
            "motor_cmd_producer",
            "SafetyProducer<'static, MotorCmd>",
        )])
}

fn consumer() -> TaskDeclaration {
    let contract = TaskContract {
        id: "actuator_consumer",
        source: TaskSource::new("test_safety_tasks.rs", "actuator_consumer"),
        local: vec![ResourceRequirement::new(
            "commands",
            "SafetyConsumer<'static, MotorCmd>",
        )],
        shared: Vec::new(),
        config: Vec::new(),
        spawns: Vec::new(),
    };
    TaskDeclaration::software("actuator_consumer", contract)
        .priority(3)
        .safety_critical()
        .with_local(vec![ResourceBinding::new(
            "commands",
            "motor_cmd_consumer",
            "SafetyConsumer<'static, MotorCmd>",
        )])
}

fn motor_channel(capacity: usize) -> SafetyChannelDeclaration {
    SafetyChannelDeclaration::motor_commands(
        "control_to_actuator",
        capacity,
        "motor_cmd_producer",
        "motor_cmd_consumer",
    )
}

#[test]
fn button_graph_with_observer_is_valid() {
    let tasks = vec![button("button_exti"), observer()];
    let init = vec![InitSpawn { task: "observe_button_change" }];
    validate(&app(tasks, Vec::new(), init)).unwrap();
}

#[test]
fn duplicate_interrupt_binding_is_rejected() {
    let backup = TaskDeclaration::interrupt("backup_button_exti", observer_contract(), "EXTI15_10")
        .priority(2);
    let tasks = vec![button("button_exti"), backup];
    let error = validate(&app(tasks, Vec::new(), Vec::new())).unwrap_err();
    assert_eq!(error.to_string(), "interrupt `EXTI15_10` is bound more than once");
}

#[test]
fn missing_task_configuration_is_rejected() {
    let mut task = button("button_exti");
    task = task.with_config(Vec::new());
    let tasks = vec![task, observer()];
    let error = validate(&app(tasks, Vec::new(), Vec::new())).unwrap_err();
    assert!(error
        .to_string()
        .contains("does not bind configuration value `toggle_on_press`"));
}

#[test]
fn mistyped_configuration_value_is_rejected() {
    let task = button("button_exti").with_config(vec![ConfigBinding::new(
        "toggle_on_press",
        "bool",
        ConfigValue::U32(1),
    )]);
    let error = validate(&app(vec![task, observer()], Vec::new(), Vec::new())).unwrap_err();
    assert_eq!(
        error.to_string(),
        "task `button_exti` configuration `toggle_on_press` requires `bool`, but composition supplies `u32`"
    );
}

#[test]
fn init_cannot_spawn_an_interrupt_task() {
    let tasks = vec![button("button_exti"), observer()];
    let init = vec![InitSpawn { task: "button_exti" }];
    let error = validate(&app(tasks, Vec::new(), init)).unwrap_err();
    assert_eq!(error.to_string(), "init cannot spawn interrupt task `button_exti`");
}

#[test]
fn logical_spawn_requires_a_declared_software_task() {
    let invalid = button("button_exti").with_spawns(vec![SpawnBinding::new(
        "button_changed",
        "missing_observer",
        vec!["bool"],
    )]);
    let error = validate(&app(vec![invalid, observer()], Vec::new(), Vec::new()))
        .unwrap_err();
    assert!(error
        .to_string()
        .contains("targets undeclared task `missing_observer`"));
}

#[test]
fn spawn_to_an_undeclared_task_is_rejected() {
    let tasks = vec![button("button_exti")];
    let error = validate(&app(tasks, Vec::new(), Vec::new())).unwrap_err();
    assert_eq!(
        error.to_string(),
        "task `button_exti` spawn slot `button_changed` targets undeclared task `observe_button_change`"
    );
}

#[test]
fn zero_priority_and_duplicate_ids_are_rejected() {
    let unprioritized = TaskDeclaration::software("observe_button_change", observer_contract());
    let error = validate(&app(vec![unprioritized], Vec::new(), Vec::new())).unwrap_err();
    assert_eq!(
        error.to_string(),
        "task `observe_button_change` must have a nonzero priority"
    );
    let error = validate(&app(vec![observer(), observer()], Vec::new(), Vec::new()))
        .unwrap_err();
    assert_eq!(
        error.to_string(),
        "task `observe_button_change` is declared more than once"
    );
}

#[test]
fn safety_channel_requires_two_critical_task_local_owners() {
    let tasks = vec![producer("control_producer"), consumer()];
    validate(&app(tasks.clone(), vec![motor_channel(3)], Vec::new())).unwrap();
    assert_eq!(
        local_resource_owners(&app(tasks.clone(), vec![motor_channel(3)], Vec::new()), "motor_cmd_producer"),
        vec!["control_producer".to_string()]
    );

    let board = BoardDeclaration {
        mcu: McuDeclaration { device: McuDevice::Stm32f405, clock: ClockSource::Hsi, system_clock_hz: 16_000_000 },
        id: "composition_test_board",
        gpio: Vec::new(),
        timers: Vec::new(),
        spi: Vec::new(),
        serial: Vec::new(),
    };
    let mut gpio = Vec::new();
    let resolved: Vec<_> = tasks
        .iter()
        .map(|task| resolve_standalone_task(&board, task, &mut gpio).unwrap())
        .collect();
    let channel = resolve_safety_channel(&resolved, motor_channel(3)).unwrap();
    assert_eq!(channel.producer.owner_task, "control_producer");
    assert_eq!(channel.consumer.owner_task, "actuator_consumer");
}

#[test]
fn safety_channel_rejects_zero_usable_capacity() {
    let tasks = vec![producer("control_producer"), consumer()];
    let error = validate(&app(tasks, vec![motor_channel(0)], Vec::new())).unwrap_err();
    assert_eq!(
        error.to_string(),
        "safety channel `control_to_actuator` requires at least one usable slot"
    );
}

#[test]
fn safety_channel_rejects_a_missing_consumer_owner() {
    let tasks = vec![producer("control_producer")];
    let error = validate(&app(tasks.clone(), vec![motor_channel(3)], Vec::new())).unwrap_err();
    assert_eq!(
        error.to_string(),
        "safety channel `control_to_actuator` requires exactly one consumer owner, found 0"
    );
}

#[test]
fn noncritical_task_cannot_own_a_safety_handle() {
    let tasks = vec![
        producer("control_producer").safety_class(TaskSafetyClass::NonSafetyCritical),
        consumer(),
    ];
    let error = validate(&app(tasks.clone(), vec![motor_channel(3)], Vec::new())).unwrap_err();
    assert_eq!(
        error.to_string(),
        "task `control_producer` is NonSafetyCritical and cannot own authoritative safety-channel resource `motor_cmd_producer`"
    );
}

#[test]
fn safety_handle_cannot_be_bound_as_shared() {
    let contract = TaskContract {
        id: "shared_control_producer",
        source: TaskSource::new("test_safety_tasks.rs", "shared_control_producer"),
        local: Vec::new(),
        shared: vec![ResourceRequirement::new(
            "commands",
            "SafetyProducer<'static, MotorCmd>",
        )],
        config: Vec::new(),
        spawns: Vec::new(),
    };
    let shared = TaskDeclaration::software("shared_control_producer", contract)
        .priority(2)
        .safety_critical()
        .with_shared(vec![ResourceBinding::new(
            "commands",
            "motor_cmd_producer",
            "SafetyProducer<'static, MotorCmd>",
        )]);
    let error = validate(&app(vec![shared, consumer()], vec![motor_channel(3)], Vec::new()))
        .unwrap_err();
    assert!(error.to_string().contains("safety handles must be task-local"));
}

#[test]
fn safety_channel_rejects_duplicated_handle_ownership() {
    let tasks = vec![
        producer("control_producer"),
        producer("backup_control_producer"),
        consumer(),
    ];
    let error = validate(&app(tasks.clone(), vec![motor_channel(3)], Vec::new())).unwrap_err();
    assert_eq!(
        error.to_string(),
        "hardware resource `motor_cmd_producer` is owned by more than one local task binding"
    );
}

#[test]
fn slot_coverage_reports_the_least_missing_and_extra_slot() {
    let expected = vec!["zeta", "alpha", "mid"];
    let error = validate_slots("t", "local resource", &expected, &vec!["zeta"]).unwrap_err();
    assert_eq!(error.to_string(), "task `t` does not bind local resource `alpha`");
    let error = validate_slots("t", "local resource", &vec![], &vec!["b", "a"]).unwrap_err();
    assert_eq!(error.to_string(), "task `t` binds undeclared local resource `a`");
    let error = validate_slots("t", "spawn target", &vec!["a"], &vec!["a", "a"]).unwrap_err();
    assert_eq!(error.to_string(), "task `t` repeats a spawn target binding");
    validate_slots("t", "local resource", &vec!["a", "b"], &vec!["b", "a"]).unwrap();
}

#[test]
fn identifiers_and_type_spellings() {
    validate_identifier("_led2", "task").unwrap();
    assert_eq!(
        validate_identifier("2led", "task").unwrap_err().to_string(),
        "task ID `2led` is not a Rust identifier"
    );
    assert!(validate_identifier("", "spawn target").is_err());
    assert!(rust_types_match("Pin<'C', 4, Input>", "Pin<'C',4,Input>"));
    assert!(!rust_types_match("u32", "u16"));
}

fn control_contract() -> TaskContract {
    TaskContract::new("control_step", TaskSource::new("tasks/control_step.rs", "control_step"))
}

fn control_loop(local: Vec<ResourceBinding>) -> PeriodicControlDeclaration {
    periodic_control_timer()
        .declare("control", "tim4")
        .scheduler_hz(800)
        .control_hz(400)
        .interrupt_priority(14)
        .task(control_contract())
        .safety_critical()
        .with_local(local)
}

fn producer_binding() -> ResourceBinding {
    ResourceBinding::new(
        "commands",
        "motor_cmd_producer",
        "SafetyProducer<'static, MotorCmd>",
    )
}

fn with_control(mut composition: AppComposition, control: PeriodicControlDeclaration) -> AppComposition {
    composition.components = vec![ComponentDeclaration::PeriodicControl(control)];
    composition
}

#[test]
fn control_loop_can_own_a_safety_producer() {
    let composition = with_control(
        app(vec![consumer()], vec![motor_channel(3)], Vec::new()),
        control_loop(vec![producer_binding()]),
    );
    validate(&composition).unwrap();
    assert_eq!(
        local_resource_owners(&composition, "motor_cmd_producer"),
        vec!["control_loop".to_string()]
    );
    assert_eq!(
        local_resource_owners(&composition, "motor_cmd_consumer"),
        vec!["actuator_consumer".to_string()]
    );
}

#[test]
fn task_and_control_loop_cannot_share_a_local_resource() {
    let composition = with_control(
        app(
            vec![producer("control_producer"), consumer()],
            vec![motor_channel(3)],
            Vec::new(),
        ),
        control_loop(vec![producer_binding()]),
    );
    let error = validate(&composition).unwrap_err();
    assert_eq!(
        error.to_string(),
        "hardware resource `motor_cmd_producer` is owned by more than one local task binding"
    );
}

#[test]
fn control_loop_local_binding_must_name_a_safety_handle() {
    let composition = with_control(
        app(vec![consumer()], vec![motor_channel(3)], Vec::new()),
        control_loop(vec![ResourceBinding::new("button", "user_button", "dyn ExtiPin")]),
    );
    let error = validate(&composition).unwrap_err();
    assert_eq!(
        error.to_string(),
        "task `control_loop` binds local slot `button` to missing or incompatible periodic-control resource `user_button`"
    );
}

#[test]
fn noncritical_control_loop_cannot_own_a_safety_handle() {
    let mut control = control_loop(vec![producer_binding()]);
    control.safety_class = TaskSafetyClass::SafetyRelated;
    let composition = with_control(
        app(vec![consumer()], vec![motor_channel(3)], Vec::new()),
        control,
    );
    let error = validate(&composition).unwrap_err();
    assert_eq!(
        error.to_string(),
        "task `control_loop` is SafetyRelated and cannot own authoritative safety-channel resource `motor_cmd_producer`"
    );
}

#[test]
fn control_loop_shared_binding_requires_a_declared_resource() {
    let control = control_loop(vec![producer_binding()])
        .with_shared(vec![ResourceBinding::new("armed", "arming_state", "bool")]);
    let composition = with_control(
        app(vec![consumer()], vec![motor_channel(3)], Vec::new()),
        control,
    );
    let error = validate(&composition).unwrap_err();
    assert_eq!(
        error.to_string(),
        "task `control_loop` binds shared slot `armed` to missing resource `arming_state`"
    );
    let control = control_loop(vec![producer_binding()])
        .with_shared(vec![ResourceBinding::new("enabled", "button_enabled", "u32")]);
    let composition = with_control(
        app(vec![consumer()], vec![motor_channel(3)], Vec::new()),
        control,
    );
    let error = validate(&composition).unwrap_err();
    assert_eq!(
        error.to_string(),
        "task `control_loop` shared slot `enabled` requires `u32`, but `button_enabled` is `bool`"
    );
}

#[test]
fn control_loop_cannot_spawn_an_interrupt_task() {
    let control = control_loop(vec![producer_binding()]).with_spawns(vec![SpawnBinding::new(
        "wake",
        "button_exti",
        Vec::new(),
    )]);
    let composition = with_control(
        app(
            vec![button("button_exti"), observer(), consumer()],
            vec![motor_channel(3)],
            Vec::new(),
        ),
        control,
    );
    let error = validate(&composition).unwrap_err();
    assert_eq!(
        error.to_string(),
        "task `control_loop` cannot spawn interrupt task `button_exti`"
    );
}

#[test]
fn safety_channel_rejects_type_incompatible_handle() {
    let contract = TaskContract {
        id: "wrong_control_producer",
        source: TaskSource::new("test_safety_tasks.rs", "wrong_control_producer"),
        local: vec![ResourceRequirement::new("commands", "SafetyProducer<'static, u32>")],
        shared: Vec::new(),
        config: Vec::new(),
        spawns: Vec::new(),
    };
    let wrong = TaskDeclaration::software("wrong_control_producer", contract)
        .priority(2)
        .safety_critical()
        .with_local(vec![ResourceBinding::new(
            "commands",
            "motor_cmd_producer",
            "SafetyProducer<'static, u32>",
        )]);
    let error = validate(&app(vec![wrong, consumer()], vec![motor_channel(3)], Vec::new()))
        .unwrap_err();
    assert!(error
        .to_string()
        .contains("missing or incompatible local resource `motor_cmd_producer`"));
}

#[test]
fn task_local_binding_requires_a_declared_board_gpio() {
    let task = button("button_exti").with_local(vec![ResourceBinding::new(
        "button",
        "missing_button",
        "dyn ExtiPin",
    )]);
    let error = validate(&app(vec![task, observer()], Vec::new(), Vec::new())).unwrap_err();
    assert_eq!(
        error.to_string(),
        "task `button_exti` binds local slot `button` to missing or incompatible local resource `missing_button`"
    );
}

#[test]
fn task_shared_binding_requires_a_declared_resource_of_its_type() {
    let task = button("button_exti").with_shared(vec![ResourceBinding::new(
        "enabled",
        "missing_enabled",
        "bool",
    )]);
    let error = validate(&app(vec![task, observer()], Vec::new(), Vec::new())).unwrap_err();
    assert_eq!(
        error.to_string(),
        "task `button_exti` binds `enabled` to missing shared resource `missing_enabled`"
    );
    let mut composition = app(vec![button("button_exti"), observer()], Vec::new(), Vec::new());
    composition.shared_resources = vec![SharedResourceDeclaration::u32("button_enabled", 0)];
    let error = validate(&composition).unwrap_err();
    assert_eq!(
        error.to_string(),
        "task `button_exti` shared slot `enabled` requires `bool`, but `button_enabled` is `u32`"
    );
}

fn sbus_reader_task(rust_type: &'static str) -> TaskDeclaration {
    let contract = TaskContract {
        id: "sbus_reader",
        source: TaskSource::new("tasks/sbus_reader.rs", "sbus_reader"),
        local: vec![ResourceRequirement::new("reader", rust_type)],
        shared: Vec::new(),
        config: Vec::new(),
        spawns: Vec::new(),
    };
    TaskDeclaration::software("sbus_reader", contract)
        .priority(1)
        .with_local(vec![ResourceBinding::new("reader", "rc_sbus_reader", rust_type)])
}

#[test]
fn serial_service_handles_bind_with_their_exact_type() {
    let mut composition = app(vec![sbus_reader_task("UartOwnedReader<'static>")], Vec::new(), Vec::new());
    composition.platform = PlatformConfig::empty()
        .serial1(SerialService::RcSbus);
    composition.board.serial = vec![serial_port("uart4", SerialPeripheral::Uart4)];
    composition.components = vec![serial_endpoint("serial1", "uart4")];
    validate(&composition).unwrap();
    composition.tasks = vec![sbus_reader_task("UartOwnedReader< 'static >")];
    let error = validate(&composition).unwrap_err();
    assert_eq!(
        error.to_string(),
        "task `sbus_reader` binds local slot `reader` to missing or incompatible local resource `rc_sbus_reader`"
    );
}

fn complete_board() -> BoardDeclaration {
    let mut board = test_board();
    board.serial = vec![
        serial_port("uart4", SerialPeripheral::Uart4),
        serial_port("usart2", SerialPeripheral::Usart2),
    ];
    board.timers = vec![
        TimerHardwareDeclaration { id: "tim2", peripheral: TimerPeripheral::Tim2 },
        TimerHardwareDeclaration { id: "tim4", peripheral: TimerPeripheral::Tim4 },
        TimerHardwareDeclaration { id: "tim5", peripheral: TimerPeripheral::Tim5 },
    ];
    board.spi = vec![SpiHardwareDeclaration {
        id: "spi1",
        bus: SpiBus {
            peripheral: SpiPeripheral::Spi1,
            sck: PinId::new(GpioPort::A, 5),
            miso: PinId::new(GpioPort::A, 6),
            mosi: PinId::new(GpioPort::A, 7),
            dma_rx: DmaRoute::new(DmaController::Dma2, DmaStream::Stream0, DmaChannel::Channel3),
            dma_tx: DmaRoute::new(DmaController::Dma2, DmaStream::Stream3, DmaChannel::Channel3),
        },
        imu: vec![ImuInstallationDeclaration {
            id: ImuInstallationId::new(1),
            chip_select: PinId::new(GpioPort::A, 4),
            data_ready: PinId::new(GpioPort::C, 4),
            data_ready_edge: InterruptEdge::Rising,
            orientation: FrameRotation { body_x: SignedAxis { axis: Axis::X, negated: false }, body_y: SignedAxis { axis: Axis::Y, negated: false }, body_z: SignedAxis { axis: Axis::Z, negated: false } },
        }],
    }];
    board
}

fn imu_owner_task() -> TaskDeclaration {
    let contract = TaskContract {
        id: "imu_reader",
        source: TaskSource::new("tasks/imu_reader.rs", "imu_reader"),
        local: Vec::new(),
        shared: vec![ResourceRequirement::new("imu", "Spi1ImuEndpointOwner")],
        config: Vec::new(),
        spawns: Vec::new(),
    };
    TaskDeclaration::software("imu_reader", contract)
        .priority(4)
        .with_shared(vec![ResourceBinding::new("imu", "spi1_owner", "Spi1ImuEndpointOwner")])
}

#[test]
fn complete_example_satisfies_all_task_contracts() {
    let observer_task = observer();
    let composition = AppComposition {
        board: complete_board(),
        platform: PlatformConfig::empty()
            .serial1(SerialService::RcSbus)
            .serial2(SerialService::MspV1Osd)
            .spi1(SpiService::Imu(ImuInstallationId::new(1))),
        monotonic: MonotonicDeclaration::timer("tim2", 1_000_000),
        init_delay: Some(InitDelayDeclaration::timer("tim5", 1_000_000)),
        components: vec![
            serial_endpoint("serial1", "uart4"),
            serial_endpoint("serial2", "usart2"),
            ComponentDeclaration::ImuEndpoint(
                spi_imu_endpoint()
                    .declare("spi1", "spi1")
                    .data_ready_priority(8)
                    .owner_priority(7)
                    .poll_priority(6)
                    .parser_priority(5),
            ),
            ComponentDeclaration::PeriodicControl(control_loop(vec![producer_binding()])),
        ],
        shared_resources: vec![SharedResourceDeclaration::bool("button_enabled", false)],
        safety_channels: vec![motor_channel(3)],
        task_state: Vec::new(),
        tasks: vec![
            button("button_exti"),
            observer_task.clone(),
            consumer(),
            sbus_reader_task("UartOwnedReader<'static>"),
            imu_owner_task(),
        ],
        init_spawns: vec![observer_task.init_spawn()],
    };
    validate(&composition).unwrap();
}

fn serial_endpoint(id: &'static str, hardware_id: &'static str) -> ComponentDeclaration {
    let contract = || TaskContract::new("body", TaskSource::new("tasks.rs", "body"));
    ComponentDeclaration::SerialEndpoint(SerialEndpointDeclaration {
        id,
        definition: SerialEndpointDefinition {
            id: "uart_dma_endpoint",
            tasks: SerialEndpointTasks {
                peripheral_irq: contract(),
                rx_dma_irq: contract(),
                rx_bridge: contract(),
                tx_dma_irq: contract(),
                tx_worker: contract(),
            },
            resources: Vec::new(),
        },
        hardware_id,
        interrupt_priority: 7,
        bridge_priority: 5,
        worker_priority: Some(3),
        rx_buffer_count: 4,
        rx_queue_depth: 4,
        tx_queue_depth: 16,
    })
}

fn serial_port(id: &'static str, peripheral: SerialPeripheral) -> SerialHardwareDeclaration {
    SerialHardwareDeclaration {
        id,
        port: SerialPortDeclaration { peripheral, rx: None, tx: None },
    }
}

fn serial_only_app(board_serial: Vec<SerialHardwareDeclaration>) -> AppComposition {
    let mut composition = app(Vec::new(), Vec::new(), Vec::new());
    composition.board = BoardDeclaration {
        mcu: McuDeclaration { device: McuDevice::Stm32f405, clock: ClockSource::Hsi, system_clock_hz: 16_000_000 },
        id: "empty_board",
        gpio: Vec::new(),
        timers: Vec::new(),
        spi: Vec::new(),
        serial: board_serial,
    };
    composition.shared_resources = Vec::new();
    composition.platform = PlatformConfig::empty().serial1(SerialService::MspV1Osd);
    composition.components = vec![serial_endpoint("serial1", "serial1")];
    composition
}

#[test]
fn serial_endpoint_requires_hardware_declared_by_the_selected_board() {
    let error = validate(&serial_only_app(Vec::new())).unwrap_err();
    assert_eq!(
        error.to_string(),
        "serial endpoint `serial1` consumes undeclared board serial hardware `serial1`"
    );
}

#[test]
fn serial_endpoint_resolves_hardware_from_the_selected_board() {
    let dma2 = |stream, channel| DmaRoute::new(DmaController::Dma2, stream, channel);
    let different = SerialHardwareDeclaration {
        id: "serial1",
        port: SerialPortDeclaration {
            peripheral: SerialPeripheral::Usart1,
            rx: Some(SerialSignalRoute {
                pin: PinId::new(GpioPort::B, 7),
                dma: Some(dma2(DmaStream::Stream2, DmaChannel::Channel4)),
            }),
            tx: Some(SerialSignalRoute {
                pin: PinId::new(GpioPort::B, 6),
                dma: Some(dma2(DmaStream::Stream7, DmaChannel::Channel4)),
            }),
        },
    };
    validate(&serial_only_app(vec![different])).unwrap();
}

#[test]
fn platform_serial_assignment_requires_its_endpoint() {
    let mut composition = serial_only_app(vec![serial_port("serial1", SerialPeripheral::Uart4)]);
    composition.components = Vec::new();
    let error = validate(&composition).unwrap_err();
    assert_eq!(
        error.to_string(),
        "platform serial port `Serial1` has no hardware endpoint declaration `serial1`"
    );
}
