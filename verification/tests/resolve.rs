use app_builder::board::McuDeclaration;
use app_builder::hardware_lowering::McuDevice;
use app_builder::initialization::ClockSource;
use app_builder::board::{BoardDeclaration, TimerHardwareDeclaration, TimerPeripheral};
use app_builder::composition::TaskDeclaration;
use app_builder::dma_route::{DmaChannel, DmaController, DmaRoute, DmaStream};
use app_builder::gpio::{GpioHardwareDeclaration, InterruptEdge, Level};
use app_builder::periodic_control::{periodic_control_timer, PeriodicControlResourceRole};
use app_builder::pins::{GpioPort, PinId};
use app_builder::resolve::{
    dma_interrupt, exti_binding, insert_unique, resolve_periodic_control,
    resolve_safety_channel, resolve_standalone_task, select_dispatchers, serial_interrupt,
    validate_exti_binding, validate_interrupt_ownership, validate_unique_ids,
    ResolvedResourceBinding, ResolvedTask, ResolvedTaskTrigger,
};
use app_builder::safety_channel::SafetyChannelDeclaration;
use app_builder::serial::SerialPeripheral;
use app_builder::task::{ResourceBinding, TaskContract, TaskSafetyClass, TaskSource};

fn contract(id: &'static str) -> TaskContract {
    TaskContract::new(id, TaskSource::new("tasks.rs", id))
}

fn resolved(id: &str, trigger: ResolvedTaskTrigger, priority: u8) -> ResolvedTask {
    ResolvedTask {
        id: id.to_owned(),
        contract: contract("body"),
        trigger,
        priority,
        safety_class: TaskSafetyClass::NonSafetyCritical,
        local: Vec::new(),
        shared: Vec::new(),
        config: Vec::new(),
        spawns: Vec::new(),
        owner_component: None,
    }
}

fn board() -> BoardDeclaration {
    BoardDeclaration {
        mcu: McuDeclaration { device: McuDevice::Stm32f405, clock: ClockSource::Hsi, system_clock_hz: 16_000_000 },
        id: "test_board",
        gpio: vec![
            GpioHardwareDeclaration::output("led2", PinId::new(GpioPort::A, 5), Level::Low),
            GpioHardwareDeclaration::input("user_button", PinId::new(GpioPort::C, 13))
                .interrupt_on(InterruptEdge::Falling),
        ],
        timers: vec![TimerHardwareDeclaration {
            id: "tim4",
            peripheral: TimerPeripheral::Tim4,
        }],
        spi: Vec::new(),
        serial: Vec::new(),
    }
}

#[test]
fn exti_lines_map_to_their_shared_vectors() {
    assert_eq!(exti_binding(PinId::new(GpioPort::A, 0)), "EXTI0");
    assert_eq!(exti_binding(PinId::new(GpioPort::B, 4)), "EXTI4");
    assert_eq!(exti_binding(PinId::new(GpioPort::B, 7)), "EXTI9_5");
    assert_eq!(exti_binding(PinId::new(GpioPort::C, 13)), "EXTI15_10");
}

#[test]
fn exti_binding_must_match_the_button_line() {
    let task = TaskDeclaration::interrupt("button_exti", contract("button_exti"), "EXTI0")
        .with_local(vec![ResourceBinding::new("button", "user_button", "dyn ExtiPin")]);
    assert_eq!(
        validate_exti_binding("button_exti", "EXTI0", &board(), &task).unwrap_err(),
        "EXTI task `button_exti` binds `EXTI0`, but GPIO `user_button` on PinId { port: C, pin: 13 } resolves to `EXTI15_10`"
    );
    validate_exti_binding("button_exti", "EXTI15_10", &board(), &task).unwrap();
    validate_exti_binding("button_exti", "USART2", &board(), &task).unwrap();
    let without_gpio = TaskDeclaration::interrupt("blink", contract("blink"), "EXTI1");
    assert_eq!(
        validate_exti_binding("blink", "EXTI1", &board(), &without_gpio).unwrap_err(),
        "EXTI task `blink` has no interrupt-enabled GPIO"
    );
}

#[test]
fn standalone_task_resolution_claims_board_gpio() {
    let task = TaskDeclaration::software("blink_led", contract("blink_led"))
        .priority(1)
        .with_local(vec![
            ResourceBinding::new("led", "led2", "Pin<'A', 5, Output>"),
            ResourceBinding::new("count", "blink_count", "u32"),
        ]);
    let mut gpio = Vec::new();
    let resolved = resolve_standalone_task(&board(), &task, &mut gpio).unwrap();
    assert_eq!(gpio.len(), 1);
    assert_eq!(gpio[0].hardware.id, "led2");
    assert_eq!(gpio[0].owner_task, "blink_led");
    assert_eq!(resolved.id, "blink_led");
    assert_eq!(resolved.priority, 1);
    assert!(matches!(resolved.trigger, ResolvedTaskTrigger::Software));
    assert_eq!(resolved.local.len(), 2);
    assert_eq!(resolved.local[1].target, "blink_count");
}

#[test]
fn interrupt_vectors_of_serial_and_dma_routes() {
    assert_eq!(serial_interrupt(SerialPeripheral::Uart4), "UART4");
    assert_eq!(serial_interrupt(SerialPeripheral::Usart6), "USART6");
    assert_eq!(
        dma_interrupt(DmaRoute::new(
            DmaController::Dma2,
            DmaStream::Stream7,
            DmaChannel::Channel4
        )),
        "DMA2_STREAM7"
    );
}

#[test]
fn one_dispatcher_per_software_priority_skipping_bound_vectors() {
    let tasks = vec![
        resolved("button_exti", ResolvedTaskTrigger::Interrupt("EXTI0".to_owned()), 2),
        resolved("a", ResolvedTaskTrigger::Software, 1),
        resolved("b", ResolvedTaskTrigger::Software, 3),
        resolved("c", ResolvedTaskTrigger::Software, 1),
    ];
    assert_eq!(select_dispatchers(&tasks).unwrap(), vec!["EXTI1", "EXTI2"]);
    assert_eq!(select_dispatchers(&Vec::new()).unwrap(), vec!["EXTI0"]);
}

#[test]
fn exhausted_dispatcher_pool_is_reported() {
    let tasks: Vec<ResolvedTask> = (1..=13u8)
        .map(|p| resolved("s", ResolvedTaskTrigger::Software, p))
        .collect();
    assert_eq!(
        select_dispatchers(&tasks).unwrap_err(),
        "STM32F4 target needs 13 RTIC dispatchers but its reviewed dispatcher pool is exhausted"
    );
}

#[test]
fn timer_vector_bound_by_a_task_and_a_loop_is_rejected() {
    let tasks = vec![
        resolved("competing_timer_task", ResolvedTaskTrigger::Interrupt("TIM4".to_owned()), 1),
        resolved("control_loop", ResolvedTaskTrigger::Interrupt("TIM4".to_owned()), 14),
    ];
    let error = validate_interrupt_ownership(&tasks).unwrap_err();
    assert!(error.contains("both bind interrupt `TIM4`"));
}

#[test]
fn interrupt_owned_twice_is_rejected() {
    let tasks = vec![
        resolved("first", ResolvedTaskTrigger::Interrupt("USART1".to_owned()), 2),
        resolved("soft", ResolvedTaskTrigger::Software, 1),
        resolved("second", ResolvedTaskTrigger::Interrupt("USART1".to_owned()), 3),
    ];
    assert_eq!(
        validate_interrupt_ownership(&tasks).unwrap_err(),
        "resolved tasks `first` and `second` both bind interrupt `USART1`"
    );
    validate_interrupt_ownership(&tasks[..2].to_vec()).unwrap();
}

#[test]
fn generated_ids_must_be_unique() {
    let mut ids = Vec::new();
    insert_unique(&mut ids, "led2", "board GPIO").unwrap();
    assert_eq!(
        insert_unique(&mut ids, "led2", "application shared resource").unwrap_err(),
        "generated ID `led2` is used by both board GPIO and application shared resource"
    );
    assert_eq!(ids.len(), 1);
    let claims = vec![("a", "x"), ("b", "y"), ("a", "z")];
    assert_eq!(
        validate_unique_ids(&claims).unwrap_err(),
        "generated ID `a` is used by both x and z"
    );
}

#[test]
fn safety_channel_owners_are_the_binding_tasks() {
    let mut producer = resolved("control_producer", ResolvedTaskTrigger::Software, 2);
    producer.local.push(ResolvedResourceBinding {
        logical: "commands",
        target: "motor_cmd_producer".to_owned(),
    });
    let mut consumer = resolved("actuator_consumer", ResolvedTaskTrigger::Software, 3);
    consumer.local.push(ResolvedResourceBinding {
        logical: "commands",
        target: "motor_cmd_consumer".to_owned(),
    });
    let channel = SafetyChannelDeclaration::motor_commands(
        "control_to_actuator",
        3,
        "motor_cmd_producer",
        "motor_cmd_consumer",
    );
    let tasks = vec![producer, consumer];
    let resolved_channel = resolve_safety_channel(&tasks, channel).unwrap();
    assert_eq!(resolved_channel.producer.owner_task, "control_producer");
    assert_eq!(resolved_channel.consumer.owner_task, "actuator_consumer");
    assert_eq!(
        resolve_safety_channel(&tasks[..1].to_vec(), channel).unwrap_err(),
        "safety channel `control_to_actuator` resource `motor_cmd_consumer` lost its validated owner"
    );
}

#[test]
fn periodic_control_resources_are_instance_qualified() {
    let declaration = periodic_control_timer()
        .declare("control", "tim4")
        .scheduler_hz(800)
        .control_hz(400)
        .interrupt_priority(14);
    let control = resolve_periodic_control(&board(), declaration).unwrap();
    assert_eq!(control.hardware.peripheral, TimerPeripheral::Tim4);
    assert_eq!(
        control.resource_id(PeriodicControlResourceRole::Scheduler).unwrap(),
        "control_scheduler"
    );
    assert_eq!(
        control.resource_id(PeriodicControlResourceRole::Phase).unwrap(),
        "control_phase"
    );
    let missing = periodic_control_timer().declare("control", "tim9");
    assert_eq!(
        resolve_periodic_control(&board(), missing).unwrap_err(),
        "periodic control `control` hardware `tim9` disappeared after validation"
    );
}
