use app_builder::gpio::{ExternalInterrupt, GpioMode, InterruptEdge, Pull};
use app_builder::legacy::{
    validate, BoardDeclaration, Clock, ClockSource, DmaChannel, Gpio, HardwareResource, Mcu,
    MonotonicDeclaration, PinId, SerialPortId, Target, UartRxDma,
};
use app_builder::legacy_interrupts::{
    render_interrupt_bindings, HardwareInterrupt, ResolvedTask, ResolvedTaskTrigger,
};

fn exti_input(id: &'static str, port: u8, pin: u8) -> HardwareResource {
    HardwareResource::Gpio(Gpio {
        id,
        pin: PinId::new(port, pin),
        pull: Pull::Up,
        mode: GpioMode::Input {
            interrupt: Some(ExternalInterrupt {
                edge: InterruptEdge::Falling,
            }),
        },
    })
}

fn nucleo(hardware: Vec<HardwareResource>) -> BoardDeclaration {
    BoardDeclaration {
        id: "nucleo_f401re",
        target: Target {
            mcu: Mcu::Stm32F401,
            clock: Clock {
                source: ClockSource::InternalHighSpeed,
                sysclk_hz: 84_000_000,
                requires_pll48: false,
            },
        },
        monotonic: MonotonicDeclaration::SysTick {
            id: "Mono",
            clock_hz: 84_000_000,
        },
        hardware,
    }
}

fn on_interrupt(
    id: &'static str,
    resource: HardwareResource,
    interrupt: HardwareInterrupt,
) -> ResolvedTask {
    ResolvedTask {
        id,
        priority: 2,
        trigger: ResolvedTaskTrigger::Interrupt { resource, interrupt },
    }
}

fn spawned(id: &'static str, priority: u8) -> ResolvedTask {
    ResolvedTask {
        id,
        priority,
        trigger: ResolvedTaskTrigger::Spawned,
    }
}

fn binding<'a>(bindings: &'a [(String, String)], task: &str) -> Option<&'a String> {
    bindings
        .iter()
        .rev()
        .find(|(id, _)| id == task)
        .map(|(_, vector)| vector)
}

fn usart2() -> HardwareResource {
    HardwareResource::UartRxDma(UartRxDma::new(
        "uart2",
        SerialPortId::new(2),
        PinId::new(0, 3),
        DmaChannel::new(0, 5, 4),
    ))
}

#[test]
fn exti_zero_moves_the_software_dispatcher_to_exti_one() {
    let button = exti_input("button", 0, 0);
    let board = nucleo(vec![button]);
    let validated = validate(&board).unwrap();
    let tasks = vec![on_interrupt("button_irq", button, HardwareInterrupt::Primary)];

    let (bindings, dispatchers) = render_interrupt_bindings(
        &tasks,
        &validated.pins_by_id,
        &validated.serial_routes_by_id,
    )
    .unwrap();
    assert_eq!(binding(&bindings, "button_irq"), Some(&"EXTI0".to_owned()));
    assert_eq!(dispatchers, "EXTI1");
}

#[test]
fn rejects_two_tasks_on_one_grouped_exti_vector() {
    let first = exti_input("first_input", 0, 5);
    let second = exti_input("second_input", 0, 6);
    let board = nucleo(vec![first, second]);
    let validated = validate(&board).unwrap();
    let tasks = vec![
        on_interrupt("first_irq", first, HardwareInterrupt::Primary),
        on_interrupt("second_irq", second, HardwareInterrupt::Primary),
    ];

    let error = render_interrupt_bindings(
        &tasks,
        &validated.pins_by_id,
        &validated.serial_routes_by_id,
    )
    .unwrap_err();
    assert!(error.contains("both resolve to `EXTI9_5`"));
    assert_eq!(
        error,
        "interrupt tasks `first_irq` and `second_irq` both resolve to `EXTI9_5`; grouped STM32 EXTI vectors require one demultiplexing task"
    );
}

#[test]
fn one_dispatcher_per_distinct_software_priority() {
    let tasks = vec![spawned("a", 1), spawned("b", 2), spawned("c", 1)];
    let (bindings, dispatchers) =
        render_interrupt_bindings(&tasks, &Vec::new(), &Vec::new()).unwrap();
    assert!(bindings.is_empty());
    assert_eq!(dispatchers, "EXTI0, EXTI1");
}

#[test]
fn uart_receiver_binds_its_dma_stream_and_peripheral_vectors() {
    let board = nucleo(vec![usart2()]);
    let validated = validate(&board).unwrap();
    let tasks = vec![
        on_interrupt("sbus_dma", usart2(), HardwareInterrupt::DmaRx),
        on_interrupt("sbus_idle", usart2(), HardwareInterrupt::Peripheral),
        spawned("sbus_consumer", 1),
    ];
    let (bindings, dispatchers) = render_interrupt_bindings(
        &tasks,
        &validated.pins_by_id,
        &validated.serial_routes_by_id,
    )
    .unwrap();
    assert_eq!(
        bindings,
        vec![
            ("sbus_dma".to_owned(), "DMA1_STREAM5".to_owned()),
            ("sbus_idle".to_owned(), "USART2".to_owned()),
        ]
    );
    assert_eq!(dispatchers, "EXTI0");
}

#[test]
fn interrupt_resources_must_be_of_the_right_kind_and_on_the_board() {
    let button = exti_input("button", 0, 0);
    let error = render_interrupt_bindings(
        &vec![on_interrupt("button_irq", button, HardwareInterrupt::Primary)],
        &Vec::new(),
        &Vec::new(),
    )
    .unwrap_err();
    assert_eq!(
        error,
        "interrupt task `button_irq` trigger resource `button` was not present in the validated board"
    );
    let error = render_interrupt_bindings(
        &vec![on_interrupt("button_dma", button, HardwareInterrupt::DmaRx)],
        &Vec::new(),
        &Vec::new(),
    )
    .unwrap_err();
    assert_eq!(error, "DMA RX interrupt task `button_dma` resolved non-UART resource `button`");
    let error = render_interrupt_bindings(
        &vec![on_interrupt("button_serial", button, HardwareInterrupt::Peripheral)],
        &Vec::new(),
        &Vec::new(),
    )
    .unwrap_err();
    assert_eq!(
        error,
        "serial interrupt task `button_serial` resolved non-serial resource `button`"
    );
    let error = render_interrupt_bindings(
        &vec![on_interrupt("sbus_idle", usart2(), HardwareInterrupt::Peripheral)],
        &Vec::new(),
        &Vec::new(),
    )
    .unwrap_err();
    assert_eq!(
        error,
        "serial interrupt task `sbus_idle` resource `uart2` has no validated STM32 route"
    );
}

#[test]
fn dispatchers_fail_when_exti_zero_through_four_are_bound() {
    let inputs: Vec<HardwareResource> = (0..5)
        .map(|pin| exti_input(["in0", "in1", "in2", "in3", "in4"][pin as usize], 0, pin))
        .collect();
    let board = nucleo(inputs.clone());
    let validated = validate(&board).unwrap();
    let ids = ["irq0", "irq1", "irq2", "irq3", "irq4"];
    let tasks: Vec<ResolvedTask> = inputs
        .iter()
        .zip(ids)
        .map(|(input, id)| on_interrupt(id, *input, HardwareInterrupt::Primary))
        .collect();
    let error = render_interrupt_bindings(
        &tasks,
        &validated.pins_by_id,
        &validated.serial_routes_by_id,
    )
    .unwrap_err();
    assert_eq!(
        error,
        "STM32F4 backend needs 1 software dispatchers but does not have enough free EXTI0 through EXTI4 vectors"
    );
}
