use app_builder::gpio::{Drive, ExternalInterrupt, GpioMode, InterruptEdge, Level, Pull};
use app_builder::legacy::{
    pin_name, push_initialization, render_init_local, render_resource_field,
    render_resource_initialization, validate, validate_lqfp64, BoardDeclaration, Clock,
    ClockSource, DmaChannel, Gpio, HardwareResource, Mcu, MonotonicDeclaration, PinId,
    SerialPortId, SerialProtocol, Stm32SerialRoute, Target, UartRxDma,
};

fn output(id: &'static str, port: u8, pin: u8, level: Level) -> HardwareResource {
    HardwareResource::Gpio(Gpio {
        id,
        pin: PinId::new(port, pin),
        pull: Pull::Floating,
        mode: GpioMode::Output {
            drive: Drive::PushPull,
            initial_level: level,
        },
    })
}

fn led2() -> HardwareResource {
    output("led2", 0, 5, Level::Low)
}

fn nucleo(hardware: Vec<HardwareResource>) -> BoardDeclaration {
    BoardDeclaration {
        id: "nucleo_f401re",
        target: Target {
            mcu: Mcu::Stm32F401,
            clock: Clock {
                source: ClockSource::InternalHighSpeed,
                sysclk_hz: 84_000_000,
                requires_pll48: false,
            },
        },
        monotonic: MonotonicDeclaration::SysTick {
            id: "Mono",
            clock_hz: 84_000_000,
        },
        hardware,
    }
}

fn fcu3(hardware: Vec<HardwareResource>) -> BoardDeclaration {
    BoardDeclaration {
        id: "ferrowasp_fcu3",
        target: Target::internal_high_speed(Mcu::Stm32F405, 168_000_000),
        monotonic: MonotonicDeclaration::SysTick {
            id: "Mono",
            clock_hz: 168_000_000,
        },
        hardware,
    }
}

fn route<'a>(routes: &'a [(&'static str, Stm32SerialRoute)], id: &str) -> Option<&'a Stm32SerialRoute> {
    routes.iter().find(|(key, _)| *key == id).map(|(_, route)| route)
}

#[test]
fn rejects_pin_not_exposed_by_stm32f401re_package() {
    let unsupported = nucleo(vec![output("unsupported", 1, 11, Level::Low)]);

    let error = validate(&unsupported).unwrap_err();
    assert!(error.to_string().contains("does not expose"));
    assert!(error.to_string().contains("PB11"));
}

#[test]
fn validates_only_the_supported_f401_sbus_dma_route() {
    let invalid_route = HardwareResource::UartRxDma(UartRxDma::new(
        "sbus",
        SerialPortId::new(2),
        PinId::new(0, 3),
        DmaChannel::new(0, 4, 4),
    ));
    let invalid_board = nucleo(vec![invalid_route]);

    let error = validate(&invalid_board).unwrap_err();
    assert!(error.to_string().contains("DMA1 Stream 5 Channel 4"));
    assert!(error.to_string().contains("DMA1 Stream 4 Channel 4"));
}

#[test]
fn validates_both_fcu3_receive_routes() {
    let usart2 = HardwareResource::UartRxDma(UartRxDma::new(
        "uart2",
        SerialPortId::new(2),
        PinId::new(0, 3),
        DmaChannel::new(0, 5, 4),
    ));
    let uart4 = HardwareResource::UartRxDma(UartRxDma::new(
        "uart4",
        SerialPortId::new(4),
        PinId::new(0, 1),
        DmaChannel::new(0, 2, 4),
    ));
    let board = fcu3(vec![usart2, uart4]);

    let validated = validate(&board).unwrap();
    let routes = &validated.serial_routes_by_id;
    assert_eq!(route(routes, "uart2"), Some(&Stm32SerialRoute::Usart2Rx));
    assert_eq!(route(routes, "uart4"), Some(&Stm32SerialRoute::Uart4Rx));
    assert_eq!(route(routes, "uart2").unwrap().peripheral_interrupt(), "USART2");
    assert_eq!(route(routes, "uart4").unwrap().peripheral_interrupt(), "UART4");
}

#[test]
fn validates_foxeer_eight_megahertz_hse_and_rejects_other_crystals() {
    let foxeer_clock = BoardDeclaration {
        id: "foxeer_f405_v2",
        target: Target::external_crystal(Mcu::Stm32F405, 8_000_000, 168_000_000, true),
        monotonic: MonotonicDeclaration::SysTick {
            id: "Mono",
            clock_hz: 168_000_000,
        },
        hardware: vec![led2()],
    };
    let wrong_crystal = BoardDeclaration {
        target: Target::external_crystal(Mcu::Stm32F405, 12_000_000, 168_000_000, true),
        ..foxeer_clock.clone()
    };

    assert!(validate(&foxeer_clock).is_ok());
    let error = validate(&wrong_crystal).unwrap_err().to_string();
    assert!(error.contains("external crystal only at 8 MHz"));
    assert!(error.contains("12000000 Hz"));
}

#[test]
fn rejects_invalid_fcu3_uart4_route_and_f401_port_four() {
    let wrong_uart4 = HardwareResource::UartRxDma(UartRxDma::new(
        "uart4",
        SerialPortId::new(4),
        PinId::new(0, 1),
        DmaChannel::new(0, 3, 4),
    ));
    let error = validate(&fcu3(vec![wrong_uart4])).unwrap_err().to_string();
    assert!(error.contains("UART4"));
    assert!(error.contains("DMA1 Stream 2 Channel 4"));
    assert!(error.contains("DMA1 Stream 3 Channel 4"));

    let f401_port4 = nucleo(vec![HardwareResource::UartRxDma(UartRxDma::new(
        "uart4",
        SerialPortId::new(4),
        PinId::new(0, 1),
        DmaChannel::new(0, 2, 4),
    ))]);
    let error = validate(&f401_port4).unwrap_err().to_string();
    assert!(error.contains("supports DMA receive only on serial port 2"));
}

#[test]
fn rejects_duplicate_physical_pin_assignments() {
    let duplicate = nucleo(vec![led2(), output("other", 0, 5, Level::Low)]);

    let error = validate(&duplicate).unwrap_err();
    assert!(error.to_string().contains("assigns physical pin `PA5`"));
    assert!(error.to_string().contains("led2"));
    assert!(error.to_string().contains("other"));
}

#[test]
fn rejects_out_of_range_numeric_pin_coordinates() {
    let invalid = nucleo(vec![output("invalid", 0, 16, Level::Low)]);

    let error = validate(&invalid).unwrap_err();
    assert!(error.to_string().contains("must be 0 through 15"));
}

#[test]
fn validated_board_records_each_resource_pin() {
    let board = nucleo(vec![led2()]);
    let validated = validate(&board).unwrap();
    assert_eq!(validated.pins_by_id, vec![("led2", PinId::new(0, 5))]);
    assert!(validated.serial_routes_by_id.is_empty());
}

#[test]
fn pin_names_and_package_checks() {
    assert_eq!(pin_name(PinId::new(0, 5)), "PA5");
    assert_eq!(pin_name(PinId::new(7, 1)), "PH1");
    assert!(validate_lqfp64(Mcu::Stm32F405, PinId::new(1, 11)).is_ok());
    assert!(validate_lqfp64(Mcu::Stm32F401, PinId::new(3, 2)).is_ok());
    assert!(validate_lqfp64(Mcu::Stm32F401, PinId::new(3, 3))
        .unwrap_err()
        .contains("does not expose PD3"));
    assert_eq!(
        validate_lqfp64(Mcu::Stm32F401, PinId::new(8, 0)).unwrap_err(),
        "GPIO port index 8 must be 0 through 7"
    );
}

#[test]
fn monotonic_must_use_the_system_clock() {
    let board = BoardDeclaration {
        monotonic: MonotonicDeclaration::SysTick {
            id: "Mono",
            clock_hz: 1_000,
        },
        ..nucleo(vec![led2()])
    };
    assert!(validate(&board).unwrap_err().contains("Mono to use the system clock"));
}

#[test]
fn init_locals_wrap_past_the_line_width() {
    assert_eq!(render_init_local("buf", "[u8; 4]", "[0; 4]"), "buf: [u8; 4] = [0; 4]");
    let long_init = "x".repeat(80);
    assert_eq!(
        render_init_local("buf", "T", &long_init),
        format!("buf: T =\n        {long_init}")
    );
}

#[test]
fn initialization_groups_by_owner_in_first_seen_order() {
    let mut groups = Vec::new();
    push_initialization(&mut groups, "led", "a".to_string());
    push_initialization(&mut groups, "uart", "b".to_string());
    push_initialization(&mut groups, "led", "c".to_string());
    assert_eq!(
        groups,
        vec![
            ("led".to_string(), vec!["a".to_string(), "c".to_string()]),
            ("uart".to_string(), vec!["b".to_string()]),
        ]
    );
}

#[test]
fn renders_input_pull_and_interrupt_edge_from_the_declaration() {
    let input = HardwareResource::Gpio(Gpio {
        id: "input",
        pin: PinId::new(1, 4),
        pull: Pull::Down,
        mode: GpioMode::Input {
            interrupt: Some(ExternalInterrupt {
                edge: InterruptEdge::Both,
            }),
        },
    });

    let rendered = render_resource_initialization(&input, input.pin(), None, None).unwrap();

    assert!(rendered.contains("Input::new(gpiob.pb4, Pull::Down)"));
    assert!(rendered.contains("Edge::RisingFalling"));
    assert_eq!(
        rendered,
        "let input = Input::new(gpiob.pb4, Pull::Down);\nlet input = ferrowasp_stm32f4::exti::init_input(input, &mut syscfg, &mut exti, Edge::RisingFalling);"
    );
}

#[test]
fn renders_floating_input_without_interrupt_initialization() {
    let input = HardwareResource::Gpio(Gpio {
        id: "input",
        pin: PinId::new(0, 1),
        pull: Pull::Floating,
        mode: GpioMode::Input { interrupt: None },
    });

    let rendered = render_resource_initialization(&input, input.pin(), None, None).unwrap();

    assert_eq!(rendered, "let input = Input::new(gpioa.pa1, Pull::None);");
    assert!(!rendered.contains("exti::init_input"));
}

#[test]
fn renders_pb4_output_field_and_initialization() {
    let led = output("led2", 1, 4, Level::Low);
    assert_eq!(
        render_resource_field(&led, led.pin(), None).unwrap(),
        "led2: Pin<'B', 4, Output<PushPull>>,"
    );
    assert_eq!(
        render_resource_initialization(&led, led.pin(), None, None).unwrap(),
        "let mut led2 = gpiob.pb4.into_push_pull_output_in_state(PinState::Low);\nled2.set_internal_resistor(Pull::None);\nled2.set_speed(Speed::Low);"
    );
    let button = HardwareResource::Gpio(Gpio {
        id: "user_button",
        pin: PinId::new(2, 13),
        pull: Pull::Up,
        mode: GpioMode::Input { interrupt: None },
    });
    assert_eq!(
        render_resource_field(&button, button.pin(), None).unwrap(),
        "user_button: Pin<'C', 13, Input>,"
    );
}

#[test]
fn renders_uart_receive_endpoint_for_its_owner() {
    let serial = HardwareResource::UartRxDma(UartRxDma::new(
        "sbus_uart",
        SerialPortId::new(2),
        PinId::new(0, 3),
        DmaChannel::new(0, 5, 4),
    ));
    assert_eq!(
        render_resource_field(&serial, serial.pin(), Some(Stm32SerialRoute::Usart2Rx)).unwrap(),
        "sbus_uart: Uart2RxIrq,"
    );
    assert_eq!(
        render_resource_field(&serial, serial.pin(), None).unwrap_err(),
        "serial resource `sbus_uart` has no validated STM32 route"
    );
    let rendered = render_resource_initialization(
        &serial,
        serial.pin(),
        Some(Stm32SerialRoute::Usart2Rx),
        Some(("rc", "rc_raw", SerialProtocol::Sbus)),
    )
    .unwrap();
    assert_eq!(
        rendered,
        "let rc_parts = ferrowasp_stm32f4::uart_dma::init_usart2_rx_only(\n    Usart2RxOnlyResources {\n        rx_pin: gpioa.pa3,\n        usart: cx.device.USART2,\n        rx_dma: dma1.5,\n    },\n    &mut rcc,\n    SerialProtocol::Sbus,\n    UartRxStorageResources {\n        buffers: cx.local.rc_rx_buffers,\n        free_queue: cx.local.rc_free_queue,\n        filled_queue: cx.local.rc_filled_queue,\n    },\n);\nlet sbus_uart = rc_parts.irq;\nlet rc_raw = rc_parts.parser;"
    );
    assert_eq!(
        render_resource_initialization(&serial, serial.pin(), Some(Stm32SerialRoute::Usart2Rx), None)
            .unwrap_err(),
        "serial resource `sbus_uart` has no owning serial component"
    );
    assert_eq!(
        render_resource_initialization(
            &serial,
            serial.pin(),
            Some(Stm32SerialRoute::Usart2Rx),
            Some(("rc", "rc_raw", SerialProtocol::Disabled))
        )
        .unwrap_err(),
        "disabled serial resource `sbus_uart` reached STM32 initialization"
    );
}
