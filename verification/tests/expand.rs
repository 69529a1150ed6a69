use app_builder::dma_route::{DmaChannel, DmaController, DmaRoute, DmaStream};
use app_builder::expand::{
    component_task, component_task_with_bindings, expand_serial_endpoint_tasks,
    validate_contract_config, validate_contract_resources, validate_contract_spawns,
};
use app_builder::pins::{GpioPort, PinId};
use app_builder::resolve::ResolvedTaskTrigger;
use app_builder::serial::SerialPeripheral;
use app_builder::serial_endpoint::{
    ResolvedEndpointResource, ResolvedSerialEndpoint, SerialEndpointDeclaration,
    SerialEndpointDefinition, SerialEndpointResourceOwnership, SerialEndpointResourceRole,
    SerialEndpointResourceVisibility, SerialEndpointTasks, SerialHardwareDeclaration,
    SerialPortDeclaration, SerialSignalRoute,
};
use app_builder::serial_lowering::{
    endpoint_init_local, endpoint_resource_type, render_endpoint_initialization, require_route,
    validate_supported_endpoint,
};
use app_builder::task::{
    ConfigValue, ResourceRequirement, SpawnRequirement, TaskContract, TaskSafetyClass, TaskSource,
};

fn contract(id: &'static str) -> TaskContract {
    TaskContract::new(id, TaskSource::new("tasks.rs", id))
}

fn with_slots(
    id: &'static str,
    local: &[&'static str],
    shared: &[&'static str],
    spawns: &[&'static str],
) -> TaskContract {
    let mut c = contract(id);
    c.local = local.iter().map(|s| ResourceRequirement::new(s, "T")).collect();
    c.shared = shared.iter().map(|s| ResourceRequirement::new(s, "T")).collect();
    c.spawns = spawns
        .iter()
        .map(|s| SpawnRequirement::new(s, vec!["u64"]))
        .collect();
    c
}

const ROLES: [SerialEndpointResourceRole; 14] = [
    SerialEndpointResourceRole::RxBuffers,
    SerialEndpointResourceRole::RxFreeQueue,
    SerialEndpointResourceRole::RxFilledQueue,
    SerialEndpointResourceRole::RxChannel,
    SerialEndpointResourceRole::RxService,
    SerialEndpointResourceRole::RxParser,
    SerialEndpointResourceRole::RxReader,
    SerialEndpointResourceRole::RxDiscontinuities,
    SerialEndpointResourceRole::TxBuffer,
    SerialEndpointResourceRole::TxDma,
    SerialEndpointResourceRole::TxChannel,
    SerialEndpointResourceRole::TxWriter,
    SerialEndpointResourceRole::TxOwner,
    SerialEndpointResourceRole::TxCompletion,
];

fn suffix(role: SerialEndpointResourceRole) -> &'static str {
    match role {
        SerialEndpointResourceRole::RxBuffers => "rx_buffers",
        SerialEndpointResourceRole::RxFreeQueue => "rx_free",
        SerialEndpointResourceRole::RxFilledQueue => "rx_filled",
        SerialEndpointResourceRole::RxChannel => "rx_channel",
        SerialEndpointResourceRole::RxService => "rx",
        SerialEndpointResourceRole::RxParser => "rx_parser_side",
        SerialEndpointResourceRole::RxReader => "reader",
        SerialEndpointResourceRole::RxDiscontinuities => "discontinuities",
        SerialEndpointResourceRole::TxBuffer => "tx_buffer",
        SerialEndpointResourceRole::TxDma => "tx_dma",
        SerialEndpointResourceRole::TxChannel => "tx_channel",
        SerialEndpointResourceRole::TxWriter => "writer",
        SerialEndpointResourceRole::TxOwner => "tx_owner",
        SerialEndpointResourceRole::TxCompletion => "tx_completion",
    }
}

fn dma1(stream: DmaStream) -> DmaRoute {
    DmaRoute::new(DmaController::Dma1, stream, DmaChannel::Channel4)
}

fn usart2_endpoint(id: &'static str) -> ResolvedSerialEndpoint {
    let tasks = SerialEndpointTasks {
        peripheral_irq: with_slots("uart_rx_idle_irq", &[], &["rx"], &["bridge"]),
        rx_dma_irq: with_slots("uart_rx_dma_irq", &[], &["rx"], &["bridge"]),
        rx_bridge: with_slots("uart_rx_bridge", &["bridge"], &[], &[]),
        tx_dma_irq: with_slots("uart_tx_dma_irq", &["completion"], &["tx_dma"], &[]),
        tx_worker: with_slots("serial_tx_worker", &["owner"], &["tx_dma"], &[]),
    };
    let definition = SerialEndpointDefinition { id: "uart_dma_endpoint", tasks, resources: Vec::new() };
    ResolvedSerialEndpoint {
        declaration: SerialEndpointDeclaration {
            id,
            definition,
            hardware_id: "usart2",
            interrupt_priority: 7,
            bridge_priority: 5,
            worker_priority: Some(3),
            rx_buffer_count: 4,
            rx_queue_depth: 4,
            tx_queue_depth: 16,
        },
        hardware: SerialHardwareDeclaration {
            id: "usart2",
            port: SerialPortDeclaration {
                peripheral: SerialPeripheral::Usart2,
                rx: Some(SerialSignalRoute {
                    pin: PinId::new(GpioPort::A, 3),
                    dma: Some(dma1(DmaStream::Stream5)),
                }),
                tx: Some(SerialSignalRoute {
                    pin: PinId::new(GpioPort::A, 2),
                    dma: Some(dma1(DmaStream::Stream6)),
                }),
            },
        },
        resources: ROLES
            .iter()
            .map(|role| ResolvedEndpointResource {
                id: format!("{id}_{}", suffix(*role)),
                role: *role,
                ownership: SerialEndpointResourceOwnership::Local,
                visibility: SerialEndpointResourceVisibility::Private,
            })
            .collect(),
    }
}

#[test]
fn resource_bindings_must_name_exactly_the_contract_slots() {
    let requirements = vec![
        ResourceRequirement::new("rx", "T"),
        ResourceRequirement::new("bridge", "T"),
    ];
    assert!(validate_contract_resources("t", "local", &requirements, &vec![("bridge", "b"), ("rx", "r")]).is_ok());
    assert!(validate_contract_resources(
        "t",
        "local",
        &requirements,
        &vec![("rx", "a"), ("bridge", "b"), ("rx", "c")]
    )
    .is_ok());
    let error = validate_contract_resources("t", "shared", &requirements, &vec![("zeta", "z"), ("rx", "r")])
        .unwrap_err();
    assert_eq!(
        error,
        "component task `t` shared bindings {\"rx\", \"zeta\"} do not match contract {\"bridge\", \"rx\"}"
    );
    let error = validate_contract_resources("t", "local", &Vec::new(), &Vec::new());
    assert!(error.is_ok());
    let error = validate_contract_resources("t", "local", &requirements, &Vec::new()).unwrap_err();
    assert_eq!(
        error,
        "component task `t` local bindings {} do not match contract {\"bridge\", \"rx\"}"
    );
}

#[test]
fn config_bindings_must_supply_each_slot_with_its_type() {
    let mut c = contract("control");
    c.config = vec![ResourceRequirement::new("ticks_per_control", "u32")];
    assert!(validate_contract_config("control_loop", &c, &vec![("ticks_per_control", ConfigValue::U32(2))]).is_ok());
    let error = validate_contract_config(
        "control_loop",
        &c,
        &vec![("ticks_per_control", ConfigValue::Bool(true))],
    )
    .unwrap_err();
    assert_eq!(
        error,
        "component task `control_loop` config bindings {\"ticks_per_control\": \"bool\"} do not match contract {\"ticks_per_control\": \"u32\"}"
    );
    let error = validate_contract_config(
        "control_loop",
        &c,
        &vec![("b", ConfigValue::U32(1)), ("a", ConfigValue::Bool(false)), ("b", ConfigValue::Bool(true))],
    )
    .unwrap_err();
    assert_eq!(
        error,
        "component task `control_loop` config bindings {\"a\": \"bool\", \"b\": \"bool\"} do not match contract {\"ticks_per_control\": \"u32\"}"
    );
}

#[test]
fn spawn_bindings_must_name_exactly_the_contract_spawns() {
    let c = with_slots("poll", &[], &[], &["timeout"]);
    assert!(validate_contract_spawns("spi1_poll", &c, &vec![("timeout", "spi1_timeout")]).is_ok());
    assert_eq!(
        validate_contract_spawns("spi1_poll", &c, &vec![]).unwrap_err(),
        "component task `spi1_poll` spawn bindings {} do not match contract {\"timeout\"}"
    );
}

#[test]
fn component_task_carries_bindings_and_contract_spawn_arguments() {
    let c = with_slots("poll", &["device"], &["kind"], &["timeout"]);
    let task = component_task_with_bindings(
        "spi1",
        "spi1_poll".to_owned(),
        &c,
        ResolvedTaskTrigger::Software,
        4,
        vec![("device", "spi1_device")],
        vec![("kind", "spi1_kind")],
        vec![],
        vec![("timeout", "spi1_timeout")],
    )
    .unwrap();
    assert_eq!(task.id, "spi1_poll");
    assert_eq!(task.contract.id, "poll");
    assert_eq!(task.priority, 4);
    assert_eq!(task.safety_class, TaskSafetyClass::NonSafetyCritical);
    assert_eq!(task.local[0].logical, "device");
    assert_eq!(task.local[0].target, "spi1_device");
    assert_eq!(task.shared[0].target, "spi1_kind");
    assert_eq!(task.spawns[0].target, "spi1_timeout");
    assert_eq!(task.spawns[0].arguments, vec!["u64"]);
    assert_eq!(task.owner_component, Some("spi1"));

    let error = component_task(
        "spi1",
        "spi1_poll".to_owned(),
        &c,
        ResolvedTaskTrigger::Software,
        4,
        vec![("device", "spi1_device")],
        vec![("kind", "spi1_kind")],
    )
    .unwrap_err();
    assert_eq!(
        error,
        "component task `spi1_poll` spawn bindings {} do not match contract {\"timeout\"}"
    );
}

#[test]
fn serial_endpoint_expands_into_five_tasks() {
    let endpoint = usart2_endpoint("serial2");
    let tasks = expand_serial_endpoint_tasks(&endpoint).unwrap();
    let ids: Vec<&str> = tasks.iter().map(|task| task.id.as_str()).collect();
    assert_eq!(
        ids,
        [
            "serial2_rx_idle_irq",
            "serial2_rx_dma_irq",
            "serial2_rx_bridge",
            "serial2_tx_dma_irq",
            "serial2_tx_worker"
        ]
    );
    assert!(matches!(&tasks[0].trigger, ResolvedTaskTrigger::Interrupt(name) if name == "USART2"));
    assert!(matches!(&tasks[1].trigger, ResolvedTaskTrigger::Interrupt(name) if name == "DMA1_STREAM5"));
    assert!(matches!(tasks[2].trigger, ResolvedTaskTrigger::Software));
    assert!(matches!(&tasks[3].trigger, ResolvedTaskTrigger::Interrupt(name) if name == "DMA1_STREAM6"));
    assert!(matches!(tasks[4].trigger, ResolvedTaskTrigger::Software));
    assert_eq!(
        tasks.iter().map(|task| task.priority).collect::<Vec<_>>(),
        [7, 7, 5, 7, 3]
    );
    assert_eq!(tasks[0].shared[0].target, "serial2_rx");
    assert_eq!(tasks[0].spawns[0].target, "serial2_rx_bridge");
    assert_eq!(tasks[2].local[0].target, "serial2_rx_parser_side");
    assert_eq!(tasks[3].local[0].target, "serial2_tx_completion");
    assert_eq!(tasks[4].local[0].target, "serial2_tx_owner");
    assert_eq!(tasks[4].shared[0].target, "serial2_tx_dma");
    assert!(tasks.iter().all(|task| task.owner_component == Some("serial2")));
}

#[test]
fn serial_endpoint_expansion_reports_missing_parts() {
    let mut endpoint = usart2_endpoint("serial2");
    endpoint.declaration.worker_priority = None;
    assert_eq!(
        expand_serial_endpoint_tasks(&endpoint).unwrap_err(),
        "validated endpoint lost its worker priority"
    );
    let mut endpoint = usart2_endpoint("serial2");
    endpoint.resources.retain(|r| r.role != SerialEndpointResourceRole::TxOwner);
    assert_eq!(
        expand_serial_endpoint_tasks(&endpoint).unwrap_err(),
        "serial endpoint `serial2` has no active TxOwner resource"
    );
    let mut endpoint = usart2_endpoint("serial2");
    endpoint.hardware.port.rx = None;
    assert_eq!(
        expand_serial_endpoint_tasks(&endpoint).unwrap_err(),
        "validated serial endpoint lost its RX route"
    );
}

#[test]
fn serial_routes_must_match_the_supported_pins_and_streams() {
    assert!(require_route("serial2", "RX", PinId::new(GpioPort::A, 3), Some(dma1(DmaStream::Stream5)), PinId::new(GpioPort::A, 3), dma1(DmaStream::Stream5)).is_ok());
    assert_eq!(
        require_route("serial2", "RX", PinId::new(GpioPort::A, 10), None, PinId::new(GpioPort::A, 3), dma1(DmaStream::Stream5)).unwrap_err(),
        "serial endpoint `serial2` RX route PinId { port: A, pin: 10 }/None is unsupported; expected PinId { port: A, pin: 3 }/DmaRoute { controller: Dma1, stream: Stream5, channel: Channel4 }"
    );
    assert!(validate_supported_endpoint(&usart2_endpoint("serial2")).is_ok());
    let mut endpoint = usart2_endpoint("serial2");
    endpoint.hardware.port.tx = Some(SerialSignalRoute {
        pin: PinId::new(GpioPort::A, 2),
        dma: Some(dma1(DmaStream::Stream7)),
    });
    assert_eq!(
        validate_supported_endpoint(&endpoint).unwrap_err(),
        "serial endpoint `serial2` TX route PinId { port: A, pin: 2 }/Some(DmaRoute { controller: Dma1, stream: Stream7, channel: Channel4 }) is unsupported; expected PinId { port: A, pin: 2 }/DmaRoute { controller: Dma1, stream: Stream6, channel: Channel4 }"
    );
    endpoint.hardware.port.peripheral = SerialPeripheral::Usart6;
    assert_eq!(
        validate_supported_endpoint(&endpoint).unwrap_err(),
        "serial endpoint `serial2` uses unsupported peripheral Usart6"
    );
}

#[test]
fn endpoint_roles_lower_to_their_rust_types() {
    assert_eq!(
        endpoint_init_local(SerialEndpointResourceRole::TxBuffer).unwrap(),
        ("UartTxBuffer", "[0; UART_TX_BUFFER_SIZE]")
    );
    assert_eq!(
        endpoint_init_local(SerialEndpointResourceRole::TxDma).unwrap_err(),
        "endpoint role TxDma cannot be initialization-local"
    );
    let endpoint = usart2_endpoint("serial2");
    assert_eq!(
        endpoint_resource_type(&endpoint, SerialEndpointResourceRole::RxService).unwrap(),
        "Uart2RxIrq"
    );
    assert_eq!(
        endpoint_resource_type(&endpoint, SerialEndpointResourceRole::RxBuffers).unwrap_err(),
        "endpoint role RxBuffers cannot be an RTIC field"
    );
    let mut other = usart2_endpoint("serial1");
    other.hardware.port.peripheral = SerialPeripheral::Usart1;
    assert_eq!(
        endpoint_resource_type(&other, SerialEndpointResourceRole::TxDma).unwrap_err(),
        "unsupported serial TX service for Usart1"
    );
}

#[test]
fn usart2_endpoint_initialization_is_rendered_exactly() {
    let endpoint = usart2_endpoint("serial2");
    let id = "serial2";
    let expected = format!(
        "let {id}_service = platform_config.{id}\n    .expect(\"boot platform config must assign {id}\");\nlet {id}_parts = ferrowasp_stm32f4::uart_dma::init_usart2_endpoint(\n    Usart2EndpointResources {{\n        tx_pin: gpioa.pa2,\n        rx_pin: gpioa.pa3,\n        usart: cx.device.USART2,\n        rx_dma: dma1.5,\n        tx_dma: dma1.6,\n    }},\n    &mut rcc,\n    {id}_service.profile().protocol,\n    UartRxStorageResources {{\n        buffers: cx.local.serial2_rx_buffers,\n        free_queue: cx.local.serial2_rx_free,\n        filled_queue: cx.local.serial2_rx_filled,\n    }},\n    cx.local.serial2_tx_buffer,\n);\nlet serial2_rx = {id}_parts.rx_irq;\nlet {id}_rx_parser = {id}_parts.parser;\nlet ({id}_rx_producer, serial2_reader, serial2_discontinuities) =\n    cx.local.serial2_rx_channel.split();\nlet serial2_rx_parser_side = UartOwnedRxBridge::new({id}_rx_parser, {id}_rx_producer);\nlet serial2_tx_dma = {id}_parts.tx_dma;\nlet (serial2_writer, serial2_tx_owner, serial2_tx_completion) =\n    cx.local.serial2_tx_channel.split();"
    );
    assert_eq!(render_endpoint_initialization(&endpoint).unwrap(), expected);
    let odd = usart2_endpoint("gps");
    assert_eq!(
        render_endpoint_initialization(&odd).unwrap_err(),
        "serial endpoint `gps` must use a logical connector ID such as `serial1` or `serial2`"
    );
}
