//! STM32F405 lowering of DMA-backed serial endpoints: the routes the backend
//! supports, the Rust types and initializers of endpoint resources, and the
//! initialization source of one endpoint.

use vstd::prelude::*;

use crate::dma_route::{controller_number, stream_number, channel_number, DmaChannel, DmaController, DmaRoute, DmaStream};
use crate::pins::{GpioPort, PinId};
use crate::resolve::{pin_debug, push_pin_debug};
use crate::serial::SerialPeripheral;
use crate::serial_endpoint::{
    missing_serial_resource, serial_resource, serial_role_name, serial_role_str,
    ResolvedSerialEndpoint, SerialEndpointResourceRole,
};
use crate::text::{concat3, decimal, push_decimal, str_eq};

verus! {

/// A DMA route written as its `Debug` form.
pub open spec fn dma_route_debug(r: DmaRoute) -> Seq<char> {
    "DmaRoute { controller: Dma"@ + decimal(controller_number(r.controller)) + ", stream: Stream"@
        + decimal(stream_number(r.stream)) + ", channel: Channel"@ + decimal(
        channel_number(r.channel),
    ) + " }"@
}

/// An optional DMA route written as its `Debug` form.
pub open spec fn option_dma_debug(r: Option<DmaRoute>) -> Seq<char> {
    match r {
        Some(route) => "Some("@ + dma_route_debug(route) + ")"@,
        None => "None"@,
    }
}

fn push_dma_route_debug(out: &mut String, r: DmaRoute)
    ensures
        final(out)@ == old(out)@ + dma_route_debug(r),
{
    out.append("DmaRoute { controller: Dma");
    push_decimal(out, r.controller.number());
    out.append(", stream: Stream");
    push_decimal(out, r.stream.number());
    out.append(", channel: Channel");
    push_decimal(out, r.channel.number());
    out.append(" }");
}

fn push_option_dma_debug(out: &mut String, r: Option<DmaRoute>)
    ensures
        final(out)@ == old(out)@ + option_dma_debug(r),
{
    match r {
        Some(route) => {
            out.append("Some(");
            push_dma_route_debug(out, route);
            out.append(")");
        },
        None => {
            out.append("None");
        },
    }
}

/// Diagnostic of a serial signal routed other than the backend supports.
pub open spec fn route_mismatch_message(
    endpoint: Seq<char>,
    signal: Seq<char>,
    actual_pin: PinId,
    actual_dma: Option<DmaRoute>,
    expected_pin: PinId,
    expected_dma: DmaRoute,
) -> Seq<char> {
    "serial endpoint `"@ + endpoint + "` "@ + signal + " route "@ + pin_debug(actual_pin) + "/"@
        + option_dma_debug(actual_dma) + " is unsupported; expected "@ + pin_debug(expected_pin)
        + "/"@ + dma_route_debug(expected_dma)
}

/// Checks that one signal of a serial endpoint uses the expected pin and
/// DMA route.
pub fn require_route(
    endpoint: &str,
    signal: &str,
    actual_pin: PinId,
    actual_dma: Option<DmaRoute>,
    expected_pin: PinId,
    expected_dma: DmaRoute,
) -> (r: Result<(), String>)
    ensures
        r is Ok <==> (actual_pin == expected_pin && actual_dma == Some(expected_dma)),
        r matches Err(e) ==> e@ == route_mismatch_message(
            endpoint@,
            signal@,
            actual_pin,
            actual_dma,
            expected_pin,
            expected_dma,
        ),
{
    let same_dma = match actual_dma {
        Some(route) => route == expected_dma,
        None => false,
    };
    if actual_pin == expected_pin && same_dma {
        return Ok(());
    }
    let mut message = concat3("serial endpoint `", endpoint, "` ");
    message.append(signal);
    message.append(" route ");
    push_pin_debug(&mut message, actual_pin);
    message.append("/");
    push_option_dma_debug(&mut message, actual_dma);
    message.append(" is unsupported; expected ");
    push_pin_debug(&mut message, expected_pin);
    message.append("/");
    push_dma_route_debug(&mut message, expected_dma);
    Err(message)
}

/// Name of a serial peripheral as diagnostics print it.
pub open spec fn serial_peripheral_name(p: SerialPeripheral) -> Seq<char> {
    match p {
        SerialPeripheral::Usart1 => "Usart1"@,
        SerialPeripheral::Usart2 => "Usart2"@,
        SerialPeripheral::Usart3 => "Usart3"@,
        SerialPeripheral::Uart4 => "Uart4"@,
        SerialPeripheral::Uart5 => "Uart5"@,
        SerialPeripheral::Usart6 => "Usart6"@,
        SerialPeripheral::Uart7 => "Uart7"@,
        SerialPeripheral::Uart8 => "Uart8"@,
    }
}

fn serial_peripheral_str(p: SerialPeripheral) -> (r: &'static str)
    ensures
        r@ == serial_peripheral_name(p),
{
    match p {
        SerialPeripheral::Usart1 => "Usart1",
        SerialPeripheral::Usart2 => "Usart2",
        SerialPeripheral::Usart3 => "Usart3",
        SerialPeripheral::Uart4 => "Uart4",
        SerialPeripheral::Uart5 => "Uart5",
        SerialPeripheral::Usart6 => "Usart6",
        SerialPeripheral::Uart7 => "Uart7",
        SerialPeripheral::Uart8 => "Uart8",
    }
}

/// A DMA1 route on channel 4, the channel the supported UART routes use.
pub open spec fn dma1_channel4(stream: DmaStream) -> DmaRoute {
    DmaRoute { controller: DmaController::Dma1, stream, channel: DmaChannel::Channel4 }
}

/// The receive and transmit pins and DMA routes the backend supports for a
/// peripheral: USART2 on PA3/PA2 with DMA1 streams 5/6, UART4 on PA1/PA0
/// with DMA1 streams 2/4, all on channel 4.
pub open spec fn supported_serial_routes(p: SerialPeripheral) -> Option<(PinId, DmaRoute, PinId, DmaRoute)> {
    match p {
        SerialPeripheral::Usart2 => Some(
            (
                PinId { port: GpioPort::A, pin: 3 },
                dma1_channel4(DmaStream::Stream5),
                PinId { port: GpioPort::A, pin: 2 },
                dma1_channel4(DmaStream::Stream6),
            ),
        ),
        SerialPeripheral::Uart4 => Some(
            (
                PinId { port: GpioPort::A, pin: 1 },
                dma1_channel4(DmaStream::Stream2),
                PinId { port: GpioPort::A, pin: 0 },
                dma1_channel4(DmaStream::Stream4),
            ),
        ),
        _ => None,
    }
}

/// First rule a serial endpoint breaks against the routes the backend
/// supports; `None` when it uses a supported route on both signals.
pub open spec fn supported_endpoint_error(e: ResolvedSerialEndpoint) -> Option<Seq<char>> {
    let id = e.declaration.id@;
    let port = e.hardware.port;
    if port.rx is None {
        Some("validated serial endpoint has no RX route"@)
    } else if port.tx is None {
        Some("validated serial endpoint has no TX route"@)
    } else {
        let rx = port.rx.unwrap();
        let tx = port.tx.unwrap();
        match supported_serial_routes(port.peripheral) {
            None => Some(
                "serial endpoint `"@ + id + "` uses unsupported peripheral "@ + serial_peripheral_name(
                    port.peripheral,
                ),
            ),
            Some((rx_pin, rx_dma, tx_pin, tx_dma)) => if !(rx.pin == rx_pin && rx.dma == Some(
                rx_dma,
            )) {
                Some(route_mismatch_message(id, "RX"@, rx.pin, rx.dma, rx_pin, rx_dma))
            } else if !(tx.pin == tx_pin && tx.dma == Some(tx_dma)) {
                Some(route_mismatch_message(id, "TX"@, tx.pin, tx.dma, tx_pin, tx_dma))
            } else {
                None
            },
        }
    }
}

/// Checks that a serial endpoint uses a receive and transmit route the
/// backend supports.
pub fn validate_supported_endpoint(endpoint: &ResolvedSerialEndpoint) -> (r: Result<(), String>)
    ensures
        r is Ok <==> supported_endpoint_error(*endpoint) is None,
        r matches Err(e) ==> supported_endpoint_error(*endpoint) == Some(e@),
{
    let rx = match endpoint.hardware.port.rx {
        Some(route) => route,
        None => {
            return Err(String::from_str("validated serial endpoint has no RX route"));
        },
    };
    let tx = match endpoint.hardware.port.tx {
        Some(route) => route,
        None => {
            return Err(String::from_str("validated serial endpoint has no TX route"));
        },
    };
    let id = endpoint.declaration.id;
    match endpoint.hardware.port.peripheral {
        SerialPeripheral::Usart2 => {
            require_route(
                id,
                "RX",
                rx.pin,
                rx.dma,
                PinId::new(GpioPort::A, 3),
                DmaRoute::new(DmaController::Dma1, DmaStream::Stream5, DmaChannel::Channel4),
            )?;
            require_route(
                id,
                "TX",
                tx.pin,
                tx.dma,
                PinId::new(GpioPort::A, 2),
                DmaRoute::new(DmaController::Dma1, DmaStream::Stream6, DmaChannel::Channel4),
            )?;
        },
        SerialPeripheral::Uart4 => {
            require_route(
                id,
                "RX",
                rx.pin,
                rx.dma,
                PinId::new(GpioPort::A, 1),
                DmaRoute::new(DmaController::Dma1, DmaStream::Stream2, DmaChannel::Channel4),
            )?;
            require_route(
                id,
                "TX",
                tx.pin,
                tx.dma,
                PinId::new(GpioPort::A, 0),
                DmaRoute::new(DmaController::Dma1, DmaStream::Stream4, DmaChannel::Channel4),
            )?;
        },
        unsupported => {
            let mut message = concat3("serial endpoint `", id, "` uses unsupported peripheral ");
            message.append(serial_peripheral_str(unsupported));
            return Err(message);
        },
    }
    Ok(())
}

/// Rust type and initializer of an endpoint role borrowed only during
/// initialization, or `None` for a role that is not.
pub open spec fn spec_endpoint_init_local(role: SerialEndpointResourceRole) -> Option<(Seq<char>, Seq<char>)> {
    match role {
        SerialEndpointResourceRole::RxBuffers => Some(
            ("UartRxBufferBank"@, "ferrowasp_stm32f4::app_storage::new_uart_rx_buffer_bank()"@),
        ),
        SerialEndpointResourceRole::RxFreeQueue => Some(
            ("UartRxFreeQueue"@, "UartRxFreeQueue::new()"@),
        ),
        SerialEndpointResourceRole::RxFilledQueue => Some(
            ("UartRxFilledQueue"@, "UartRxFilledQueue::new()"@),
        ),
        SerialEndpointResourceRole::RxChannel => Some(
            ("UartOwnedRxChannel"@, "UartOwnedRxChannel::new()"@),
        ),
        SerialEndpointResourceRole::TxBuffer => Some(("UartTxBuffer"@, "[0; UART_TX_BUFFER_SIZE]"@)),
        SerialEndpointResourceRole::TxChannel => Some(
            ("UartOwnedTxChannel"@, "UartOwnedTxChannel::new()"@),
        ),
        _ => None,
    }
}

/// Rust type and initializer of an initialization-local endpoint resource.
pub fn endpoint_init_local(role: SerialEndpointResourceRole) -> (r: Result<
    (&'static str, &'static str),
    String,
>)
    ensures
        match (r, spec_endpoint_init_local(role)) {
            (Ok((t, i)), Some((st, si))) => t@ == st && i@ == si,
            (Err(e), None) => e@ == "endpoint role "@ + serial_role_name(role)
                + " cannot be initialization-local"@,
            _ => false,
        },
{
    match role {
        SerialEndpointResourceRole::RxBuffers => Ok(
            ("UartRxBufferBank", "ferrowasp_stm32f4::app_storage::new_uart_rx_buffer_bank()"),
        ),
        SerialEndpointResourceRole::RxFreeQueue => Ok(("UartRxFreeQueue", "UartRxFreeQueue::new()")),
        SerialEndpointResourceRole::RxFilledQueue => Ok(
            ("UartRxFilledQueue", "UartRxFilledQueue::new()"),
        ),
        SerialEndpointResourceRole::RxChannel => Ok(
            ("UartOwnedRxChannel", "UartOwnedRxChannel::new()"),
        ),
        SerialEndpointResourceRole::TxBuffer => Ok(("UartTxBuffer", "[0; UART_TX_BUFFER_SIZE]")),
        SerialEndpointResourceRole::TxChannel => Ok(
            ("UartOwnedTxChannel", "UartOwnedTxChannel::new()"),
        ),
        unsupported => Err(
            concat3("endpoint role ", serial_role_str(unsupported), " cannot be initialization-local"),
        ),
    }
}

/// Rust type of the RTIC field of an endpoint role, or the diagnostic for a
/// role that cannot be one (or whose service the peripheral lacks).
pub open spec fn spec_endpoint_resource_type(p: SerialPeripheral, role: SerialEndpointResourceRole) -> Result<
    Seq<char>,
    Seq<char>,
> {
    match role {
        SerialEndpointResourceRole::RxService => match p {
            SerialPeripheral::Usart2 => Ok("Uart2RxIrq"@),
            SerialPeripheral::Uart4 => Ok("Uart4RxIrq"@),
            _ => Err("unsupported serial RX service for "@ + serial_peripheral_name(p)),
        },
        SerialEndpointResourceRole::RxParser => Ok(
            "UartOwnedRxBridge<'static, { memory::UART_RX_BUFFER_BYTES }, { memory::OWNED_UART_RX_QUEUE_DEPTH }>"@,
        ),
        SerialEndpointResourceRole::RxReader => Ok("UartOwnedReader<'static>"@),
        SerialEndpointResourceRole::RxDiscontinuities => Ok("UartOwnedDiscontinuities<'static>"@),
        SerialEndpointResourceRole::TxDma => match p {
            SerialPeripheral::Usart2 => Ok("Uart2TxDmaSide"@),
            SerialPeripheral::Uart4 => Ok("Uart4TxDmaSide"@),
            _ => Err("unsupported serial TX service for "@ + serial_peripheral_name(p)),
        },
        SerialEndpointResourceRole::TxWriter => Ok("UartOwnedWriter<'static>"@),
        SerialEndpointResourceRole::TxOwner => Ok("UartOwnedTxOwner<'static>"@),
        SerialEndpointResourceRole::TxCompletion => Ok("UartOwnedTxCompletion<'static>"@),
        _ => Err("endpoint role "@ + serial_role_name(role) + " cannot be an RTIC field"@),
    }
}

/// Rust type of the RTIC field of an endpoint resource.
pub fn endpoint_resource_type(endpoint: &ResolvedSerialEndpoint, role: SerialEndpointResourceRole) -> (r:
    Result<&'static str, String>)
    ensures
        match (r, spec_endpoint_resource_type(endpoint.hardware.port.peripheral, role)) {
            (Ok(t), Ok(st)) => t@ == st,
            (Err(e), Err(se)) => e@ == se,
            _ => false,
        },
{
    let peripheral = endpoint.hardware.port.peripheral;
    match role {
        SerialEndpointResourceRole::RxService => match peripheral {
            SerialPeripheral::Usart2 => Ok("Uart2RxIrq"),
            SerialPeripheral::Uart4 => Ok("Uart4RxIrq"),
            unsupported => {
                let mut message = String::from_str("unsupported serial RX service for ");
                message.append(serial_peripheral_str(unsupported));
                Err(message)
            },
        },
        SerialEndpointResourceRole::RxParser => Ok(
            "UartOwnedRxBridge<'static, { memory::UART_RX_BUFFER_BYTES }, { memory::OWNED_UART_RX_QUEUE_DEPTH }>",
        ),
        SerialEndpointResourceRole::RxReader => Ok("UartOwnedReader<'static>"),
        SerialEndpointResourceRole::RxDiscontinuities => Ok("UartOwnedDiscontinuities<'static>"),
        SerialEndpointResourceRole::TxDma => match peripheral {
            SerialPeripheral::Usart2 => Ok("Uart2TxDmaSide"),
            SerialPeripheral::Uart4 => Ok("Uart4TxDmaSide"),
            unsupported => {
                let mut message = String::from_str("unsupported serial TX service for ");
                message.append(serial_peripheral_str(unsupported));
                Err(message)
            },
        },
        SerialEndpointResourceRole::TxWriter => Ok("UartOwnedWriter<'static>"),
        SerialEndpointResourceRole::TxOwner => Ok("UartOwnedTxOwner<'static>"),
        SerialEndpointResourceRole::TxCompletion => Ok("UartOwnedTxCompletion<'static>"),
        unsupported => Err(
            concat3("endpoint role ", serial_role_str(unsupported), " cannot be an RTIC field"),
        ),
    }
}

/// Head of the endpoint driver call of a peripheral, up to its protocol
/// argument, or `None` for a peripheral without a driver.
pub open spec fn uart_driver_head(p: SerialPeripheral) -> Option<Seq<char>> {
    match p {
        SerialPeripheral::Uart4 => Some(
            "_parts = ferrowasp_stm32f4::uart_dma::init_uart4_endpoint(\n    Uart4EndpointResources {\n        tx_pin: gpioa.pa0,\n        rx_pin: gpioa.pa1,\n        uart: cx.device.UART4,\n        rx_dma: dma1.2,\n        tx_dma: dma1.4,\n    },\n    &mut rcc,\n    "@,
        ),
        SerialPeripheral::Usart2 => Some(
            "_parts = ferrowasp_stm32f4::uart_dma::init_usart2_endpoint(\n    Usart2EndpointResources {\n        tx_pin: gpioa.pa2,\n        rx_pin: gpioa.pa3,\n        usart: cx.device.USART2,\n        rx_dma: dma1.5,\n        tx_dma: dma1.6,\n    },\n    &mut rcc,\n    "@,
        ),
        _ => None,
    }
}

/// Generated ID of a resource the endpoint is known to have.
pub open spec fn res(e: ResolvedSerialEndpoint, role: SerialEndpointResourceRole) -> Seq<char> {
    serial_resource(e, role).unwrap()
}

/// Initialization source of a serial endpoint: the boot-time service
/// selection, the driver call that splits the port into its parts, and the
/// receive and transmit channel splits.
pub open spec fn endpoint_initialization_source(e: ResolvedSerialEndpoint) -> Seq<char> {
    let id = e.declaration.id@;
    "let "@ + id + "_service = platform_config."@ + id
        + "\n    .expect(\"boot platform config must assign "@ + id + "\");"@ + "\n"@ + "let "@ + id
        + uart_driver_head(e.hardware.port.peripheral).unwrap() + id
        + "_service.profile().protocol,\n    UartRxStorageResources {\n        buffers: cx.local."@
        + res(e, SerialEndpointResourceRole::RxBuffers) + ",\n        free_queue: cx.local."@
        + res(e, SerialEndpointResourceRole::RxFreeQueue) + ",\n        filled_queue: cx.local."@
        + res(e, SerialEndpointResourceRole::RxFilledQueue) + ",\n    },\n    cx.local."@
        + res(e, SerialEndpointResourceRole::TxBuffer) + ",\n);"@ + "\nlet "@
        + res(e, SerialEndpointResourceRole::RxService) + " = "@ + id + "_parts.rx_irq;\nlet "@
        + id + "_rx_parser = "@ + id + "_parts.parser;\nlet ("@ + id + "_rx_producer, "@
        + res(e, SerialEndpointResourceRole::RxReader) + ", "@
        + res(e, SerialEndpointResourceRole::RxDiscontinuities) + ") =\n    cx.local."@
        + res(e, SerialEndpointResourceRole::RxChannel) + ".split();\nlet "@
        + res(e, SerialEndpointResourceRole::RxParser) + " = UartOwnedRxBridge::new("@ + id
        + "_rx_parser, "@ + id + "_rx_producer);"@ + "\nlet "@
        + res(e, SerialEndpointResourceRole::TxDma) + " = "@ + id + "_parts.tx_dma;\nlet ("@
        + res(e, SerialEndpointResourceRole::TxWriter) + ", "@
        + res(e, SerialEndpointResourceRole::TxOwner) + ", "@
        + res(e, SerialEndpointResourceRole::TxCompletion) + ") =\n    cx.local."@
        + res(e, SerialEndpointResourceRole::TxChannel) + ".split();"@
}

/// First rule that keeps a serial endpoint from being initialized: an
/// unsupported route, a missing receive resource, a connector ID other than
/// `serial1` or `serial2`, a peripheral without a driver, or a missing
/// transmit resource, in that order.
pub open spec fn endpoint_initialization_error(e: ResolvedSerialEndpoint) -> Option<Seq<char>> {
    let id = e.declaration.id@;
    if supported_endpoint_error(e) is Some {
        supported_endpoint_error(e)
    } else if serial_resource(e, SerialEndpointResourceRole::RxBuffers) is None {
        Some(missing_serial_resource(id, SerialEndpointResourceRole::RxBuffers))
    } else if serial_resource(e, SerialEndpointResourceRole::RxFreeQueue) is None {
        Some(missing_serial_resource(id, SerialEndpointResourceRole::RxFreeQueue))
    } else if serial_resource(e, SerialEndpointResourceRole::RxFilledQueue) is None {
        Some(missing_serial_resource(id, SerialEndpointResourceRole::RxFilledQueue))
    } else if serial_resource(e, SerialEndpointResourceRole::RxChannel) is None {
        Some(missing_serial_resource(id, SerialEndpointResourceRole::RxChannel))
    } else if serial_resource(e, SerialEndpointResourceRole::RxService) is None {
        Some(missing_serial_resource(id, SerialEndpointResourceRole::RxService))
    } else if serial_resource(e, SerialEndpointResourceRole::RxParser) is None {
        Some(missing_serial_resource(id, SerialEndpointResourceRole::RxParser))
    } else if serial_resource(e, SerialEndpointResourceRole::RxReader) is None {
        Some(missing_serial_resource(id, SerialEndpointResourceRole::RxReader))
    } else if serial_resource(e, SerialEndpointResourceRole::RxDiscontinuities) is None {
        Some(missing_serial_resource(id, SerialEndpointResourceRole::RxDiscontinuities))
    } else if id != "serial1"@ && id != "serial2"@ {
        Some(
            "serial endpoint `"@ + id
                + "` must use a logical connector ID such as `serial1` or `serial2`"@,
        )
    } else if uart_driver_head(e.hardware.port.peripheral) is None {
        Some(
            "unsupported serial initialization for "@ + serial_peripheral_name(
                e.hardware.port.peripheral,
            ),
        )
    } else if serial_resource(e, SerialEndpointResourceRole::TxBuffer) is None {
        Some(missing_serial_resource(id, SerialEndpointResourceRole::TxBuffer))
    } else if serial_resource(e, SerialEndpointResourceRole::TxDma) is None {
        Some(missing_serial_resource(id, SerialEndpointResourceRole::TxDma))
    } else if serial_resource(e, SerialEndpointResourceRole::TxChannel) is None {
        Some(missing_serial_resource(id, SerialEndpointResourceRole::TxChannel))
    } else if serial_resource(e, SerialEndpointResourceRole::TxWriter) is None {
        Some(missing_serial_resource(id, SerialEndpointResourceRole::TxWriter))
    } else if serial_resource(e, SerialEndpointResourceRole::TxOwner) is None {
        Some(missing_serial_resource(id, SerialEndpointResourceRole::TxOwner))
    } else if serial_resource(e, SerialEndpointResourceRole::TxCompletion) is None {
        Some(missing_serial_resource(id, SerialEndpointResourceRole::TxCompletion))
    } else {
        None
    }
}

fn uart_driver_head_str(p: SerialPeripheral) -> (r: Option<&'static str>)
    ensures
        match (r, uart_driver_head(p)) {
            (Some(x), Some(y)) => x@ == y,
            (None, None) => true,
            _ => false,
        },
{
    match p {
        SerialPeripheral::Uart4 => Some(
            "_parts = ferrowasp_stm32f4::uart_dma::init_uart4_endpoint(\n    Uart4EndpointResources {\n        tx_pin: gpioa.pa0,\n        rx_pin: gpioa.pa1,\n        uart: cx.device.UART4,\n        rx_dma: dma1.2,\n        tx_dma: dma1.4,\n    },\n    &mut rcc,\n    ",
        ),
        SerialPeripheral::Usart2 => Some(
            "_parts = ferrowasp_stm32f4::uart_dma::init_usart2_endpoint(\n    Usart2EndpointResources {\n        tx_pin: gpioa.pa2,\n        rx_pin: gpioa.pa3,\n        usart: cx.device.USART2,\n        rx_dma: dma1.5,\n        tx_dma: dma1.6,\n    },\n    &mut rcc,\n    ",
        ),
        _ => None,
    }
}

/// Renders the initialization source of one serial endpoint.
pub fn render_endpoint_initialization(endpoint: &ResolvedSerialEndpoint) -> (r: Result<String, String>)
    ensures
        match endpoint_initialization_error(*endpoint) {
            Some(m) => r matches Err(e) && e@ == m,
            None => r matches Ok(text) && text@ == endpoint_initialization_source(*endpoint),
        },
{
    validate_supported_endpoint(endpoint)?;
    let id = endpoint.declaration.id;
    let rx_buffers = endpoint.resource_id(SerialEndpointResourceRole::RxBuffers)?;
    let rx_free_queue = endpoint.resource_id(SerialEndpointResourceRole::RxFreeQueue)?;
    let rx_filled_queue = endpoint.resource_id(SerialEndpointResourceRole::RxFilledQueue)?;
    let rx_channel = endpoint.resource_id(SerialEndpointResourceRole::RxChannel)?;
    let rx_service = endpoint.resource_id(SerialEndpointResourceRole::RxService)?;
    let rx_bridge = endpoint.resource_id(SerialEndpointResourceRole::RxParser)?;
    let rx_reader = endpoint.resource_id(SerialEndpointResourceRole::RxReader)?;
    let rx_discontinuities = endpoint.resource_id(SerialEndpointResourceRole::RxDiscontinuities)?;
    if !str_eq(id, "serial1") && !str_eq(id, "serial2") {
        return Err(
            concat3(
                "serial endpoint `",
                id,
                "` must use a logical connector ID such as `serial1` or `serial2`",
            ),
        );
    }
    let head = match uart_driver_head_str(endpoint.hardware.port.peripheral) {
        Some(head) => head,
        None => {
            let mut message = String::from_str("unsupported serial initialization for ");
            message.append(serial_peripheral_str(endpoint.hardware.port.peripheral));
            return Err(message);
        },
    };
    let tx_buffer = endpoint.resource_id(SerialEndpointResourceRole::TxBuffer)?;
    let tx_dma = endpoint.resource_id(SerialEndpointResourceRole::TxDma)?;
    let tx_channel = endpoint.resource_id(SerialEndpointResourceRole::TxChannel)?;
    let tx_writer = endpoint.resource_id(SerialEndpointResourceRole::TxWriter)?;
    let tx_owner = endpoint.resource_id(SerialEndpointResourceRole::TxOwner)?;
    let tx_completion = endpoint.resource_id(SerialEndpointResourceRole::TxCompletion)?;
    let mut out = concat3("let ", id, "_service = platform_config.");
    out.append(id);
    out.append("\n    .expect(\"boot platform config must assign ");
    out.append(id);
    out.append("\");");
    out.append("\n");
    out.append("let ");
    out.append(id);
    out.append(head);
    out.append(id);
    out.append("_service.profile().protocol,\n    UartRxStorageResources {\n        buffers: cx.local.");
    out.append(rx_buffers);
    out.append(",\n        free_queue: cx.local.");
    out.append(rx_free_queue);
    out.append(",\n        filled_queue: cx.local.");
    out.append(rx_filled_queue);
    out.append(",\n    },\n    cx.local.");
    out.append(tx_buffer);
    out.append(",\n);");
    out.append("\nlet ");
    out.append(rx_service);
    out.append(" = ");
    out.append(id);
    out.append("_parts.rx_irq;\nlet ");
    out.append(id);
    out.append("_rx_parser = ");
    out.append(id);
    out.append("_parts.parser;\nlet (");
    out.append(id);
    out.append("_rx_producer, ");
    out.append(rx_reader);
    out.append(", ");
    out.append(rx_discontinuities);
    out.append(") =\n    cx.local.");
    out.append(rx_channel);
    out.append(".split();\nlet ");
    out.append(rx_bridge);
    out.append(" = UartOwnedRxBridge::new(");
    out.append(id);
    out.append("_rx_parser, ");
    out.append(id);
    out.append("_rx_producer);");
    out.append("\nlet ");
    out.append(tx_dma);
    out.append(" = ");
    out.append(id);
    out.append("_parts.tx_dma;\nlet (");
    out.append(tx_writer);
    out.append(", ");
    out.append(tx_owner);
    out.append(", ");
    out.append(tx_completion);
    out.append(") =\n    cx.local.");
    out.append(tx_channel);
    out.append(".split();");
    proof {
        assert(out@ =~= endpoint_initialization_source(*endpoint));
    }
    Ok(out)
}

} // verus!
