//! Initialization statements of the physical DShot actuator: the four
//! reviewed motor outputs and the ESC telemetry receiver.

use vstd::prelude::*;

use crate::dma_route::{DmaChannel, DmaController, DmaRoute, DmaStream};
use crate::dshot::{DshotBankHardwareDeclaration, DshotLaneHardwareDeclaration, DshotTimerChannel};
use crate::pins::{GpioPort, PinId};
use crate::resource_lowering::{guard_line, section_guard_line};
use crate::serial_endpoint::SerialHardwareDeclaration;
use crate::serial_lowering::{require_route, route_mismatch_message};
use crate::text::{decimal, push_decimal};

verus! {

/// Physical hardware of one resolved DShot actuator: its four-lane output
/// bank and its receive-only ESC telemetry port.
#[derive(Clone, Copy, Debug)]
pub struct ResolvedDshotActuator {
    /// Four-lane timer/pin/DMA output bank.
    pub hardware: DshotBankHardwareDeclaration,
    /// ESC telemetry serial port.
    pub telemetry: SerialHardwareDeclaration,
}

/// Statements, after the section comment, that start the ESC telemetry
/// receiver, split the ESC queues, and build the Foxeer motor bank.
pub const DSHOT_INITIALIZATION: &'static str = "\nferrowasp_stm32f4::dshot::assert_foxeer_four_motor_dma_routes_compile();\nlet esc_uart_parts = ferrowasp_stm32f4::uart_dma::init_usart1_esc_telemetry(\n    Usart1EscTelemetryResources {\n        rx_pin: gpioa.pa10,\n        usart: cx.device.USART1,\n        rx_dma: dma2.5,\n    },\n    &mut rcc,\n    UartRxStorageResources {\n        buffers: cx.local.esc_uart_rx_buffers,\n        free_queue: cx.local.esc_uart_free_queue,\n        filled_queue: cx.local.esc_uart_filled_queue,\n    },\n);\nlet uart1_rx = esc_uart_parts.irq;\nlet esc_telemetry_uart = esc_uart_parts.parser;\nlet (esc_request_producer, esc_request_consumer) = cx.local.esc_request_queue.split();\nlet (esc_ack_producer, esc_ack_consumer) = cx.local.esc_ack_queue.split();\nlet (esc_telemetry_update_producer, esc_telemetry_update_consumer) =\n    cx.local.esc_update_queue.split();\nlet esc_manager_state = EscManager::new(EscManagerConfig::legacy_uart(), 0);\nlet esc_manager_report_ticks = 0;\nlet esc_actuator_request = None;\nlet esc_actuator_request_submitted = false;\nlet dshot_fault_reported = false;\nlet esc_telemetry_discontinuity = false;\nlet dshot_motors = DshotMotorBank::new_foxeer(\n    gpioa.pa8,\n    gpioc.pc9,\n    gpioc.pc8,\n    gpiob.pb15,\n    ferrowasp_stm32f4::rtic::hal::timer::Timer::new(cx.device.TIM1, &mut rcc),\n    ferrowasp_stm32f4::rtic::hal::timer::Timer::new(cx.device.TIM8, &mut rcc),\n    dma2.1,\n    dma2.7,\n    dma2.2,\n    dma2.6,\n    &rcc.clocks,\n    cx.local.dshot_dma_storage,\n)\n.expect(\"reviewed Foxeer DShot600 timing must be valid\");";

/// Reviewed Foxeer timer channel, pin and DMA route of output `k + 1`.
pub open spec fn reviewed_lane(k: int) -> (DshotTimerChannel, PinId, DmaRoute) {
    if k == 0 {
        (
            DshotTimerChannel::Tim1Ch1,
            PinId { port: GpioPort::A, pin: 8 },
            DmaRoute {
                controller: DmaController::Dma2,
                stream: DmaStream::Stream1,
                channel: DmaChannel::Channel6,
            },
        )
    } else if k == 1 {
        (
            DshotTimerChannel::Tim8Ch4,
            PinId { port: GpioPort::C, pin: 9 },
            DmaRoute {
                controller: DmaController::Dma2,
                stream: DmaStream::Stream7,
                channel: DmaChannel::Channel7,
            },
        )
    } else if k == 2 {
        (
            DshotTimerChannel::Tim8Ch3,
            PinId { port: GpioPort::C, pin: 8 },
            DmaRoute {
                controller: DmaController::Dma2,
                stream: DmaStream::Stream2,
                channel: DmaChannel::Channel0,
            },
        )
    } else {
        (
            DshotTimerChannel::Tim1Ch3N,
            PinId { port: GpioPort::B, pin: 15 },
            DmaRoute {
                controller: DmaController::Dma2,
                stream: DmaStream::Stream6,
                channel: DmaChannel::Channel6,
            },
        )
    }
}

/// The lane uses the reviewed route of output `k + 1`.
pub open spec fn lane_is_reviewed(l: DshotLaneHardwareDeclaration, k: int) -> bool {
    (l.timer_channel, l.pin, l.dma) == reviewed_lane(k)
}

/// Index of the first lane that drifted from its reviewed route.
pub open spec fn first_drifted_lane(lanes: Seq<DshotLaneHardwareDeclaration>) -> Option<int> {
    if !lane_is_reviewed(lanes[0], 0) {
        Some(0)
    } else if !lane_is_reviewed(lanes[1], 1) {
        Some(1)
    } else if !lane_is_reviewed(lanes[2], 2) {
        Some(2)
    } else if !lane_is_reviewed(lanes[3], 3) {
        Some(3)
    } else {
        None
    }
}

/// Reviewed ESC telemetry receive pin.
pub open spec fn telemetry_rx_pin() -> PinId {
    PinId { port: GpioPort::A, pin: 10 }
}

/// Reviewed ESC telemetry receive DMA route.
pub open spec fn telemetry_rx_dma() -> DmaRoute {
    DmaRoute { controller: DmaController::Dma2, stream: DmaStream::Stream5, channel: DmaChannel::Channel4 }
}

/// Initialization statements of the one DShot actuator, or the diagnostic:
/// not exactly one actuator, a drifted motor output, or an ESC telemetry
/// receive route other than the reviewed one.
pub open spec fn dshot_initialization(actuators: Seq<ResolvedDshotActuator>) -> Result<
    Seq<char>,
    Seq<char>,
> {
    if actuators.len() != 1 {
        Err("the STM32F4 renderer requires exactly one DShot actuator"@)
    } else {
        let a = actuators[0];
        match first_drifted_lane(a.hardware.lanes@) {
            Some(k) => Err(
                "DShot physical output "@ + decimal((k + 1) as nat)
                    + " drifted from the reviewed Foxeer route"@,
            ),
            None => match a.telemetry.port.rx {
                None => Err("validated ESC telemetry RX route disappeared"@),
                Some(rx) => if rx.pin == telemetry_rx_pin() && rx.dma == Some(telemetry_rx_dma()) {
                    Ok(guard_line("Physical DShot actuator initialization"@) + DSHOT_INITIALIZATION@)
                } else {
                    Err(
                        route_mismatch_message(
                            a.telemetry.id@,
                            "RX"@,
                            rx.pin,
                            rx.dma,
                            telemetry_rx_pin(),
                            telemetry_rx_dma(),
                        ),
                    )
                },
            },
        }
    }
}

fn reviewed_lane_exec(k: usize) -> (r: (DshotTimerChannel, PinId, DmaRoute))
    requires
        k < 4,
    ensures
        r == reviewed_lane(k as int),
{
    if k == 0 {
        (
            DshotTimerChannel::Tim1Ch1,
            PinId::new(GpioPort::A, 8),
            DmaRoute::new(DmaController::Dma2, DmaStream::Stream1, DmaChannel::Channel6),
        )
    } else if k == 1 {
        (
            DshotTimerChannel::Tim8Ch4,
            PinId::new(GpioPort::C, 9),
            DmaRoute::new(DmaController::Dma2, DmaStream::Stream7, DmaChannel::Channel7),
        )
    } else if k == 2 {
        (
            DshotTimerChannel::Tim8Ch3,
            PinId::new(GpioPort::C, 8),
            DmaRoute::new(DmaController::Dma2, DmaStream::Stream2, DmaChannel::Channel0),
        )
    } else {
        (
            DshotTimerChannel::Tim1Ch3N,
            PinId::new(GpioPort::B, 15),
            DmaRoute::new(DmaController::Dma2, DmaStream::Stream6, DmaChannel::Channel6),
        )
    }
}

/// Renders the initialization of the one physical DShot actuator after
/// checking its outputs and its ESC telemetry route against the reviewed
/// Foxeer wiring.
pub fn render_dshot_actuator_initialization(actuators: &Vec<ResolvedDshotActuator>) -> (r: Result<
    String,
    String,
>)
    ensures
        match (r, dshot_initialization(actuators@)) {
            (Ok(s), Ok(t)) => s@ == t,
            (Err(e), Err(t)) => e@ == t,
            _ => false,
        },
{
    if actuators.len() != 1 {
        return Err(String::from_str("the STM32F4 renderer requires exactly one DShot actuator"));
    }
    let actuator = &actuators[0];
    let lanes = actuator.hardware.lanes;
    let mut k: usize = 0;
    while k < 4
        invariant
            k <= 4,
            actuators@.len() == 1,
            lanes@ == actuators@[0].hardware.lanes@,
            forall|j: int| 0 <= j < k ==> lane_is_reviewed(#[trigger] lanes@[j], j),
        decreases 4 - k,
    {
        let (channel, pin, dma) = reviewed_lane_exec(k);
        let lane = lanes[k];
        if lane.timer_channel != channel || lane.pin != pin || lane.dma != dma {
            let mut message = String::from_str("DShot physical output ");
            push_decimal(&mut message, (k + 1) as u32);
            message.append(" drifted from the reviewed Foxeer route");
            proof {
                assert(lanes@[k as int] == lane);
                assert(!lane_is_reviewed(lanes@[k as int], k as int));
                assert(k > 0 ==> lane_is_reviewed(lanes@[0], 0));
                assert(k > 1 ==> lane_is_reviewed(lanes@[1], 1));
                assert(k > 2 ==> lane_is_reviewed(lanes@[2], 2));
                assert(first_drifted_lane(lanes@) == Some(k as int));
            }
            return Err(message);
        }
        proof {
            assert(lanes@[k as int] == lane);
            assert(lane_is_reviewed(lanes@[k as int], k as int));
        }
        k += 1;
    }
    proof {
        assert(lane_is_reviewed(lanes@[0], 0));
        assert(lane_is_reviewed(lanes@[1], 1));
        assert(lane_is_reviewed(lanes@[2], 2));
        assert(lane_is_reviewed(lanes@[3], 3));
    }
    let rx = match actuator.telemetry.port.rx {
        Some(route) => route,
        None => {
            return Err(String::from_str("validated ESC telemetry RX route disappeared"));
        },
    };
    require_route(
        actuator.telemetry.id,
        "RX",
        rx.pin,
        rx.dma,
        PinId::new(GpioPort::A, 10),
        DmaRoute::new(DmaController::Dma2, DmaStream::Stream5, DmaChannel::Channel4),
    )?;
    let mut out = section_guard_line("Physical DShot actuator initialization");
    out.append(DSHOT_INITIALIZATION);
    Ok(out)
}

} // verus!
