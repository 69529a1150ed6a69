//! The `use` items of a generated application, chosen by the kinds of
//! resources it contains.

use vstd::prelude::*;

verus! {

/// Opening of the imports every generated application needs, up to the serial fault import.
pub const IMPORTS_HEAD: &'static str = "pub(crate) use core::fmt::Write as FmtWrite;\npub(crate) use embedded_io_async::{Read, Write};\npub(crate) use ferrowasp_core::frames::FrameRotation;\npub(crate) use ferrowasp_io_core::{\n    platform_config::{ImuInstallationId, RuntimePlatformConfig, SerialService, SpiService},\n    serial::{";

/// Imports between the serial fault import and the transmit-path imports.
pub const IMPORTS_MIDDLE: &'static str = "},\n    spi::SpiDeviceError,\n};\npub(crate) use ferrowasp_stm32f4::{\n    app_storage::{\n        UartRxBufferBank, UartRxFilledQueue, UartRxFreeQueue, UartRxStorageResources,\n        UartTxBuffer,\n    },\n    memory::{\n        UartOwnedDiscontinuities, UartOwnedReader, UartOwnedRxChannel,\n    },";

/// Closing of the imports every generated application needs.
pub const IMPORTS_TAIL: &'static str = "\n    rtic::prelude::*,\n    serial::{UartOwnedRxBridgeOutcome, UartOwnedRxBridgeService, UartRxIrqOutcome, UartRxIrqService},\n    uart_dma::{\n        UART_TX_BUFFER_SIZE, Uart2RxIrq, Uart2TxDmaSide, Uart4EndpointResources,\n        Uart4RxIrq, Uart4TxDmaSide, UartOwnedRxBridge, Usart2EndpointResources,\n    },\n};";

/// Transmit-path imports of applications with serial endpoints.
pub const TX_IMPORTS: &'static str = "\n    memory::{UartOwnedTxChannel, UartOwnedTxCompletion, UartOwnedTxOwner, UartOwnedWriter},\n    serial::{UartTxDmaService, UartTxIrqOutcome, UartTxStartError},";

/// Imports of applications with an SPI IMU endpoint.
pub const IMU_IMPORTS: &'static str = "\npub(crate) use ferrowasp_drivers::mpu6500::ImuData;\npub(crate) use ferrowasp_stm32f4::{\napp_storage::{SpiDmaBufferBank, SpiDmaStorageResources, SpiFilledQueue, SpiFreeQueue},\nmemory, spi_dma,\nspi_imu_endpoint::{\nIMU_KIND_ICM42688P, IMU_KIND_MPU6500, IMU_KIND_NONE, Spi1ImuDevice, Spi1ImuEndpointOwner,\nSpi1ImuMailbox, Spi1ImuParser, SpiImuOwnerOutcome,\nSpiImuRxOutcome, SpiImuTimeoutOutcome, new_spi1_imu_mailbox,\n},\n};\npub(crate) use ferrowasp_stm32f4::rtic::hal::spi;";

/// Imports of applications with a periodic control.
pub const PERIODIC_CONTROL_IMPORTS: &'static str = "\npub(crate) use ferrowasp_stm32f4::scheduler::{acknowledge_control_tick, init_control_scheduler};";

/// Imports of applications with a physical DShot actuator.
pub const DSHOT_IMPORTS: &'static str = "\npub(crate) use ferrowasp_stm32f4::{\ndshot::{\nDshotDmaStorage, DshotInterruptEvent, DshotMotor, DshotMotorBank, DshotServiceEvent,\nDshotTelemetryRequestError,\n},\nuart_dma::{\nUart1RxIrq, UartRxParserSide, UartRxReadStatus, Usart1EscTelemetryResources,\n},\n};\npub(crate) use ferrowasp_tasks::esc_manager::{\nDSHOT_IDLE_QUALIFICATION_CONFIG, DSHOT_IDLE_THROTTLE_COMMAND,\nDSHOT_PREARM_STOP_HOLD_MS, EscIdleQualification, EscIdleQualificationFailure,\nEscIdleQualificationStatus,\nEscAckConsumer, EscAckOutcome, EscAckProducer, EscAckQueue, EscActuatorAck,\nEscActuatorRequest, EscManager, EscManagerConfig, EscOutput, EscRequestConsumer,\nEscRequestProducer, EscRequestQueue, EscTelemetryUpdateConsumer,\nEscTelemetryUpdateProducer, EscTelemetryUpdateQueue,\n};";

/// Imports of applications with the golden service suite.
pub const GOLDEN_SERVICE_IMPORTS: &'static str = "\npub(crate) use ferrowasp_stm32f4::{\n    adc::{AdcDmaDeliveryError, AdcDmaIrqPlanner, take_completed_adc1_sample_for},\n    app_storage::{AdcBufferBank, AdcStorageResources},\n    usb_serial::{\n        BufferedUsbCdcSerial, UsbCdcDevice, UsbCdcIdentity, UsbDeviceState,\n    },\n    watchdog::acknowledge_watchdog_tick,\n};\npub(crate) use ferrowasp_tasks::{\n    flash_storage::{\n        CommandConsumer, CommandParser, CommandProducer, CommandQueue, GoldenFlashOperation,\n        GoldenFlashState, RecordConsumer, RecordEnqueueOutcome, RecordProducer, RecordQueue, ResponseConsumer,\n        ResponseFrame, ResponseProducer, ResponseQueue, StorageCommand, StorageLayout,\n        emit_page_hex_lines, format_log_info_response, load_config, scan_log,\n    },\n    osd::{BatteryCellDetector, OsdStickRates, OsdTask},\n    service_telemetry::{FlightServiceTelemetry, StorageStatus},\n    usb_debug::{self, ImuKind, StatusSnapshot},\n};\npub(crate) type Adc1ObservationTransfer = ferrowasp_stm32f4::adc::Adc1ObservationTransferFor<\n    ferrowasp_stm32f4::rtic::hal::dma::Stream4<ferrowasp_stm32f4::rtic::hal::pac::DMA2>,\n    0,\n>;\npub(crate) type Spi2Flash = ferrowasp_drivers::spi_nor::SpiNor<\n    ferrowasp_stm32f4::rtic::hal::spi::Spi<ferrowasp_stm32f4::rtic::hal::pac::SPI2>,\n    ferrowasp_stm32f4::rtic::hal::gpio::Pin<\n        'B',\n        12,\n        ferrowasp_stm32f4::rtic::hal::gpio::Output<\n            ferrowasp_stm32f4::rtic::hal::gpio::PushPull,\n        >,\n    >,\n>;\npub(crate) type IoWatchdog = ferrowasp_stm32f4::rtic::hal::timer::CounterHz<\n    ferrowasp_stm32f4::rtic::hal::pac::TIM6,\n>;";

/// Imports of applications with application-owned task state.
pub const TASK_STATE_IMPORTS: &'static str = "\npub(crate) use ferrowasp_tasks::drone_toolbox as dt;";

/// Kinds of resources a generated application contains, each of which
/// brings its own imports.
#[derive(Clone, Copy, Debug)]
pub struct ImportNeeds {
    /// Some serial endpoint exists.
    pub serial_endpoints: bool,
    /// Some SPI IMU endpoint exists.
    pub imu_endpoints: bool,
    /// Some periodic control exists.
    pub periodic_controls: bool,
    /// Some physical DShot actuator exists.
    pub dshot_actuators: bool,
    /// The golden service suite is present.
    pub golden_services: bool,
    /// Some application-owned task state exists.
    pub task_state: bool,
}

/// Text that is included only when `included` holds.
pub open spec fn when(included: bool, text: Seq<char>) -> Seq<char> {
    if included {
        text
    } else {
        Seq::empty()
    }
}

/// The `use` items of an application with the given needs: the common
/// imports (with the serial fault and transmit-path imports when serial
/// endpoints exist), then those of each present kind, in a fixed order.
pub open spec fn imports_source(n: ImportNeeds) -> Seq<char> {
    IMPORTS_HEAD@ + when(n.serial_endpoints, "SerialFault"@) + IMPORTS_MIDDLE@ + when(
        n.serial_endpoints,
        TX_IMPORTS@,
    ) + IMPORTS_TAIL@ + when(n.imu_endpoints, IMU_IMPORTS@) + when(
        n.periodic_controls,
        PERIODIC_CONTROL_IMPORTS@,
    ) + when(n.dshot_actuators, DSHOT_IMPORTS@) + when(n.golden_services, GOLDEN_SERVICE_IMPORTS@)
        + when(n.task_state, TASK_STATE_IMPORTS@)
}

/// Renders the `use` items of a generated application.
pub fn render_imports(needs: ImportNeeds) -> (r: String)
    ensures
        r@ == imports_source(needs),
{
    let mut out = String::from_str(IMPORTS_HEAD);
    if needs.serial_endpoints {
        out.append("SerialFault");
    }
    out.append(IMPORTS_MIDDLE);
    if needs.serial_endpoints {
        out.append(TX_IMPORTS);
    }
    out.append(IMPORTS_TAIL);
    if needs.imu_endpoints {
        out.append(IMU_IMPORTS);
    }
    if needs.periodic_controls {
        out.append(PERIODIC_CONTROL_IMPORTS);
    }
    if needs.dshot_actuators {
        out.append(DSHOT_IMPORTS);
    }
    if needs.golden_services {
        out.append(GOLDEN_SERVICE_IMPORTS);
    }
    if needs.task_state {
        out.append(TASK_STATE_IMPORTS);
    }
    proof {
        assert(out@ =~= imports_source(needs));
    }
    out
}

} // verus!
