//! DMA-backed serial endpoints: the resource roles and tasks of the reusable
//! endpoint, the board serial routes it consumes, and its resolved form.

use vstd::prelude::*;

use crate::dma_route::DmaRoute;
use crate::pins::PinId;
use crate::serial::SerialPeripheral;
use crate::task::TaskContract;
use crate::text::concat5;

verus! {

/// Semantic role of one endpoint-owned resource.
#[derive(Clone, Copy, Debug, PartialEq, Eq, Structural)]
pub enum SerialEndpointResourceRole {
    /// Static receive DMA buffer bank.
    RxBuffers,
    /// Static queue of available receive buffers.
    RxFreeQueue,
    /// Static queue of completed receive buffers.
    RxFilledQueue,
    /// Static owned receive byte channel.
    RxChannel,
    /// Receive interrupt service.
    RxService,
    /// Receive-buffer bridge into the byte channel.
    RxParser,
    /// Application reader of received bytes.
    RxReader,
    /// Application view of receive discontinuities.
    RxDiscontinuities,
    /// Static transmit DMA buffer.
    TxBuffer,
    /// Transmit DMA side.
    TxDma,
    /// Static owned transmit channel.
    TxChannel,
    /// Application writer of bytes to send.
    TxWriter,
    /// Transmit worker side of the channel.
    TxOwner,
    /// Transmit-completion side of the channel.
    TxCompletion,
}

/// Name of a serial endpoint role as diagnostics print it.
pub open spec fn serial_role_name(role: SerialEndpointResourceRole) -> Seq<char> {
    match role {
        SerialEndpointResourceRole::RxBuffers => "RxBuffers"@,
        SerialEndpointResourceRole::RxFreeQueue => "RxFreeQueue"@,
        SerialEndpointResourceRole::RxFilledQueue => "RxFilledQueue"@,
        SerialEndpointResourceRole::RxChannel => "RxChannel"@,
        SerialEndpointResourceRole::RxService => "RxService"@,
        SerialEndpointResourceRole::RxParser => "RxParser"@,
        SerialEndpointResourceRole::RxReader => "RxReader"@,
        SerialEndpointResourceRole::RxDiscontinuities => "RxDiscontinuities"@,
        SerialEndpointResourceRole::TxBuffer => "TxBuffer"@,
        SerialEndpointResourceRole::TxDma => "TxDma"@,
        SerialEndpointResourceRole::TxChannel => "TxChannel"@,
        SerialEndpointResourceRole::TxWriter => "TxWriter"@,
        SerialEndpointResourceRole::TxOwner => "TxOwner"@,
        SerialEndpointResourceRole::TxCompletion => "TxCompletion"@,
    }
}

/// Name of a serial endpoint role as diagnostics print it.
pub fn serial_role_str(role: SerialEndpointResourceRole) -> (r: &'static str)
    ensures
        r@ == serial_role_name(role),
{
    match role {
        SerialEndpointResourceRole::RxBuffers => "RxBuffers",
        SerialEndpointResourceRole::RxFreeQueue => "RxFreeQueue",
        SerialEndpointResourceRole::RxFilledQueue => "RxFilledQueue",
        SerialEndpointResourceRole::RxChannel => "RxChannel",
        SerialEndpointResourceRole::RxService => "RxService",
        SerialEndpointResourceRole::RxParser => "RxParser",
        SerialEndpointResourceRole::RxReader => "RxReader",
        SerialEndpointResourceRole::RxDiscontinuities => "RxDiscontinuities",
        SerialEndpointResourceRole::TxBuffer => "TxBuffer",
        SerialEndpointResourceRole::TxDma => "TxDma",
        SerialEndpointResourceRole::TxChannel => "TxChannel",
        SerialEndpointResourceRole::TxWriter => "TxWriter",
        SerialEndpointResourceRole::TxOwner => "TxOwner",
        SerialEndpointResourceRole::TxCompletion => "TxCompletion",
    }
}

/// Suffix naming the generated field of a serial endpoint role.
pub open spec fn serial_resource_suffix(role: SerialEndpointResourceRole) -> Seq<char> {
    match role {
        SerialEndpointResourceRole::RxBuffers => "rx_buffers"@,
        SerialEndpointResourceRole::RxFreeQueue => "rx_free_queue"@,
        SerialEndpointResourceRole::RxFilledQueue => "rx_filled_queue"@,
        SerialEndpointResourceRole::RxChannel => "rx_channel"@,
        SerialEndpointResourceRole::RxService => "rx_service"@,
        SerialEndpointResourceRole::RxParser => "rx_parser"@,
        SerialEndpointResourceRole::RxReader => "rx_reader"@,
        SerialEndpointResourceRole::RxDiscontinuities => "rx_discontinuities"@,
        SerialEndpointResourceRole::TxBuffer => "tx_buffer"@,
        SerialEndpointResourceRole::TxDma => "tx_dma"@,
        SerialEndpointResourceRole::TxChannel => "tx_channel"@,
        SerialEndpointResourceRole::TxWriter => "tx_writer"@,
        SerialEndpointResourceRole::TxOwner => "tx_owner"@,
        SerialEndpointResourceRole::TxCompletion => "tx_completion"@,
    }
}

/// Suffix naming the generated field of a serial endpoint role.
pub fn serial_resource_suffix_str(role: SerialEndpointResourceRole) -> (r: &'static str)
    ensures
        r@ == serial_resource_suffix(role),
{
    match role {
        SerialEndpointResourceRole::RxBuffers => "rx_buffers",
        SerialEndpointResourceRole::RxFreeQueue => "rx_free_queue",
        SerialEndpointResourceRole::RxFilledQueue => "rx_filled_queue",
        SerialEndpointResourceRole::RxChannel => "rx_channel",
        SerialEndpointResourceRole::RxService => "rx_service",
        SerialEndpointResourceRole::RxParser => "rx_parser",
        SerialEndpointResourceRole::RxReader => "rx_reader",
        SerialEndpointResourceRole::RxDiscontinuities => "rx_discontinuities",
        SerialEndpointResourceRole::TxBuffer => "tx_buffer",
        SerialEndpointResourceRole::TxDma => "tx_dma",
        SerialEndpointResourceRole::TxChannel => "tx_channel",
        SerialEndpointResourceRole::TxWriter => "tx_writer",
        SerialEndpointResourceRole::TxOwner => "tx_owner",
        SerialEndpointResourceRole::TxCompletion => "tx_completion",
    }
}

/// RTIC ownership class assigned to a serial endpoint resource.
#[derive(Clone, Copy, Debug, PartialEq, Eq, Structural)]
pub enum SerialEndpointResourceOwnership {
    /// Static storage borrowed during initialization.
    InitLocal,
    /// Resource owned by exactly one task.
    Local,
    /// Resource accessed through RTIC locking.
    Shared,
}

/// Visibility of an endpoint resource to application consumers.
#[derive(Clone, Copy, Debug, PartialEq, Eq, Structural)]
pub enum SerialEndpointResourceVisibility {
    /// Endpoint implementation detail.
    Private,
    /// Available for an application-consumer binding.
    Exposed,
}

/// Reusable task contracts of the serial endpoint.
#[derive(Clone, Debug)]
pub struct SerialEndpointTasks {
    /// Peripheral idle-line interrupt handler.
    pub peripheral_irq: TaskContract,
    /// Receive-DMA completion handler.
    pub rx_dma_irq: TaskContract,
    /// Receive bridge into the owned byte channel.
    pub rx_bridge: TaskContract,
    /// Transmit-DMA completion handler.
    pub tx_dma_irq: TaskContract,
    /// Transmit worker draining queued chunks.
    pub tx_worker: TaskContract,
}

/// One reusable resource of the serial endpoint graph.
#[derive(Clone, Copy, Debug)]
pub struct SerialEndpointResource {
    /// Stable semantic role.
    pub role: SerialEndpointResourceRole,
    /// RTIC ownership policy.
    pub ownership: SerialEndpointResourceOwnership,
    /// Consumer visibility.
    pub visibility: SerialEndpointResourceVisibility,
}

/// Reusable definition of a serial endpoint.
#[derive(Clone, Debug)]
pub struct SerialEndpointDefinition {
    /// Stable definition identifier.
    pub id: &'static str,
    /// Task contracts the endpoint expands into.
    pub tasks: SerialEndpointTasks,
    /// Resource roles the endpoint owns.
    pub resources: Vec<SerialEndpointResource>,
}

/// Application instance of a serial endpoint.
#[derive(Clone, Debug)]
pub struct SerialEndpointDeclaration {
    /// Logical connector identifier, such as `serial1`.
    pub id: &'static str,
    /// Reusable endpoint definition.
    pub definition: SerialEndpointDefinition,
    /// Board serial hardware the endpoint consumes.
    pub hardware_id: &'static str,
    /// Priority of the peripheral and DMA interrupt tasks.
    pub interrupt_priority: u8,
    /// Priority of the receive bridge task.
    pub bridge_priority: u8,
    /// Priority of the transmit worker task, when there is one.
    pub worker_priority: Option<u8>,
    /// Number of receive DMA buffers.
    pub rx_buffer_count: usize,
    /// Depth of the receive buffer queues.
    pub rx_queue_depth: usize,
    /// Depth of the transmit queue.
    pub tx_queue_depth: usize,
}

/// One signal of a serial port: its pin and its DMA route, if any.
#[derive(Clone, Copy, Debug)]
pub struct SerialSignalRoute {
    /// Pin carrying the signal.
    pub pin: PinId,
    /// DMA route serving the signal.
    pub dma: Option<DmaRoute>,
}

/// Physical serial port: peripheral and receive and transmit routes.
#[derive(Clone, Copy, Debug)]
pub struct SerialPortDeclaration {
    /// UART or USART peripheral.
    pub peripheral: SerialPeripheral,
    /// Receive route, when the port receives.
    pub rx: Option<SerialSignalRoute>,
    /// Transmit route, when the port transmits.
    pub tx: Option<SerialSignalRoute>,
}

/// One named serial port physically available on a board.
#[derive(Clone, Copy, Debug)]
pub struct SerialHardwareDeclaration {
    /// Stable board hardware identifier.
    pub id: &'static str,
    /// Physical port routes.
    pub port: SerialPortDeclaration,
}

/// One endpoint resource with its generated, instance-qualified ID.
#[derive(Clone, Debug)]
pub struct ResolvedEndpointResource {
    /// Generated RTIC or initialization-local identifier.
    pub id: String,
    /// Semantic resource role.
    pub role: SerialEndpointResourceRole,
    /// RTIC ownership class.
    pub ownership: SerialEndpointResourceOwnership,
    /// Whether application consumers may bind the resource.
    pub visibility: SerialEndpointResourceVisibility,
}

/// One expanded DMA-backed serial endpoint.
#[derive(Clone, Debug)]
pub struct ResolvedSerialEndpoint {
    /// Application endpoint declaration.
    pub declaration: SerialEndpointDeclaration,
    /// Board serial hardware consumed by the endpoint.
    pub hardware: SerialHardwareDeclaration,
    /// Active, instance-qualified endpoint resources.
    pub resources: Vec<ResolvedEndpointResource>,
}

/// Index of the first endpoint resource, from `j` on, with the given role.
pub open spec fn serial_role_index_from(
    resources: Seq<ResolvedEndpointResource>,
    role: SerialEndpointResourceRole,
    j: int,
) -> Option<int>
    decreases resources.len() - j,
{
    if j < 0 || j >= resources.len() {
        None
    } else if resources[j].role == role {
        Some(j)
    } else {
        serial_role_index_from(resources, role, j + 1)
    }
}

/// Generated ID of the endpoint's first resource with the given role.
pub open spec fn serial_resource(e: ResolvedSerialEndpoint, role: SerialEndpointResourceRole) -> Option<
    Seq<char>,
> {
    match serial_role_index_from(e.resources@, role, 0) {
        Some(j) => Some(e.resources@[j].id@),
        None => None,
    }
}

/// Diagnostic of an endpoint lacking a resource of the given role.
pub open spec fn missing_serial_resource(id: Seq<char>, role: SerialEndpointResourceRole) -> Seq<char> {
    "serial endpoint `"@ + id + "` has no active "@ + serial_role_name(role) + " resource"@
}

impl ResolvedSerialEndpoint {
    /// Returns the generated ID of the first resource with the given role.
    pub fn resource_id(&self, role: SerialEndpointResourceRole) -> (r: Result<&str, String>)
        ensures
            match (r, serial_resource(*self, role)) {
                (Ok(id), Some(x)) => id@ == x,
                (Err(e), None) => e@ == missing_serial_resource(self.declaration.id@, role),
                _ => false,
            },
    {
        let mut j: usize = 0;
        while j < self.resources.len()
            invariant
                j <= self.resources@.len(),
                serial_role_index_from(self.resources@, role, 0) == serial_role_index_from(
                    self.resources@,
                    role,
                    j as int,
                ),
            decreases self.resources@.len() - j,
        {
            if self.resources[j].role == role {
                return Ok(self.resources[j].id.as_str());
            }
            j = j + 1;
        }
        Err(
            concat5(
                "serial endpoint `",
                self.declaration.id,
                "` has no active ",
                serial_role_str(role),
                " resource",
            ),
        )
    }
}

} // verus!
