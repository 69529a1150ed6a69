//! DMA-backed STM32F4 SPI IMU endpoint.

use vstd::prelude::*;

use crate::board::{board_spi, BoardDeclaration};
use crate::task::{ResourceRequirement, SpawnRequirement, TaskContract, TaskSource};
use crate::text::{concat3, concat5};

verus! {

/// Reusable task contracts expanded for one SPI IMU instance.
#[derive(Clone, Debug)]
pub struct ImuEndpointTasks {
    /// Data-ready EXTI handler.
    pub data_ready: TaskContract,
    /// Asynchronous sensor transaction task.
    pub poll: TaskContract,
    /// Mailbox-to-hardware owner service.
    pub owner_service: TaskContract,
    /// Receive-DMA completion handler.
    pub rx_dma_irq: TaskContract,
    /// Transaction deadline and recovery task.
    pub timeout: TaskContract,
    /// Completed-frame parser.
    pub parser: TaskContract,
}

/// Semantic role of one endpoint-owned resource.
#[derive(Clone, Copy, Debug, PartialEq, Eq, Structural)]
pub enum ImuEndpointResourceRole {
    /// Static DMA buffer bank.
    Buffers,
    /// Static queue of available receive buffers.
    FreeQueue,
    /// Static queue of completed receive buffers.
    FilledQueue,
    /// DMA hardware owner and bounded request mailbox.
    Owner,
    /// Completed-frame parser side.
    Parser,
    /// Async SPI device used by the polling task.
    Device,
    /// Data-ready EXTI input.
    DataReady,
    /// Active sensor discriminant selected during initialization.
    Kind,
    /// Latest decoded IMU sample.
    Sample,
    /// One-shot unavailable-owner diagnostic state.
    UnavailableLogged,
}

/// RTIC ownership class assigned to an IMU endpoint resource.
#[derive(Clone, Copy, Debug, PartialEq, Eq, Structural)]
pub enum ImuEndpointResourceOwnership {
    /// Static storage borrowed during initialization.
    InitLocal,
    /// Resource owned by exactly one task.
    Local,
    /// Resource accessed through RTIC locking.
    Shared,
}

/// Visibility of an endpoint resource to application consumers.
#[derive(Clone, Copy, Debug, PartialEq, Eq, Structural)]
pub enum ImuEndpointResourceVisibility {
    /// Endpoint implementation detail.
    Private,
    /// Available for a later application-consumer binding.
    Exposed,
}

/// One reusable resource in the SPI IMU endpoint graph.
#[derive(Clone, Copy, Debug, PartialEq, Eq, Structural)]
pub struct ImuEndpointResource {
    /// Stable semantic role.
    pub role: ImuEndpointResourceRole,
    /// RTIC ownership policy.
    pub ownership: ImuEndpointResourceOwnership,
    /// Consumer visibility.
    pub visibility: ImuEndpointResourceVisibility,
}

impl ImuEndpointResource {
    /// Declares one endpoint resource.
    pub fn new(
        role: ImuEndpointResourceRole,
        ownership: ImuEndpointResourceOwnership,
        visibility: ImuEndpointResourceVisibility,
    ) -> (r: Self)
        ensures
            r.role == role,
            r.ownership == ownership,
            r.visibility == visibility,
    {
        ImuEndpointResource { role, ownership, visibility }
    }
}

/// Ownership and visibility of each role in the bounded endpoint graph.
pub open spec fn imu_resource_policy(role: ImuEndpointResourceRole) -> (
    ImuEndpointResourceOwnership,
    ImuEndpointResourceVisibility,
) {
    match role {
        ImuEndpointResourceRole::Buffers => (ImuEndpointResourceOwnership::InitLocal, ImuEndpointResourceVisibility::Private),
        ImuEndpointResourceRole::FreeQueue => (ImuEndpointResourceOwnership::InitLocal, ImuEndpointResourceVisibility::Private),
        ImuEndpointResourceRole::FilledQueue => (ImuEndpointResourceOwnership::InitLocal, ImuEndpointResourceVisibility::Private),
        ImuEndpointResourceRole::Owner => (ImuEndpointResourceOwnership::Shared, ImuEndpointResourceVisibility::Private),
        ImuEndpointResourceRole::Parser => (ImuEndpointResourceOwnership::Local, ImuEndpointResourceVisibility::Private),
        ImuEndpointResourceRole::Device => (ImuEndpointResourceOwnership::Local, ImuEndpointResourceVisibility::Private),
        ImuEndpointResourceRole::DataReady => (ImuEndpointResourceOwnership::Local, ImuEndpointResourceVisibility::Private),
        ImuEndpointResourceRole::Kind => (ImuEndpointResourceOwnership::Shared, ImuEndpointResourceVisibility::Exposed),
        ImuEndpointResourceRole::Sample => (ImuEndpointResourceOwnership::Shared, ImuEndpointResourceVisibility::Exposed),
        ImuEndpointResourceRole::UnavailableLogged => (ImuEndpointResourceOwnership::Local, ImuEndpointResourceVisibility::Private),
    }
}

/// Role order of the bounded endpoint graph.
pub open spec fn imu_resource_roles() -> Seq<ImuEndpointResourceRole> {
    seq![
        ImuEndpointResourceRole::Buffers,
        ImuEndpointResourceRole::FreeQueue,
        ImuEndpointResourceRole::FilledQueue,
        ImuEndpointResourceRole::Owner,
        ImuEndpointResourceRole::Parser,
        ImuEndpointResourceRole::Device,
        ImuEndpointResourceRole::DataReady,
        ImuEndpointResourceRole::Kind,
        ImuEndpointResourceRole::Sample,
        ImuEndpointResourceRole::UnavailableLogged,
    ]
}

fn resource_for(role: ImuEndpointResourceRole) -> (r: ImuEndpointResource)
    ensures
        r.role == role,
        (r.ownership, r.visibility) == imu_resource_policy(role),
{
    match role {
        ImuEndpointResourceRole::Buffers => ImuEndpointResource::new(role, ImuEndpointResourceOwnership::InitLocal, ImuEndpointResourceVisibility::Private),
        ImuEndpointResourceRole::FreeQueue => ImuEndpointResource::new(role, ImuEndpointResourceOwnership::InitLocal, ImuEndpointResourceVisibility::Private),
        ImuEndpointResourceRole::FilledQueue => ImuEndpointResource::new(role, ImuEndpointResourceOwnership::InitLocal, ImuEndpointResourceVisibility::Private),
        ImuEndpointResourceRole::Owner => ImuEndpointResource::new(role, ImuEndpointResourceOwnership::Shared, ImuEndpointResourceVisibility::Private),
        ImuEndpointResourceRole::Parser => ImuEndpointResource::new(role, ImuEndpointResourceOwnership::Local, ImuEndpointResourceVisibility::Private),
        ImuEndpointResourceRole::Device => ImuEndpointResource::new(role, ImuEndpointResourceOwnership::Local, ImuEndpointResourceVisibility::Private),
        ImuEndpointResourceRole::DataReady => ImuEndpointResource::new(role, ImuEndpointResourceOwnership::Local, ImuEndpointResourceVisibility::Private),
        ImuEndpointResourceRole::Kind => ImuEndpointResource::new(role, ImuEndpointResourceOwnership::Shared, ImuEndpointResourceVisibility::Exposed),
        ImuEndpointResourceRole::Sample => ImuEndpointResource::new(role, ImuEndpointResourceOwnership::Shared, ImuEndpointResourceVisibility::Exposed),
        ImuEndpointResourceRole::UnavailableLogged => ImuEndpointResource::new(role, ImuEndpointResourceOwnership::Local, ImuEndpointResourceVisibility::Private),
    }
}

/// Complete bounded resource graph for one SPI IMU endpoint.
pub fn imu_endpoint_resources() -> (r: Vec<ImuEndpointResource>)
    ensures
        r@.len() == imu_resource_roles().len(),
        forall|i: int|
            0 <= i < r@.len() ==> #[trigger] r@[i].role == imu_resource_roles()[i] && (
            r@[i].ownership,
            r@[i].visibility,
        ) == imu_resource_policy(r@[i].role),
{
    let mut r = Vec::new();
    r.push(resource_for(ImuEndpointResourceRole::Buffers));
    r.push(resource_for(ImuEndpointResourceRole::FreeQueue));
    r.push(resource_for(ImuEndpointResourceRole::FilledQueue));
    r.push(resource_for(ImuEndpointResourceRole::Owner));
    r.push(resource_for(ImuEndpointResourceRole::Parser));
    r.push(resource_for(ImuEndpointResourceRole::Device));
    r.push(resource_for(ImuEndpointResourceRole::DataReady));
    r.push(resource_for(ImuEndpointResourceRole::Kind));
    r.push(resource_for(ImuEndpointResourceRole::Sample));
    r.push(resource_for(ImuEndpointResourceRole::UnavailableLogged));
    r
}

/// Reusable definition expanded for every concrete SPI IMU endpoint.
#[derive(Clone, Debug)]
pub struct ImuEndpointDefinition {
    /// Stable reusable definition identifier.
    pub id: &'static str,
    /// Endpoint-owned task graph.
    pub tasks: ImuEndpointTasks,
    /// Endpoint-owned resource graph.
    pub resources: Vec<ImuEndpointResource>,
}

/// One application-selected SPI IMU endpoint instance.
#[derive(Clone, Debug)]
pub struct ImuEndpointDeclaration {
    /// Application-local identifier used to namespace generated artifacts.
    pub id: &'static str,
    /// Reusable endpoint definition.
    pub definition: ImuEndpointDefinition,
    /// Board hardware consumed by this transport endpoint.
    pub hardware_id: &'static str,
    /// Priority of the data-ready EXTI task.
    pub data_ready_priority: u8,
    /// Priority shared by owner, DMA, and timeout service tasks.
    pub owner_priority: u8,
    /// Priority of the asynchronous transaction task.
    pub poll_priority: u8,
    /// Priority of the completed-frame parser.
    pub parser_priority: u8,
}

impl ImuEndpointDefinition {
    /// Creates an endpoint instance bound only to a physical SPI bus, with
    /// every priority still unset (zero).
    pub fn declare(self, id: &'static str, spi_id: &'static str) -> (r: ImuEndpointDeclaration)
        ensures
            r.id == id,
            r.definition == self,
            r.hardware_id == spi_id,
            r.data_ready_priority == 0,
            r.owner_priority == 0,
            r.poll_priority == 0,
            r.parser_priority == 0,
    {
        ImuEndpointDeclaration {
            id,
            definition: self,
            hardware_id: spi_id,
            data_ready_priority: 0,
            owner_priority: 0,
            poll_priority: 0,
            parser_priority: 0,
        }
    }
}

/// `r` and `d` agree on identity, definition, and hardware.
pub open spec fn same_endpoint(r: ImuEndpointDeclaration, d: ImuEndpointDeclaration) -> bool {
    r.id == d.id && r.definition == d.definition && r.hardware_id == d.hardware_id
}

impl ImuEndpointDeclaration {
    /// Sets the data-ready interrupt priority.
    pub fn data_ready_priority(self, priority: u8) -> (r: Self)
        ensures
            same_endpoint(r, self),
            r.data_ready_priority == priority,
            r.owner_priority == self.owner_priority,
            r.poll_priority == self.poll_priority,
            r.parser_priority == self.parser_priority,
    {
        ImuEndpointDeclaration { data_ready_priority: priority, ..self }
    }

    /// Sets the common owner, DMA, and timeout priority.
    pub fn owner_priority(self, priority: u8) -> (r: Self)
        ensures
            same_endpoint(r, self),
            r.data_ready_priority == self.data_ready_priority,
            r.owner_priority == priority,
            r.poll_priority == self.poll_priority,
            r.parser_priority == self.parser_priority,
    {
        ImuEndpointDeclaration { owner_priority: priority, ..self }
    }

    /// Sets the asynchronous SPI polling priority.
    pub fn poll_priority(self, priority: u8) -> (r: Self)
        ensures
            same_endpoint(r, self),
            r.data_ready_priority == self.data_ready_priority,
            r.owner_priority == self.owner_priority,
            r.poll_priority == priority,
            r.parser_priority == self.parser_priority,
    {
        ImuEndpointDeclaration { poll_priority: priority, ..self }
    }

    /// Sets the completed-frame parser priority.
    pub fn parser_priority(self, priority: u8) -> (r: Self)
        ensures
            same_endpoint(r, self),
            r.data_ready_priority == self.data_ready_priority,
            r.owner_priority == self.owner_priority,
            r.poll_priority == self.poll_priority,
            r.parser_priority == priority,
    {
        ImuEndpointDeclaration { parser_priority: priority, ..self }
    }
}

fn req(id: &'static str, rust_type: &'static str) -> (q: ResourceRequirement)
    ensures
        q.id == id,
        q.rust_type == rust_type,
{
    ResourceRequirement::new(id, rust_type)
}

fn backend_task(
    id: &'static str,
    file: &'static str,
    local: Vec<ResourceRequirement>,
    shared: Vec<ResourceRequirement>,
    config: Vec<ResourceRequirement>,
    spawns: Vec<SpawnRequirement>,
) -> (r: TaskContract)
    ensures
        r.id == id,
        r.source.file == file,
        r.source.function == id,
        r.local@ == local@,
        r.shared@ == shared@,
        r.config@ == config@,
        r.spawns@ == spawns@,
{
    TaskContract { id, source: TaskSource::new(file, id), local, shared, config, spawns }
}

/// Initial STM32F4 SPI IMU endpoint definition: the contracts of its six
/// tasks and its resources.
pub fn spi_imu_endpoint() -> (r: ImuEndpointDefinition)
    ensures
        r.id@ == "spi_imu"@,
        r.tasks.data_ready.id@ == "imu_data_ready"@,
        r.tasks.poll.id@ == "spi_imu_poll"@,
        r.tasks.owner_service.id@ == "spi_imu_owner_service"@,
        r.tasks.rx_dma_irq.id@ == "spi_imu_rx_dma_irq"@,
        r.tasks.timeout.id@ == "spi_imu_timeout"@,
        r.tasks.parser.id@ == "spi_imu_parser"@,
        r.resources@.len() == imu_resource_roles().len(),
        forall|i: int|
            0 <= i < r.resources@.len() ==> #[trigger] r.resources@[i].role == imu_resource_roles()[i]
                && (r.resources@[i].ownership, r.resources@[i].visibility) == imu_resource_policy(
                r.resources@[i].role,
            ),
{
    ImuEndpointDefinition {
        id: "spi_imu",
        tasks: ImuEndpointTasks {
            data_ready: backend_task(
                "imu_data_ready",
                "src/backends/stm32f4/tasks/imu_data_ready.rs",
                vec![req("data_ready", "Pin<'C', 4, Input>")],
                vec![req("kind", "u8")],
                Vec::new(),
                vec![SpawnRequirement::new("poll", vec!["u64"])],
            ),
            poll: backend_task(
                "spi_imu_poll",
                "src/backends/stm32f4/tasks/spi_imu_poll.rs",
                vec![req("device", "Spi1ImuDevice"), req("unavailable_logged", "bool")],
                vec![req("kind", "u8")],
                Vec::new(),
                vec![SpawnRequirement::new("timeout", vec!["u64"])],
            ),
            owner_service: backend_task(
                "spi_imu_owner_service",
                "src/backends/stm32f4/tasks/spi_imu_owner_service.rs",
                Vec::new(),
                vec![req("owner", "Spi1ImuEndpointOwner")],
                Vec::new(),
                Vec::new(),
            ),
            rx_dma_irq: backend_task(
                "spi_imu_rx_dma_irq",
                "src/backends/stm32f4/tasks/spi_imu_rx_dma_irq.rs",
                Vec::new(),
                vec![req("owner", "Spi1ImuEndpointOwner")],
                Vec::new(),
                vec![SpawnRequirement::new("parse", Vec::new())],
            ),
            timeout: backend_task(
                "spi_imu_timeout",
                "src/backends/stm32f4/tasks/spi_imu_timeout.rs",
                Vec::new(),
                vec![req("owner", "Spi1ImuEndpointOwner")],
                vec![req("check_after", "MillisDurationU32")],
                Vec::new(),
            ),
            parser: backend_task(
                "spi_imu_parser",
                "src/backends/stm32f4/tasks/spi_imu_parser.rs",
                vec![req("parser", "Spi1ImuParser")],
                vec![req("kind", "u8"), req("sample", "ImuData")],
                vec![req("orientation", "FrameRotation")],
                Vec::new(),
            ),
        },
        resources: imu_endpoint_resources(),
    }
}

/// Suffix naming the generated field of an endpoint resource role.
pub open spec fn spec_resource_suffix(role: ImuEndpointResourceRole) -> Seq<char> {
    match role {
        ImuEndpointResourceRole::Buffers => "dma_buffers"@,
        ImuEndpointResourceRole::FreeQueue => "free_queue"@,
        ImuEndpointResourceRole::FilledQueue => "filled_queue"@,
        ImuEndpointResourceRole::Owner => "owner"@,
        ImuEndpointResourceRole::Parser => "parser"@,
        ImuEndpointResourceRole::Device => "device"@,
        ImuEndpointResourceRole::DataReady => "data_ready"@,
        ImuEndpointResourceRole::Kind => "kind"@,
        ImuEndpointResourceRole::Sample => "sample"@,
        ImuEndpointResourceRole::UnavailableLogged => "unavailable_logged"@,
    }
}

/// Suffix naming the generated field of an endpoint resource role.
pub fn resource_suffix(role: ImuEndpointResourceRole) -> (r: &'static str)
    ensures
        r@ == spec_resource_suffix(role),
{
    match role {
        ImuEndpointResourceRole::Buffers => "dma_buffers",
        ImuEndpointResourceRole::FreeQueue => "free_queue",
        ImuEndpointResourceRole::FilledQueue => "filled_queue",
        ImuEndpointResourceRole::Owner => "owner",
        ImuEndpointResourceRole::Parser => "parser",
        ImuEndpointResourceRole::Device => "device",
        ImuEndpointResourceRole::DataReady => "data_ready",
        ImuEndpointResourceRole::Kind => "kind",
        ImuEndpointResourceRole::Sample => "sample",
        ImuEndpointResourceRole::UnavailableLogged => "unavailable_logged",
    }
}

/// Priorities strictly decrease from data-ready through owner and poll to
/// parser.
pub open spec fn priorities_ordered(e: ImuEndpointDeclaration) -> bool {
    e.data_ready_priority > e.owner_priority && e.owner_priority > e.poll_priority
        && e.poll_priority > e.parser_priority
}

/// Some endpoint priority is still unset.
pub open spec fn has_zero_priority(e: ImuEndpointDeclaration) -> bool {
    e.data_ready_priority == 0 || e.owner_priority == 0 || e.poll_priority == 0
        || e.parser_priority == 0
}

/// First rule an IMU endpoint breaks on a board, as its diagnostic; `None`
/// when it is valid.
pub open spec fn imu_endpoint_error(e: ImuEndpointDeclaration, board: BoardDeclaration) -> Option<
    Seq<char>,
> {
    match board_spi(board, e.hardware_id@) {
        None => Some(
            "SPI endpoint `"@ + e.id@ + "` consumes undeclared board SPI hardware `"@
                + e.hardware_id@ + "`"@,
        ),
        Some(spi) => if spi.imu@.len() == 0 {
            Some(
                "SPI endpoint `"@ + e.id@ + "` has no board IMU installation attached to `"@
                    + e.hardware_id@ + "` for the enabled IMU service adapter"@,
            )
        } else if has_zero_priority(e) {
            Some("IMU endpoint `"@ + e.id@ + "` priorities must all be nonzero"@)
        } else if !priorities_ordered(e) {
            Some(
                "IMU endpoint `"@ + e.id@
                    + "` priorities must satisfy data-ready > owner > poll > parser"@,
            )
        } else {
            None
        },
    }
}

/// Validates an IMU endpoint against the selected board.
pub fn validate(endpoint: &ImuEndpointDeclaration, board: &BoardDeclaration) -> (r: Result<
    (),
    String,
>)
    ensures
        r is Ok <==> imu_endpoint_error(*endpoint, *board) is None,
        r matches Err(e) ==> imu_endpoint_error(*endpoint, *board) == Some(e@),
{
    let spi_id = endpoint.hardware_id;
    let hardware = match board.spi(spi_id) {
        None => {
            return Err(concat5(
                "SPI endpoint `",
                endpoint.id,
                "` consumes undeclared board SPI hardware `",
                spi_id,
                "`",
            ));
        },
        Some(hardware) => hardware,
    };
    if hardware.imu.len() == 0 {
        return Err(concat5(
            "SPI endpoint `",
            endpoint.id,
            "` has no board IMU installation attached to `",
            spi_id,
            "` for the enabled IMU service adapter",
        ));
    }
    if endpoint.data_ready_priority == 0 || endpoint.owner_priority == 0 || endpoint.poll_priority
        == 0 || endpoint.parser_priority == 0 {
        return Err(concat3("IMU endpoint `", endpoint.id, "` priorities must all be nonzero"));
    }
    if !(endpoint.data_ready_priority > endpoint.owner_priority && endpoint.owner_priority
        > endpoint.poll_priority && endpoint.poll_priority > endpoint.parser_priority) {
        return Err(concat3(
            "IMU endpoint `",
            endpoint.id,
            "` priorities must satisfy data-ready > owner > poll > parser",
        ));
    }
    Ok(())
}

} // verus!
