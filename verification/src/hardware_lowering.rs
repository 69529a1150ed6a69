//! Lowering of a resolved application to the STM32F4 fragments of the
//! generated RTIC application: imports, globals, the boot platform
//! configuration, the timing preamble, the `Shared` and `Local` fields with
//! their `init` values, initialization-local storage, and the body of
//! `init`.

use vstd::prelude::*;

use crate::board::BoardDeclaration;
use crate::bindings::{discontinuities_resource, reader_resource, writer_resource};
use crate::dshot_initialization::ResolvedDshotActuator;
use crate::imports::{imports_source, render_imports, ImportNeeds};
use crate::init_source::{initialization_source, render_initialization};
use crate::initialization::ClockSource;
use crate::lower::{globals_source, platform_config_source, render_globals, render_platform_config};
use crate::platform_config::{serial_service_name, PlatformConfig, SerialAssignment, SerialService};
use crate::resolve::{
    string_views, ResolvedGpioResource, ResolvedImuEndpoint, ResolvedPeriodicControl,
    ResolvedSharedResource, ResolvedTask,
};
use crate::resource_lowering::{
    field, field_line, lower_controls, lower_gpio, lower_imus, lower_serials, lower_shared,
    render_timing, timing_source, InitLocalText, LoweredLines, LoweredResources,
    RenderedInitLocal,
};
use crate::serial_endpoint::ResolvedSerialEndpoint;
use crate::state::{spec_state_rust_type, state_rust_type, ResolvedTaskState};
use crate::text::{concat3, str_eq};
use crate::resolve::ResolvedSafetyChannel;
use crate::timing::{InitDelayDeclaration, MonotonicDeclaration};

verus! {

/// Microcontroller of a board.
#[derive(Clone, Copy, Debug, PartialEq, Eq, Structural)]
pub enum McuDevice {
    /// STM32F401.
    Stm32f401,
    /// STM32F405.
    Stm32f405,
}

/// A resolved application: the board, timing and boot platform
/// configuration of its composition, and its resolved resources, task-owned
/// state, safety channels, tasks, initialization spawns and software-task
/// dispatchers. It carries no golden service suite.
#[derive(Clone, Debug)]
pub struct ResolvedApp {
    /// Selected board.
    pub board: BoardDeclaration,
    /// Application monotonic.
    pub monotonic: MonotonicDeclaration,
    /// Optional initialization-delay timer.
    pub init_delay: Option<InitDelayDeclaration>,
    /// Boot-time service assignments.
    pub platform: PlatformConfig,
    /// Application shared resources.
    pub shared_resources: Vec<ResolvedSharedResource>,
    /// Exclusive safety channels with their resolved handle owners.
    pub safety_channels: Vec<ResolvedSafetyChannel>,
    /// Task-owned board GPIOs.
    pub gpio_resources: Vec<ResolvedGpioResource>,
    /// Application-owned task-local state.
    pub task_state: Vec<ResolvedTaskState>,
    /// DMA-backed serial endpoints.
    pub serial_endpoints: Vec<ResolvedSerialEndpoint>,
    /// SPI IMU endpoints.
    pub imu_endpoints: Vec<ResolvedImuEndpoint>,
    /// Periodic-control schedulers.
    pub periodic_controls: Vec<ResolvedPeriodicControl>,
    /// Physical DShot actuators.
    pub dshot_actuators: Vec<ResolvedDshotActuator>,
    /// Resolved tasks.
    pub tasks: Vec<ResolvedTask>,
    /// Software tasks spawned once by `init`.
    pub init_spawns: Vec<String>,
    /// Interrupt vectors reserved as software-task dispatchers.
    pub dispatchers: Vec<String>,
}

/// Concrete STM32F4 fragments consumed by the application renderer.
#[derive(Clone, Debug)]
pub struct RenderedHardware {
    pub imports: String,
    pub globals: String,
    pub platform_config: String,
    pub timing: String,
    pub shared_fields: Vec<String>,
    pub shared_values: Vec<String>,
    pub local_fields: Vec<String>,
    pub local_values: Vec<String>,
    pub init_locals: Vec<RenderedInitLocal>,
    pub initialization: String,
}

/// Text of the rendered fragments.
#[verifier::ext_equal]
pub struct HardwareText {
    pub imports: Seq<char>,
    pub globals: Seq<char>,
    pub platform_config: Seq<char>,
    pub timing: Seq<char>,
    pub lines: LoweredLines,
    pub initialization: Seq<char>,
}

impl View for RenderedHardware {
    type V = HardwareText;

    open spec fn view(&self) -> HardwareText {
        HardwareText {
            imports: self.imports@,
            globals: self.globals@,
            platform_config: self.platform_config@,
            timing: self.timing@,
            lines: LoweredLines {
                shared_fields: string_views(self.shared_fields@),
                shared_values: string_views(self.shared_values@),
                local_fields: string_views(self.local_fields@),
                local_values: string_views(self.local_values@),
                init_locals: self.init_locals@.map_values(|l: RenderedInitLocal| l@),
            },
            initialization: self.initialization@,
        }
    }
}

// ---------------------------------------------------------------------------
// Application-owned task state
// ---------------------------------------------------------------------------

/// Some value among `states` belongs to `owner`.
pub open spec fn owner_among(states: Seq<ResolvedTaskState>, owner: Seq<char>) -> bool {
    exists|j: int| 0 <= j < states.len() && #[trigger] states[j].owner_task@ == owner
}

/// Section heading the task-local state of one owner task.
pub open spec fn state_section(owner: Seq<char>) -> Seq<char> {
    "Application-owned state for task `"@ + owner + "`"@
}

/// Lines of the application-owned task state: a section before the first
/// value of each owner task, then each value's field.
pub open spec fn lower_states(v: LoweredLines, states: Seq<ResolvedTaskState>) -> LoweredLines
    decreases states.len(),
{
    if states.len() == 0 {
        v
    } else {
        let w = lower_states(v, states.drop_last());
        let s = states.last();
        let g = if owner_among(states.drop_last(), s.owner_task@) {
            w
        } else {
            w.local_guard(state_section(s.owner_task@))
        };
        g.local(field_line(s.id@, spec_state_rust_type(s.recipe)), s.id@)
    }
}

fn lower_task_state(lowered: &mut LoweredResources, states: &Vec<ResolvedTaskState>)
    ensures
        final(lowered)@ == lower_states(old(lowered)@, states@),
{
    let ghost start = lowered@;
    let mut k: usize = 0;
    while k < states.len()
        invariant
            k <= states@.len(),
            lowered@ == lower_states(start, states@.take(k as int)),
        decreases states@.len() - k,
    {
        let s = states[k];
        let mut seen = false;
        let mut j: usize = 0;
        while j < k
            invariant
                j <= k,
                k < states@.len(),
                s == states@[k as int],
                seen <==> exists|i: int| 0 <= i < j && #[trigger] states@[i].owner_task@ == s.owner_task@,
            decreases k - j,
        {
            if str_eq(states[j].owner_task, s.owner_task) {
                seen = true;
            }
            j = j + 1;
        }
        proof {
            let t = states@.take(k + 1);
            assert(t.drop_last() =~= states@.take(k as int));
            assert(t.last() == s);
            if seen {
                let i = choose|i: int| 0 <= i < k && #[trigger] states@[i].owner_task@ == s.owner_task@;
                assert(states@.take(k as int)[i] == states@[i]);
            }
            if owner_among(states@.take(k as int), s.owner_task@) {
                let i = choose|i: int|
                    0 <= i < k && #[trigger] states@.take(k as int)[i].owner_task@ == s.owner_task@;
                assert(states@.take(k as int)[i] == states@[i]);
            }
        }
        if !seen {
            let label = concat3("Application-owned state for task `", s.owner_task, "`");
            lowered.push_local_guard(label.as_str());
        }
        lowered.push_local(field(s.id, state_rust_type(s.recipe)), String::from_str(s.id));
        k = k + 1;
    }
    proof {
        assert(states@.take(states@.len() as int) =~= states@);
    }
}

// ---------------------------------------------------------------------------
// Boot-routed serial services
// ---------------------------------------------------------------------------

/// Lines of the task-local handles of the service in one serial slot: a
/// section, its reader, its receive-discontinuity handle, and its writer
/// when the service transmits.
pub open spec fn lower_service(v: LoweredLines, slot: Option<SerialAssignment>) -> LoweredLines {
    match slot {
        None => v,
        Some(a) => {
            let s = a.service;
            let w = v.local_guard(
                "Serial service `"@ + serial_service_name(s) + "` boot-routed resources"@,
            ).local(field_line(reader_resource(s), "UartOwnedReader<'static>"@), reader_resource(s)).local(
                field_line(discontinuities_resource(s), "UartOwnedDiscontinuities<'static>"@),
                discontinuities_resource(s),
            );
            match writer_resource(s) {
                Some(x) => w.local(field_line(x, "UartOwnedWriter<'static>"@), x),
                None => w,
            }
        },
    }
}

/// Lines of the boot-routed serial services, in slot order.
pub open spec fn lower_services(v: LoweredLines, p: PlatformConfig) -> LoweredLines {
    lower_service(lower_service(v, p.serial[0]), p.serial[1])
}

fn service_handles(s: SerialService) -> (r: (&'static str, &'static str, Option<&'static str>))
    ensures
        r.0@ == reader_resource(s),
        r.1@ == discontinuities_resource(s),
        match (r.2, writer_resource(s)) {
            (Some(a), Some(b)) => a@ == b,
            (None, None) => true,
            _ => false,
        },
{
    match s {
        SerialService::RcSbus => ("rc_sbus_reader", "rc_sbus_rx_discontinuities", None),
        SerialService::MspV1Osd => (
            "msp_v1_osd_reader",
            "msp_v1_osd_rx_discontinuities",
            Some("msp_v1_osd_writer"),
        ),
    }
}

fn lower_service_slot(lowered: &mut LoweredResources, slot: Option<SerialAssignment>)
    ensures
        final(lowered)@ == lower_service(old(lowered)@, slot),
{
    if let Some(a) = slot {
        let (reader, discontinuities, writer) = service_handles(a.service);
        let label = concat3("Serial service `", a.service.name(), "` boot-routed resources");
        lowered.push_local_guard(label.as_str());
        lowered.push_local(field(reader, "UartOwnedReader<'static>"), String::from_str(reader));
        lowered.push_local(
            field(discontinuities, "UartOwnedDiscontinuities<'static>"),
            String::from_str(discontinuities),
        );
        if let Some(w) = writer {
            lowered.push_local(field(w, "UartOwnedWriter<'static>"), String::from_str(w));
        }
    }
}

// ---------------------------------------------------------------------------
// Physical DShot actuator
// ---------------------------------------------------------------------------

/// Section of the physical DShot actuator's resources.
pub open spec fn dshot_section() -> Seq<char> {
    "Physical DShot actuator resources"@
}

/// Shared resources of the physical DShot actuator: identifier and type.
pub open spec fn dshot_shared_resources() -> Seq<(&'static str, &'static str)> {
    seq![
        ("dshot_motors", "DshotMotorBank"),
        ("uart1_rx", "Uart1RxIrq"),
        ("esc_telemetry_discontinuity", "bool"),
    ]
}

/// Task-local resources of the physical DShot actuator: identifier and type.
pub open spec fn dshot_local_resources() -> Seq<(&'static str, &'static str)> {
    seq![
        ("esc_telemetry_uart", "UartRxParserSide"),
        ("esc_request_producer", "EscRequestProducer"),
        ("esc_request_consumer", "EscRequestConsumer"),
        ("esc_ack_producer", "EscAckProducer"),
        ("esc_ack_consumer", "EscAckConsumer"),
        ("esc_telemetry_update_producer", "EscTelemetryUpdateProducer"),
        ("esc_telemetry_update_consumer", "EscTelemetryUpdateConsumer"),
        ("esc_manager_state", "EscManager"),
        ("esc_manager_report_ticks", "u16"),
        ("esc_actuator_request", "Option<EscActuatorRequest>"),
        ("esc_actuator_request_submitted", "bool"),
        ("dshot_fault_reported", "bool"),
    ]
}

/// Initialization-local storage of the physical DShot actuator: identifier,
/// type and initializer.
pub open spec fn dshot_init_storage() -> Seq<(&'static str, &'static str, &'static str)> {
    seq![
        ("dshot_dma_storage", "DshotDmaStorage", "DshotDmaStorage::new()"),
        (
            "esc_uart_rx_buffers",
            "UartRxBufferBank",
            "ferrowasp_stm32f4::app_storage::new_uart_rx_buffer_bank()",
        ),
        ("esc_uart_free_queue", "UartRxFreeQueue", "UartRxFreeQueue::new()"),
        ("esc_uart_filled_queue", "UartRxFilledQueue", "UartRxFilledQueue::new()"),
        ("esc_request_queue", "EscRequestQueue", "EscRequestQueue::new()"),
        ("esc_ack_queue", "EscAckQueue", "EscAckQueue::new()"),
        ("esc_update_queue", "EscTelemetryUpdateQueue", "EscTelemetryUpdateQueue::new()"),
    ]
}

/// The lines with a `Shared` field and value per (identifier, type) pair.
pub open spec fn push_shared_pairs(v: LoweredLines, ps: Seq<(&'static str, &'static str)>) -> LoweredLines
    decreases ps.len(),
{
    if ps.len() == 0 {
        v
    } else {
        push_shared_pairs(v, ps.drop_last()).shared(field_line(ps.last().0@, ps.last().1@), ps.last().0@)
    }
}

/// The lines with a `Local` field and value per (identifier, type) pair.
pub open spec fn push_local_pairs(v: LoweredLines, ps: Seq<(&'static str, &'static str)>) -> LoweredLines
    decreases ps.len(),
{
    if ps.len() == 0 {
        v
    } else {
        push_local_pairs(v, ps.drop_last()).local(field_line(ps.last().0@, ps.last().1@), ps.last().0@)
    }
}

/// The lines with an initialization-local declaration, in `section`, per
/// (identifier, type, initializer) triple.
pub open spec fn push_init_triples(
    v: LoweredLines,
    section: Seq<char>,
    ts: Seq<(&'static str, &'static str, &'static str)>,
) -> LoweredLines
    decreases ts.len(),
{
    if ts.len() == 0 {
        v
    } else {
        push_init_triples(v, section, ts.drop_last()).init_local(
            InitLocalText {
                section,
                id: ts.last().0@,
                rust_type: ts.last().1@,
                initializer: ts.last().2@,
            },
        )
    }
}

/// Lines of the physical DShot actuators: none without one; its section in
/// both lists, its shared and local resources and its storage with exactly
/// one; an error with more.
pub open spec fn lower_dshots(v: LoweredLines, n: nat) -> Result<LoweredLines, Seq<char>> {
    if n == 0 {
        Ok(v)
    } else if n != 1 {
        Err("the STM32F4 renderer supports exactly one physical DShot actuator"@)
    } else {
        let w = v.shared_guard(dshot_section()).local_guard(dshot_section());
        Ok(
            push_init_triples(
                push_local_pairs(push_shared_pairs(w, dshot_shared_resources()), dshot_local_resources()),
                dshot_section(),
                dshot_init_storage(),
            ),
        )
    }
}

fn lower_dshot_actuators(lowered: &mut LoweredResources, n: usize) -> (r: Result<(), String>)
    ensures
        match (r, lower_dshots(old(lowered)@, n as nat)) {
            (Ok(()), Ok(w)) => final(lowered)@ == w,
            (Err(e), Err(m)) => e@ == m,
            _ => false,
        },
{
    if n == 0 {
        return Ok(());
    }
    if n != 1 {
        return Err(String::from_str("the STM32F4 renderer supports exactly one physical DShot actuator"));
    }
    let section = "Physical DShot actuator resources";
    lowered.push_shared_guard(section);
    lowered.push_local_guard(section);
    let shared: [(&'static str, &'static str); 3] = [
        ("dshot_motors", "DshotMotorBank"),
        ("uart1_rx", "Uart1RxIrq"),
        ("esc_telemetry_discontinuity", "bool"),
    ];
    let locals: [(&'static str, &'static str); 12] = [
        ("esc_telemetry_uart", "UartRxParserSide"),
        ("esc_request_producer", "EscRequestProducer"),
        ("esc_request_consumer", "EscRequestConsumer"),
        ("esc_ack_producer", "EscAckProducer"),
        ("esc_ack_consumer", "EscAckConsumer"),
        ("esc_telemetry_update_producer", "EscTelemetryUpdateProducer"),
        ("esc_telemetry_update_consumer", "EscTelemetryUpdateConsumer"),
        ("esc_manager_state", "EscManager"),
        ("esc_manager_report_ticks", "u16"),
        ("esc_actuator_request", "Option<EscActuatorRequest>"),
        ("esc_actuator_request_submitted", "bool"),
        ("dshot_fault_reported", "bool"),
    ];
    let storage: [(&'static str, &'static str, &'static str); 7] = [
        ("dshot_dma_storage", "DshotDmaStorage", "DshotDmaStorage::new()"),
        (
            "esc_uart_rx_buffers",
            "UartRxBufferBank",
            "ferrowasp_stm32f4::app_storage::new_uart_rx_buffer_bank()",
        ),
        ("esc_uart_free_queue", "UartRxFreeQueue", "UartRxFreeQueue::new()"),
        ("esc_uart_filled_queue", "UartRxFilledQueue", "UartRxFilledQueue::new()"),
        ("esc_request_queue", "EscRequestQueue", "EscRequestQueue::new()"),
        ("esc_ack_queue", "EscAckQueue", "EscAckQueue::new()"),
        ("esc_update_queue", "EscTelemetryUpdateQueue", "EscTelemetryUpdateQueue::new()"),
    ];
    proof {
        assert(shared@ =~= dshot_shared_resources());
        assert(locals@ =~= dshot_local_resources());
        assert(storage@ =~= dshot_init_storage());
    }
    let ghost start = lowered@;
    let mut k: usize = 0;
    while k < 3
        invariant
            k <= 3,
            shared@ == dshot_shared_resources(),
            lowered@ == push_shared_pairs(start, shared@.take(k as int)),
        decreases 3 - k,
    {
        proof {
            assert(shared@.take(k + 1).drop_last() =~= shared@.take(k as int));
        }
        let (id, rust_type) = shared[k];
        lowered.push_shared(field(id, rust_type), String::from_str(id));
        k = k + 1;
    }
    proof {
        assert(shared@.take(3) =~= shared@);
    }
    let ghost mid = lowered@;
    let mut k: usize = 0;
    while k < 12
        invariant
            k <= 12,
            locals@ == dshot_local_resources(),
            lowered@ == push_local_pairs(mid, locals@.take(k as int)),
        decreases 12 - k,
    {
        proof {
            assert(locals@.take(k + 1).drop_last() =~= locals@.take(k as int));
        }
        let (id, rust_type) = locals[k];
        lowered.push_local(field(id, rust_type), String::from_str(id));
        k = k + 1;
    }
    proof {
        assert(locals@.take(12) =~= locals@);
    }
    let ghost last = lowered@;
    let mut k: usize = 0;
    while k < 7
        invariant
            k <= 7,
            storage@ == dshot_init_storage(),
            section@ == dshot_section(),
            lowered@ == push_init_triples(last, section@, storage@.take(k as int)),
        decreases 7 - k,
    {
        proof {
            assert(storage@.take(k + 1).drop_last() =~= storage@.take(k as int));
        }
        let (id, rust_type, initializer) = storage[k];
        let l = RenderedInitLocal {
            section: String::from_str(section),
            id: String::from_str(id),
            rust_type: String::from_str(rust_type),
            initializer: String::from_str(initializer),
        };
        proof {
            assert(l@ == InitLocalText {
                section: section@,
                id: id@,
                rust_type: rust_type@,
                initializer: initializer@,
            });
        }
        lowered.push_init_local(l);
        k = k + 1;
    }
    proof {
        assert(storage@.take(7) =~= storage@);
    }
    Ok(())
}

// ---------------------------------------------------------------------------
// The whole application
// ---------------------------------------------------------------------------

/// Kinds of resources of the application that bring imports.
pub open spec fn import_needs(app: ResolvedApp) -> ImportNeeds {
    ImportNeeds {
        serial_endpoints: app.serial_endpoints@.len() > 0,
        imu_endpoints: app.imu_endpoints@.len() > 0,
        periodic_controls: app.periodic_controls@.len() > 0,
        dshot_actuators: app.dshot_actuators@.len() > 0,
        golden_services: false,
        task_state: app.task_state@.len() > 0,
    }
}

/// Resource lines of the application, in generation order: shared
/// resources, board GPIOs, task-owned state, serial endpoints, boot-routed serial services,
/// SPI IMU endpoints, periodic controls, and the physical DShot actuator;
/// or the first error.
pub open spec fn lowered_lines(app: ResolvedApp) -> Result<LoweredLines, Seq<char>> {
    let v = lower_shared(LoweredLines::empty(), app.shared_resources@, app.tasks@);
    match lower_gpio(v, app.gpio_resources@) {
        Err(e) => Err(e),
        Ok(v) => match lower_serials(lower_states(v, app.task_state@), app.serial_endpoints@) {
            Err(e) => Err(e),
            Ok(v) => match lower_imus(lower_services(v, app.platform), app.imu_endpoints@) {
                Err(e) => Err(e),
                Ok(v) => lower_dshots(
                    lower_controls(v, app.periodic_controls@),
                    app.dshot_actuators@.len(),
                ),
            },
        },
    }
}

/// The fragments of the generated application for a resolved application on
/// an STM32F405, or the first error: the device, the resource lines, the
/// body of `init`, the timing preamble, then the globals.
pub open spec fn lowered(app: ResolvedApp) -> Result<HardwareText, Seq<char>> {
    if app.board.mcu.device != McuDevice::Stm32f405 {
        Err("the STM32F4 renderer currently supports only STM32F405"@)
    } else {
        match lowered_lines(app) {
            Err(e) => Err(e),
            Ok(lines) => match initialization_source(
                app.board,
                app.board.mcu.clock,
                app.monotonic,
                app.init_delay,
                app.platform,
                app.periodic_controls@,
                app.task_state@,
                app.gpio_resources@,
                app.serial_endpoints@,
                app.imu_endpoints@,
                app.dshot_actuators@,
            ) {
                Err(e) => Err(e),
                Ok(initialization) => match timing_source(
                    app.board,
                    app.board.mcu.system_clock_hz,
                    app.monotonic,
                ) {
                    Err(e) => Err(e),
                    Ok(timing) => match globals_source(app.imu_endpoints@) {
                        Err(e) => Err(e),
                        Ok(globals) => Ok(
                            HardwareText {
                                imports: imports_source(import_needs(app)),
                                globals,
                                platform_config: platform_config_source(app.platform),
                                timing,
                                lines,
                                initialization,
                            },
                        ),
                    },
                },
            },
        }
    }
}

fn lower_resources(app: &ResolvedApp) -> (r: Result<LoweredResources, String>)
    ensures
        match (r, lowered_lines(*app)) {
            (Ok(l), Ok(t)) => l@ == t,
            (Err(e), Err(m)) => e@ == m,
            _ => false,
        },
{
    let mut lowered = LoweredResources::new();
    lowered.lower_shared_resources(&app.shared_resources, &app.tasks);
    lowered.lower_gpio_resources(&app.gpio_resources)?;
    lower_task_state(&mut lowered, &app.task_state);
    lowered.lower_serial_endpoints(&app.serial_endpoints)?;
    lower_service_slot(&mut lowered, app.platform.serial[0]);
    lower_service_slot(&mut lowered, app.platform.serial[1]);
    lowered.lower_imu_endpoints(&app.imu_endpoints)?;
    lowered.lower_periodic_controls(&app.periodic_controls);
    lower_dshot_actuators(&mut lowered, app.dshot_actuators.len())?;
    Ok(lowered)
}

/// Lowers a resolved application to the STM32F4 fragments of the generated
/// RTIC application. Only the STM32F405 is supported.
pub fn lower(app: &ResolvedApp) -> (r: Result<RenderedHardware, String>)
    ensures
        match (r, lowered(*app)) {
            (Ok(h), Ok(t)) => h@ == t,
            (Err(e), Err(m)) => e@ == m,
            _ => false,
        },
{
    if let McuDevice::Stm32f401 = app.board.mcu.device {
        return Err(String::from_str("the STM32F4 renderer currently supports only STM32F405"));
    }
    let lowered = lower_resources(app)?;
    let initialization = render_initialization(
        &app.board,
        app.board.mcu.clock,
        app.monotonic,
        app.init_delay,
        app.platform,
        &app.periodic_controls,
        &app.task_state,
        &app.gpio_resources,
        &app.serial_endpoints,
        &app.imu_endpoints,
        &app.dshot_actuators,
    )?;
    let timing = render_timing(&app.board, app.board.mcu.system_clock_hz, app.monotonic)?;
    let needs = ImportNeeds {
        serial_endpoints: app.serial_endpoints.len() > 0,
        imu_endpoints: app.imu_endpoints.len() > 0,
        periodic_controls: app.periodic_controls.len() > 0,
        dshot_actuators: app.dshot_actuators.len() > 0,
        golden_services: false,
        task_state: app.task_state.len() > 0,
    };
    let imports = render_imports(needs);
    let globals = render_globals(&app.imu_endpoints)?;
    let platform_config = render_platform_config(app.platform);
    let LoweredResources { shared_fields, shared_values, local_fields, local_values, init_locals } =
        lowered;
    let r = RenderedHardware {
        imports,
        globals,
        platform_config,
        timing,
        shared_fields,
        shared_values,
        local_fields,
        local_values,
        init_locals,
        initialization,
    };
    proof {
        assert(r@.lines =~= lowered@);
    }
    Ok(r)
}

} // verus!
