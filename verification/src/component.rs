//! Hardware components of an application composition and the checks that
//! keep the timers, buses, and boot-time service assignments they consume
//! consistent with the selected board.

use vstd::prelude::*;

use crate::board::{
    board_spi, board_timer, imu_from, BoardDeclaration, TimerHardwareDeclaration,
};
use crate::composition::{identifier_message, is_rust_identifier, validate_identifier};
use crate::board::board_serial;
use crate::imu_endpoint::{self, imu_endpoint_error, ImuEndpointDeclaration};
use crate::serial_endpoint::SerialEndpointDeclaration;
use crate::periodic_control::{self, periodic_control_error, PeriodicControlDeclaration};
use crate::platform_config::{
    self, duplicate_port_message, duplicate_service_message, repeats_serial_port,
    repeats_serial_service, serial_port_name, PlatformConfig, SerialAssignment, SerialPort,
    SpiService,
};
use crate::text::{concat3, decimal, push_decimal, str_eq};
use crate::timing::{
    self, spec_tick_hz, zero_init_delay_message, zero_monotonic_message, InitDelayDeclaration,
    MonotonicDeclaration,
};

verus! {

/// One reusable hardware component of an application.
#[derive(Clone, Debug)]
pub enum ComponentDeclaration {
    /// Timer-backed periodic control scheduler.
    PeriodicControl(PeriodicControlDeclaration),
    /// DMA-backed SPI IMU endpoint.
    ImuEndpoint(ImuEndpointDeclaration),
    /// DMA-backed serial endpoint.
    SerialEndpoint(SerialEndpointDeclaration),
}

/// Instance identifier of a component.
pub open spec fn component_id(c: ComponentDeclaration) -> Seq<char> {
    match c {
        ComponentDeclaration::PeriodicControl(d) => d.id@,
        ComponentDeclaration::ImuEndpoint(d) => d.id@,
        ComponentDeclaration::SerialEndpoint(d) => d.id@,
    }
}

/// Board hardware a component consumes.
pub open spec fn component_hardware(c: ComponentDeclaration) -> Seq<char> {
    match c {
        ComponentDeclaration::PeriodicControl(d) => d.hardware_id@,
        ComponentDeclaration::ImuEndpoint(d) => d.hardware_id@,
        ComponentDeclaration::SerialEndpoint(d) => d.hardware_id@,
    }
}

/// First rule a component breaks on the board on its own.
pub open spec fn component_error(c: ComponentDeclaration, board: BoardDeclaration) -> Option<Seq<char>> {
    match c {
        ComponentDeclaration::PeriodicControl(d) => periodic_control_error(d, board),
        ComponentDeclaration::ImuEndpoint(d) => imu_endpoint_error(d, board),
        ComponentDeclaration::SerialEndpoint(d) => serial_endpoint_error(d, board),
    }
}

/// Rule a serial endpoint breaks on the board: it must name a declared
/// serial port.
pub open spec fn serial_endpoint_error(d: SerialEndpointDeclaration, board: BoardDeclaration) -> Option<
    Seq<char>,
> {
    if board_serial(board, d.hardware_id@) is None {
        Some(
            "serial endpoint `"@ + d.id@ + "` consumes undeclared board serial hardware `"@
                + d.hardware_id@ + "`"@,
        )
    } else {
        None
    }
}

fn validate_serial_endpoint(d: &SerialEndpointDeclaration, board: &BoardDeclaration) -> (r: Result<
    (),
    String,
>)
    ensures
        r is Ok <==> serial_endpoint_error(*d, *board) is None,
        r matches Err(e) ==> serial_endpoint_error(*d, *board) == Some(e@),
{
    if board.serial(d.hardware_id).is_none() {
        let mut m = concat3("serial endpoint `", d.id, "` consumes undeclared board serial hardware `");
        m.append(d.hardware_id);
        m.append("`");
        return Err(m);
    }
    Ok(())
}

impl ComponentDeclaration {
    /// Instance identifier of the component.
    pub fn id(&self) -> (r: &'static str)
        ensures
            r@ == component_id(*self),
    {
        match self {
            ComponentDeclaration::PeriodicControl(d) => d.id,
            ComponentDeclaration::ImuEndpoint(d) => d.id,
            ComponentDeclaration::SerialEndpoint(d) => d.id,
        }
    }

    /// Board hardware the component consumes.
    pub fn hardware_id(&self) -> (r: &'static str)
        ensures
            r@ == component_hardware(*self),
    {
        match self {
            ComponentDeclaration::PeriodicControl(d) => d.hardware_id,
            ComponentDeclaration::ImuEndpoint(d) => d.hardware_id,
            ComponentDeclaration::SerialEndpoint(d) => d.hardware_id,
        }
    }

    /// Validates the component against the selected board.
    pub fn validate(&self, board: &BoardDeclaration) -> (r: Result<(), String>)
        ensures
            r is Ok <==> component_error(*self, *board) is None,
            r matches Err(e) ==> component_error(*self, *board) == Some(e@),
    {
        match self {
            ComponentDeclaration::PeriodicControl(d) => periodic_control::validate(d, board),
            ComponentDeclaration::ImuEndpoint(d) => imu_endpoint::validate(d, board),
            ComponentDeclaration::SerialEndpoint(d) => validate_serial_endpoint(d, board),
        }
    }
}

/// Board timer a monotonic consumes, if it names one that exists.
pub open spec fn monotonic_timer(board: BoardDeclaration, m: MonotonicDeclaration) -> Option<
    TimerHardwareDeclaration,
> {
    match m {
        MonotonicDeclaration::SysTick { .. } => None,
        MonotonicDeclaration::Timer { hardware_id, .. } => board_timer(board, hardware_id@),
    }
}

/// Board timer an initialization delay consumes, if any.
pub open spec fn delay_timer(board: BoardDeclaration, d: Option<InitDelayDeclaration>) -> Option<
    TimerHardwareDeclaration,
> {
    match d {
        None => None,
        Some(d) => board_timer(board, d.hardware_id@),
    }
}

/// First rule component `i` breaks on the board and against the components
/// declared before it.
pub open spec fn component_entry_error(
    board: BoardDeclaration,
    monotonic: Option<TimerHardwareDeclaration>,
    delay: Option<TimerHardwareDeclaration>,
    components: Seq<ComponentDeclaration>,
    i: int,
) -> Option<Seq<char>> {
    let c = components[i];
    let id = component_id(c);
    if !is_rust_identifier(id) {
        Some(identifier_message(id, "component"@))
    } else if exists|j: int| 0 <= j < i && #[trigger] component_id(components[j]) == id {
        Some("component `"@ + id + "` is declared more than once"@)
    } else if component_error(c, board) is Some {
        component_error(c, board)
    } else if c is PeriodicControl && monotonic is Some && board_timer(
        board,
        component_hardware(c),
    ).unwrap().peripheral == monotonic.unwrap().peripheral {
        Some("periodic control `"@ + id + "` conflicts with the monotonic timer peripheral"@)
    } else if c is PeriodicControl && delay is Some && board_timer(
        board,
        component_hardware(c),
    ).unwrap().peripheral == delay.unwrap().peripheral {
        Some(
            "periodic control `"@ + id
                + "` conflicts with the initialization delay timer peripheral"@,
        )
    } else if exists|j: int|
        0 <= j < i && #[trigger] component_hardware(components[j]) == component_hardware(c) {
        Some(
            "board hardware `"@ + component_hardware(c)
                + "` is consumed by more than one component"@,
        )
    } else {
        None
    }
}

/// First error among the first `n` components.
pub open spec fn components_error_upto(
    board: BoardDeclaration,
    monotonic: Option<TimerHardwareDeclaration>,
    delay: Option<TimerHardwareDeclaration>,
    components: Seq<ComponentDeclaration>,
    n: int,
) -> Option<Seq<char>>
    decreases n,
{
    if n <= 0 {
        None
    } else if components_error_upto(board, monotonic, delay, components, n - 1) is Some {
        components_error_upto(board, monotonic, delay, components, n - 1)
    } else {
        component_entry_error(board, monotonic, delay, components, n - 1)
    }
}

proof fn lemma_components_error_stable(
    board: BoardDeclaration,
    monotonic: Option<TimerHardwareDeclaration>,
    delay: Option<TimerHardwareDeclaration>,
    components: Seq<ComponentDeclaration>,
    a: int,
    b: int,
)
    requires
        0 <= a <= b,
        components_error_upto(board, monotonic, delay, components, a) is Some,
    ensures
        components_error_upto(board, monotonic, delay, components, b) == components_error_upto(
            board,
            monotonic,
            delay,
            components,
            a,
        ),
    decreases b - a,
{
    if b > a {
        lemma_components_error_stable(board, monotonic, delay, components, a, b - 1);
    }
}

/// Diagnostic the platform configuration is rejected with, if any.
pub open spec fn platform_error(c: PlatformConfig) -> Option<Seq<char>> {
    if repeats_serial_port(c) {
        Some(duplicate_port_message(c.serial[1]->Some_0.port))
    } else if repeats_serial_service(c) {
        Some(duplicate_service_message(c.serial[1]->Some_0.service))
    } else {
        None
    }
}

/// Identifier of the endpoint that serves a serial connector.
pub open spec fn serial_endpoint_id(port: SerialPort) -> Seq<char> {
    match port {
        SerialPort::Serial1 => "serial1"@,
        SerialPort::Serial2 => "serial2"@,
    }
}

/// Some serial-endpoint component is named `id`.
pub open spec fn has_serial_endpoint(components: Seq<ComponentDeclaration>, id: Seq<char>) -> bool {
    exists|k: int|
        0 <= k < components.len() && #[trigger] components[k] is SerialEndpoint && component_id(
            components[k],
        ) == id
}

/// Rule the serial assignment in one slot breaks: its connector needs a
/// serial endpoint of the same name.
pub open spec fn serial_slot_error(slot: Option<SerialAssignment>, components: Seq<ComponentDeclaration>) -> Option<
    Seq<char>,
> {
    match slot {
        None => None,
        Some(a) => if has_serial_endpoint(components, serial_endpoint_id(a.port)) {
            None
        } else {
            Some(
                "platform serial port `"@ + serial_port_name(a.port)
                    + "` has no hardware endpoint declaration `"@ + serial_endpoint_id(a.port)
                    + "`"@,
            )
        },
    }
}

/// Rule the boot-time serial assignments break, in slot order.
pub open spec fn serial_assignments_error(platform: PlatformConfig, components: Seq<ComponentDeclaration>) -> Option<
    Seq<char>,
> {
    if serial_slot_error(platform.serial[0], components) is Some {
        serial_slot_error(platform.serial[0], components)
    } else {
        serial_slot_error(platform.serial[1], components)
    }
}

fn check_serial_slot(slot: Option<SerialAssignment>, components: &Vec<ComponentDeclaration>) -> (r: Result<
    (),
    String,
>)
    ensures
        r is Ok <==> serial_slot_error(slot, components@) is None,
        r matches Err(e) ==> serial_slot_error(slot, components@) == Some(e@),
{
    let a = match slot {
        None => return Ok(()),
        Some(a) => a,
    };
    let endpoint_id = match a.port {
        SerialPort::Serial1 => "serial1",
        SerialPort::Serial2 => "serial2",
    };
    let mut k: usize = 0;
    while k < components.len()
        invariant
            k <= components@.len(),
            endpoint_id@ == serial_endpoint_id(a.port),
            slot == Some(a),
            forall|q: int|
                0 <= q < k ==> !(#[trigger] components@[q] is SerialEndpoint && component_id(
                    components@[q],
                ) == endpoint_id@),
        decreases components@.len() - k,
    {
        if let ComponentDeclaration::SerialEndpoint(d) = &components[k] {
            if str_eq(d.id, endpoint_id) {
                proof {
                    assert(components@[k as int] is SerialEndpoint && component_id(components@[k as int])
                        == endpoint_id@);
                    assert(has_serial_endpoint(components@, serial_endpoint_id(a.port)));
                }
                return Ok(());
            }
        }
        k = k + 1;
    }
    let mut m = concat3("platform serial port `", a.port.name(), "` has no hardware endpoint declaration `");
    m.append(endpoint_id);
    m.append("`");
    Err(m)
}

/// Index of the first IMU endpoint component, from `j` on, named `id`.
pub open spec fn imu_endpoint_index_from(components: Seq<ComponentDeclaration>, id: Seq<char>, j: int) -> Option<
    int,
>
    decreases components.len() - j,
{
    if j < 0 || j >= components.len() {
        None
    } else if components[j] is ImuEndpoint && component_id(components[j]) == id {
        Some(j)
    } else {
        imu_endpoint_index_from(components, id, j + 1)
    }
}

/// Rule the boot-time SPI assignment breaks: it needs the IMU endpoint
/// `spi1`, and that endpoint's bus must carry the selected installation.
pub open spec fn spi_assignment_error(
    board: BoardDeclaration,
    platform: PlatformConfig,
    components: Seq<ComponentDeclaration>,
) -> Option<Seq<char>> {
    match platform.spi[0] {
        None => None,
        Some(assignment) => match imu_endpoint_index_from(components, "spi1"@, 0) {
            None => Some("platform SPI port `Spi1` has no hardware endpoint declaration `spi1`"@),
            Some(k) => match board_spi(board, component_hardware(components[k])) {
                None => None,
                Some(spi) => match assignment.service {
                    SpiService::Imu(n) => if imu_from(spi.imu@, n, 0) is None {
                        Some(
                            "platform SPI port `Spi1` selects undeclared IMU installation "@
                                + decimal(n.id as nat) + " on endpoint `spi1`"@,
                        )
                    } else {
                        None
                    },
                },
            },
        },
    }
}

/// First rule the hardware side of a composition breaks: the platform
/// configuration, the monotonic and initialization-delay timers, each
/// component in order, the initialization delay an IMU endpoint needs, and
/// the boot-time SPI assignment; `None` when it is consistent.
pub open spec fn hardware_composition_error(
    board: BoardDeclaration,
    platform: PlatformConfig,
    monotonic: MonotonicDeclaration,
    init_delay: Option<InitDelayDeclaration>,
    components: Seq<ComponentDeclaration>,
) -> Option<Seq<char>> {
    let mono = monotonic_timer(board, monotonic);
    let delay = delay_timer(board, init_delay);
    if platform_error(platform) is Some {
        platform_error(platform)
    } else if spec_tick_hz(monotonic) == 0 {
        Some(zero_monotonic_message())
    } else if monotonic is Timer && mono is None {
        Some("monotonic consumes undeclared board timer `"@ + monotonic->hardware_id@ + "`"@)
    } else if init_delay is Some && init_delay.unwrap().tick_hz == 0 {
        Some(zero_init_delay_message())
    } else if init_delay is Some && delay is None {
        Some(
            "initialization delay consumes undeclared board timer `"@
                + init_delay.unwrap().hardware_id@ + "`"@,
        )
    } else if mono is Some && delay is Some && mono.unwrap().peripheral == delay.unwrap().peripheral {
        Some("the monotonic and initialization delay cannot consume the same timer peripheral"@)
    } else if components_error_upto(board, mono, delay, components, components.len() as int) is Some {
        components_error_upto(board, mono, delay, components, components.len() as int)
    } else if init_delay is None && exists|k: int|
        0 <= k < components.len() && #[trigger] components[k] is ImuEndpoint {
        Some("SPI IMU initialization requires a general initialization delay timer"@)
    } else if serial_assignments_error(platform, components) is Some {
        serial_assignments_error(platform, components)
    } else {
        spi_assignment_error(board, platform, components)
    }
}

fn check_component(
    board: &BoardDeclaration,
    monotonic: Option<TimerHardwareDeclaration>,
    delay: Option<TimerHardwareDeclaration>,
    components: &Vec<ComponentDeclaration>,
    i: usize,
) -> (r: Result<(), String>)
    requires
        i < components@.len(),
    ensures
        r is Ok <==> component_entry_error(*board, monotonic, delay, components@, i as int) is None,
        r matches Err(e) ==> component_entry_error(*board, monotonic, delay, components@, i as int)
            == Some(e@),
{
    let component = &components[i];
    let id = component.id();
    if let Err(e) = validate_identifier(id, "component") {
        return Err(e.message);
    }
    let mut j: usize = 0;
    while j < i
        invariant
            i < components@.len(),
            j <= i,
            *component == components@[i as int],
            id@ == component_id(components@[i as int]),
            is_rust_identifier(id@),
            forall|q: int| 0 <= q < j ==> #[trigger] component_id(components@[q]) != id@,
        decreases i - j,
    {
        if str_eq(components[j].id(), id) {
            proof {
                assert(component_id(components@[j as int]) == id@);
            }
            return Err(concat3("component `", id, "` is declared more than once"));
        }
        j = j + 1;
    }
    component.validate(board)?;
    if let ComponentDeclaration::PeriodicControl(control) = component {
        if let Some(hardware) = board.timer(control.hardware_id) {
            if let Some(mono) = monotonic {
                if mono.peripheral == hardware.peripheral {
                    return Err(
                        concat3(
                            "periodic control `",
                            id,
                            "` conflicts with the monotonic timer peripheral",
                        ),
                    );
                }
            }
            if let Some(d) = delay {
                if d.peripheral == hardware.peripheral {
                    return Err(
                        concat3(
                            "periodic control `",
                            id,
                            "` conflicts with the initialization delay timer peripheral",
                        ),
                    );
                }
            }
        }
    }
    let hardware_id = component.hardware_id();
    let ghost before_hardware = component_entry_error(*board, monotonic, delay, components@, i as int);
    proof {
        assert(!exists|q: int| 0 <= q < i && #[trigger] component_id(components@[q]) == id@);
    }
    let mut j: usize = 0;
    while j < i
        invariant
            i < components@.len(),
            j <= i,
            *component == components@[i as int],
            hardware_id@ == component_hardware(components@[i as int]),
            is_rust_identifier(component_id(components@[i as int])),
            !exists|q: int| 0 <= q < i && #[trigger] component_id(components@[q]) == component_id(
                components@[i as int],
            ),
            component_error(components@[i as int], *board) is None,
            !(components@[i as int] is PeriodicControl && monotonic is Some && board_timer(
                *board,
                component_hardware(components@[i as int]),
            ).unwrap().peripheral == monotonic.unwrap().peripheral),
            !(components@[i as int] is PeriodicControl && delay is Some && board_timer(
                *board,
                component_hardware(components@[i as int]),
            ).unwrap().peripheral == delay.unwrap().peripheral),
            forall|q: int|
                0 <= q < j ==> #[trigger] component_hardware(components@[q]) != hardware_id@,
        decreases i - j,
    {
        if str_eq(components[j].hardware_id(), hardware_id) {
            proof {
                assert(component_hardware(components@[j as int]) == hardware_id@);
            }
            return Err(
                concat3(
                    "board hardware `",
                    hardware_id,
                    "` is consumed by more than one component",
                ),
            );
        }
        j = j + 1;
    }
    Ok(())
}

fn check_spi_assignment(
    board: &BoardDeclaration,
    platform: PlatformConfig,
    components: &Vec<ComponentDeclaration>,
) -> (r: Result<(), String>)
    ensures
        r is Ok <==> spi_assignment_error(*board, platform, components@) is None,
        r matches Err(e) ==> spi_assignment_error(*board, platform, components@) == Some(e@),
{
    let assignment = match platform.spi[0] {
        None => return Ok(()),
        Some(assignment) => assignment,
    };
    let mut k: usize = 0;
    while k < components.len()
        invariant
            k <= components@.len(),
            platform.spi[0] == Some(assignment),
            imu_endpoint_index_from(components@, "spi1"@, 0) == imu_endpoint_index_from(
                components@,
                "spi1"@,
                k as int,
            ),
        decreases components@.len() - k,
    {
        if let ComponentDeclaration::ImuEndpoint(endpoint) = &components[k] {
            if str_eq(endpoint.id, "spi1") {
                let spi = match board.spi(endpoint.hardware_id) {
                    None => return Ok(()),
                    Some(spi) => spi,
                };
                let SpiService::Imu(installation) = assignment.service;
                if spi.imu(installation).is_none() {
                    let mut message = String::from_str(
                        "platform SPI port `Spi1` selects undeclared IMU installation ",
                    );
                    push_decimal(&mut message, installation.id as u32);
                    message.append(" on endpoint `spi1`");
                    return Err(message);
                }
                return Ok(());
            }
        }
        k = k + 1;
    }
    Err(String::from_str("platform SPI port `Spi1` has no hardware endpoint declaration `spi1`"))
}

fn check_components(
    board: &BoardDeclaration,
    mono: Option<TimerHardwareDeclaration>,
    delay: Option<TimerHardwareDeclaration>,
    components: &Vec<ComponentDeclaration>,
) -> (r: Result<(), String>)
    ensures
        r is Ok <==> components_error_upto(*board, mono, delay, components@, components@.len() as int)
            is None,
        r matches Err(e) ==> components_error_upto(
            *board,
            mono,
            delay,
            components@,
            components@.len() as int,
        ) == Some(e@),
{
    let mut i: usize = 0;
    while i < components.len()
        invariant
            i <= components@.len(),
            components_error_upto(*board, mono, delay, components@, i as int) is None,
        decreases components@.len() - i,
    {
        if let Err(e) = check_component(board, mono, delay, components, i) {
            proof {
                lemma_components_error_stable(
                    *board,
                    mono,
                    delay,
                    components@,
                    i + 1,
                    components@.len() as int,
                );
            }
            return Err(e);
        }
        i = i + 1;
    }
    Ok(())
}

fn has_imu_endpoint(components: &Vec<ComponentDeclaration>) -> (r: bool)
    ensures
        r == exists|k: int| 0 <= k < components@.len() && #[trigger] components@[k] is ImuEndpoint,
{
    let mut k: usize = 0;
    while k < components.len()
        invariant
            k <= components@.len(),
            forall|q: int| 0 <= q < k ==> !(#[trigger] components@[q] is ImuEndpoint),
        decreases components@.len() - k,
    {
        if let ComponentDeclaration::ImuEndpoint(_) = &components[k] {
            return true;
        }
        k = k + 1;
    }
    false
}

/// Validates the hardware side of an application composition: its
/// boot-time platform configuration, its monotonic and initialization-delay
/// timers, every component on the board (unique identifiers, exclusive
/// hardware, and no periodic control on the monotonic or delay timer), the
/// initialization delay SPI IMU start-up needs, and the boot-time SPI
/// assignment.
pub fn validate_hardware_composition(
    board: &BoardDeclaration,
    platform: PlatformConfig,
    monotonic: MonotonicDeclaration,
    init_delay: Option<InitDelayDeclaration>,
    components: &Vec<ComponentDeclaration>,
) -> (r: Result<(), String>)
    ensures
        r is Ok <==> hardware_composition_error(*board, platform, monotonic, init_delay, components@)
            is None,
        r matches Err(e) ==> hardware_composition_error(
            *board,
            platform,
            monotonic,
            init_delay,
            components@,
        ) == Some(e@),
{
    platform_config::validate(platform)?;
    timing::validate(monotonic)?;
    let mono = match monotonic.hardware_id() {
        None => None,
        Some(hardware_id) => match board.timer(hardware_id) {
            None => {
                return Err(
                    concat3("monotonic consumes undeclared board timer `", hardware_id, "`"),
                );
            },
            Some(timer) => Some(timer),
        },
    };
    let delay = match init_delay {
        None => None,
        Some(declaration) => {
            timing::validate_init_delay(declaration)?;
            match board.timer(declaration.hardware_id) {
                None => {
                    return Err(
                        concat3(
                            "initialization delay consumes undeclared board timer `",
                            declaration.hardware_id,
                            "`",
                        ),
                    );
                },
                Some(timer) => Some(timer),
            }
        },
    };
    if let (Some(m), Some(d)) = (mono, delay) {
        if m.peripheral == d.peripheral {
            return Err(
                String::from_str(
                    "the monotonic and initialization delay cannot consume the same timer peripheral",
                ),
            );
        }
    }
    proof {
        assert(mono == monotonic_timer(*board, monotonic));
        assert(delay == delay_timer(*board, init_delay));
    }
    check_components(board, mono, delay, components)?;
    if init_delay.is_none() && has_imu_endpoint(components) {
        return Err(
            String::from_str("SPI IMU initialization requires a general initialization delay timer"),
        );
    }
    check_serial_slot(platform.serial[0], components)?;
    check_serial_slot(platform.serial[1], components)?;
    check_spi_assignment(board, platform, components)
}

proof fn lemma_component_ok(
    board: BoardDeclaration,
    monotonic: Option<TimerHardwareDeclaration>,
    delay: Option<TimerHardwareDeclaration>,
    components: Seq<ComponentDeclaration>,
    n: int,
    i: int,
)
    requires
        0 <= i < n,
        components_error_upto(board, monotonic, delay, components, n) is None,
    ensures
        component_entry_error(board, monotonic, delay, components, i) is None,
    decreases n,
{
    if i < n - 1 {
        lemma_component_ok(board, monotonic, delay, components, n - 1, i);
    }
}

/// In a consistent hardware composition every component has its own
/// identifier and its own board hardware, each one is valid on the board,
/// and no periodic control runs on the timer peripheral of the monotonic or
/// of the initialization delay.
pub proof fn lemma_valid_hardware_is_exclusive(
    board: BoardDeclaration,
    platform: PlatformConfig,
    monotonic: MonotonicDeclaration,
    init_delay: Option<InitDelayDeclaration>,
    components: Seq<ComponentDeclaration>,
)
    requires
        hardware_composition_error(board, platform, monotonic, init_delay, components) is None,
    ensures
        forall|i: int, j: int|
            0 <= i < j < components.len() ==> component_id(#[trigger] components[i])
                != component_id(#[trigger] components[j]) && component_hardware(components[i])
                != component_hardware(components[j]),
        forall|i: int| 0 <= i < components.len() ==> component_error(#[trigger] components[i], board) is None,
        forall|i: int|
            0 <= i < components.len() && (#[trigger] components[i]) is PeriodicControl ==> {
                let p = board_timer(board, component_hardware(components[i])).unwrap().peripheral;
                &&& monotonic_timer(board, monotonic) matches Some(m) ==> m.peripheral != p
                &&& delay_timer(board, init_delay) matches Some(d) ==> d.peripheral != p
            },
{
    let mono = monotonic_timer(board, monotonic);
    let delay = delay_timer(board, init_delay);
    let n = components.len() as int;
    assert forall|i: int, j: int| 0 <= i < j < components.len() implies component_id(
        #[trigger] components[i],
    ) != component_id(#[trigger] components[j]) && component_hardware(components[i])
        != component_hardware(components[j]) by {
        lemma_component_ok(board, mono, delay, components, n, j);
    }
    assert forall|i: int| 0 <= i < components.len() implies component_error(
        #[trigger] components[i],
        board,
    ) is None by {
        lemma_component_ok(board, mono, delay, components, n, i);
    }
    assert forall|i: int|
        0 <= i < components.len() && (#[trigger] components[i]) is PeriodicControl implies {
        let p = board_timer(board, component_hardware(components[i])).unwrap().peripheral;
        &&& monotonic_timer(board, monotonic) matches Some(m) ==> m.peripheral != p
        &&& delay_timer(board, init_delay) matches Some(d) ==> d.peripheral != p
    } by {
        lemma_component_ok(board, mono, delay, components, n, i);
    }
}

} // verus!
