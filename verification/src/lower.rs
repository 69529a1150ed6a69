//! STM32F405 lowering fragments: the Rust source lines generated for board
//! GPIOs, periodic-control timers, IMU endpoint resources, and application
//! task state.

use vstd::prelude::*;

use crate::board::{
    board_timer, spec_update_interrupt, timer_number, BoardDeclaration, SpiPeripheral, TimerPeripheral,
};
use crate::dma_route::{DmaChannel, DmaController, DmaRoute, DmaStream};
use crate::pins::PinId;
use crate::gpio::{Drive, GpioHardwareDeclaration, GpioMode, InterruptEdge, Level, Pull};
use crate::imu_endpoint::ImuEndpointResourceRole;
use crate::periodic_control::PeriodicControlResourceRole;
use crate::pins::GpioPort;
use crate::platform_config::{PlatformConfig, SerialPort, SerialService, SpiService};
use crate::state::TaskStateRecipe;
use crate::resolve::{
    periodic_role_index_from, periodic_role_name, ResolvedImuEndpoint, ResolvedPeriodicControl,
};
use crate::text::{concat3, decimal, grouped_decimal, push_decimal, push_grouped_decimal};

verus! {

/// Upper-case letter of a port the STM32F405 package exposes (`A`..`I`).
pub open spec fn spec_port_letter(port: GpioPort) -> Option<char> {
    match port {
        GpioPort::A => Some('A'),
        GpioPort::B => Some('B'),
        GpioPort::C => Some('C'),
        GpioPort::D => Some('D'),
        GpioPort::E => Some('E'),
        GpioPort::F => Some('F'),
        GpioPort::G => Some('G'),
        GpioPort::H => Some('H'),
        GpioPort::I => Some('I'),
        GpioPort::J => None,
        GpioPort::K => None,
    }
}

/// Letter of a port, or the diagnostic for a port the STM32F405 lacks.
pub fn port_letter(port: GpioPort) -> (r: Result<char, String>)
    ensures
        match (r, spec_port_letter(port)) {
            (Ok(c), Some(d)) => c == d,
            (Err(e), None) => e@ == "STM32F405 lowering does not support GPIO"@ + (if port
                == GpioPort::J {
                "J"@
            } else {
                "K"@
            }),
            _ => false,
        },
{
    match port {
        GpioPort::A => Ok('A'),
        GpioPort::B => Ok('B'),
        GpioPort::C => Ok('C'),
        GpioPort::D => Ok('D'),
        GpioPort::E => Ok('E'),
        GpioPort::F => Ok('F'),
        GpioPort::G => Ok('G'),
        GpioPort::H => Ok('H'),
        GpioPort::I => Ok('I'),
        GpioPort::J => {
            let mut e = String::from_str("STM32F405 lowering does not support GPIO");
            e.append("J");
            Err(e)
        },
        GpioPort::K => {
            let mut e = String::from_str("STM32F405 lowering does not support GPIO");
            e.append("K");
            Err(e)
        },
    }
}

/// Lower-case name of a port the STM32F405 exposes, as HAL identifiers use it.
pub open spec fn port_lower(port: GpioPort) -> Seq<char> {
    match port {
        GpioPort::A => "a"@,
        GpioPort::B => "b"@,
        GpioPort::C => "c"@,
        GpioPort::D => "d"@,
        GpioPort::E => "e"@,
        GpioPort::F => "f"@,
        GpioPort::G => "g"@,
        GpioPort::H => "h"@,
        GpioPort::I => "i"@,
        GpioPort::J => "j"@,
        GpioPort::K => "k"@,
    }
}

pub(crate) fn port_lower_str(port: GpioPort) -> (r: &'static str)
    ensures
        r@ == port_lower(port),
{
    match port {
        GpioPort::A => "a",
        GpioPort::B => "b",
        GpioPort::C => "c",
        GpioPort::D => "d",
        GpioPort::E => "e",
        GpioPort::F => "f",
        GpioPort::G => "g",
        GpioPort::H => "h",
        GpioPort::I => "i",
        GpioPort::J => "j",
        GpioPort::K => "k",
    }
}

/// Decimal rendering with `_` between groups of three digits, as Rust
/// literals are written (`168_000_000`).
pub fn render_u32(value: u32) -> (r: String)
    ensures
        r@ == grouped_decimal(value as nat),
{
    let mut out = String::new();
    push_grouped_decimal(&mut out, value);
    proof {
        assert(out@ =~= grouped_decimal(value as nat));
    }
    out
}

/// Comment line that opens a generated section.
pub fn section_guard(label: &str) -> (r: String)
    ensures
        r@ == "// ===== "@ + label@ + " ====="@,
{
    concat3("// ===== ", label, " =====")
}

/// PAC identifier of a timer peripheral.
pub open spec fn spec_timer_pac_identifier(p: TimerPeripheral) -> Seq<char> {
    match p {
        TimerPeripheral::Tim2 => "TIM2"@,
        TimerPeripheral::Tim4 => "TIM4"@,
        TimerPeripheral::Tim5 => "TIM5"@,
        TimerPeripheral::Tim6 => "TIM6"@,
    }
}

/// PAC identifier of a timer peripheral.
pub fn timer_pac_identifier(peripheral: TimerPeripheral) -> (r: &'static str)
    ensures
        r@ == spec_timer_pac_identifier(peripheral),
{
    match peripheral {
        TimerPeripheral::Tim2 => "TIM2",
        TimerPeripheral::Tim4 => "TIM4",
        TimerPeripheral::Tim5 => "TIM5",
        TimerPeripheral::Tim6 => "TIM6",
    }
}

/// The PAC identifier of timer `TIMn` is `TIM` followed by `n`, and the
/// timer's update interrupt vector is named after it.
pub proof fn lemma_timer_pac_identifier_names_the_timer(p: TimerPeripheral)
    ensures
        spec_timer_pac_identifier(p) == "TIM"@ + decimal(timer_number(p)),
        spec_update_interrupt(p).len() >= spec_timer_pac_identifier(p).len(),
        spec_update_interrupt(p).take(spec_timer_pac_identifier(p).len() as int)
            == spec_timer_pac_identifier(p),
{
    reveal_strlit("TIM");
    reveal_strlit("TIM2");
    reveal_strlit("TIM4");
    reveal_strlit("TIM5");
    reveal_strlit("TIM6");
    reveal_strlit("TIM6_DAC");
    assert(spec_timer_pac_identifier(p) =~= "TIM"@ + decimal(timer_number(p)));
    assert(spec_update_interrupt(p).take(spec_timer_pac_identifier(p).len() as int)
        =~= spec_timer_pac_identifier(p));
}

/// Distinct timer peripherals have distinct PAC identifiers.
pub proof fn lemma_timer_pac_identifiers_are_distinct(a: TimerPeripheral, b: TimerPeripheral)
    requires
        a != b,
    ensures
        spec_timer_pac_identifier(a) != spec_timer_pac_identifier(b),
{
    lemma_timer_pac_identifier_names_the_timer(a);
    lemma_timer_pac_identifier_names_the_timer(b);
    let va = spec_timer_pac_identifier(a);
    let vb = spec_timer_pac_identifier(b);
    assert(va.last() == decimal(timer_number(a)).last());
    assert(vb.last() == decimal(timer_number(b)).last());
    assert(va.last() != vb.last());
}

/// Peripheral of the board timer named `hardware_id`.
pub fn timer_peripheral(board: &BoardDeclaration, hardware_id: &str) -> (r: Result<
    TimerPeripheral,
    String,
>)
    ensures
        match (r, board_timer(*board, hardware_id@)) {
            (Ok(p), Some(t)) => p == t.peripheral,
            (Err(e), None) => e@ == "board timer `"@ + hardware_id@
                + "` disappeared after validation"@,
            _ => false,
        },
{
    match board.timer(hardware_id) {
        Some(timer) => Ok(timer.peripheral),
        None => Err(concat3("board timer `", hardware_id, "` disappeared after validation")),
    }
}

/// HAL counter type that schedules a periodic control on a timer.
pub open spec fn spec_periodic_control_scheduler_type(p: TimerPeripheral) -> Seq<char> {
    "ferrowasp_stm32f4::rtic::hal::timer::CounterHz<ferrowasp_stm32f4::rtic::hal::pac::"@
        + spec_timer_pac_identifier(p) + ">"@
}

/// HAL counter type that schedules a periodic control on a timer.
pub fn periodic_control_scheduler_type(peripheral: TimerPeripheral) -> (r: String)
    ensures
        r@ == spec_periodic_control_scheduler_type(peripheral),
{
    concat3(
        "ferrowasp_stm32f4::rtic::hal::timer::CounterHz<ferrowasp_stm32f4::rtic::hal::pac::",
        timer_pac_identifier(peripheral),
        ">",
    )
}

/// Name of an IMU endpoint role as diagnostics print it.
pub open spec fn imu_role_name(role: ImuEndpointResourceRole) -> Seq<char> {
    match role {
        ImuEndpointResourceRole::Buffers => "Buffers"@,
        ImuEndpointResourceRole::FreeQueue => "FreeQueue"@,
        ImuEndpointResourceRole::FilledQueue => "FilledQueue"@,
        ImuEndpointResourceRole::Owner => "Owner"@,
        ImuEndpointResourceRole::Parser => "Parser"@,
        ImuEndpointResourceRole::Device => "Device"@,
        ImuEndpointResourceRole::DataReady => "DataReady"@,
        ImuEndpointResourceRole::Kind => "Kind"@,
        ImuEndpointResourceRole::Sample => "Sample"@,
        ImuEndpointResourceRole::UnavailableLogged => "UnavailableLogged"@,
    }
}

pub(crate) fn imu_role_str(role: ImuEndpointResourceRole) -> (r: &'static str)
    ensures
        r@ == imu_role_name(role),
{
    match role {
        ImuEndpointResourceRole::Buffers => "Buffers",
        ImuEndpointResourceRole::FreeQueue => "FreeQueue",
        ImuEndpointResourceRole::FilledQueue => "FilledQueue",
        ImuEndpointResourceRole::Owner => "Owner",
        ImuEndpointResourceRole::Parser => "Parser",
        ImuEndpointResourceRole::Device => "Device",
        ImuEndpointResourceRole::DataReady => "DataReady",
        ImuEndpointResourceRole::Kind => "Kind",
        ImuEndpointResourceRole::Sample => "Sample",
        ImuEndpointResourceRole::UnavailableLogged => "UnavailableLogged",
    }
}

/// The role is backing storage borrowed only during initialization.
pub open spec fn is_init_local_role(role: ImuEndpointResourceRole) -> bool {
    role == ImuEndpointResourceRole::Buffers || role == ImuEndpointResourceRole::FreeQueue || role
        == ImuEndpointResourceRole::FilledQueue
}

/// Rust type of the RTIC field of an IMU endpoint role.
pub open spec fn spec_imu_resource_type(role: ImuEndpointResourceRole) -> Seq<char> {
    match role {
        ImuEndpointResourceRole::Owner => "Spi1ImuEndpointOwner"@,
        ImuEndpointResourceRole::Parser => "Spi1ImuParser"@,
        ImuEndpointResourceRole::Device => "Spi1ImuDevice"@,
        ImuEndpointResourceRole::DataReady => "Pin<'C', 4, Input>"@,
        ImuEndpointResourceRole::Kind => "u8"@,
        ImuEndpointResourceRole::Sample => "ImuData"@,
        ImuEndpointResourceRole::UnavailableLogged => "bool"@,
        _ => Seq::empty(),
    }
}

/// Rust type of the RTIC field of an IMU endpoint role; initialization-local
/// storage roles have no RTIC field.
pub fn imu_resource_type(role: ImuEndpointResourceRole) -> (r: Result<&'static str, String>)
    ensures
        is_init_local_role(role) <==> r is Err,
        r matches Ok(t) ==> t@ == spec_imu_resource_type(role),
        r matches Err(e) ==> e@ == "IMU endpoint role "@ + imu_role_name(role)
            + " cannot be an RTIC field"@,
{
    match role {
        ImuEndpointResourceRole::Owner => Ok("Spi1ImuEndpointOwner"),
        ImuEndpointResourceRole::Parser => Ok("Spi1ImuParser"),
        ImuEndpointResourceRole::Device => Ok("Spi1ImuDevice"),
        ImuEndpointResourceRole::DataReady => Ok("Pin<'C', 4, Input>"),
        ImuEndpointResourceRole::Kind => Ok("u8"),
        ImuEndpointResourceRole::Sample => Ok("ImuData"),
        ImuEndpointResourceRole::UnavailableLogged => Ok("bool"),
        _ => Err(concat3("IMU endpoint role ", imu_role_str(role), " cannot be an RTIC field")),
    }
}

/// Type and initializer of an initialization-local IMU storage role.
pub open spec fn spec_imu_init_local(role: ImuEndpointResourceRole) -> (Seq<char>, Seq<char>) {
    match role {
        ImuEndpointResourceRole::Buffers => (
            "SpiDmaBufferBank"@,
            "ferrowasp_stm32f4::app_storage::new_spi_dma_buffer_bank()"@,
        ),
        ImuEndpointResourceRole::FreeQueue => ("SpiFreeQueue"@, "SpiFreeQueue::new()"@),
        _ => ("SpiFilledQueue"@, "SpiFilledQueue::new()"@),
    }
}

/// Type and initializer of an initialization-local IMU storage role; other
/// roles are not initialization-local.
pub fn imu_init_local(role: ImuEndpointResourceRole) -> (r: Result<(&'static str, &'static str), String>)
    ensures
        is_init_local_role(role) <==> r is Ok,
        r matches Ok(p) ==> (p.0@, p.1@) == spec_imu_init_local(role),
        r matches Err(e) ==> e@ == "IMU endpoint role "@ + imu_role_name(role)
            + " cannot be initialization-local"@,
{
    match role {
        ImuEndpointResourceRole::Buffers => Ok(
            ("SpiDmaBufferBank", "ferrowasp_stm32f4::app_storage::new_spi_dma_buffer_bank()"),
        ),
        ImuEndpointResourceRole::FreeQueue => Ok(("SpiFreeQueue", "SpiFreeQueue::new()")),
        ImuEndpointResourceRole::FilledQueue => Ok(("SpiFilledQueue", "SpiFilledQueue::new()")),
        _ => Err(
            concat3("IMU endpoint role ", imu_role_str(role), " cannot be initialization-local"),
        ),
    }
}

/// HAL name of a pull configuration.
pub open spec fn pull_name(p: Pull) -> Seq<char> {
    match p {
        Pull::Floating => "None"@,
        Pull::Up => "Up"@,
        Pull::Down => "Down"@,
    }
}

/// HAL name of an output level.
pub open spec fn level_name(l: Level) -> Seq<char> {
    match l {
        Level::Low => "Low"@,
        Level::High => "High"@,
    }
}

/// HAL name of an interrupt edge.
pub open spec fn edge_name(e: InterruptEdge) -> Seq<char> {
    match e {
        InterruptEdge::Rising => "Rising"@,
        InterruptEdge::Falling => "Falling"@,
        InterruptEdge::Both => "RisingFalling"@,
    }
}

/// HAL pin field of a GPIO, such as `gpioa.pa5`.
pub open spec fn pin_path(g: GpioHardwareDeclaration) -> Seq<char> {
    "gpio"@ + port_lower(g.pin.port) + ".p"@ + port_lower(g.pin.port) + decimal(g.pin.pin as nat)
}

/// Initialization statements of a board GPIO.
pub open spec fn gpio_initialization(g: GpioHardwareDeclaration) -> Seq<char> {
    let id = g.id@;
    match g.mode {
        GpioMode::Output { drive: _, initial_level } => "let mut "@ + id + " = "@ + pin_path(g)
            + ".into_push_pull_output_in_state(PinState::"@ + level_name(initial_level)
            + ");\n"@ + id + ".set_internal_resistor(Pull::"@ + pull_name(g.pull) + ");\n"@ + id
            + ".set_speed(Speed::Low);"@,
        GpioMode::Input { interrupt } => {
            let input = "let "@ + id + " = Input::new("@ + pin_path(g) + ", Pull::"@ + pull_name(
                g.pull,
            ) + ");"@;
            match interrupt {
                None => input,
                Some(i) => input + "\nlet "@ + id
                    + " = ferrowasp_stm32f4::exti::init_input(\n    "@ + id
                    + ",\n    &mut syscfg,\n    &mut exti,\n    Edge::"@ + edge_name(i.edge)
                    + ",\n);"@,
            }
        },
    }
}

fn push_pin_path(out: &mut String, g: &GpioHardwareDeclaration)
    ensures
        final(out)@ == old(out)@ + pin_path(*g),
{
    let port = port_lower_str(g.pin.port);
    out.append("gpio");
    out.append(port);
    out.append(".p");
    out.append(port);
    push_decimal(out, g.pin.pin as u32);
}

/// Initialization statements of a board GPIO; ports the STM32F405 lacks are
/// rejected.
pub fn render_gpio_initialization(gpio: &GpioHardwareDeclaration) -> (r: Result<String, String>)
    ensures
        spec_port_letter(gpio.pin.port) is Some <==> r is Ok,
        r matches Ok(s) ==> s@ == gpio_initialization(*gpio),
        r matches Err(e) ==> e@ == "STM32F405 lowering does not support GPIO"@ + (if gpio.pin.port
            == GpioPort::J {
            "J"@
        } else {
            "K"@
        }),
{
    if let Err(e) = port_letter(gpio.pin.port) {
        return Err(e);
    }
    let pull = match gpio.pull {
        Pull::Floating => "None",
        Pull::Up => "Up",
        Pull::Down => "Down",
    };
    let id = gpio.id;
    match gpio.mode {
        GpioMode::Output { drive: Drive::PushPull, initial_level } => {
            let level = match initial_level {
                Level::Low => "Low",
                Level::High => "High",
            };
            let mut out = concat3("let mut ", id, " = ");
            push_pin_path(&mut out, gpio);
            out.append(".into_push_pull_output_in_state(PinState::");
            out.append(level);
            out.append(");\n");
            out.append(id);
            out.append(".set_internal_resistor(Pull::");
            out.append(pull);
            out.append(");\n");
            out.append(id);
            out.append(".set_speed(Speed::Low);");
            Ok(out)
        },
        GpioMode::Input { interrupt } => {
            let mut out = concat3("let ", id, " = Input::new(");
            push_pin_path(&mut out, gpio);
            out.append(", Pull::");
            out.append(pull);
            out.append(");");
            if let Some(interrupt) = interrupt {
                let edge = match interrupt.edge {
                    InterruptEdge::Rising => "Rising",
                    InterruptEdge::Falling => "Falling",
                    InterruptEdge::Both => "RisingFalling",
                };
                out.append("\nlet ");
                out.append(id);
                out.append(" = ferrowasp_stm32f4::exti::init_input(\n    ");
                out.append(id);
                out.append(",\n    &mut syscfg,\n    &mut exti,\n    Edge::");
                out.append(edge);
                out.append(",\n);");
            }
            Ok(out)
        },
    }
}

/// Initialization statements of a periodic control: its timer counter and
/// its zeroed phase.
pub open spec fn periodic_control_initialization(
    scheduler: Seq<char>,
    phase: Seq<char>,
    p: TimerPeripheral,
    scheduler_hz: u32,
) -> Seq<char> {
    "let "@ + scheduler + " = init_control_scheduler(\n    cx.device."@ + spec_timer_pac_identifier(p)
        + ",\n    &mut rcc,\n    "@ + grouped_decimal(scheduler_hz as nat)
        + ".Hz(),\n)\n.expect(\"validated periodic control timer must start\");\nlet "@ + phase
        + " = 0;"@
}

/// Initialization statements of a resolved periodic control.
pub fn render_periodic_control_initialization(control: &ResolvedPeriodicControl) -> (r: Result<
    String,
    String,
>)
    ensures
        ({
            let rs = control.resources@;
            let s = periodic_role_index_from(rs, PeriodicControlResourceRole::Scheduler, 0);
            let p = periodic_role_index_from(rs, PeriodicControlResourceRole::Phase, 0);
            let missing = |role: PeriodicControlResourceRole|
                "periodic control `"@ + control.declaration.id@ + "` has no "@ + periodic_role_name(
                    role,
                ) + " resource"@;
            match (s, p) {
                (Some(a), Some(b)) => r matches Ok(text) && text@ == periodic_control_initialization(
                    rs[a].id@,
                    rs[b].id@,
                    control.hardware.peripheral,
                    control.declaration.scheduler_hz,
                ),
                (None, _) => r matches Err(e) && e@ == missing(
                    PeriodicControlResourceRole::Scheduler,
                ),
                (Some(_), None) => r matches Err(e) && e@ == missing(
                    PeriodicControlResourceRole::Phase,
                ),
            }
        }),
{
    let peripheral = timer_pac_identifier(control.hardware.peripheral);
    let scheduler = control.resource_id(PeriodicControlResourceRole::Scheduler)?;
    let phase = control.resource_id(PeriodicControlResourceRole::Phase)?;
    let mut out = concat3("let ", scheduler, " = init_control_scheduler(\n    cx.device.");
    out.append(peripheral);
    out.append(",\n    &mut rcc,\n    ");
    push_grouped_decimal(&mut out, control.declaration.scheduler_hz);
    out.append(".Hz(),\n)\n.expect(\"validated periodic control timer must start\");\nlet ");
    out.append(phase);
    out.append(" = 0;");
    Ok(out)
}

/// The endpoint uses the one SPI IMU wiring the lowering supports: SPI1 on
/// PA5/PA6/PA7 with DMA2 streams 0 and 3 on channel 3, chip select PA4, and
/// data-ready PC4 on the rising edge.
pub open spec fn supported_spi_route(endpoint: ResolvedImuEndpoint) -> bool {
    let bus = endpoint.spi.bus;
    &&& bus.peripheral == SpiPeripheral::Spi1
    &&& bus.sck == (PinId { port: GpioPort::A, pin: 5 })
    &&& bus.miso == (PinId { port: GpioPort::A, pin: 6 })
    &&& bus.mosi == (PinId { port: GpioPort::A, pin: 7 })
    &&& bus.dma_rx == (DmaRoute {
        controller: DmaController::Dma2,
        stream: DmaStream::Stream0,
        channel: DmaChannel::Channel3,
    })
    &&& bus.dma_tx == (DmaRoute {
        controller: DmaController::Dma2,
        stream: DmaStream::Stream3,
        channel: DmaChannel::Channel3,
    })
}

/// The endpoint's IMU uses chip select PA4 and data-ready PC4, rising.
pub open spec fn supported_imu_pins(endpoint: ResolvedImuEndpoint) -> bool {
    &&& endpoint.hardware.chip_select == (PinId { port: GpioPort::A, pin: 4 })
    &&& endpoint.hardware.data_ready == (PinId { port: GpioPort::C, pin: 4 })
    &&& endpoint.hardware.data_ready_edge == InterruptEdge::Rising
}

/// Checks that a resolved IMU endpoint uses the supported SPI and IMU wiring.
pub fn validate_supported_imu_endpoint(endpoint: &ResolvedImuEndpoint) -> (r: Result<(), String>)
    ensures
        r is Ok <==> supported_spi_route(*endpoint) && supported_imu_pins(*endpoint),
        r matches Err(e) ==> e@ == if !supported_spi_route(*endpoint) {
            "IMU endpoint `"@ + endpoint.declaration.id@
                + "` uses an unsupported SPI route; expected Foxeer SPI1 PA5/PA6/PA7 with DMA2 streams 0/3 channel 3"@
        } else {
            "IMU endpoint `"@ + endpoint.declaration.id@
                + "` must use Foxeer CS PA4 and DRDY PC4 rising"@
        },
{
    let expected_rx = DmaRoute::new(DmaController::Dma2, DmaStream::Stream0, DmaChannel::Channel3);
    let expected_tx = DmaRoute::new(DmaController::Dma2, DmaStream::Stream3, DmaChannel::Channel3);
    let bus = endpoint.spi.bus;
    if bus.peripheral != SpiPeripheral::Spi1 || bus.sck != PinId::new(GpioPort::A, 5) || bus.miso
        != PinId::new(GpioPort::A, 6) || bus.mosi != PinId::new(GpioPort::A, 7) || bus.dma_rx
        != expected_rx || bus.dma_tx != expected_tx {
        return Err(
            concat3(
                "IMU endpoint `",
                endpoint.declaration.id,
                "` uses an unsupported SPI route; expected Foxeer SPI1 PA5/PA6/PA7 with DMA2 streams 0/3 channel 3",
            ),
        );
    }
    if endpoint.hardware.chip_select != PinId::new(GpioPort::A, 4) || endpoint.hardware.data_ready
        != PinId::new(GpioPort::C, 4) || endpoint.hardware.data_ready_edge != InterruptEdge::Rising {
        return Err(
            concat3(
                "IMU endpoint `",
                endpoint.declaration.id,
                "` must use Foxeer CS PA4 and DRDY PC4 rising",
            ),
        );
    }
    Ok(())
}

/// Rust expression that initializes a task-state value of a recipe.
pub open spec fn spec_task_state_initializer(recipe: TaskStateRecipe) -> Seq<char> {
    match recipe {
        TaskStateRecipe::U32(initial) => grouped_decimal(initial as nat),
        TaskStateRecipe::Bool(initial) => if initial {
            "true"@
        } else {
            "false"@
        },
        TaskStateRecipe::FoxeerFlightControllerV1 => FLIGHT_CONTROLLER_INITIALIZER@,
        TaskStateRecipe::FoxeerImuRateLowPassFilterV1 => "dt::ImuRateLowPassFilter::new(0.55)"@,
        TaskStateRecipe::GyroAngleIntegratorV1 => "dt::GyroAngleIntegrator::new()"@,
        TaskStateRecipe::BodyRateToControllerMapV1 => "ferrowasp_core::frames::BODY_RATE_TO_RATE_CONTROLLER_MAP"@,
        TaskStateRecipe::FoxeerGyroBiasCalibratorV1 => "dt::GyroBiasCalibrator::new(800, 1_000)"@,
        TaskStateRecipe::EmptyRcInputSnapshotV1 => "RcInputSnapshot::new()"@,
        TaskStateRecipe::OutputInhibitedFoxeerSafetyMasterV1 => "ferrowasp_tasks::foxeer_safety::FoxeerSafetyMaster::output_inhibited()"@,
    }
}

/// Reviewed construction of the Foxeer flight controller.
pub const FLIGHT_CONTROLLER_INITIALIZER: &'static str = "dt::FlightController::new(
    dt::FlightControllerConfig {
        max_throttle: 2_000.0,
        rescale_throttles: true,
        clamp_negative_to_zero: true,
    },
    dt::RateController::new(
        dt::RateControllerGains {
            roll: dt::PidGains { p: 2.5, i: 0.0, d: 0.0 },
            pitch: dt::PidGains { p: 2.5, i: 0.0, d: 0.0 },
            yaw: dt::PidGains { p: 2.0, i: 0.0, d: 0.0 },
        },
        2_000.0,
    ),
)";

/// Rust expression that initializes a task-state value of a recipe.
pub fn task_state_initializer(recipe: TaskStateRecipe) -> (r: String)
    ensures
        r@ == spec_task_state_initializer(recipe),
{
    match recipe {
        TaskStateRecipe::U32(initial) => render_u32(initial),
        TaskStateRecipe::Bool(initial) => String::from_str(if initial {
            "true"
        } else {
            "false"
        }),
        TaskStateRecipe::FoxeerFlightControllerV1 => String::from_str(FLIGHT_CONTROLLER_INITIALIZER),
        TaskStateRecipe::FoxeerImuRateLowPassFilterV1 => String::from_str(
            "dt::ImuRateLowPassFilter::new(0.55)",
        ),
        TaskStateRecipe::GyroAngleIntegratorV1 => String::from_str("dt::GyroAngleIntegrator::new()"),
        TaskStateRecipe::BodyRateToControllerMapV1 => String::from_str(
            "ferrowasp_core::frames::BODY_RATE_TO_RATE_CONTROLLER_MAP",
        ),
        TaskStateRecipe::FoxeerGyroBiasCalibratorV1 => String::from_str(
            "dt::GyroBiasCalibrator::new(800, 1_000)",
        ),
        TaskStateRecipe::EmptyRcInputSnapshotV1 => String::from_str("RcInputSnapshot::new()"),
        TaskStateRecipe::OutputInhibitedFoxeerSafetyMasterV1 => String::from_str(
            "ferrowasp_tasks::foxeer_safety::FoxeerSafetyMaster::output_inhibited()",
        ),
    }
}

/// Generated expression naming the service on a serial connector.
pub open spec fn serial_service_expr(s: Option<SerialService>) -> Seq<char> {
    match s {
        None => "None"@,
        Some(SerialService::RcSbus) => "Some(SerialService::RcSbus)"@,
        Some(SerialService::MspV1Osd) => "Some(SerialService::MspV1Osd)"@,
    }
}

/// Service the configuration assigns to a connector (the first assignment
/// naming it).
pub open spec fn service_on(config: PlatformConfig, port: SerialPort) -> Option<SerialService> {
    if config.serial[0] is Some && config.serial[0]->Some_0.port == port {
        Some(config.serial[0]->Some_0.service)
    } else if config.serial[1] is Some && config.serial[1]->Some_0.port == port {
        Some(config.serial[1]->Some_0.service)
    } else {
        None
    }
}

/// Generated expression naming the service on the SPI connector.
pub open spec fn spi_service_expr(config: PlatformConfig) -> Seq<char> {
    match config.spi[0] {
        None => "None"@,
        Some(assignment) => match assignment.service {
            SpiService::Imu(id) => "Some(SpiService::Imu(ImuInstallationId::new("@ + decimal(
                id.id as nat,
            ) + ")))"@,
        },
    }
}

/// Generated boot-time platform configuration loader.
pub open spec fn platform_config_source(config: PlatformConfig) -> Seq<char> {
    "pub(crate) fn load_platform_config() -> RuntimePlatformConfig {\n    RuntimePlatformConfig {\n        serial1: "@
        + serial_service_expr(service_on(config, SerialPort::Serial1))
        + ",\n        serial2: "@ + serial_service_expr(service_on(config, SerialPort::Serial2))
        + ",\n        spi1: "@ + spi_service_expr(config) + ",\n    }\n}"@
}

fn serial_service_str(config: PlatformConfig, port: SerialPort) -> (r: &'static str)
    ensures
        r@ == serial_service_expr(service_on(config, port)),
{
    let mut k: usize = 0;
    while k < 2
        invariant
            k <= 2,
            forall|q: int| 0 <= q < k ==> !(config.serial[q] is Some && config.serial[q]->Some_0.port == port),
        decreases 2 - k,
    {
        if let Some(assignment) = config.serial[k] {
            if assignment.port == port {
                return match assignment.service {
                    SerialService::RcSbus => "Some(SerialService::RcSbus)",
                    SerialService::MspV1Osd => "Some(SerialService::MspV1Osd)",
                };
            }
        }
        k = k + 1;
    }
    "None"
}

/// Renders the boot-time platform configuration loader.
pub fn render_platform_config(config: PlatformConfig) -> (r: String)
    ensures
        r@ == platform_config_source(config),
{
    let mut out = String::from_str(
        "pub(crate) fn load_platform_config() -> RuntimePlatformConfig {\n    RuntimePlatformConfig {\n        serial1: ",
    );
    out.append(serial_service_str(config, SerialPort::Serial1));
    out.append(",\n        serial2: ");
    out.append(serial_service_str(config, SerialPort::Serial2));
    out.append(",\n        spi1: ");
    match config.spi[0] {
        None => out.append("None"),
        Some(assignment) => {
            let SpiService::Imu(id) = assignment.service;
            out.append("Some(SpiService::Imu(ImuInstallationId::new(");
            push_decimal(&mut out, id.id as u32);
            out.append(")))");
        },
    }
    out.append(",\n    }\n}");
    out
}

/// ASCII upper-case form of a string.
pub open spec fn ascii_upper(s: Seq<char>) -> Seq<char> {
    s.map_values(|c: char| if 'a' <= c && c <= 'z' {
        ((c as u32) - 32) as char
    } else {
        c
    })
}

/// `str::to_ascii_uppercase`: a copy in which ASCII letters `a` through `z`
/// become `A` through `Z` and every other character is unchanged, as std
/// documents it.
#[verifier::external_body]
pub(crate) fn to_ascii_uppercase(s: &str) -> (r: String)
    ensures
        r@ == ascii_upper(s@),
{
    s.to_ascii_uppercase()
}

/// Section holding the static mailbox of the one supported SPI IMU endpoint,
/// or nothing without an IMU endpoint.
pub open spec fn globals_source(endpoints: Seq<ResolvedImuEndpoint>) -> Result<Seq<char>, Seq<char>> {
    if endpoints.len() == 0 {
        Ok(Seq::empty())
    } else if endpoints.len() != 1 {
        Err("the initial STM32F4 renderer supports one SPI1 IMU endpoint"@)
    } else if !supported_spi_route(endpoints[0]) {
        Err(
            "IMU endpoint `"@ + endpoints[0].declaration.id@
                + "` uses an unsupported SPI route; expected Foxeer SPI1 PA5/PA6/PA7 with DMA2 streams 0/3 channel 3"@,
        )
    } else if !supported_imu_pins(endpoints[0]) {
        Err("IMU endpoint `"@ + endpoints[0].declaration.id@ + "` must use Foxeer CS PA4 and DRDY PC4 rising"@)
    } else {
        let id = endpoints[0].declaration.id@;
        Ok(
            "// ===== "@ + "SPI endpoint `"@ + id + "` static resources"@ + " ====="@ + "\nstatic "@
                + ascii_upper(id) + "_MAILBOX: Spi1ImuMailbox = new_spi1_imu_mailbox();"@,
        )
    }
}

/// Renders the static resources of the application's SPI IMU endpoint.
pub fn render_globals(imu_endpoints: &Vec<ResolvedImuEndpoint>) -> (r: Result<String, String>)
    ensures
        match (r, globals_source(imu_endpoints@)) {
            (Ok(a), Ok(b)) => a@ == b,
            (Err(a), Err(b)) => a@ == b,
            _ => false,
        },
{
    if imu_endpoints.len() == 0 {
        return Ok(String::new());
    }
    if imu_endpoints.len() != 1 {
        return Err(String::from_str("the initial STM32F4 renderer supports one SPI1 IMU endpoint"));
    }
    let endpoint = &imu_endpoints[0];
    validate_supported_imu_endpoint(endpoint)?;
    let label = concat3("SPI endpoint `", endpoint.declaration.id, "` static resources");
    let mut out = section_guard(label.as_str());
    out.append("\nstatic ");
    let upper = to_ascii_uppercase(endpoint.declaration.id);
    out.append(upper.as_str());
    out.append("_MAILBOX: Spi1ImuMailbox = new_spi1_imu_mailbox();");
    Ok(out)
}

} // verus!
