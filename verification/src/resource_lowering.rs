//! Lowering of resolved application resources into the fields of the RTIC
//! `Shared` and `Local` structs, the values `init` returns for them, and the
//! static storage declared as initialization-local, plus the timing preamble.

use vstd::prelude::*;

use crate::board::{BoardDeclaration, TimerPeripheral};
use crate::composition::{spec_shared_rust_type, SharedValue};
use crate::gpio::GpioMode;
use crate::imu_endpoint::ImuEndpointResourceOwnership;
use crate::lower::{
    imu_init_local, imu_resource_type, imu_role_name, is_init_local_role, spec_imu_init_local,
    spec_imu_resource_type, spec_task_state_initializer, supported_imu_pins, supported_spi_route,
    task_state_initializer,
    validate_supported_imu_endpoint, periodic_control_scheduler_type, spec_periodic_control_scheduler_type, spec_port_letter,
    timer_peripheral,
};
use crate::board::board_timer;
use crate::periodic_control::PeriodicControlResourceRole;
use crate::pins::GpioPort;
use crate::serial::SerialPeripheral;
use crate::state::ResolvedTaskState;
use crate::serial_endpoint::{
    serial_role_name, ResolvedEndpointResource, ResolvedSerialEndpoint,
    SerialEndpointResourceOwnership, SerialEndpointResourceRole,
};
use crate::serial_lowering::{
    endpoint_init_local, endpoint_resource_type, spec_endpoint_init_local,
    spec_endpoint_resource_type, supported_endpoint_error, validate_supported_endpoint,
};
use crate::resolve::{
    string_views, ResolvedGpioResource, ResolvedImuEndpoint, ResolvedImuEndpointResource,
    ResolvedPeriodicControl, ResolvedResourceBinding, ResolvedSharedResource, ResolvedTask,
};
use crate::text::{
    concat2, concat3, decimal, grouped_decimal, push_decimal, push_grouped_decimal, str_eq,
    contains_str, strs,
};
use crate::timing::MonotonicDeclaration;

verus! {

/// One static resource declared by RTIC's `#[init(local = [...])]` attribute.
#[derive(Clone, Debug)]
pub struct RenderedInitLocal {
    /// Label of the generated section that declares it.
    pub section: String,
    /// Resource identifier.
    pub id: String,
    /// Rust type of the storage.
    pub rust_type: String,
    /// Rust expression that initializes the storage.
    pub initializer: String,
}

/// Text of an initialization-local declaration.
#[verifier::ext_equal]
pub struct InitLocalText {
    pub section: Seq<char>,
    pub id: Seq<char>,
    pub rust_type: Seq<char>,
    pub initializer: Seq<char>,
}

impl View for RenderedInitLocal {
    type V = InitLocalText;

    open spec fn view(&self) -> InitLocalText {
        InitLocalText {
            section: self.section@,
            id: self.id@,
            rust_type: self.rust_type@,
            initializer: self.initializer@,
        }
    }
}

/// Text of the lowered resource lists.
#[verifier::ext_equal]
pub struct LoweredLines {
    pub shared_fields: Seq<Seq<char>>,
    pub shared_values: Seq<Seq<char>>,
    pub local_fields: Seq<Seq<char>>,
    pub local_values: Seq<Seq<char>>,
    pub init_locals: Seq<InitLocalText>,
}

impl LoweredLines {
    /// No lines yet.
    pub open spec fn empty() -> Self {
        LoweredLines {
            shared_fields: Seq::empty(),
            shared_values: Seq::empty(),
            local_fields: Seq::empty(),
            local_values: Seq::empty(),
            init_locals: Seq::empty(),
        }
    }

    /// The lines with one more `Local` field and its value.
    pub open spec fn local(self, field: Seq<char>, value: Seq<char>) -> Self {
        LoweredLines {
            shared_fields: self.shared_fields,
            shared_values: self.shared_values,
            local_fields: self.local_fields.push(field),
            local_values: self.local_values.push(value),
            init_locals: self.init_locals,
        }
    }

    /// The lines with one more `Shared` field and its value.
    pub open spec fn shared(self, field: Seq<char>, value: Seq<char>) -> Self {
        LoweredLines {
            shared_fields: self.shared_fields.push(field),
            shared_values: self.shared_values.push(value),
            local_fields: self.local_fields,
            local_values: self.local_values,
            init_locals: self.init_locals,
        }
    }

    /// The lines with one more initialization-local declaration.
    pub open spec fn init_local(self, l: InitLocalText) -> Self {
        LoweredLines {
            shared_fields: self.shared_fields,
            shared_values: self.shared_values,
            local_fields: self.local_fields,
            local_values: self.local_values,
            init_locals: self.init_locals.push(l),
        }
    }

    /// The lines with a section comment opening both `Local` lists.
    pub open spec fn local_guard(self, label: Seq<char>) -> Self {
        self.local(guard_line(label), guard_line(label))
    }

    /// The lines with a section comment opening both `Shared` lists.
    pub open spec fn shared_guard(self, label: Seq<char>) -> Self {
        self.shared(guard_line(label), guard_line(label))
    }
}

/// Comment line that opens a generated section.
pub open spec fn guard_line(label: Seq<char>) -> Seq<char> {
    "// ===== "@ + label + " ====="@
}

/// Struct field declaration `id: type,`.
pub open spec fn field_line(id: Seq<char>, rust_type: Seq<char>) -> Seq<char> {
    id + ": "@ + rust_type + ","@
}

/// Accumulated lowering output: struct fields, `init` values, and
/// initialization-local storage, in generation order.
pub struct LoweredResources {
    pub shared_fields: Vec<String>,
    pub shared_values: Vec<String>,
    pub local_fields: Vec<String>,
    pub local_values: Vec<String>,
    pub init_locals: Vec<RenderedInitLocal>,
}

impl View for LoweredResources {
    type V = LoweredLines;

    open spec fn view(&self) -> LoweredLines {
        LoweredLines {
            shared_fields: string_views(self.shared_fields@),
            shared_values: string_views(self.shared_values@),
            local_fields: string_views(self.local_fields@),
            local_values: string_views(self.local_values@),
            init_locals: self.init_locals@.map_values(|l: RenderedInitLocal| l@),
        }
    }
}

pub(crate) fn section_guard_line(label: &str) -> (r: String)
    ensures
        r@ == guard_line(label@),
{
    concat3("// ===== ", label, " =====")
}

pub(crate) fn field(id: &str, rust_type: &str) -> (r: String)
    ensures
        r@ == field_line(id@, rust_type@),
{
    let mut line = concat3(id, ": ", rust_type);
    line.append(",");
    line
}

impl LoweredResources {
    /// Empty lowering output.
    pub fn new() -> (r: Self)
        ensures
            r@ == LoweredLines::empty(),
    {
        let r = LoweredResources {
            shared_fields: Vec::new(),
            shared_values: Vec::new(),
            local_fields: Vec::new(),
            local_values: Vec::new(),
            init_locals: Vec::new(),
        };
        proof {
            assert(r@ =~= LoweredLines::empty());
        }
        r
    }

    pub(crate) fn push_local(&mut self, field: String, value: String)
        ensures
            final(self)@ == old(self)@.local(field@, value@),
    {
        let ghost f = field@;
        let ghost v = value@;
        self.local_fields.push(field);
        self.local_values.push(value);
        proof {
            assert(string_views(self.local_fields@) =~= string_views(old(self).local_fields@).push(f));
            assert(string_views(self.local_values@) =~= string_views(old(self).local_values@).push(v));
            assert(self@ =~= old(self)@.local(f, v));
        }
    }

    pub(crate) fn push_shared(&mut self, field: String, value: String)
        ensures
            final(self)@ == old(self)@.shared(field@, value@),
    {
        let ghost f = field@;
        let ghost v = value@;
        self.shared_fields.push(field);
        self.shared_values.push(value);
        proof {
            assert(string_views(self.shared_fields@) =~= string_views(old(self).shared_fields@).push(f));
            assert(string_views(self.shared_values@) =~= string_views(old(self).shared_values@).push(v));
            assert(self@ =~= old(self)@.shared(f, v));
        }
    }

    pub(crate) fn push_init_local(&mut self, l: RenderedInitLocal)
        ensures
            final(self)@ == old(self)@.init_local(l@),
    {
        let ghost lv = l@;
        self.init_locals.push(l);
        proof {
            assert(self.init_locals@.map_values(|l: RenderedInitLocal| l@) =~= old(
                self,
            ).init_locals@.map_values(|l: RenderedInitLocal| l@).push(lv));
            assert(self@ =~= old(self)@.init_local(lv));
        }
    }

    pub(crate) fn push_local_guard(&mut self, label: &str)
        ensures
            final(self)@ == old(self)@.local_guard(label@),
    {
        let g = section_guard_line(label);
        let h = section_guard_line(label);
        self.push_local(g, h);
    }

    pub(crate) fn push_shared_guard(&mut self, label: &str)
        ensures
            final(self)@ == old(self)@.shared_guard(label@),
    {
        let g = section_guard_line(label);
        let h = section_guard_line(label);
        self.push_shared(g, h);
    }
}

// ---------------------------------------------------------------------------
// Timing preamble
// ---------------------------------------------------------------------------

/// Name of a timer peripheral as diagnostics print it.
pub open spec fn timer_debug_name(p: TimerPeripheral) -> Seq<char> {
    match p {
        TimerPeripheral::Tim2 => "Tim2"@,
        TimerPeripheral::Tim4 => "Tim4"@,
        TimerPeripheral::Tim5 => "Tim5"@,
        TimerPeripheral::Tim6 => "Tim6"@,
    }
}

pub(crate) fn timer_debug_str(p: TimerPeripheral) -> (r: &'static str)
    ensures
        r@ == timer_debug_name(p),
{
    match p {
        TimerPeripheral::Tim2 => "Tim2",
        TimerPeripheral::Tim4 => "Tim4",
        TimerPeripheral::Tim5 => "Tim5",
        TimerPeripheral::Tim6 => "Tim6",
    }
}

/// Monotonic macro invocation of the timing preamble, or the diagnostic for
/// a monotonic the backend cannot drive.
pub open spec fn monotonic_source(board: BoardDeclaration, monotonic: MonotonicDeclaration) -> Result<
    Seq<char>,
    Seq<char>,
> {
    match monotonic {
        MonotonicDeclaration::SysTick { tick_hz } => Ok(
            "systick_monotonic!(Mono, "@ + grouped_decimal(tick_hz as nat) + ");"@,
        ),
        MonotonicDeclaration::Timer { hardware_id, tick_hz } => match board_timer(
            board,
            hardware_id@,
        ) {
            None => Err("board timer `"@ + hardware_id@ + "` disappeared after validation"@),
            Some(t) => if t.peripheral == TimerPeripheral::Tim2 {
                Ok("stm32_tim2_monotonic!(Mono, "@ + grouped_decimal(tick_hz as nat) + ");"@)
            } else {
                Err(
                    "the STM32F4 renderer does not support "@ + timer_debug_name(t.peripheral)
                        + " as the RTIC monotonic"@,
                )
            },
        },
    }
}

/// Timing preamble: the system clock constant and the monotonic macro.
pub open spec fn timing_source(
    board: BoardDeclaration,
    system_clock_hz: u32,
    monotonic: MonotonicDeclaration,
) -> Result<Seq<char>, Seq<char>> {
    match monotonic_source(board, monotonic) {
        Ok(m) => Ok(
            "const SYSTEM_CLOCK_HZ: u32 = "@ + grouped_decimal(system_clock_hz as nat) + ";\n\n"@
                + m,
        ),
        Err(e) => Err(e),
    }
}

/// Renders the timing preamble of the generated application: the system
/// clock constant and the RTIC monotonic, on SysTick or on board timer TIM2.
pub fn render_timing(
    board: &BoardDeclaration,
    system_clock_hz: u32,
    monotonic: MonotonicDeclaration,
) -> (r: Result<String, String>)
    ensures
        match (r, timing_source(*board, system_clock_hz, monotonic)) {
            (Ok(s), Ok(t)) => s@ == t,
            (Err(e), Err(t)) => e@ == t,
            _ => false,
        },
{
    let mut out = String::from_str("const SYSTEM_CLOCK_HZ: u32 = ");
    push_grouped_decimal(&mut out, system_clock_hz);
    out.append(";\n\n");
    let tick_hz = match monotonic {
        MonotonicDeclaration::SysTick { tick_hz } => {
            out.append("systick_monotonic!(Mono, ");
            tick_hz
        },
        MonotonicDeclaration::Timer { hardware_id, tick_hz } => {
            match timer_peripheral(board, hardware_id) {
                Err(e) => {
                    return Err(e);
                },
                Ok(TimerPeripheral::Tim2) => {
                    out.append("stm32_tim2_monotonic!(Mono, ");
                },
                Ok(unsupported) => {
                    let e = concat3(
                        "the STM32F4 renderer does not support ",
                        timer_debug_str(unsupported),
                        " as the RTIC monotonic",
                    );
                    return Err(e);
                },
            }
            tick_hz
        },
    };
    push_grouped_decimal(&mut out, tick_hz);
    out.append(");");
    Ok(out)
}

// ---------------------------------------------------------------------------
// Periodic controls
// ---------------------------------------------------------------------------

/// Rust type of a periodic-control resource on a timer.
pub open spec fn control_resource_type(p: TimerPeripheral, role: PeriodicControlResourceRole) -> Seq<
    char,
> {
    match role {
        PeriodicControlResourceRole::Scheduler => spec_periodic_control_scheduler_type(p),
        PeriodicControlResourceRole::Phase => "u32"@,
    }
}

/// Lines of the resources of one periodic control, appended to `v`.
pub open spec fn lower_control_resources(
    v: LoweredLines,
    p: TimerPeripheral,
    rs: Seq<crate::resolve::ResolvedPeriodicControlResource>,
) -> LoweredLines
    decreases rs.len(),
{
    if rs.len() == 0 {
        v
    } else {
        let r = rs.last();
        lower_control_resources(v, p, rs.drop_last()).local(
            field_line(r.id@, control_resource_type(p, r.role)),
            r.id@,
        )
    }
}

/// Section label of a periodic control.
pub open spec fn control_label(c: ResolvedPeriodicControl) -> Seq<char> {
    "Periodic control `"@ + c.declaration.id@ + "` task-local resources"@
}

/// Lines of periodic controls, appended to `v`: per control a `Local`
/// section and one field per resource.
pub open spec fn lower_controls(v: LoweredLines, cs: Seq<ResolvedPeriodicControl>) -> LoweredLines
    decreases cs.len(),
{
    if cs.len() == 0 {
        v
    } else {
        let c = cs.last();
        lower_control_resources(
            lower_controls(v, cs.drop_last()).local_guard(control_label(c)),
            c.hardware.peripheral,
            c.resources@,
        )
    }
}

impl LoweredResources {
    /// Appends the task-local scheduler and phase resources of each periodic
    /// control.
    pub fn lower_periodic_controls(&mut self, controls: &Vec<ResolvedPeriodicControl>)
        ensures
            final(self)@ == lower_controls(old(self)@, controls@),
    {
        let ghost start = self@;
        let mut i: usize = 0;
        while i < controls.len()
            invariant
                i <= controls.len(),
                self@ == lower_controls(start, controls@.take(i as int)),
            decreases controls.len() - i,
        {
            let control = &controls[i];
            let label = concat3("Periodic control `", control.declaration.id, "` task-local resources");
            self.push_local_guard(label.as_str());
            let ghost mid = self@;
            let peripheral = control.hardware.peripheral;
            let mut j: usize = 0;
            while j < control.resources.len()
                invariant
                    j <= control.resources.len(),
                    self@ == lower_control_resources(mid, peripheral, control.resources@.take(j as int)),
                decreases control.resources.len() - j,
            {
                let resource = &control.resources[j];
                let rust_type = match resource.role {
                    PeriodicControlResourceRole::Scheduler => periodic_control_scheduler_type(peripheral),
                    PeriodicControlResourceRole::Phase => String::from_str("u32"),
                };
                let line = field(resource.id.as_str(), rust_type.as_str());
                self.push_local(line, resource.id.clone());
                proof {
                    assert(control.resources@.take(j + 1).drop_last() =~= control.resources@.take(j as int));
                }
                j += 1;
            }
            proof {
                assert(control.resources@.take(j as int) =~= control.resources@);
                assert(controls@.take(i + 1).drop_last() =~= controls@.take(i as int));
            }
            i += 1;
        }
        proof {
            assert(controls@.take(i as int) =~= controls@);
        }
    }
}

// ---------------------------------------------------------------------------
// Board GPIOs
// ---------------------------------------------------------------------------

/// Diagnostic for a port the STM32F405 lacks.
pub open spec fn port_letter_error(port: GpioPort) -> Seq<char> {
    "STM32F405 lowering does not support GPIO"@ + (if port == GpioPort::J {
        "J"@
    } else {
        "K"@
    })
}

/// HAL pin type of a board GPIO on the port with the given letter.
pub open spec fn gpio_pin_type(g: crate::gpio::GpioHardwareDeclaration, letter: char) -> Seq<char> {
    "Pin<'"@ + seq![letter] + "', "@ + decimal(g.pin.pin as nat) + (match g.mode {
        GpioMode::Input { .. } => ", Input>"@,
        GpioMode::Output { .. } => ", Output<PushPull>>"@,
    })
}

/// Section label of a board GPIO owned by a task.
pub open spec fn gpio_label(r: ResolvedGpioResource) -> Seq<char> {
    "Task `"@ + r.owner_task@ + "` board GPIO resources"@
}

/// Lines of task-owned board GPIOs, appended to `v`: per GPIO a `Local`
/// section and its pin field; the diagnostic of the first GPIO on a port
/// the STM32F405 lacks.
pub open spec fn lower_gpio(v: LoweredLines, rs: Seq<ResolvedGpioResource>) -> Result<
    LoweredLines,
    Seq<char>,
>
    decreases rs.len(),
{
    if rs.len() == 0 {
        Ok(v)
    } else {
        match lower_gpio(v, rs.drop_last()) {
            Err(e) => Err(e),
            Ok(w) => {
                let r = rs.last();
                match spec_port_letter(r.hardware.pin.port) {
                    None => Err(port_letter_error(r.hardware.pin.port)),
                    Some(c) => Ok(
                        w.local_guard(gpio_label(r)).local(
                            field_line(r.hardware.id@, gpio_pin_type(r.hardware, c)),
                            r.hardware.id@,
                        ),
                    ),
                }
            },
        }
    }
}

pub(crate) fn port_letter_str(port: GpioPort) -> (r: Option<&'static str>)
    ensures
        match (r, spec_port_letter(port)) {
            (Some(s), Some(c)) => s@ == seq![c],
            (None, None) => true,
            _ => false,
        },
{
    let r = match port {
        GpioPort::A => Some("A"),
        GpioPort::B => Some("B"),
        GpioPort::C => Some("C"),
        GpioPort::D => Some("D"),
        GpioPort::E => Some("E"),
        GpioPort::F => Some("F"),
        GpioPort::G => Some("G"),
        GpioPort::H => Some("H"),
        GpioPort::I => Some("I"),
        GpioPort::J => None,
        GpioPort::K => None,
    };
    proof {
        reveal_strlit("A");
        reveal_strlit("B");
        reveal_strlit("C");
        reveal_strlit("D");
        reveal_strlit("E");
        reveal_strlit("F");
        reveal_strlit("G");
        reveal_strlit("H");
        reveal_strlit("I");
    }
    r
}

fn gpio_pin_type_string(g: &crate::gpio::GpioHardwareDeclaration, letter: &str) -> (r: String)
    requires
        letter@.len() == 1,
    ensures
        r@ == gpio_pin_type(*g, letter@[0]),
{
    let mut out = concat3("Pin<'", letter, "', ");
    push_decimal(&mut out, g.pin.pin as u32);
    match g.mode {
        GpioMode::Input { .. } => out.append(", Input>"),
        GpioMode::Output { .. } => out.append(", Output<PushPull>>"),
    }
    proof {
        assert(seq![letter@[0]] =~= letter@);
    }
    out
}

impl LoweredResources {
    /// Appends the task-local board GPIO fields, each in its owner's section.
    pub fn lower_gpio_resources(&mut self, gpio: &Vec<ResolvedGpioResource>) -> (r: Result<(), String>)
        ensures
            match (r, lower_gpio(old(self)@, gpio@)) {
                (Ok(()), Ok(w)) => final(self)@ == w,
                (Err(e), Err(t)) => e@ == t,
                _ => false,
            },
    {
        let ghost start = self@;
        let mut i: usize = 0;
        while i < gpio.len()
            invariant
                i <= gpio.len(),
                start == old(self)@,
                lower_gpio(start, gpio@.take(i as int)) == Ok::<LoweredLines, Seq<char>>(self@),
            decreases gpio.len() - i,
        {
            let resource = &gpio[i];
            proof {
                assert(gpio@.take(i + 1).drop_last() =~= gpio@.take(i as int));
            }
            let label = concat3("Task `", resource.owner_task, "` board GPIO resources");
            let port = resource.hardware.pin.port;
            match port_letter_str(port) {
                None => {
                    let mut e = String::from_str("STM32F405 lowering does not support GPIO");
                    if port == GpioPort::J {
                        e.append("J");
                    } else {
                        e.append("K");
                    }
                    proof {
                        assert(gpio@.take(i + 1) =~= gpio@.take(i as int).push(*resource));
                        lemma_lower_gpio_error_stays(start, gpio@, i as int + 1);
                    }
                    return Err(e);
                },
                Some(letter) => {
                    self.push_local_guard(label.as_str());
                    let rust_type = gpio_pin_type_string(&resource.hardware, letter);
                    let line = field(resource.hardware.id, rust_type.as_str());
                    self.push_local(line, String::from_str(resource.hardware.id));
                },
            }
            i += 1;
        }
        proof {
            assert(gpio@.take(i as int) =~= gpio@);
        }
        Ok(())
    }
}

/// Once lowering a prefix of the GPIOs fails, lowering all of them fails
/// with the same diagnostic.
proof fn lemma_lower_gpio_error_stays(v: LoweredLines, rs: Seq<ResolvedGpioResource>, n: int)
    requires
        0 <= n <= rs.len(),
        lower_gpio(v, rs.take(n)) is Err,
    ensures
        lower_gpio(v, rs) == lower_gpio(v, rs.take(n)),
    decreases rs.len() - n,
{
    if n < rs.len() {
        assert(rs.take(n + 1).drop_last() =~= rs.take(n));
        lemma_lower_gpio_error_stays(v, rs, n + 1);
    } else {
        assert(rs.take(n) =~= rs);
    }
}

// ---------------------------------------------------------------------------
// SPI IMU endpoints
// ---------------------------------------------------------------------------

/// Section label of an IMU endpoint.
pub open spec fn imu_label(e: ResolvedImuEndpoint) -> Seq<char> {
    "SPI endpoint `"@ + e.declaration.id@ + "` resources"@
}

/// Some resource of the endpoint has the ownership class.
pub open spec fn imu_has_ownership(
    rs: Seq<ResolvedImuEndpointResource>,
    o: ImuEndpointResourceOwnership,
) -> bool {
    exists|i: int| 0 <= i < rs.len() && #[trigger] rs[i].ownership == o
}

/// Diagnostic for an IMU endpoint whose wiring the backend does not support.
pub open spec fn imu_wiring_error(e: ResolvedImuEndpoint) -> Seq<char> {
    if !supported_spi_route(e) {
        "IMU endpoint `"@ + e.declaration.id@
            + "` uses an unsupported SPI route; expected Foxeer SPI1 PA5/PA6/PA7 with DMA2 streams 0/3 channel 3"@
    } else {
        "IMU endpoint `"@ + e.declaration.id@ + "` must use Foxeer CS PA4 and DRDY PC4 rising"@
    }
}

/// Lines of one IMU endpoint resource in a section: its initialization-local
/// storage, `Local` field or `Shared` field.
pub open spec fn imu_resource_step(
    v: LoweredLines,
    section: Seq<char>,
    r: ResolvedImuEndpointResource,
) -> Result<LoweredLines, Seq<char>> {
    match r.ownership {
        ImuEndpointResourceOwnership::InitLocal => if is_init_local_role(r.role) {
            Ok(
                v.init_local(
                    InitLocalText {
                        section,
                        id: r.id@,
                        rust_type: spec_imu_init_local(r.role).0,
                        initializer: spec_imu_init_local(r.role).1,
                    },
                ),
            )
        } else {
            Err("IMU endpoint role "@ + imu_role_name(r.role) + " cannot be initialization-local"@)
        },
        ImuEndpointResourceOwnership::Local => if is_init_local_role(r.role) {
            Err("IMU endpoint role "@ + imu_role_name(r.role) + " cannot be an RTIC field"@)
        } else {
            Ok(v.local(field_line(r.id@, spec_imu_resource_type(r.role)), r.id@))
        },
        ImuEndpointResourceOwnership::Shared => if is_init_local_role(r.role) {
            Err("IMU endpoint role "@ + imu_role_name(r.role) + " cannot be an RTIC field"@)
        } else {
            Ok(v.shared(field_line(r.id@, spec_imu_resource_type(r.role)), r.id@))
        },
    }
}

/// Lines of the resources of one IMU endpoint, in order.
pub open spec fn lower_imu_resources(
    v: LoweredLines,
    section: Seq<char>,
    rs: Seq<ResolvedImuEndpointResource>,
) -> Result<LoweredLines, Seq<char>>
    decreases rs.len(),
{
    if rs.len() == 0 {
        Ok(v)
    } else {
        match lower_imu_resources(v, section, rs.drop_last()) {
            Err(e) => Err(e),
            Ok(w) => imu_resource_step(w, section, rs.last()),
        }
    }
}

/// Lines of one IMU endpoint: the wiring check, a `Local` and a `Shared`
/// section where resources of that class exist, then its resources.
pub open spec fn lower_imu_endpoint(v: LoweredLines, e: ResolvedImuEndpoint) -> Result<
    LoweredLines,
    Seq<char>,
> {
    if !(supported_spi_route(e) && supported_imu_pins(e)) {
        Err(imu_wiring_error(e))
    } else {
        let label = imu_label(e);
        let v1 = if imu_has_ownership(e.resources@, ImuEndpointResourceOwnership::Local) {
            v.local_guard(label)
        } else {
            v
        };
        let v2 = if imu_has_ownership(e.resources@, ImuEndpointResourceOwnership::Shared) {
            v1.shared_guard(label)
        } else {
            v1
        };
        lower_imu_resources(v2, label, e.resources@)
    }
}

/// Lines of IMU endpoints, appended to `v` in order; the first diagnostic.
pub open spec fn lower_imus(v: LoweredLines, es: Seq<ResolvedImuEndpoint>) -> Result<
    LoweredLines,
    Seq<char>,
>
    decreases es.len(),
{
    if es.len() == 0 {
        Ok(v)
    } else {
        match lower_imus(v, es.drop_last()) {
            Err(e) => Err(e),
            Ok(w) => lower_imu_endpoint(w, es.last()),
        }
    }
}

proof fn lemma_imu_resources_error_stays(
    v: LoweredLines,
    section: Seq<char>,
    rs: Seq<ResolvedImuEndpointResource>,
    n: int,
)
    requires
        0 <= n <= rs.len(),
        lower_imu_resources(v, section, rs.take(n)) is Err,
    ensures
        lower_imu_resources(v, section, rs) == lower_imu_resources(v, section, rs.take(n)),
    decreases rs.len() - n,
{
    if n < rs.len() {
        assert(rs.take(n + 1).drop_last() =~= rs.take(n));
        lemma_imu_resources_error_stays(v, section, rs, n + 1);
    } else {
        assert(rs.take(n) =~= rs);
    }
}

proof fn lemma_imus_error_stays(v: LoweredLines, es: Seq<ResolvedImuEndpoint>, n: int)
    requires
        0 <= n <= es.len(),
        lower_imus(v, es.take(n)) is Err,
    ensures
        lower_imus(v, es) == lower_imus(v, es.take(n)),
    decreases es.len() - n,
{
    if n < es.len() {
        assert(es.take(n + 1).drop_last() =~= es.take(n));
        lemma_imus_error_stays(v, es, n + 1);
    } else {
        assert(es.take(n) =~= es);
    }
}

fn imu_has_ownership_exec(
    rs: &Vec<ResolvedImuEndpointResource>,
    o: ImuEndpointResourceOwnership,
) -> (r: bool)
    ensures
        r == imu_has_ownership(rs@, o),
{
    let mut i: usize = 0;
    while i < rs.len()
        invariant
            i <= rs.len(),
            forall|k: int| 0 <= k < i ==> #[trigger] rs@[k].ownership != o,
        decreases rs.len() - i,
    {
        if rs[i].ownership == o {
            return true;
        }
        i += 1;
    }
    false
}

impl LoweredResources {
    fn lower_one_imu_endpoint(&mut self, endpoint: &ResolvedImuEndpoint) -> (r: Result<(), String>)
        ensures
            match (r, lower_imu_endpoint(old(self)@, *endpoint)) {
                (Ok(()), Ok(w)) => final(self)@ == w,
                (Err(e), Err(t)) => e@ == t,
                _ => false,
            },
    {
        validate_supported_imu_endpoint(endpoint)?;
        let label = concat3("SPI endpoint `", endpoint.declaration.id, "` resources");
        if imu_has_ownership_exec(&endpoint.resources, ImuEndpointResourceOwnership::Local) {
            self.push_local_guard(label.as_str());
        }
        if imu_has_ownership_exec(&endpoint.resources, ImuEndpointResourceOwnership::Shared) {
            self.push_shared_guard(label.as_str());
        }
        let ghost mid = self@;
        let mut j: usize = 0;
        while j < endpoint.resources.len()
            invariant
                j <= endpoint.resources.len(),
                label@ == imu_label(*endpoint),
                lower_imu_endpoint(old(self)@, *endpoint) == lower_imu_resources(
                    mid,
                    label@,
                    endpoint.resources@,
                ),
                lower_imu_resources(mid, label@, endpoint.resources@.take(j as int)) == Ok::<
                    LoweredLines,
                    Seq<char>,
                >(self@),
            decreases endpoint.resources.len() - j,
        {
            let resource = &endpoint.resources[j];
            proof {
                assert(endpoint.resources@.take(j + 1).drop_last() =~= endpoint.resources@.take(
                    j as int,
                ));
            }
            let step: Result<(), String> = match resource.ownership {
                ImuEndpointResourceOwnership::InitLocal => match imu_init_local(resource.role) {
                    Ok((rust_type, initializer)) => {
                        self.push_init_local(
                            RenderedInitLocal {
                                section: label.clone(),
                                id: resource.id.clone(),
                                rust_type: String::from_str(rust_type),
                                initializer: String::from_str(initializer),
                            },
                        );
                        Ok(())
                    },
                    Err(e) => Err(e),
                },
                ImuEndpointResourceOwnership::Local => match imu_resource_type(resource.role) {
                    Ok(rust_type) => {
                        let line = field(resource.id.as_str(), rust_type);
                        self.push_local(line, resource.id.clone());
                        Ok(())
                    },
                    Err(e) => Err(e),
                },
                ImuEndpointResourceOwnership::Shared => match imu_resource_type(resource.role) {
                    Ok(rust_type) => {
                        let line = field(resource.id.as_str(), rust_type);
                        self.push_shared(line, resource.id.clone());
                        Ok(())
                    },
                    Err(e) => Err(e),
                },
            };
            if let Err(e) = step {
                proof {
                    lemma_imu_resources_error_stays(mid, label@, endpoint.resources@, j + 1);
                }
                return Err(e);
            }
            j += 1;
        }
        proof {
            assert(endpoint.resources@.take(j as int) =~= endpoint.resources@);
        }
        Ok(())
    }

    /// Appends the resources of each SPI IMU endpoint, after checking that
    /// its wiring is the one the backend supports.
    pub fn lower_imu_endpoints(&mut self, endpoints: &Vec<ResolvedImuEndpoint>) -> (r: Result<
        (),
        String,
    >)
        ensures
            match (r, lower_imus(old(self)@, endpoints@)) {
                (Ok(()), Ok(w)) => final(self)@ == w,
                (Err(e), Err(t)) => e@ == t,
                _ => false,
            },
    {
        let ghost start = self@;
        let mut i: usize = 0;
        while i < endpoints.len()
            invariant
                i <= endpoints.len(),
                start == old(self)@,
                lower_imus(start, endpoints@.take(i as int)) == Ok::<LoweredLines, Seq<char>>(self@),
            decreases endpoints.len() - i,
        {
            proof {
                assert(endpoints@.take(i + 1).drop_last() =~= endpoints@.take(i as int));
            }
            if let Err(e) = self.lower_one_imu_endpoint(&endpoints[i]) {
                proof {
                    lemma_imus_error_stays(start, endpoints@, i + 1);
                }
                return Err(e);
            }
            i += 1;
        }
        proof {
            assert(endpoints@.take(i as int) =~= endpoints@);
        }
        Ok(())
    }
}

// ---------------------------------------------------------------------------
// Serial endpoints
// ---------------------------------------------------------------------------

/// Section label of a serial endpoint.
pub open spec fn serial_label(e: ResolvedSerialEndpoint) -> Seq<char> {
    "Serial endpoint `"@ + e.declaration.id@ + "` resources"@
}

/// Some resource of the endpoint has the ownership class.
pub open spec fn serial_has_ownership(
    rs: Seq<ResolvedEndpointResource>,
    o: SerialEndpointResourceOwnership,
) -> bool {
    exists|i: int| 0 <= i < rs.len() && #[trigger] rs[i].ownership == o
}

/// Task-local roles handed out through the boot-routed service instead of
/// a field of their own.
pub open spec fn routed_local_role(role: SerialEndpointResourceRole) -> bool {
    role == SerialEndpointResourceRole::RxReader || role
        == SerialEndpointResourceRole::RxDiscontinuities || role
        == SerialEndpointResourceRole::TxWriter
}

/// Lines of one serial endpoint resource in a section: its
/// initialization-local storage, `Local` field or `Shared` field.
pub open spec fn serial_resource_step(
    v: LoweredLines,
    section: Seq<char>,
    p: SerialPeripheral,
    r: ResolvedEndpointResource,
) -> Result<LoweredLines, Seq<char>> {
    match r.ownership {
        SerialEndpointResourceOwnership::InitLocal => match spec_endpoint_init_local(r.role) {
            Some((t, i)) => Ok(
                v.init_local(InitLocalText { section, id: r.id@, rust_type: t, initializer: i }),
            ),
            None => Err(
                "endpoint role "@ + serial_role_name(r.role) + " cannot be initialization-local"@,
            ),
        },
        SerialEndpointResourceOwnership::Local => if routed_local_role(r.role) {
            Ok(v)
        } else {
            match spec_endpoint_resource_type(p, r.role) {
                Ok(t) => Ok(v.local(field_line(r.id@, t), r.id@)),
                Err(e) => Err(e),
            }
        },
        SerialEndpointResourceOwnership::Shared => match spec_endpoint_resource_type(p, r.role) {
            Ok(t) => Ok(v.shared(field_line(r.id@, t), r.id@)),
            Err(e) => Err(e),
        },
    }
}

/// Lines of the resources of one serial endpoint, in order.
pub open spec fn lower_serial_resources(
    v: LoweredLines,
    section: Seq<char>,
    p: SerialPeripheral,
    rs: Seq<ResolvedEndpointResource>,
) -> Result<LoweredLines, Seq<char>>
    decreases rs.len(),
{
    if rs.len() == 0 {
        Ok(v)
    } else {
        match lower_serial_resources(v, section, p, rs.drop_last()) {
            Err(e) => Err(e),
            Ok(w) => serial_resource_step(w, section, p, rs.last()),
        }
    }
}

/// Lines of one serial endpoint: the route check, a `Local` and a `Shared`
/// section where resources of that class exist, then its resources.
pub open spec fn lower_serial_endpoint(v: LoweredLines, e: ResolvedSerialEndpoint) -> Result<
    LoweredLines,
    Seq<char>,
> {
    match supported_endpoint_error(e) {
        Some(err) => Err(err),
        None => {
            let label = serial_label(e);
            let v1 = if serial_has_ownership(e.resources@, SerialEndpointResourceOwnership::Local) {
                v.local_guard(label)
            } else {
                v
            };
            let v2 = if serial_has_ownership(
                e.resources@,
                SerialEndpointResourceOwnership::Shared,
            ) {
                v1.shared_guard(label)
            } else {
                v1
            };
            lower_serial_resources(v2, label, e.hardware.port.peripheral, e.resources@)
        },
    }
}

/// Lines of serial endpoints, appended to `v` in order; the first diagnostic.
pub open spec fn lower_serials(v: LoweredLines, es: Seq<ResolvedSerialEndpoint>) -> Result<
    LoweredLines,
    Seq<char>,
>
    decreases es.len(),
{
    if es.len() == 0 {
        Ok(v)
    } else {
        match lower_serials(v, es.drop_last()) {
            Err(e) => Err(e),
            Ok(w) => lower_serial_endpoint(w, es.last()),
        }
    }
}

proof fn lemma_serial_resources_error_stays(
    v: LoweredLines,
    section: Seq<char>,
    p: SerialPeripheral,
    rs: Seq<ResolvedEndpointResource>,
    n: int,
)
    requires
        0 <= n <= rs.len(),
        lower_serial_resources(v, section, p, rs.take(n)) is Err,
    ensures
        lower_serial_resources(v, section, p, rs) == lower_serial_resources(v, section, p, rs.take(n)),
    decreases rs.len() - n,
{
    if n < rs.len() {
        assert(rs.take(n + 1).drop_last() =~= rs.take(n));
        lemma_serial_resources_error_stays(v, section, p, rs, n + 1);
    } else {
        assert(rs.take(n) =~= rs);
    }
}

proof fn lemma_serials_error_stays(v: LoweredLines, es: Seq<ResolvedSerialEndpoint>, n: int)
    requires
        0 <= n <= es.len(),
        lower_serials(v, es.take(n)) is Err,
    ensures
        lower_serials(v, es) == lower_serials(v, es.take(n)),
    decreases es.len() - n,
{
    if n < es.len() {
        assert(es.take(n + 1).drop_last() =~= es.take(n));
        lemma_serials_error_stays(v, es, n + 1);
    } else {
        assert(es.take(n) =~= es);
    }
}

fn serial_has_ownership_exec(
    rs: &Vec<ResolvedEndpointResource>,
    o: SerialEndpointResourceOwnership,
) -> (r: bool)
    ensures
        r == serial_has_ownership(rs@, o),
{
    let mut i: usize = 0;
    while i < rs.len()
        invariant
            i <= rs.len(),
            forall|k: int| 0 <= k < i ==> #[trigger] rs@[k].ownership != o,
        decreases rs.len() - i,
    {
        if rs[i].ownership == o {
            return true;
        }
        i += 1;
    }
    false
}

impl LoweredResources {
    fn lower_one_serial_endpoint(&mut self, endpoint: &ResolvedSerialEndpoint) -> (r: Result<
        (),
        String,
    >)
        ensures
            match (r, lower_serial_endpoint(old(self)@, *endpoint)) {
                (Ok(()), Ok(w)) => final(self)@ == w,
                (Err(e), Err(t)) => e@ == t,
                _ => false,
            },
    {
        validate_supported_endpoint(endpoint)?;
        let label = concat3("Serial endpoint `", endpoint.declaration.id, "` resources");
        if serial_has_ownership_exec(&endpoint.resources, SerialEndpointResourceOwnership::Local) {
            self.push_local_guard(label.as_str());
        }
        if serial_has_ownership_exec(&endpoint.resources, SerialEndpointResourceOwnership::Shared) {
            self.push_shared_guard(label.as_str());
        }
        let ghost mid = self@;
        let ghost p = endpoint.hardware.port.peripheral;
        let mut j: usize = 0;
        while j < endpoint.resources.len()
            invariant
                j <= endpoint.resources.len(),
                label@ == serial_label(*endpoint),
                p == endpoint.hardware.port.peripheral,
                lower_serial_endpoint(old(self)@, *endpoint) == lower_serial_resources(
                    mid,
                    label@,
                    p,
                    endpoint.resources@,
                ),
                lower_serial_resources(mid, label@, p, endpoint.resources@.take(j as int)) == Ok::<
                    LoweredLines,
                    Seq<char>,
                >(self@),
            decreases endpoint.resources.len() - j,
        {
            let resource = &endpoint.resources[j];
            proof {
                assert(endpoint.resources@.take(j + 1).drop_last() =~= endpoint.resources@.take(
                    j as int,
                ));
            }
            let step: Result<(), String> = match resource.ownership {
                SerialEndpointResourceOwnership::InitLocal => match endpoint_init_local(
                    resource.role,
                ) {
                    Ok((rust_type, initializer)) => {
                        self.push_init_local(
                            RenderedInitLocal {
                                section: label.clone(),
                                id: resource.id.clone(),
                                rust_type: String::from_str(rust_type),
                                initializer: String::from_str(initializer),
                            },
                        );
                        Ok(())
                    },
                    Err(e) => Err(e),
                },
                SerialEndpointResourceOwnership::Local => {
                    if resource.role == SerialEndpointResourceRole::RxReader || resource.role
                        == SerialEndpointResourceRole::RxDiscontinuities || resource.role
                        == SerialEndpointResourceRole::TxWriter {
                        Ok(())
                    } else {
                        match endpoint_resource_type(endpoint, resource.role) {
                            Ok(rust_type) => {
                                let line = field(resource.id.as_str(), rust_type);
                                self.push_local(line, resource.id.clone());
                                Ok(())
                            },
                            Err(e) => Err(e),
                        }
                    }
                },
                SerialEndpointResourceOwnership::Shared => match endpoint_resource_type(
                    endpoint,
                    resource.role,
                ) {
                    Ok(rust_type) => {
                        let line = field(resource.id.as_str(), rust_type);
                        self.push_shared(line, resource.id.clone());
                        Ok(())
                    },
                    Err(e) => Err(e),
                },
            };
            if let Err(e) = step {
                proof {
                    lemma_serial_resources_error_stays(mid, label@, p, endpoint.resources@, j + 1);
                }
                return Err(e);
            }
            j += 1;
        }
        proof {
            assert(endpoint.resources@.take(j as int) =~= endpoint.resources@);
        }
        Ok(())
    }

    /// Appends the resources of each DMA-backed serial endpoint, after
    /// checking that it uses routes the backend supports.  Readers,
    /// discontinuity counters and writers owned by a task are handed out
    /// through the boot-routed serial services and get no field here.
    pub fn lower_serial_endpoints(&mut self, endpoints: &Vec<ResolvedSerialEndpoint>) -> (r: Result<
        (),
        String,
    >)
        ensures
            match (r, lower_serials(old(self)@, endpoints@)) {
                (Ok(()), Ok(w)) => final(self)@ == w,
                (Err(e), Err(t)) => e@ == t,
                _ => false,
            },
    {
        let ghost start = self@;
        let mut i: usize = 0;
        while i < endpoints.len()
            invariant
                i <= endpoints.len(),
                start == old(self)@,
                lower_serials(start, endpoints@.take(i as int)) == Ok::<LoweredLines, Seq<char>>(
                    self@,
                ),
            decreases endpoints.len() - i,
        {
            proof {
                assert(endpoints@.take(i + 1).drop_last() =~= endpoints@.take(i as int));
            }
            if let Err(e) = self.lower_one_serial_endpoint(&endpoints[i]) {
                proof {
                    lemma_serials_error_stays(start, endpoints@, i + 1);
                }
                return Err(e);
            }
            i += 1;
        }
        proof {
            assert(endpoints@.take(i as int) =~= endpoints@);
        }
        Ok(())
    }
}

// ---------------------------------------------------------------------------
// Application shared resources
// ---------------------------------------------------------------------------

/// Some binding of the list targets the resource `id`.
pub open spec fn binds_target(bs: Seq<ResolvedResourceBinding>, id: Seq<char>) -> bool {
    exists|k: int| 0 <= k < bs.len() && #[trigger] bs[k].target@ == id
}

/// The task binds the resource `id`, locally or shared.
pub open spec fn task_consumes(t: ResolvedTask, id: Seq<char>) -> bool {
    binds_target(t.local@, id) || binds_target(t.shared@, id)
}

/// Identifiers of the tasks that bind the resource `id`, in task order.
pub open spec fn consumer_ids(ts: Seq<ResolvedTask>, id: Seq<char>) -> Seq<Seq<char>>
    decreases ts.len(),
{
    if ts.len() == 0 {
        Seq::empty()
    } else if task_consumes(ts.last(), id) {
        consumer_ids(ts.drop_last(), id).push(ts.last().id@)
    } else {
        consumer_ids(ts.drop_last(), id)
    }
}

/// Items separated by `, `.
pub open spec fn join_comma(s: Seq<Seq<char>>) -> Seq<char>
    decreases s.len(),
{
    if s.len() == 0 {
        Seq::empty()
    } else if s.len() == 1 {
        s[0]
    } else {
        join_comma(s.drop_last()) + ", "@ + s.last()
    }
}

/// Section label of an application shared resource, naming its consumers.
pub open spec fn shared_label(r: ResolvedSharedResource, ts: Seq<ResolvedTask>) -> Seq<char> {
    "Application resource `"@ + r.id@ + "`; tasks: "@ + join_comma(consumer_ids(ts, r.id@))
}

/// Rust literal of a shared resource's initial value.
pub open spec fn shared_initial_text(v: SharedValue) -> Seq<char> {
    match v {
        SharedValue::Bool(b) => if b {
            "true"@
        } else {
            "false"@
        },
        SharedValue::U32(n) => grouped_decimal(n as nat),
    }
}

/// Lines of application shared resources, appended to `v`: per resource a
/// `Shared` section naming the tasks that bind it, its field, and its
/// initial value.
pub open spec fn lower_shared(
    v: LoweredLines,
    rs: Seq<ResolvedSharedResource>,
    ts: Seq<ResolvedTask>,
) -> LoweredLines
    decreases rs.len(),
{
    if rs.len() == 0 {
        v
    } else {
        let r = rs.last();
        lower_shared(v, rs.drop_last(), ts).shared_guard(shared_label(r, ts)).shared(
            field_line(r.id@, spec_shared_rust_type(r.initial)),
            r.id@ + ": "@ + shared_initial_text(r.initial),
        )
    }
}

fn binds_target_exec(bs: &Vec<ResolvedResourceBinding>, id: &str) -> (r: bool)
    ensures
        r == binds_target(bs@, id@),
{
    let mut k: usize = 0;
    while k < bs.len()
        invariant
            k <= bs.len(),
            forall|j: int| 0 <= j < k ==> #[trigger] bs@[j].target@ != id@,
        decreases bs.len() - k,
    {
        if str_eq(bs[k].target.as_str(), id) {
            return true;
        }
        k += 1;
    }
    false
}

fn consumer_list(tasks: &Vec<ResolvedTask>, id: &str) -> (r: String)
    ensures
        r@ == join_comma(consumer_ids(tasks@, id@)),
{
    let mut out = String::new();
    let mut none_yet = true;
    let mut i: usize = 0;
    while i < tasks.len()
        invariant
            i <= tasks.len(),
            none_yet == (consumer_ids(tasks@.take(i as int), id@).len() == 0),
            out@ == join_comma(consumer_ids(tasks@.take(i as int), id@)),
        decreases tasks.len() - i,
    {
        let task = &tasks[i];
        let ghost before = consumer_ids(tasks@.take(i as int), id@);
        proof {
            assert(tasks@.take(i + 1).drop_last() =~= tasks@.take(i as int));
        }
        if binds_target_exec(&task.local, id) || binds_target_exec(&task.shared, id) {
            if !none_yet {
                out.append(", ");
            }
            out.append(task.id.as_str());
            none_yet = false;
            proof {
                let after = before.push(task.id@);
                assert(after.drop_last() =~= before);
                if before.len() == 0 {
                    assert(join_comma(after) == after[0]);
                }
            }
        }
        i += 1;
    }
    proof {
        assert(tasks@.take(i as int) =~= tasks@);
    }
    out
}

impl LoweredResources {
    /// Appends each application shared resource: a section naming the tasks
    /// that bind it, its `Shared` field and its initial value.
    pub fn lower_shared_resources(
        &mut self,
        shared: &Vec<ResolvedSharedResource>,
        tasks: &Vec<ResolvedTask>,
    )
        ensures
            final(self)@ == lower_shared(old(self)@, shared@, tasks@),
    {
        let ghost start = self@;
        let mut i: usize = 0;
        while i < shared.len()
            invariant
                i <= shared.len(),
                self@ == lower_shared(start, shared@.take(i as int), tasks@),
            decreases shared.len() - i,
        {
            let resource = shared[i];
            proof {
                assert(shared@.take(i + 1).drop_last() =~= shared@.take(i as int));
            }
            let mut label = concat3("Application resource `", resource.id, "`; tasks: ");
            let consumers = consumer_list(tasks, resource.id);
            label.append(consumers.as_str());
            self.push_shared_guard(label.as_str());
            let mut value = concat2(resource.id, ": ");
            let rust_type = match resource.initial {
                SharedValue::Bool(b) => {
                    value.append(if b {
                        "true"
                    } else {
                        "false"
                    });
                    "bool"
                },
                SharedValue::U32(n) => {
                    push_grouped_decimal(&mut value, n);
                    "u32"
                },
            };
            let line = field(resource.id, rust_type);
            self.push_shared(line, value);
            i += 1;
        }
        proof {
            assert(shared@.take(i as int) =~= shared@);
        }
    }
}

// ---------------------------------------------------------------------------
// Task-state initialization
// ---------------------------------------------------------------------------

/// Lines separated by newlines.
pub open spec fn join_lines(s: Seq<Seq<char>>) -> Seq<char>
    decreases s.len(),
{
    if s.len() == 0 {
        Seq::empty()
    } else if s.len() == 1 {
        s[0]
    } else {
        join_lines(s.drop_last()) + "\n"@ + s.last()
    }
}

/// Some state value of the list belongs to the task `owner`.
pub open spec fn owner_seen(states: Seq<ResolvedTaskState>, owner: Seq<char>) -> bool {
    exists|k: int| 0 <= k < states.len() && #[trigger] states[k].owner_task@ == owner
}

/// Section label of the state initialization of an owner task.
pub open spec fn state_init_label(owner: Seq<char>) -> Seq<char> {
    "Application-owned state for task `"@ + owner + "` initialization"@
}

/// Binding that initializes one state value.
pub open spec fn state_init_line(s: ResolvedTaskState) -> Seq<char> {
    "let "@ + s.id@ + " = "@ + spec_task_state_initializer(s.recipe) + ";"@
}

/// Initialization lines of task state, in order: before the first value of
/// each owner task a section comment, then one binding per value.
pub open spec fn state_init_lines(states: Seq<ResolvedTaskState>) -> Seq<Seq<char>>
    decreases states.len(),
{
    if states.len() == 0 {
        Seq::empty()
    } else {
        let s = states.last();
        let prev = state_init_lines(states.drop_last());
        let with_guard = if owner_seen(states.drop_last(), s.owner_task@) {
            prev
        } else {
            prev.push(guard_line(state_init_label(s.owner_task@)))
        };
        with_guard.push(state_init_line(s))
    }
}

fn push_joined_line(
    out: &mut String,
    none_yet: &mut bool,
    line: &str,
    Ghost(lines): Ghost<Seq<Seq<char>>>,
)
    requires
        old(out)@ == join_lines(lines),
        *old(none_yet) == (lines.len() == 0),
    ensures
        final(out)@ == join_lines(lines.push(line@)),
        !*final(none_yet),
{
    if !*none_yet {
        out.append("\n");
    }
    out.append(line);
    *none_yet = false;
    proof {
        assert(lines.push(line@).drop_last() =~= lines);
    }
}

/// Renders the initialization of application-owned task state: a section
/// per owner task, opened before its first value, and one binding per value.
pub fn render_task_state_initialization(states: &Vec<ResolvedTaskState>) -> (r: String)
    ensures
        r@ == join_lines(state_init_lines(states@)),
{
    let mut out = String::new();
    let mut none_yet = true;
    let mut owners: Vec<&'static str> = Vec::new();
    let mut i: usize = 0;
    while i < states.len()
        invariant
            i <= states.len(),
            strs(owners@) == states@.take(i as int).map_values(
                |s: ResolvedTaskState| s.owner_task@,
            ),
            none_yet == (state_init_lines(states@.take(i as int)).len() == 0),
            out@ == join_lines(state_init_lines(states@.take(i as int))),
        decreases states.len() - i,
    {
        let state = states[i];
        let ghost prefix = states@.take(i as int);
        proof {
            assert(states@.take(i + 1).drop_last() =~= prefix);
        }
        let seen = contains_str(&owners, state.owner_task);
        proof {
            if seen {
                let k = choose|k: int| 0 <= k < strs(owners@).len() && strs(owners@)[k]
                    == state.owner_task@;
                assert(prefix[k].owner_task@ == state.owner_task@);
            }
            if owner_seen(prefix, state.owner_task@) {
                let k = choose|k: int| 0 <= k < prefix.len() && #[trigger] prefix[k].owner_task@
                    == state.owner_task@;
                assert(strs(owners@)[k] == state.owner_task@);
            }
        }
        let ghost lines0 = state_init_lines(prefix);
        let ghost lines1 = if seen {
            lines0
        } else {
            lines0.push(guard_line(state_init_label(state.owner_task@)))
        };
        if !seen {
            let label = concat3("Application-owned state for task `", state.owner_task, "` initialization");
            let guard = section_guard_line(label.as_str());
            push_joined_line(&mut out, &mut none_yet, guard.as_str(), Ghost(lines0));
        }
        let mut line = concat3("let ", state.id, " = ");
        let initializer = task_state_initializer(state.recipe);
        line.append(initializer.as_str());
        line.append(";");
        push_joined_line(&mut out, &mut none_yet, line.as_str(), Ghost(lines1));
        let ghost before = owners@;
        owners.push(state.owner_task);
        proof {
            assert(strs(owners@) =~= strs(before).push(state.owner_task@));
            assert(states@.take(i + 1).map_values(|s: ResolvedTaskState| s.owner_task@) =~= prefix.map_values(
                |s: ResolvedTaskState| s.owner_task@,
            ).push(state.owner_task@));
            assert(strs(owners@) =~= states@.take(i + 1).map_values(
                |s: ResolvedTaskState| s.owner_task@,
            ));
        }
        i += 1;
    }
    proof {
        assert(states@.take(i as int) =~= states@);
    }
    out
}

// ---------------------------------------------------------------------------
// Laws
// ---------------------------------------------------------------------------

/// Each `Shared` and `Local` field has its value at the same position.
pub open spec fn paired(v: LoweredLines) -> bool {
    v.shared_fields.len() == v.shared_values.len() && v.local_fields.len()
        == v.local_values.len()
}

/// `w` keeps every line of `v`, in place, and only appends after them.
pub open spec fn extends(w: LoweredLines, v: LoweredLines) -> bool {
    &&& v.shared_fields.is_prefix_of(w.shared_fields)
    &&& v.shared_values.is_prefix_of(w.shared_values)
    &&& v.local_fields.is_prefix_of(w.local_fields)
    &&& v.local_values.is_prefix_of(w.local_values)
    &&& v.init_locals.is_prefix_of(w.init_locals)
}

proof fn lemma_extends_push(v: LoweredLines, w: LoweredLines, x: LoweredLines)
    requires
        extends(w, v),
        extends(x, w),
    ensures
        extends(x, v),
{
    assert(v.shared_fields.is_prefix_of(x.shared_fields)) by {
        assert forall|i: int| 0 <= i < v.shared_fields.len() implies v.shared_fields[i]
            == x.shared_fields[i] by {
            assert(w.shared_fields[i] == x.shared_fields[i]);
        }
    }
    assert(v.shared_values.is_prefix_of(x.shared_values)) by {
        assert forall|i: int| 0 <= i < v.shared_values.len() implies v.shared_values[i]
            == x.shared_values[i] by {
            assert(w.shared_values[i] == x.shared_values[i]);
        }
    }
    assert(v.local_fields.is_prefix_of(x.local_fields)) by {
        assert forall|i: int| 0 <= i < v.local_fields.len() implies v.local_fields[i]
            == x.local_fields[i] by {
            assert(w.local_fields[i] == x.local_fields[i]);
        }
    }
    assert(v.local_values.is_prefix_of(x.local_values)) by {
        assert forall|i: int| 0 <= i < v.local_values.len() implies v.local_values[i]
            == x.local_values[i] by {
            assert(w.local_values[i] == x.local_values[i]);
        }
    }
    assert(v.init_locals.is_prefix_of(x.init_locals)) by {
        assert forall|i: int| 0 <= i < v.init_locals.len() implies v.init_locals[i]
            == x.init_locals[i] by {
            assert(w.init_locals[i] == x.init_locals[i]);
        }
    }
}

/// One appended line of any kind keeps the lists paired and extended.
proof fn lemma_append_steps(v: LoweredLines, a: Seq<char>, b: Seq<char>, l: InitLocalText)
    ensures
        paired(v) ==> paired(v.local(a, b)) && paired(v.shared(a, b)) && paired(v.init_local(l)),
        extends(v.local(a, b), v),
        extends(v.shared(a, b), v),
        extends(v.init_local(l), v),
        extends(v, v),
{
    assert(v.local_fields.is_prefix_of(v.local_fields.push(a)));
    assert(v.local_values.is_prefix_of(v.local_values.push(b)));
    assert(v.shared_fields.is_prefix_of(v.shared_fields.push(a)));
    assert(v.shared_values.is_prefix_of(v.shared_values.push(b)));
    assert(v.init_locals.is_prefix_of(v.init_locals.push(l)));
    assert(v.shared_fields.is_prefix_of(v.shared_fields));
    assert(v.local_fields.is_prefix_of(v.local_fields));
    assert(v.shared_values.is_prefix_of(v.shared_values));
    assert(v.local_values.is_prefix_of(v.local_values));
    assert(v.init_locals.is_prefix_of(v.init_locals));
}

proof fn lemma_shared_stage(v: LoweredLines, rs: Seq<ResolvedSharedResource>, ts: Seq<ResolvedTask>)
    requires
        paired(v),
    ensures
        paired(lower_shared(v, rs, ts)),
        extends(lower_shared(v, rs, ts), v),
    decreases rs.len(),
{
    lemma_append_steps(v, Seq::empty(), Seq::empty(), no_init_local());
    if rs.len() > 0 {
        let r = rs.last();
        lemma_shared_stage(v, rs.drop_last(), ts);
        let w = lower_shared(v, rs.drop_last(), ts);
        let g = guard_line(shared_label(r, ts));
        let l = no_init_local();
        lemma_append_steps(w, g, g, l);
        let x = w.shared(g, g);
        let f = field_line(r.id@, spec_shared_rust_type(r.initial));
        let val = r.id@ + ": "@ + shared_initial_text(r.initial);
        lemma_append_steps(x, f, val, l);
        lemma_extends_push(v, w, x);
        lemma_extends_push(v, x, x.shared(f, val));
    }
}

/// An initialization-local text with nothing in it.
spec fn no_init_local() -> InitLocalText {
    InitLocalText {
        section: Seq::empty(),
        id: Seq::empty(),
        rust_type: Seq::empty(),
        initializer: Seq::empty(),
    }
}

proof fn lemma_gpio_stage(v: LoweredLines, rs: Seq<ResolvedGpioResource>)
    requires
        paired(v),
    ensures
        lower_gpio(v, rs) matches Ok(w) ==> paired(w) && extends(w, v),
    decreases rs.len(),
{
    lemma_append_steps(v, Seq::empty(), Seq::empty(), no_init_local());
    if rs.len() > 0 {
        lemma_gpio_stage(v, rs.drop_last());
        if let Ok(w) = lower_gpio(v, rs.drop_last()) {
            let r = rs.last();
            let g = guard_line(gpio_label(r));
            lemma_append_steps(w, g, g, no_init_local());
            let x = w.local(g, g);
            if let Some(c) = spec_port_letter(r.hardware.pin.port) {
                let f = field_line(r.hardware.id@, gpio_pin_type(r.hardware, c));
                lemma_append_steps(x, f, r.hardware.id@, no_init_local());
                lemma_extends_push(v, w, x);
                lemma_extends_push(v, x, x.local(f, r.hardware.id@));
            }
        }
    }
}

proof fn lemma_control_resources_stage(
    v: LoweredLines,
    p: TimerPeripheral,
    rs: Seq<crate::resolve::ResolvedPeriodicControlResource>,
)
    requires
        paired(v),
    ensures
        paired(lower_control_resources(v, p, rs)),
        extends(lower_control_resources(v, p, rs), v),
    decreases rs.len(),
{
    lemma_append_steps(v, Seq::empty(), Seq::empty(), no_init_local());
    if rs.len() > 0 {
        let r = rs.last();
        lemma_control_resources_stage(v, p, rs.drop_last());
        let w = lower_control_resources(v, p, rs.drop_last());
        let f = field_line(r.id@, control_resource_type(p, r.role));
        lemma_append_steps(w, f, r.id@, no_init_local());
        lemma_extends_push(v, w, w.local(f, r.id@));
    }
}

proof fn lemma_controls_stage(v: LoweredLines, cs: Seq<ResolvedPeriodicControl>)
    requires
        paired(v),
    ensures
        paired(lower_controls(v, cs)),
        extends(lower_controls(v, cs), v),
    decreases cs.len(),
{
    lemma_append_steps(v, Seq::empty(), Seq::empty(), no_init_local());
    if cs.len() > 0 {
        let c = cs.last();
        lemma_controls_stage(v, cs.drop_last());
        let w = lower_controls(v, cs.drop_last());
        let g = guard_line(control_label(c));
        lemma_append_steps(w, g, g, no_init_local());
        let x = w.local(g, g);
        lemma_control_resources_stage(x, c.hardware.peripheral, c.resources@);
        lemma_extends_push(v, w, x);
        lemma_extends_push(v, x, lower_control_resources(x, c.hardware.peripheral, c.resources@));
    }
}

proof fn lemma_imu_resources_stage(
    v: LoweredLines,
    section: Seq<char>,
    rs: Seq<ResolvedImuEndpointResource>,
)
    requires
        paired(v),
    ensures
        lower_imu_resources(v, section, rs) matches Ok(w) ==> paired(w) && extends(w, v),
    decreases rs.len(),
{
    lemma_append_steps(v, Seq::empty(), Seq::empty(), no_init_local());
    if rs.len() > 0 {
        lemma_imu_resources_stage(v, section, rs.drop_last());
        if let Ok(w) = lower_imu_resources(v, section, rs.drop_last()) {
            let r = rs.last();
            let f = field_line(r.id@, spec_imu_resource_type(r.role));
            let l = InitLocalText {
                section,
                id: r.id@,
                rust_type: spec_imu_init_local(r.role).0,
                initializer: spec_imu_init_local(r.role).1,
            };
            lemma_append_steps(w, f, r.id@, l);
            if let Ok(x) = imu_resource_step(w, section, r) {
                lemma_extends_push(v, w, x);
            }
        }
    }
}

proof fn lemma_imus_stage(v: LoweredLines, es: Seq<ResolvedImuEndpoint>)
    requires
        paired(v),
    ensures
        lower_imus(v, es) matches Ok(w) ==> paired(w) && extends(w, v),
    decreases es.len(),
{
    lemma_append_steps(v, Seq::empty(), Seq::empty(), no_init_local());
    if es.len() > 0 {
        lemma_imus_stage(v, es.drop_last());
        if let Ok(w) = lower_imus(v, es.drop_last()) {
            let e = es.last();
            let label = imu_label(e);
            let g = guard_line(label);
            lemma_append_steps(w, g, g, no_init_local());
            let v1 = if imu_has_ownership(e.resources@, ImuEndpointResourceOwnership::Local) {
                w.local_guard(label)
            } else {
                w
            };
            lemma_append_steps(v1, g, g, no_init_local());
            let v2 = if imu_has_ownership(e.resources@, ImuEndpointResourceOwnership::Shared) {
                v1.shared_guard(label)
            } else {
                v1
            };
            lemma_extends_push(w, v1, v2);
            lemma_imu_resources_stage(v2, label, e.resources@);
            if let Ok(x) = lower_imu_endpoint(w, e) {
                lemma_extends_push(w, v2, x);
                lemma_extends_push(v, w, x);
            }
        }
    }
}

proof fn lemma_serial_resources_stage(
    v: LoweredLines,
    section: Seq<char>,
    p: SerialPeripheral,
    rs: Seq<ResolvedEndpointResource>,
)
    requires
        paired(v),
    ensures
        lower_serial_resources(v, section, p, rs) matches Ok(w) ==> paired(w) && extends(w, v),
    decreases rs.len(),
{
    lemma_append_steps(v, Seq::empty(), Seq::empty(), no_init_local());
    if rs.len() > 0 {
        lemma_serial_resources_stage(v, section, p, rs.drop_last());
        if let Ok(w) = lower_serial_resources(v, section, p, rs.drop_last()) {
            let r = rs.last();
            lemma_append_steps(w, Seq::empty(), Seq::empty(), no_init_local());
            match spec_endpoint_resource_type(p, r.role) {
                Ok(t) => {
                    lemma_append_steps(w, field_line(r.id@, t), r.id@, no_init_local());
                },
                Err(_) => {},
            }
            match spec_endpoint_init_local(r.role) {
                Some((t, i)) => {
                    lemma_append_steps(
                        w,
                        Seq::empty(),
                        Seq::empty(),
                        InitLocalText { section, id: r.id@, rust_type: t, initializer: i },
                    );
                },
                None => {},
            }
            if let Ok(x) = serial_resource_step(w, section, p, r) {
                lemma_extends_push(v, w, x);
            }
        }
    }
}

proof fn lemma_serials_stage(v: LoweredLines, es: Seq<ResolvedSerialEndpoint>)
    requires
        paired(v),
    ensures
        lower_serials(v, es) matches Ok(w) ==> paired(w) && extends(w, v),
    decreases es.len(),
{
    lemma_append_steps(v, Seq::empty(), Seq::empty(), no_init_local());
    if es.len() > 0 {
        lemma_serials_stage(v, es.drop_last());
        if let Ok(w) = lower_serials(v, es.drop_last()) {
            let e = es.last();
            let label = serial_label(e);
            let g = guard_line(label);
            lemma_append_steps(w, g, g, no_init_local());
            let v1 = if serial_has_ownership(e.resources@, SerialEndpointResourceOwnership::Local) {
                w.local_guard(label)
            } else {
                w
            };
            lemma_append_steps(v1, g, g, no_init_local());
            let v2 = if serial_has_ownership(
                e.resources@,
                SerialEndpointResourceOwnership::Shared,
            ) {
                v1.shared_guard(label)
            } else {
                v1
            };
            lemma_extends_push(w, v1, v2);
            lemma_serial_resources_stage(v2, label, e.hardware.port.peripheral, e.resources@);
            if let Ok(x) = lower_serial_endpoint(w, e) {
                lemma_extends_push(w, v2, x);
                lemma_extends_push(v, w, x);
            }
        }
    }
}

/// Every lowering stage only appends: the lines already lowered stay in
/// place, and each `Shared` or `Local` field keeps its value at the same
/// position, so the field and value lists of the RTIC structs stay paired.
pub proof fn lemma_lowering_appends_paired_lines(
    v: LoweredLines,
    shared: Seq<ResolvedSharedResource>,
    tasks: Seq<ResolvedTask>,
    gpio: Seq<ResolvedGpioResource>,
    controls: Seq<ResolvedPeriodicControl>,
    imus: Seq<ResolvedImuEndpoint>,
    serials: Seq<ResolvedSerialEndpoint>,
)
    requires
        paired(v),
    ensures
        paired(lower_shared(v, shared, tasks)) && extends(lower_shared(v, shared, tasks), v),
        lower_gpio(v, gpio) matches Ok(w) ==> paired(w) && extends(w, v),
        paired(lower_controls(v, controls)) && extends(lower_controls(v, controls), v),
        lower_imus(v, imus) matches Ok(w) ==> paired(w) && extends(w, v),
        lower_serials(v, serials) matches Ok(w) ==> paired(w) && extends(w, v),
{
    lemma_shared_stage(v, shared, tasks);
    lemma_gpio_stage(v, gpio);
    lemma_controls_stage(v, controls);
    lemma_imus_stage(v, imus);
    lemma_serials_stage(v, serials);
}

/// Identifiers of periodic-control resources, in order.
pub open spec fn control_resource_ids(rs: Seq<crate::resolve::ResolvedPeriodicControlResource>) -> Seq<
    Seq<char>,
> {
    rs.map_values(|r: crate::resolve::ResolvedPeriodicControlResource| r.id@)
}

/// Lowering a control's resources appends exactly their identifiers to the
/// `Local` values.
pub(crate) proof fn lemma_control_resource_values(
    v: LoweredLines,
    p: TimerPeripheral,
    rs: Seq<crate::resolve::ResolvedPeriodicControlResource>,
)
    ensures
        lower_control_resources(v, p, rs).local_values == v.local_values + control_resource_ids(rs),
    decreases rs.len(),
{
    if rs.len() > 0 {
        lemma_control_resource_values(v, p, rs.drop_last());
        assert(control_resource_ids(rs) =~= control_resource_ids(rs.drop_last()).push(rs.last().id@));
        assert(lower_control_resources(v, p, rs).local_values =~= v.local_values
            + control_resource_ids(rs));
    } else {
        assert(v.local_values + control_resource_ids(rs) =~= v.local_values);
    }
}

/// Every resource of every periodic control is among the lowered `Local`
/// values.
pub(crate) proof fn lemma_control_values_contain(
    v: LoweredLines,
    cs: Seq<ResolvedPeriodicControl>,
    i: int,
    j: int,
)
    requires
        0 <= i < cs.len(),
        0 <= j < cs[i].resources@.len(),
    ensures
        lower_controls(v, cs).local_values.contains(cs[i].resources@[j].id@),
    decreases cs.len(),
{
    let c = cs.last();
    let w = lower_controls(v, cs.drop_last());
    let x = w.local_guard(control_label(c));
    lemma_control_resource_values(x, c.hardware.peripheral, c.resources@);
    let all = lower_controls(v, cs).local_values;
    assert(all == x.local_values + control_resource_ids(c.resources@));
    if i == cs.len() - 1 {
        assert(all[x.local_values.len() + j] == cs[i].resources@[j].id@);
    } else {
        lemma_control_values_contain(v, cs.drop_last(), i, j);
        let k = choose|k: int| 0 <= k < w.local_values.len() && w.local_values[k]
            == cs[i].resources@[j].id@;
        assert(all[k] == w.local_values[k]);
    }
}

} // verus!
