//! The opening statements of the generated RTIC `init` function: clock and
//! monotonic setup, periodic-control timers, application task state, GPIO
//! port splits, EXTI access, and board GPIO configuration.

use vstd::prelude::*;

use crate::board::{board_timer, BoardDeclaration, TimerPeripheral};
use crate::gpio::GpioMode;
use crate::lower::{
    edge_name, level_name, pin_path, pull_name, gpio_initialization, periodic_control_initialization, port_lower, port_lower_str,
    render_gpio_initialization, render_periodic_control_initialization, spec_port_letter,
    timer_peripheral,
};
use crate::periodic_control::PeriodicControlResourceRole;
use crate::pins::GpioPort;
use crate::resolve::{
    periodic_role_index_from, periodic_role_name, string_views, ResolvedGpioResource,
    ResolvedImuEndpoint, ResolvedPeriodicControl,
};
use crate::resource_lowering::{
    guard_line, join_lines, port_letter_error, port_letter_str, render_task_state_initialization,
    section_guard_line, state_init_lines, timer_debug_name, timer_debug_str,
};
use crate::serial_endpoint::ResolvedSerialEndpoint;
use crate::state::ResolvedTaskState;
use crate::text::{concat3, grouped_decimal, push_grouped_decimal};
use crate::timing::{InitDelayDeclaration, MonotonicDeclaration};

verus! {

/// Oscillator that feeds the system clock.
#[derive(Clone, Copy, Debug, PartialEq, Eq, Structural)]
pub enum ClockSource {
    /// Internal high-speed oscillator.
    Hsi,
    /// External crystal of the given frequency.
    Hse {
        /// Crystal frequency in hertz.
        frequency_hz: u32,
    },
}

// ---------------------------------------------------------------------------
// Clock, monotonic and delay
// ---------------------------------------------------------------------------

/// First line of `init`: the common section and the runtime platform
/// configuration.
pub open spec fn common_line() -> Seq<char> {
    guard_line("Common initialization"@) + "\nlet platform_config = load_platform_config();"@
}

/// Expression that freezes the clock tree.
pub open spec fn clock_expression(c: ClockSource) -> Seq<char> {
    match c {
        ClockSource::Hsi => "ferrowasp_stm32f4::clocks::freeze_hsi(\n    cx.device.RCC.constrain(),\n    SYSTEM_CLOCK_HZ,\n    false,\n)"@,
        ClockSource::Hse { frequency_hz } => "ferrowasp_stm32f4::clocks::freeze_hse(\n    cx.device.RCC.constrain(),\n    "@
            + grouped_decimal(frequency_hz as nat) + ",\n    SYSTEM_CLOCK_HZ,\n    false,\n)"@,
    }
}

/// Diagnostic for a board timer that validation should have found.
pub open spec fn missing_timer_error(hardware_id: Seq<char>) -> Seq<char> {
    "board timer `"@ + hardware_id + "` disappeared after validation"@
}

/// Statement that starts the monotonic.
pub open spec fn monotonic_start(board: BoardDeclaration, m: MonotonicDeclaration) -> Result<
    Seq<char>,
    Seq<char>,
> {
    match m {
        MonotonicDeclaration::SysTick { .. } => Ok("Mono::start(cx.core.SYST, SYSTEM_CLOCK_HZ);"@),
        MonotonicDeclaration::Timer { hardware_id, .. } => match board_timer(board, hardware_id@) {
            None => Err(missing_timer_error(hardware_id@)),
            Some(t) => if t.peripheral == TimerPeripheral::Tim2 {
                Ok("Mono::start(rcc.clocks.timclk1().raw());"@)
            } else {
                Err(
                    "the STM32F4 renderer does not support "@ + timer_debug_name(t.peripheral)
                        + " as the RTIC monotonic"@,
                )
            },
        },
    }
}

/// Statement that builds the initialization delay on TIM5.
pub open spec fn init_delay_line(board: BoardDeclaration, d: InitDelayDeclaration) -> Result<
    Seq<char>,
    Seq<char>,
> {
    match board_timer(board, d.hardware_id@) {
        None => Err(missing_timer_error(d.hardware_id@)),
        Some(t) => if t.peripheral == TimerPeripheral::Tim5 {
            Ok(
                "let mut init_delay = cx.device.TIM5.delay::<"@ + grouped_decimal(d.tick_hz as nat)
                    + ">(&mut rcc);"@,
            )
        } else {
            Err(
                "the STM32F4 renderer does not support "@ + timer_debug_name(t.peripheral)
                    + " as the initialization delay"@,
            )
        },
    }
}

/// Opening statements of `init`: common section, clock, monotonic start, and
/// the initialization delay when one is declared.
pub open spec fn preamble_lines(
    board: BoardDeclaration,
    clock: ClockSource,
    m: MonotonicDeclaration,
    d: Option<InitDelayDeclaration>,
) -> Result<Seq<Seq<char>>, Seq<char>> {
    match monotonic_start(board, m) {
        Err(e) => Err(e),
        Ok(start) => {
            let base = seq![common_line(), "let mut rcc = "@ + clock_expression(clock) + ";"@, start];
            match d {
                None => Ok(base),
                Some(d) => match init_delay_line(board, d) {
                    Err(e) => Err(e),
                    Ok(l) => Ok(base.push(l)),
                },
            }
        },
    }
}

/// Renders the opening statements of `init`: the common section, the clock
/// tree, the monotonic start, and the optional TIM5 initialization delay.
pub fn render_initialization_preamble(
    board: &BoardDeclaration,
    clock: ClockSource,
    monotonic: MonotonicDeclaration,
    init_delay: Option<InitDelayDeclaration>,
) -> (r: Result<Vec<String>, String>)
    ensures
        match (r, preamble_lines(*board, clock, monotonic, init_delay)) {
            (Ok(v), Ok(s)) => string_views(v@) == s,
            (Err(e), Err(t)) => e@ == t,
            _ => false,
        },
{
    let mut lines: Vec<String> = Vec::new();
    let mut common = section_guard_line("Common initialization");
    common.append("\nlet platform_config = load_platform_config();");
    let ghost common_text = common@;
    lines.push(common);
    let mut rcc = String::from_str("let mut rcc = ");
    match clock {
        ClockSource::Hsi => {
            rcc.append(
                "ferrowasp_stm32f4::clocks::freeze_hsi(\n    cx.device.RCC.constrain(),\n    SYSTEM_CLOCK_HZ,\n    false,\n)",
            );
        },
        ClockSource::Hse { frequency_hz } => {
            rcc.append(
                "ferrowasp_stm32f4::clocks::freeze_hse(\n    cx.device.RCC.constrain(),\n    ",
            );
            push_grouped_decimal(&mut rcc, frequency_hz);
            rcc.append(",\n    SYSTEM_CLOCK_HZ,\n    false,\n)");
        },
    }
    rcc.append(";");
    let ghost rcc_text = rcc@;
    assert(rcc_text == "let mut rcc = "@ + clock_expression(clock) + ";"@);
    lines.push(rcc);
    let start = match monotonic {
        MonotonicDeclaration::SysTick { .. } => String::from_str(
            "Mono::start(cx.core.SYST, SYSTEM_CLOCK_HZ);",
        ),
        MonotonicDeclaration::Timer { hardware_id, .. } => match timer_peripheral(board, hardware_id) {
            Err(e) => {
                return Err(e);
            },
            Ok(TimerPeripheral::Tim2) => String::from_str("Mono::start(rcc.clocks.timclk1().raw());"),
            Ok(unsupported) => {
                return Err(
                    concat3(
                        "the STM32F4 renderer does not support ",
                        timer_debug_str(unsupported),
                        " as the RTIC monotonic",
                    ),
                );
            },
        },
    };
    let ghost start_text = start@;
    lines.push(start);
    assert(string_views(lines@) =~= seq![common_text, rcc_text, start_text]);
    if let Some(delay) = init_delay {
        match timer_peripheral(board, delay.hardware_id) {
            Err(e) => {
                return Err(e);
            },
            Ok(TimerPeripheral::Tim5) => {
                let mut line = String::from_str("let mut init_delay = cx.device.TIM5.delay::<");
                push_grouped_decimal(&mut line, delay.tick_hz);
                line.append(">(&mut rcc);");
                let ghost before = lines@;
                lines.push(line);
                assert(string_views(lines@) =~= string_views(before).push(line@));
            },
            Ok(unsupported) => {
                return Err(
                    concat3(
                        "the STM32F4 renderer does not support ",
                        timer_debug_str(unsupported),
                        " as the initialization delay",
                    ),
                );
            },
        }
    }
    proof {
        let s = preamble_lines(*board, clock, monotonic, init_delay);
        match s {
            Ok(t) => {
                assert(string_views(lines@) =~= t);
            },
            Err(_) => {},
        }
    }
    Ok(lines)
}

// ---------------------------------------------------------------------------
// Periodic controls
// ---------------------------------------------------------------------------

/// Initialization statements of one periodic control, or the diagnostic
/// for a missing scheduler or phase resource.
pub open spec fn control_init(c: ResolvedPeriodicControl) -> Result<Seq<char>, Seq<char>> {
    let rs = c.resources@;
    let missing = |role: PeriodicControlResourceRole|
        "periodic control `"@ + c.declaration.id@ + "` has no "@ + periodic_role_name(role)
            + " resource"@;
    match (
        periodic_role_index_from(rs, PeriodicControlResourceRole::Scheduler, 0),
        periodic_role_index_from(rs, PeriodicControlResourceRole::Phase, 0),
    ) {
        (Some(a), Some(b)) => Ok(
            periodic_control_initialization(
                rs[a].id@,
                rs[b].id@,
                c.hardware.peripheral,
                c.declaration.scheduler_hz,
            ),
        ),
        (None, _) => Err(missing(PeriodicControlResourceRole::Scheduler)),
        (Some(_), None) => Err(missing(PeriodicControlResourceRole::Phase)),
    }
}

/// One initialization section per periodic control, in order.
pub open spec fn control_init_sections(cs: Seq<ResolvedPeriodicControl>) -> Result<
    Seq<Seq<char>>,
    Seq<char>,
>
    decreases cs.len(),
{
    if cs.len() == 0 {
        Ok(Seq::empty())
    } else {
        match control_init_sections(cs.drop_last()) {
            Err(e) => Err(e),
            Ok(prev) => match control_init(cs.last()) {
                Err(e) => Err(e),
                Ok(text) => Ok(
                    prev.push(
                        guard_line(
                            "Periodic control `"@ + cs.last().declaration.id@ + "` initialization"@,
                        ) + "\n"@ + text,
                    ),
                ),
            },
        }
    }
}

proof fn lemma_control_sections_error_stays(cs: Seq<ResolvedPeriodicControl>, n: int)
    requires
        0 <= n <= cs.len(),
        control_init_sections(cs.take(n)) is Err,
    ensures
        control_init_sections(cs) == control_init_sections(cs.take(n)),
    decreases cs.len() - n,
{
    if n < cs.len() {
        assert(cs.take(n + 1).drop_last() =~= cs.take(n));
        lemma_control_sections_error_stays(cs, n + 1);
    } else {
        assert(cs.take(n) =~= cs);
    }
}

/// Renders the initialization section of each periodic control.
pub fn render_periodic_control_sections(controls: &Vec<ResolvedPeriodicControl>) -> (r: Result<
    Vec<String>,
    String,
>)
    ensures
        match (r, control_init_sections(controls@)) {
            (Ok(v), Ok(s)) => string_views(v@) == s,
            (Err(e), Err(t)) => e@ == t,
            _ => false,
        },
{
    let mut lines: Vec<String> = Vec::new();
    proof {
        assert(string_views(lines@) =~= Seq::<Seq<char>>::empty());
    }
    let mut i: usize = 0;
    while i < controls.len()
        invariant
            i <= controls.len(),
            control_init_sections(controls@.take(i as int)) == Ok::<Seq<Seq<char>>, Seq<char>>(
                string_views(lines@),
            ),
        decreases controls.len() - i,
    {
        let control = &controls[i];
        proof {
            assert(controls@.take(i + 1).drop_last() =~= controls@.take(i as int));
        }
        match render_periodic_control_initialization(control) {
            Err(e) => {
                proof {
                    lemma_control_sections_error_stays(controls@, i + 1);
                }
                return Err(e);
            },
            Ok(text) => {
                let label = concat3("Periodic control `", control.declaration.id, "` initialization");
                let mut section = section_guard_line(label.as_str());
                section.append("\n");
                section.append(text.as_str());
                let ghost before = lines@;
                lines.push(section);
                proof {
                    assert(string_views(lines@) =~= string_views(before).push(section@));
                }
            },
        }
        i += 1;
    }
    proof {
        assert(controls@.take(i as int) =~= controls@);
    }
    Ok(lines)
}

// ---------------------------------------------------------------------------
// GPIO ports
// ---------------------------------------------------------------------------

/// The `k`-th GPIO port in the order the ports are declared (`A` first).
pub open spec fn port_at(k: int) -> GpioPort {
    if k <= 0 {
        GpioPort::A
    } else if k == 1 {
        GpioPort::B
    } else if k == 2 {
        GpioPort::C
    } else if k == 3 {
        GpioPort::D
    } else if k == 4 {
        GpioPort::E
    } else if k == 5 {
        GpioPort::F
    } else if k == 6 {
        GpioPort::G
    } else if k == 7 {
        GpioPort::H
    } else if k == 8 {
        GpioPort::I
    } else if k == 9 {
        GpioPort::J
    } else {
        GpioPort::K
    }
}

/// Statement that splits a GPIO port into its pins.
pub open spec fn split_line(p: GpioPort) -> Seq<char> {
    "let gpio"@ + port_lower(p) + " = cx.device.GPIO"@ + seq![spec_port_letter(p).unwrap()]
        + ".split(&mut rcc);"@
}

/// Split statements of the ports among the first `n` ports that occur in
/// `ports`, in port order.
pub open spec fn split_lines_upto(ports: Seq<GpioPort>, n: int) -> Seq<Seq<char>>
    decreases n,
{
    if n <= 0 {
        Seq::empty()
    } else if ports.contains(port_at(n - 1)) {
        split_lines_upto(ports, n - 1).push(split_line(port_at(n - 1)))
    } else {
        split_lines_upto(ports, n - 1)
    }
}

/// Split statements of the distinct ports in `ports`, in port order; a port
/// the STM32F405 lacks is rejected.
pub open spec fn port_split_lines(ports: Seq<GpioPort>) -> Result<Seq<Seq<char>>, Seq<char>> {
    if ports.contains(GpioPort::J) {
        Err(port_letter_error(GpioPort::J))
    } else if ports.contains(GpioPort::K) {
        Err(port_letter_error(GpioPort::K))
    } else {
        Ok(split_lines_upto(ports, 9))
    }
}

fn contains_port(ports: &Vec<GpioPort>, p: GpioPort) -> (r: bool)
    ensures
        r == ports@.contains(p),
{
    let mut i: usize = 0;
    while i < ports.len()
        invariant
            i <= ports.len(),
            forall|j: int| 0 <= j < i ==> ports@[j] != p,
        decreases ports.len() - i,
    {
        if ports[i] == p {
            return true;
        }
        i += 1;
    }
    false
}

fn port_at_exec(k: usize) -> (r: GpioPort)
    requires
        k < 9,
    ensures
        r == port_at(k as int),
{
    match k {
        0 => GpioPort::A,
        1 => GpioPort::B,
        2 => GpioPort::C,
        3 => GpioPort::D,
        4 => GpioPort::E,
        5 => GpioPort::F,
        6 => GpioPort::G,
        7 => GpioPort::H,
        _ => GpioPort::I,
    }
}

/// Renders one split statement per distinct port of `ports`, in port order
/// (`ports` may repeat a port); a port the STM32F405 lacks is rejected.
pub fn render_port_splits(ports: &Vec<GpioPort>) -> (r: Result<Vec<String>, String>)
    ensures
        match (r, port_split_lines(ports@)) {
            (Ok(v), Ok(s)) => string_views(v@) == s,
            (Err(e), Err(t)) => e@ == t,
            _ => false,
        },
{
    if contains_port(ports, GpioPort::J) {
        let mut e = String::from_str("STM32F405 lowering does not support GPIO");
        e.append("J");
        return Err(e);
    }
    if contains_port(ports, GpioPort::K) {
        let mut e = String::from_str("STM32F405 lowering does not support GPIO");
        e.append("K");
        return Err(e);
    }
    let mut lines: Vec<String> = Vec::new();
    proof {
        assert(string_views(lines@) =~= Seq::<Seq<char>>::empty());
    }
    let mut k: usize = 0;
    while k < 9
        invariant
            k <= 9,
            string_views(lines@) == split_lines_upto(ports@, k as int),
        decreases 9 - k,
    {
        let port = port_at_exec(k);
        if contains_port(ports, port) {
            let letter = match port_letter_str(port) {
                Some(l) => l,
                None => "",
            };
            let mut line = concat3("let gpio", port_lower_str(port), " = cx.device.GPIO");
            line.append(letter);
            line.append(".split(&mut rcc);");
            let ghost before = lines@;
            lines.push(line);
            proof {
                assert(string_views(lines@) =~= string_views(before).push(line@));
            }
        }
        k += 1;
    }
    Ok(lines)
}

/// Split statements of the ports among the first `n` that satisfy `used`,
/// in port order.
pub open spec fn split_lines_where(used: spec_fn(GpioPort) -> bool, n: int) -> Seq<Seq<char>>
    decreases n,
{
    if n <= 0 {
        Seq::empty()
    } else if used(port_at(n - 1)) {
        split_lines_where(used, n - 1).push(split_line(port_at(n - 1)))
    } else {
        split_lines_where(used, n - 1)
    }
}

/// Split statements of the ports that satisfy `used`, in port order; a port
/// the STM32F405 lacks is rejected.
pub open spec fn port_splits_where(used: spec_fn(GpioPort) -> bool) -> Result<
    Seq<Seq<char>>,
    Seq<char>,
> {
    if used(GpioPort::J) {
        Err(port_letter_error(GpioPort::J))
    } else if used(GpioPort::K) {
        Err(port_letter_error(GpioPort::K))
    } else {
        Ok(split_lines_where(used, 9))
    }
}

proof fn lemma_split_lines_where_agree(ports: Seq<GpioPort>, used: spec_fn(GpioPort) -> bool, n: int)
    requires
        forall|p: GpioPort| ports.contains(p) == used(p),
    ensures
        split_lines_upto(ports, n) == split_lines_where(used, n),
    decreases n,
{
    if n > 0 {
        lemma_split_lines_where_agree(ports, used, n - 1);
        assert(ports.contains(port_at(n - 1)) == used(port_at(n - 1)));
    }
}

/// The split statements depend only on which ports occur.
pub proof fn lemma_port_splits_depend_on_membership(
    ports: Seq<GpioPort>,
    used: spec_fn(GpioPort) -> bool,
)
    requires
        forall|p: GpioPort| ports.contains(p) == used(p),
    ensures
        port_split_lines(ports) == port_splits_where(used),
{
    lemma_split_lines_where_agree(ports, used, 9);
    assert(ports.contains(GpioPort::J) == used(GpioPort::J));
    assert(ports.contains(GpioPort::K) == used(GpioPort::K));
}

/// A GPIO port that a serial endpoint's receive or transmit route uses.
pub open spec fn serial_uses_port(e: ResolvedSerialEndpoint, p: GpioPort) -> bool {
    ||| (e.hardware.port.rx matches Some(r) && r.pin.port == p)
    ||| (e.hardware.port.tx matches Some(t) && t.pin.port == p)
}

/// A GPIO port that the board GPIOs, serial endpoint routes, or SPI IMU
/// endpoints use.
pub open spec fn uses_port(
    gpio: Seq<ResolvedGpioResource>,
    serials: Seq<ResolvedSerialEndpoint>,
    imus: Seq<ResolvedImuEndpoint>,
    p: GpioPort,
) -> bool {
    ||| exists|i: int| 0 <= i < gpio.len() && #[trigger] gpio[i].hardware.pin.port == p
    ||| exists|i: int| 0 <= i < serials.len() && #[trigger] serial_uses_port(serials[i], p)
    ||| exists|i: int| 0 <= i < imus.len() && #[trigger] imu_uses_port(imus[i], p)
}

/// A GPIO port that an SPI IMU endpoint's bus or IMU pins use.
pub open spec fn imu_uses_port(e: ResolvedImuEndpoint, p: GpioPort) -> bool {
    ||| e.spi.bus.sck.port == p
    ||| e.spi.bus.miso.port == p
    ||| e.spi.bus.mosi.port == p
    ||| e.hardware.chip_select.port == p
    ||| e.hardware.data_ready.port == p
}

/// Collects the GPIO ports that board GPIOs, serial endpoint routes and SPI
/// IMU endpoints use (with repetitions).
pub fn initialization_ports(
    gpio: &Vec<ResolvedGpioResource>,
    serials: &Vec<ResolvedSerialEndpoint>,
    imus: &Vec<ResolvedImuEndpoint>,
) -> (r: Vec<GpioPort>)
    ensures
        forall|p: GpioPort| r@.contains(p) <==> uses_port(gpio@, serials@, imus@, p),
{
    let mut ports: Vec<GpioPort> = Vec::new();
    let mut i: usize = 0;
    while i < gpio.len()
        invariant
            i <= gpio.len(),
            forall|p: GpioPort|
                ports@.contains(p) <==> exists|k: int| 0 <= k < i && #[trigger] gpio@[k].hardware.pin.port == p,
        decreases gpio.len() - i,
    {
        let ghost before = ports@;
        ports.push(gpio[i].hardware.pin.port);
        proof {
            assert forall|p: GpioPort| ports@.contains(p) <==> exists|k: int|
                0 <= k < i + 1 && #[trigger] gpio@[k].hardware.pin.port == p by {
                if ports@.contains(p) {
                    let j = choose|j: int| 0 <= j < ports@.len() && ports@[j] == p;
                    if j < before.len() {
                        assert(before.contains(p));
                    } else {
                        assert(gpio@[i as int].hardware.pin.port == p);
                    }
                }
                if exists|k: int| 0 <= k < i + 1 && #[trigger] gpio@[k].hardware.pin.port == p {
                    let k = choose|k: int| 0 <= k < i + 1 && #[trigger] gpio@[k].hardware.pin.port == p;
                    if k < i {
                        assert(before.contains(p));
                        let j = choose|j: int| 0 <= j < before.len() && before[j] == p;
                        assert(ports@[j] == p);
                    } else {
                        assert(ports@[before.len() as int] == p);
                    }
                }
            }
        }
        i += 1;
    }
    let ghost after_gpio = ports@;
    let mut i: usize = 0;
    while i < serials.len()
        invariant
            i <= serials.len(),
            forall|p: GpioPort|
                #![trigger ports@.contains(p)]
                ports@.contains(p) <==> (after_gpio.contains(p) || exists|k: int|
                    0 <= k < i && #[trigger] serial_uses_port(serials@[k], p)),
        decreases serials.len() - i,
    {
        let ghost before = ports@;
        let port = serials[i].hardware.port;
        if let Some(rx) = port.rx {
            ports.push(rx.pin.port);
        }
        let ghost middle = ports@;
        if let Some(tx) = port.tx {
            ports.push(tx.pin.port);
        }
        proof {
            assert forall|p: GpioPort|
                #![trigger ports@.contains(p)]
                ports@.contains(p) <==> (after_gpio.contains(p) || exists|k: int|
                    0 <= k < i + 1 && #[trigger] serial_uses_port(serials@[k], p)) by {
                if ports@.contains(p) {
                    let j = choose|j: int| 0 <= j < ports@.len() && ports@[j] == p;
                    if j < before.len() {
                        assert(before[j] == p);
                        assert(before.contains(p));
                    } else if j < middle.len() {
                        assert(middle[j] == p);
                        assert(serial_uses_port(serials@[i as int], p));
                    } else {
                        assert(serial_uses_port(serials@[i as int], p));
                    }
                }
                if before.contains(p) {
                    let j = choose|j: int| 0 <= j < before.len() && before[j] == p;
                    assert(middle[j] == p);
                    assert(ports@[j] == p);
                }
                if serial_uses_port(serials@[i as int], p) {
                    if port.rx matches Some(r) && r.pin.port == p {
                        assert(middle[before.len() as int] == p);
                        assert(ports@[before.len() as int] == p);
                    } else {
                        assert(ports@[middle.len() as int] == p);
                    }
                }
                if exists|k: int| 0 <= k < i + 1 && #[trigger] serial_uses_port(serials@[k], p) {
                    let k = choose|k: int| 0 <= k < i + 1 && #[trigger] serial_uses_port(serials@[k], p);
                    if k < i {
                        assert(before.contains(p));
                    }
                }
            }
        }
        i += 1;
    }
    let ghost after_serial = ports@;
    let mut i: usize = 0;
    while i < imus.len()
        invariant
            i <= imus.len(),
            forall|p: GpioPort|
                #![trigger ports@.contains(p)]
                ports@.contains(p) <==> (after_serial.contains(p) || exists|k: int|
                    0 <= k < i && #[trigger] imu_uses_port(imus@[k], p)),
        decreases imus.len() - i,
    {
        let ghost before = ports@;
        let endpoint = &imus[i];
        ports.push(endpoint.spi.bus.sck.port);
        ports.push(endpoint.spi.bus.miso.port);
        ports.push(endpoint.spi.bus.mosi.port);
        ports.push(endpoint.hardware.chip_select.port);
        ports.push(endpoint.hardware.data_ready.port);
        proof {
            let n = before.len() as int;
            assert(ports@ =~= before + seq![
                endpoint.spi.bus.sck.port,
                endpoint.spi.bus.miso.port,
                endpoint.spi.bus.mosi.port,
                endpoint.hardware.chip_select.port,
                endpoint.hardware.data_ready.port,
            ]);
            assert forall|p: GpioPort|
                #![trigger ports@.contains(p)]
                ports@.contains(p) <==> (after_serial.contains(p) || exists|k: int|
                    0 <= k < i + 1 && #[trigger] imu_uses_port(imus@[k], p)) by {
                if ports@.contains(p) {
                    let j = choose|j: int| 0 <= j < ports@.len() && ports@[j] == p;
                    if j < n {
                        assert(before[j] == p);
                    } else {
                        assert(imu_uses_port(imus@[i as int], p));
                    }
                }
                if before.contains(p) {
                    let j = choose|j: int| 0 <= j < before.len() && before[j] == p;
                    assert(ports@[j] == p);
                }
                if imu_uses_port(imus@[i as int], p) {
                    if endpoint.spi.bus.sck.port == p {
                        assert(ports@[n] == p);
                    } else if endpoint.spi.bus.miso.port == p {
                        assert(ports@[n + 1] == p);
                    } else if endpoint.spi.bus.mosi.port == p {
                        assert(ports@[n + 2] == p);
                    } else if endpoint.hardware.chip_select.port == p {
                        assert(ports@[n + 3] == p);
                    } else {
                        assert(ports@[n + 4] == p);
                    }
                }
                if exists|k: int| 0 <= k < i + 1 && #[trigger] imu_uses_port(imus@[k], p) {
                    let k = choose|k: int| 0 <= k < i + 1 && #[trigger] imu_uses_port(imus@[k], p);
                    if k < i {
                        assert(before.contains(p));
                    }
                }
            }
        }
        i += 1;
    }
    ports
}

// ---------------------------------------------------------------------------
// EXTI and board GPIOs
// ---------------------------------------------------------------------------

/// Some board GPIO is an input with an external interrupt.
pub open spec fn has_interrupt_input(gpio: Seq<ResolvedGpioResource>) -> bool {
    exists|i: int|
        0 <= i < gpio.len() && (#[trigger] gpio[i].hardware.mode matches GpioMode::Input {
            interrupt: Some(_),
        })
}

/// Initialization needs the SYSCFG and EXTI peripherals: an SPI IMU endpoint
/// or a GPIO input with an external interrupt exists.
pub open spec fn needs_exti(gpio: Seq<ResolvedGpioResource>, imu_count: nat) -> bool {
    imu_count > 0 || has_interrupt_input(gpio)
}

/// The SYSCFG and EXTI statements, when initialization needs them.
pub open spec fn exti_lines(needed: bool) -> Seq<Seq<char>> {
    if needed {
        seq![
            "let mut syscfg = cx.device.SYSCFG.constrain(&mut rcc);"@,
            "let mut exti = cx.device.EXTI;"@,
        ]
    } else {
        Seq::empty()
    }
}

/// One initialization section per board GPIO, in order.
pub open spec fn gpio_init_sections(gpio: Seq<ResolvedGpioResource>) -> Result<
    Seq<Seq<char>>,
    Seq<char>,
>
    decreases gpio.len(),
{
    if gpio.len() == 0 {
        Ok(Seq::empty())
    } else {
        match gpio_init_sections(gpio.drop_last()) {
            Err(e) => Err(e),
            Ok(prev) => {
                let r = gpio.last();
                match spec_port_letter(r.hardware.pin.port) {
                    None => Err(port_letter_error(r.hardware.pin.port)),
                    Some(_) => Ok(
                        prev.push(
                            guard_line("Task `"@ + r.owner_task@ + "` board GPIO initialization"@)
                                + "\n"@ + gpio_initialization(r.hardware),
                        ),
                    ),
                }
            },
        }
    }
}

proof fn lemma_gpio_sections_error_stays(gpio: Seq<ResolvedGpioResource>, n: int)
    requires
        0 <= n <= gpio.len(),
        gpio_init_sections(gpio.take(n)) is Err,
    ensures
        gpio_init_sections(gpio) == gpio_init_sections(gpio.take(n)),
    decreases gpio.len() - n,
{
    if n < gpio.len() {
        assert(gpio.take(n + 1).drop_last() =~= gpio.take(n));
        lemma_gpio_sections_error_stays(gpio, n + 1);
    } else {
        assert(gpio.take(n) =~= gpio);
    }
}

fn has_interrupt_input_exec(gpio: &Vec<ResolvedGpioResource>) -> (r: bool)
    ensures
        r == has_interrupt_input(gpio@),
{
    let mut i: usize = 0;
    while i < gpio.len()
        invariant
            i <= gpio.len(),
            forall|k: int|
                0 <= k < i ==> !(#[trigger] gpio@[k].hardware.mode matches GpioMode::Input {
                    interrupt: Some(_),
                }),
        decreases gpio.len() - i,
    {
        if let GpioMode::Input { interrupt: Some(_) } = gpio[i].hardware.mode {
            return true;
        }
        i += 1;
    }
    false
}

/// Renders the initialization section of each board GPIO.
pub fn render_gpio_sections(gpio: &Vec<ResolvedGpioResource>) -> (r: Result<Vec<String>, String>)
    ensures
        match (r, gpio_init_sections(gpio@)) {
            (Ok(v), Ok(s)) => string_views(v@) == s,
            (Err(e), Err(t)) => e@ == t,
            _ => false,
        },
{
    let mut lines: Vec<String> = Vec::new();
    proof {
        assert(string_views(lines@) =~= Seq::<Seq<char>>::empty());
    }
    let mut i: usize = 0;
    while i < gpio.len()
        invariant
            i <= gpio.len(),
            gpio_init_sections(gpio@.take(i as int)) == Ok::<Seq<Seq<char>>, Seq<char>>(
                string_views(lines@),
            ),
        decreases gpio.len() - i,
    {
        let resource = &gpio[i];
        proof {
            assert(gpio@.take(i + 1).drop_last() =~= gpio@.take(i as int));
        }
        match render_gpio_initialization(&resource.hardware) {
            Err(e) => {
                proof {
                    lemma_gpio_sections_error_stays(gpio@, i + 1);
                }
                return Err(e);
            },
            Ok(text) => {
                let label = concat3("Task `", resource.owner_task, "` board GPIO initialization");
                let mut section = section_guard_line(label.as_str());
                section.append("\n");
                section.append(text.as_str());
                let ghost before = lines@;
                lines.push(section);
                proof {
                    assert(string_views(lines@) =~= string_views(before).push(section@));
                }
            },
        }
        i += 1;
    }
    proof {
        assert(gpio@.take(i as int) =~= gpio@);
    }
    Ok(lines)
}

// ---------------------------------------------------------------------------
// Composition
// ---------------------------------------------------------------------------

/// Statements of `init` up to the board GPIO configuration: preamble,
/// periodic-control timers, task state, port splits of `ports`, SYSCFG and
/// EXTI when needed, and board GPIO sections; the first diagnostic.
pub open spec fn initialization_head(
    board: BoardDeclaration,
    clock: ClockSource,
    m: MonotonicDeclaration,
    d: Option<InitDelayDeclaration>,
    controls: Seq<ResolvedPeriodicControl>,
    states: Seq<ResolvedTaskState>,
    ports: Seq<GpioPort>,
    gpio: Seq<ResolvedGpioResource>,
    imu_count: nat,
) -> Result<Seq<Seq<char>>, Seq<char>> {
    match preamble_lines(board, clock, m, d) {
        Err(e) => Err(e),
        Ok(a) => match control_init_sections(controls) {
            Err(e) => Err(e),
            Ok(b) => {
                let c = if states.len() > 0 {
                    seq![join_lines(state_init_lines(states))]
                } else {
                    Seq::empty()
                };
                match port_split_lines(ports) {
                    Err(e) => Err(e),
                    Ok(s) => match gpio_init_sections(gpio) {
                        Err(e) => Err(e),
                        Ok(g) => Ok(a + b + c + s + exti_lines(needs_exti(gpio, imu_count)) + g),
                    },
                }
            },
        },
    }
}

fn append_lines(lines: &mut Vec<String>, more: Vec<String>)
    ensures
        string_views(final(lines)@) == string_views(old(lines)@) + string_views(more@),
{
    let ghost m = more@;
    let mut rest = more;
    lines.append(&mut rest);
    proof {
        assert(string_views(lines@) =~= string_views(old(lines)@) + string_views(m));
    }
}

/// Renders the statements of `init` up to the board GPIO configuration.
/// `ports` holds the GPIO ports that initialization splits, as
/// [`initialization_ports`] collects them for the resources it knows.
pub fn render_initialization_head(
    board: &BoardDeclaration,
    clock: ClockSource,
    monotonic: MonotonicDeclaration,
    init_delay: Option<InitDelayDeclaration>,
    controls: &Vec<ResolvedPeriodicControl>,
    states: &Vec<ResolvedTaskState>,
    ports: &Vec<GpioPort>,
    gpio: &Vec<ResolvedGpioResource>,
    imus: &Vec<ResolvedImuEndpoint>,
) -> (r: Result<Vec<String>, String>)
    ensures
        match (
            r,
            initialization_head(
                *board,
                clock,
                monotonic,
                init_delay,
                controls@,
                states@,
                ports@,
                gpio@,
                imus@.len(),
            ),
        ) {
            (Ok(v), Ok(s)) => string_views(v@) == s,
            (Err(e), Err(t)) => e@ == t,
            _ => false,
        },
{
    let mut lines = render_initialization_preamble(board, clock, monotonic, init_delay)?;
    let sections = render_periodic_control_sections(controls)?;
    append_lines(&mut lines, sections);
    if states.len() > 0 {
        let state = render_task_state_initialization(states);
        let ghost before = lines@;
        lines.push(state);
        proof {
            assert(string_views(lines@) =~= string_views(before).push(state@));
        }
    }
    let splits = render_port_splits(ports)?;
    append_lines(&mut lines, splits);
    if imus.len() > 0 || has_interrupt_input_exec(gpio) {
        let ghost before = lines@;
        lines.push(String::from_str("let mut syscfg = cx.device.SYSCFG.constrain(&mut rcc);"));
        lines.push(String::from_str("let mut exti = cx.device.EXTI;"));
        proof {
            assert(string_views(lines@) =~= string_views(before) + exti_lines(true));
        }
    }
    let gpio_sections = render_gpio_sections(gpio)?;
    append_lines(&mut lines, gpio_sections);
    proof {
        let h = initialization_head(
            *board,
            clock,
            monotonic,
            init_delay,
            controls@,
            states@,
            ports@,
            gpio@,
            imus@.len(),
        );
        match h {
            Ok(t) => {
                assert(string_views(lines@) =~= t);
            },
            Err(_) => {},
        }
    }
    Ok(lines)
}

// ---------------------------------------------------------------------------
// Laws
// ---------------------------------------------------------------------------

/// Position of a port in declaration order.
pub open spec fn port_index(p: GpioPort) -> int {
    match p {
        GpioPort::A => 0,
        GpioPort::B => 1,
        GpioPort::C => 2,
        GpioPort::D => 3,
        GpioPort::E => 4,
        GpioPort::F => 5,
        GpioPort::G => 6,
        GpioPort::H => 7,
        GpioPort::I => 8,
        GpioPort::J => 9,
        GpioPort::K => 10,
    }
}

proof fn lemma_split_lines_upto_contains(ports: Seq<GpioPort>, n: int, p: GpioPort)
    requires
        0 <= port_index(p) < n,
        ports.contains(p),
    ensures
        split_lines_upto(ports, n).contains(split_line(p)),
    decreases n,
{
    assert(port_at(port_index(p)) == p);
    if port_index(p) == n - 1 {
        let s = split_lines_upto(ports, n);
        assert(s[s.len() - 1] == split_line(p));
    } else {
        lemma_split_lines_upto_contains(ports, n - 1, p);
        let prev = split_lines_upto(ports, n - 1);
        let k = choose|k: int| 0 <= k < prev.len() && prev[k] == split_line(p);
        if ports.contains(port_at(n - 1)) {
            assert(split_lines_upto(ports, n)[k] == split_line(p));
        }
    }
}

/// Each split statement names the port by its lower-case letter at a fixed
/// position, so different ports give different statements.
proof fn lemma_split_line_injective(p: GpioPort, q: GpioPort)
    requires
        port_index(p) < 9,
        port_index(q) < 9,
        p != q,
    ensures
        split_line(p) != split_line(q),
{
    reveal_strlit("let gpio");
    reveal_strlit("a");
    reveal_strlit("b");
    reveal_strlit("c");
    reveal_strlit("d");
    reveal_strlit("e");
    reveal_strlit("f");
    reveal_strlit("g");
    reveal_strlit("h");
    reveal_strlit("i");
    assert(port_lower(p).len() == 1 && port_lower(q).len() == 1);
    assert(port_lower(p)[0] != port_lower(q)[0]);
    let hp = "let gpio"@ + port_lower(p);
    let hq = "let gpio"@ + port_lower(q);
    assert(hp[8] == port_lower(p)[0]);
    assert(hq[8] == port_lower(q)[0]);
    assert(split_line(p)[8] == hp[8]);
    assert(split_line(q)[8] == hq[8]);
}

/// The line splits one of the first `n` ports.
spec fn splits_early_port(line: Seq<char>, n: int) -> bool {
    exists|p: GpioPort| port_index(p) < n && line == split_line(p)
}

proof fn lemma_split_lines_upto_distinct(ports: Seq<GpioPort>, n: int)
    requires
        n <= 9,
    ensures
        split_lines_upto(ports, n).no_duplicates(),
        forall|k: int|
            0 <= k < split_lines_upto(ports, n).len() ==> #[trigger] splits_early_port(
                split_lines_upto(ports, n)[k],
                n,
            ),
    decreases n,
{
    if n > 0 {
        lemma_split_lines_upto_distinct(ports, n - 1);
        let prev = split_lines_upto(ports, n - 1);
        let cur = split_lines_upto(ports, n);
        let q = port_at(n - 1);
        assert(port_index(q) == n - 1);
        assert forall|k: int| 0 <= k < prev.len() implies splits_early_port(prev[k], n) && prev[k]
            != split_line(q) by {
            assert(splits_early_port(prev[k], n - 1));
            let p = choose|p: GpioPort| port_index(p) < n - 1 && prev[k] == split_line(p);
            lemma_split_line_injective(p, q);
        }
        if ports.contains(q) {
            assert forall|i: int, j: int| 0 <= i < j < cur.len() implies cur[i] != cur[j] by {
                if j == cur.len() - 1 {
                    assert(cur[i] == prev[i]);
                } else {
                    assert(cur[i] == prev[i] && cur[j] == prev[j]);
                }
            }
            assert forall|k: int| 0 <= k < cur.len() implies #[trigger] splits_early_port(
                cur[k],
                n,
            ) by {
                if k < prev.len() {
                    assert(cur[k] == prev[k]);
                } else {
                    assert(cur[k] == split_line(q));
                }
            }
        }
    }
}

/// Initialization splits every GPIO port that a board GPIO, a serial
/// endpoint route or an SPI IMU endpoint uses, exactly once: given the
/// ports [`initialization_ports`] collects, every used port has its split
/// statement among the rendered ones, and no statement occurs twice.
pub proof fn lemma_used_ports_are_split_once(
    gpio: Seq<ResolvedGpioResource>,
    serials: Seq<ResolvedSerialEndpoint>,
    imus: Seq<ResolvedImuEndpoint>,
    ports: Seq<GpioPort>,
    p: GpioPort,
)
    requires
        forall|q: GpioPort| ports.contains(q) <==> uses_port(gpio, serials, imus, q),
        port_split_lines(ports) is Ok,
    ensures
        uses_port(gpio, serials, imus, p) ==> port_split_lines(ports)->Ok_0.contains(split_line(p)),
        port_split_lines(ports)->Ok_0.no_duplicates(),
{
    lemma_split_lines_upto_distinct(ports, 9);
    if uses_port(gpio, serials, imus, p) {
        assert(ports.contains(p));
        assert(p != GpioPort::J && p != GpioPort::K);
        lemma_split_lines_upto_contains(ports, 9, p);
    }
}

/// The statements begin by binding `id` with `let` or `let mut`, followed
/// by a space.
pub open spec fn binds(text: Seq<char>, id: Seq<char>) -> bool {
    ||| ("let "@ + id).is_prefix_of(text) && text.len() > 4 + id.len() && text[4 + id.len() as int] == ' '
    ||| ("let mut "@ + id).is_prefix_of(text) && text.len() > 8 + id.len() && text[8 + id.len() as int]
        == ' '
}

proof fn lemma_prefix_of_sum(p: Seq<char>, rest: Seq<char>)
    ensures
        p.is_prefix_of(p + rest),
{
    assert forall|i: int| 0 <= i < p.len() implies p[i] == (p + rest)[i] by {}
}

proof fn lemma_prefix_extend(p: Seq<char>, s: Seq<char>, t: Seq<char>)
    requires
        p.is_prefix_of(s),
    ensures
        p.is_prefix_of(s + t),
{
    assert forall|i: int| 0 <= i < p.len() implies p[i] == (s + t)[i] by {
        assert(p[i] == s[i]);
    }
}

proof fn lemma_binding_head(kw: Seq<char>, id: Seq<char>, sep: Seq<char>, text: Seq<char>)
    requires
        (kw + id + sep).is_prefix_of(text),
        sep.len() > 0,
        sep[0] == ' ',
    ensures
        (kw + id).is_prefix_of(text),
        text.len() > (kw + id).len(),
        text[(kw + id).len() as int] == ' ',
{
    let head = kw + id;
    let s1 = head + sep;
    assert forall|i: int| 0 <= i < head.len() implies head[i] == text[i] by {
        assert(s1[i] == head[i]);
    }
    assert(s1[head.len() as int] == sep[0]);
}

proof fn lemma_gpio_initialization_binds(g: crate::gpio::GpioHardwareDeclaration)
    ensures
        binds(gpio_initialization(g), g.id@),
{
    let id = g.id@;
    let text = gpio_initialization(g);
    reveal_strlit("let ");
    reveal_strlit("let mut ");
    match g.mode {
        GpioMode::Output { drive: _, initial_level } => {
            reveal_strlit(" = ");
            let s1 = "let mut "@ + id + " = "@;
            let s2 = s1 + pin_path(g);
            let s3 = s2 + ".into_push_pull_output_in_state(PinState::"@;
            let s4 = s3 + level_name(initial_level);
            let s5 = s4 + ");\n"@;
            let s6 = s5 + id;
            let s7 = s6 + ".set_internal_resistor(Pull::"@;
            let s8 = s7 + pull_name(g.pull);
            let s9 = s8 + ");\n"@;
            let s10 = s9 + id;
            let s11 = s10 + ".set_speed(Speed::Low);"@;
            assert(text == s11);
            lemma_prefix_of_sum(s1, pin_path(g));
            lemma_prefix_extend(s1, s2, ".into_push_pull_output_in_state(PinState::"@);
            lemma_prefix_extend(s1, s3, level_name(initial_level));
            lemma_prefix_extend(s1, s4, ");\n"@);
            lemma_prefix_extend(s1, s5, id);
            lemma_prefix_extend(s1, s6, ".set_internal_resistor(Pull::"@);
            lemma_prefix_extend(s1, s7, pull_name(g.pull));
            lemma_prefix_extend(s1, s8, ");\n"@);
            lemma_prefix_extend(s1, s9, id);
            lemma_prefix_extend(s1, s10, ".set_speed(Speed::Low);"@);
            lemma_binding_head("let mut "@, id, " = "@, text);
        },
        GpioMode::Input { interrupt } => {
            reveal_strlit(" = Input::new(");
            let s1 = "let "@ + id + " = Input::new("@;
            let s2 = s1 + pin_path(g);
            let s3 = s2 + ", Pull::"@;
            let s4 = s3 + pull_name(g.pull);
            let input = s4 + ");"@;
            lemma_prefix_of_sum(s1, pin_path(g));
            lemma_prefix_extend(s1, s2, ", Pull::"@);
            lemma_prefix_extend(s1, s3, pull_name(g.pull));
            lemma_prefix_extend(s1, s4, ");"@);
            match interrupt {
                None => {
                    assert(text == input);
                },
                Some(i) => {
                    let rest = "\nlet "@ + id + " = ferrowasp_stm32f4::exti::init_input(\n    "@ + id
                        + ",\n    &mut syscfg,\n    &mut exti,\n    Edge::"@ + edge_name(i.edge)
                        + ",\n);"@;
                    assert(text == input + rest);
                    lemma_prefix_extend(s1, input, rest);
                },
            }
            lemma_binding_head("let "@, id, " = Input::new("@, text);
        },
    }
}

proof fn lemma_gpio_lowering_declares(
    v: crate::resource_lowering::LoweredLines,
    gpio: Seq<ResolvedGpioResource>,
    i: int,
)
    requires
        0 <= i < gpio.len(),
        crate::resource_lowering::lower_gpio(v, gpio) is Ok,
    ensures
        crate::resource_lowering::lower_gpio(v, gpio)->Ok_0.local_values.contains(
            gpio[i].hardware.id@,
        ),
    decreases gpio.len(),
{
    let w = crate::resource_lowering::lower_gpio(v, gpio.drop_last())->Ok_0;
    let r = gpio.last();
    let g = guard_line(crate::resource_lowering::gpio_label(r));
    let c = spec_port_letter(r.hardware.pin.port)->Some_0;
    let last = w.local_guard(crate::resource_lowering::gpio_label(r)).local(
        crate::resource_lowering::field_line(
            r.hardware.id@,
            crate::resource_lowering::gpio_pin_type(r.hardware, c),
        ),
        r.hardware.id@,
    );
    assert(last.local_values == w.local_values.push(g).push(r.hardware.id@));
    if i == gpio.len() - 1 {
        assert(last.local_values[last.local_values.len() - 1] == gpio[i].hardware.id@);
    } else {
        lemma_gpio_lowering_declares(v, gpio.drop_last(), i);
        let k = choose|k: int| 0 <= k < w.local_values.len() && w.local_values[k]
            == gpio[i].hardware.id@;
        assert(last.local_values[k] == gpio[i].hardware.id@);
    }
}

proof fn lemma_gpio_section_at(gpio: Seq<ResolvedGpioResource>, i: int)
    requires
        0 <= i < gpio.len(),
        gpio_init_sections(gpio) is Ok,
    ensures
        gpio_init_sections(gpio)->Ok_0.len() == gpio.len(),
        gpio_init_sections(gpio)->Ok_0[i] == guard_line(
            "Task `"@ + gpio[i].owner_task@ + "` board GPIO initialization"@,
        ) + "\n"@ + gpio_initialization(gpio[i].hardware),
    decreases gpio.len(),
{
    let prev = gpio.drop_last();
    if gpio.len() == 1 {
        assert(gpio_init_sections(prev) == Ok::<Seq<Seq<char>>, Seq<char>>(Seq::empty()));
    } else if i < gpio.len() - 1 {
        assert(gpio_init_sections(prev) is Ok);
        lemma_gpio_section_at(prev, i);
        assert(prev[i] == gpio[i]);
    } else {
        assert(gpio_init_sections(prev) is Ok);
        lemma_gpio_section_at(prev, 0);
    }
}

/// Every board GPIO that resource lowering declares is initialized under
/// the same name: its identifier is among the `Local` values, and its
/// initialization section, at the same position as the GPIO, binds that
/// identifier with `let`.
pub proof fn lemma_lowered_gpio_is_initialized(
    v: crate::resource_lowering::LoweredLines,
    gpio: Seq<ResolvedGpioResource>,
    i: int,
)
    requires
        0 <= i < gpio.len(),
        crate::resource_lowering::lower_gpio(v, gpio) is Ok,
        gpio_init_sections(gpio) is Ok,
    ensures
        crate::resource_lowering::lower_gpio(v, gpio)->Ok_0.local_values.contains(
            gpio[i].hardware.id@,
        ),
        gpio_init_sections(gpio)->Ok_0[i] == guard_line(
            "Task `"@ + gpio[i].owner_task@ + "` board GPIO initialization"@,
        ) + "\n"@ + gpio_initialization(gpio[i].hardware),
        binds(gpio_initialization(gpio[i].hardware), gpio[i].hardware.id@),
{
    lemma_gpio_lowering_declares(v, gpio, i);
    lemma_gpio_section_at(gpio, i);
    lemma_gpio_initialization_binds(gpio[i].hardware);
}

proof fn lemma_role_index_in_bounds(
    rs: Seq<crate::resolve::ResolvedPeriodicControlResource>,
    role: PeriodicControlResourceRole,
    j: int,
)
    ensures
        periodic_role_index_from(rs, role, j) matches Some(k) ==> 0 <= j <= k < rs.len(),
    decreases rs.len() - j,
{
    if 0 <= j < rs.len() && rs[j].role != role {
        lemma_role_index_in_bounds(rs, role, j + 1);
    }
}

/// Every periodic control whose initialization renders has its scheduler
/// and phase among the lowered `Local` values, and its initialization binds
/// the scheduler first and sets the phase to zero last.
pub proof fn lemma_lowered_control_is_initialized(
    v: crate::resource_lowering::LoweredLines,
    cs: Seq<ResolvedPeriodicControl>,
    i: int,
)
    requires
        0 <= i < cs.len(),
        control_init(cs[i]) is Ok,
    ensures
        ({
            let rs = cs[i].resources@;
            let scheduler = rs[periodic_role_index_from(
                rs,
                PeriodicControlResourceRole::Scheduler,
                0,
            )->Some_0].id@;
            let phase = rs[periodic_role_index_from(rs, PeriodicControlResourceRole::Phase, 0)->Some_0].id@;
            let values = crate::resource_lowering::lower_controls(v, cs).local_values;
            let text = control_init(cs[i])->Ok_0;
            &&& values.contains(scheduler)
            &&& values.contains(phase)
            &&& binds(text, scheduler)
            &&& (phase + " = 0;"@).is_suffix_of(text)
        }),
{
    let c = cs[i];
    let rs = c.resources@;
    let a = periodic_role_index_from(rs, PeriodicControlResourceRole::Scheduler, 0)->Some_0;
    let b = periodic_role_index_from(rs, PeriodicControlResourceRole::Phase, 0)->Some_0;
    lemma_role_index_in_bounds(rs, PeriodicControlResourceRole::Scheduler, 0);
    lemma_role_index_in_bounds(rs, PeriodicControlResourceRole::Phase, 0);
    crate::resource_lowering::lemma_control_values_contain(v, cs, i, a);
    crate::resource_lowering::lemma_control_values_contain(v, cs, i, b);
    let scheduler = rs[a].id@;
    let phase = rs[b].id@;
    let text = control_init(c)->Ok_0;
    reveal_strlit(" = init_control_scheduler(\n    cx.device.");
    reveal_strlit("let ");
    let sep = " = init_control_scheduler(\n    cx.device."@;
    let s1 = "let "@ + scheduler + sep;
    let s2 = s1 + crate::lower::spec_timer_pac_identifier(c.hardware.peripheral);
    let s3 = s2 + ",\n    &mut rcc,\n    "@;
    let s4 = s3 + grouped_decimal(c.declaration.scheduler_hz as nat);
    let s5 = s4 + ".Hz(),\n)\n.expect(\"validated periodic control timer must start\");\nlet "@;
    let s6 = s5 + phase;
    let s7 = s6 + " = 0;"@;
    assert(text == s7);
    lemma_prefix_of_sum(s1, crate::lower::spec_timer_pac_identifier(c.hardware.peripheral));
    lemma_prefix_extend(s1, s2, ",\n    &mut rcc,\n    "@);
    lemma_prefix_extend(s1, s3, grouped_decimal(c.declaration.scheduler_hz as nat));
    lemma_prefix_extend(
        s1,
        s4,
        ".Hz(),\n)\n.expect(\"validated periodic control timer must start\");\nlet "@,
    );
    lemma_prefix_extend(s1, s5, phase);
    lemma_prefix_extend(s1, s6, " = 0;"@);
    lemma_binding_head("let "@, scheduler, sep, text);
    let tail = phase + " = 0;"@;
    assert(s7 =~= s5 + tail);
    assert(tail =~= s7.subrange(s7.len() - tail.len(), s7.len() as int));
}

} // verus!
