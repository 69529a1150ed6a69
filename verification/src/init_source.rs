//! The complete body of the generated RTIC `init` function, assembled from
//! the initialization of every resource kind this library models.

use vstd::prelude::*;

use crate::board::BoardDeclaration;
use crate::dshot_initialization::{
    dshot_initialization, render_dshot_actuator_initialization, ResolvedDshotActuator,
};
use crate::initialization::{
    control_init_sections, exti_lines, gpio_init_sections, initialization_ports,
    lemma_port_splits_depend_on_membership, needs_exti, port_splits_where, preamble_lines,
    render_initialization_head, uses_port, ClockSource,
};
use crate::pins::GpioPort;
use crate::platform_config::PlatformConfig;
use crate::resolve::{string_views, ResolvedGpioResource, ResolvedImuEndpoint, ResolvedPeriodicControl};
use crate::resource_lowering::{guard_line, join_lines, section_guard_line, state_init_lines};
use crate::serial_endpoint::ResolvedSerialEndpoint;
use crate::serial_lowering::{
    endpoint_initialization_error, endpoint_initialization_source, render_endpoint_initialization,
};
use crate::service_initialization::{
    imu_initialization, render_imu_endpoint_initialization, render_serial_service_routing,
    serial_routing,
};
use crate::state::ResolvedTaskState;
use crate::text::concat3;
use crate::timing::{InitDelayDeclaration, MonotonicDeclaration};

verus! {

// ---------------------------------------------------------------------------
// Ports of the DShot actuator
// ---------------------------------------------------------------------------

/// A GPIO port that a DShot actuator's motor outputs or ESC telemetry
/// receiver use.
pub open spec fn dshot_uses_port(a: ResolvedDshotActuator, p: GpioPort) -> bool {
    ||| a.hardware.lanes@[0].pin.port == p
    ||| a.hardware.lanes@[1].pin.port == p
    ||| a.hardware.lanes@[2].pin.port == p
    ||| a.hardware.lanes@[3].pin.port == p
    ||| (a.telemetry.port.rx matches Some(r) && r.pin.port == p)
}

/// A GPIO port that initialization splits: one the board GPIOs, serial
/// endpoints, SPI IMU endpoints, or DShot actuators use.
pub open spec fn init_uses_port(
    gpio: Seq<ResolvedGpioResource>,
    serials: Seq<ResolvedSerialEndpoint>,
    imus: Seq<ResolvedImuEndpoint>,
    dshots: Seq<ResolvedDshotActuator>,
    p: GpioPort,
) -> bool {
    ||| uses_port(gpio, serials, imus, p)
    ||| exists|i: int| 0 <= i < dshots.len() && #[trigger] dshot_uses_port(dshots[i], p)
}

/// The ports initialization splits, as a predicate.
pub open spec fn init_port_used(
    gpio: Seq<ResolvedGpioResource>,
    serials: Seq<ResolvedSerialEndpoint>,
    imus: Seq<ResolvedImuEndpoint>,
    dshots: Seq<ResolvedDshotActuator>,
) -> spec_fn(GpioPort) -> bool {
    |p: GpioPort| init_uses_port(gpio, serials, imus, dshots, p)
}

fn push_port(ports: &mut Vec<GpioPort>, p: GpioPort)
    ensures
        forall|q: GpioPort| #[trigger] final(ports)@.contains(q) <==> (old(ports)@.contains(q) || q == p),
{
    ports.push(p);
    proof {
        assert forall|q: GpioPort| #[trigger] ports@.contains(q) <==> (old(ports)@.contains(q) || q == p) by {
            if ports@.contains(q) {
                let j = choose|j: int| 0 <= j < ports@.len() && ports@[j] == q;
                if j < old(ports)@.len() {
                    assert(old(ports)@[j] == q);
                }
            }
            if old(ports)@.contains(q) {
                let j = choose|j: int| 0 <= j < old(ports)@.len() && old(ports)@[j] == q;
                assert(ports@[j] == q);
            }
            if q == p {
                assert(ports@[old(ports)@.len() as int] == q);
            }
        }
    }
}

fn add_dshot_ports(ports: &mut Vec<GpioPort>, dshots: &Vec<ResolvedDshotActuator>)
    ensures
        forall|q: GpioPort| #[trigger] final(ports)@.contains(q) <==> (old(ports)@.contains(q) || exists|i: int|
            0 <= i < dshots@.len() && #[trigger] dshot_uses_port(dshots@[i], q)),
{
    let ghost start = ports@;
    let mut i: usize = 0;
    while i < dshots.len()
        invariant
            i <= dshots.len(),
            start == old(ports)@,
            forall|q: GpioPort|
                #[trigger] ports@.contains(q) <==> (start.contains(q) || exists|k: int|
                    0 <= k < i && #[trigger] dshot_uses_port(dshots@[k], q)),
        decreases dshots.len() - i,
    {
        let ghost before = ports@;
        let actuator = &dshots[i];
        push_port(ports, actuator.hardware.lanes[0].pin.port);
        push_port(ports, actuator.hardware.lanes[1].pin.port);
        push_port(ports, actuator.hardware.lanes[2].pin.port);
        push_port(ports, actuator.hardware.lanes[3].pin.port);
        if let Some(rx) = actuator.telemetry.port.rx {
            push_port(ports, rx.pin.port);
        }
        proof {
            assert forall|q: GpioPort| #[trigger] ports@.contains(q) <==> (start.contains(q) || exists|k: int|
                0 <= k < i + 1 && #[trigger] dshot_uses_port(dshots@[k], q)) by {
                assert(ports@.contains(q) <==> (before.contains(q) || dshot_uses_port(dshots@[i as int], q)));
                if exists|k: int| 0 <= k < i + 1 && #[trigger] dshot_uses_port(dshots@[k], q) {
                    let k = choose|k: int| 0 <= k < i + 1 && #[trigger] dshot_uses_port(dshots@[k], q);
                    if k < i {
                        assert(before.contains(q));
                    }
                }
            }
        }
        i += 1;
    }
}

// ---------------------------------------------------------------------------
// Sections after the board GPIOs
// ---------------------------------------------------------------------------

/// DMA controller setup: DMA1 for serial endpoints, DMA2 for SPI IMU
/// endpoints and the DShot actuator.
pub open spec fn dma_lines(serial_count: nat, imu_count: nat, dshot_count: nat) -> Seq<Seq<char>> {
    (if serial_count > 0 {
        seq!["let dma1 = StreamsTuple::new(cx.device.DMA1, &mut rcc);"@]
    } else {
        Seq::empty()
    }) + (if imu_count > 0 || dshot_count > 0 {
        seq!["let dma2 = StreamsTuple::new(cx.device.DMA2, &mut rcc);"@]
    } else {
        Seq::empty()
    })
}

/// One initialization section per serial endpoint, in order.
pub open spec fn serial_init_sections(es: Seq<ResolvedSerialEndpoint>) -> Result<
    Seq<Seq<char>>,
    Seq<char>,
>
    decreases es.len(),
{
    if es.len() == 0 {
        Ok(Seq::empty())
    } else {
        match serial_init_sections(es.drop_last()) {
            Err(e) => Err(e),
            Ok(prev) => match endpoint_initialization_error(es.last()) {
                Some(m) => Err(m),
                None => Ok(
                    prev.push(
                        guard_line("Serial endpoint `"@ + es.last().declaration.id@ + "` initialization"@)
                            + "\n"@ + endpoint_initialization_source(es.last()),
                    ),
                ),
            },
        }
    }
}

/// One initialization section per SPI IMU endpoint, in order.
pub open spec fn imu_init_sections(
    board: BoardDeclaration,
    d: Option<InitDelayDeclaration>,
    es: Seq<ResolvedImuEndpoint>,
) -> Result<Seq<Seq<char>>, Seq<char>>
    decreases es.len(),
{
    if es.len() == 0 {
        Ok(Seq::empty())
    } else {
        match imu_init_sections(board, d, es.drop_last()) {
            Err(e) => Err(e),
            Ok(prev) => match imu_initialization(board, d, es.last()) {
                Err(e) => Err(e),
                Ok(text) => Ok(
                    prev.push(
                        guard_line("SPI endpoint `"@ + es.last().declaration.id@ + "` initialization"@)
                            + "\n"@ + text,
                    ),
                ),
            },
        }
    }
}

/// Sections separated by a blank line.
pub open spec fn join_sections(s: Seq<Seq<char>>) -> Seq<char>
    decreases s.len(),
{
    if s.len() == 0 {
        Seq::empty()
    } else if s.len() == 1 {
        s[0]
    } else {
        join_sections(s.drop_last()) + "\n\n"@ + s.last()
    }
}

/// Body of `init` for an application with the given resources and no
/// golden service suite: clock and monotonic, periodic controls, task
/// state, port splits, EXTI access, board GPIOs, DMA controllers, serial
/// endpoints with their service routing, the DShot actuator, and SPI IMU
/// endpoints, separated by blank lines; the first diagnostic.
pub open spec fn initialization_source(
    board: BoardDeclaration,
    clock: ClockSource,
    m: MonotonicDeclaration,
    d: Option<InitDelayDeclaration>,
    platform: PlatformConfig,
    controls: Seq<ResolvedPeriodicControl>,
    states: Seq<ResolvedTaskState>,
    gpio: Seq<ResolvedGpioResource>,
    serials: Seq<ResolvedSerialEndpoint>,
    imus: Seq<ResolvedImuEndpoint>,
    dshots: Seq<ResolvedDshotActuator>,
) -> Result<Seq<char>, Seq<char>> {
    match preamble_lines(board, clock, m, d) {
        Err(e) => Err(e),
        Ok(a) => match control_init_sections(controls) {
            Err(e) => Err(e),
            Ok(b) => match port_splits_where(init_port_used(gpio, serials, imus, dshots)) {
                Err(e) => Err(e),
                Ok(sp) => match gpio_init_sections(gpio) {
                    Err(e) => Err(e),
                    Ok(g) => {
                        let c = if states.len() > 0 {
                            seq![join_lines(state_init_lines(states))]
                        } else {
                            Seq::empty()
                        };
                        let head = a + b + c + sp + exti_lines(needs_exti(gpio, imus.len())) + g
                            + dma_lines(serials.len(), imus.len(), dshots.len());
                        match serial_init_sections(serials) {
                            Err(e) => Err(e),
                            Ok(se) => match (if serials.len() > 0 {
                                match serial_routing(serials, platform) {
                                    Ok(t) => Ok(seq![t]),
                                    Err(e) => Err(e),
                                }
                            } else {
                                Ok(Seq::empty())
                            }) {
                                Err(e) => Err(e),
                                Ok(rt) => match (if dshots.len() > 0 {
                                    match dshot_initialization(dshots) {
                                        Ok(t) => Ok(seq![t]),
                                        Err(e) => Err(e),
                                    }
                                } else {
                                    Ok(Seq::empty())
                                }) {
                                    Err(e) => Err(e),
                                    Ok(ds) => match imu_init_sections(board, d, imus) {
                                        Err(e) => Err(e),
                                        Ok(im) => Ok(join_sections(head + se + rt + ds + im)),
                                    },
                                },
                            },
                        }
                    },
                },
            },
        },
    }
}

proof fn lemma_serial_sections_error_stays(es: Seq<ResolvedSerialEndpoint>, n: int)
    requires
        0 <= n <= es.len(),
        serial_init_sections(es.take(n)) is Err,
    ensures
        serial_init_sections(es) == serial_init_sections(es.take(n)),
    decreases es.len() - n,
{
    if n < es.len() {
        assert(es.take(n + 1).drop_last() =~= es.take(n));
        lemma_serial_sections_error_stays(es, n + 1);
    } else {
        assert(es.take(n) =~= es);
    }
}

proof fn lemma_imu_sections_error_stays(
    board: BoardDeclaration,
    d: Option<InitDelayDeclaration>,
    es: Seq<ResolvedImuEndpoint>,
    n: int,
)
    requires
        0 <= n <= es.len(),
        imu_init_sections(board, d, es.take(n)) is Err,
    ensures
        imu_init_sections(board, d, es) == imu_init_sections(board, d, es.take(n)),
    decreases es.len() - n,
{
    if n < es.len() {
        assert(es.take(n + 1).drop_last() =~= es.take(n));
        lemma_imu_sections_error_stays(board, d, es, n + 1);
    } else {
        assert(es.take(n) =~= es);
    }
}

fn push_line(lines: &mut Vec<String>, line: String)
    ensures
        string_views(final(lines)@) == string_views(old(lines)@).push(line@),
{
    let ghost l = line@;
    lines.push(line);
    proof {
        assert(string_views(lines@) =~= string_views(old(lines)@).push(l));
    }
}

fn render_serial_sections(serials: &Vec<ResolvedSerialEndpoint>, lines: &mut Vec<String>) -> (r: Result<
    (),
    String,
>)
    ensures
        match (r, serial_init_sections(serials@)) {
            (Ok(()), Ok(s)) => string_views(final(lines)@) == string_views(old(lines)@) + s,
            (Err(e), Err(t)) => e@ == t,
            _ => false,
        },
{
    let ghost start = string_views(lines@);
    let mut i: usize = 0;
    while i < serials.len()
        invariant
            i <= serials.len(),
            start == string_views(old(lines)@),
            match serial_init_sections(serials@.take(i as int)) {
                Ok(s) => string_views(lines@) == start + s,
                Err(_) => false,
            },
        decreases serials.len() - i,
    {
        let endpoint = &serials[i];
        proof {
            assert(serials@.take(i + 1).drop_last() =~= serials@.take(i as int));
        }
        match render_endpoint_initialization(endpoint) {
            Err(e) => {
                proof {
                    lemma_serial_sections_error_stays(serials@, i + 1);
                }
                return Err(e);
            },
            Ok(text) => {
                let label = concat3("Serial endpoint `", endpoint.declaration.id, "` initialization");
                let mut section = section_guard_line(label.as_str());
                section.append("\n");
                section.append(text.as_str());
                push_line(lines, section);
            },
        }
        i += 1;
    }
    proof {
        assert(serials@.take(i as int) =~= serials@);
    }
    Ok(())
}

fn render_imu_sections(
    board: &BoardDeclaration,
    init_delay: Option<InitDelayDeclaration>,
    imus: &Vec<ResolvedImuEndpoint>,
    lines: &mut Vec<String>,
) -> (r: Result<(), String>)
    ensures
        match (r, imu_init_sections(*board, init_delay, imus@)) {
            (Ok(()), Ok(s)) => string_views(final(lines)@) == string_views(old(lines)@) + s,
            (Err(e), Err(t)) => e@ == t,
            _ => false,
        },
{
    let ghost start = string_views(lines@);
    let mut i: usize = 0;
    while i < imus.len()
        invariant
            i <= imus.len(),
            start == string_views(old(lines)@),
            match imu_init_sections(*board, init_delay, imus@.take(i as int)) {
                Ok(s) => string_views(lines@) == start + s,
                Err(_) => false,
            },
        decreases imus.len() - i,
    {
        let endpoint = &imus[i];
        proof {
            assert(imus@.take(i + 1).drop_last() =~= imus@.take(i as int));
        }
        match render_imu_endpoint_initialization(board, init_delay, endpoint) {
            Err(e) => {
                proof {
                    lemma_imu_sections_error_stays(*board, init_delay, imus@, i + 1);
                }
                return Err(e);
            },
            Ok(text) => {
                let label = concat3("SPI endpoint `", endpoint.declaration.id, "` initialization");
                let mut section = section_guard_line(label.as_str());
                section.append("\n");
                section.append(text.as_str());
                push_line(lines, section);
            },
        }
        i += 1;
    }
    proof {
        assert(imus@.take(i as int) =~= imus@);
    }
    Ok(())
}

fn join_sections_exec(lines: &Vec<String>) -> (r: String)
    ensures
        r@ == join_sections(string_views(lines@)),
{
    let mut out = String::new();
    let mut i: usize = 0;
    while i < lines.len()
        invariant
            i <= lines.len(),
            out@ == join_sections(string_views(lines@).take(i as int)),
        decreases lines.len() - i,
    {
        let ghost prefix = string_views(lines@).take(i as int);
        if i > 0 {
            out.append("\n\n");
        }
        out.append(lines[i].as_str());
        proof {
            let next = string_views(lines@).take(i + 1);
            assert(next.drop_last() =~= prefix);
            assert(next.last() == lines@[i as int]@);
        }
        i += 1;
    }
    proof {
        assert(string_views(lines@).take(i as int) =~= string_views(lines@));
    }
    out
}

/// Renders the body of `init` for an application without the golden
/// service suite: every modeled resource kind's initialization, in the
/// order the RTIC application needs it, separated by blank lines.
pub fn render_initialization(
    board: &BoardDeclaration,
    clock: ClockSource,
    monotonic: MonotonicDeclaration,
    init_delay: Option<InitDelayDeclaration>,
    platform: PlatformConfig,
    controls: &Vec<ResolvedPeriodicControl>,
    states: &Vec<ResolvedTaskState>,
    gpio: &Vec<ResolvedGpioResource>,
    serials: &Vec<ResolvedSerialEndpoint>,
    imus: &Vec<ResolvedImuEndpoint>,
    dshots: &Vec<ResolvedDshotActuator>,
) -> (r: Result<String, String>)
    ensures
        match (
            r,
            initialization_source(
                *board,
                clock,
                monotonic,
                init_delay,
                platform,
                controls@,
                states@,
                gpio@,
                serials@,
                imus@,
                dshots@,
            ),
        ) {
            (Ok(s), Ok(t)) => s@ == t,
            (Err(e), Err(t)) => e@ == t,
            _ => false,
        },
{
    let mut ports = initialization_ports(gpio, serials, imus);
    add_dshot_ports(&mut ports, dshots);
    proof {
        let used = init_port_used(gpio@, serials@, imus@, dshots@);
        assert forall|p: GpioPort| ports@.contains(p) == used(p) by {
            assert(ports@.contains(p) <==> init_uses_port(gpio@, serials@, imus@, dshots@, p));
        }
        lemma_port_splits_depend_on_membership(ports@, used);
    }
    let mut lines = render_initialization_head(
        board,
        clock,
        monotonic,
        init_delay,
        controls,
        states,
        &ports,
        gpio,
        imus,
    )?;
    let ghost head_lines = string_views(lines@);
    if serials.len() > 0 {
        push_line(&mut lines, String::from_str("let dma1 = StreamsTuple::new(cx.device.DMA1, &mut rcc);"));
    }
    if imus.len() > 0 || dshots.len() > 0 {
        push_line(&mut lines, String::from_str("let dma2 = StreamsTuple::new(cx.device.DMA2, &mut rcc);"));
    }
    proof {
        assert(string_views(lines@) =~= head_lines + dma_lines(serials@.len(), imus@.len(), dshots@.len()));
    }
    let ghost with_dma = string_views(lines@);
    render_serial_sections(serials, &mut lines)?;
    let ghost with_serial = string_views(lines@);
    let ghost rt: Seq<Seq<char>> = Seq::empty();
    if serials.len() > 0 {
        let routing = render_serial_service_routing(serials, platform)?;
        proof {
            rt = seq![routing@];
        }
        push_line(&mut lines, routing);
    }
    let ghost with_routing = string_views(lines@);
    proof {
        assert(with_routing =~= with_serial + rt);
    }
    let ghost ds: Seq<Seq<char>> = Seq::empty();
    if dshots.len() > 0 {
        let dshot = render_dshot_actuator_initialization(dshots)?;
        proof {
            ds = seq![dshot@];
        }
        push_line(&mut lines, dshot);
    }
    let ghost with_dshot = string_views(lines@);
    proof {
        assert(with_dshot =~= with_routing + ds);
    }
    render_imu_sections(board, init_delay, imus, &mut lines)?;
    proof {
        let se = serial_init_sections(serials@)->Ok_0;
        let im = imu_init_sections(*board, init_delay, imus@)->Ok_0;
        assert(with_serial =~= with_dma + se);
        assert(string_views(lines@) =~= with_dshot + im);
        assert(string_views(lines@) =~= head_lines + dma_lines(serials@.len(), imus@.len(), dshots@.len())
            + se + rt + ds + im);
    }
    let text = join_sections_exec(&lines);
    Ok(text)
}

} // verus!
