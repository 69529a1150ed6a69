//! Interrupt vectors of the schema-era STM32F4 backend: the vector each
//! interrupt-bound task resolves to, exclusive ownership of those vectors,
//! and the free `EXTI0` through `EXTI4` vectors that dispatch software tasks.

use vstd::prelude::*;

use crate::legacy::{resource_id, HardwareResource, PinId, Stm32SerialRoute};
use crate::resource_lowering::join_comma;
use crate::resolve::{lemma_exti_vector_names_its_line, spec_exti_binding};
use crate::text::{decimal, push_decimal, push_decimal_usize, str_eq};

verus! {

/// Hardware event that starts an interrupt-bound task.
#[derive(Clone, Copy, Debug, PartialEq, Eq, Structural)]
pub enum HardwareInterrupt {
    /// The resource's own line: the EXTI line of a GPIO.
    Primary,
    /// Receive-DMA stream completion of a UART receiver.
    DmaRx,
    /// Peripheral interrupt of a UART receiver.
    Peripheral,
}

/// How a resolved task is started.
#[derive(Clone, Copy, Debug)]
pub enum ResolvedTaskTrigger {
    /// Bound to an interrupt of a hardware resource.
    Interrupt {
        /// Resource whose interrupt starts the task.
        resource: HardwareResource,
        /// Which of its interrupts.
        interrupt: HardwareInterrupt,
    },
    /// Spawned in software and run by an RTIC dispatcher.
    Spawned,
}

/// A task of a resolved schema-era application, as far as interrupt binding
/// reads it.
#[derive(Clone, Copy, Debug)]
pub struct ResolvedTask {
    /// Task identifier.
    pub id: &'static str,
    /// RTIC priority.
    pub priority: u8,
    /// How the task is started.
    pub trigger: ResolvedTaskTrigger,
}

/// EXTI vector that serves GPIO line `pin`.
pub open spec fn exti_vector(pin: u8) -> Seq<char> {
    if pin == 0 {
        "EXTI0"@
    } else if pin == 1 {
        "EXTI1"@
    } else if pin == 2 {
        "EXTI2"@
    } else if pin == 3 {
        "EXTI3"@
    } else if pin == 4 {
        "EXTI4"@
    } else if pin <= 9 {
        "EXTI9_5"@
    } else {
        "EXTI15_10"@
    }
}

/// The EXTI vector serving a GPIO line names the lines it serves: each of
/// lines 0 through 4 has a vector of its own, `EXTI` followed by the line
/// number; lines 5 through 9 share `EXTI9_5` and lines 10 through 15 share
/// `EXTI15_10`, named by the highest and then the lowest line they serve.
/// It is the vector the application resolver binds for the same line.
pub proof fn lemma_legacy_exti_vector_names_its_line(pin: u8)
    requires
        pin < 16,
    ensures
        pin <= 4 ==> exti_vector(pin) == "EXTI"@ + decimal(pin as nat),
        5 <= pin <= 9 ==> exti_vector(pin) == "EXTI"@ + decimal(9) + "_"@ + decimal(5),
        10 <= pin ==> exti_vector(pin) == "EXTI"@ + decimal(15) + "_"@ + decimal(10),
        forall|p: crate::pins::PinId| p.pin == pin ==> #[trigger] spec_exti_binding(p) == exti_vector(pin),
{
    reveal_strlit("EXTI");
    reveal_strlit("_");
    reveal_strlit("EXTI0");
    reveal_strlit("EXTI1");
    reveal_strlit("EXTI2");
    reveal_strlit("EXTI3");
    reveal_strlit("EXTI4");
    reveal_strlit("EXTI9_5");
    reveal_strlit("EXTI15_10");
    reveal_with_fuel(decimal, 2);
    let v = exti_vector(pin);
    if pin <= 4 {
        assert(v =~= "EXTI"@ + decimal(pin as nat));
    } else if pin <= 9 {
        assert(v =~= "EXTI"@ + decimal(9) + "_"@ + decimal(5));
    } else {
        assert(decimal(15) =~= seq!['1', '5']);
        assert(decimal(10) =~= seq!['1', '0']);
        assert(v =~= "EXTI"@ + decimal(15) + "_"@ + decimal(10));
    }
    assert forall|p: crate::pins::PinId| p.pin == pin implies #[trigger] spec_exti_binding(p) == exti_vector(
        pin,
    ) by {
        lemma_exti_vector_names_its_line(p);
    }
}

fn exti_vector_str(pin: u8) -> (r: &'static str)
    requires
        pin < 16,
    ensures
        r@ == exti_vector(pin),
{
    if pin == 0 {
        "EXTI0"
    } else if pin == 1 {
        "EXTI1"
    } else if pin == 2 {
        "EXTI2"
    } else if pin == 3 {
        "EXTI3"
    } else if pin == 4 {
        "EXTI4"
    } else if pin <= 9 {
        "EXTI9_5"
    } else {
        "EXTI15_10"
    }
}

/// Peripheral interrupt vector of a receive route.
pub open spec fn route_interrupt(r: Stm32SerialRoute) -> Seq<char> {
    match r {
        Stm32SerialRoute::Usart2Rx => "USART2"@,
        Stm32SerialRoute::Uart4Rx => "UART4"@,
    }
}

/// Value recorded for `id` among the first `n` entries, the later entry
/// winning: what a map filled with the entries in order holds for `id`.
pub open spec fn recorded<V>(entries: Seq<(&'static str, V)>, id: Seq<char>, n: int) -> Option<V>
    decreases n,
{
    if n <= 0 {
        None
    } else if entries[n - 1].0@ == id {
        Some(entries[n - 1].1)
    } else {
        recorded(entries, id, n - 1)
    }
}

fn recorded_pin(pins: &Vec<(&'static str, PinId)>, id: &str) -> (r: Option<PinId>)
    ensures
        r == recorded(pins@, id@, pins@.len() as int),
{
    let mut n: usize = pins.len();
    while n > 0
        invariant
            n <= pins@.len(),
            recorded(pins@, id@, pins@.len() as int) == recorded(pins@, id@, n as int),
        decreases n,
    {
        if str_eq(pins[n - 1].0, id) {
            return Some(pins[n - 1].1);
        }
        n = n - 1;
    }
    None
}

fn recorded_route(routes: &Vec<(&'static str, Stm32SerialRoute)>, id: &str) -> (r: Option<
    Stm32SerialRoute,
>)
    ensures
        r == recorded(routes@, id@, routes@.len() as int),
{
    let mut n: usize = routes.len();
    while n > 0
        invariant
            n <= routes@.len(),
            recorded(routes@, id@, routes@.len() as int) == recorded(routes@, id@, n as int),
        decreases n,
    {
        if str_eq(routes[n - 1].0, id) {
            return Some(routes[n - 1].1);
        }
        n = n - 1;
    }
    None
}

/// Vector an interrupt-bound task with identifier `id` resolves to, or why
/// it resolves to none: a GPIO line's EXTI vector, a receive-DMA stream's
/// vector, or a UART's peripheral vector.
pub open spec fn task_vector(
    id: Seq<char>,
    resource: HardwareResource,
    interrupt: HardwareInterrupt,
    pins: Seq<(&'static str, PinId)>,
    routes: Seq<(&'static str, Stm32SerialRoute)>,
) -> Result<Seq<char>, Seq<char>> {
    let rid = resource_id(resource)@;
    match interrupt {
        HardwareInterrupt::Primary => match recorded(pins, rid, pins.len() as int) {
            None => Err(
                "interrupt task `"@ + id + "` trigger resource `"@ + rid
                    + "` was not present in the validated board"@,
            ),
            Some(p) => Ok(exti_vector(p.pin)),
        },
        HardwareInterrupt::DmaRx => match resource {
            HardwareResource::UartRxDma(u) => Ok(
                "DMA"@ + decimal((u.dma.controller + 1) as nat) + "_STREAM"@ + decimal(
                    u.dma.stream as nat,
                ),
            ),
            HardwareResource::Gpio(_) => Err(
                "DMA RX interrupt task `"@ + id + "` resolved non-UART resource `"@ + rid + "`"@,
            ),
        },
        HardwareInterrupt::Peripheral => match resource {
            HardwareResource::Gpio(_) => Err(
                "serial interrupt task `"@ + id + "` resolved non-serial resource `"@ + rid + "`"@,
            ),
            HardwareResource::UartRxDma(_) => match recorded(routes, rid, routes.len() as int) {
                None => Err(
                    "serial interrupt task `"@ + id + "` resource `"@ + rid
                        + "` has no validated STM32 route"@,
                ),
                Some(r) => Ok(route_interrupt(r)),
            },
        },
    }
}

/// Task recorded as owner of vector `v`, the first pair naming it.
pub open spec fn vector_owner(owners: Seq<(Seq<char>, Seq<char>)>, v: Seq<char>, j: int) -> Option<
    Seq<char>,
>
    decreases owners.len() - j,
{
    if j < 0 || j >= owners.len() {
        None
    } else if owners[j].0 == v {
        Some(owners[j].1)
    } else {
        vector_owner(owners, v, j + 1)
    }
}

/// The (vector, task) pairs of the interrupt-bound tasks among the first `n`
/// tasks, in task order, or the first error: a task whose vector cannot be
/// resolved, or a second task on a vector already owned.
pub open spec fn vector_owners_upto(
    tasks: Seq<ResolvedTask>,
    pins: Seq<(&'static str, PinId)>,
    routes: Seq<(&'static str, Stm32SerialRoute)>,
    n: int,
) -> Result<Seq<(Seq<char>, Seq<char>)>, Seq<char>>
    decreases n,
{
    if n <= 0 {
        Ok(Seq::empty())
    } else {
        match vector_owners_upto(tasks, pins, routes, n - 1) {
            Err(e) => Err(e),
            Ok(prev) => {
                let t = tasks[n - 1];
                match t.trigger {
                    ResolvedTaskTrigger::Spawned => Ok(prev),
                    ResolvedTaskTrigger::Interrupt { resource, interrupt } => match task_vector(
                        t.id@,
                        resource,
                        interrupt,
                        pins,
                        routes,
                    ) {
                        Err(e) => Err(e),
                        Ok(v) => match vector_owner(prev, v, 0) {
                            Some(existing) => Err(
                                "interrupt tasks `"@ + existing + "` and `"@ + t.id@
                                    + "` both resolve to `"@ + v
                                    + "`; grouped STM32 EXTI vectors require one demultiplexing task"@,
                            ),
                            None => Ok(prev.push((v, t.id@))),
                        },
                    },
                }
            },
        }
    }
}

/// Distinct priorities of the spawned tasks among the first `n`, in order of
/// first appearance.
pub open spec fn spawned_priorities_upto(tasks: Seq<ResolvedTask>, n: int) -> Seq<u8>
    decreases n,
{
    if n <= 0 {
        Seq::empty()
    } else {
        let prev = spawned_priorities_upto(tasks, n - 1);
        let t = tasks[n - 1];
        if t.trigger is Spawned && !prev.contains(t.priority) {
            prev.push(t.priority)
        } else {
            prev
        }
    }
}

/// Dispatchers RTIC needs: one per distinct software priority, at least one.
pub open spec fn legacy_dispatcher_count(tasks: Seq<ResolvedTask>) -> nat {
    let n = spawned_priorities_upto(tasks, tasks.len() as int).len();
    if n == 0 {
        1
    } else {
        n
    }
}

/// Vectors that may dispatch software tasks, in order of preference.
pub open spec fn dispatcher_pool() -> Seq<Seq<char>> {
    seq!["EXTI0"@, "EXTI1"@, "EXTI2"@, "EXTI3"@, "EXTI4"@]
}

/// Some interrupt-bound task owns vector `v`.
pub open spec fn vector_owned(owners: Seq<(Seq<char>, Seq<char>)>, v: Seq<char>) -> bool {
    exists|j: int| 0 <= j < owners.len() && #[trigger] owners[j].0 == v
}

/// Vectors of `pool`, in order, that no interrupt-bound task owns.
pub open spec fn free_dispatchers(owners: Seq<(Seq<char>, Seq<char>)>, pool: Seq<Seq<char>>) -> Seq<
    Seq<char>,
>
    decreases pool.len(),
{
    if pool.len() == 0 {
        Seq::empty()
    } else {
        let rest = free_dispatchers(owners, pool.drop_last());
        if vector_owned(owners, pool.last()) {
            rest
        } else {
            rest.push(pool.last())
        }
    }
}

/// (task, vector) pairs of owner pairs.
pub open spec fn task_bindings(owners: Seq<(Seq<char>, Seq<char>)>) -> Seq<(Seq<char>, Seq<char>)> {
    owners.map_values(|p: (Seq<char>, Seq<char>)| (p.1, p.0))
}

/// Interrupt bindings of a resolved schema-era application: each
/// interrupt-bound task with its vector, in task order, and the
/// comma-separated software dispatchers; or why there are none.
pub open spec fn interrupt_bindings(
    tasks: Seq<ResolvedTask>,
    pins: Seq<(&'static str, PinId)>,
    routes: Seq<(&'static str, Stm32SerialRoute)>,
) -> Result<(Seq<(Seq<char>, Seq<char>)>, Seq<char>), Seq<char>> {
    match vector_owners_upto(tasks, pins, routes, tasks.len() as int) {
        Err(e) => Err(e),
        Ok(owners) => {
            let n = legacy_dispatcher_count(tasks);
            let free = free_dispatchers(owners, dispatcher_pool());
            if free.len() < n {
                Err(
                    "STM32F4 backend needs "@ + decimal(n)
                        + " software dispatchers but does not have enough free EXTI0 through EXTI4 vectors"@,
                )
            } else {
                Ok((task_bindings(owners), join_comma(free.take(n as int))))
            }
        },
    }
}

/// Owned strings as character-sequence pairs.
pub open spec fn pair_views(v: Seq<(String, String)>) -> Seq<(Seq<char>, Seq<char>)> {
    v.map_values(|p: (String, String)| (p.0@, p.1@))
}

/// The inputs on which resolving interrupt vectors cannot overflow: every
/// recorded pin lies on an STM32 line, and every receive-DMA controller
/// index has a successor in `u8`.
pub open spec fn interrupt_inputs_in_range(
    tasks: Seq<ResolvedTask>,
    pins: Seq<(&'static str, PinId)>,
) -> bool {
    &&& forall|k: int| 0 <= k < pins.len() ==> #[trigger] pins[k].1.pin < 16
    &&& forall|k: int|
        0 <= k < tasks.len() ==> match #[trigger] tasks[k].trigger {
            ResolvedTaskTrigger::Interrupt { resource, interrupt } => (interrupt
                == HardwareInterrupt::DmaRx && resource is UartRxDma) ==> resource->UartRxDma_0.dma.controller
                < 255,
            ResolvedTaskTrigger::Spawned => true,
        }
}

fn render_task_vector(
    id: &'static str,
    resource: HardwareResource,
    interrupt: HardwareInterrupt,
    pins: &Vec<(&'static str, PinId)>,
    routes: &Vec<(&'static str, Stm32SerialRoute)>,
) -> (r: Result<String, String>)
    requires
        forall|k: int| 0 <= k < pins@.len() ==> #[trigger] pins@[k].1.pin < 16,
        (interrupt == HardwareInterrupt::DmaRx && resource is UartRxDma) ==> resource->UartRxDma_0.dma.controller
            < 255,
    ensures
        match (r, task_vector(id@, resource, interrupt, pins@, routes@)) {
            (Ok(a), Ok(b)) => a@ == b,
            (Err(a), Err(b)) => a@ == b,
            _ => false,
        },
{
    let rid = resource.id();
    match interrupt {
        HardwareInterrupt::Primary => match recorded_pin(pins, rid) {
            None => {
                let mut m = String::from_str("interrupt task `");
                m.append(id);
                m.append("` trigger resource `");
                m.append(rid);
                m.append("` was not present in the validated board");
                Err(m)
            },
            Some(p) => {
                proof {
                    lemma_recorded_in(pins@, rid@, pins@.len() as int);
                }
                Ok(String::from_str(exti_vector_str(p.pin)))
            },
        },
        HardwareInterrupt::DmaRx => match resource {
            HardwareResource::UartRxDma(u) => {
                let mut m = String::from_str("DMA");
                push_decimal(&mut m, u.dma.controller as u32 + 1);
                m.append("_STREAM");
                push_decimal(&mut m, u.dma.stream as u32);
                Ok(m)
            },
            HardwareResource::Gpio(_) => {
                let mut m = String::from_str("DMA RX interrupt task `");
                m.append(id);
                m.append("` resolved non-UART resource `");
                m.append(rid);
                m.append("`");
                Err(m)
            },
        },
        HardwareInterrupt::Peripheral => match resource {
            HardwareResource::Gpio(_) => {
                let mut m = String::from_str("serial interrupt task `");
                m.append(id);
                m.append("` resolved non-serial resource `");
                m.append(rid);
                m.append("`");
                Err(m)
            },
            HardwareResource::UartRxDma(_) => match recorded_route(routes, rid) {
                None => {
                    let mut m = String::from_str("serial interrupt task `");
                    m.append(id);
                    m.append("` resource `");
                    m.append(rid);
                    m.append("` has no validated STM32 route");
                    Err(m)
                },
                Some(r) => Ok(String::from_str(r.peripheral_interrupt())),
            },
        },
    }
}

proof fn lemma_recorded_in<V>(entries: Seq<(&'static str, V)>, id: Seq<char>, n: int)
    requires
        0 <= n <= entries.len(),
        recorded(entries, id, n) is Some,
    ensures
        exists|k: int| 0 <= k < n && #[trigger] entries[k].1 == recorded(entries, id, n)->Some_0,
    decreases n,
{
    if entries[n - 1].0@ == id {
        assert(entries[n - 1].1 == recorded(entries, id, n)->Some_0);
    } else {
        lemma_recorded_in(entries, id, n - 1);
    }
}

fn find_vector_owner(owners: &Vec<(String, String)>, v: &str) -> (r: Option<usize>)
    ensures
        match (r, vector_owner(pair_views(owners@), v@, 0)) {
            (Some(j), Some(o)) => j < owners@.len() && owners@[j as int].1@ == o
                && owners@[j as int].0@ == v@,
            (None, None) => true,
            _ => false,
        },
{
    let ghost views = pair_views(owners@);
    let mut j: usize = 0;
    while j < owners.len()
        invariant
            j <= owners@.len(),
            views == pair_views(owners@),
            vector_owner(views, v@, 0) == vector_owner(views, v@, j as int),
        decreases owners@.len() - j,
    {
        proof {
            assert(views[j as int] == (owners@[j as int].0@, owners@[j as int].1@));
        }
        if str_eq(owners[j].0.as_str(), v) {
            return Some(j);
        }
        j = j + 1;
    }
    None
}

proof fn lemma_vector_owner_some(owners: Seq<(Seq<char>, Seq<char>)>, v: Seq<char>, j: int)
    requires
        0 <= j,
        vector_owned(owners, v),
        forall|k: int| 0 <= k < j && k < owners.len() ==> #[trigger] owners[k].0 != v,
    ensures
        vector_owner(owners, v, j) is Some,
    decreases owners.len() - j,
{
    if j < owners.len() && owners[j].0 != v {
        lemma_vector_owner_some(owners, v, j + 1);
    }
}

proof fn lemma_vector_owner_none(owners: Seq<(Seq<char>, Seq<char>)>, v: Seq<char>, j: int)
    requires
        0 <= j,
        vector_owner(owners, v, j) is None,
    ensures
        forall|k: int| j <= k < owners.len() ==> #[trigger] owners[k].0 != v,
    decreases owners.len() - j,
{
    if j < owners.len() {
        lemma_vector_owner_none(owners, v, j + 1);
    }
}

fn vector_owners(
    tasks: &Vec<ResolvedTask>,
    pins: &Vec<(&'static str, PinId)>,
    routes: &Vec<(&'static str, Stm32SerialRoute)>,
) -> (r: Result<Vec<(String, String)>, String>)
    requires
        interrupt_inputs_in_range(tasks@, pins@),
    ensures
        match (r, vector_owners_upto(tasks@, pins@, routes@, tasks@.len() as int)) {
            (Ok(a), Ok(b)) => pair_views(a@) == b,
            (Err(a), Err(b)) => a@ == b,
            _ => false,
        },
{
    let mut owners: Vec<(String, String)> = Vec::new();
    proof {
        assert(pair_views(owners@) =~= Seq::<(Seq<char>, Seq<char>)>::empty());
    }
    let mut i: usize = 0;
    while i < tasks.len()
        invariant
            i <= tasks@.len(),
            interrupt_inputs_in_range(tasks@, pins@),
            vector_owners_upto(tasks@, pins@, routes@, i as int) == Ok::<
                Seq<(Seq<char>, Seq<char>)>,
                Seq<char>,
            >(pair_views(owners@)),
        decreases tasks@.len() - i,
    {
        let task = tasks[i];
        proof {
            assert(tasks@[i as int] == task);
        }
        match task.trigger {
            ResolvedTaskTrigger::Spawned => {},
            ResolvedTaskTrigger::Interrupt { resource, interrupt } => {
                let vector = match render_task_vector(task.id, resource, interrupt, pins, routes) {
                    Err(e) => {
                        proof {
                            lemma_owners_error_stable(tasks@, pins@, routes@, i + 1, tasks@.len() as int);
                        }
                        return Err(e);
                    },
                    Ok(v) => v,
                };
                if let Some(j) = find_vector_owner(&owners, vector.as_str()) {
                    let mut m = String::from_str("interrupt tasks `");
                    m.append(owners[j].1.as_str());
                    m.append("` and `");
                    m.append(task.id);
                    m.append("` both resolve to `");
                    m.append(vector.as_str());
                    m.append("`; grouped STM32 EXTI vectors require one demultiplexing task");
                    proof {
                        lemma_owners_error_stable(tasks@, pins@, routes@, i + 1, tasks@.len() as int);
                    }
                    return Err(m);
                }
                let ghost before = owners@;
                owners.push((vector, String::from_str(task.id)));
                proof {
                    assert(pair_views(owners@) =~= pair_views(before).push((vector@, task.id@)));
                }
            },
        }
        i = i + 1;
    }
    Ok(owners)
}

proof fn lemma_owners_error_stable(
    tasks: Seq<ResolvedTask>,
    pins: Seq<(&'static str, PinId)>,
    routes: Seq<(&'static str, Stm32SerialRoute)>,
    a: int,
    b: int,
)
    requires
        0 <= a <= b,
        vector_owners_upto(tasks, pins, routes, a) is Err,
    ensures
        vector_owners_upto(tasks, pins, routes, b) == vector_owners_upto(tasks, pins, routes, a),
    decreases b - a,
{
    if b > a {
        lemma_owners_error_stable(tasks, pins, routes, a, b - 1);
    }
}

fn spawned_priorities(tasks: &Vec<ResolvedTask>) -> (r: Vec<u8>)
    ensures
        r@ == spawned_priorities_upto(tasks@, tasks@.len() as int),
{
    let mut prios: Vec<u8> = Vec::new();
    let mut i: usize = 0;
    while i < tasks.len()
        invariant
            i <= tasks@.len(),
            prios@ == spawned_priorities_upto(tasks@, i as int),
        decreases tasks@.len() - i,
    {
        if let ResolvedTaskTrigger::Spawned = tasks[i].trigger {
            let p = tasks[i].priority;
            let mut k: usize = 0;
            let mut seen = false;
            while k < prios.len()
                invariant
                    k <= prios@.len(),
                    seen == exists|q: int| 0 <= q < k && prios@[q] == p,
                decreases prios@.len() - k,
            {
                if prios[k] == p {
                    seen = true;
                }
                k = k + 1;
            }
            proof {
                if seen {
                    let q = choose|q: int| 0 <= q < k && prios@[q] == p;
                    assert(prios@.contains(p)) by {
                        assert(prios@[q] == p);
                    }
                } else {
                    assert(!prios@.contains(p));
                }
            }
            if !seen {
                prios.push(p);
            }
        }
        i = i + 1;
    }
    prios
}

fn free_dispatcher_list(owners: &Vec<(String, String)>) -> (r: Vec<&'static str>)
    ensures
        r@.map_values(|s: &'static str| s@) == free_dispatchers(pair_views(owners@), dispatcher_pool()),
{
    let ghost views = pair_views(owners@);
    let pool: [&'static str; 5] = ["EXTI0", "EXTI1", "EXTI2", "EXTI3", "EXTI4"];
    let ghost pool_view = dispatcher_pool();
    proof {
        assert(pool@.map_values(|s: &'static str| s@) =~= pool_view);
    }
    let mut free: Vec<&'static str> = Vec::new();
    let mut k: usize = 0;
    while k < 5
        invariant
            k <= 5,
            views == pair_views(owners@),
            pool@.map_values(|s: &'static str| s@) == pool_view,
            pool_view == dispatcher_pool(),
            free@.map_values(|s: &'static str| s@) == free_dispatchers(views, pool_view.take(k as int)),
        decreases 5 - k,
    {
        let candidate = pool[k];
        proof {
            assert(pool_view.take(k + 1).drop_last() =~= pool_view.take(k as int));
            assert(pool_view.take(k + 1).last() == candidate@);
        }
        let owner = find_vector_owner(owners, candidate);
        proof {
            if owner is Some {
                let j = owner->Some_0;
                assert(views[j as int].0 == candidate@);
            } else {
                lemma_vector_owner_none(views, candidate@, 0);
            }
        }
        if owner.is_none() {
            let ghost before = free@;
            free.push(candidate);
            proof {
                assert(free@.map_values(|s: &'static str| s@) =~= before.map_values(
                    |s: &'static str| s@,
                ).push(candidate@));
            }
        }
        k = k + 1;
    }
    proof {
        assert(pool_view.take(5) =~= pool_view);
    }
    free
}

/// Resolves the interrupt vector of every interrupt-bound task, rejecting
/// two tasks on one vector (the grouped `EXTI9_5` and `EXTI15_10` vectors
/// included), and picks one free `EXTI0` through `EXTI4` vector per distinct
/// software-task priority, at least one, as RTIC dispatchers. The pins and
/// receive routes are those of a validated board, in declaration order.
pub fn render_interrupt_bindings(
    tasks: &Vec<ResolvedTask>,
    pins_by_id: &Vec<(&'static str, PinId)>,
    serial_routes_by_id: &Vec<(&'static str, Stm32SerialRoute)>,
) -> (r: Result<(Vec<(String, String)>, String), String>)
    requires
        interrupt_inputs_in_range(tasks@, pins_by_id@),
    ensures
        match (r, interrupt_bindings(tasks@, pins_by_id@, serial_routes_by_id@)) {
            (Ok((b, d)), Ok((sb, sd))) => pair_views(b@) == sb && d@ == sd,
            (Err(a), Err(b)) => a@ == b,
            _ => false,
        },
{
    let owners = match vector_owners(tasks, pins_by_id, serial_routes_by_id) {
        Err(e) => return Err(e),
        Ok(o) => o,
    };
    let ghost owner_views = pair_views(owners@);
    let count_list = spawned_priorities(tasks);
    let count: usize = if count_list.len() == 0 {
        1
    } else {
        count_list.len()
    };
    let free = free_dispatcher_list(&owners);
    let ghost free_views = free@.map_values(|s: &'static str| s@);
    if free.len() < count {
        let mut m = String::from_str("STM32F4 backend needs ");
        push_decimal_usize(&mut m, count);
        m.append(" software dispatchers but does not have enough free EXTI0 through EXTI4 vectors");
        return Err(m);
    }
    let mut dispatchers = String::new();
    let mut k: usize = 0;
    while k < count
        invariant
            k <= count,
            count <= free@.len(),
            free_views == free@.map_values(|s: &'static str| s@),
            dispatchers@ == join_comma(free_views.take(k as int)),
        decreases count - k,
    {
        proof {
            assert(free_views.take(k + 1).drop_last() =~= free_views.take(k as int));
            assert(free_views.take(k + 1).last() == free@[k as int]@);
        }
        if k > 0 {
            dispatchers.append(", ");
        } else {
            proof {
                assert(free_views.take(0) =~= Seq::<Seq<char>>::empty());
            }
        }
        dispatchers.append(free[k]);
        k = k + 1;
    }
    let mut bindings: Vec<(String, String)> = Vec::new();
    let mut j: usize = 0;
    while j < owners.len()
        invariant
            j <= owners@.len(),
            owner_views == pair_views(owners@),
            pair_views(bindings@) == task_bindings(owner_views.take(j as int)),
        decreases owners@.len() - j,
    {
        let ghost before = bindings@;
        let task_id = owners[j].1.clone();
        let vector = owners[j].0.clone();
        bindings.push((task_id, vector));
        proof {
            assert(task_bindings(owner_views.take(j + 1)) =~= task_bindings(owner_views.take(j as int)).push(
                (owners@[j as int].1@, owners@[j as int].0@),
            ));
            assert(pair_views(bindings@) =~= pair_views(before).push((task_id@, vector@)));
        }
        j = j + 1;
    }
    proof {
        assert(owner_views.take(owners@.len() as int) =~= owner_views);
    }
    Ok((bindings, dispatchers))
}

proof fn lemma_owned_vectors_distinct(
    tasks: Seq<ResolvedTask>,
    pins: Seq<(&'static str, PinId)>,
    routes: Seq<(&'static str, Stm32SerialRoute)>,
    n: int,
)
    requires
        vector_owners_upto(tasks, pins, routes, n) is Ok,
    ensures
        forall|a: int, b: int|
            0 <= a < b < vector_owners_upto(tasks, pins, routes, n)->Ok_0.len() ==> (
            #[trigger] vector_owners_upto(tasks, pins, routes, n)->Ok_0[a]).0 != (
            #[trigger] vector_owners_upto(tasks, pins, routes, n)->Ok_0[b]).0,
    decreases n,
{
    if n > 0 {
        lemma_owned_vectors_distinct(tasks, pins, routes, n - 1);
        let prev = vector_owners_upto(tasks, pins, routes, n - 1)->Ok_0;
        let t = tasks[n - 1];
        if let ResolvedTaskTrigger::Interrupt { resource, interrupt } = t.trigger {
            let v = task_vector(t.id@, resource, interrupt, pins, routes)->Ok_0;
            lemma_vector_owner_none(prev, v, 0);
        }
    }
}

proof fn lemma_free_dispatchers_unowned(owners: Seq<(Seq<char>, Seq<char>)>, pool: Seq<Seq<char>>)
    ensures
        forall|k: int|
            0 <= k < free_dispatchers(owners, pool).len() ==> !vector_owned(
                owners,
                #[trigger] free_dispatchers(owners, pool)[k],
            ),
    decreases pool.len(),
{
    if pool.len() > 0 {
        lemma_free_dispatchers_unowned(owners, pool.drop_last());
        let rest = free_dispatchers(owners, pool.drop_last());
        let all = free_dispatchers(owners, pool);
        assert forall|k: int| 0 <= k < all.len() implies !vector_owned(owners, #[trigger] all[k]) by {
            if k < rest.len() {
                assert(all[k] == rest[k]);
            }
        }
    }
}

/// When interrupt binding succeeds, no two interrupt-bound tasks share a
/// vector, and no software dispatcher is a vector an interrupt-bound task
/// owns.
pub proof fn lemma_interrupt_bindings_exclusive(
    tasks: Seq<ResolvedTask>,
    pins: Seq<(&'static str, PinId)>,
    routes: Seq<(&'static str, Stm32SerialRoute)>,
)
    requires
        interrupt_bindings(tasks, pins, routes) is Ok,
    ensures
        ({
            let owners = vector_owners_upto(tasks, pins, routes, tasks.len() as int)->Ok_0;
            let free = free_dispatchers(owners, dispatcher_pool());
            &&& forall|a: int, b: int|
                0 <= a < b < owners.len() ==> (#[trigger] owners[a]).0 != (#[trigger] owners[b]).0
            &&& forall|k: int|
                0 <= k < legacy_dispatcher_count(tasks) ==> !vector_owned(owners, #[trigger] free[k])
            &&& interrupt_bindings(tasks, pins, routes)->Ok_0.1 == join_comma(
                free.take(legacy_dispatcher_count(tasks) as int),
            )
        }),
{
    let owners = vector_owners_upto(tasks, pins, routes, tasks.len() as int)->Ok_0;
    lemma_owned_vectors_distinct(tasks, pins, routes, tasks.len() as int);
    lemma_free_dispatchers_unowned(owners, dispatcher_pool());
}

} // verus!
