//! Expansion of the SPI IMU endpoint and of a periodic control into their
//! concrete tasks.

use vstd::prelude::*;

use crate::board::{spec_update_interrupt, update_interrupt};
use crate::composition::{find_requirement, requirement_from, rust_types_match, strip_whitespace};
use crate::expand::{
    binding_views, component_task_error, component_task_with_bindings, config_views,
    expands_component_task, no_bindings, one_binding,
};
use crate::imu_endpoint::ImuEndpointResourceRole;
use crate::lower::imu_role_name;
use crate::periodic_control::spec_ticks_per_control;
use crate::resolve::{
    dma_interrupt, exti_binding, imu_role_index_from, periodic_role_index_from, periodic_role_name,
    spec_dma_interrupt, spec_exti_binding, ResolvedImuEndpoint, ResolvedPeriodicControl,
    ResolvedTask, ResolvedTaskTrigger,
};
use crate::periodic_control::PeriodicControlResourceRole;
use crate::state::{spec_state_rust_type, state_rust_type, TaskStateDeclaration, TaskStateField};
use crate::task::{ConfigValue, ResourceBinding, ResourceRequirement, SpawnBinding, TaskSafetyClass};
use crate::text::{concat2, concat3, concat5, str_eq};

verus! {

// ---------------------------------------------------------------------------
// SPI IMU endpoint
// ---------------------------------------------------------------------------

/// Generated ID of the endpoint's first resource with the given role.
pub open spec fn imu_resource(e: ResolvedImuEndpoint, role: ImuEndpointResourceRole) -> Option<Seq<char>> {
    match imu_role_index_from(e.resources@, role, 0) {
        Some(j) => Some(e.resources@[j].id@),
        None => None,
    }
}

/// Diagnostic of an IMU endpoint lacking a resource of the given role.
pub open spec fn missing_imu_resource(id: Seq<char>, role: ImuEndpointResourceRole) -> Seq<char> {
    "IMU endpoint `"@ + id + "` has no "@ + imu_role_name(role) + " resource"@
}

/// Resource roles the IMU endpoint's tasks bind, in the order they are
/// looked up.
pub open spec fn imu_task_roles() -> Seq<ImuEndpointResourceRole> {
    seq![
        ImuEndpointResourceRole::Owner,
        ImuEndpointResourceRole::Kind,
        ImuEndpointResourceRole::Parser,
        ImuEndpointResourceRole::Sample,
        ImuEndpointResourceRole::Device,
        ImuEndpointResourceRole::DataReady,
        ImuEndpointResourceRole::UnavailableLogged,
    ]
}

/// First role, from index `k` of the lookup order on, the endpoint has no
/// resource for.
pub open spec fn missing_imu_role_from(e: ResolvedImuEndpoint, k: int) -> Option<ImuEndpointResourceRole>
    decreases 7 - k,
{
    if k < 0 || k >= 7 {
        None
    } else if imu_resource(e, imu_task_roles()[k]) is None {
        Some(imu_task_roles()[k])
    } else {
        missing_imu_role_from(e, k + 1)
    }
}

/// One (logical, target) binding view pair list of two entries.
pub open spec fn two_bindings(
    a: Seq<char>,
    x: Seq<char>,
    b: Seq<char>,
    y: Seq<char>,
) -> Seq<(Seq<char>, Seq<char>)> {
    seq![(a, x), (b, y)]
}

/// The bindings of the six IMU endpoint tasks: local, shared, config and
/// spawns of task `k`.
pub open spec fn imu_task_local(e: ResolvedImuEndpoint, k: int) -> Seq<(Seq<char>, Seq<char>)> {
    if k == 0 {
        one_binding("data_ready"@, imu_resource(e, ImuEndpointResourceRole::DataReady).unwrap())
    } else if k == 1 {
        two_bindings(
            "device"@,
            imu_resource(e, ImuEndpointResourceRole::Device).unwrap(),
            "unavailable_logged"@,
            imu_resource(e, ImuEndpointResourceRole::UnavailableLogged).unwrap(),
        )
    } else if k == 5 {
        one_binding("parser"@, imu_resource(e, ImuEndpointResourceRole::Parser).unwrap())
    } else {
        no_bindings()
    }
}

pub open spec fn imu_task_shared(e: ResolvedImuEndpoint, k: int) -> Seq<(Seq<char>, Seq<char>)> {
    let kind = imu_resource(e, ImuEndpointResourceRole::Kind).unwrap();
    let owner = imu_resource(e, ImuEndpointResourceRole::Owner).unwrap();
    if k == 0 || k == 1 {
        one_binding("kind"@, kind)
    } else if k == 5 {
        two_bindings("kind"@, kind, "sample"@, imu_resource(e, ImuEndpointResourceRole::Sample).unwrap())
    } else {
        one_binding("owner"@, owner)
    }
}

pub open spec fn imu_task_config(e: ResolvedImuEndpoint, k: int) -> Seq<(Seq<char>, ConfigValue)> {
    if k == 4 {
        seq![("check_after"@, ConfigValue::Millis(1))]
    } else if k == 5 {
        seq![("orientation"@, ConfigValue::FrameRotation(e.hardware.orientation))]
    } else {
        Seq::empty()
    }
}

pub open spec fn imu_task_spawns(e: ResolvedImuEndpoint, k: int) -> Seq<(Seq<char>, Seq<char>)> {
    let id = e.declaration.id@;
    if k == 0 {
        one_binding("poll"@, id + "_poll"@)
    } else if k == 1 {
        one_binding("timeout"@, id + "_timeout"@)
    } else if k == 3 {
        one_binding("parse"@, id + "_parser"@)
    } else {
        no_bindings()
    }
}

/// Identifier of IMU endpoint task `k`.
pub open spec fn imu_task_id(e: ResolvedImuEndpoint, k: int) -> Seq<char> {
    let id = e.declaration.id@;
    if k == 0 {
        id + "_data_ready"@
    } else if k == 1 {
        id + "_poll"@
    } else if k == 2 {
        id + "_owner_service"@
    } else if k == 3 {
        id + "_rx_dma_irq"@
    } else if k == 4 {
        id + "_timeout"@
    } else {
        id + "_parser"@
    }
}

/// Contract of IMU endpoint task `k`.
pub open spec fn imu_task_contract(e: ResolvedImuEndpoint, k: int) -> crate::task::TaskContract {
    let t = e.declaration.definition.tasks;
    if k == 0 {
        t.data_ready
    } else if k == 1 {
        t.poll
    } else if k == 2 {
        t.owner_service
    } else if k == 3 {
        t.rx_dma_irq
    } else if k == 4 {
        t.timeout
    } else {
        t.parser
    }
}

/// Interrupt that starts IMU endpoint task `k`, if any.
pub open spec fn imu_task_trigger(e: ResolvedImuEndpoint, k: int) -> Option<Seq<char>> {
    if k == 0 {
        Some(spec_exti_binding(e.hardware.data_ready))
    } else if k == 3 {
        Some(spec_dma_interrupt(e.spi.bus.dma_rx))
    } else {
        None
    }
}

/// Priority of IMU endpoint task `k`.
pub open spec fn imu_task_priority(e: ResolvedImuEndpoint, k: int) -> u8 {
    let d = e.declaration;
    if k == 0 {
        d.data_ready_priority
    } else if k == 1 {
        d.poll_priority
    } else if k == 5 {
        d.parser_priority
    } else {
        d.owner_priority
    }
}

/// Contract error of IMU endpoint task `k`.
pub open spec fn imu_task_error(e: ResolvedImuEndpoint, k: int) -> Option<Seq<char>> {
    component_task_error(
        imu_task_id(e, k),
        imu_task_contract(e, k),
        imu_task_local(e, k),
        imu_task_shared(e, k),
        imu_task_config(e, k),
        imu_task_spawns(e, k),
    )
}

/// First error among IMU endpoint tasks `k` and after.
pub open spec fn imu_tasks_error_from(e: ResolvedImuEndpoint, k: int) -> Option<Seq<char>>
    decreases 6 - k,
{
    if k < 0 || k >= 6 {
        None
    } else if imu_task_error(e, k) is Some {
        imu_task_error(e, k)
    } else {
        imu_tasks_error_from(e, k + 1)
    }
}

/// First rule an IMU endpoint breaks while expanding into its tasks: a
/// missing resource, in lookup order, then a task whose bindings miss its
/// contract; `None` when all six tasks expand.
pub open spec fn imu_expansion_error(e: ResolvedImuEndpoint) -> Option<Seq<char>> {
    match missing_imu_role_from(e, 0) {
        Some(role) => Some(missing_imu_resource(e.declaration.id@, role)),
        None => imu_tasks_error_from(e, 0),
    }
}

/// `ts` are the six tasks an IMU endpoint expands into, in order: the
/// data-ready interrupt task, the poll, owner-service, receive-DMA interrupt,
/// timeout and parser tasks.
pub open spec fn imu_endpoint_tasks(e: ResolvedImuEndpoint, ts: Seq<ResolvedTask>) -> bool {
    &&& ts.len() == 6
    &&& forall|k: int|
        0 <= k < 6 ==> expands_component_task(
            #[trigger] ts[k],
            e.declaration.id@,
            imu_task_id(e, k),
            imu_task_contract(e, k),
            imu_task_trigger(e, k),
            imu_task_priority(e, k),
            imu_task_local(e, k),
            imu_task_shared(e, k),
            imu_task_config(e, k),
            imu_task_spawns(e, k),
        )
}

fn imu_resource_exec(e: &ResolvedImuEndpoint, role: ImuEndpointResourceRole) -> (r: Result<&str, String>)
    ensures
        match (r, imu_resource(*e, role)) {
            (Ok(id), Some(x)) => id@ == x,
            (Err(m), None) => m@ == missing_imu_resource(e.declaration.id@, role),
            _ => false,
        },
{
    e.resource_id(role)
}

proof fn lemma_imu_error_from_step(e: ResolvedImuEndpoint, k: int)
    requires
        0 <= k < 6,
        imu_task_error(e, k) is None,
    ensures
        imu_tasks_error_from(e, k) == imu_tasks_error_from(e, k + 1),
{
}

/// Expands a resolved SPI IMU endpoint into its six tasks. The data-ready
/// pin is one the validated board declares, on an STM32 line.
pub fn expand_imu_endpoint_tasks(endpoint: &ResolvedImuEndpoint) -> (r: Result<Vec<ResolvedTask>, String>)
    requires
        endpoint.hardware.data_ready.pin < 16,
    ensures
        match imu_expansion_error(*endpoint) {
            Some(m) => r matches Err(x) && x@ == m,
            None => r matches Ok(ts) && imu_endpoint_tasks(*endpoint, ts@),
        },
{
    let ghost e = *endpoint;
    let d = &endpoint.declaration;
    let id = d.id;
    let tasks = &d.definition.tasks;
    proof {
        reveal_with_fuel(missing_imu_role_from, 8);
    }
    let owner = imu_resource_exec(endpoint, ImuEndpointResourceRole::Owner)?;
    let kind = imu_resource_exec(endpoint, ImuEndpointResourceRole::Kind)?;
    let parser = imu_resource_exec(endpoint, ImuEndpointResourceRole::Parser)?;
    let sample = imu_resource_exec(endpoint, ImuEndpointResourceRole::Sample)?;
    let device = imu_resource_exec(endpoint, ImuEndpointResourceRole::Device)?;
    let data_ready = imu_resource_exec(endpoint, ImuEndpointResourceRole::DataReady)?;
    let unavailable_logged = imu_resource_exec(endpoint, ImuEndpointResourceRole::UnavailableLogged)?;
    proof {
        assert(missing_imu_role_from(e, 0) is None) by {
            reveal_with_fuel(missing_imu_role_from, 8);
        }
    }
    let poll_id = concat2(id, "_poll");
    let timeout_id = concat2(id, "_timeout");
    let parser_id = concat2(id, "_parser");
    proof {
        assert(poll_id@ =~= id@ + "_poll"@);
        assert(timeout_id@ =~= id@ + "_timeout"@);
        assert(parser_id@ =~= id@ + "_parser"@);
    }
    // data-ready interrupt task
    let l0 = vec![("data_ready", data_ready)];
    let s0 = vec![("kind", kind)];
    let c0: Vec<(&'static str, ConfigValue)> = Vec::new();
    let p0 = vec![("poll", poll_id.as_str())];
    let id0 = concat2(id, "_data_ready");
    proof {
        assert(binding_views(l0@) =~= imu_task_local(e, 0));
        assert(binding_views(s0@) =~= imu_task_shared(e, 0));
        assert(config_views(c0@) =~= imu_task_config(e, 0));
        assert(binding_views(p0@) =~= imu_task_spawns(e, 0));
        assert(id0@ =~= imu_task_id(e, 0));
    }
    let t0 = component_task_with_bindings(
        id,
        id0,
        &tasks.data_ready,
        ResolvedTaskTrigger::Interrupt(String::from_str(exti_binding(endpoint.hardware.data_ready))),
        d.data_ready_priority,
        l0,
        s0,
        c0,
        p0,
    )?;
    proof {
        lemma_imu_error_from_step(e, 0);
    }
    // poll task
    let l1 = vec![("device", device), ("unavailable_logged", unavailable_logged)];
    let s1 = vec![("kind", kind)];
    let c1: Vec<(&'static str, ConfigValue)> = Vec::new();
    let p1 = vec![("timeout", timeout_id.as_str())];
    proof {
        assert(binding_views(l1@) =~= imu_task_local(e, 1));
        assert(binding_views(s1@) =~= imu_task_shared(e, 1));
        assert(config_views(c1@) =~= imu_task_config(e, 1));
        assert(binding_views(p1@) =~= imu_task_spawns(e, 1));
        assert(poll_id@ =~= imu_task_id(e, 1));
    }
    let t1 = component_task_with_bindings(
        id,
        poll_id,
        &tasks.poll,
        ResolvedTaskTrigger::Software,
        d.poll_priority,
        l1,
        s1,
        c1,
        p1,
    )?;
    proof {
        lemma_imu_error_from_step(e, 1);
    }
    // owner-service task
    let l2: Vec<(&'static str, &str)> = Vec::new();
    let s2 = vec![("owner", owner)];
    let c2: Vec<(&'static str, ConfigValue)> = Vec::new();
    let p2: Vec<(&'static str, &str)> = Vec::new();
    let id2 = concat2(id, "_owner_service");
    proof {
        assert(binding_views(l2@) =~= imu_task_local(e, 2));
        assert(binding_views(s2@) =~= imu_task_shared(e, 2));
        assert(config_views(c2@) =~= imu_task_config(e, 2));
        assert(binding_views(p2@) =~= imu_task_spawns(e, 2));
        assert(id2@ =~= imu_task_id(e, 2));
    }
    let t2 = component_task_with_bindings(
        id,
        id2,
        &tasks.owner_service,
        ResolvedTaskTrigger::Software,
        d.owner_priority,
        l2,
        s2,
        c2,
        p2,
    )?;
    proof {
        lemma_imu_error_from_step(e, 2);
    }
    // receive-DMA interrupt task
    let l3: Vec<(&'static str, &str)> = Vec::new();
    let s3 = vec![("owner", owner)];
    let c3: Vec<(&'static str, ConfigValue)> = Vec::new();
    let p3 = vec![("parse", parser_id.as_str())];
    let id3 = concat2(id, "_rx_dma_irq");
    proof {
        assert(binding_views(l3@) =~= imu_task_local(e, 3));
        assert(binding_views(s3@) =~= imu_task_shared(e, 3));
        assert(config_views(c3@) =~= imu_task_config(e, 3));
        assert(binding_views(p3@) =~= imu_task_spawns(e, 3));
        assert(id3@ =~= imu_task_id(e, 3));
    }
    let t3 = component_task_with_bindings(
        id,
        id3,
        &tasks.rx_dma_irq,
        ResolvedTaskTrigger::Interrupt(dma_interrupt(endpoint.spi.bus.dma_rx)),
        d.owner_priority,
        l3,
        s3,
        c3,
        p3,
    )?;
    proof {
        lemma_imu_error_from_step(e, 3);
    }
    // timeout task
    let l4: Vec<(&'static str, &str)> = Vec::new();
    let s4 = vec![("owner", owner)];
    let c4: Vec<(&'static str, ConfigValue)> = vec![("check_after", ConfigValue::Millis(1))];
    let p4: Vec<(&'static str, &str)> = Vec::new();
    proof {
        assert(binding_views(l4@) =~= imu_task_local(e, 4));
        assert(binding_views(s4@) =~= imu_task_shared(e, 4));
        assert(config_views(c4@) =~= imu_task_config(e, 4));
        assert(binding_views(p4@) =~= imu_task_spawns(e, 4));
        assert(timeout_id@ =~= imu_task_id(e, 4));
    }
    let t4 = component_task_with_bindings(
        id,
        timeout_id,
        &tasks.timeout,
        ResolvedTaskTrigger::Software,
        d.owner_priority,
        l4,
        s4,
        c4,
        p4,
    )?;
    proof {
        lemma_imu_error_from_step(e, 4);
    }
    // parser task
    let l5 = vec![("parser", parser)];
    let s5 = vec![("kind", kind), ("sample", sample)];
    let c5: Vec<(&'static str, ConfigValue)> = vec![
        ("orientation", ConfigValue::FrameRotation(endpoint.hardware.orientation)),
    ];
    let p5: Vec<(&'static str, &str)> = Vec::new();
    proof {
        assert(binding_views(l5@) =~= imu_task_local(e, 5));
        assert(binding_views(s5@) =~= imu_task_shared(e, 5));
        assert(config_views(c5@) =~= imu_task_config(e, 5));
        assert(binding_views(p5@) =~= imu_task_spawns(e, 5));
        assert(parser_id@ =~= imu_task_id(e, 5));
    }
    let t5 = component_task_with_bindings(
        id,
        parser_id,
        &tasks.parser,
        ResolvedTaskTrigger::Software,
        d.parser_priority,
        l5,
        s5,
        c5,
        p5,
    )?;
    proof {
        lemma_imu_error_from_step(e, 5);
    }
    let mut out: Vec<ResolvedTask> = Vec::new();
    out.push(t0);
    out.push(t1);
    out.push(t2);
    out.push(t3);
    out.push(t4);
    out.push(t5);
    proof {
        assert forall|k: int| 0 <= k < 6 implies expands_component_task(
            #[trigger] out@[k],
            e.declaration.id@,
            imu_task_id(e, k),
            imu_task_contract(e, k),
            imu_task_trigger(e, k),
            imu_task_priority(e, k),
            imu_task_local(e, k),
            imu_task_shared(e, k),
            imu_task_config(e, k),
            imu_task_spawns(e, k),
        ) by {
            if k == 0 {
            } else if k == 1 {
            } else if k == 2 {
            } else if k == 3 {
            } else if k == 4 {
            } else {
            }
        }
    }
    Ok(out)
}

// ---------------------------------------------------------------------------
// Periodic control
// ---------------------------------------------------------------------------

/// Generated ID of the control's first resource with the given role.
pub open spec fn control_resource(c: ResolvedPeriodicControl, role: PeriodicControlResourceRole) -> Option<
    Seq<char>,
> {
    match periodic_role_index_from(c.resources@, role, 0) {
        Some(j) => Some(c.resources@[j].id@),
        None => None,
    }
}

/// Diagnostic of a periodic control lacking a resource of the given role.
pub open spec fn missing_control_resource(id: Seq<char>, role: PeriodicControlResourceRole) -> Seq<char> {
    "periodic control `"@ + id + "` has no "@ + periodic_role_name(role) + " resource"@
}

/// Identifier of the task that runs a periodic control's loop.
pub open spec fn loop_task_id(c: ResolvedPeriodicControl) -> Seq<char> {
    c.declaration.id@ + "_loop"@
}

/// (logical, target) views of resource bindings.
pub open spec fn resource_binding_views(bs: Seq<ResourceBinding>) -> Seq<(Seq<char>, Seq<char>)> {
    bs.map_values(|b: ResourceBinding| (b.logical@, b.target@))
}

/// (logical, target) views of spawn bindings.
pub open spec fn spawn_binding_views(bs: Seq<SpawnBinding>) -> Seq<(Seq<char>, Seq<char>)> {
    bs.map_values(|b: SpawnBinding| (b.logical@, b.target@))
}

/// Index of the first task-state declaration, from `j` on, owned by `owner`.
pub open spec fn state_owner_index(states: Seq<TaskStateDeclaration>, owner: Seq<char>, j: int) -> Option<
    int,
>
    decreases states.len() - j,
{
    if j < 0 || j >= states.len() {
        None
    } else if states[j].owner_task@ == owner {
        Some(j)
    } else {
        state_owner_index(states, owner, j + 1)
    }
}

/// First state field, from `k` on, whose recipe's type disagrees with the
/// local slot of the same name, as its diagnostic.
pub open spec fn state_type_error_from(
    task: Seq<char>,
    slots: Seq<ResourceRequirement>,
    fields: Seq<TaskStateField>,
    k: int,
) -> Option<Seq<char>>
    decreases fields.len() - k,
{
    if k < 0 || k >= fields.len() {
        None
    } else {
        let f = fields[k];
        match requirement_from(slots, f.id@, 0) {
            Some(q) => if strip_whitespace(q.rust_type@) != strip_whitespace(
                spec_state_rust_type(f.recipe),
            ) {
                Some(
                    "component task `"@ + task + "` state field `"@ + f.id@ + "` requires `"@
                        + q.rust_type@ + "`, but its recipe supplies `"@ + spec_state_rust_type(
                        f.recipe,
                    ) + "`"@,
                )
            } else {
                state_type_error_from(task, slots, fields, k + 1)
            },
            None => state_type_error_from(task, slots, fields, k + 1),
        }
    }
}

/// Bindings of the state fields a local slot asks for, each field bound to
/// itself, in field order.
pub open spec fn state_bindings(slots: Seq<ResourceRequirement>, fields: Seq<TaskStateField>) -> Seq<
    (Seq<char>, Seq<char>),
>
    decreases fields.len(),
{
    if fields.len() == 0 {
        Seq::empty()
    } else {
        let rest = state_bindings(slots, fields.drop_last());
        let f = fields.last();
        if requirement_from(slots, f.id@, 0) is Some {
            rest.push((f.id@, f.id@))
        } else {
            rest
        }
    }
}

/// The state fields declared for the loop task, if any declaration names it.
pub open spec fn loop_state_fields(c: ResolvedPeriodicControl, states: Seq<TaskStateDeclaration>) -> Option<
    Seq<TaskStateField>,
> {
    match state_owner_index(states, loop_task_id(c), 0) {
        Some(i) => Some(states[i].fields@),
        None => None,
    }
}

/// Local bindings of the loop task: its scheduler and phase, the control's
/// own local bindings, and the state fields its contract asks for.
pub open spec fn loop_local(c: ResolvedPeriodicControl, states: Seq<TaskStateDeclaration>) -> Seq<
    (Seq<char>, Seq<char>),
> {
    let base = two_bindings(
        "scheduler"@,
        control_resource(c, PeriodicControlResourceRole::Scheduler).unwrap(),
        "phase"@,
        control_resource(c, PeriodicControlResourceRole::Phase).unwrap(),
    ) + resource_binding_views(c.declaration.local@);
    match loop_state_fields(c, states) {
        Some(fields) => base + state_bindings(c.declaration.task.local@, fields),
        None => base,
    }
}

/// Configuration of the loop task: the scheduler ticks in one control step.
pub open spec fn loop_config(c: ResolvedPeriodicControl) -> Seq<(Seq<char>, ConfigValue)> {
    seq![("ticks_per_control"@, ConfigValue::U32(spec_ticks_per_control(c.declaration)))]
}

/// First rule a periodic control breaks while expanding into its loop task:
/// a missing scheduler or phase resource, a state field whose recipe type
/// disagrees with its slot, or bindings that miss the task's contract.
pub open spec fn control_expansion_error(c: ResolvedPeriodicControl, states: Seq<TaskStateDeclaration>) -> Option<
    Seq<char>,
> {
    let d = c.declaration;
    if control_resource(c, PeriodicControlResourceRole::Scheduler) is None {
        Some(missing_control_resource(d.id@, PeriodicControlResourceRole::Scheduler))
    } else if control_resource(c, PeriodicControlResourceRole::Phase) is None {
        Some(missing_control_resource(d.id@, PeriodicControlResourceRole::Phase))
    } else if loop_state_fields(c, states) matches Some(fields) && state_type_error_from(
        loop_task_id(c),
        d.task.local@,
        fields,
        0,
    ) is Some {
        state_type_error_from(loop_task_id(c), d.task.local@, loop_state_fields(c, states).unwrap(), 0)
    } else {
        component_task_error(
            loop_task_id(c),
            d.task,
            loop_local(c, states),
            resource_binding_views(d.shared@),
            loop_config(c),
            spawn_binding_views(d.spawns@),
        )
    }
}

/// `t` is the loop task of the periodic control: entered through the
/// timer's update interrupt at the control's priority, with its safety
/// class, and its bindings as `loop_local`, the shared and spawn bindings of
/// the declaration, and `loop_config`.
pub open spec fn control_loop_task(
    c: ResolvedPeriodicControl,
    states: Seq<TaskStateDeclaration>,
    t: ResolvedTask,
) -> bool {
    let d = c.declaration;
    &&& t.safety_class == d.safety_class
    &&& expands_component_task(
        ResolvedTask { safety_class: TaskSafetyClass::NonSafetyCritical, ..t },
        d.id@,
        loop_task_id(c),
        d.task,
        Some(spec_update_interrupt(c.hardware.peripheral)),
        d.interrupt_priority,
        loop_local(c, states),
        resource_binding_views(d.shared@),
        loop_config(c),
        spawn_binding_views(d.spawns@),
    )
}

fn find_state_owner(states: &Vec<TaskStateDeclaration>, owner: &str) -> (r: Option<usize>)
    ensures
        match (r, state_owner_index(states@, owner@, 0)) {
            (Some(a), Some(b)) => a == b && b < states@.len(),
            (None, None) => true,
            _ => false,
        },
{
    let mut j: usize = 0;
    while j < states.len()
        invariant
            j <= states@.len(),
            state_owner_index(states@, owner@, 0) == state_owner_index(states@, owner@, j as int),
        decreases states@.len() - j,
    {
        if str_eq(states[j].owner_task, owner) {
            return Some(j);
        }
        j = j + 1;
    }
    None
}

/// Expands a resolved periodic control into the task that runs its loop on
/// the timer's update interrupt, with the task-state fields its contract
/// asks for.
pub fn expand_periodic_control_task(
    control: &ResolvedPeriodicControl,
    states: &Vec<TaskStateDeclaration>,
) -> (r: Result<ResolvedTask, String>)
    ensures
        match control_expansion_error(*control, states@) {
            Some(m) => r matches Err(x) && x@ == m,
            None => r matches Ok(t) && control_loop_task(*control, states@, t),
        },
{
    let ghost c = *control;
    let d = &control.declaration;
    let task_id = concat2(d.id, "_loop");
    proof {
        assert(task_id@ =~= loop_task_id(c));
    }
    let scheduler = control.resource_id(PeriodicControlResourceRole::Scheduler)?;
    let phase = control.resource_id(PeriodicControlResourceRole::Phase)?;
    let mut local: Vec<(&'static str, &str)> = vec![("scheduler", scheduler), ("phase", phase)];
    let ghost base0 = two_bindings("scheduler"@, scheduler@, "phase"@, phase@);
    proof {
        assert(binding_views(local@) =~= base0);
    }
    let mut k: usize = 0;
    while k < d.local.len()
        invariant
            k <= d.local@.len(),
            binding_views(local@) == base0 + resource_binding_views(d.local@.take(k as int)),
        decreases d.local@.len() - k,
    {
        let ghost before = local@;
        local.push((d.local[k].logical, d.local[k].target));
        proof {
            assert(resource_binding_views(d.local@.take(k + 1)) =~= resource_binding_views(
                d.local@.take(k as int),
            ).push((d.local@[k as int].logical@, d.local@[k as int].target@)));
            assert(binding_views(local@) =~= binding_views(before).push(
                (d.local@[k as int].logical@, d.local@[k as int].target@),
            ));
        }
        k = k + 1;
    }
    proof {
        assert(d.local@.take(d.local@.len() as int) =~= d.local@);
    }
    let ghost base = binding_views(local@);
    match find_state_owner(states, task_id.as_str()) {
        None => {},
        Some(i) => {
            let fields = &states[i].fields;
            proof {
                assert(loop_state_fields(c, states@) == Some(fields@));
            }
            let mut k: usize = 0;
            while k < fields.len()
                invariant
                    k <= fields@.len(),
                    state_type_error_from(task_id@, d.task.local@, fields@, 0)
                        == state_type_error_from(task_id@, d.task.local@, fields@, k as int),
                    loop_state_fields(c, states@) == Some(fields@),
                    control_resource(c, PeriodicControlResourceRole::Scheduler) is Some,
                    control_resource(c, PeriodicControlResourceRole::Phase) is Some,
                    task_id@ == loop_task_id(c),
                    *d == c.declaration,
                    c == *control,
                decreases fields@.len() - k,
            {
                let f = fields[k];
                if let Some(q) = find_requirement(&d.task.local, f.id) {
                    let supplied = state_rust_type(f.recipe);
                    if !rust_types_match(q.rust_type, supplied) {
                        let mut m = concat5("component task `", task_id.as_str(), "` state field `", f.id, "` requires `");
                        m.append(q.rust_type);
                        m.append("`, but its recipe supplies `");
                        m.append(supplied);
                        m.append("`");
                        proof {
                            assert(fields@[k as int] == f);
                            assert(state_type_error_from(task_id@, d.task.local@, fields@, k as int) == Some(m@));
                        }
                        return Err(m);
                    }
                }
                k = k + 1;
            }
            let mut k: usize = 0;
            while k < fields.len()
                invariant
                    k <= fields@.len(),
                    binding_views(local@) == base + state_bindings(d.task.local@, fields@.take(k as int)),
                decreases fields@.len() - k,
            {
                let f = fields[k];
                proof {
                    assert(fields@.take(k + 1).drop_last() =~= fields@.take(k as int));
                    assert(fields@.take(k + 1).last() == f);
                }
                if find_requirement(&d.task.local, f.id).is_some() {
                    let ghost before = local@;
                    local.push((f.id, f.id));
                    proof {
                        assert(binding_views(local@) =~= binding_views(before).push((f.id@, f.id@)));
                    }
                }
                k = k + 1;
            }
            proof {
                assert(fields@.take(fields@.len() as int) =~= fields@);
            }
        },
    }
    let mut shared: Vec<(&'static str, &str)> = Vec::new();
    let mut k: usize = 0;
    while k < d.shared.len()
        invariant
            k <= d.shared@.len(),
            binding_views(shared@) == resource_binding_views(d.shared@.take(k as int)),
        decreases d.shared@.len() - k,
    {
        let ghost before = shared@;
        shared.push((d.shared[k].logical, d.shared[k].target));
        proof {
            assert(resource_binding_views(d.shared@.take(k + 1)) =~= resource_binding_views(
                d.shared@.take(k as int),
            ).push((d.shared@[k as int].logical@, d.shared@[k as int].target@)));
            assert(binding_views(shared@) =~= binding_views(before).push(
                (d.shared@[k as int].logical@, d.shared@[k as int].target@),
            ));
        }
        k = k + 1;
    }
    proof {
        assert(d.shared@.take(d.shared@.len() as int) =~= d.shared@);
    }
    let mut spawns: Vec<(&'static str, &str)> = Vec::new();
    let mut k: usize = 0;
    while k < d.spawns.len()
        invariant
            k <= d.spawns@.len(),
            binding_views(spawns@) == spawn_binding_views(d.spawns@.take(k as int)),
        decreases d.spawns@.len() - k,
    {
        let ghost before = spawns@;
        spawns.push((d.spawns[k].logical, d.spawns[k].target));
        proof {
            assert(spawn_binding_views(d.spawns@.take(k + 1)) =~= spawn_binding_views(
                d.spawns@.take(k as int),
            ).push((d.spawns@[k as int].logical@, d.spawns@[k as int].target@)));
            assert(binding_views(spawns@) =~= binding_views(before).push(
                (d.spawns@[k as int].logical@, d.spawns@[k as int].target@),
            ));
        }
        k = k + 1;
    }
    proof {
        assert(d.spawns@.take(d.spawns@.len() as int) =~= d.spawns@);
    }
    let config: Vec<(&'static str, ConfigValue)> = vec![("ticks_per_control", ConfigValue::U32(d.ticks_per_control()))];
    proof {
        assert(config_views(config@) =~= loop_config(c));
        assert(binding_views(local@) =~= loop_local(c, states@));
    }
    let mut task = component_task_with_bindings(
        d.id,
        task_id,
        &d.task,
        ResolvedTaskTrigger::Interrupt(String::from_str(update_interrupt(control.hardware.peripheral))),
        d.interrupt_priority,
        local,
        shared,
        config,
        spawns,
    )?;
    let ghost plain = task;
    task.safety_class = d.safety_class;
    proof {
        assert(ResolvedTask { safety_class: TaskSafetyClass::NonSafetyCritical, ..task } == plain);
    }
    Ok(task)
}

} // verus!
