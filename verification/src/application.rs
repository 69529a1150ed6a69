//! Deterministic expansion and resolution of an application composition:
//! components become tasks and resources with generated, instance-qualified
//! names, interrupt vectors are resolved, collisions are rejected and the
//! software-task dispatchers are chosen, all before anything is rendered.

use vstd::prelude::*;

use crate::board::{
    board_timer, imu_from, spi_index_from, BoardDeclaration, ImuInstallationDeclaration,
    SpiHardwareDeclaration,
};
use crate::component::ComponentDeclaration;
use crate::component_expansion::{expand_imu_endpoint_tasks, expand_periodic_control_task};
use crate::composition::{composition_error, validate, AppComposition, TaskDeclaration, TaskTrigger};
use crate::dshot_initialization::ResolvedDshotActuator;
use crate::endpoint_resolution::{
    assigned_installation, resolve_imu_endpoint, resolve_serial_endpoint, resolves_imu_endpoint,
    resolves_serial_endpoint,
};
use crate::expand::expand_serial_endpoint_tasks;
use crate::hardware_lowering::ResolvedApp;
use crate::imu_endpoint::ImuEndpointDeclaration;
use crate::periodic_control::PeriodicControlDeclaration;
use crate::platform_config::{ImuInstallationId, PlatformConfig};
use crate::resolve::{
    board_pins_valid, dispatcher_count, dispatcher_pool, first_local_owner, free_vectors,
    interrupt_used, lemma_dispatchers_are_free_vectors, lemma_validated_claims_are_distinct,
    lemma_validated_interrupts_are_exclusive, periodic_resource_id, resolve_periodic_control,
    resolve_safety_channel, resolve_standalone_task, resolved_interrupt, resolves_bindings,
    resolves_config, resolves_spawns, resolves_task, resource_claims, select_dispatchers,
    string_views, task_claims, validate_interrupt_ownership, validate_unique_generated_ids,
    ResolvedGpioResource, ResolvedImuEndpoint, ResolvedPeriodicControl, ResolvedSafetyChannel,
    ResolvedSharedResource, ResolvedTask,
};
use crate::safety_channel::SafetyChannelDeclaration;
use crate::serial_endpoint::{ResolvedSerialEndpoint, SerialEndpointDeclaration};
use crate::state::TaskStateDeclaration;
use crate::task::same_contract;
use crate::task_state::{
    cadence_fields_are_counts, lemma_resolved_state_is_bound_by_its_owner, lemma_same_ids_same_index,
    resolve_task_state, same_but_locals, task_index_from, task_locals, values_bound,
};
use crate::text::concat2;

verus! {

/// Every data-ready pin of an IMU installation on the board is on an STM32
/// line.
pub open spec fn imu_pins_valid(board: BoardDeclaration) -> bool {
    forall|k: int, i: int|
        0 <= k < board.spi@.len() && 0 <= i < board.spi@[k].imu@.len()
            ==> #[trigger] board.spi@[k].imu@[i].data_ready.pin < 16
}

proof fn lemma_spi_index_in_range(ss: Seq<SpiHardwareDeclaration>, id: Seq<char>, j: int)
    ensures
        spi_index_from(ss, id, j) matches Some(i) ==> 0 <= i < ss.len(),
    decreases ss.len() - j,
{
    if 0 <= j < ss.len() && ss[j].id@ != id {
        lemma_spi_index_in_range(ss, id, j + 1);
    }
}

proof fn lemma_imu_from_member(imus: Seq<ImuInstallationDeclaration>, id: ImuInstallationId, j: int)
    ensures
        imu_from(imus, id, j) matches Some(h) ==> exists|i: int| 0 <= i < imus.len() && #[trigger] imus[i] == h,
    decreases imus.len() - j,
{
    if 0 <= j < imus.len() {
        if imus[j].id == id {
            assert(imus[j] == imus[j]);
        } else {
            lemma_imu_from_member(imus, id, j + 1);
        }
    }
}

proof fn lemma_resolved_imu_pin(
    board: BoardDeclaration,
    platform: PlatformConfig,
    d: ImuEndpointDeclaration,
    sample: Seq<char>,
    e: ResolvedImuEndpoint,
)
    requires
        imu_pins_valid(board),
        resolves_imu_endpoint(board, platform, d, sample, e),
    ensures
        e.hardware.data_ready.pin < 16,
{
    lemma_spi_index_in_range(board.spi@, d.hardware_id@, 0);
    let k = spi_index_from(board.spi@, d.hardware_id@, 0).unwrap();
    lemma_imu_from_member(e.spi.imu@, assigned_installation(platform), 0);
    let i = choose|i: int| 0 <= i < e.spi.imu@.len() && #[trigger] e.spi.imu@[i] == e.hardware;
    assert(e.spi.imu@ == board.spi@[k].imu@);
    assert(board.spi@[k].imu@[i].data_ready.pin < 16);
}

/// `c` resolves periodic control `d` on `board`: the board timer it names,
/// and each of its resources named after the instance and the role.
pub open spec fn resolves_control(
    board: BoardDeclaration,
    d: PeriodicControlDeclaration,
    c: ResolvedPeriodicControl,
) -> bool {
    &&& c.declaration == d
    &&& board_timer(board, d.hardware_id@) == Some(c.hardware)
    &&& c.resources@.len() == d.definition.resources@.len()
    &&& forall|k: int|
        0 <= k < c.resources@.len() ==> #[trigger] c.resources@[k].role == d.definition.resources@[k].role
            && c.resources@[k].id@ == periodic_resource_id(d.id@, c.resources@[k].role)
}

/// `c` resolves safety channel `d` against `tasks`: its handles go to the
/// first task binding each of them locally.
pub open spec fn resolves_channel(
    tasks: Seq<ResolvedTask>,
    d: SafetyChannelDeclaration,
    c: ResolvedSafetyChannel,
) -> bool {
    &&& c.id == d.id
    &&& c.message == d.message
    &&& c.usable_capacity == d.usable_capacity
    &&& c.producer.id == d.producer
    &&& c.consumer.id == d.consumer
    &&& c.producer.owner_task@ == tasks[first_local_owner(tasks, d.producer@, 0).unwrap()].id@
    &&& c.consumer.owner_task@ == tasks[first_local_owner(tasks, d.consumer@, 0).unwrap()].id@
}

/// `r` resolves standalone declaration `t` in everything but its local
/// bindings, to which task-state resolution may add.
pub open spec fn resolves_task_up_to_locals(r: ResolvedTask, t: TaskDeclaration) -> bool {
    &&& r.id@ == t.id@
    &&& same_contract(r.contract, t.contract)
    &&& resolved_interrupt(r.trigger) == match t.trigger {
        TaskTrigger::Interrupt(name) => Some(name@),
        TaskTrigger::Software => None,
    }
    &&& r.priority == t.priority
    &&& r.safety_class == t.safety_class
    &&& resolves_bindings(r.shared@, t.shared@)
    &&& resolves_config(r.config@, t.config@)
    &&& resolves_spawns(r.spawns@, t.spawns@)
    &&& r.owner_component is None
}

/// Serial-endpoint declarations among `cs`, in order.
pub open spec fn serial_decls(cs: Seq<ComponentDeclaration>) -> Seq<SerialEndpointDeclaration>
    decreases cs.len(),
{
    if cs.len() == 0 {
        Seq::empty()
    } else {
        match cs.last() {
            ComponentDeclaration::SerialEndpoint(d) => serial_decls(cs.drop_last()).push(d),
            _ => serial_decls(cs.drop_last()),
        }
    }
}

/// SPI IMU endpoint declarations among `cs`, in order.
pub open spec fn imu_decls(cs: Seq<ComponentDeclaration>) -> Seq<ImuEndpointDeclaration>
    decreases cs.len(),
{
    if cs.len() == 0 {
        Seq::empty()
    } else {
        match cs.last() {
            ComponentDeclaration::ImuEndpoint(d) => imu_decls(cs.drop_last()).push(d),
            _ => imu_decls(cs.drop_last()),
        }
    }
}

/// Periodic-control declarations among `cs`, in order.
pub open spec fn control_decls(cs: Seq<ComponentDeclaration>) -> Seq<PeriodicControlDeclaration>
    decreases cs.len(),
{
    if cs.len() == 0 {
        Seq::empty()
    } else {
        match cs.last() {
            ComponentDeclaration::PeriodicControl(d) => control_decls(cs.drop_last()).push(d),
            _ => control_decls(cs.drop_last()),
        }
    }
}

/// The resolved components of each kind resolve, one for one and in order,
/// the declared components of that kind.
pub open spec fn resolves_components(
    cs: Seq<ComponentDeclaration>,
    board: BoardDeclaration,
    platform: PlatformConfig,
    sample: Seq<char>,
    serials: Seq<ResolvedSerialEndpoint>,
    imus: Seq<ResolvedImuEndpoint>,
    controls: Seq<ResolvedPeriodicControl>,
) -> bool {
    &&& serials.len() == serial_decls(cs).len()
    &&& forall|k: int|
        0 <= k < serials.len() ==> resolves_serial_endpoint(board, serial_decls(cs)[k], #[trigger] serials[k])
    &&& imus.len() == imu_decls(cs).len()
    &&& forall|k: int|
        0 <= k < imus.len() ==> resolves_imu_endpoint(board, platform, imu_decls(cs)[k], sample, #[trigger] imus[k])
    &&& controls.len() == control_decls(cs).len()
    &&& forall|k: int|
        0 <= k < controls.len() ==> resolves_control(board, control_decls(cs)[k], #[trigger] controls[k])
}

/// `app` is a resolution of composition `c`, whose SPI service names its IMU
/// sample `sample`: the composition validates; the board, platform and
/// timing are the composition's; shared resources, standalone tasks and
/// initialization spawns come first, in declaration order; each resolved
/// endpoint and control resolves a declared component; each serial endpoint
/// adds a transmit-worker spawn; each safety channel resolves against the
/// final tasks; and the dispatchers are the first free reviewed vectors.
pub open spec fn resolves_application(c: AppComposition, sample: Seq<char>, app: ResolvedApp) -> bool {
    &&& composition_error(c) is None
    &&& app.board == c.board
    &&& app.platform == c.platform
    &&& app.monotonic == c.monotonic
    &&& app.init_delay == c.init_delay
    &&& app.shared_resources@.len() == c.shared_resources@.len()
    &&& forall|k: int|
        0 <= k < c.shared_resources@.len() ==> #[trigger] app.shared_resources@[k].id
            == c.shared_resources@[k].id && app.shared_resources@[k].initial
            == c.shared_resources@[k].initial
    &&& c.tasks@.len() <= app.tasks@.len()
    &&& forall|k: int|
        0 <= k < c.tasks@.len() ==> resolves_task_up_to_locals(#[trigger] app.tasks@[k], c.tasks@[k])
    &&& resolves_components(
        c.components@,
        c.board,
        c.platform,
        sample,
        app.serial_endpoints@,
        app.imu_endpoints@,
        app.periodic_controls@,
    )
    &&& app.dshot_actuators@.len() == 0
    &&& app.init_spawns@.len() == c.init_spawns@.len() + app.serial_endpoints@.len()
    &&& forall|k: int|
        0 <= k < c.init_spawns@.len() ==> #[trigger] app.init_spawns@[k]@ == c.init_spawns@[k].task@
    &&& forall|k: int|
        0 <= k < app.serial_endpoints@.len() ==> app.init_spawns@[c.init_spawns@.len() + k]@
            == (#[trigger] app.serial_endpoints@[k]).declaration.id@ + "_tx_worker"@
    &&& app.safety_channels@.len() == c.safety_channels@.len()
    &&& forall|k: int|
        0 <= k < c.safety_channels@.len() ==> resolves_channel(
            app.tasks@,
            c.safety_channels@[k],
            #[trigger] app.safety_channels@[k],
        )
    &&& string_views(app.dispatchers@) == free_vectors(app.tasks@, dispatcher_pool()).take(
        dispatcher_count(app.tasks@) as int,
    )
}

/// What holds of every resolved application: task identifiers are
/// distinct, no interrupt vector is bound by two tasks, every generated
/// resource identifier is distinct, every dispatcher is a reviewed vector
/// that no task binds, and every task-local state value is bound, under its
/// own name, by its owner task.
pub open spec fn application_is_consistent(app: ResolvedApp) -> bool {
    let ts = app.tasks@;
    let rc = resource_claims(
        app.shared_resources@,
        app.safety_channels@,
        app.gpio_resources@,
        app.task_state@,
        app.serial_endpoints@,
        app.imu_endpoints@,
        app.periodic_controls@,
    );
    &&& forall|i: int, j: int| 0 <= i < j < ts.len() ==> #[trigger] ts[i].id@ != #[trigger] ts[j].id@
    &&& forall|i: int, j: int|
        0 <= i < j < ts.len() && resolved_interrupt(ts[j].trigger) is Some ==> resolved_interrupt(
            #[trigger] ts[i].trigger,
        ) != resolved_interrupt(#[trigger] ts[j].trigger)
    &&& forall|a: int, b: int| 0 <= a < b < rc.len() ==> #[trigger] rc[a].0 != #[trigger] rc[b].0
    &&& forall|k: int|
        0 <= k < app.dispatchers@.len() ==> dispatcher_pool().contains(#[trigger] app.dispatchers@[k]@)
            && !interrupt_used(ts, app.dispatchers@[k]@)
    &&& values_bound(ts, task_locals(ts), app.task_state@)
}


/// Resolves and expands each component in declaration order: its resolved
/// endpoint or control is collected, its tasks are appended to `tasks`, and
/// each serial endpoint appends its transmit-worker spawn to `spawns`.
fn resolve_components(
    board: &BoardDeclaration,
    platform: PlatformConfig,
    sample: &str,
    task_state: &Vec<TaskStateDeclaration>,
    components: Vec<ComponentDeclaration>,
    tasks: &mut Vec<ResolvedTask>,
    spawns: &mut Vec<String>,
) -> (r: Result<
    (Vec<ResolvedSerialEndpoint>, Vec<ResolvedImuEndpoint>, Vec<ResolvedPeriodicControl>),
    String,
>)
    requires
        imu_pins_valid(*board),
    ensures
        r matches Ok((serials, imus, controls)) ==> {
            &&& old(tasks)@.len() <= final(tasks)@.len()
            &&& forall|j: int| 0 <= j < old(tasks)@.len() ==> #[trigger] final(tasks)@[j] == old(tasks)@[j]
            &&& final(spawns)@.len() == old(spawns)@.len() + serials@.len()
            &&& forall|j: int| 0 <= j < old(spawns)@.len() ==> #[trigger] final(spawns)@[j] == old(spawns)@[j]
            &&& forall|j: int|
                0 <= j < serials@.len() ==> final(spawns)@[old(spawns)@.len() + j]@
                    == (#[trigger] serials@[j]).declaration.id@ + "_tx_worker"@
            &&& resolves_components(components@, *board, platform, sample@, serials@, imus@, controls@)
        },
{
    let ghost cs = components@;
    let ghost t0 = tasks@;
    let ghost s0 = spawns@;
    let total: usize = components.len();
    let mut rest = components;
    let mut serials: Vec<ResolvedSerialEndpoint> = Vec::new();
    let mut imus: Vec<ResolvedImuEndpoint> = Vec::new();
    let mut controls: Vec<ResolvedPeriodicControl> = Vec::new();
    let mut i: usize = 0;
    while rest.len() > 0
        invariant
            cs.len() == total,
            i <= cs.len(),
            rest@ == cs.skip(i as int),
            imu_pins_valid(*board),
            t0.len() <= tasks@.len(),
            forall|j: int| 0 <= j < t0.len() ==> #[trigger] tasks@[j] == t0[j],
            spawns@.len() == s0.len() + serials@.len(),
            forall|j: int| 0 <= j < s0.len() ==> #[trigger] spawns@[j] == s0[j],
            forall|j: int|
                0 <= j < serials@.len() ==> spawns@[s0.len() + j]@
                    == (#[trigger] serials@[j]).declaration.id@ + "_tx_worker"@,
            resolves_components(cs.take(i as int), *board, platform, sample@, serials@, imus@, controls@),
        decreases rest@.len(),
    {
        let component = rest.remove(0);
        proof {
            assert(component == cs[i as int]);
            assert(rest@ =~= cs.skip(i + 1));
            assert(cs.take(i + 1).drop_last() =~= cs.take(i as int));
            assert(cs.take(i + 1).last() == cs[i as int]);
        }
        let ghost pre = cs.take(i as int);
        let ghost post = cs.take(i + 1);
        let ghost ser0 = serials@;
        let ghost imu0 = imus@;
        let ghost ctl0 = controls@;
        let ghost tk0 = tasks@;
        let ghost sp0 = spawns@;
        match component {
            ComponentDeclaration::PeriodicControl(d) => {
                let control = resolve_periodic_control(board, d)?;
                let task = expand_periodic_control_task(&control, task_state)?;
                tasks.push(task);
                controls.push(control);
                proof {
                    assert forall|k: int| 0 <= k < controls@.len() implies resolves_control(
                        *board,
                        control_decls(post)[k],
                        #[trigger] controls@[k],
                    ) by {
                        if k < ctl0.len() {
                            assert(controls@[k] == ctl0[k]);
                            assert(control_decls(post)[k] == control_decls(pre)[k]);
                        }
                    }
                    assert(resolves_components(post, *board, platform, sample@, serials@, imus@, controls@));
                    assert forall|j: int| 0 <= j < t0.len() implies #[trigger] tasks@[j] == t0[j] by {
                        assert(tasks@[j] == tk0[j]);
                    }
                }
            },
            ComponentDeclaration::ImuEndpoint(d) => {
                let endpoint = resolve_imu_endpoint(board, platform, d, sample)?;
                proof {
                    lemma_resolved_imu_pin(*board, platform, d, sample@, endpoint);
                }
                let mut more = expand_imu_endpoint_tasks(&endpoint)?;
                tasks.append(&mut more);
                imus.push(endpoint);
                proof {
                    assert forall|k: int| 0 <= k < imus@.len() implies resolves_imu_endpoint(
                        *board,
                        platform,
                        imu_decls(post)[k],
                        sample@,
                        #[trigger] imus@[k],
                    ) by {
                        if k < imu0.len() {
                            assert(imus@[k] == imu0[k]);
                            assert(imu_decls(post)[k] == imu_decls(pre)[k]);
                        }
                    }
                    assert(resolves_components(post, *board, platform, sample@, serials@, imus@, controls@));
                    assert forall|j: int| 0 <= j < t0.len() implies #[trigger] tasks@[j] == t0[j] by {
                        assert(tasks@[j] == tk0[j]);
                    }
                }
            },
            ComponentDeclaration::SerialEndpoint(d) => {
                let id = d.id;
                let endpoint = resolve_serial_endpoint(board, d)?;
                let mut more = expand_serial_endpoint_tasks(&endpoint)?;
                spawns.push(concat2(id, "_tx_worker"));
                tasks.append(&mut more);
                serials.push(endpoint);
                proof {
                    assert forall|k: int| 0 <= k < serials@.len() implies resolves_serial_endpoint(
                        *board,
                        serial_decls(post)[k],
                        #[trigger] serials@[k],
                    ) by {
                        if k < ser0.len() {
                            assert(serials@[k] == ser0[k]);
                            assert(serial_decls(post)[k] == serial_decls(pre)[k]);
                        }
                    }
                    assert(resolves_components(post, *board, platform, sample@, serials@, imus@, controls@));
                    assert forall|j: int| 0 <= j < t0.len() implies #[trigger] tasks@[j] == t0[j] by {
                        assert(tasks@[j] == tk0[j]);
                    }
                    assert forall|j: int| 0 <= j < s0.len() implies #[trigger] spawns@[j] == s0[j] by {
                        assert(spawns@[j] == sp0[j]);
                    }
                    assert forall|j: int| 0 <= j < serials@.len() implies spawns@[s0.len() + j]@
                        == (#[trigger] serials@[j]).declaration.id@ + "_tx_worker"@ by {
                        if j < ser0.len() {
                            assert(serials@[j] == ser0[j]);
                            assert(spawns@[s0.len() + j] == sp0[s0.len() + j]);
                        }
                    }
                }
            },
        }
        i = i + 1;
    }
    proof {
        assert(cs.take(cs.len() as int) =~= cs);
    }
    Ok((serials, imus, controls))
}

/// Expands components and resolves every resource, task and interrupt name
/// of a composition. `imu_sample_resource` is the name the boot-time SPI
/// service gives its sample. A composition that does not validate is
/// refused with the validation diagnostic; the later stages fail with their
/// own diagnostics, whose order is that of the stages: standalone tasks,
/// components in declaration order, task state, safety channels, generated
/// identifiers, interrupt ownership, dispatchers. The contract fixes the
/// validation diagnostic and what a successful resolution returns; it does
/// not say on which valid compositions a later stage fails, nor with which
/// of those diagnostics.
pub fn resolve(composition: AppComposition, imu_sample_resource: &str) -> (r: Result<ResolvedApp, String>)
    requires
        board_pins_valid(composition.board),
        imu_pins_valid(composition.board),
        cadence_fields_are_counts(composition.task_state@),
    ensures
        composition_error(composition) matches Some(m) ==> r matches Err(e) && e@
            == "validate application composition: "@ + m,
        r matches Ok(app) ==> resolves_application(composition, imu_sample_resource@, app),
        r matches Ok(app) ==> application_is_consistent(app),
{
    if let Err(e) = validate(&composition) {
        return Err(concat2("validate application composition: ", e.message.as_str()));
    }
    let ghost c = composition;
    assert(composition_error(c) is None);
    let AppComposition {
        board,
        platform,
        monotonic,
        init_delay,
        components,
        shared_resources,
        safety_channels,
        task_state,
        tasks: declared_tasks,
        init_spawns: declared_spawns,
    } = composition;

    let mut shared: Vec<ResolvedSharedResource> = Vec::new();
    let mut k: usize = 0;
    while k < shared_resources.len()
        invariant
            c == composition,
            composition_error(c) is None,
            k <= shared_resources@.len(),
            shared_resources@ == c.shared_resources@,
            shared@.len() == k,
            forall|j: int|
                0 <= j < k ==> #[trigger] shared@[j].id == c.shared_resources@[j].id && shared@[j].initial
                    == c.shared_resources@[j].initial,
        decreases shared_resources@.len() - k,
    {
        shared.push(
            ResolvedSharedResource { id: shared_resources[k].id, initial: shared_resources[k].initial },
        );
        k = k + 1;
    }

    let mut gpio: Vec<ResolvedGpioResource> = Vec::new();
    let mut tasks: Vec<ResolvedTask> = Vec::new();
    let mut k: usize = 0;
    while k < declared_tasks.len()
        invariant
            c == composition,
            composition_error(c) is None,
            k <= declared_tasks@.len(),
            declared_tasks@ == c.tasks@,
            board == c.board,
            board_pins_valid(board),
            tasks@.len() == k,
            forall|j: int| 0 <= j < k ==> resolves_task(#[trigger] tasks@[j], c.tasks@[j]),
        decreases declared_tasks@.len() - k,
    {
        let t = resolve_standalone_task(&board, &declared_tasks[k], &mut gpio)?;
        tasks.push(t);
        k = k + 1;
    }

    let mut spawns: Vec<String> = Vec::new();
    let mut k: usize = 0;
    while k < declared_spawns.len()
        invariant
            c == composition,
            composition_error(c) is None,
            k <= declared_spawns@.len(),
            declared_spawns@ == c.init_spawns@,
            spawns@.len() == k,
            forall|j: int| 0 <= j < k ==> #[trigger] spawns@[j]@ == c.init_spawns@[j].task@,
        decreases declared_spawns@.len() - k,
    {
        spawns.push(String::from_str(declared_spawns[k].task));
        k = k + 1;
    }

    let (serials, imus, controls) = resolve_components(
        &board,
        platform,
        imu_sample_resource,
        &task_state,
        components,
        &mut tasks,
        &mut spawns,
    )?;
    let dshots: Vec<ResolvedDshotActuator> = Vec::new();

    let ghost pre_tasks = tasks@;
    let states = resolve_task_state(&task_state, &mut tasks, &controls)?;
    proof {
        lemma_resolved_state_is_bound_by_its_owner(pre_tasks, controls@, task_state@);
        assert forall|x: int| 0 <= x < tasks@.len() implies #[trigger] same_but_locals(
            pre_tasks[x],
            tasks@[x],
        ) by {
            assert(same_but_locals(tasks@[x], pre_tasks[x]));
        }
    }

    let mut channels: Vec<ResolvedSafetyChannel> = Vec::new();
    let mut k: usize = 0;
    while k < safety_channels.len()
        invariant
            c == composition,
            composition_error(c) is None,
            k <= safety_channels@.len(),
            safety_channels@ == c.safety_channels@,
            channels@.len() == k,
            forall|j: int|
                0 <= j < k ==> resolves_channel(tasks@, c.safety_channels@[j], #[trigger] channels@[j]),
        decreases safety_channels@.len() - k,
    {
        let channel = resolve_safety_channel(&tasks, safety_channels[k])?;
        channels.push(channel);
        k = k + 1;
    }

    validate_unique_generated_ids(
        &shared,
        &channels,
        &gpio,
        &states,
        &serials,
        &imus,
        &controls,
        &tasks,
    )?;
    validate_interrupt_ownership(&tasks)?;
    let dispatchers = select_dispatchers(&tasks)?;

    let app = ResolvedApp {
        board,
        monotonic,
        init_delay,
        platform,
        shared_resources: shared,
        safety_channels: channels,
        gpio_resources: gpio,
        task_state: states,
        serial_endpoints: serials,
        imu_endpoints: imus,
        periodic_controls: controls,
        dshot_actuators: dshots,
        tasks,
        init_spawns: spawns,
        dispatchers,
    };
    proof {
        let ts = app.tasks@;
        let rc = resource_claims(
            app.shared_resources@,
            app.safety_channels@,
            app.gpio_resources@,
            app.task_state@,
            app.serial_endpoints@,
            app.imu_endpoints@,
            app.periodic_controls@,
        );
        let tc = task_claims(ts);
        lemma_validated_claims_are_distinct(rc, rc.len() as int);
        lemma_validated_claims_are_distinct(tc, tc.len() as int);
        assert forall|a: int, b: int| 0 <= a < b < ts.len() implies #[trigger] ts[a].id@
            != #[trigger] ts[b].id@ by {
            assert(tc[a].0 == ts[a].id@);
            assert(tc[b].0 == ts[b].id@);
        }
        lemma_validated_interrupts_are_exclusive(ts, ts.len() as int);
        lemma_dispatchers_are_free_vectors(ts);
        let free = free_vectors(ts, dispatcher_pool());
        assert(string_views(app.dispatchers@).len() == app.dispatchers@.len());
        assert(free.len() >= dispatcher_count(ts));
        assert forall|k: int| 0 <= k < app.dispatchers@.len() implies dispatcher_pool().contains(
            #[trigger] app.dispatchers@[k]@,
        ) && !interrupt_used(ts, app.dispatchers@[k]@) by {
            assert(string_views(app.dispatchers@)[k] == app.dispatchers@[k]@);
            assert(free_vectors(ts, dispatcher_pool()).take(dispatcher_count(ts) as int)[k]
                == free_vectors(ts, dispatcher_pool())[k]);
        }
        assert forall|v: int| 0 <= v < app.task_state@.len() implies task_index_from(
            ts,
            (#[trigger] app.task_state@[v]).owner_task@,
            0,
        ) == task_index_from(pre_tasks, app.task_state@[v].owner_task@, 0) by {
            lemma_same_ids_same_index(ts, pre_tasks, app.task_state@[v].owner_task@, 0);
        }
        assert forall|k: int| 0 <= k < c.tasks@.len() implies resolves_task_up_to_locals(
            #[trigger] ts[k],
            c.tasks@[k],
        ) by {
            assert(same_but_locals(ts[k], pre_tasks[k]));
            assert(resolves_task(pre_tasks[k], c.tasks@[k]));
        }
    }
    Ok(app)
}

} // verus!
