//! Expansion of component-owned tasks: each concrete task a component
//! creates must bind exactly the slots its reusable contract declares.

use vstd::prelude::*;

use crate::composition::{
    find_spawn_requirement, requirement_id_list, requirement_ids, spawn_requirement_from,
    spawn_requirement_id_list, spawn_requirement_ids,
};
use crate::listing::{
    map_debug, map_debug_string, pair_views, pairs_map, same_string_map, same_string_set, set_debug,
    set_debug_string,
};
use crate::resolve::{
    resolved_interrupt, ResolvedConfigBinding, ResolvedResourceBinding, ResolvedSpawnBinding, ResolvedTask,
    ResolvedTaskTrigger,
};
use crate::task::{
    copy_all, same_contract, spec_config_rust_type, ConfigValue, ResourceRequirement, SpawnRequirement,
    TaskContract, TaskSafetyClass,
};
use crate::resolve::{serial_interrupt, spec_dma_interrupt, spec_serial_interrupt, dma_interrupt};
use crate::serial_endpoint::{
    missing_serial_resource, serial_resource, ResolvedSerialEndpoint, SerialEndpointResourceRole,
};
use crate::text::{concat2, concat3, concat5, strs};

verus! {

/// Logical names of `(logical, target)` binding pairs.
pub open spec fn logical_names<'a>(v: Seq<(&'static str, &'a str)>) -> Seq<Seq<char>> {
    v.map_values(|p: (&'static str, &'a str)| p.0@)
}

/// Diagnostic of a component task whose bindings of one kind name other
/// slots than its contract declares; both name sets print sorted.
pub open spec fn binding_set_message(
    task: Seq<char>,
    kind: Seq<char>,
    supplied: Set<Seq<char>>,
    required: Set<Seq<char>>,
) -> Seq<char> {
    "component task `"@ + task + "` "@ + kind + " bindings "@ + set_debug(supplied)
        + " do not match contract "@ + set_debug(required)
}

fn logical_name_list<'a>(v: &Vec<(&'static str, &'a str)>) -> (r: Vec<&'static str>)
    ensures
        strs(r@) == logical_names(v@),
{
    let mut out: Vec<&'static str> = Vec::new();
    let mut i: usize = 0;
    while i < v.len()
        invariant
            i <= v@.len(),
            out@.len() == i,
            forall|k: int| 0 <= k < i ==> #[trigger] out@[k] == v@[k].0,
        decreases v@.len() - i,
    {
        out.push(v[i].0);
        i = i + 1;
    }
    proof {
        assert(strs(out@) =~= logical_names(v@));
    }
    out
}

fn binding_set_error(task: &str, kind: &str, supplied: &Vec<&'static str>, required: &Vec<&'static str>) -> (r:
    String)
    ensures
        r@ == binding_set_message(task@, kind@, strs(supplied@).to_set(), strs(required@).to_set()),
{
    let mut message = concat5("component task `", task, "` ", kind, " bindings ");
    let s = set_debug_string(supplied);
    message.append(s.as_str());
    message.append(" do not match contract ");
    let q = set_debug_string(required);
    message.append(q.as_str());
    proof {
        assert(message@ =~= binding_set_message(
            task@,
            kind@,
            strs(supplied@).to_set(),
            strs(required@).to_set(),
        ));
    }
    message
}

/// Checks that the logical names of a component task's resource bindings of
/// one kind (`local` or `shared`) are exactly the slots its contract
/// declares.
pub fn validate_contract_resources<'a>(
    task: &str,
    kind: &str,
    requirements: &Vec<ResourceRequirement>,
    bindings: &Vec<(&'static str, &'a str)>,
) -> (r: Result<(), String>)
    ensures
        r is Ok <==> logical_names(bindings@).to_set() == requirement_ids(requirements@).to_set(),
        r matches Err(e) ==> e@ == binding_set_message(
            task@,
            kind@,
            logical_names(bindings@).to_set(),
            requirement_ids(requirements@).to_set(),
        ),
{
    let required = requirement_id_list(requirements);
    let supplied = logical_name_list(bindings);
    if same_string_set(&required, &supplied) {
        Ok(())
    } else {
        Err(binding_set_error(task, kind, &supplied, &required))
    }
}

/// Checks that the logical names of a component task's spawn bindings are
/// exactly the spawns its contract declares.
pub fn validate_contract_spawns<'a>(
    task: &str,
    contract: &TaskContract,
    bindings: &Vec<(&'static str, &'a str)>,
) -> (r: Result<(), String>)
    ensures
        r is Ok <==> logical_names(bindings@).to_set() == spawn_requirement_ids(
            contract.spawns@,
        ).to_set(),
        r matches Err(e) ==> e@ == binding_set_message(
            task@,
            "spawn"@,
            logical_names(bindings@).to_set(),
            spawn_requirement_ids(contract.spawns@).to_set(),
        ),
{
    let required = spawn_requirement_id_list(&contract.spawns);
    let supplied = logical_name_list(bindings);
    if same_string_set(&required, &supplied) {
        Ok(())
    } else {
        Err(binding_set_error(task, "spawn", &supplied, &required))
    }
}

/// Slot names paired with the Rust type of the value supplied for them.
pub open spec fn config_pairs(v: Seq<(&'static str, ConfigValue)>) -> Seq<(Seq<char>, Seq<char>)> {
    v.map_values(|p: (&'static str, ConfigValue)| (p.0@, spec_config_rust_type(p.1)))
}

/// Slot names paired with the Rust type each slot requires.
pub open spec fn requirement_pairs(v: Seq<ResourceRequirement>) -> Seq<(Seq<char>, Seq<char>)> {
    v.map_values(|q: ResourceRequirement| (q.id@, q.rust_type@))
}

/// Diagnostic of a component task whose configuration values do not supply
/// exactly the typed slots its contract declares; both maps print sorted.
pub open spec fn config_mismatch_message(
    task: Seq<char>,
    supplied: Map<Seq<char>, Seq<char>>,
    required: Map<Seq<char>, Seq<char>>,
) -> Seq<char> {
    "component task `"@ + task + "` config bindings "@ + map_debug(supplied)
        + " do not match contract "@ + map_debug(required)
}

/// Checks that a component task's configuration values supply exactly the
/// typed slots its contract declares: the same slot names, each with a value
/// of the declared Rust type.
pub fn validate_contract_config(
    task: &str,
    contract: &TaskContract,
    bindings: &Vec<(&'static str, ConfigValue)>,
) -> (r: Result<(), String>)
    ensures
        r is Ok <==> pairs_map(config_pairs(bindings@)) == pairs_map(
            requirement_pairs(contract.config@),
        ),
        r matches Err(e) ==> e@ == config_mismatch_message(
            task@,
            pairs_map(config_pairs(bindings@)),
            pairs_map(requirement_pairs(contract.config@)),
        ),
{
    let mut required: Vec<(&'static str, &'static str)> = Vec::new();
    let mut i: usize = 0;
    while i < contract.config.len()
        invariant
            i <= contract.config@.len(),
            required@.len() == i,
            forall|k: int|
                0 <= k < i ==> #[trigger] required@[k] == (
                    contract.config@[k].id,
                    contract.config@[k].rust_type,
                ),
        decreases contract.config@.len() - i,
    {
        required.push((contract.config[i].id, contract.config[i].rust_type));
        i = i + 1;
    }
    let mut supplied: Vec<(&'static str, &'static str)> = Vec::new();
    let mut i: usize = 0;
    while i < bindings.len()
        invariant
            i <= bindings@.len(),
            supplied@.len() == i,
            forall|k: int|
                0 <= k < i ==> #[trigger] supplied@[k].0 == bindings@[k].0 && supplied@[k].1@
                    == spec_config_rust_type(bindings@[k].1),
        decreases bindings@.len() - i,
    {
        supplied.push((bindings[i].0, bindings[i].1.rust_type()));
        i = i + 1;
    }
    proof {
        assert(pair_views(required@) =~= requirement_pairs(contract.config@));
        assert(pair_views(supplied@) =~= config_pairs(bindings@));
    }
    if same_string_map(&supplied, &required) {
        Ok(())
    } else {
        let mut message = concat3("component task `", task, "` config bindings ");
        let s = map_debug_string(&supplied);
        message.append(s.as_str());
        message.append(" do not match contract ");
        let q = map_debug_string(&required);
        message.append(q.as_str());
        proof {
            assert(message@ =~= config_mismatch_message(
                task@,
                pairs_map(config_pairs(bindings@)),
                pairs_map(requirement_pairs(contract.config@)),
            ));
        }
        Err(message)
    }
}

/// Character sequences of `(logical, target)` binding pairs.
pub open spec fn binding_views<'a>(v: Seq<(&'static str, &'a str)>) -> Seq<(Seq<char>, Seq<char>)> {
    v.map_values(|p: (&'static str, &'a str)| (p.0@, p.1@))
}

/// Logical names of binding pairs given as character sequences.
pub open spec fn view_names(v: Seq<(Seq<char>, Seq<char>)>) -> Seq<Seq<char>> {
    v.map_values(|p: (Seq<char>, Seq<char>)| p.0)
}

/// Configuration bindings with their slot names as character sequences.
pub open spec fn config_views(v: Seq<(&'static str, ConfigValue)>) -> Seq<(Seq<char>, ConfigValue)> {
    v.map_values(|p: (&'static str, ConfigValue)| (p.0@, p.1))
}

/// Slot names paired with the Rust type of the value supplied for them.
pub open spec fn config_type_pairs(v: Seq<(Seq<char>, ConfigValue)>) -> Seq<(Seq<char>, Seq<char>)> {
    v.map_values(|p: (Seq<char>, ConfigValue)| (p.0, spec_config_rust_type(p.1)))
}

/// First rule a component task's bindings break against its contract: its
/// local resources, then its shared resources, then its configuration, then
/// its spawns; `None` when every kind covers the contract exactly.
pub open spec fn component_task_error(
    id: Seq<char>,
    contract: TaskContract,
    local: Seq<(Seq<char>, Seq<char>)>,
    shared: Seq<(Seq<char>, Seq<char>)>,
    config: Seq<(Seq<char>, ConfigValue)>,
    spawns: Seq<(Seq<char>, Seq<char>)>,
) -> Option<Seq<char>> {
    let lr = requirement_ids(contract.local@).to_set();
    let sr = requirement_ids(contract.shared@).to_set();
    let cs = pairs_map(config_type_pairs(config));
    let cr = pairs_map(requirement_pairs(contract.config@));
    let pr = spawn_requirement_ids(contract.spawns@).to_set();
    if view_names(local).to_set() != lr {
        Some(binding_set_message(id, "local"@, view_names(local).to_set(), lr))
    } else if view_names(shared).to_set() != sr {
        Some(binding_set_message(id, "shared"@, view_names(shared).to_set(), sr))
    } else if cs != cr {
        Some(config_mismatch_message(id, cs, cr))
    } else if view_names(spawns).to_set() != pr {
        Some(binding_set_message(id, "spawn"@, view_names(spawns).to_set(), pr))
    } else {
        None
    }
}

/// `r` resolves the `(logical, target)` binding pairs `b`, in order.
pub open spec fn resolves_pairs(r: Seq<ResolvedResourceBinding>, b: Seq<(Seq<char>, Seq<char>)>) -> bool {
    &&& r.len() == b.len()
    &&& forall|j: int| 0 <= j < b.len() ==> #[trigger] r[j].logical@ == b[j].0 && r[j].target@ == b[j].1
}

/// `t` is the concrete task a component creates from a contract and
/// bindings that cover it: named `id`, entered through the interrupt
/// `trigger` names (a software task when it names none) at `priority`, with
/// no safety authority, its bindings in the given order, each spawn carrying
/// the argument types of the contract's first spawn of that name, and owned
/// by component `owner`.
pub open spec fn expands_component_task(
    t: ResolvedTask,
    owner: Seq<char>,
    id: Seq<char>,
    contract: TaskContract,
    trigger: Option<Seq<char>>,
    priority: u8,
    local: Seq<(Seq<char>, Seq<char>)>,
    shared: Seq<(Seq<char>, Seq<char>)>,
    config: Seq<(Seq<char>, ConfigValue)>,
    spawns: Seq<(Seq<char>, Seq<char>)>,
) -> bool {
    &&& t.id@ == id
    &&& same_contract(t.contract, contract)
    &&& resolved_interrupt(t.trigger) == trigger
    &&& t.priority == priority
    &&& t.safety_class == TaskSafetyClass::NonSafetyCritical
    &&& resolves_pairs(t.local@, local)
    &&& resolves_pairs(t.shared@, shared)
    &&& t.config@.len() == config.len()
    &&& forall|j: int|
        0 <= j < config.len() ==> #[trigger] t.config@[j].logical@ == config[j].0
            && t.config@[j].value == config[j].1
    &&& t.spawns@.len() == spawns.len()
    &&& forall|j: int|
        0 <= j < spawns.len() ==> #[trigger] t.spawns@[j].logical@ == spawns[j].0
            && t.spawns@[j].target@ == spawns[j].1 && (spawn_requirement_from(
            contract.spawns@,
            spawns[j].0,
            0,
        ) matches Some(q) && t.spawns@[j].arguments@ == q.arguments@)
    &&& t.owner_component matches Some(o) && o@ == owner
}

/// Logical names of resolved resource bindings.
pub open spec fn resolved_names(r: Seq<ResolvedResourceBinding>) -> Seq<Seq<char>> {
    r.map_values(|b: ResolvedResourceBinding| b.logical@)
}

/// Logical names of resolved spawn bindings.
pub open spec fn resolved_spawn_names(r: Seq<ResolvedSpawnBinding>) -> Seq<Seq<char>> {
    r.map_values(|b: ResolvedSpawnBinding| b.logical@)
}

/// Slot names of resolved configuration values paired with their Rust types.
pub open spec fn resolved_config_types(r: Seq<ResolvedConfigBinding>) -> Seq<(Seq<char>, Seq<char>)> {
    r.map_values(|b: ResolvedConfigBinding| (b.logical@, spec_config_rust_type(b.value)))
}

/// A component task created from bindings that cover its contract binds,
/// by logical name, exactly the contract's local, shared, and spawn slots,
/// and supplies exactly its typed configuration slots.
pub proof fn lemma_component_task_covers_contract(
    t: ResolvedTask,
    owner: Seq<char>,
    id: Seq<char>,
    contract: TaskContract,
    trigger: Option<Seq<char>>,
    priority: u8,
    local: Seq<(Seq<char>, Seq<char>)>,
    shared: Seq<(Seq<char>, Seq<char>)>,
    config: Seq<(Seq<char>, ConfigValue)>,
    spawns: Seq<(Seq<char>, Seq<char>)>,
)
    requires
        component_task_error(id, contract, local, shared, config, spawns) is None,
        expands_component_task(t, owner, id, contract, trigger, priority, local, shared, config, spawns),
    ensures
        resolved_names(t.local@).to_set() == requirement_ids(contract.local@).to_set(),
        resolved_names(t.shared@).to_set() == requirement_ids(contract.shared@).to_set(),
        resolved_spawn_names(t.spawns@).to_set() == spawn_requirement_ids(contract.spawns@).to_set(),
        pairs_map(resolved_config_types(t.config@)) == pairs_map(requirement_pairs(contract.config@)),
{
    assert(resolved_names(t.local@) =~= view_names(local));
    assert(resolved_names(t.shared@) =~= view_names(shared));
    assert(resolved_spawn_names(t.spawns@) =~= view_names(spawns));
    assert(resolved_config_types(t.config@) =~= config_type_pairs(config));
}

proof fn lemma_spawn_requirement_found(v: Seq<SpawnRequirement>, x: Seq<char>, i: int)
    requires
        0 <= i,
        exists|k: int| i <= k < v.len() && #[trigger] v[k].id@ == x,
    ensures
        spawn_requirement_from(v, x, i) is Some,
    decreases v.len() - i,
{
    if v[i].id@ != x {
        lemma_spawn_requirement_found(v, x, i + 1);
    }
}

fn resolve_pairs<'a>(pairs: &Vec<(&'static str, &'a str)>) -> (r: Vec<ResolvedResourceBinding>)
    ensures
        resolves_pairs(r@, binding_views(pairs@)),
{
    let mut out: Vec<ResolvedResourceBinding> = Vec::new();
    let mut i: usize = 0;
    while i < pairs.len()
        invariant
            i <= pairs@.len(),
            out@.len() == i,
            forall|j: int|
                0 <= j < i ==> #[trigger] out@[j].logical == pairs@[j].0 && out@[j].target@
                    == pairs@[j].1@,
        decreases pairs@.len() - i,
    {
        out.push(ResolvedResourceBinding { logical: pairs[i].0, target: String::from_str(pairs[i].1) });
        i = i + 1;
    }
    out
}

/// Creates one concrete component task after checking that its local,
/// shared, configuration, and spawn bindings cover its contract exactly.
pub fn component_task_with_bindings<'a>(
    owner: &'static str,
    id: String,
    contract: &TaskContract,
    trigger: ResolvedTaskTrigger,
    priority: u8,
    local: Vec<(&'static str, &'a str)>,
    shared: Vec<(&'static str, &'a str)>,
    config: Vec<(&'static str, ConfigValue)>,
    spawns: Vec<(&'static str, &'a str)>,
) -> (r: Result<ResolvedTask, String>)
    ensures
        r is Ok <==> component_task_error(
            id@,
            *contract,
            binding_views(local@),
            binding_views(shared@),
            config_views(config@),
            binding_views(spawns@),
        ) is None,
        r matches Err(e) ==> component_task_error(
            id@,
            *contract,
            binding_views(local@),
            binding_views(shared@),
            config_views(config@),
            binding_views(spawns@),
        ) == Some(e@),
        r matches Ok(t) ==> expands_component_task(
            t,
            owner@,
            id@,
            *contract,
            resolved_interrupt(trigger),
            priority,
            binding_views(local@),
            binding_views(shared@),
            config_views(config@),
            binding_views(spawns@),
        ),
{
    proof {
        assert(view_names(binding_views(local@)) =~= logical_names(local@));
        assert(view_names(binding_views(shared@)) =~= logical_names(shared@));
        assert(view_names(binding_views(spawns@)) =~= logical_names(spawns@));
        assert(config_type_pairs(config_views(config@)) =~= config_pairs(config@));
    }
    validate_contract_resources(id.as_str(), "local", &contract.local, &local)?;
    validate_contract_resources(id.as_str(), "shared", &contract.shared, &shared)?;
    validate_contract_config(id.as_str(), contract, &config)?;
    validate_contract_spawns(id.as_str(), contract, &spawns)?;
    let mut resolved_config: Vec<ResolvedConfigBinding> = Vec::new();
    let mut i: usize = 0;
    while i < config.len()
        invariant
            i <= config@.len(),
            resolved_config@.len() == i,
            forall|j: int|
                0 <= j < i ==> #[trigger] resolved_config@[j].logical == config@[j].0
                    && resolved_config@[j].value == config@[j].1,
        decreases config@.len() - i,
    {
        resolved_config.push(ResolvedConfigBinding { logical: config[i].0, value: config[i].1 });
        i = i + 1;
    }
    let mut resolved_spawns: Vec<ResolvedSpawnBinding> = Vec::new();
    let mut i: usize = 0;
    while i < spawns.len()
        invariant
            i <= spawns@.len(),
            logical_names(spawns@).to_set() == spawn_requirement_ids(contract.spawns@).to_set(),
            resolved_spawns@.len() == i,
            forall|j: int|
                0 <= j < i ==> #[trigger] resolved_spawns@[j].logical == spawns@[j].0
                    && resolved_spawns@[j].target@ == spawns@[j].1@ && (spawn_requirement_from(
                    contract.spawns@,
                    spawns@[j].0@,
                    0,
                ) matches Some(q) && resolved_spawns@[j].arguments@ == q.arguments@),
        decreases spawns@.len() - i,
    {
        let logical = spawns[i].0;
        proof {
            assert(logical_names(spawns@)[i as int] == logical@);
            assert(logical_names(spawns@).to_set().contains(logical@));
            assert(spawn_requirement_ids(contract.spawns@).contains(logical@));
            let k = choose|k: int|
                0 <= k < spawn_requirement_ids(contract.spawns@).len()
                    && spawn_requirement_ids(contract.spawns@)[k] == logical@;
            assert(contract.spawns@[k].id@ == logical@);
            lemma_spawn_requirement_found(contract.spawns@, logical@, 0);
        }
        let found = find_spawn_requirement(&contract.spawns, logical);
        let k = match found {
            Some(k) => k,
            None => {
                proof {
                    assert(false);
                }
                0
            },
        };
        let arguments = copy_all(&contract.spawns[k].arguments);
        resolved_spawns.push(
            ResolvedSpawnBinding { logical, target: String::from_str(spawns[i].1), arguments },
        );
        i = i + 1;
    }
    Ok(
        ResolvedTask {
            id,
            contract: contract.duplicate(),
            trigger,
            priority,
            safety_class: TaskSafetyClass::NonSafetyCritical,
            local: resolve_pairs(&local),
            shared: resolve_pairs(&shared),
            config: resolved_config,
            spawns: resolved_spawns,
            owner_component: Some(owner),
        },
    )
}

/// Creates one concrete component task that takes no configuration values
/// and performs no spawns.
pub fn component_task<'a>(
    owner: &'static str,
    id: String,
    contract: &TaskContract,
    trigger: ResolvedTaskTrigger,
    priority: u8,
    local: Vec<(&'static str, &'a str)>,
    shared: Vec<(&'static str, &'a str)>,
) -> (r: Result<ResolvedTask, String>)
    ensures
        r is Ok <==> component_task_error(
            id@,
            *contract,
            binding_views(local@),
            binding_views(shared@),
            Seq::empty(),
            Seq::empty(),
        ) is None,
        r matches Err(e) ==> component_task_error(
            id@,
            *contract,
            binding_views(local@),
            binding_views(shared@),
            Seq::empty(),
            Seq::empty(),
        ) == Some(e@),
        r matches Ok(t) ==> expands_component_task(
            t,
            owner@,
            id@,
            *contract,
            resolved_interrupt(trigger),
            priority,
            binding_views(local@),
            binding_views(shared@),
            Seq::empty(),
            Seq::empty(),
        ),
{
    let config: Vec<(&'static str, ConfigValue)> = Vec::new();
    let spawns: Vec<(&'static str, &'a str)> = Vec::new();
    proof {
        assert(config_views(config@) =~= Seq::<(Seq<char>, ConfigValue)>::empty());
        assert(binding_views(spawns@) =~= Seq::<(Seq<char>, Seq<char>)>::empty());
    }
    component_task_with_bindings(owner, id, contract, trigger, priority, local, shared, config, spawns)
}

/// Binding views with no entries.
pub open spec fn no_bindings() -> Seq<(Seq<char>, Seq<char>)> {
    Seq::empty()
}

/// One binding view.
pub open spec fn one_binding(logical: Seq<char>, target: Seq<char>) -> Seq<(Seq<char>, Seq<char>)> {
    seq![(logical, target)]
}

/// First rule a serial endpoint breaks while expanding into its tasks: a
/// missing receive route or DMA route, a missing receive resource, a receive
/// task whose bindings miss its contract, then the same for the transmit
/// side and its worker priority; `None` when all five tasks expand.
pub open spec fn serial_expansion_error(e: ResolvedSerialEndpoint) -> Option<Seq<char>> {
    let d = e.declaration;
    let id = d.id@;
    let t = d.definition.tasks;
    let bridge_id = id + "_rx_bridge"@;
    if e.hardware.port.rx is None {
        Some("validated serial endpoint lost its RX route"@)
    } else if e.hardware.port.rx.unwrap().dma is None {
        Some("validated serial endpoint lost its RX DMA route"@)
    } else if serial_resource(e, SerialEndpointResourceRole::RxService) is None {
        Some(missing_serial_resource(id, SerialEndpointResourceRole::RxService))
    } else if serial_resource(e, SerialEndpointResourceRole::RxParser) is None {
        Some(missing_serial_resource(id, SerialEndpointResourceRole::RxParser))
    } else {
        let rx = serial_resource(e, SerialEndpointResourceRole::RxService).unwrap();
        let parser = serial_resource(e, SerialEndpointResourceRole::RxParser).unwrap();
        let e0 = component_task_error(
            id + "_rx_idle_irq"@,
            t.peripheral_irq,
            no_bindings(),
            one_binding("rx"@, rx),
            Seq::empty(),
            one_binding("bridge"@, bridge_id),
        );
        let e1 = component_task_error(
            id + "_rx_dma_irq"@,
            t.rx_dma_irq,
            no_bindings(),
            one_binding("rx"@, rx),
            Seq::empty(),
            one_binding("bridge"@, bridge_id),
        );
        let e2 = component_task_error(
            bridge_id,
            t.rx_bridge,
            one_binding("bridge"@, parser),
            no_bindings(),
            Seq::empty(),
            no_bindings(),
        );
        if e0 is Some {
            e0
        } else if e1 is Some {
            e1
        } else if e2 is Some {
            e2
        } else if e.hardware.port.tx is None {
            Some("validated serial endpoint lost its TX route"@)
        } else if e.hardware.port.tx.unwrap().dma is None {
            Some("validated serial endpoint lost its TX DMA route"@)
        } else if serial_resource(e, SerialEndpointResourceRole::TxDma) is None {
            Some(missing_serial_resource(id, SerialEndpointResourceRole::TxDma))
        } else if serial_resource(e, SerialEndpointResourceRole::TxCompletion) is None {
            Some(missing_serial_resource(id, SerialEndpointResourceRole::TxCompletion))
        } else if serial_resource(e, SerialEndpointResourceRole::TxOwner) is None {
            Some(missing_serial_resource(id, SerialEndpointResourceRole::TxOwner))
        } else {
            let tx_dma = serial_resource(e, SerialEndpointResourceRole::TxDma).unwrap();
            let completion = serial_resource(e, SerialEndpointResourceRole::TxCompletion).unwrap();
            let owner = serial_resource(e, SerialEndpointResourceRole::TxOwner).unwrap();
            let e3 = component_task_error(
                id + "_tx_dma_irq"@,
                t.tx_dma_irq,
                one_binding("completion"@, completion),
                one_binding("tx_dma"@, tx_dma),
                Seq::empty(),
                no_bindings(),
            );
            if e3 is Some {
                e3
            } else if d.worker_priority is None {
                Some("validated endpoint lost its worker priority"@)
            } else {
                component_task_error(
                    id + "_tx_worker"@,
                    t.tx_worker,
                    one_binding("owner"@, owner),
                    one_binding("tx_dma"@, tx_dma),
                    Seq::empty(),
                    no_bindings(),
                )
            }
        }
    }
}

/// `ts` are the five tasks a serial endpoint expands into, in order: the
/// peripheral interrupt and receive-DMA interrupt tasks sharing the receive
/// service and spawning the bridge, the software bridge owning the parser,
/// the transmit-DMA interrupt task, and the software transmit worker.
pub open spec fn serial_endpoint_tasks(e: ResolvedSerialEndpoint, ts: Seq<ResolvedTask>) -> bool {
    let d = e.declaration;
    let id = d.id@;
    let t = d.definition.tasks;
    let bridge_id = id + "_rx_bridge"@;
    let rx = serial_resource(e, SerialEndpointResourceRole::RxService).unwrap();
    let parser = serial_resource(e, SerialEndpointResourceRole::RxParser).unwrap();
    let tx_dma = serial_resource(e, SerialEndpointResourceRole::TxDma).unwrap();
    let completion = serial_resource(e, SerialEndpointResourceRole::TxCompletion).unwrap();
    let owner = serial_resource(e, SerialEndpointResourceRole::TxOwner).unwrap();
    &&& ts.len() == 5
    &&& expands_component_task(
        ts[0],
        id,
        id + "_rx_idle_irq"@,
        t.peripheral_irq,
        Some(spec_serial_interrupt(e.hardware.port.peripheral)),
        d.interrupt_priority,
        no_bindings(),
        one_binding("rx"@, rx),
        Seq::empty(),
        one_binding("bridge"@, bridge_id),
    )
    &&& expands_component_task(
        ts[1],
        id,
        id + "_rx_dma_irq"@,
        t.rx_dma_irq,
        Some(spec_dma_interrupt(e.hardware.port.rx.unwrap().dma.unwrap())),
        d.interrupt_priority,
        no_bindings(),
        one_binding("rx"@, rx),
        Seq::empty(),
        one_binding("bridge"@, bridge_id),
    )
    &&& expands_component_task(
        ts[2],
        id,
        bridge_id,
        t.rx_bridge,
        None,
        d.bridge_priority,
        one_binding("bridge"@, parser),
        no_bindings(),
        Seq::empty(),
        no_bindings(),
    )
    &&& expands_component_task(
        ts[3],
        id,
        id + "_tx_dma_irq"@,
        t.tx_dma_irq,
        Some(spec_dma_interrupt(e.hardware.port.tx.unwrap().dma.unwrap())),
        d.interrupt_priority,
        one_binding("completion"@, completion),
        one_binding("tx_dma"@, tx_dma),
        Seq::empty(),
        no_bindings(),
    )
    &&& expands_component_task(
        ts[4],
        id,
        id + "_tx_worker"@,
        t.tx_worker,
        None,
        d.worker_priority.unwrap(),
        one_binding("owner"@, owner),
        one_binding("tx_dma"@, tx_dma),
        Seq::empty(),
        no_bindings(),
    )
}

/// Expands a resolved serial endpoint into its receive and transmit tasks.
pub fn expand_serial_endpoint_tasks(endpoint: &ResolvedSerialEndpoint) -> (r: Result<
    Vec<ResolvedTask>,
    String,
>)
    ensures
        match serial_expansion_error(*endpoint) {
            Some(m) => r matches Err(e) && e@ == m,
            None => r matches Ok(ts) && serial_endpoint_tasks(*endpoint, ts@),
        },
{
    let declaration = &endpoint.declaration;
    let id = declaration.id;
    let tasks = &declaration.definition.tasks;
    let rx_route = match endpoint.hardware.port.rx {
        Some(route) => route,
        None => {
            return Err(String::from_str("validated serial endpoint lost its RX route"));
        },
    };
    let rx_dma = match rx_route.dma {
        Some(route) => route,
        None => {
            return Err(String::from_str("validated serial endpoint lost its RX DMA route"));
        },
    };
    let rx = endpoint.resource_id(SerialEndpointResourceRole::RxService)?;
    let rx_bridge = endpoint.resource_id(SerialEndpointResourceRole::RxParser)?;
    let rx_bridge_id = concat2(id, "_rx_bridge");
    let ghost rxv = rx@;
    let ghost parserv = rx_bridge@;
    let ghost bridgev = rx_bridge_id@;
    let no_config: Vec<(&'static str, ConfigValue)> = Vec::new();
    proof {
        assert(config_views(no_config@) =~= Seq::<(Seq<char>, ConfigValue)>::empty());
    }
    let l0: Vec<(&'static str, &str)> = Vec::new();
    let s0 = vec![("rx", rx)];
    let p0 = vec![("bridge", rx_bridge_id.as_str())];
    proof {
        assert(binding_views(l0@) =~= no_bindings());
        assert(binding_views(s0@) =~= one_binding("rx"@, rxv));
        assert(binding_views(p0@) =~= one_binding("bridge"@, bridgev));
    }
    let idle_id = concat2(id, "_rx_idle_irq");
    proof {
        assert(idle_id@ =~= id@ + "_rx_idle_irq"@);
    }
    let idle = component_task_with_bindings(
        id,
        idle_id,
        &tasks.peripheral_irq,
        ResolvedTaskTrigger::Interrupt(serial_interrupt(endpoint.hardware.port.peripheral)),
        declaration.interrupt_priority,
        l0,
        s0,
        no_config,
        p0,
    )?;
    let no_config: Vec<(&'static str, ConfigValue)> = Vec::new();
    proof {
        assert(config_views(no_config@) =~= Seq::<(Seq<char>, ConfigValue)>::empty());
    }
    let l1: Vec<(&'static str, &str)> = Vec::new();
    let s1 = vec![("rx", rx)];
    let p1 = vec![("bridge", rx_bridge_id.as_str())];
    proof {
        assert(binding_views(l1@) =~= no_bindings());
        assert(binding_views(s1@) =~= one_binding("rx"@, rxv));
        assert(binding_views(p1@) =~= one_binding("bridge"@, bridgev));
    }
    let dma_id = concat2(id, "_rx_dma_irq");
    proof {
        assert(dma_id@ =~= id@ + "_rx_dma_irq"@);
    }
    let rx_dma_task = component_task_with_bindings(
        id,
        dma_id,
        &tasks.rx_dma_irq,
        ResolvedTaskTrigger::Interrupt(dma_interrupt(rx_dma)),
        declaration.interrupt_priority,
        l1,
        s1,
        no_config,
        p1,
    )?;
    let l2 = vec![("bridge", rx_bridge)];
    let s2: Vec<(&'static str, &str)> = Vec::new();
    proof {
        assert(binding_views(l2@) =~= one_binding("bridge"@, parserv));
        assert(binding_views(s2@) =~= no_bindings());
    }
    let bridge_task = component_task(
        id,
        rx_bridge_id,
        &tasks.rx_bridge,
        ResolvedTaskTrigger::Software,
        declaration.bridge_priority,
        l2,
        s2,
    )?;
    let tx_route = match endpoint.hardware.port.tx {
        Some(route) => route,
        None => {
            return Err(String::from_str("validated serial endpoint lost its TX route"));
        },
    };
    let tx_dma_route = match tx_route.dma {
        Some(route) => route,
        None => {
            return Err(String::from_str("validated serial endpoint lost its TX DMA route"));
        },
    };
    let tx_dma = endpoint.resource_id(SerialEndpointResourceRole::TxDma)?;
    let completion = endpoint.resource_id(SerialEndpointResourceRole::TxCompletion)?;
    let owner = endpoint.resource_id(SerialEndpointResourceRole::TxOwner)?;
    let l3 = vec![("completion", completion)];
    let s3 = vec![("tx_dma", tx_dma)];
    proof {
        assert(binding_views(l3@) =~= one_binding("completion"@, completion@));
        assert(binding_views(s3@) =~= one_binding("tx_dma"@, tx_dma@));
    }
    let tx_irq_id = concat2(id, "_tx_dma_irq");
    proof {
        assert(tx_irq_id@ =~= id@ + "_tx_dma_irq"@);
    }
    let tx_irq = component_task(
        id,
        tx_irq_id,
        &tasks.tx_dma_irq,
        ResolvedTaskTrigger::Interrupt(dma_interrupt(tx_dma_route)),
        declaration.interrupt_priority,
        l3,
        s3,
    )?;
    let worker_priority = match declaration.worker_priority {
        Some(priority) => priority,
        None => {
            return Err(String::from_str("validated endpoint lost its worker priority"));
        },
    };
    let l4 = vec![("owner", owner)];
    let s4 = vec![("tx_dma", tx_dma)];
    proof {
        assert(binding_views(l4@) =~= one_binding("owner"@, owner@));
        assert(binding_views(s4@) =~= one_binding("tx_dma"@, tx_dma@));
    }
    let worker_id = concat2(id, "_tx_worker");
    proof {
        assert(worker_id@ =~= id@ + "_tx_worker"@);
    }
    let worker = component_task(
        id,
        worker_id,
        &tasks.tx_worker,
        ResolvedTaskTrigger::Software,
        worker_priority,
        l4,
        s4,
    )?;
    let mut out: Vec<ResolvedTask> = Vec::new();
    out.push(idle);
    out.push(rx_dma_task);
    out.push(bridge_task);
    out.push(tx_irq);
    out.push(worker);
    Ok(out)
}

} // verus!
