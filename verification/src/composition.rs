//! Application-composition declarations and the structural checks shared by
//! composition validation and resolution.

use vstd::prelude::*;

use crate::board::BoardDeclaration;
use crate::component::{hardware_composition_error, validate_hardware_composition, ComponentDeclaration};
use crate::platform_config::PlatformConfig;
use crate::safety_channel::SafetyChannelDeclaration;
use crate::state::TaskStateDeclaration;
use crate::state_rules::{declared_state_ids, state_declared, task_state_error_upto, validate_task_state_declarations};
use crate::task_graph::{task_graph_error, validate_task_graph};
use crate::timing::{InitDelayDeclaration, MonotonicDeclaration};
use crate::task::{
    same_contract, spec_config_rust_type, ConfigBinding, ResourceBinding, ResourceRequirement,
    SpawnBinding, SpawnRequirement, TaskContract, TaskSafetyClass,
};
use crate::text::{
    concat3, concat5, concat7, contains_str, has_duplicate, has_duplicate_str, least_absent,
    least_absent_str, str_eq, strs, strs_eq,
};

verus! {

/// Initial value for an application-owned shared resource.
#[derive(Clone, Copy, Debug, PartialEq, Eq, Structural)]
pub enum SharedValue {
    /// Boolean shared state.
    Bool(bool),
    /// Unsigned 32-bit shared state.
    U32(u32),
}

/// Rust type of a shared value.
pub open spec fn spec_shared_rust_type(v: SharedValue) -> Seq<char> {
    match v {
        SharedValue::Bool(_) => "bool"@,
        SharedValue::U32(_) => "u32"@,
    }
}

impl SharedValue {
    /// Rust type of this value.
    pub fn rust_type(self) -> (r: &'static str)
        ensures
            r@ == spec_shared_rust_type(self),
    {
        match self {
            SharedValue::Bool(_) => "bool",
            SharedValue::U32(_) => "u32",
        }
    }
}

/// Declares one application-owned value available through RTIC shared locking.
#[derive(Clone, Copy, Debug)]
pub struct SharedResourceDeclaration {
    /// Concrete field name used by the generated application.
    pub id: &'static str,
    /// Initial value constructed by RTIC initialization.
    pub initial: SharedValue,
}

impl SharedResourceDeclaration {
    /// Declares a Boolean shared resource.
    pub fn bool(id: &'static str, initial: bool) -> (r: Self)
        ensures
            r.id == id,
            r.initial == SharedValue::Bool(initial),
    {
        SharedResourceDeclaration { id, initial: SharedValue::Bool(initial) }
    }

    /// Declares an unsigned 32-bit shared resource.
    pub fn u32(id: &'static str, initial: u32) -> (r: Self)
        ensures
            r.id == id,
            r.initial == SharedValue::U32(initial),
    {
        SharedResourceDeclaration { id, initial: SharedValue::U32(initial) }
    }

    /// Rust type of the resource.
    pub fn rust_type(self) -> (r: &'static str)
        ensures
            r@ == spec_shared_rust_type(self.initial),
    {
        self.initial.rust_type()
    }
}

/// Selects how a concrete task instance enters execution.
#[derive(Clone, Copy, Debug)]
pub enum TaskTrigger {
    /// Hardware task bound directly to the named STM32F4 interrupt vector.
    Interrupt(&'static str),
    /// Software task entered through RTIC's generated spawn API.
    Software,
}

/// One concrete instance of a reusable task contract.
#[derive(Clone, Debug)]
pub struct TaskDeclaration {
    /// Concrete task identifier used by the generated RTIC application.
    pub id: &'static str,
    /// Reusable task-local contract implemented by this instance.
    pub contract: TaskContract,
    /// Interrupt or software-spawn entry mechanism.
    pub trigger: TaskTrigger,
    /// Safety authority assigned to this concrete task instance.
    pub safety_class: TaskSafetyClass,
    /// RTIC task priority. Zero is invalid.
    pub priority: u8,
    /// Concrete bindings for every `cx.local` contract slot.
    pub local: Vec<ResourceBinding>,
    /// Concrete bindings for every `cx.shared` contract slot.
    pub shared: Vec<ResourceBinding>,
    /// Concrete values for every `cx.config` contract slot.
    pub config: Vec<ConfigBinding>,
    /// Concrete destinations for every logical spawn operation.
    pub spawns: Vec<SpawnBinding>,
}

impl TaskDeclaration {
    /// Creates an interrupt-bound task with no priority or contract bindings.
    pub fn interrupt(id: &'static str, contract: TaskContract, interrupt: &'static str) -> (r: Self)
        ensures
            r.id == id,
            r.contract == contract,
            r.trigger == TaskTrigger::Interrupt(interrupt),
            r.safety_class == TaskSafetyClass::NonSafetyCritical,
            r.priority == 0,
            r.local@.len() == 0,
            r.shared@.len() == 0,
            r.config@.len() == 0,
            r.spawns@.len() == 0,
    {
        Self::new(id, contract, TaskTrigger::Interrupt(interrupt))
    }

    /// Creates a spawn-triggered software task with no priority or bindings.
    pub fn software(id: &'static str, contract: TaskContract) -> (r: Self)
        ensures
            r.id == id,
            r.contract == contract,
            r.trigger == TaskTrigger::Software,
            r.safety_class == TaskSafetyClass::NonSafetyCritical,
            r.priority == 0,
            r.local@.len() == 0,
            r.shared@.len() == 0,
            r.config@.len() == 0,
            r.spawns@.len() == 0,
    {
        Self::new(id, contract, TaskTrigger::Software)
    }

    fn new(id: &'static str, contract: TaskContract, trigger: TaskTrigger) -> (r: Self)
        ensures
            r.id == id,
            r.contract == contract,
            r.trigger == trigger,
            r.safety_class == TaskSafetyClass::NonSafetyCritical,
            r.priority == 0,
            r.local@.len() == 0,
            r.shared@.len() == 0,
            r.config@.len() == 0,
            r.spawns@.len() == 0,
    {
        TaskDeclaration {
            id,
            contract,
            trigger,
            safety_class: TaskSafetyClass::NonSafetyCritical,
            priority: 0,
            local: Vec::new(),
            shared: Vec::new(),
            config: Vec::new(),
            spawns: Vec::new(),
        }
    }

    /// Sets the RTIC scheduling priority.
    pub fn priority(self, priority: u8) -> (r: Self)
        ensures
            r == (TaskDeclaration { priority, ..self }),
    {
        TaskDeclaration { priority, ..self }
    }

    /// Assigns the task's safety role explicitly.
    pub fn safety_class(self, safety_class: TaskSafetyClass) -> (r: Self)
        ensures
            r == (TaskDeclaration { safety_class, ..self }),
    {
        TaskDeclaration { safety_class, ..self }
    }

    /// Marks the task as an owner in an authoritative safety path.
    pub fn safety_critical(self) -> (r: Self)
        ensures
            r == (TaskDeclaration { safety_class: TaskSafetyClass::SafetyCritical, ..self }),
    {
        self.safety_class(TaskSafetyClass::SafetyCritical)
    }

    /// Supplies every task-local resource binding.
    pub fn with_local(self, bindings: Vec<ResourceBinding>) -> (r: Self)
        ensures
            r == (TaskDeclaration { local: bindings, ..self }),
    {
        TaskDeclaration { local: bindings, ..self }
    }

    /// Supplies every task-shared resource binding.
    pub fn with_shared(self, bindings: Vec<ResourceBinding>) -> (r: Self)
        ensures
            r == (TaskDeclaration { shared: bindings, ..self }),
    {
        TaskDeclaration { shared: bindings, ..self }
    }

    /// Supplies every compile-time task configuration value.
    pub fn with_config(self, bindings: Vec<ConfigBinding>) -> (r: Self)
        ensures
            r == (TaskDeclaration { config: bindings, ..self }),
    {
        TaskDeclaration { config: bindings, ..self }
    }

    /// Supplies every logical task-spawn destination.
    pub fn with_spawns(self, bindings: Vec<SpawnBinding>) -> (r: Self)
        ensures
            r == (TaskDeclaration { spawns: bindings, ..self }),
    {
        TaskDeclaration { spawns: bindings, ..self }
    }

    /// Declares that RTIC initialization spawns the task once.
    pub fn init_spawn(&self) -> (r: InitSpawn)
        ensures
            r.task == self.id,
    {
        InitSpawn { task: self.id }
    }
}

/// One software task started by the generated RTIC `init` function.
#[derive(Clone, Copy, Debug)]
pub struct InitSpawn {
    /// Concrete software-task identifier to spawn.
    pub task: &'static str,
}

/// Structural composition-validation failure.
#[derive(Clone, Debug, PartialEq, Eq)]
pub struct CompositionError {
    /// Human-readable diagnostic.
    pub message: String,
}

impl CompositionError {
    /// Wraps a diagnostic.
    pub fn new(message: String) -> (r: Self)
        ensures
            r.message@ == message@,
    {
        CompositionError { message }
    }

    /// The diagnostic text.
    pub fn to_string(&self) -> (r: String)
        ensures
            r@ == self.message@,
    {
        self.message.clone()
    }
}

/// ASCII letter.
pub open spec fn is_ascii_alpha(c: char) -> bool {
    ('a' <= c && c <= 'z') || ('A' <= c && c <= 'Z')
}

/// ASCII digit.
pub open spec fn is_ascii_digit(c: char) -> bool {
    '0' <= c && c <= '9'
}

/// A nonempty Rust identifier: a letter or `_`, then letters, digits, or `_`.
pub open spec fn is_rust_identifier(s: Seq<char>) -> bool {
    &&& s.len() > 0
    &&& (s[0] == '_' || is_ascii_alpha(s[0]))
    &&& forall|i: int| 1 <= i < s.len() ==> #[trigger] s[i] == '_' || is_ascii_alpha(s[i]) || is_ascii_digit(s[i])
}

fn is_identifier_char(c: char, first: bool) -> (r: bool)
    ensures
        r == (c == '_' || is_ascii_alpha(c) || (!first && is_ascii_digit(c))),
{
    c == '_' || ('a' <= c && c <= 'z') || ('A' <= c && c <= 'Z') || (!first && '0' <= c && c <= '9')
}

/// Diagnostic for an identifier of the given kind that is not a Rust identifier.
pub open spec fn identifier_message(id: Seq<char>, kind: Seq<char>) -> Seq<char> {
    kind + " ID `"@ + id + "` is not a Rust identifier"@
}

/// Accepts exactly the strings that are Rust identifiers.
pub fn validate_identifier(id: &str, kind: &str) -> (r: Result<(), CompositionError>)
    ensures
        r is Ok <==> is_rust_identifier(id@),
        r matches Err(e) ==> e.message@ == identifier_message(id@, kind@),
{
    let n = id.unicode_len();
    let mut valid = n > 0;
    let mut i: usize = 0;
    while valid && i < n
        invariant
            n == id@.len(),
            i <= n,
            valid ==> n > 0,
            valid ==> forall|j: int|
                0 <= j < i ==> #[trigger] id@[j] == '_' || is_ascii_alpha(id@[j]) || (j > 0
                    && is_ascii_digit(id@[j])),
            !valid ==> !is_rust_identifier(id@),
        decreases n - i,
    {
        let c = id.get_char(i);
        if !is_identifier_char(c, i == 0) {
            valid = false;
        }
        i = i + 1;
    }
    if !valid {
        let mut message = String::from_str(kind);
        message.append(" ID `");
        message.append(id);
        message.append("` is not a Rust identifier");
        return Err(CompositionError::new(message));
    }
    assert(id@[0] == '_' || is_ascii_alpha(id@[0]));
    Ok(())
}

/// Slot names of typed resource or configuration requirements.
pub open spec fn requirement_ids(v: Seq<ResourceRequirement>) -> Seq<Seq<char>> {
    v.map_values(|q: ResourceRequirement| q.id@)
}

/// Slot names of spawn requirements.
pub open spec fn spawn_requirement_ids(v: Seq<SpawnRequirement>) -> Seq<Seq<char>> {
    v.map_values(|q: SpawnRequirement| q.id@)
}

/// Logical slot names of resource bindings.
pub open spec fn binding_names(v: Seq<ResourceBinding>) -> Seq<Seq<char>> {
    v.map_values(|b: ResourceBinding| b.logical@)
}

/// Logical slot names of configuration bindings.
pub open spec fn config_names(v: Seq<ConfigBinding>) -> Seq<Seq<char>> {
    v.map_values(|b: ConfigBinding| b.logical@)
}

/// Logical slot names of spawn bindings.
pub open spec fn spawn_names(v: Seq<SpawnBinding>) -> Seq<Seq<char>> {
    v.map_values(|b: SpawnBinding| b.logical@)
}

pub(crate) fn requirement_id_list(v: &Vec<ResourceRequirement>) -> (r: Vec<&'static str>)
    ensures
        strs(r@) == requirement_ids(v@),
{
    let mut out: Vec<&'static str> = Vec::new();
    let mut i: usize = 0;
    while i < v.len()
        invariant
            i <= v@.len(),
            out@.len() == i,
            forall|k: int| 0 <= k < i ==> #[trigger] out@[k] == v@[k].id,
        decreases v@.len() - i,
    {
        out.push(v[i].id);
        i = i + 1;
    }
    proof {
        assert(strs(out@) =~= requirement_ids(v@));
    }
    out
}

pub(crate) fn spawn_requirement_id_list(v: &Vec<SpawnRequirement>) -> (r: Vec<&'static str>)
    ensures
        strs(r@) == spawn_requirement_ids(v@),
{
    let mut out: Vec<&'static str> = Vec::new();
    let mut i: usize = 0;
    while i < v.len()
        invariant
            i <= v@.len(),
            out@.len() == i,
            forall|k: int| 0 <= k < i ==> #[trigger] out@[k] == v@[k].id,
        decreases v@.len() - i,
    {
        out.push(v[i].id);
        i = i + 1;
    }
    proof {
        assert(strs(out@) =~= spawn_requirement_ids(v@));
    }
    out
}

fn binding_name_list(v: &Vec<ResourceBinding>) -> (r: Vec<&'static str>)
    ensures
        strs(r@) == binding_names(v@),
{
    let mut out: Vec<&'static str> = Vec::new();
    let mut i: usize = 0;
    while i < v.len()
        invariant
            i <= v@.len(),
            out@.len() == i,
            forall|k: int| 0 <= k < i ==> #[trigger] out@[k] == v@[k].logical,
        decreases v@.len() - i,
    {
        out.push(v[i].logical);
        i = i + 1;
    }
    proof {
        assert(strs(out@) =~= binding_names(v@));
    }
    out
}

fn config_name_list(v: &Vec<ConfigBinding>) -> (r: Vec<&'static str>)
    ensures
        strs(r@) == config_names(v@),
{
    let mut out: Vec<&'static str> = Vec::new();
    let mut i: usize = 0;
    while i < v.len()
        invariant
            i <= v@.len(),
            out@.len() == i,
            forall|k: int| 0 <= k < i ==> #[trigger] out@[k] == v@[k].logical,
        decreases v@.len() - i,
    {
        out.push(v[i].logical);
        i = i + 1;
    }
    proof {
        assert(strs(out@) =~= config_names(v@));
    }
    out
}

fn spawn_name_list(v: &Vec<SpawnBinding>) -> (r: Vec<&'static str>)
    ensures
        strs(r@) == spawn_names(v@),
{
    let mut out: Vec<&'static str> = Vec::new();
    let mut i: usize = 0;
    while i < v.len()
        invariant
            i <= v@.len(),
            out@.len() == i,
            forall|k: int| 0 <= k < i ==> #[trigger] out@[k] == v@[k].logical,
        decreases v@.len() - i,
    {
        out.push(v[i].logical);
        i = i + 1;
    }
    proof {
        assert(strs(out@) =~= spawn_names(v@));
    }
    out
}

/// First rule a task's bindings of one slot kind break against the slots its
/// contract declares: a repeated binding, then the least unbound slot, then
/// the least binding of an undeclared slot; `None` when they match exactly.
pub open spec fn slots_error(task_id: Seq<char>, kind: Seq<char>, expected: Seq<Seq<char>>, actual: Seq<
    Seq<char>,
>) -> Option<Seq<char>> {
    if has_duplicate(actual) {
        Some("task `"@ + task_id + "` repeats a "@ + kind + " binding"@)
    } else if let Some(missing) = least_absent(expected, actual) {
        Some("task `"@ + task_id + "` does not bind "@ + kind + " `"@ + missing + "`"@)
    } else if let Some(extra) = least_absent(actual, expected) {
        Some("task `"@ + task_id + "` binds undeclared "@ + kind + " `"@ + extra + "`"@)
    } else {
        None
    }
}

/// Checks that a task binds every slot its contract declares exactly once
/// and binds no other slot.
pub fn validate_slots(
    task_id: &str,
    kind: &str,
    expected: &Vec<&'static str>,
    actual: &Vec<&'static str>,
) -> (r: Result<(), CompositionError>)
    ensures
        r is Ok <==> slots_error(task_id@, kind@, strs(expected@), strs(actual@)) is None,
        r matches Err(e) ==> slots_error(task_id@, kind@, strs(expected@), strs(actual@)) == Some(
            e.message@,
        ),
{
    if has_duplicate_str(actual) {
        return Err(CompositionError::new(concat5("task `", task_id, "` repeats a ", kind, " binding")));
    }
    if let Some(missing) = least_absent_str(expected, actual) {
        return Err(
            CompositionError::new(
                concat7("task `", task_id, "` does not bind ", kind, " `", missing, "`"),
            ),
        );
    }
    if let Some(extra) = least_absent_str(actual, expected) {
        return Err(
            CompositionError::new(
                concat7("task `", task_id, "` binds undeclared ", kind, " `", extra, "`"),
            ),
        );
    }
    Ok(())
}

/// First requirement at or after index `i` whose slot is named `id`.
pub open spec fn requirement_from(v: Seq<ResourceRequirement>, id: Seq<char>, i: int) -> Option<
    ResourceRequirement,
>
    decreases v.len() - i,
{
    if i < 0 || i >= v.len() {
        None
    } else if v[i].id@ == id {
        Some(v[i])
    } else {
        requirement_from(v, id, i + 1)
    }
}

/// First spawn requirement at or after index `i` whose slot is named `id`.
pub open spec fn spawn_requirement_from(v: Seq<SpawnRequirement>, id: Seq<char>, i: int) -> Option<
    SpawnRequirement,
>
    decreases v.len() - i,
{
    if i < 0 || i >= v.len() {
        None
    } else if v[i].id@ == id {
        Some(v[i])
    } else {
        spawn_requirement_from(v, id, i + 1)
    }
}

pub(crate) fn find_requirement(v: &Vec<ResourceRequirement>, id: &str) -> (r: Option<ResourceRequirement>)
    ensures
        r == requirement_from(v@, id@, 0),
{
    let mut i: usize = 0;
    while i < v.len()
        invariant
            i <= v@.len(),
            requirement_from(v@, id@, 0) == requirement_from(v@, id@, i as int),
        decreases v@.len() - i,
    {
        if str_eq(v[i].id, id) {
            return Some(v[i]);
        }
        i = i + 1;
    }
    None
}

pub(crate) fn find_spawn_requirement(v: &Vec<SpawnRequirement>, id: &str) -> (r: Option<usize>)
    ensures
        match (r, spawn_requirement_from(v@, id@, 0)) {
            (None, None) => true,
            (Some(k), Some(q)) => k < v@.len() && v@[k as int] == q,
            _ => false,
        },
{
    let mut i: usize = 0;
    while i < v.len()
        invariant
            i <= v@.len(),
            spawn_requirement_from(v@, id@, 0) == spawn_requirement_from(v@, id@, i as int),
        decreases v@.len() - i,
    {
        if str_eq(v[i].id, id) {
            return Some(i);
        }
        i = i + 1;
    }
    None
}

/// The slot requirement of a resource binding declares another Rust type.
pub open spec fn binding_mistyped(reqs: Seq<ResourceRequirement>, b: ResourceBinding) -> bool {
    match requirement_from(reqs, b.logical@, 0) {
        Some(q) => q.rust_type@ != b.rust_type@,
        None => false,
    }
}

/// First resource binding at or after index `i` whose slot declares another
/// Rust type.
pub open spec fn mistyped_binding_from(reqs: Seq<ResourceRequirement>, binds: Seq<ResourceBinding>, i: int) -> Option<
    ResourceBinding,
>
    decreases binds.len() - i,
{
    if i < 0 || i >= binds.len() {
        None
    } else if binding_mistyped(reqs, binds[i]) {
        Some(binds[i])
    } else {
        mistyped_binding_from(reqs, binds, i + 1)
    }
}

fn find_mistyped_binding(reqs: &Vec<ResourceRequirement>, binds: &Vec<ResourceBinding>) -> (r: Option<
    ResourceBinding,
>)
    ensures
        r == mistyped_binding_from(reqs@, binds@, 0),
{
    let mut i: usize = 0;
    while i < binds.len()
        invariant
            i <= binds@.len(),
            mistyped_binding_from(reqs@, binds@, 0) == mistyped_binding_from(reqs@, binds@, i as int),
        decreases binds@.len() - i,
    {
        let binding = binds[i];
        if let Some(requirement) = find_requirement(reqs, binding.logical) {
            if !str_eq(requirement.rust_type, binding.rust_type) {
                return Some(binding);
            }
        }
        i = i + 1;
    }
    None
}

/// First rule a task's local and shared bindings break against its contract.
pub open spec fn resource_bindings_error(task: TaskDeclaration) -> Option<Seq<char>> {
    let id = task.id@;
    if let Some(e) = slots_error(
        id,
        "local resource"@,
        requirement_ids(task.contract.local@),
        binding_names(task.local@),
    ) {
        Some(e)
    } else if let Some(e) = slots_error(
        id,
        "shared resource"@,
        requirement_ids(task.contract.shared@),
        binding_names(task.shared@),
    ) {
        Some(e)
    } else if let Some(b) = mistyped_binding_from(task.contract.local@, task.local@, 0) {
        Some(
            "task `"@ + id + "` local slot `"@ + b.logical@
                + "` has inconsistent capability metadata"@,
        )
    } else if let Some(b) = mistyped_binding_from(task.contract.shared@, task.shared@, 0) {
        Some("task `"@ + id + "` shared slot `"@ + b.logical@ + "` has inconsistent type metadata"@)
    } else {
        None
    }
}

/// Checks that a task binds exactly its contract's local and shared slots,
/// each with the Rust type the slot declares.
pub fn validate_resource_bindings(task: &TaskDeclaration) -> (r: Result<(), CompositionError>)
    ensures
        r is Ok <==> resource_bindings_error(*task) is None,
        r matches Err(e) ==> resource_bindings_error(*task) == Some(e.message@),
{
    let expected = requirement_id_list(&task.contract.local);
    let actual = binding_name_list(&task.local);
    validate_slots(task.id, "local resource", &expected, &actual)?;
    let expected = requirement_id_list(&task.contract.shared);
    let actual = binding_name_list(&task.shared);
    validate_slots(task.id, "shared resource", &expected, &actual)?;
    if let Some(binding) = find_mistyped_binding(&task.contract.local, &task.local) {
        return Err(
            CompositionError::new(
                concat5(
                    "task `",
                    task.id,
                    "` local slot `",
                    binding.logical,
                    "` has inconsistent capability metadata",
                ),
            ),
        );
    }
    if let Some(binding) = find_mistyped_binding(&task.contract.shared, &task.shared) {
        return Err(
            CompositionError::new(
                concat5(
                    "task `",
                    task.id,
                    "` shared slot `",
                    binding.logical,
                    "` has inconsistent type metadata",
                ),
            ),
        );
    }
    Ok(())
}

/// The slot requirement of a configuration binding declares a Rust type that
/// differs from the binding's expected type or from its value's type.
pub open spec fn config_mistyped(reqs: Seq<ResourceRequirement>, b: ConfigBinding) -> bool {
    match requirement_from(reqs, b.logical@, 0) {
        Some(q) => q.rust_type@ != b.expected_type@ || q.rust_type@ != spec_config_rust_type(b.value),
        None => false,
    }
}

/// First configuration binding at or after index `i` that is mistyped.
pub open spec fn mistyped_config_from(reqs: Seq<ResourceRequirement>, binds: Seq<ConfigBinding>, i: int) -> Option<
    ConfigBinding,
>
    decreases binds.len() - i,
{
    if i < 0 || i >= binds.len() {
        None
    } else if config_mistyped(reqs, binds[i]) {
        Some(binds[i])
    } else {
        mistyped_config_from(reqs, binds, i + 1)
    }
}

/// First rule a task's configuration values break against its contract.
pub open spec fn config_bindings_error(task: TaskDeclaration) -> Option<Seq<char>> {
    let id = task.id@;
    if let Some(e) = slots_error(
        id,
        "configuration value"@,
        requirement_ids(task.contract.config@),
        config_names(task.config@),
    ) {
        Some(e)
    } else if let Some(b) = mistyped_config_from(task.contract.config@, task.config@, 0) {
        Some(
            "task `"@ + id + "` configuration `"@ + b.logical@ + "` requires `"@
                + requirement_from(task.contract.config@, b.logical@, 0).unwrap().rust_type@
                + "`, but composition supplies `"@ + spec_config_rust_type(b.value) + "`"@,
        )
    } else {
        None
    }
}

/// Checks that a task supplies exactly its contract's configuration slots,
/// each with a value of the Rust type the slot declares.
pub fn validate_config_bindings(task: &TaskDeclaration) -> (r: Result<(), CompositionError>)
    ensures
        r is Ok <==> config_bindings_error(*task) is None,
        r matches Err(e) ==> config_bindings_error(*task) == Some(e.message@),
{
    let expected = requirement_id_list(&task.contract.config);
    let actual = config_name_list(&task.config);
    validate_slots(task.id, "configuration value", &expected, &actual)?;
    let mut i: usize = 0;
    while i < task.config.len()
        invariant
            i <= task.config@.len(),
            slots_error(
                task.id@,
                "configuration value"@,
                requirement_ids(task.contract.config@),
                config_names(task.config@),
            ) is None,
            mistyped_config_from(task.contract.config@, task.config@, 0) == mistyped_config_from(
                task.contract.config@,
                task.config@,
                i as int,
            ),
        decreases task.config@.len() - i,
    {
        let binding = task.config[i];
        if let Some(requirement) = find_requirement(&task.contract.config, binding.logical) {
            let supplied = binding.value.rust_type();
            if !str_eq(requirement.rust_type, binding.expected_type) || !str_eq(
                requirement.rust_type,
                supplied,
            ) {
                let mut message = concat5(
                    "task `",
                    task.id,
                    "` configuration `",
                    binding.logical,
                    "` requires `",
                );
                message.append(requirement.rust_type);
                message.append("`, but composition supplies `");
                message.append(supplied);
                message.append("`");
                return Err(CompositionError::new(message));
            }
        }
        i = i + 1;
    }
    Ok(())
}

/// The spawn requirement of a spawn binding declares other argument types.
pub open spec fn spawn_mistyped(reqs: Seq<SpawnRequirement>, b: SpawnBinding) -> bool {
    match spawn_requirement_from(reqs, b.logical@, 0) {
        Some(q) => strs(q.arguments@) != strs(b.arguments@),
        None => false,
    }
}

/// First spawn binding at or after index `i` that is mistyped.
pub open spec fn mistyped_spawn_from(reqs: Seq<SpawnRequirement>, binds: Seq<SpawnBinding>, i: int) -> Option<
    SpawnBinding,
>
    decreases binds.len() - i,
{
    if i < 0 || i >= binds.len() {
        None
    } else if spawn_mistyped(reqs, binds[i]) {
        Some(binds[i])
    } else {
        mistyped_spawn_from(reqs, binds, i + 1)
    }
}

/// First rule a task's spawn bindings break against its contract.
pub open spec fn spawn_bindings_error(task: TaskDeclaration) -> Option<Seq<char>> {
    let id = task.id@;
    if let Some(e) = slots_error(
        id,
        "spawn target"@,
        spawn_requirement_ids(task.contract.spawns@),
        spawn_names(task.spawns@),
    ) {
        Some(e)
    } else if let Some(b) = mistyped_spawn_from(task.contract.spawns@, task.spawns@, 0) {
        Some(
            "task `"@ + id + "` spawn slot `"@ + b.logical@
                + "` has inconsistent argument metadata"@,
        )
    } else {
        None
    }
}

/// Checks that a task binds exactly its contract's logical spawns, each with
/// the argument types the contract declares.
pub fn validate_spawn_bindings(task: &TaskDeclaration) -> (r: Result<(), CompositionError>)
    ensures
        r is Ok <==> spawn_bindings_error(*task) is None,
        r matches Err(e) ==> spawn_bindings_error(*task) == Some(e.message@),
{
    let expected = spawn_requirement_id_list(&task.contract.spawns);
    let actual = spawn_name_list(&task.spawns);
    validate_slots(task.id, "spawn target", &expected, &actual)?;
    let mut i: usize = 0;
    while i < task.spawns.len()
        invariant
            i <= task.spawns@.len(),
            slots_error(
                task.id@,
                "spawn target"@,
                spawn_requirement_ids(task.contract.spawns@),
                spawn_names(task.spawns@),
            ) is None,
            mistyped_spawn_from(task.contract.spawns@, task.spawns@, 0) == mistyped_spawn_from(
                task.contract.spawns@,
                task.spawns@,
                i as int,
            ),
        decreases task.spawns@.len() - i,
    {
        let binding = &task.spawns[i];
        if let Some(k) = find_spawn_requirement(&task.contract.spawns, binding.logical) {
            if !strs_eq(&task.contract.spawns[k].arguments, &binding.arguments) {
                return Err(
                    CompositionError::new(
                        concat5(
                            "task `",
                            task.id,
                            "` spawn slot `",
                            binding.logical,
                            "` has inconsistent argument metadata",
                        ),
                    ),
                );
            }
        }
        i = i + 1;
    }
    Ok(())
}

/// Unicode `White_Space` characters, which Rust's `char::is_whitespace` accepts.
pub open spec fn is_whitespace(c: char) -> bool {
    ('\u{9}' <= c && c <= '\u{d}') || c == ' ' || c == '\u{85}' || c == '\u{a0}' || c == '\u{1680}'
        || ('\u{2000}' <= c && c <= '\u{200a}') || c == '\u{2028}' || c == '\u{2029}' || c
        == '\u{202f}' || c == '\u{205f}' || c == '\u{3000}'
}

fn char_is_whitespace(c: char) -> (r: bool)
    ensures
        r == is_whitespace(c),
{
    ('\u{9}' <= c && c <= '\u{d}') || c == ' ' || c == '\u{85}' || c == '\u{a0}' || c == '\u{1680}'
        || ('\u{2000}' <= c && c <= '\u{200a}') || c == '\u{2028}' || c == '\u{2029}' || c
        == '\u{202f}' || c == '\u{205f}' || c == '\u{3000}'
}

/// The characters of `s` that are not whitespace, in order.
pub open spec fn strip_whitespace(s: Seq<char>) -> Seq<char>
    decreases s.len(),
{
    if s.len() == 0 {
        s
    } else if is_whitespace(s.last()) {
        strip_whitespace(s.drop_last())
    } else {
        strip_whitespace(s.drop_last()).push(s.last())
    }
}

fn stripped(s: &str) -> (r: Vec<char>)
    ensures
        r@ == strip_whitespace(s@),
{
    let n = s.unicode_len();
    let mut out: Vec<char> = Vec::new();
    let mut i: usize = 0;
    while i < n
        invariant
            n == s@.len(),
            i <= n,
            out@ == strip_whitespace(s@.take(i as int)),
        decreases n - i,
    {
        let c = s.get_char(i);
        proof {
            assert(s@.take(i + 1).drop_last() =~= s@.take(i as int));
            assert(s@.take(i + 1).last() == c);
        }
        if !char_is_whitespace(c) {
            out.push(c);
        }
        i = i + 1;
    }
    proof {
        assert(s@.take(n as int) =~= s@);
    }
    out
}

/// Two Rust type spellings match when they agree outside whitespace.
pub fn rust_types_match(left: &str, right: &str) -> (r: bool)
    ensures
        r == (strip_whitespace(left@) == strip_whitespace(right@)),
{
    let a = stripped(left);
    let b = stripped(right);
    if a.len() != b.len() {
        proof {
            assert(a@.len() != b@.len());
        }
        return false;
    }
    let mut i: usize = 0;
    while i < a.len()
        invariant
            a@ == strip_whitespace(left@),
            b@ == strip_whitespace(right@),
            a@.len() == b@.len(),
            i <= a@.len(),
            forall|j: int| 0 <= j < i ==> a@[j] == b@[j],
        decreases a@.len() - i,
    {
        if a[i] != b[i] {
            proof {
                assert(a@[i as int] != b@[i as int]);
            }
            return false;
        }
        i = i + 1;
    }
    proof {
        assert(a@ =~= b@);
    }
    true
}

/// First rule shared resource `i` breaks on its own or against the shared
/// resources declared before it.
pub open spec fn shared_resource_error(
    resources: Seq<SharedResourceDeclaration>,
    state_ids: Seq<Seq<char>>,
    i: int,
) -> Option<Seq<char>> {
    let id = resources[i].id@;
    if !is_rust_identifier(id) {
        Some(identifier_message(id, "shared resource"@))
    } else if state_ids.contains(id) {
        Some("shared resource `"@ + id + "` collides with task-local state"@)
    } else if exists|j: int| 0 <= j < i && #[trigger] resources[j].id@ == id {
        Some("shared resource `"@ + id + "` is declared more than once"@)
    } else {
        None
    }
}

/// First error among the first `n` shared resources, given the identifiers
/// of the declared task-local state.
pub open spec fn shared_resources_error_upto(
    resources: Seq<SharedResourceDeclaration>,
    state_ids: Seq<Seq<char>>,
    n: int,
) -> Option<Seq<char>>
    decreases n,
{
    if n <= 0 {
        None
    } else if shared_resources_error_upto(resources, state_ids, n - 1) is Some {
        shared_resources_error_upto(resources, state_ids, n - 1)
    } else {
        shared_resource_error(resources, state_ids, n - 1)
    }
}

proof fn lemma_shared_error_stable(
    resources: Seq<SharedResourceDeclaration>,
    state_ids: Seq<Seq<char>>,
    a: int,
    b: int,
)
    requires
        0 <= a <= b,
        shared_resources_error_upto(resources, state_ids, a) is Some,
    ensures
        shared_resources_error_upto(resources, state_ids, b) == shared_resources_error_upto(
            resources,
            state_ids,
            a,
        ),
    decreases b - a,
{
    if b > a {
        lemma_shared_error_stable(resources, state_ids, a, b - 1);
    }
}

/// Checks that every application shared resource has a Rust identifier of
/// its own that no task-local state value takes.
pub fn validate_shared_resources(
    resources: &Vec<SharedResourceDeclaration>,
    task_state: &Vec<TaskStateDeclaration>,
) -> (r: Result<(), CompositionError>)
    ensures
        ({
            let ids = declared_state_ids(task_state@, task_state@.len() as int);
            &&& r is Ok <==> shared_resources_error_upto(resources@, ids, resources@.len() as int) is None
            &&& r matches Err(e) ==> shared_resources_error_upto(resources@, ids, resources@.len() as int)
                == Some(e.message@)
        }),
{
    let ghost ids = declared_state_ids(task_state@, task_state@.len() as int);
    let mut i: usize = 0;
    while i < resources.len()
        invariant
            ids == declared_state_ids(task_state@, task_state@.len() as int),
            i <= resources@.len(),
            shared_resources_error_upto(resources@, ids, i as int) is None,
        decreases resources@.len() - i,
    {
        let id = resources[i].id;
        if let Err(e) = validate_identifier(id, "shared resource") {
            proof {
                lemma_shared_error_stable(resources@, ids, i + 1, resources@.len() as int);
            }
            return Err(e);
        }
        if state_declared(task_state, id) {
            proof {
                lemma_shared_error_stable(resources@, ids, i + 1, resources@.len() as int);
            }
            return Err(CompositionError::new(concat3("shared resource `", id, "` collides with task-local state")));
        }
        let mut j: usize = 0;
        while j < i
            invariant
                ids == declared_state_ids(task_state@, task_state@.len() as int),
                i < resources@.len(),
                j <= i,
                id == resources@[i as int].id,
                is_rust_identifier(id@),
                !ids.contains(id@),
                shared_resources_error_upto(resources@, ids, i as int) is None,
                forall|q: int| 0 <= q < j ==> #[trigger] resources@[q].id@ != id@,
            decreases i - j,
        {
            if str_eq(resources[j].id, id) {
                proof {
                    assert(resources@[j as int].id@ == id@);
                    assert(shared_resources_error_upto(resources@, ids, i + 1) is Some);
                    lemma_shared_error_stable(resources@, ids, i + 1, resources@.len() as int);
                }
                return Err(
                    CompositionError::new(
                        concat3("shared resource `", id, "` is declared more than once"),
                    ),
                );
            }
            j = j + 1;
        }
        i = i + 1;
    }
    Ok(())
}

/// Complete authoring declaration of an application.
#[derive(Clone, Debug)]
pub struct AppComposition {
    /// Board whose physical hardware components and tasks consume.
    pub board: BoardDeclaration,
    /// Service-to-port assignments loaded during boot.
    pub platform: PlatformConfig,
    /// Monotonic timer used by asynchronous task bodies.
    pub monotonic: MonotonicDeclaration,
    /// Optional board timer available to synchronous initialization code.
    pub init_delay: Option<InitDelayDeclaration>,
    /// Reusable hardware components.
    pub components: Vec<ComponentDeclaration>,
    /// Application-owned values shared by tasks.
    pub shared_resources: Vec<SharedResourceDeclaration>,
    /// Exclusive bounded channels carrying authoritative safety-path data.
    pub safety_channels: Vec<SafetyChannelDeclaration>,
    /// Application-owned persistent task-local state.
    pub task_state: Vec<TaskStateDeclaration>,
    /// Interrupt-bound and software-spawned task instances.
    pub tasks: Vec<TaskDeclaration>,
    /// Software tasks started once during initialization.
    pub init_spawns: Vec<InitSpawn>,
}

/// First rule a composition breaks: its hardware side, then its task-state
/// declarations, then its shared resources, then its task graph.
pub open spec fn composition_error(c: AppComposition) -> Option<Seq<char>> {
    if hardware_composition_error(c.board, c.platform, c.monotonic, c.init_delay, c.components@)
        is Some {
        hardware_composition_error(c.board, c.platform, c.monotonic, c.init_delay, c.components@)
    } else if task_state_error_upto(c, c.task_state@.len() as int) is Some {
        task_state_error_upto(c, c.task_state@.len() as int)
    } else if shared_resources_error_upto(
        c.shared_resources@,
        declared_state_ids(c.task_state@, c.task_state@.len() as int),
        c.shared_resources@.len() as int,
    ) is Some {
        shared_resources_error_upto(
            c.shared_resources@,
            declared_state_ids(c.task_state@, c.task_state@.len() as int),
            c.shared_resources@.len() as int,
        )
    } else {
        task_graph_error(c)
    }
}

/// Validates a composition's hardware side (platform configuration,
/// monotonic and initialization-delay timers, components and the hardware
/// they consume, boot-time SPI assignment), its task-state declarations, its
/// shared resources, and its
/// task graph (identities, contract slot coverage, priorities, interrupt and
/// task-local ownership, the resources that task and periodic-control
/// bindings name, safety channels, spawn destinations, initialization
/// spawns).
pub fn validate(composition: &AppComposition) -> (r: Result<(), CompositionError>)
    ensures
        r is Ok <==> composition_error(*composition) is None,
        r matches Err(e) ==> composition_error(*composition) == Some(e.message@),
{
    if let Err(message) = validate_hardware_composition(
        &composition.board,
        composition.platform,
        composition.monotonic,
        composition.init_delay,
        &composition.components,
    ) {
        return Err(CompositionError::new(message));
    }
    validate_task_state_declarations(composition)?;
    validate_shared_resources(&composition.shared_resources, &composition.task_state)?;
    validate_task_graph(composition)
}

} // verus!
