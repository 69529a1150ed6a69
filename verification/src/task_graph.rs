//! Validation of the task graph of an application composition: task
//! identity and metadata, contract slot coverage, exclusive task-local
//! ownership, safety-channel handle ownership, spawn destinations, and
//! initialization spawns.

use vstd::prelude::*;

use crate::bindings::{
    control_local_bindings, controls_error_upto, lemma_valid_controls_own_distinct_locals, local_resource_owners, resource_owner_ids, task_shared_type,
    task_shared_type_exec, valid_local_target, valid_local_target_exec, validate_control_bindings,
};
use crate::composition::{
    config_bindings_error, identifier_message, is_rust_identifier, resource_bindings_error,
    spawn_bindings_error, validate_config_bindings, validate_identifier,
    validate_resource_bindings, validate_spawn_bindings, AppComposition, CompositionError,
    InitSpawn, TaskDeclaration, TaskTrigger,
};
use crate::safety_channel::SafetyChannelDeclaration;
use crate::task::TaskSafetyClass;
use crate::text::{concat3, concat5, decimal, push_decimal_usize, str_eq};

verus! {

/// Name of a safety class as diagnostics print it.
pub open spec fn safety_class_name(c: TaskSafetyClass) -> Seq<char> {
    match c {
        TaskSafetyClass::SafetyCritical => "SafetyCritical"@,
        TaskSafetyClass::SafetyRelated => "SafetyRelated"@,
        TaskSafetyClass::NonSafetyCritical => "NonSafetyCritical"@,
    }
}

pub(crate) fn safety_class_str(c: TaskSafetyClass) -> (r: &'static str)
    ensures
        r@ == safety_class_name(c),
{
    match c {
        TaskSafetyClass::SafetyCritical => "SafetyCritical",
        TaskSafetyClass::SafetyRelated => "SafetyRelated",
        TaskSafetyClass::NonSafetyCritical => "NonSafetyCritical",
    }
}

/// `target` names the producer or consumer handle of some safety channel.
pub open spec fn is_safety_handle(channels: Seq<SafetyChannelDeclaration>, target: Seq<char>) -> bool {
    exists|c: int|
        0 <= c < channels.len() && (#[trigger] channels[c].producer@ == target
            || channels[c].consumer@ == target)
}

fn safety_handle(channels: &Vec<SafetyChannelDeclaration>, target: &str) -> (r: bool)
    ensures
        r == is_safety_handle(channels@, target@),
{
    let mut c: usize = 0;
    while c < channels.len()
        invariant
            c <= channels@.len(),
            forall|k: int|
                0 <= k < c ==> channels@[k].producer@ != target@ && channels@[k].consumer@
                    != target@,
        decreases channels@.len() - c,
    {
        if str_eq(channels[c].producer, target) || str_eq(channels[c].consumer, target) {
            return true;
        }
        c = c + 1;
    }
    false
}

/// Interrupt vector a task is bound to, if any.
pub open spec fn interrupt_of(t: TaskDeclaration) -> Option<Seq<char>> {
    match t.trigger {
        TaskTrigger::Interrupt(name) => Some(name@),
        TaskTrigger::Software => None,
    }
}

/// Some task before index `i` has the identifier of task `i`.
pub open spec fn id_declared_before(tasks: Seq<TaskDeclaration>, i: int) -> bool {
    exists|j: int| 0 <= j < i && #[trigger] tasks[j].id@ == tasks[i].id@
}

/// Task `i` is bound to an interrupt that a task before it is bound to.
pub open spec fn interrupt_bound_before(tasks: Seq<TaskDeclaration>, i: int) -> bool {
    interrupt_of(tasks[i]) is Some && exists|j: int|
        0 <= j < i && #[trigger] interrupt_of(tasks[j]) == interrupt_of(tasks[i])
}

/// Resource `x` is already bound locally by a task before `i`, or by one of
/// the first `k` local bindings of task `i`.
pub open spec fn local_target_taken(tasks: Seq<TaskDeclaration>, i: int, k: int, x: Seq<char>) -> bool {
    ||| exists|j: int, m: int|
        0 <= j < i && 0 <= m < tasks[j].local@.len() && #[trigger] tasks[j].local@[m].target@ == x
    ||| exists|m: int| 0 <= m < k && #[trigger] tasks[i].local@[m].target@ == x
}

/// First rule the local bindings of task `i`, from binding `k` on, break.
pub open spec fn local_error_from(app: AppComposition, i: int, k: int) -> Option<Seq<char>>
    decreases app.tasks@[i].local@.len() - k,
{
    let t = app.tasks@[i];
    if k < 0 || k >= t.local@.len() {
        None
    } else {
        let b = t.local@[k];
        let target = b.target@;
        if !is_rust_identifier(target) {
            Some(identifier_message(target, "hardware resource"@))
        } else if is_safety_handle(app.safety_channels@, target) && t.safety_class
            != TaskSafetyClass::SafetyCritical {
            Some(
                "task `"@ + t.id@ + "` is "@ + safety_class_name(t.safety_class)
                    + " and cannot own authoritative safety-channel resource `"@ + target + "`"@,
            )
        } else if !valid_local_target(app, t.id@, target, b.rust_type@) {
            Some(
                "task `"@ + t.id@ + "` binds local slot `"@ + b.logical@
                    + "` to missing or incompatible local resource `"@ + target + "`"@,
            )
        } else if local_target_taken(app.tasks@, i, k, target) {
            Some(
                "hardware resource `"@ + target
                    + "` is owned by more than one local task binding"@,
            )
        } else {
            local_error_from(app, i, k + 1)
        }
    }
}

/// First rule the shared bindings of task `t`, from binding `k` on, break.
pub open spec fn shared_error_from(app: AppComposition, t: TaskDeclaration, k: int) -> Option<
    Seq<char>,
>
    decreases t.shared@.len() - k,
{
    if k < 0 || k >= t.shared@.len() {
        None
    } else {
        let b = t.shared@[k];
        let target = b.target@;
        if !is_rust_identifier(target) {
            Some(identifier_message(target, "shared resource binding"@))
        } else if is_safety_handle(app.safety_channels@, target) {
            Some(
                "task `"@ + t.id@ + "` binds authoritative safety-channel resource `"@ + target
                    + "` as RTIC shared; safety handles must be task-local"@,
            )
        } else {
            match task_shared_type(app, target) {
                None => Some(
                    "task `"@ + t.id@ + "` binds `"@ + b.logical@ + "` to missing shared resource `"@
                        + target + "`"@,
                ),
                Some(actual) => if actual != b.rust_type@ {
                    Some(
                        "task `"@ + t.id@ + "` shared slot `"@ + b.logical@ + "` requires `"@
                            + b.rust_type@ + "`, but `"@ + target + "` is `"@ + actual + "`"@,
                    )
                } else {
                    shared_error_from(app, t, k + 1)
                },
            }
        }
    }
}

/// First spawn binding of task `t`, from `k` on, whose target is not a Rust
/// identifier, as its diagnostic.
pub open spec fn spawn_target_error_from(t: TaskDeclaration, k: int) -> Option<Seq<char>>
    decreases t.spawns@.len() - k,
{
    if k < 0 || k >= t.spawns@.len() {
        None
    } else if !is_rust_identifier(t.spawns@[k].target@) {
        Some(identifier_message(t.spawns@[k].target@, "spawn target"@))
    } else {
        spawn_target_error_from(t, k + 1)
    }
}

/// First rule task `i` breaks, given the tasks declared before it.
pub open spec fn task_error(app: AppComposition, i: int) -> Option<Seq<char>> {
    let tasks = app.tasks@;
    let t = tasks[i];
    let cid = t.contract.id@;
    if !is_rust_identifier(t.id@) {
        Some(identifier_message(t.id@, "task"@))
    } else if !is_rust_identifier(cid) {
        Some(identifier_message(cid, "task contract"@))
    } else if !is_rust_identifier(t.contract.source.function@) {
        Some(identifier_message(t.contract.source.function@, "task source function"@))
    } else if t.contract.source.file@.len() == 0 {
        Some("task contract `"@ + cid + "` has no source file"@)
    } else if t.contract.source.function@ != cid {
        Some(
            "task contract `"@ + cid + "` source function is `"@ + t.contract.source.function@
                + "`"@,
        )
    } else if id_declared_before(tasks, i) {
        Some("task `"@ + t.id@ + "` is declared more than once"@)
    } else if t.priority == 0 {
        Some("task `"@ + t.id@ + "` must have a nonzero priority"@)
    } else if interrupt_bound_before(tasks, i) {
        Some("interrupt `"@ + interrupt_of(t).unwrap() + "` is bound more than once"@)
    } else if resource_bindings_error(t) is Some {
        resource_bindings_error(t)
    } else if config_bindings_error(t) is Some {
        config_bindings_error(t)
    } else if spawn_bindings_error(t) is Some {
        spawn_bindings_error(t)
    } else if local_error_from(app, i, 0) is Some {
        local_error_from(app, i, 0)
    } else if shared_error_from(app, t, 0) is Some {
        shared_error_from(app, t, 0)
    } else {
        spawn_target_error_from(t, 0)
    }
}

fn ok_or_message(r: Result<(), CompositionError>) -> (m: Option<String>)
    ensures
        r is Ok <==> m is None,
        r matches Err(e) ==> m == Some(e.message),
{
    match r {
        Ok(()) => None,
        Err(e) => Some(e.message),
    }
}

fn id_declared_before_exec(tasks: &Vec<TaskDeclaration>, i: usize) -> (r: bool)
    requires
        i < tasks@.len(),
    ensures
        r == id_declared_before(tasks@, i as int),
{
    let mut j: usize = 0;
    while j < i
        invariant
            i < tasks@.len(),
            j <= i,
            forall|m: int| 0 <= m < j ==> tasks@[m].id@ != tasks@[i as int].id@,
        decreases i - j,
    {
        if str_eq(tasks[j].id, tasks[i].id) {
            return true;
        }
        j = j + 1;
    }
    false
}

fn same_interrupt(a: TaskTrigger, b: TaskTrigger) -> (r: bool)
    ensures
        r == (a is Interrupt && b is Interrupt && match (a, b) {
            (TaskTrigger::Interrupt(x), TaskTrigger::Interrupt(y)) => x@ == y@,
            _ => false,
        }),
{
    match (a, b) {
        (TaskTrigger::Interrupt(x), TaskTrigger::Interrupt(y)) => str_eq(x, y),
        _ => false,
    }
}

fn interrupt_bound_before_exec(tasks: &Vec<TaskDeclaration>, i: usize) -> (r: bool)
    requires
        i < tasks@.len(),
    ensures
        r == interrupt_bound_before(tasks@, i as int),
{
    if let TaskTrigger::Software = tasks[i].trigger {
        return false;
    }
    let mut j: usize = 0;
    while j < i
        invariant
            i < tasks@.len(),
            j <= i,
            interrupt_of(tasks@[i as int]) is Some,
            forall|m: int| 0 <= m < j ==> interrupt_of(tasks@[m]) != interrupt_of(tasks@[i as int]),
        decreases i - j,
    {
        if same_interrupt(tasks[j].trigger, tasks[i].trigger) {
            proof {
                assert(interrupt_of(tasks@[j as int]) == interrupt_of(tasks@[i as int]));
            }
            return true;
        }
        j = j + 1;
    }
    false
}

fn local_target_taken_exec(tasks: &Vec<TaskDeclaration>, i: usize, k: usize, x: &str) -> (r: bool)
    requires
        i < tasks@.len(),
        k <= tasks@[i as int].local@.len(),
    ensures
        r == local_target_taken(tasks@, i as int, k as int, x@),
{
    let mut j: usize = 0;
    while j < i
        invariant
            i < tasks@.len(),
            j <= i,
            forall|a: int, m: int|
                0 <= a < j && 0 <= m < tasks@[a].local@.len() ==> #[trigger] tasks@[a].local@[m].target@
                    != x@,
        decreases i - j,
    {
        let mut m: usize = 0;
        while m < tasks[j].local.len()
            invariant
                i < tasks@.len(),
                j < i,
                m <= tasks@[j as int].local@.len(),
                forall|q: int| 0 <= q < m ==> #[trigger] tasks@[j as int].local@[q].target@ != x@,
            decreases tasks@[j as int].local@.len() - m,
        {
            if str_eq(tasks[j].local[m].target, x) {
                return true;
            }
            m = m + 1;
        }
        proof {
            assert forall|a: int, q: int|
                0 <= a < j + 1 && 0 <= q < tasks@[a].local@.len() implies #[trigger] tasks@[a].local@[q].target@
                != x@ by {
                if a == j {
                    assert(tasks@[j as int].local@[q].target@ != x@);
                }
            }
        }
        j = j + 1;
    }
    let mut m: usize = 0;
    while m < k
        invariant
            i < tasks@.len(),
            k <= tasks@[i as int].local@.len(),
            m <= k,
            forall|a: int, q: int|
                0 <= a < i && 0 <= q < tasks@[a].local@.len() ==> #[trigger] tasks@[a].local@[q].target@
                    != x@,
            forall|q: int| 0 <= q < m ==> #[trigger] tasks@[i as int].local@[q].target@ != x@,
        decreases k - m,
    {
        if str_eq(tasks[i].local[m].target, x) {
            return true;
        }
        m = m + 1;
    }
    false
}

fn validate_local_bindings(app: &AppComposition, i: usize) -> (r: Result<(), CompositionError>)
    requires
        i < app.tasks@.len(),
    ensures
        r is Ok <==> local_error_from(*app, i as int, 0) is None,
        r matches Err(e) ==> local_error_from(*app, i as int, 0) == Some(e.message@),
{
    let tasks = &app.tasks;
    let task = &tasks[i];
    let mut k: usize = 0;
    while k < task.local.len()
        invariant
            i < tasks@.len(),
            *tasks == app.tasks,
            *task == tasks@[i as int],
            k <= task.local@.len(),
            local_error_from(*app, i as int, 0) == local_error_from(*app, i as int, k as int),
        decreases task.local@.len() - k,
    {
        let binding = task.local[k];
        let target = binding.target;
        validate_identifier(target, "hardware resource")?;
        if safety_handle(&app.safety_channels, target) {
            if let TaskSafetyClass::SafetyCritical = task.safety_class {
            } else {
                let mut message = concat3("task `", task.id, "` is ");
                message.append(safety_class_str(task.safety_class));
                message.append(" and cannot own authoritative safety-channel resource `");
                message.append(target);
                message.append("`");
                return Err(CompositionError::new(message));
            }
        }
        if !valid_local_target_exec(app, task.id, target, binding.rust_type) {
            let mut message = concat3("task `", task.id, "` binds local slot `");
            message.append(binding.logical);
            message.append("` to missing or incompatible local resource `");
            message.append(target);
            message.append("`");
            return Err(CompositionError::new(message));
        }
        if local_target_taken_exec(tasks, i, k, target) {
            return Err(
                CompositionError::new(
                    concat3(
                        "hardware resource `",
                        target,
                        "` is owned by more than one local task binding",
                    ),
                ),
            );
        }
        k = k + 1;
    }
    Ok(())
}

fn validate_shared_bindings(app: &AppComposition, task: &TaskDeclaration) -> (r: Result<
    (),
    CompositionError,
>)
    ensures
        r is Ok <==> shared_error_from(*app, *task, 0) is None,
        r matches Err(e) ==> shared_error_from(*app, *task, 0) == Some(e.message@),
{
    let mut k: usize = 0;
    while k < task.shared.len()
        invariant
            k <= task.shared@.len(),
            shared_error_from(*app, *task, 0) == shared_error_from(*app, *task, k as int),
        decreases task.shared@.len() - k,
    {
        let binding = task.shared[k];
        let target = binding.target;
        validate_identifier(target, "shared resource binding")?;
        if safety_handle(&app.safety_channels, target) {
            return Err(
                CompositionError::new(
                    concat5(
                        "task `",
                        task.id,
                        "` binds authoritative safety-channel resource `",
                        target,
                        "` as RTIC shared; safety handles must be task-local",
                    ),
                ),
            );
        }
        match task_shared_type_exec(app, target) {
            None => {
                let mut message = concat5(
                    "task `",
                    task.id,
                    "` binds `",
                    binding.logical,
                    "` to missing shared resource `",
                );
                message.append(target);
                message.append("`");
                return Err(CompositionError::new(message));
            },
            Some(actual) => {
                if !str_eq(actual, binding.rust_type) {
                    let mut message = concat5(
                        "task `",
                        task.id,
                        "` shared slot `",
                        binding.logical,
                        "` requires `",
                    );
                    message.append(binding.rust_type);
                    message.append("`, but `");
                    message.append(target);
                    message.append("` is `");
                    message.append(actual);
                    message.append("`");
                    return Err(CompositionError::new(message));
                }
            },
        }
        k = k + 1;
    }
    Ok(())
}

fn validate_spawn_targets(task: &TaskDeclaration) -> (r: Result<(), CompositionError>)
    ensures
        r is Ok <==> spawn_target_error_from(*task, 0) is None,
        r matches Err(e) ==> spawn_target_error_from(*task, 0) == Some(e.message@),
{
    let mut k: usize = 0;
    while k < task.spawns.len()
        invariant
            k <= task.spawns@.len(),
            spawn_target_error_from(*task, 0) == spawn_target_error_from(*task, k as int),
        decreases task.spawns@.len() - k,
    {
        validate_identifier(task.spawns[k].target, "spawn target")?;
        k = k + 1;
    }
    Ok(())
}

/// Checks task `i` of a composition against the tasks declared before it.
pub fn validate_task(app: &AppComposition, i: usize) -> (r: Result<(), CompositionError>)
    requires
        i < app.tasks@.len(),
    ensures
        r is Ok <==> task_error(*app, i as int) is None,
        r matches Err(e) ==> task_error(*app, i as int) == Some(e.message@),
{
    let tasks = &app.tasks;
    let task = &tasks[i];
    validate_identifier(task.id, "task")?;
    validate_identifier(task.contract.id, "task contract")?;
    validate_identifier(task.contract.source.function, "task source function")?;
    if task.contract.source.file.unicode_len() == 0 {
        return Err(
            CompositionError::new(
                concat3("task contract `", task.contract.id, "` has no source file"),
            ),
        );
    }
    if !str_eq(task.contract.source.function, task.contract.id) {
        return Err(
            CompositionError::new(
                concat5(
                    "task contract `",
                    task.contract.id,
                    "` source function is `",
                    task.contract.source.function,
                    "`",
                ),
            ),
        );
    }
    if id_declared_before_exec(tasks, i) {
        return Err(
            CompositionError::new(concat3("task `", task.id, "` is declared more than once")),
        );
    }
    if task.priority == 0 {
        return Err(
            CompositionError::new(concat3("task `", task.id, "` must have a nonzero priority")),
        );
    }
    if interrupt_bound_before_exec(tasks, i) {
        if let TaskTrigger::Interrupt(interrupt) = task.trigger {
            return Err(
                CompositionError::new(
                    concat3("interrupt `", interrupt, "` is bound more than once"),
                ),
            );
        }
    }
    validate_resource_bindings(task)?;
    validate_config_bindings(task)?;
    validate_spawn_bindings(task)?;
    validate_local_bindings(app, i)?;
    validate_shared_bindings(app, task)?;
    validate_spawn_targets(task)
}

/// The three resource identifiers a safety channel declares: its private
/// storage, its producer handle, and its consumer handle.
pub open spec fn channel_resource_ids(c: SafetyChannelDeclaration) -> Seq<Seq<char>> {
    seq![c.id@, c.producer@, c.consumer@]
}

/// Identifier `x` is already declared by a channel before `i`, or by one of
/// the first `k` resource identifiers of channel `i`.
pub open spec fn safety_id_taken(
    channels: Seq<SafetyChannelDeclaration>,
    i: int,
    k: int,
    x: Seq<char>,
) -> bool {
    ||| exists|j: int, m: int|
        0 <= j < i && 0 <= m < 3 && #[trigger] channel_resource_ids(channels[j])[m] == x
    ||| exists|m: int| 0 <= m < k && #[trigger] channel_resource_ids(channels[i])[m] == x
}

/// First rule safety channel `i` breaks on its own or against the channels
/// declared before it.
pub open spec fn channel_error(channels: Seq<SafetyChannelDeclaration>, i: int) -> Option<Seq<char>> {
    let c = channels[i];
    if !is_rust_identifier(c.id@) {
        Some(identifier_message(c.id@, "safety channel"@))
    } else if !is_rust_identifier(c.producer@) {
        Some(identifier_message(c.producer@, "safety-channel producer"@))
    } else if !is_rust_identifier(c.consumer@) {
        Some(identifier_message(c.consumer@, "safety-channel consumer"@))
    } else if c.usable_capacity == 0 {
        Some("safety channel `"@ + c.id@ + "` requires at least one usable slot"@)
    } else if c.usable_capacity == usize::MAX {
        Some(
            "safety channel `"@ + c.id@
                + "` usable capacity overflows its backing queue length"@,
        )
    } else if safety_id_taken(channels, i, 0, c.id@) {
        Some("safety resource `"@ + c.id@ + "` is declared more than once"@)
    } else if safety_id_taken(channels, i, 1, c.producer@) {
        Some("safety resource `"@ + c.producer@ + "` is declared more than once"@)
    } else if safety_id_taken(channels, i, 2, c.consumer@) {
        Some("safety resource `"@ + c.consumer@ + "` is declared more than once"@)
    } else {
        None
    }
}

fn safety_id_taken_exec(
    channels: &Vec<SafetyChannelDeclaration>,
    i: usize,
    k: usize,
    x: &str,
) -> (r: bool)
    requires
        i < channels@.len(),
        k <= 3,
    ensures
        r == safety_id_taken(channels@, i as int, k as int, x@),
{
    let mut j: usize = 0;
    while j < i
        invariant
            i < channels@.len(),
            j <= i,
            forall|a: int, m: int|
                0 <= a < j && 0 <= m < 3 ==> #[trigger] channel_resource_ids(channels@[a])[m] != x@,
        decreases i - j,
    {
        let c = &channels[j];
        if str_eq(c.id, x) || str_eq(c.producer, x) || str_eq(c.consumer, x) {
            proof {
                if c.id@ == x@ {
                    assert(channel_resource_ids(channels@[j as int])[0] == x@);
                } else if c.producer@ == x@ {
                    assert(channel_resource_ids(channels@[j as int])[1] == x@);
                } else {
                    assert(channel_resource_ids(channels@[j as int])[2] == x@);
                }
            }
            return true;
        }
        proof {
            assert forall|a: int, m: int|
                0 <= a < j + 1 && 0 <= m < 3 implies #[trigger] channel_resource_ids(channels@[a])[m]
                != x@ by {
                if a == j {
                    assert(channel_resource_ids(channels@[a]) == seq![c.id@, c.producer@, c.consumer@]);
                }
            }
        }
        j = j + 1;
    }
    let c = &channels[i];
    let ids: [&'static str; 3] = [c.id, c.producer, c.consumer];
    let mut m: usize = 0;
    while m < k
        invariant
            i < channels@.len(),
            k <= 3,
            m <= k,
            *c == channels@[i as int],
            ids@ == seq![c.id, c.producer, c.consumer],
            forall|a: int, q: int|
                0 <= a < i && 0 <= q < 3 ==> #[trigger] channel_resource_ids(channels@[a])[q] != x@,
            forall|q: int| 0 <= q < m ==> #[trigger] channel_resource_ids(channels@[i as int])[q] != x@,
        decreases k - m,
    {
        if str_eq(ids[m], x) {
            proof {
                assert(channel_resource_ids(channels@[i as int])[m as int] == x@);
            }
            return true;
        }
        m = m + 1;
    }
    false
}

/// Checks safety channel `i` on its own and against the channels before it.
pub fn validate_channel(channels: &Vec<SafetyChannelDeclaration>, i: usize) -> (r: Result<
    (),
    CompositionError,
>)
    requires
        i < channels@.len(),
    ensures
        r is Ok <==> channel_error(channels@, i as int) is None,
        r matches Err(e) ==> channel_error(channels@, i as int) == Some(e.message@),
{
    let c = &channels[i];
    validate_identifier(c.id, "safety channel")?;
    validate_identifier(c.producer, "safety-channel producer")?;
    validate_identifier(c.consumer, "safety-channel consumer")?;
    if c.usable_capacity == 0 {
        return Err(
            CompositionError::new(
                concat3("safety channel `", c.id, "` requires at least one usable slot"),
            ),
        );
    }
    if c.queue_length().is_none() {
        return Err(
            CompositionError::new(
                concat3(
                    "safety channel `",
                    c.id,
                    "` usable capacity overflows its backing queue length",
                ),
            ),
        );
    }
    if safety_id_taken_exec(channels, i, 0, c.id) {
        return Err(
            CompositionError::new(concat3("safety resource `", c.id, "` is declared more than once")),
        );
    }
    if safety_id_taken_exec(channels, i, 1, c.producer) {
        return Err(
            CompositionError::new(
                concat3("safety resource `", c.producer, "` is declared more than once"),
            ),
        );
    }
    if safety_id_taken_exec(channels, i, 2, c.consumer) {
        return Err(
            CompositionError::new(
                concat3("safety resource `", c.consumer, "` is declared more than once"),
            ),
        );
    }
    Ok(())
}

/// Task `t` binds resource `x` through one of its local slots.
pub open spec fn binds_local(t: TaskDeclaration, x: Seq<char>) -> bool {
    exists|m: int| 0 <= m < t.local@.len() && #[trigger] t.local@[m].target@ == x
}

/// Identifiers of the tasks, in order, that bind resource `x` locally.
pub open spec fn local_owner_ids(tasks: Seq<TaskDeclaration>, x: Seq<char>) -> Seq<Seq<char>>
    decreases tasks.len(),
{
    if tasks.len() == 0 {
        Seq::empty()
    } else {
        let rest = local_owner_ids(tasks.drop_last(), x);
        if binds_local(tasks.last(), x) {
            rest.push(tasks.last().id@)
        } else {
            rest
        }
    }
}

fn binds_local_exec(t: &TaskDeclaration, x: &str) -> (r: bool)
    ensures
        r == binds_local(*t, x@),
{
    let mut m: usize = 0;
    while m < t.local.len()
        invariant
            m <= t.local@.len(),
            forall|q: int| 0 <= q < m ==> #[trigger] t.local@[q].target@ != x@,
        decreases t.local@.len() - m,
    {
        if str_eq(t.local[m].target, x) {
            return true;
        }
        m = m + 1;
    }
    false
}

/// Identifiers of the declared tasks that bind a resource locally, in task
/// order.
pub(crate) fn local_task_owners(tasks: &Vec<TaskDeclaration>, resource: &str) -> (r: Vec<
    &'static str,
>)
    ensures
        r@.len() == local_owner_ids(tasks@, resource@).len(),
        forall|k: int| 0 <= k < r@.len() ==> #[trigger] r@[k]@ == local_owner_ids(tasks@, resource@)[k],
{
    let mut owners: Vec<&'static str> = Vec::new();
    let mut j: usize = 0;
    while j < tasks.len()
        invariant
            j <= tasks@.len(),
            owners@.len() == local_owner_ids(tasks@.take(j as int), resource@).len(),
            forall|k: int|
                0 <= k < owners@.len() ==> #[trigger] owners@[k]@ == local_owner_ids(
                    tasks@.take(j as int),
                    resource@,
                )[k],
        decreases tasks@.len() - j,
    {
        proof {
            assert(tasks@.take(j + 1).drop_last() =~= tasks@.take(j as int));
            assert(tasks@.take(j + 1).last() == tasks@[j as int]);
        }
        if binds_local_exec(&tasks[j], resource) {
            owners.push(tasks[j].id);
        }
        j = j + 1;
    }
    proof {
        assert(tasks@.take(tasks@.len() as int) =~= tasks@);
    }
    owners
}

/// Rule a safety channel breaks unless exactly one task or periodic-control
/// loop owns each handle and different ones own the two handles.
pub open spec fn channel_owner_error(app: AppComposition, c: SafetyChannelDeclaration) -> Option<
    Seq<char>,
> {
    let producers = resource_owner_ids(app, c.producer@);
    let consumers = resource_owner_ids(app, c.consumer@);
    if producers.len() != 1 {
        Some(
            "safety channel `"@ + c.id@ + "` requires exactly one producer owner, found "@
                + decimal(producers.len()),
        )
    } else if consumers.len() != 1 {
        Some(
            "safety channel `"@ + c.id@ + "` requires exactly one consumer owner, found "@
                + decimal(consumers.len()),
        )
    } else if producers[0] == consumers[0] {
        Some(
            "safety channel `"@ + c.id@
                + "` producer and consumer must be owned by different tasks"@,
        )
    } else {
        None
    }
}

/// Checks that each handle of a safety channel has exactly one owner, a task
/// or a periodic-control loop, and that the two owners differ.
pub fn validate_channel_owners(app: &AppComposition, channel: &SafetyChannelDeclaration) -> (r:
    Result<(), CompositionError>)
    ensures
        r is Ok <==> channel_owner_error(*app, *channel) is None,
        r matches Err(e) ==> channel_owner_error(*app, *channel) == Some(e.message@),
{
    let producers = local_resource_owners(app, channel.producer);
    let consumers = local_resource_owners(app, channel.consumer);
    proof {
        assert(producers@.len() == crate::resolve::string_views(producers@).len());
        assert(consumers@.len() == crate::resolve::string_views(consumers@).len());
    }
    if producers.len() != 1 {
        let mut message = concat3(
            "safety channel `",
            channel.id,
            "` requires exactly one producer owner, found ",
        );
        push_decimal_usize(&mut message, producers.len());
        return Err(CompositionError::new(message));
    }
    if consumers.len() != 1 {
        let mut message = concat3(
            "safety channel `",
            channel.id,
            "` requires exactly one consumer owner, found ",
        );
        push_decimal_usize(&mut message, consumers.len());
        return Err(CompositionError::new(message));
    }
    proof {
        assert(crate::resolve::string_views(producers@)[0] == producers@[0]@);
        assert(crate::resolve::string_views(consumers@)[0] == consumers@[0]@);
    }
    if str_eq(producers[0].as_str(), consumers[0].as_str()) {
        return Err(
            CompositionError::new(
                concat3(
                    "safety channel `",
                    channel.id,
                    "` producer and consumer must be owned by different tasks",
                ),
            ),
        );
    }
    Ok(())
}

/// Index of the first task at or after `j` with identifier `id`.
pub open spec fn task_index_from(tasks: Seq<TaskDeclaration>, id: Seq<char>, j: int) -> Option<int>
    decreases tasks.len() - j,
{
    if j < 0 || j >= tasks.len() {
        None
    } else if tasks[j].id@ == id {
        Some(j)
    } else {
        task_index_from(tasks, id, j + 1)
    }
}

fn find_task(tasks: &Vec<TaskDeclaration>, id: &str) -> (r: Option<usize>)
    ensures
        match (r, task_index_from(tasks@, id@, 0)) {
            (None, None) => true,
            (Some(a), Some(b)) => a == b && a < tasks@.len(),
            _ => false,
        },
{
    let mut j: usize = 0;
    while j < tasks.len()
        invariant
            j <= tasks@.len(),
            task_index_from(tasks@, id@, 0) == task_index_from(tasks@, id@, j as int),
        decreases tasks@.len() - j,
    {
        if str_eq(tasks[j].id, id) {
            return Some(j);
        }
        j = j + 1;
    }
    None
}

/// First spawn binding of task `i`, from `k` on, whose destination is not a
/// declared software task, as its diagnostic.
pub open spec fn spawn_destination_error_from(tasks: Seq<TaskDeclaration>, i: int, k: int) -> Option<
    Seq<char>,
>
    decreases tasks[i].spawns@.len() - k,
{
    let t = tasks[i];
    if k < 0 || k >= t.spawns@.len() {
        None
    } else {
        let b = t.spawns@[k];
        match task_index_from(tasks, b.target@, 0) {
            None => Some(
                "task `"@ + t.id@ + "` spawn slot `"@ + b.logical@ + "` targets undeclared task `"@
                    + b.target@ + "`"@,
            ),
            Some(d) => if tasks[d].trigger is Interrupt {
                Some("task `"@ + t.id@ + "` cannot spawn interrupt task `"@ + tasks[d].id@ + "`"@)
            } else {
                spawn_destination_error_from(tasks, i, k + 1)
            },
        }
    }
}

fn validate_spawn_destinations(tasks: &Vec<TaskDeclaration>, i: usize) -> (r: Result<
    (),
    CompositionError,
>)
    requires
        i < tasks@.len(),
    ensures
        r is Ok <==> spawn_destination_error_from(tasks@, i as int, 0) is None,
        r matches Err(e) ==> spawn_destination_error_from(tasks@, i as int, 0) == Some(e.message@),
{
    let task = &tasks[i];
    let mut k: usize = 0;
    while k < task.spawns.len()
        invariant
            i < tasks@.len(),
            *task == tasks@[i as int],
            k <= task.spawns@.len(),
            spawn_destination_error_from(tasks@, i as int, 0) == spawn_destination_error_from(
                tasks@,
                i as int,
                k as int,
            ),
        decreases task.spawns@.len() - k,
    {
        let binding = &task.spawns[k];
        match find_task(tasks, binding.target) {
            None => {
                let mut message = concat5(
                    "task `",
                    task.id,
                    "` spawn slot `",
                    binding.logical,
                    "` targets undeclared task `",
                );
                message.append(binding.target);
                message.append("`");
                return Err(CompositionError::new(message));
            },
            Some(d) => {
                if let TaskTrigger::Interrupt(_) = tasks[d].trigger {
                    return Err(
                        CompositionError::new(
                            concat5(
                                "task `",
                                task.id,
                                "` cannot spawn interrupt task `",
                                tasks[d].id,
                                "`",
                            ),
                        ),
                    );
                }
            },
        }
        k = k + 1;
    }
    Ok(())
}

/// First rule initialization spawn `k` breaks, given the spawns before it.
pub open spec fn init_spawn_error(tasks: Seq<TaskDeclaration>, init: Seq<InitSpawn>, k: int) -> Option<
    Seq<char>,
> {
    let name = init[k].task@;
    if !is_rust_identifier(name) {
        Some(identifier_message(name, "init spawn"@))
    } else if exists|m: int| 0 <= m < k && #[trigger] init[m].task@ == name {
        Some("init spawns task `"@ + name + "` more than once"@)
    } else {
        match task_index_from(tasks, name, 0) {
            None => Some("init spawns `"@ + name + "` but no such task is declared"@),
            Some(d) => if tasks[d].trigger is Interrupt {
                Some("init cannot spawn interrupt task `"@ + name + "`"@)
            } else {
                None
            },
        }
    }
}

fn validate_init_spawn(tasks: &Vec<TaskDeclaration>, init: &Vec<InitSpawn>, k: usize) -> (r: Result<
    (),
    CompositionError,
>)
    requires
        k < init@.len(),
    ensures
        r is Ok <==> init_spawn_error(tasks@, init@, k as int) is None,
        r matches Err(e) ==> init_spawn_error(tasks@, init@, k as int) == Some(e.message@),
{
    let name = init[k].task;
    validate_identifier(name, "init spawn")?;
    let mut m: usize = 0;
    while m < k
        invariant
            k < init@.len(),
            m <= k,
            name == init@[k as int].task,
            is_rust_identifier(name@),
            forall|q: int| 0 <= q < m ==> #[trigger] init@[q].task@ != name@,
        decreases k - m,
    {
        if str_eq(init[m].task, name) {
            proof {
                assert(init@[m as int].task@ == name@);
            }
            return Err(
                CompositionError::new(concat3("init spawns task `", name, "` more than once")),
            );
        }
        m = m + 1;
    }
    match find_task(tasks, name) {
        None => Err(
            CompositionError::new(concat3("init spawns `", name, "` but no such task is declared")),
        ),
        Some(d) => {
            if let TaskTrigger::Interrupt(_) = tasks[d].trigger {
                Err(CompositionError::new(concat3("init cannot spawn interrupt task `", name, "`")))
            } else {
                Ok(())
            }
        },
    }
}

/// First error among the first `n` safety channels.
pub open spec fn channels_error_upto(channels: Seq<SafetyChannelDeclaration>, n: int) -> Option<
    Seq<char>,
>
    decreases n,
{
    if n <= 0 {
        None
    } else if channels_error_upto(channels, n - 1) is Some {
        channels_error_upto(channels, n - 1)
    } else {
        channel_error(channels, n - 1)
    }
}

/// First error among the first `n` tasks.
pub open spec fn tasks_error_upto(app: AppComposition, n: int) -> Option<Seq<char>>
    decreases n,
{
    if n <= 0 {
        None
    } else if tasks_error_upto(app, n - 1) is Some {
        tasks_error_upto(app, n - 1)
    } else {
        task_error(app, n - 1)
    }
}

/// First ownership error among the first `n` safety channels.
pub open spec fn owners_error_upto(app: AppComposition, n: int) -> Option<Seq<char>>
    decreases n,
{
    if n <= 0 {
        None
    } else if owners_error_upto(app, n - 1) is Some {
        owners_error_upto(app, n - 1)
    } else {
        channel_owner_error(app, app.safety_channels@[n - 1])
    }
}

/// First spawn-destination error among the first `n` tasks.
pub open spec fn destinations_error_upto(tasks: Seq<TaskDeclaration>, n: int) -> Option<Seq<char>>
    decreases n,
{
    if n <= 0 {
        None
    } else if destinations_error_upto(tasks, n - 1) is Some {
        destinations_error_upto(tasks, n - 1)
    } else {
        spawn_destination_error_from(tasks, n - 1, 0)
    }
}

/// First error among the first `n` initialization spawns.
pub open spec fn init_spawns_error_upto(tasks: Seq<TaskDeclaration>, init: Seq<InitSpawn>, n: int) -> Option<
    Seq<char>,
>
    decreases n,
{
    if n <= 0 {
        None
    } else if init_spawns_error_upto(tasks, init, n - 1) is Some {
        init_spawns_error_upto(tasks, init, n - 1)
    } else {
        init_spawn_error(tasks, init, n - 1)
    }
}

proof fn lemma_channels_error_stable(channels: Seq<SafetyChannelDeclaration>, a: int, b: int)
    requires
        0 <= a <= b,
        channels_error_upto(channels, a) is Some,
    ensures
        channels_error_upto(channels, b) == channels_error_upto(channels, a),
    decreases b - a,
{
    if b > a {
        lemma_channels_error_stable(channels, a, b - 1);
    }
}

proof fn lemma_tasks_error_stable(app: AppComposition, a: int, b: int)
    requires
        0 <= a <= b,
        tasks_error_upto(app, a) is Some,
    ensures
        tasks_error_upto(app, b) == tasks_error_upto(app, a),
    decreases b - a,
{
    if b > a {
        lemma_tasks_error_stable(app, a, b - 1);
    }
}

proof fn lemma_owners_error_stable(app: AppComposition, a: int, b: int)
    requires
        0 <= a <= b,
        owners_error_upto(app, a) is Some,
    ensures
        owners_error_upto(app, b) == owners_error_upto(app, a),
    decreases b - a,
{
    if b > a {
        lemma_owners_error_stable(app, a, b - 1);
    }
}

proof fn lemma_destinations_error_stable(tasks: Seq<TaskDeclaration>, a: int, b: int)
    requires
        0 <= a <= b,
        destinations_error_upto(tasks, a) is Some,
    ensures
        destinations_error_upto(tasks, b) == destinations_error_upto(tasks, a),
    decreases b - a,
{
    if b > a {
        lemma_destinations_error_stable(tasks, a, b - 1);
    }
}

proof fn lemma_init_spawns_error_stable(
    tasks: Seq<TaskDeclaration>,
    init: Seq<InitSpawn>,
    a: int,
    b: int,
)
    requires
        0 <= a <= b,
        init_spawns_error_upto(tasks, init, a) is Some,
    ensures
        init_spawns_error_upto(tasks, init, b) == init_spawns_error_upto(tasks, init, a),
    decreases b - a,
{
    if b > a {
        lemma_init_spawns_error_stable(tasks, init, a, b - 1);
    }
}

/// First rule a task graph breaks: safety-channel declarations, then each
/// task in order, then the bindings of each periodic-control loop, then
/// safety-handle ownership, then spawn destinations, then initialization
/// spawns; `None` when the graph is valid.
pub open spec fn task_graph_error(app: AppComposition) -> Option<Seq<char>> {
    let tasks = app.tasks@;
    let channels = app.safety_channels@;
    if channels_error_upto(channels, channels.len() as int) is Some {
        channels_error_upto(channels, channels.len() as int)
    } else if tasks_error_upto(app, tasks.len() as int) is Some {
        tasks_error_upto(app, tasks.len() as int)
    } else if controls_error_upto(app, app.components@.len() as int) is Some {
        controls_error_upto(app, app.components@.len() as int)
    } else if owners_error_upto(app, channels.len() as int) is Some {
        owners_error_upto(app, channels.len() as int)
    } else if destinations_error_upto(tasks, tasks.len() as int) is Some {
        destinations_error_upto(tasks, tasks.len() as int)
    } else {
        init_spawns_error_upto(tasks, app.init_spawns@, app.init_spawns@.len() as int)
    }
}

/// Checks, channel by channel, that each safety handle has exactly one
/// owner and that the two owners of a channel differ.
pub fn validate_safety_channel_owners(app: &AppComposition) -> (r: Result<(), CompositionError>)
    ensures
        r is Ok <==> owners_error_upto(*app, app.safety_channels@.len() as int) is None,
        r matches Err(e) ==> owners_error_upto(*app, app.safety_channels@.len() as int) == Some(
            e.message@,
        ),
{
    let mut i: usize = 0;
    while i < app.safety_channels.len()
        invariant
            i <= app.safety_channels@.len(),
            owners_error_upto(*app, i as int) is None,
        decreases app.safety_channels@.len() - i,
    {
        if let Err(e) = validate_channel_owners(app, &app.safety_channels[i]) {
            proof {
                lemma_owners_error_stable(*app, i + 1, app.safety_channels@.len() as int);
            }
            return Err(e);
        }
        i = i + 1;
    }
    Ok(())
}

fn validate_channels(channels: &Vec<SafetyChannelDeclaration>) -> (r: Result<(), CompositionError>)
    ensures
        r is Ok <==> channels_error_upto(channels@, channels@.len() as int) is None,
        r matches Err(e) ==> channels_error_upto(channels@, channels@.len() as int) == Some(
            e.message@,
        ),
{
    let mut i: usize = 0;
    while i < channels.len()
        invariant
            i <= channels@.len(),
            channels_error_upto(channels@, i as int) is None,
        decreases channels@.len() - i,
    {
        if let Err(e) = validate_channel(channels, i) {
            proof {
                lemma_channels_error_stable(channels@, i + 1, channels@.len() as int);
            }
            return Err(e);
        }
        i = i + 1;
    }
    Ok(())
}

fn validate_tasks(app: &AppComposition) -> (r: Result<(), CompositionError>)
    ensures
        r is Ok <==> tasks_error_upto(*app, app.tasks@.len() as int) is None,
        r matches Err(e) ==> tasks_error_upto(*app, app.tasks@.len() as int) == Some(e.message@),
{
    let mut i: usize = 0;
    while i < app.tasks.len()
        invariant
            i <= app.tasks@.len(),
            tasks_error_upto(*app, i as int) is None,
        decreases app.tasks@.len() - i,
    {
        if let Err(e) = validate_task(app, i) {
            proof {
                lemma_tasks_error_stable(*app, i + 1, app.tasks@.len() as int);
            }
            return Err(e);
        }
        i = i + 1;
    }
    Ok(())
}

fn validate_all_spawn_destinations(tasks: &Vec<TaskDeclaration>) -> (r: Result<(), CompositionError>)
    ensures
        r is Ok <==> destinations_error_upto(tasks@, tasks@.len() as int) is None,
        r matches Err(e) ==> destinations_error_upto(tasks@, tasks@.len() as int) == Some(
            e.message@,
        ),
{
    let mut i: usize = 0;
    while i < tasks.len()
        invariant
            i <= tasks@.len(),
            destinations_error_upto(tasks@, i as int) is None,
        decreases tasks@.len() - i,
    {
        if let Err(e) = validate_spawn_destinations(tasks, i) {
            proof {
                lemma_destinations_error_stable(tasks@, i + 1, tasks@.len() as int);
            }
            return Err(e);
        }
        i = i + 1;
    }
    Ok(())
}

fn validate_init_spawns(tasks: &Vec<TaskDeclaration>, init_spawns: &Vec<InitSpawn>) -> (r: Result<
    (),
    CompositionError,
>)
    ensures
        r is Ok <==> init_spawns_error_upto(tasks@, init_spawns@, init_spawns@.len() as int) is None,
        r matches Err(e) ==> init_spawns_error_upto(tasks@, init_spawns@, init_spawns@.len() as int)
            == Some(e.message@),
{
    let mut k: usize = 0;
    while k < init_spawns.len()
        invariant
            k <= init_spawns@.len(),
            init_spawns_error_upto(tasks@, init_spawns@, k as int) is None,
        decreases init_spawns@.len() - k,
    {
        if let Err(e) = validate_init_spawn(tasks, init_spawns, k) {
            proof {
                lemma_init_spawns_error_stable(tasks@, init_spawns@, k + 1, init_spawns@.len() as int);
            }
            return Err(e);
        }
        k = k + 1;
    }
    Ok(())
}

/// Validates the task graph of a composition: safety-channel declarations,
/// task identity and source metadata, complete slot coverage with consistent
/// types, nonzero priorities, unique interrupt ownership, local and shared
/// binding targets, exclusive task-local resource ownership across tasks and
/// periodic-control loops, safety-handle ownership, spawn destinations, and
/// initialization spawns.
pub fn validate_task_graph(app: &AppComposition) -> (r: Result<(), CompositionError>)
    ensures
        r is Ok <==> task_graph_error(*app) is None,
        r matches Err(e) ==> task_graph_error(*app) == Some(e.message@),
{
    validate_channels(&app.safety_channels)?;
    validate_tasks(app)?;
    validate_control_bindings(app)?;
    validate_safety_channel_owners(app)?;
    validate_all_spawn_destinations(&app.tasks)?;
    validate_init_spawns(&app.tasks, &app.init_spawns)
}

proof fn lemma_task_ok(app: AppComposition, n: int, i: int)
    requires
        0 <= i < n,
        tasks_error_upto(app, n) is None,
    ensures
        task_error(app, i) is None,
    decreases n,
{
    if i < n - 1 {
        lemma_task_ok(app, n - 1, i);
    }
}

proof fn lemma_local_binding_ok(app: AppComposition, i: int, k: int, q: int)
    requires
        0 <= i < app.tasks@.len(),
        0 <= k <= q < app.tasks@[i].local@.len(),
        local_error_from(app, i, k) is None,
    ensures
        !local_target_taken(app.tasks@, i, q, app.tasks@[i].local@[q].target@),
        valid_local_target(
            app,
            app.tasks@[i].id@,
            app.tasks@[i].local@[q].target@,
            app.tasks@[i].local@[q].rust_type@,
        ),
    decreases q - k,
{
    if k < q {
        lemma_local_binding_ok(app, i, k + 1, q);
    }
}

proof fn lemma_shared_binding_ok(app: AppComposition, t: TaskDeclaration, k: int, q: int)
    requires
        0 <= k <= q < t.shared@.len(),
        shared_error_from(app, t, k) is None,
    ensures
        task_shared_type(app, t.shared@[q].target@) == Some(t.shared@[q].rust_type@),
    decreases q - k,
{
    if k < q {
        lemma_shared_binding_ok(app, t, k + 1, q);
    }
}

proof fn lemma_channel_owners_ok(app: AppComposition, n: int, c: int)
    requires
        0 <= c < n,
        owners_error_upto(app, n) is None,
    ensures
        channel_owner_error(app, app.safety_channels@[c]) is None,
    decreases n,
{
    if c < n - 1 {
        lemma_channel_owners_ok(app, n - 1, c);
    }
}

proof fn lemma_valid_tasks_have_distinct_ids(app: AppComposition)
    requires
        tasks_error_upto(app, app.tasks@.len() as int) is None,
    ensures
        forall|i: int, j: int|
            0 <= i < j < app.tasks@.len() ==> app.tasks@[i].id@ != app.tasks@[j].id@,
{
    let tasks = app.tasks@;
    assert forall|i: int, j: int| 0 <= i < j < tasks.len() implies tasks[i].id@ != tasks[j].id@ by {
        lemma_task_ok(app, tasks.len() as int, j);
        assert(!id_declared_before(tasks, j));
    }
}

proof fn lemma_valid_tasks_bind_declared_resources(app: AppComposition)
    requires
        tasks_error_upto(app, app.tasks@.len() as int) is None,
    ensures
        forall|i: int, m: int|
            0 <= i < app.tasks@.len() && 0 <= m < app.tasks@[i].local@.len() ==> valid_local_target(
                app,
                app.tasks@[i].id@,
                #[trigger] app.tasks@[i].local@[m].target@,
                app.tasks@[i].local@[m].rust_type@,
            ),
        forall|i: int, m: int|
            0 <= i < app.tasks@.len() && 0 <= m < app.tasks@[i].shared@.len() ==> task_shared_type(
                app,
                #[trigger] app.tasks@[i].shared@[m].target@,
            ) == Some(app.tasks@[i].shared@[m].rust_type@),
{
    let tasks = app.tasks@;
    let n = tasks.len() as int;
    assert forall|i: int, m: int|
        0 <= i < tasks.len() && 0 <= m < tasks[i].local@.len() implies valid_local_target(
        app,
        tasks[i].id@,
        #[trigger] tasks[i].local@[m].target@,
        tasks[i].local@[m].rust_type@,
    ) by {
        lemma_task_ok(app, n, i);
        lemma_local_binding_ok(app, i, 0, m);
    }
    assert forall|i: int, m: int|
        0 <= i < tasks.len() && 0 <= m < tasks[i].shared@.len() implies task_shared_type(
        app,
        #[trigger] tasks[i].shared@[m].target@,
    ) == Some(tasks[i].shared@[m].rust_type@) by {
        lemma_task_ok(app, n, i);
        lemma_shared_binding_ok(app, tasks[i], 0, m);
    }
}

proof fn lemma_valid_tasks_bind_distinct_locals(app: AppComposition)
    requires
        tasks_error_upto(app, app.tasks@.len() as int) is None,
    ensures
        forall|i: int, m: int, j: int, q: int|
            0 <= i < app.tasks@.len() && 0 <= j < app.tasks@.len() && 0 <= m
                < app.tasks@[i].local@.len() && 0 <= q < app.tasks@[j].local@.len() && (i, m) != (
            j,
            q,
            ) ==> #[trigger] app.tasks@[i].local@[m].target@
                != #[trigger] app.tasks@[j].local@[q].target@,
{
    let tasks = app.tasks@;
    let n = tasks.len() as int;
    assert forall|i: int, m: int, j: int, q: int|
        0 <= i < tasks.len() && 0 <= j < tasks.len() && 0 <= m < tasks[i].local@.len() && 0 <= q
            < tasks[j].local@.len() && (i, m) != (j, q) implies #[trigger] tasks[i].local@[m].target@
        != #[trigger] tasks[j].local@[q].target@ by {
        if i < j || (i == j && m < q) {
            lemma_task_ok(app, n, j);
            lemma_local_binding_ok(app, j, 0, q);
        } else {
            lemma_task_ok(app, n, i);
            lemma_local_binding_ok(app, i, 0, m);
        }
    }
}

/// In a valid task graph every task has its own identifier; every local
/// binding of a task names a board GPIO, a serial service handle, a safety
/// handle or a task-local state value of the task, of its type, and every shared binding names a resource of exactly
/// its type; no concrete resource is bound by two task-local bindings, of a
/// task or of a periodic-control loop; and each handle of every safety channel is owned by exactly one task or
/// periodic-control loop, the producer's owner differing from the consumer's.
pub proof fn lemma_valid_graph_has_exclusive_ownership(app: AppComposition)
    requires
        task_graph_error(app) is None,
    ensures
        forall|i: int, j: int|
            0 <= i < j < app.tasks@.len() ==> app.tasks@[i].id@ != app.tasks@[j].id@,
        forall|i: int, m: int|
            0 <= i < app.tasks@.len() && 0 <= m < app.tasks@[i].local@.len() ==> valid_local_target(
                app,
                app.tasks@[i].id@,
                #[trigger] app.tasks@[i].local@[m].target@,
                app.tasks@[i].local@[m].rust_type@,
            ),
        forall|i: int, m: int|
            0 <= i < app.tasks@.len() && 0 <= m < app.tasks@[i].shared@.len() ==> task_shared_type(
                app,
                #[trigger] app.tasks@[i].shared@[m].target@,
            ) == Some(app.tasks@[i].shared@[m].rust_type@),
        forall|i: int, m: int, j: int, q: int|
            0 <= i < app.tasks@.len() && 0 <= j < app.tasks@.len() && 0 <= m
                < app.tasks@[i].local@.len() && 0 <= q < app.tasks@[j].local@.len() && (i, m) != (
            j,
            q,
            ) ==> #[trigger] app.tasks@[i].local@[m].target@
                != #[trigger] app.tasks@[j].local@[q].target@,
        forall|i: int, m: int, j: int, q: int|
            0 <= i < app.components@.len() && 0 <= m < control_local_bindings(app, i).len() && 0
                <= j < app.tasks@.len() && 0 <= q < app.tasks@[j].local@.len()
                ==> #[trigger] control_local_bindings(app, i)[m].target@
                != #[trigger] app.tasks@[j].local@[q].target@,
        forall|i1: int, m1: int, i2: int, m2: int|
            0 <= i1 < app.components@.len() && 0 <= m1 < control_local_bindings(app, i1).len() && 0
                <= i2 < app.components@.len() && 0 <= m2 < control_local_bindings(app, i2).len() && (
            i1,
            m1,
            ) != (i2, m2) ==> #[trigger] control_local_bindings(app, i1)[m1].target@
                != #[trigger] control_local_bindings(app, i2)[m2].target@,
        forall|c: int|
            0 <= c < app.safety_channels@.len() ==> {
                let producers = resource_owner_ids(app, #[trigger] app.safety_channels@[c].producer@);
                let consumers = resource_owner_ids(app, app.safety_channels@[c].consumer@);
                producers.len() == 1 && consumers.len() == 1 && producers[0] != consumers[0]
            },
{
    lemma_valid_controls_own_distinct_locals(app);
    lemma_valid_tasks_have_distinct_ids(app);
    lemma_valid_tasks_bind_declared_resources(app);
    lemma_valid_tasks_bind_distinct_locals(app);
    assert forall|c: int| 0 <= c < app.safety_channels@.len() implies {
        let producers = resource_owner_ids(app, #[trigger] app.safety_channels@[c].producer@);
        let consumers = resource_owner_ids(app, app.safety_channels@[c].consumer@);
        producers.len() == 1 && consumers.len() == 1 && producers[0] != consumers[0]
    } by {
        lemma_channel_owners_ok(app, app.safety_channels@.len() as int, c);
    }
}

} // verus!
