//! Resolution of application-owned task-local state: each declared value
//! becomes a local binding of its owner task, and a value that fixes the
//! control cadence must agree with the periodic control driving the task.

use vstd::prelude::*;

use crate::periodic_control::spec_ticks_per_control;
use crate::resolve::{ResolvedPeriodicControl, ResolvedResourceBinding, ResolvedTask};
use crate::state::{
    ResolvedTaskState, TaskStateDeclaration, TaskStateField, TaskStateRecipe, TaskStateRole,
};
use crate::text::{concat3, decimal, push_decimal, str_eq};

verus! {

/// Local bindings of a task as `(logical, target)` character sequences.
pub open spec fn local_views(t: ResolvedTask) -> Seq<(Seq<char>, Seq<char>)> {
    t.local@.map_values(|b: ResolvedResourceBinding| (b.logical@, b.target@))
}

/// Local bindings of each task.
pub open spec fn task_locals(ts: Seq<ResolvedTask>) -> Seq<Seq<(Seq<char>, Seq<char>)>> {
    ts.map_values(|t: ResolvedTask| local_views(t))
}

/// `a` is `b` with, at most, other local bindings.
pub open spec fn same_but_locals(a: ResolvedTask, b: ResolvedTask) -> bool {
    &&& a.id == b.id
    &&& a.contract == b.contract
    &&& a.trigger == b.trigger
    &&& a.priority == b.priority
    &&& a.safety_class == b.safety_class
    &&& a.shared == b.shared
    &&& a.config == b.config
    &&& a.spawns == b.spawns
    &&& a.owner_component == b.owner_component
}

/// Every value that fixes the control cadence is initialized from an
/// unsigned count, as task-state schema validation guarantees.
pub open spec fn cadence_fields_are_counts(ds: Seq<TaskStateDeclaration>) -> bool {
    forall|i: int, j: int|
        0 <= i < ds.len() && 0 <= j < ds[i].fields@.len() && (#[trigger] ds[i].fields@[j]).role
            == TaskStateRole::SamplesPerControlLoop ==> ds[i].fields@[j].recipe is U32
}

/// Index of the first task, from `k` on, with identifier `id`.
pub open spec fn task_index_from(ts: Seq<ResolvedTask>, id: Seq<char>, k: int) -> Option<int>
    decreases ts.len() - k,
{
    if k < 0 || k >= ts.len() {
        None
    } else if ts[k].id@ == id {
        Some(k)
    } else {
        task_index_from(ts, id, k + 1)
    }
}

/// Index of the first periodic control, from `k` on, with identifier `id`.
pub open spec fn control_index_from(cs: Seq<ResolvedPeriodicControl>, id: Seq<char>, k: int) -> Option<
    int,
>
    decreases cs.len() - k,
{
    if k < 0 || k >= cs.len() {
        None
    } else if cs[k].declaration.id@ == id {
        Some(k)
    } else {
        control_index_from(cs, id, k + 1)
    }
}

/// Index of the first binding, from `e` on, whose logical name or target
/// is `x`.
pub open spec fn binding_named_from(l: Seq<(Seq<char>, Seq<char>)>, x: Seq<char>, e: int) -> Option<int>
    decreases l.len() - e,
{
    if e < 0 || e >= l.len() {
        None
    } else if l[e].0 == x || l[e].1 == x {
        Some(e)
    } else {
        binding_named_from(l, x, e + 1)
    }
}

/// Diagnostic of a cadence value that disagrees with the periodic control
/// owning task `k`, if it does.
pub open spec fn cadence_error(
    ts: Seq<ResolvedTask>,
    cs: Seq<ResolvedPeriodicControl>,
    k: int,
    f: TaskStateField,
) -> Option<Seq<char>> {
    if f.role == TaskStateRole::SamplesPerControlLoop {
        match ts[k].owner_component {
            Some(c) => match control_index_from(cs, c@, 0) {
                Some(q) => match f.recipe {
                    TaskStateRecipe::U32(samples) => {
                        let expected = spec_ticks_per_control(cs[q].declaration);
                        if samples != expected {
                            Some(
                                "task-state field `"@ + f.id@ + "` supplies "@ + decimal(
                                    samples as nat,
                                ) + " scheduler ticks per control step, but periodic control `"@
                                    + c@ + "` resolves to "@ + decimal(expected as nat),
                            )
                        } else {
                            None
                        }
                    },
                    _ => None,
                },
                None => None,
            },
            None => None,
        }
    } else {
        None
    }
}

/// Resolves the fields of declaration `d` from `j` on for its owner task
/// `k`: each field's value either is already bound under its own name or is
/// bound now, and the resolved values are appended to `acc`. Gives the local
/// bindings after the last field resolved and the values, or the first
/// collision or cadence disagreement.
pub open spec fn state_fields(
    ts: Seq<ResolvedTask>,
    cs: Seq<ResolvedPeriodicControl>,
    d: TaskStateDeclaration,
    k: int,
    j: int,
    locals: Seq<Seq<(Seq<char>, Seq<char>)>>,
    acc: Seq<ResolvedTaskState>,
) -> (Seq<Seq<(Seq<char>, Seq<char>)>>, Result<Seq<ResolvedTaskState>, Seq<char>>)
    decreases d.fields@.len() - j,
{
    if j < 0 || j >= d.fields@.len() {
        (locals, Ok(acc))
    } else {
        let f = d.fields@[j];
        let l = locals[k];
        let existing = binding_named_from(l, f.id@, 0);
        if existing matches Some(e) && (l[e].0 != f.id@ || l[e].1 != f.id@) {
            (
                locals,
                Err(
                    "task-state field `"@ + f.id@ + "` collides with an existing local binding on task `"@
                        + ts[k].id@ + "`"@,
                ),
            )
        } else if cadence_error(ts, cs, k, f) is Some {
            (locals, Err(cadence_error(ts, cs, k, f).unwrap()))
        } else {
            let next = if existing is None {
                locals.update(k, l.push((f.id@, f.id@)))
            } else {
                locals
            };
            state_fields(
                ts,
                cs,
                d,
                k,
                j + 1,
                next,
                acc.push(ResolvedTaskState { id: f.id, owner_task: d.owner_task, recipe: f.recipe }),
            )
        }
    }
}

/// Resolves the declarations from `i` on, in order, given the local
/// bindings and values resolved so far.
pub open spec fn state_decls(
    ts: Seq<ResolvedTask>,
    cs: Seq<ResolvedPeriodicControl>,
    ds: Seq<TaskStateDeclaration>,
    i: int,
    locals: Seq<Seq<(Seq<char>, Seq<char>)>>,
    acc: Seq<ResolvedTaskState>,
) -> (Seq<Seq<(Seq<char>, Seq<char>)>>, Result<Seq<ResolvedTaskState>, Seq<char>>)
    decreases ds.len() - i, 0int,
{
    if i < 0 || i >= ds.len() {
        (locals, Ok(acc))
    } else {
        let d = ds[i];
        match task_index_from(ts, d.owner_task@, 0) {
            None => (
                locals,
                Err(
                    "task-state schema `"@ + d.schema.id@ + "` version "@ + decimal(
                        d.schema.version as nat,
                    ) + " targets missing task `"@ + d.owner_task@ + "`"@,
                ),
            ),
            Some(k) => {
                let (next, r) = state_fields(ts, cs, d, k, 0, locals, acc);
                match r {
                    Ok(values) => state_decls(ts, cs, ds, i + 1, next, values),
                    Err(m) => (next, Err(m)),
                }
            },
        }
    }
}

proof fn lemma_task_index_in_range(ts: Seq<ResolvedTask>, id: Seq<char>, k: int)
    ensures
        task_index_from(ts, id, k) matches Some(x) ==> k <= x < ts.len() && ts[x].id@ == id,
    decreases ts.len() - k,
{
    if 0 <= k < ts.len() && ts[k].id@ != id {
        lemma_task_index_in_range(ts, id, k + 1);
    }
}

proof fn lemma_binding_index_in_range(l: Seq<(Seq<char>, Seq<char>)>, x: Seq<char>, e: int)
    ensures
        binding_named_from(l, x, e) matches Some(y) ==> e <= y < l.len() && (l[y].0 == x || l[y].1
            == x),
    decreases l.len() - e,
{
    if 0 <= e < l.len() && !(l[e].0 == x || l[e].1 == x) {
        lemma_binding_index_in_range(l, x, e + 1);
    }
}

proof fn lemma_control_index_in_range(cs: Seq<ResolvedPeriodicControl>, id: Seq<char>, k: int)
    ensures
        control_index_from(cs, id, k) matches Some(x) ==> k <= x < cs.len() && cs[x].declaration.id@
            == id,
    decreases cs.len() - k,
{
    if 0 <= k < cs.len() && cs[k].declaration.id@ != id {
        lemma_control_index_in_range(cs, id, k + 1);
    }
}

fn find_task(tasks: &Vec<ResolvedTask>, id: &str) -> (r: Option<usize>)
    ensures
        match (r, task_index_from(tasks@, id@, 0)) {
            (None, None) => true,
            (Some(k), Some(x)) => k == x,
            _ => false,
        },
{
    let mut k: usize = 0;
    while k < tasks.len()
        invariant
            k <= tasks@.len(),
            task_index_from(tasks@, id@, 0) == task_index_from(tasks@, id@, k as int),
        decreases tasks@.len() - k,
    {
        if str_eq(tasks[k].id.as_str(), id) {
            return Some(k);
        }
        k = k + 1;
    }
    None
}

fn find_control(controls: &Vec<ResolvedPeriodicControl>, id: &str) -> (r: Option<usize>)
    ensures
        match (r, control_index_from(controls@, id@, 0)) {
            (None, None) => true,
            (Some(k), Some(x)) => k == x,
            _ => false,
        },
{
    let mut k: usize = 0;
    while k < controls.len()
        invariant
            k <= controls@.len(),
            control_index_from(controls@, id@, 0) == control_index_from(controls@, id@, k as int),
        decreases controls@.len() - k,
    {
        if str_eq(controls[k].declaration.id, id) {
            return Some(k);
        }
        k = k + 1;
    }
    None
}

fn find_named_binding(local: &Vec<ResolvedResourceBinding>, x: &str) -> (r: Option<usize>)
    ensures
        match (r, binding_named_from(local@.map_values(|b: ResolvedResourceBinding| (b.logical@, b.target@)), x@, 0)) {
            (None, None) => true,
            (Some(e), Some(y)) => e == y,
            _ => false,
        },
{
    let ghost l = local@.map_values(|b: ResolvedResourceBinding| (b.logical@, b.target@));
    let mut e: usize = 0;
    while e < local.len()
        invariant
            e <= local@.len(),
            l == local@.map_values(|b: ResolvedResourceBinding| (b.logical@, b.target@)),
            binding_named_from(l, x@, 0) == binding_named_from(l, x@, e as int),
        decreases local@.len() - e,
    {
        if str_eq(local[e].logical, x) || str_eq(local[e].target.as_str(), x) {
            return Some(e);
        }
        e = e + 1;
    }
    None
}

pub(crate) proof fn lemma_same_ids_same_index(a: Seq<ResolvedTask>, b: Seq<ResolvedTask>, id: Seq<char>, k: int)
    requires
        a.len() == b.len(),
        forall|x: int| 0 <= x < a.len() ==> #[trigger] same_but_locals(a[x], b[x]),
    ensures
        task_index_from(a, id, k) == task_index_from(b, id, k),
    decreases a.len() - k,
{
    if 0 <= k < a.len() {
        assert(same_but_locals(a[k], b[k]));
        lemma_same_ids_same_index(a, b, id, k + 1);
    }
}

/// Binds each declared task-state value to its owner task, in declaration
/// order, and returns the resolved values. A value already bound under its
/// own name is not bound again; one whose name another binding of the task
/// uses is rejected, as is a cadence value that disagrees with the periodic
/// control owning the task, and a declaration whose owner task does not
/// exist.
pub fn resolve_task_state(
    declarations: &Vec<TaskStateDeclaration>,
    tasks: &mut Vec<ResolvedTask>,
    periodic_controls: &Vec<ResolvedPeriodicControl>,
) -> (r: Result<Vec<ResolvedTaskState>, String>)
    requires
        cadence_fields_are_counts(declarations@),
    ensures
        final(tasks)@.len() == old(tasks)@.len(),
        forall|k: int|
            0 <= k < old(tasks)@.len() ==> #[trigger] same_but_locals(final(tasks)@[k], old(tasks)@[k]),
        task_locals(final(tasks)@) == state_decls(
            old(tasks)@,
            periodic_controls@,
            declarations@,
            0,
            task_locals(old(tasks)@),
            Seq::empty(),
        ).0,
        match state_decls(
            old(tasks)@,
            periodic_controls@,
            declarations@,
            0,
            task_locals(old(tasks)@),
            Seq::empty(),
        ).1 {
            Ok(values) => r matches Ok(v) && v@ == values,
            Err(m) => r matches Err(e) && e@ == m,
        },
{
    let ghost ts = tasks@;
    let ghost cs = periodic_controls@;
    let ghost ds = declarations@;
    let mut resolved: Vec<ResolvedTaskState> = Vec::new();
    let mut i: usize = 0;
    while i < declarations.len()
        invariant
            i <= ds.len(),
            ds == declarations@,
            cs == periodic_controls@,
            cadence_fields_are_counts(ds),
            ts == old(tasks)@,
            tasks@.len() == ts.len(),
            forall|x: int| 0 <= x < ts.len() ==> #[trigger] same_but_locals(tasks@[x], ts[x]),
            state_decls(ts, cs, ds, 0, task_locals(ts), Seq::empty()) == state_decls(
                ts,
                cs,
                ds,
                i as int,
                task_locals(tasks@),
                resolved@,
            ),
        decreases ds.len() - i,
    {
        let declaration = &declarations[i];
        proof {
            lemma_same_ids_same_index(tasks@, ts, declaration.owner_task@, 0);
            lemma_task_index_in_range(ts, declaration.owner_task@, 0);
        }
        let k = match find_task(tasks, declaration.owner_task) {
            Some(k) => k,
            None => {
                let mut message = concat3("task-state schema `", declaration.schema.id, "` version ");
                push_decimal(&mut message, declaration.schema.version);
                message.append(" targets missing task `");
                message.append(declaration.owner_task);
                message.append("`");
                return Err(message);
            },
        };
        let ghost locals_start = task_locals(tasks@);
        let ghost acc_start = resolved@;
        let mut j: usize = 0;
        while j < declaration.fields.len()
            invariant
                i < ds.len(),
                ds == declarations@,
                *declaration == ds[i as int],
                cs == periodic_controls@,
                cadence_fields_are_counts(ds),
                ts == old(tasks)@,
                tasks@.len() == ts.len(),
                k < ts.len(),
                task_index_from(ts, declaration.owner_task@, 0) == Some(k as int),
                forall|x: int| 0 <= x < ts.len() ==> #[trigger] same_but_locals(tasks@[x], ts[x]),
                j <= declaration.fields@.len(),
                state_decls(ts, cs, ds, 0, task_locals(ts), Seq::empty()) == state_decls(
                    ts,
                    cs,
                    ds,
                    i as int,
                    locals_start,
                    acc_start,
                ),
                state_fields(ts, cs, *declaration, k as int, 0, locals_start, acc_start)
                    == state_fields(
                    ts,
                    cs,
                    *declaration,
                    k as int,
                    j as int,
                    task_locals(tasks@),
                    resolved@,
                ),
            decreases declaration.fields@.len() - j,
        {
            let field = declaration.fields[j];
            proof {
                assert(same_but_locals(tasks@[k as int], ts[k as int]));
                assert(task_locals(tasks@)[k as int] == local_views(tasks@[k as int]));
                assert(local_views(tasks@[k as int]) =~= tasks@[k as int].local@.map_values(
                    |b: ResolvedResourceBinding| (b.logical@, b.target@),
                ));
                lemma_binding_index_in_range(local_views(tasks@[k as int]), field.id@, 0);
            }
            let existing = find_named_binding(&tasks[k].local, field.id);
            if let Some(e) = existing {
                if !str_eq(tasks[k].local[e].logical, field.id) || !str_eq(
                    tasks[k].local[e].target.as_str(),
                    field.id,
                ) {
                    let mut message = concat3(
                        "task-state field `",
                        field.id,
                        "` collides with an existing local binding on task `",
                    );
                    message.append(tasks[k].id.as_str());
                    message.append("`");
                    return Err(message);
                }
            }
            if field.role == TaskStateRole::SamplesPerControlLoop {
                if let Some(owner_component) = tasks[k].owner_component {
                    proof {
                        lemma_control_index_in_range(cs, owner_component@, 0);
                    }
                    if let Some(q) = find_control(periodic_controls, owner_component) {
                        proof {
                            assert(ds[i as int].fields@[j as int] == field);
                        }
                        match field.recipe {
                            TaskStateRecipe::U32(samples) => {
                                let expected = periodic_controls[q].declaration.ticks_per_control();
                                if samples != expected {
                                    let mut message = concat3(
                                        "task-state field `",
                                        field.id,
                                        "` supplies ",
                                    );
                                    push_decimal(&mut message, samples);
                                    message.append(
                                        " scheduler ticks per control step, but periodic control `",
                                    );
                                    message.append(owner_component);
                                    message.append("` resolves to ");
                                    push_decimal(&mut message, expected);
                                    return Err(message);
                                }
                            },
                            _ => {
                                proof {
                                    assert(false);
                                }
                            },
                        }
                    }
                }
            }
            if existing.is_none() {
                let ghost before = tasks@;
                let mut task = tasks.remove(k);
                task.local.push(
                    ResolvedResourceBinding { logical: field.id, target: String::from_str(field.id) },
                );
                tasks.insert(k, task);
                proof {
                    assert(tasks@ =~= before.update(k as int, task));
                    assert(local_views(task) =~= local_views(before[k as int]).push(
                        (field.id@, field.id@),
                    ));
                    assert(task_locals(tasks@) =~= task_locals(before).update(
                        k as int,
                        local_views(before[k as int]).push((field.id@, field.id@)),
                    ));
                    assert forall|x: int| 0 <= x < ts.len() implies #[trigger] same_but_locals(
                        tasks@[x],
                        ts[x],
                    ) by {
                        assert(same_but_locals(before[x], ts[x]));
                    }
                }
            }
            resolved.push(
                ResolvedTaskState {
                    id: field.id,
                    owner_task: declaration.owner_task,
                    recipe: field.recipe,
                },
            );
            j = j + 1;
        }
        i = i + 1;
    }
    Ok(resolved)
}

/// Each value of `acc` is bound, under its own name, by a local binding of
/// its owner task.
pub open spec fn values_bound(
    ts: Seq<ResolvedTask>,
    locals: Seq<Seq<(Seq<char>, Seq<char>)>>,
    acc: Seq<ResolvedTaskState>,
) -> bool {
    forall|v: int|
        0 <= v < acc.len() ==> (task_index_from(ts, (#[trigger] acc[v]).owner_task@, 0) matches Some(k)
            && locals[k].contains((acc[v].id@, acc[v].id@)))
}

/// Every binding of `a` is still a binding, of the same task, in `b`.
pub open spec fn locals_grow(
    a: Seq<Seq<(Seq<char>, Seq<char>)>>,
    b: Seq<Seq<(Seq<char>, Seq<char>)>>,
) -> bool {
    &&& a.len() == b.len()
    &&& forall|k: int, x: (Seq<char>, Seq<char>)|
        0 <= k < a.len() && #[trigger] a[k].contains(x) ==> #[trigger] b[k].contains(x)
}

proof fn lemma_fields_bind_values(
    ts: Seq<ResolvedTask>,
    cs: Seq<ResolvedPeriodicControl>,
    d: TaskStateDeclaration,
    k: int,
    j: int,
    locals: Seq<Seq<(Seq<char>, Seq<char>)>>,
    acc: Seq<ResolvedTaskState>,
)
    requires
        0 <= j,
        0 <= k < ts.len(),
        locals.len() == ts.len(),
        task_index_from(ts, d.owner_task@, 0) == Some(k),
        values_bound(ts, locals, acc),
    ensures
        locals_grow(locals, state_fields(ts, cs, d, k, j, locals, acc).0),
        state_fields(ts, cs, d, k, j, locals, acc).1 matches Ok(values) ==> values_bound(
            ts,
            state_fields(ts, cs, d, k, j, locals, acc).0,
            values,
        ),
    decreases d.fields@.len() - j,
{
    if j < d.fields@.len() {
        let f = d.fields@[j];
        let l = locals[k];
        let existing = binding_named_from(l, f.id@, 0);
        lemma_binding_index_in_range(l, f.id@, 0);
        if existing matches Some(e) && (l[e].0 != f.id@ || l[e].1 != f.id@) {
        } else if cadence_error(ts, cs, k, f) is Some {
        } else {
            let next = if existing is None {
                locals.update(k, l.push((f.id@, f.id@)))
            } else {
                locals
            };
            let value = ResolvedTaskState { id: f.id, owner_task: d.owner_task, recipe: f.recipe };
            let acc2 = acc.push(value);
            assert(next[k].contains((f.id@, f.id@))) by {
                if existing is None {
                    assert(next[k][l.len() as int] == (f.id@, f.id@));
                } else {
                    let e = existing.unwrap();
                    assert(next[k][e] == (f.id@, f.id@));
                }
            }
            assert(locals_grow(locals, next)) by {
                assert forall|q: int, x: (Seq<char>, Seq<char>)|
                    0 <= q < locals.len() && #[trigger] locals[q].contains(x) implies #[trigger] next[q].contains(x) by {
                    if q == k && existing is None {
                        let w = choose|w: int| 0 <= w < locals[q].len() && locals[q][w] == x;
                        assert(next[q][w] == x);
                    }
                }
            }
            assert(values_bound(ts, next, acc2)) by {
                assert forall|v: int| 0 <= v < acc2.len() implies (task_index_from(
                    ts,
                    (#[trigger] acc2[v]).owner_task@,
                    0,
                ) matches Some(q) && next[q].contains((acc2[v].id@, acc2[v].id@))) by {
                    if v < acc.len() {
                        assert(acc2[v] == acc[v]);
                        lemma_task_index_in_range(ts, acc[v].owner_task@, 0);
                    }
                }
            }
            lemma_fields_bind_values(ts, cs, d, k, j + 1, next, acc2);
            let after = state_fields(ts, cs, d, k, j + 1, next, acc2).0;
            assert(locals_grow(locals, after)) by {
                assert forall|q: int, x: (Seq<char>, Seq<char>)|
                    0 <= q < locals.len() && #[trigger] locals[q].contains(x) implies #[trigger] after[q].contains(x) by {
                    assert(next[q].contains(x));
                }
            }
        }
    }
}

proof fn lemma_decls_bind_values(
    ts: Seq<ResolvedTask>,
    cs: Seq<ResolvedPeriodicControl>,
    ds: Seq<TaskStateDeclaration>,
    i: int,
    locals: Seq<Seq<(Seq<char>, Seq<char>)>>,
    acc: Seq<ResolvedTaskState>,
)
    requires
        0 <= i,
        locals.len() == ts.len(),
        values_bound(ts, locals, acc),
    ensures
        state_decls(ts, cs, ds, i, locals, acc).1 matches Ok(values) ==> values_bound(
            ts,
            state_decls(ts, cs, ds, i, locals, acc).0,
            values,
        ),
    decreases ds.len() - i,
{
    if i < ds.len() {
        let d = ds[i];
        lemma_task_index_in_range(ts, d.owner_task@, 0);
        if let Some(k) = task_index_from(ts, d.owner_task@, 0) {
            lemma_fields_bind_values(ts, cs, d, k, 0, locals, acc);
            let (next, r) = state_fields(ts, cs, d, k, 0, locals, acc);
            if let Ok(values) = r {
                lemma_decls_bind_values(ts, cs, ds, i + 1, next, values);
            }
        }
    }
}

/// When task-state resolution succeeds, every resolved value is bound,
/// under its own name, by a local binding of the task that owns it.
pub proof fn lemma_resolved_state_is_bound_by_its_owner(
    ts: Seq<ResolvedTask>,
    cs: Seq<ResolvedPeriodicControl>,
    ds: Seq<TaskStateDeclaration>,
)
    ensures
        state_decls(ts, cs, ds, 0, task_locals(ts), Seq::empty()).1 matches Ok(values) ==> values_bound(
            ts,
            state_decls(ts, cs, ds, 0, task_locals(ts), Seq::empty()).0,
            values,
        ),
{
    lemma_decls_bind_values(ts, cs, ds, 0, task_locals(ts), Seq::empty());
}

} // verus!
