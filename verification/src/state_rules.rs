//! Composition rules for application-owned task-local state declarations:
//! every schema, owner and value has a Rust identifier, no value is
//! declared twice, and no value takes the name of a declared hardware or
//! service resource.

use vstd::prelude::*;

use crate::bindings::{
    component_shared_type, component_shared_type_from, service_local_type, service_local_type_exec,
};
use crate::board::{board_gpio, board_serial, board_spi, board_timer};
use crate::composition::{
    identifier_message, is_rust_identifier, validate_identifier, AppComposition, CompositionError,
};
use crate::state::{TaskStateDeclaration, TaskStateField};
use crate::text::{concat3, str_eq};

verus! {

/// Identifiers of the values the first `i` declarations declare, in order.
pub open spec fn declared_state_ids(ds: Seq<TaskStateDeclaration>, i: int) -> Seq<Seq<char>>
    decreases i,
{
    if i <= 0 || i > ds.len() {
        Seq::empty()
    } else {
        declared_state_ids(ds, i - 1) + field_ids(ds[i - 1].fields@)
    }
}

/// Identifiers of the given fields, in order.
pub open spec fn field_ids(fs: Seq<TaskStateField>) -> Seq<Seq<char>> {
    fs.map_values(|f: TaskStateField| f.id@)
}

/// `x` names a declared board peripheral, a boot-routed serial service
/// handle, or a resource a component provides.
pub open spec fn names_declared_resource(c: AppComposition, x: Seq<char>) -> bool {
    ||| board_gpio(c.board, x) is Some
    ||| board_timer(c.board, x) is Some
    ||| board_serial(c.board, x) is Some
    ||| board_spi(c.board, x) is Some
    ||| service_local_type(c.platform, x) is Some
    ||| component_shared_type_from(c.components@, x, 0) is Some
}

/// First rule value `k` of declaration `i` breaks.
pub open spec fn state_field_error(c: AppComposition, i: int, k: int) -> Option<Seq<char>> {
    let ds = c.task_state@;
    let id = ds[i].fields@[k].id@;
    if !is_rust_identifier(id) {
        Some(identifier_message(id, "task-local state"@))
    } else if (declared_state_ids(ds, i) + field_ids(ds[i].fields@.take(k))).contains(id) {
        Some("task-local state `"@ + id + "` is declared more than once"@)
    } else if names_declared_resource(c, id) {
        Some("task-local state `"@ + id + "` collides with a declared hardware or service resource"@)
    } else {
        None
    }
}

/// First error among the first `k` values of declaration `i`.
pub open spec fn state_fields_error_upto(c: AppComposition, i: int, k: int) -> Option<Seq<char>>
    decreases k,
{
    if k <= 0 {
        None
    } else if state_fields_error_upto(c, i, k - 1) is Some {
        state_fields_error_upto(c, i, k - 1)
    } else {
        state_field_error(c, i, k - 1)
    }
}

/// First rule declaration `i` breaks: its schema, its owner, then its values.
pub open spec fn state_declaration_error(c: AppComposition, i: int) -> Option<Seq<char>> {
    let d = c.task_state@[i];
    if !is_rust_identifier(d.schema.id@) {
        Some(identifier_message(d.schema.id@, "task-state schema"@))
    } else if !is_rust_identifier(d.owner_task@) {
        Some(identifier_message(d.owner_task@, "task-state owner"@))
    } else {
        state_fields_error_upto(c, i, d.fields@.len() as int)
    }
}

/// First error among the first `n` task-state declarations.
pub open spec fn task_state_error_upto(c: AppComposition, n: int) -> Option<Seq<char>>
    decreases n,
{
    if n <= 0 {
        None
    } else if task_state_error_upto(c, n - 1) is Some {
        task_state_error_upto(c, n - 1)
    } else {
        state_declaration_error(c, n - 1)
    }
}

proof fn lemma_fields_error_stable(c: AppComposition, i: int, a: int, b: int)
    requires
        0 <= a <= b,
        state_fields_error_upto(c, i, a) is Some,
    ensures
        state_fields_error_upto(c, i, b) == state_fields_error_upto(c, i, a),
    decreases b - a,
{
    if b > a {
        lemma_fields_error_stable(c, i, a, b - 1);
    }
}

proof fn lemma_state_error_stable(c: AppComposition, a: int, b: int)
    requires
        0 <= a <= b,
        task_state_error_upto(c, a) is Some,
    ensures
        task_state_error_upto(c, b) == task_state_error_upto(c, a),
    decreases b - a,
{
    if b > a {
        lemma_state_error_stable(c, a, b - 1);
    }
}

fn names_declared_resource_exec(c: &AppComposition, x: &str) -> (r: bool)
    ensures
        r == names_declared_resource(*c, x@),
{
    c.board.gpio(x).is_some() || c.board.timer(x).is_some() || c.board.serial(x).is_some()
        || c.board.spi(x).is_some() || service_local_type_exec(c.platform, x).is_some()
        || component_shared_type(&c.components, x).is_some()
}

fn seen_contains(seen: &Vec<&'static str>, x: &str) -> (r: bool)
    ensures
        r == seen@.map_values(|s: &'static str| s@).contains(x@),
{
    let ghost v = seen@.map_values(|s: &'static str| s@);
    let mut j: usize = 0;
    while j < seen.len()
        invariant
            j <= seen@.len(),
            v == seen@.map_values(|s: &'static str| s@),
            forall|q: int| 0 <= q < j ==> v[q] != x@,
        decreases seen@.len() - j,
    {
        if str_eq(seen[j], x) {
            proof {
                assert(v[j as int] == x@);
            }
            return true;
        }
        j = j + 1;
    }
    false
}

/// Checks every task-state declaration: the schema and owner identifiers,
/// then each value's identifier, that it is not declared twice, and that it
/// does not take the name of a declared hardware or service resource.
pub fn validate_task_state_declarations(c: &AppComposition) -> (r: Result<(), CompositionError>)
    ensures
        r is Ok <==> task_state_error_upto(*c, c.task_state@.len() as int) is None,
        r matches Err(e) ==> task_state_error_upto(*c, c.task_state@.len() as int) == Some(e.message@),
{
    let ds = &c.task_state;
    let mut seen: Vec<&'static str> = Vec::new();
    let mut i: usize = 0;
    while i < ds.len()
        invariant
            ds@ == c.task_state@,
            i <= ds@.len(),
            task_state_error_upto(*c, i as int) is None,
            seen@.map_values(|s: &'static str| s@) == declared_state_ids(ds@, i as int),
        decreases ds@.len() - i,
    {
        let d = &ds[i];
        if let Err(e) = validate_identifier(d.schema.id, "task-state schema") {
            proof {
                lemma_state_error_stable(*c, i + 1, ds@.len() as int);
            }
            return Err(e);
        }
        if let Err(e) = validate_identifier(d.owner_task, "task-state owner") {
            proof {
                lemma_state_error_stable(*c, i + 1, ds@.len() as int);
            }
            return Err(e);
        }
        let fs = &d.fields;
        let ghost base = seen@.map_values(|s: &'static str| s@);
        let mut k: usize = 0;
        while k < fs.len()
            invariant
                ds@ == c.task_state@,
                i < ds@.len(),
                fs@ == ds@[i as int].fields@,
                k <= fs@.len(),
                task_state_error_upto(*c, i as int) is None,
                is_rust_identifier(ds@[i as int].schema.id@),
                is_rust_identifier(ds@[i as int].owner_task@),
                base == declared_state_ids(ds@, i as int),
                state_fields_error_upto(*c, i as int, k as int) is None,
                seen@.map_values(|s: &'static str| s@) == base + field_ids(fs@.take(k as int)),
            decreases fs@.len() - k,
        {
            let id = fs[k].id;
            if let Err(e) = validate_identifier(id, "task-local state") {
                proof {
                    assert(state_fields_error_upto(*c, i as int, k + 1) is Some);
                    lemma_fields_error_stable(*c, i as int, k + 1, fs@.len() as int);
                    assert(task_state_error_upto(*c, i + 1) is Some);
                    lemma_state_error_stable(*c, i + 1, ds@.len() as int);
                }
                return Err(e);
            }
            if seen_contains(&seen, id) {
                proof {
                    assert(state_fields_error_upto(*c, i as int, k + 1) is Some);
                    lemma_fields_error_stable(*c, i as int, k + 1, fs@.len() as int);
                    assert(task_state_error_upto(*c, i + 1) is Some);
                    lemma_state_error_stable(*c, i + 1, ds@.len() as int);
                }
                return Err(
                    CompositionError::new(concat3("task-local state `", id, "` is declared more than once")),
                );
            }
            if names_declared_resource_exec(c, id) {
                proof {
                    assert(state_fields_error_upto(*c, i as int, k + 1) is Some);
                    lemma_fields_error_stable(*c, i as int, k + 1, fs@.len() as int);
                    assert(task_state_error_upto(*c, i + 1) is Some);
                    lemma_state_error_stable(*c, i + 1, ds@.len() as int);
                }
                return Err(
                    CompositionError::new(
                        concat3(
                            "task-local state `",
                            id,
                            "` collides with a declared hardware or service resource",
                        ),
                    ),
                );
            }
            let ghost before = seen@;
            seen.push(id);
            proof {
                assert(fs@.take(k + 1) =~= fs@.take(k as int).push(fs@[k as int]));
                assert(field_ids(fs@.take(k + 1)) =~= field_ids(fs@.take(k as int)).push(id@));
                assert(seen@.map_values(|s: &'static str| s@) =~= before.map_values(
                    |s: &'static str| s@,
                ).push(id@));
            }
            k = k + 1;
        }
        proof {
            assert(fs@.take(fs@.len() as int) =~= fs@);
            assert(state_declaration_error(*c, i as int) is None);
        }
        i = i + 1;
    }
    Ok(())
}


proof fn lemma_declared_ids_prefix(ds: Seq<TaskStateDeclaration>, i: int, j: int)
    requires
        0 <= i <= j <= ds.len(),
    ensures
        declared_state_ids(ds, i).len() <= declared_state_ids(ds, j).len(),
        forall|m: int|
            0 <= m < declared_state_ids(ds, i).len() ==> #[trigger] declared_state_ids(ds, j)[m]
                == declared_state_ids(ds, i)[m],
    decreases j - i,
{
    if i < j {
        lemma_declared_ids_prefix(ds, i, j - 1);
    }
}

/// Whether some task-state declaration declares a value named `x`.
pub fn state_declared(ds: &Vec<TaskStateDeclaration>, x: &str) -> (r: bool)
    ensures
        r == declared_state_ids(ds@, ds@.len() as int).contains(x@),
{
    let mut i: usize = 0;
    while i < ds.len()
        invariant
            i <= ds@.len(),
            !declared_state_ids(ds@, i as int).contains(x@),
        decreases ds@.len() - i,
    {
        let fs = &ds[i].fields;
        let mut k: usize = 0;
        while k < fs.len()
            invariant
                i < ds@.len(),
                fs@ == ds@[i as int].fields@,
                k <= fs@.len(),
                !declared_state_ids(ds@, i as int).contains(x@),
                forall|q: int| 0 <= q < k ==> #[trigger] fs@[q].id@ != x@,
            decreases fs@.len() - k,
        {
            if str_eq(fs[k].id, x) {
                proof {
                    let before = declared_state_ids(ds@, i as int);
                    let after = declared_state_ids(ds@, i + 1);
                    assert(after[before.len() + k] == x@);
                    lemma_declared_ids_prefix(ds@, i + 1, ds@.len() as int);
                    assert(declared_state_ids(ds@, ds@.len() as int)[before.len() + k] == x@);
                }
                return true;
            }
            k = k + 1;
        }
        proof {
            let before = declared_state_ids(ds@, i as int);
            let after = declared_state_ids(ds@, i + 1);
            assert forall|m: int| 0 <= m < after.len() implies after[m] != x@ by {
                if m < before.len() {
                    assert(after[m] == before[m]);
                } else {
                    assert(after[m] == fs@[m - before.len()].id@);
                }
            }
        }
        i = i + 1;
    }
    false
}

} // verus!
