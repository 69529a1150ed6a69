//! What the resource bindings of tasks and periodic-control loops name:
//! board GPIOs, boot-routed serial service handles, safety-channel handles,
//! application and component shared resources; and the checks on the
//! bindings of periodic-control loops.

use vstd::prelude::*;

use crate::board::board_gpio;
use crate::component::ComponentDeclaration;
use crate::composition::{
    identifier_message, is_rust_identifier, rust_types_match, spec_shared_rust_type,
    strip_whitespace, validate_identifier, AppComposition, CompositionError,
    SharedResourceDeclaration, TaskDeclaration, TaskTrigger,
};
use crate::periodic_control::PeriodicControlDeclaration;
use crate::platform_config::{PlatformConfig, SerialAssignment, SerialService};
use crate::safety_channel::{spec_consumer_rust_type, spec_producer_rust_type, SafetyChannelDeclaration};
use crate::task::{ResourceBinding, TaskSafetyClass};
use crate::task_graph::{is_safety_handle, safety_class_name, safety_class_str, task_index_from};
use crate::state::{spec_state_rust_type, state_rust_type, TaskStateDeclaration, TaskStateField};
use crate::text::{concat2, concat3, str_eq};

verus! {

// ---------------------------------------------------------------------------
// Boot-routed serial service handles
// ---------------------------------------------------------------------------

/// Task-local reader handle of a boot-routed serial service.
pub open spec fn reader_resource(s: SerialService) -> Seq<char> {
    match s {
        SerialService::RcSbus => "rc_sbus_reader"@,
        SerialService::MspV1Osd => "msp_v1_osd_reader"@,
    }
}

/// Task-local receive-discontinuity handle of a boot-routed serial service.
pub open spec fn discontinuities_resource(s: SerialService) -> Seq<char> {
    match s {
        SerialService::RcSbus => "rc_sbus_rx_discontinuities"@,
        SerialService::MspV1Osd => "msp_v1_osd_rx_discontinuities"@,
    }
}

/// Task-local writer handle of a boot-routed serial service that transmits.
pub open spec fn writer_resource(s: SerialService) -> Option<Seq<char>> {
    match s {
        SerialService::RcSbus => None,
        SerialService::MspV1Osd => Some("msp_v1_osd_writer"@),
    }
}

/// Rust type of the handle `x` of the service in one serial slot.
pub open spec fn slot_local_type(slot: Option<SerialAssignment>, x: Seq<char>) -> Option<Seq<char>> {
    match slot {
        None => None,
        Some(a) => if x == reader_resource(a.service) {
            Some("UartOwnedReader<'static>"@)
        } else if x == discontinuities_resource(a.service) {
            Some("UartOwnedDiscontinuities<'static>"@)
        } else if writer_resource(a.service) == Some(x) {
            Some("UartOwnedWriter<'static>"@)
        } else {
            None
        },
    }
}

/// Rust type of the task-local handle `x` of a boot-routed serial service,
/// looking at the serial slots in order.
pub open spec fn service_local_type(p: PlatformConfig, x: Seq<char>) -> Option<Seq<char>> {
    if slot_local_type(p.serial[0], x) is Some {
        slot_local_type(p.serial[0], x)
    } else {
        slot_local_type(p.serial[1], x)
    }
}

fn slot_local_type_exec(slot: Option<SerialAssignment>, x: &str) -> (r: Option<&'static str>)
    ensures
        match (r, slot_local_type(slot, x@)) {
            (Some(a), Some(b)) => a@ == b,
            (None, None) => true,
            _ => false,
        },
{
    match slot {
        None => None,
        Some(a) => {
            let (reader, discontinuities) = match a.service {
                SerialService::RcSbus => ("rc_sbus_reader", "rc_sbus_rx_discontinuities"),
                SerialService::MspV1Osd => ("msp_v1_osd_reader", "msp_v1_osd_rx_discontinuities"),
            };
            if str_eq(x, reader) {
                Some("UartOwnedReader<'static>")
            } else if str_eq(x, discontinuities) {
                Some("UartOwnedDiscontinuities<'static>")
            } else {
                match a.service {
                    SerialService::RcSbus => None,
                    SerialService::MspV1Osd => if str_eq(x, "msp_v1_osd_writer") {
                        Some("UartOwnedWriter<'static>")
                    } else {
                        None
                    },
                }
            }
        },
    }
}

pub(crate) fn service_local_type_exec(p: PlatformConfig, x: &str) -> (r: Option<&'static str>)
    ensures
        match (r, service_local_type(p, x@)) {
            (Some(a), Some(b)) => a@ == b,
            (None, None) => true,
            _ => false,
        },
{
    match slot_local_type_exec(p.serial[0], x) {
        Some(t) => Some(t),
        None => slot_local_type_exec(p.serial[1], x),
    }
}

// ---------------------------------------------------------------------------
// Safety-channel handles
// ---------------------------------------------------------------------------

/// Rust type of the safety handle `x`, from channel `j` on: the producer or
/// consumer type of the first channel naming it.
pub open spec fn safety_type_from(chs: Seq<SafetyChannelDeclaration>, x: Seq<char>, j: int) -> Option<
    Seq<char>,
>
    decreases chs.len() - j,
{
    if j < 0 || j >= chs.len() {
        None
    } else if chs[j].producer@ == x {
        Some(spec_producer_rust_type(chs[j].message))
    } else if chs[j].consumer@ == x {
        Some(spec_consumer_rust_type(chs[j].message))
    } else {
        safety_type_from(chs, x, j + 1)
    }
}

/// Rust type of the safety handle `x`, if some channel names it.
pub open spec fn safety_type(chs: Seq<SafetyChannelDeclaration>, x: Seq<char>) -> Option<Seq<char>> {
    safety_type_from(chs, x, 0)
}

fn safety_type_exec(chs: &Vec<SafetyChannelDeclaration>, x: &str) -> (r: Option<&'static str>)
    ensures
        match (r, safety_type(chs@, x@)) {
            (Some(a), Some(b)) => a@ == b,
            (None, None) => true,
            _ => false,
        },
{
    let mut j: usize = 0;
    while j < chs.len()
        invariant
            j <= chs@.len(),
            safety_type(chs@, x@) == safety_type_from(chs@, x@, j as int),
        decreases chs@.len() - j,
    {
        if str_eq(chs[j].producer, x) {
            return Some(chs[j].message.producer_rust_type());
        }
        if str_eq(chs[j].consumer, x) {
            return Some(chs[j].message.consumer_rust_type());
        }
        j += 1;
    }
    None
}

/// The spellings agree outside whitespace.
pub open spec fn same_type(a: Seq<char>, b: Seq<char>) -> bool {
    strip_whitespace(a) == strip_whitespace(b)
}

/// First field, from `k` on, whose identifier is `x`.
pub open spec fn state_field_from(fs: Seq<TaskStateField>, x: Seq<char>, k: int) -> Option<TaskStateField>
    decreases fs.len() - k,
{
    if k < 0 || k >= fs.len() {
        None
    } else if fs[k].id@ == x {
        Some(fs[k])
    } else {
        state_field_from(fs, x, k + 1)
    }
}

/// Rust type of the task-local state value `x` of task `owner`, from
/// declaration `j` on: the first declaration of that owner declaring it.
pub open spec fn state_type_from(ds: Seq<TaskStateDeclaration>, owner: Seq<char>, x: Seq<char>, j: int) -> Option<
    Seq<char>,
>
    decreases ds.len() - j,
{
    if j < 0 || j >= ds.len() {
        None
    } else if ds[j].owner_task@ == owner && state_field_from(ds[j].fields@, x, 0) is Some {
        Some(spec_state_rust_type(state_field_from(ds[j].fields@, x, 0).unwrap().recipe))
    } else {
        state_type_from(ds, owner, x, j + 1)
    }
}

fn state_type_exec(ds: &Vec<TaskStateDeclaration>, owner: &str, x: &str) -> (r: Option<&'static str>)
    ensures
        match (r, state_type_from(ds@, owner@, x@, 0)) {
            (Some(a), Some(b)) => a@ == b,
            (None, None) => true,
            _ => false,
        },
{
    let mut j: usize = 0;
    while j < ds.len()
        invariant
            j <= ds@.len(),
            state_type_from(ds@, owner@, x@, 0) == state_type_from(ds@, owner@, x@, j as int),
        decreases ds@.len() - j,
    {
        if str_eq(ds[j].owner_task, owner) {
            let fs = &ds[j].fields;
            let mut k: usize = 0;
            while k < fs.len()
                invariant
                    j < ds@.len(),
                    ds@[j as int].owner_task@ == owner@,
                    state_type_from(ds@, owner@, x@, 0) == state_type_from(ds@, owner@, x@, j as int),
                    k <= fs@.len(),
                    fs@ == ds@[j as int].fields@,
                    state_field_from(fs@, x@, 0) == state_field_from(fs@, x@, k as int),
                decreases fs@.len() - k,
            {
                if str_eq(fs[k].id, x) {
                    return Some(state_rust_type(fs[k].recipe));
                }
                k = k + 1;
            }
        }
        j = j + 1;
    }
    None
}

/// A task-local binding of type `ty` in task `owner` may name `x`: a board
/// GPIO, a serial service handle of exactly that type, a safety handle of
/// that type, or a task-local state value of that type that `owner` owns.
pub open spec fn valid_local_target(app: AppComposition, owner: Seq<char>, x: Seq<char>, ty: Seq<char>) -> bool {
    ||| board_gpio(app.board, x) is Some
    ||| service_local_type(app.platform, x) == Some(ty)
    ||| (safety_type(app.safety_channels@, x) matches Some(e) && same_type(e, ty))
    ||| (state_type_from(app.task_state@, owner, x, 0) matches Some(e) && same_type(e, ty))
}

/// Checks whether a task-local binding of type `ty` in task `owner` may name
/// `x`.
pub fn valid_local_target_exec(app: &AppComposition, owner: &str, x: &str, ty: &str) -> (r: bool)
    ensures
        r == valid_local_target(*app, owner@, x@, ty@),
{
    if app.board.gpio(x).is_some() {
        return true;
    }
    if let Some(t) = service_local_type_exec(app.platform, x) {
        if str_eq(t, ty) {
            return true;
        }
    }
    if let Some(t) = safety_type_exec(&app.safety_channels, x) {
        if rust_types_match(t, ty) {
            return true;
        }
    }
    match state_type_exec(&app.task_state, owner, x) {
        Some(t) => rust_types_match(t, ty),
        None => false,
    }
}

// ---------------------------------------------------------------------------
// Shared resources
// ---------------------------------------------------------------------------

/// Rust type of the application shared resource `x`, from resource `j` on.
pub open spec fn app_shared_type_from(rs: Seq<SharedResourceDeclaration>, x: Seq<char>, j: int) -> Option<
    Seq<char>,
>
    decreases rs.len() - j,
{
    if j < 0 || j >= rs.len() {
        None
    } else if rs[j].id@ == x {
        Some(spec_shared_rust_type(rs[j].initial))
    } else {
        app_shared_type_from(rs, x, j + 1)
    }
}

/// Rust type of the shared resource `x` that a component provides, from
/// component `j` on: the owner of an SPI IMU endpoint.
pub open spec fn component_shared_type_from(cs: Seq<ComponentDeclaration>, x: Seq<char>, j: int) -> Option<
    Seq<char>,
>
    decreases cs.len() - j,
{
    if j < 0 || j >= cs.len() {
        None
    } else {
        match cs[j] {
            ComponentDeclaration::ImuEndpoint(d) => if d.id@ + "_owner"@ == x {
                Some("Spi1ImuEndpointOwner"@)
            } else {
                component_shared_type_from(cs, x, j + 1)
            },
            ComponentDeclaration::PeriodicControl(_) | ComponentDeclaration::SerialEndpoint(_) =>
                component_shared_type_from(cs, x, j + 1),
        }
    }
}

/// Type of the shared resource a task binding names: an application shared
/// resource first, then a component's.
pub open spec fn task_shared_type(app: AppComposition, x: Seq<char>) -> Option<Seq<char>> {
    if app_shared_type_from(app.shared_resources@, x, 0) is Some {
        app_shared_type_from(app.shared_resources@, x, 0)
    } else {
        component_shared_type_from(app.components@, x, 0)
    }
}

/// Type of the shared resource a periodic-control binding names: a
/// component's first, then an application shared resource.
pub open spec fn control_shared_type(app: AppComposition, x: Seq<char>) -> Option<Seq<char>> {
    if component_shared_type_from(app.components@, x, 0) is Some {
        component_shared_type_from(app.components@, x, 0)
    } else {
        app_shared_type_from(app.shared_resources@, x, 0)
    }
}

fn app_shared_type(rs: &Vec<SharedResourceDeclaration>, x: &str) -> (r: Option<&'static str>)
    ensures
        match (r, app_shared_type_from(rs@, x@, 0)) {
            (Some(a), Some(b)) => a@ == b,
            (None, None) => true,
            _ => false,
        },
{
    let mut j: usize = 0;
    while j < rs.len()
        invariant
            j <= rs@.len(),
            app_shared_type_from(rs@, x@, 0) == app_shared_type_from(rs@, x@, j as int),
        decreases rs@.len() - j,
    {
        if str_eq(rs[j].id, x) {
            return Some(rs[j].rust_type());
        }
        j += 1;
    }
    None
}

pub(crate) fn component_shared_type(cs: &Vec<ComponentDeclaration>, x: &str) -> (r: Option<&'static str>)
    ensures
        match (r, component_shared_type_from(cs@, x@, 0)) {
            (Some(a), Some(b)) => a@ == b,
            (None, None) => true,
            _ => false,
        },
{
    let mut j: usize = 0;
    while j < cs.len()
        invariant
            j <= cs@.len(),
            component_shared_type_from(cs@, x@, 0) == component_shared_type_from(cs@, x@, j as int),
        decreases cs@.len() - j,
    {
        if let ComponentDeclaration::ImuEndpoint(d) = &cs[j] {
            let owner = concat2(d.id, "_owner");
            if str_eq(owner.as_str(), x) {
                return Some("Spi1ImuEndpointOwner");
            }
        }
        j += 1;
    }
    None
}

/// Type of the shared resource a task binding names, if any.
pub fn task_shared_type_exec(app: &AppComposition, x: &str) -> (r: Option<&'static str>)
    ensures
        match (r, task_shared_type(*app, x@)) {
            (Some(a), Some(b)) => a@ == b,
            (None, None) => true,
            _ => false,
        },
{
    match app_shared_type(&app.shared_resources, x) {
        Some(t) => Some(t),
        None => component_shared_type(&app.components, x),
    }
}

fn control_shared_type_exec(app: &AppComposition, x: &str) -> (r: Option<&'static str>)
    ensures
        match (r, control_shared_type(*app, x@)) {
            (Some(a), Some(b)) => a@ == b,
            (None, None) => true,
            _ => false,
        },
{
    match component_shared_type(&app.components, x) {
        Some(t) => Some(t),
        None => app_shared_type(&app.shared_resources, x),
    }
}

// ---------------------------------------------------------------------------
// Periodic-control loops
// ---------------------------------------------------------------------------

/// Identifier of the task that runs a periodic control's loop.
pub open spec fn control_task_id(d: PeriodicControlDeclaration) -> Seq<char> {
    d.id@ + "_loop"@
}

/// Some binding of the list names `x`.
pub open spec fn names_target(bs: Seq<ResourceBinding>, x: Seq<char>) -> bool {
    exists|m: int| 0 <= m < bs.len() && #[trigger] bs[m].target@ == x
}

/// `x` is already bound locally: by any task, by a periodic control before
/// component `i`, or by one of the first `k` local bindings of component `i`.
pub open spec fn control_local_taken(app: AppComposition, i: int, k: int, x: Seq<char>) -> bool {
    ||| exists|j: int| 0 <= j < app.tasks@.len() && #[trigger] names_target(app.tasks@[j].local@, x)
    ||| exists|j: int|
        0 <= j < i && (#[trigger] app.components@[j] matches ComponentDeclaration::PeriodicControl(d)
            && names_target(d.local@, x))
    ||| (app.components@[i] matches ComponentDeclaration::PeriodicControl(d) && exists|m: int|
        0 <= m < k && #[trigger] d.local@[m].target@ == x)
}

/// First rule the local bindings of the periodic control `d` (component
/// `i`), from binding `k` on, break.
pub open spec fn control_local_error_from(
    app: AppComposition,
    i: int,
    d: PeriodicControlDeclaration,
    k: int,
) -> Option<Seq<char>>
    decreases d.local@.len() - k,
{
    if k < 0 || k >= d.local@.len() {
        None
    } else {
        let b = d.local@[k];
        let target = b.target@;
        let st = safety_type(app.safety_channels@, target);
        if !is_rust_identifier(target) {
            Some(identifier_message(target, "periodic-control local resource"@))
        } else if st is Some && d.safety_class != TaskSafetyClass::SafetyCritical {
            Some(
                "task `"@ + control_task_id(d) + "` is "@ + safety_class_name(d.safety_class)
                    + " and cannot own authoritative safety-channel resource `"@ + target + "`"@,
            )
        } else if !(st matches Some(e) && same_type(e, b.rust_type@)) {
            Some(
                "task `"@ + control_task_id(d) + "` binds local slot `"@ + b.logical@
                    + "` to missing or incompatible periodic-control resource `"@ + target + "`"@,
            )
        } else if control_local_taken(app, i, k, target) {
            Some("hardware resource `"@ + target + "` is owned by more than one local task binding"@)
        } else {
            control_local_error_from(app, i, d, k + 1)
        }
    }
}

/// First rule the shared bindings of the periodic control `d`, from binding
/// `k` on, break.
pub open spec fn control_shared_error_from(
    app: AppComposition,
    d: PeriodicControlDeclaration,
    k: int,
) -> Option<Seq<char>>
    decreases d.shared@.len() - k,
{
    if k < 0 || k >= d.shared@.len() {
        None
    } else {
        let b = d.shared@[k];
        let target = b.target@;
        if !is_rust_identifier(target) {
            Some(identifier_message(target, "periodic-control shared resource"@))
        } else {
            match control_shared_type(app, target) {
                None => Some(
                    "task `"@ + control_task_id(d) + "` binds shared slot `"@ + b.logical@
                        + "` to missing resource `"@ + target + "`"@,
                ),
                Some(actual) => if !same_type(actual, b.rust_type@) {
                    Some(
                        "task `"@ + control_task_id(d) + "` shared slot `"@ + b.logical@
                            + "` requires `"@ + b.rust_type@ + "`, but `"@ + target + "` is `"@
                            + actual + "`"@,
                    )
                } else {
                    control_shared_error_from(app, d, k + 1)
                },
            }
        }
    }
}

/// First rule the spawn bindings of the periodic control `d`, from binding
/// `k` on, break: a target that is no Rust identifier, names no task, or
/// names an interrupt task.
pub open spec fn control_spawn_error_from(
    app: AppComposition,
    d: PeriodicControlDeclaration,
    k: int,
) -> Option<Seq<char>>
    decreases d.spawns@.len() - k,
{
    if k < 0 || k >= d.spawns@.len() {
        None
    } else {
        let b = d.spawns@[k];
        let target = b.target@;
        if !is_rust_identifier(target) {
            Some(identifier_message(target, "spawn target"@))
        } else {
            match task_index_from(app.tasks@, target, 0) {
                None => Some(
                    "task `"@ + control_task_id(d) + "` spawn slot `"@ + b.logical@
                        + "` targets undeclared task `"@ + target + "`"@,
                ),
                Some(j) => if app.tasks@[j].trigger is Interrupt {
                    Some(
                        "task `"@ + control_task_id(d) + "` cannot spawn interrupt task `"@
                            + app.tasks@[j].id@ + "`"@,
                    )
                } else {
                    control_spawn_error_from(app, d, k + 1)
                },
            }
        }
    }
}

/// First rule the bindings of component `i` break, if it is a periodic
/// control: its local, then shared, then spawn bindings.
pub open spec fn control_error(app: AppComposition, i: int) -> Option<Seq<char>> {
    match app.components@[i] {
        ComponentDeclaration::PeriodicControl(d) => if control_local_error_from(app, i, d, 0) is Some {
            control_local_error_from(app, i, d, 0)
        } else if control_shared_error_from(app, d, 0) is Some {
            control_shared_error_from(app, d, 0)
        } else {
            control_spawn_error_from(app, d, 0)
        },
        ComponentDeclaration::ImuEndpoint(_) | ComponentDeclaration::SerialEndpoint(_) => None,
    }
}

/// First rule the bindings of the first `n` components break.
pub open spec fn controls_error_upto(app: AppComposition, n: int) -> Option<Seq<char>>
    decreases n,
{
    if n <= 0 {
        None
    } else if controls_error_upto(app, n - 1) is Some {
        controls_error_upto(app, n - 1)
    } else {
        control_error(app, n - 1)
    }
}

fn names_target_exec(bs: &Vec<ResourceBinding>, x: &str) -> (r: bool)
    ensures
        r == names_target(bs@, x@),
{
    let mut m: usize = 0;
    while m < bs.len()
        invariant
            m <= bs@.len(),
            forall|q: int| 0 <= q < m ==> #[trigger] bs@[q].target@ != x@,
        decreases bs@.len() - m,
    {
        if str_eq(bs[m].target, x) {
            return true;
        }
        m += 1;
    }
    false
}

fn control_local_taken_exec(app: &AppComposition, i: usize, k: usize, x: &str) -> (r: bool)
    requires
        i < app.components@.len(),
        app.components@[i as int] matches ComponentDeclaration::PeriodicControl(d) && k <= d.local@.len(),
    ensures
        r == control_local_taken(*app, i as int, k as int, x@),
{
    let mut j: usize = 0;
    while j < app.tasks.len()
        invariant
            j <= app.tasks@.len(),
            forall|a: int| 0 <= a < j ==> !#[trigger] names_target(app.tasks@[a].local@, x@),
        decreases app.tasks@.len() - j,
    {
        if names_target_exec(&app.tasks[j].local, x) {
            return true;
        }
        j += 1;
    }
    let mut j: usize = 0;
    while j < i
        invariant
            j <= i,
            i < app.components@.len(),
            forall|a: int| 0 <= a < app.tasks@.len() ==> !#[trigger] names_target(app.tasks@[a].local@, x@),
            forall|a: int|
                0 <= a < j ==> !(#[trigger] app.components@[a] matches ComponentDeclaration::PeriodicControl(d)
                    && names_target(d.local@, x@)),
        decreases i - j,
    {
        if let ComponentDeclaration::PeriodicControl(d) = &app.components[j] {
            if names_target_exec(&d.local, x) {
                return true;
            }
        }
        j += 1;
    }
    if let ComponentDeclaration::PeriodicControl(d) = &app.components[i] {
        let mut m: usize = 0;
        while m < k
            invariant
                m <= k,
                k <= d.local@.len(),
                i < app.components@.len(),
                app.components@[i as int] == ComponentDeclaration::PeriodicControl(*d),
                forall|q: int| 0 <= q < m ==> #[trigger] d.local@[q].target@ != x@,
            decreases k - m,
        {
            if str_eq(d.local[m].target, x) {
                proof {
                    assert(d.local@[m as int].target@ == x@);
                }
                return true;
            }
            m += 1;
        }
    }
    false
}

fn validate_control_local(app: &AppComposition, i: usize, d: &PeriodicControlDeclaration) -> (r: Result<
    (),
    CompositionError,
>)
    requires
        i < app.components@.len(),
        app.components@[i as int] == ComponentDeclaration::PeriodicControl(*d),
    ensures
        r is Ok <==> control_local_error_from(*app, i as int, *d, 0) is None,
        r matches Err(e) ==> control_local_error_from(*app, i as int, *d, 0) == Some(e.message@),
{
    let task_id = concat2(d.id, "_loop");
    let mut k: usize = 0;
    while k < d.local.len()
        invariant
            k <= d.local@.len(),
            task_id@ == control_task_id(*d),
            i < app.components@.len(),
            app.components@[i as int] == ComponentDeclaration::PeriodicControl(*d),
            control_local_error_from(*app, i as int, *d, 0) == control_local_error_from(
                *app,
                i as int,
                *d,
                k as int,
            ),
        decreases d.local@.len() - k,
    {
        let b = d.local[k];
        validate_identifier(b.target, "periodic-control local resource")?;
        let st = safety_type_exec(&app.safety_channels, b.target);
        if st.is_some() {
            if let TaskSafetyClass::SafetyCritical = d.safety_class {
            } else {
                let mut message = concat3("task `", task_id.as_str(), "` is ");
                message.append(safety_class_str(d.safety_class));
                message.append(" and cannot own authoritative safety-channel resource `");
                message.append(b.target);
                message.append("`");
                return Err(CompositionError::new(message));
            }
        }
        let valid = match st {
            Some(t) => rust_types_match(t, b.rust_type),
            None => false,
        };
        if !valid {
            let mut message = concat3("task `", task_id.as_str(), "` binds local slot `");
            message.append(b.logical);
            message.append("` to missing or incompatible periodic-control resource `");
            message.append(b.target);
            message.append("`");
            return Err(CompositionError::new(message));
        }
        if control_local_taken_exec(app, i, k, b.target) {
            return Err(
                CompositionError::new(
                    concat3(
                        "hardware resource `",
                        b.target,
                        "` is owned by more than one local task binding",
                    ),
                ),
            );
        }
        k += 1;
    }
    Ok(())
}

fn validate_control_shared(app: &AppComposition, d: &PeriodicControlDeclaration) -> (r: Result<
    (),
    CompositionError,
>)
    ensures
        r is Ok <==> control_shared_error_from(*app, *d, 0) is None,
        r matches Err(e) ==> control_shared_error_from(*app, *d, 0) == Some(e.message@),
{
    let task_id = concat2(d.id, "_loop");
    let mut k: usize = 0;
    while k < d.shared.len()
        invariant
            k <= d.shared@.len(),
            task_id@ == control_task_id(*d),
            control_shared_error_from(*app, *d, 0) == control_shared_error_from(*app, *d, k as int),
        decreases d.shared@.len() - k,
    {
        let b = d.shared[k];
        validate_identifier(b.target, "periodic-control shared resource")?;
        match control_shared_type_exec(app, b.target) {
            None => {
                let mut message = concat3("task `", task_id.as_str(), "` binds shared slot `");
                message.append(b.logical);
                message.append("` to missing resource `");
                message.append(b.target);
                message.append("`");
                return Err(CompositionError::new(message));
            },
            Some(actual) => {
                if !rust_types_match(actual, b.rust_type) {
                    let mut message = concat3("task `", task_id.as_str(), "` shared slot `");
                    message.append(b.logical);
                    message.append("` requires `");
                    message.append(b.rust_type);
                    message.append("`, but `");
                    message.append(b.target);
                    message.append("` is `");
                    message.append(actual);
                    message.append("`");
                    return Err(CompositionError::new(message));
                }
            },
        }
        k += 1;
    }
    Ok(())
}

fn find_task_exec(tasks: &Vec<TaskDeclaration>, id: &str) -> (r: Option<usize>)
    ensures
        match (r, task_index_from(tasks@, id@, 0)) {
            (Some(a), Some(b)) => a == b && b < tasks@.len(),
            (None, None) => true,
            _ => false,
        },
{
    let mut j: usize = 0;
    while j < tasks.len()
        invariant
            j <= tasks@.len(),
            task_index_from(tasks@, id@, 0) == task_index_from(tasks@, id@, j as int),
        decreases tasks@.len() - j,
    {
        if str_eq(tasks[j].id, id) {
            return Some(j);
        }
        j += 1;
    }
    None
}

fn validate_control_spawns(app: &AppComposition, d: &PeriodicControlDeclaration) -> (r: Result<
    (),
    CompositionError,
>)
    ensures
        r is Ok <==> control_spawn_error_from(*app, *d, 0) is None,
        r matches Err(e) ==> control_spawn_error_from(*app, *d, 0) == Some(e.message@),
{
    let task_id = concat2(d.id, "_loop");
    let mut k: usize = 0;
    while k < d.spawns.len()
        invariant
            k <= d.spawns@.len(),
            task_id@ == control_task_id(*d),
            control_spawn_error_from(*app, *d, 0) == control_spawn_error_from(*app, *d, k as int),
        decreases d.spawns@.len() - k,
    {
        let target = d.spawns[k].target;
        validate_identifier(target, "spawn target")?;
        match find_task_exec(&app.tasks, target) {
            None => {
                let mut message = concat3("task `", task_id.as_str(), "` spawn slot `");
                message.append(d.spawns[k].logical);
                message.append("` targets undeclared task `");
                message.append(target);
                message.append("`");
                return Err(CompositionError::new(message));
            },
            Some(j) => {
                if let TaskTrigger::Interrupt(_) = app.tasks[j].trigger {
                    let mut message = concat3("task `", task_id.as_str(), "` cannot spawn interrupt task `");
                    message.append(app.tasks[j].id);
                    message.append("`");
                    return Err(CompositionError::new(message));
                }
            },
        }
        k += 1;
    }
    Ok(())
}

proof fn lemma_controls_error_stable(app: AppComposition, a: int, b: int)
    requires
        0 <= a <= b,
        controls_error_upto(app, a) is Some,
    ensures
        controls_error_upto(app, b) == controls_error_upto(app, a),
    decreases b - a,
{
    if b > a {
        lemma_controls_error_stable(app, a, b - 1);
    }
}

/// Checks the local, shared and spawn bindings of every periodic-control
/// loop, in component order.
pub fn validate_control_bindings(app: &AppComposition) -> (r: Result<(), CompositionError>)
    ensures
        r is Ok <==> controls_error_upto(*app, app.components@.len() as int) is None,
        r matches Err(e) ==> controls_error_upto(*app, app.components@.len() as int) == Some(
            e.message@,
        ),
{
    let mut i: usize = 0;
    while i < app.components.len()
        invariant
            i <= app.components@.len(),
            controls_error_upto(*app, i as int) is None,
        decreases app.components@.len() - i,
    {
        if let ComponentDeclaration::PeriodicControl(d) = &app.components[i] {
            let step = match validate_control_local(app, i, d) {
                Err(e) => Err(e),
                Ok(()) => match validate_control_shared(app, d) {
                    Err(e) => Err(e),
                    Ok(()) => validate_control_spawns(app, d),
                },
            };
            if let Err(e) = step {
                proof {
                    lemma_controls_error_stable(*app, i + 1, app.components@.len() as int);
                }
                return Err(e);
            }
        }
        i += 1;
    }
    Ok(())
}

/// Local bindings of component `i`: those of its loop if it is a periodic
/// control, none otherwise.
pub open spec fn control_local_bindings(app: AppComposition, i: int) -> Seq<ResourceBinding> {
    match app.components@[i] {
        ComponentDeclaration::PeriodicControl(d) => d.local@,
        ComponentDeclaration::ImuEndpoint(_) | ComponentDeclaration::SerialEndpoint(_) => Seq::empty(),
    }
}

proof fn lemma_control_ok(app: AppComposition, n: int, i: int)
    requires
        0 <= i < n,
        controls_error_upto(app, n) is None,
    ensures
        control_error(app, i) is None,
    decreases n,
{
    if i < n - 1 {
        lemma_control_ok(app, n - 1, i);
    }
}

proof fn lemma_control_local_ok(app: AppComposition, i: int, d: PeriodicControlDeclaration, k: int, q: int)
    requires
        0 <= k <= q < d.local@.len(),
        control_local_error_from(app, i, d, k) is None,
    ensures
        !control_local_taken(app, i, q, d.local@[q].target@),
        safety_type(app.safety_channels@, d.local@[q].target@) matches Some(e) && same_type(
            e,
            d.local@[q].rust_type@,
        ),
    decreases q - k,
{
    if k < q {
        lemma_control_local_ok(app, i, d, k + 1, q);
    }
}

/// When the bindings of every periodic-control loop are valid, each local
/// binding of a loop names a safety handle of its type, and no resource a
/// loop binds locally is bound locally by a task or by another loop binding.
pub proof fn lemma_valid_controls_own_distinct_locals(app: AppComposition)
    requires
        controls_error_upto(app, app.components@.len() as int) is None,
    ensures
        forall|i: int, m: int|
            0 <= i < app.components@.len() && 0 <= m < control_local_bindings(app, i).len() ==> (
            safety_type(app.safety_channels@, #[trigger] control_local_bindings(app, i)[m].target@)
                matches Some(e) && same_type(e, control_local_bindings(app, i)[m].rust_type@)),
        forall|i: int, m: int, j: int, q: int|
            0 <= i < app.components@.len() && 0 <= m < control_local_bindings(app, i).len() && 0
                <= j < app.tasks@.len() && 0 <= q < app.tasks@[j].local@.len()
                ==> #[trigger] control_local_bindings(app, i)[m].target@
                != #[trigger] app.tasks@[j].local@[q].target@,
        forall|i1: int, m1: int, i2: int, m2: int|
            0 <= i1 < app.components@.len() && 0 <= m1 < control_local_bindings(app, i1).len() && 0
                <= i2 < app.components@.len() && 0 <= m2 < control_local_bindings(app, i2).len() && (
            i1,
            m1,
            ) != (i2, m2) ==> #[trigger] control_local_bindings(app, i1)[m1].target@
                != #[trigger] control_local_bindings(app, i2)[m2].target@,
{
    let n = app.components@.len() as int;
    assert forall|i: int, m: int|
        0 <= i < n && 0 <= m < control_local_bindings(app, i).len() implies (safety_type(
        app.safety_channels@,
        #[trigger] control_local_bindings(app, i)[m].target@,
    ) matches Some(e) && same_type(e, control_local_bindings(app, i)[m].rust_type@)) by {
        lemma_control_ok(app, n, i);
        if let ComponentDeclaration::PeriodicControl(d) = app.components@[i] {
            lemma_control_local_ok(app, i, d, 0, m);
        }
    }
    assert forall|i: int, m: int, j: int, q: int|
        0 <= i < n && 0 <= m < control_local_bindings(app, i).len() && 0 <= j < app.tasks@.len()
            && 0 <= q < app.tasks@[j].local@.len() implies #[trigger] control_local_bindings(
        app,
        i,
    )[m].target@ != #[trigger] app.tasks@[j].local@[q].target@ by {
        lemma_control_ok(app, n, i);
        if let ComponentDeclaration::PeriodicControl(d) = app.components@[i] {
            lemma_control_local_ok(app, i, d, 0, m);
            if app.tasks@[j].local@[q].target@ == d.local@[m].target@ {
                assert(names_target(app.tasks@[j].local@, d.local@[m].target@));
            }
        }
    }
    assert forall|i1: int, m1: int, i2: int, m2: int|
        0 <= i1 < n && 0 <= m1 < control_local_bindings(app, i1).len() && 0 <= i2 < n && 0 <= m2
            < control_local_bindings(app, i2).len() && (i1, m1) != (i2, m2) implies #[trigger] control_local_bindings(
        app,
        i1,
    )[m1].target@ != #[trigger] control_local_bindings(app, i2)[m2].target@ by {
        if let ComponentDeclaration::PeriodicControl(d1) = app.components@[i1] {
            if let ComponentDeclaration::PeriodicControl(d2) = app.components@[i2] {
                if d1.local@[m1].target@ == d2.local@[m2].target@ {
                    if i1 < i2 || (i1 == i2 && m1 < m2) {
                        lemma_control_ok(app, n, i2);
                        lemma_control_local_ok(app, i2, d2, 0, m2);
                        assert(names_target(d1.local@, d2.local@[m2].target@));
                        assert(d1.local@[m1].target@ == d2.local@[m2].target@);
                    } else {
                        lemma_control_ok(app, n, i1);
                        lemma_control_local_ok(app, i1, d1, 0, m1);
                        assert(names_target(d2.local@, d1.local@[m1].target@));
                        assert(d2.local@[m2].target@ == d1.local@[m1].target@);
                    }
                }
            }
        }
    }
}

// ---------------------------------------------------------------------------
// Owners of task-local resources
// ---------------------------------------------------------------------------

/// Loop tasks of the periodic controls, in component order, that bind `x`
/// locally.
pub open spec fn control_owner_ids(cs: Seq<ComponentDeclaration>, x: Seq<char>) -> Seq<Seq<char>>
    decreases cs.len(),
{
    if cs.len() == 0 {
        Seq::empty()
    } else {
        let rest = control_owner_ids(cs.drop_last(), x);
        match cs.last() {
            ComponentDeclaration::PeriodicControl(d) => if names_target(d.local@, x) {
                rest.push(control_task_id(d))
            } else {
                rest
            },
            ComponentDeclaration::ImuEndpoint(_) | ComponentDeclaration::SerialEndpoint(_) => rest,
        }
    }
}

/// Identifiers of the tasks that own `x` locally: the declared tasks that
/// bind it, in order, then the loop tasks of the periodic controls that bind
/// it.
pub open spec fn resource_owner_ids(app: AppComposition, x: Seq<char>) -> Seq<Seq<char>> {
    crate::task_graph::local_owner_ids(app.tasks@, x) + control_owner_ids(app.components@, x)
}

/// Identifiers of the tasks that own a resource locally: declared tasks in
/// order, then periodic-control loop tasks.
pub fn local_resource_owners(app: &AppComposition, resource: &str) -> (r: Vec<String>)
    ensures
        crate::resolve::string_views(r@) == resource_owner_ids(*app, resource@),
{
    let tasks = crate::task_graph::local_task_owners(&app.tasks, resource);
    let mut owners: Vec<String> = Vec::new();
    let mut j: usize = 0;
    while j < tasks.len()
        invariant
            j <= tasks@.len(),
            tasks@.len() == crate::task_graph::local_owner_ids(app.tasks@, resource@).len(),
            forall|q: int| 0 <= q < tasks@.len() ==> #[trigger] tasks@[q]@
                == crate::task_graph::local_owner_ids(app.tasks@, resource@)[q],
            crate::resolve::string_views(owners@) == crate::task_graph::local_owner_ids(
                app.tasks@,
                resource@,
            ).take(j as int),
        decreases tasks@.len() - j,
    {
        let ghost before = owners@;
        owners.push(String::from_str(tasks[j]));
        proof {
            assert(crate::resolve::string_views(owners@) =~= crate::resolve::string_views(before).push(
                tasks@[j as int]@,
            ));
            assert(crate::task_graph::local_owner_ids(app.tasks@, resource@).take(j + 1)
                =~= crate::task_graph::local_owner_ids(app.tasks@, resource@).take(j as int).push(
                tasks@[j as int]@,
            ));
        }
        j += 1;
    }
    let ghost task_part = crate::resolve::string_views(owners@);
    proof {
        assert(task_part =~= crate::task_graph::local_owner_ids(app.tasks@, resource@));
    }
    let mut i: usize = 0;
    while i < app.components.len()
        invariant
            i <= app.components@.len(),
            crate::resolve::string_views(owners@) == task_part + control_owner_ids(
                app.components@.take(i as int),
                resource@,
            ),
        decreases app.components@.len() - i,
    {
        proof {
            assert(app.components@.take(i + 1).drop_last() =~= app.components@.take(i as int));
        }
        if let ComponentDeclaration::PeriodicControl(d) = &app.components[i] {
            if names_target_exec(&d.local, resource) {
                let ghost before = owners@;
                let id = concat2(d.id, "_loop");
                owners.push(id);
                proof {
                    assert(crate::resolve::string_views(owners@) =~= crate::resolve::string_views(
                        before,
                    ).push(control_task_id(*d)));
                }
            }
        }
        i += 1;
    }
    proof {
        assert(app.components@.take(i as int) =~= app.components@);
    }
    owners
}

} // verus!
