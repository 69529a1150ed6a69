//! Periodic STM32F4 control-scheduler component.
//!
//! The application selects an already-declared board timer and exact rates.
//! The backend owns no allocation policy: it only lowers that declaration to
//! the shared STM32F4 scheduler recipe and an interrupt-bound task.

use vstd::prelude::*;

use crate::board::{board_timer, BoardDeclaration};
use crate::task::{
    same_contract, ResourceBinding, ResourceRequirement, SpawnBinding, TaskContract, TaskSafetyClass, TaskSource,
};
use crate::text::concat3;
use crate::text::concat5;

verus! {

/// Authoring-side scheduler counting acknowledged timer updates.
#[derive(Debug, Default, PartialEq, Eq)]
pub struct ControlScheduler {
    /// Number of acknowledged update interrupts, wrapping at `u32::MAX`.
    pub acknowledged_ticks: u32,
}

impl ControlScheduler {
    /// A scheduler that has acknowledged no update yet.
    pub fn new() -> (r: Self)
        ensures
            r.acknowledged_ticks == 0,
    {
        ControlScheduler { acknowledged_ticks: 0 }
    }

    /// Number of update interrupts acknowledged so far.
    pub fn acknowledged_ticks(&self) -> (r: u32)
        ensures
            r == self.acknowledged_ticks,
    {
        self.acknowledged_ticks
    }
}

/// Acknowledges one timer update interrupt.
pub fn acknowledge_control_tick(scheduler: &mut ControlScheduler)
    ensures
        final(scheduler).acknowledged_ticks == old(scheduler).acknowledged_ticks.wrapping_add(1),
{
    scheduler.acknowledged_ticks = scheduler.acknowledged_ticks.wrapping_add(1);
}

/// Phase after one scheduler update: the incremented phase, or zero once a
/// whole control period has elapsed.
pub open spec fn next_phase(phase: u32, ticks_per_control: u32) -> u32 {
    let advanced = phase.wrapping_add(1);
    if advanced < ticks_per_control {
        advanced
    } else {
        0
    }
}

/// Phase after `k` scheduler updates starting from `phase`.
pub open spec fn phase_after(phase: u32, ticks_per_control: u32, k: nat) -> u32
    decreases k,
{
    if k == 0 {
        phase
    } else {
        next_phase(phase_after(phase, ticks_per_control, (k - 1) as nat), ticks_per_control)
    }
}

/// Acknowledges every scheduler update and gates work to control cadence.
///
/// Returns whether this update completes a control period.
pub fn periodic_control_tick(
    scheduler: &mut ControlScheduler,
    phase: &mut u32,
    ticks_per_control: u32,
) -> (control_step: bool)
    ensures
        final(scheduler).acknowledged_ticks == old(scheduler).acknowledged_ticks.wrapping_add(1),
        *final(phase) == next_phase(*old(phase), ticks_per_control),
        control_step == (old(phase).wrapping_add(1) >= ticks_per_control),
{
    acknowledge_control_tick(scheduler);
    *phase = phase.wrapping_add(1);
    if *phase < ticks_per_control {
        return false;
    }
    *phase = 0;
    true
}

/// Control cadence: starting a period at phase zero, the phase counts the
/// updates of the period and returns to zero exactly when `ticks_per_control`
/// updates have been acknowledged, so control work runs once per period.
pub proof fn lemma_control_cadence(ticks_per_control: u32, k: nat)
    requires
        ticks_per_control >= 1,
        k <= ticks_per_control,
    ensures
        k < ticks_per_control ==> phase_after(0, ticks_per_control, k) == k,
        k == ticks_per_control ==> phase_after(0, ticks_per_control, k) == 0,
    decreases k,
{
    if k > 0 {
        lemma_control_cadence(ticks_per_control, (k - 1) as nat);
        assert(phase_after(0, ticks_per_control, (k - 1) as nat) == k - 1);
        let prev = (k - 1) as u32;
        assert(prev < u32::MAX);
        assert(prev.wrapping_add(1) == k);
    }
}

/// Semantic role of one periodic-control component resource.
#[derive(Clone, Copy, Debug, PartialEq, Eq, Structural)]
pub enum PeriodicControlResourceRole {
    /// HAL timer counter that owns the update interrupt.
    Scheduler,
    /// Number of scheduler ticks accumulated toward the next control step.
    Phase,
}

/// One private, task-local resource in the periodic-control graph.
#[derive(Clone, Copy, Debug)]
pub struct PeriodicControlResource {
    /// Stable semantic role used by resolution and lowering.
    pub role: PeriodicControlResourceRole,
}

impl PeriodicControlResource {
    /// Declares one resource of the given role.
    pub fn new(role: PeriodicControlResourceRole) -> (r: Self)
        ensures
            r.role == role,
    {
        PeriodicControlResource { role }
    }
}

/// Resources owned exclusively by the synchronous control interrupt task.
pub fn periodic_control_resources() -> (r: Vec<PeriodicControlResource>)
    ensures
        r@.len() == 2,
        r@[0].role == PeriodicControlResourceRole::Scheduler,
        r@[1].role == PeriodicControlResourceRole::Phase,
{
    let mut resources = Vec::new();
    resources.push(PeriodicControlResource::new(PeriodicControlResourceRole::Scheduler));
    resources.push(PeriodicControlResource::new(PeriodicControlResourceRole::Phase));
    resources
}

/// Reusable periodic-control timer definition.
#[derive(Clone, Debug)]
pub struct PeriodicControlDefinition {
    /// Stable reusable definition identifier.
    pub id: &'static str,
    /// Synchronous timer interrupt task contract.
    pub task: TaskContract,
    /// Private component resource graph.
    pub resources: Vec<PeriodicControlResource>,
}

/// Application-selected periodic control scheduler.
#[derive(Clone, Debug)]
pub struct PeriodicControlDeclaration {
    /// Component identifier used to namespace resources and the control task.
    pub id: &'static str,
    /// Reusable task and resource definition.
    pub definition: PeriodicControlDefinition,
    /// Exact board timer selected by the application.
    pub hardware_id: &'static str,
    /// Hardware update-interrupt frequency.
    pub scheduler_hz: u32,
    /// Control-step frequency derived from scheduler ticks.
    pub control_hz: u32,
    /// RTIC priority of the timer-bound synchronous task.
    pub interrupt_priority: u8,
    /// Reusable synchronous task selected for this scheduler instance.
    pub task: TaskContract,
    /// Safety classification of the expanded timer task.
    pub safety_class: TaskSafetyClass,
    /// Application bindings beyond the timer's private scheduler resources.
    pub local: Vec<ResourceBinding>,
    /// Application shared-resource bindings consumed by the control task.
    pub shared: Vec<ResourceBinding>,
    /// Typed software-task wake edges emitted by the control task.
    pub spawns: Vec<SpawnBinding>,
}

impl PeriodicControlDefinition {
    /// Declares one instance bound to explicit board timer hardware, with no
    /// rates, no priority, no application bindings, and non-safety-critical
    /// classification.
    pub fn declare(self, id: &'static str, hardware_id: &'static str) -> (r: PeriodicControlDeclaration)
        ensures
            r.id == id,
            r.definition == self,
            r.hardware_id == hardware_id,
            r.scheduler_hz == 0,
            r.control_hz == 0,
            r.interrupt_priority == 0,
            same_contract(r.task, self.task),
            r.safety_class == TaskSafetyClass::NonSafetyCritical,
            r.local@.len() == 0,
            r.shared@.len() == 0,
            r.spawns@.len() == 0,
    {
        let task = self.task.duplicate();
        PeriodicControlDeclaration {
            id,
            definition: self,
            hardware_id,
            scheduler_hz: 0,
            control_hz: 0,
            interrupt_priority: 0,
            task,
            safety_class: TaskSafetyClass::NonSafetyCritical,
            local: Vec::new(),
            shared: Vec::new(),
            spawns: Vec::new(),
        }
    }
}

/// `r` equals `d` in every field except, possibly, the named ones.
pub open spec fn same_except_rates(r: PeriodicControlDeclaration, d: PeriodicControlDeclaration) -> bool {
    &&& r.id == d.id
    &&& r.definition == d.definition
    &&& r.hardware_id == d.hardware_id
    &&& r.task == d.task
    &&& r.safety_class == d.safety_class
    &&& r.local == d.local
    &&& r.shared == d.shared
    &&& r.spawns == d.spawns
}

/// Number of scheduler updates per control step; zero for a zero control rate.
pub open spec fn spec_ticks_per_control(d: PeriodicControlDeclaration) -> u32 {
    if d.control_hz == 0 {
        0
    } else {
        (d.scheduler_hz / d.control_hz) as u32
    }
}

impl PeriodicControlDeclaration {
    /// Sets the timer update frequency in hertz.
    pub fn scheduler_hz(self, frequency_hz: u32) -> (r: Self)
        ensures
            same_except_rates(r, self),
            r.scheduler_hz == frequency_hz,
            r.control_hz == self.control_hz,
            r.interrupt_priority == self.interrupt_priority,
    {
        PeriodicControlDeclaration { scheduler_hz: frequency_hz, ..self }
    }

    /// Sets the control-step frequency in hertz.
    pub fn control_hz(self, frequency_hz: u32) -> (r: Self)
        ensures
            same_except_rates(r, self),
            r.scheduler_hz == self.scheduler_hz,
            r.control_hz == frequency_hz,
            r.interrupt_priority == self.interrupt_priority,
    {
        PeriodicControlDeclaration { control_hz: frequency_hz, ..self }
    }

    /// Sets the timer interrupt's RTIC priority.
    pub fn interrupt_priority(self, priority: u8) -> (r: Self)
        ensures
            same_except_rates(r, self),
            r.scheduler_hz == self.scheduler_hz,
            r.control_hz == self.control_hz,
            r.interrupt_priority == priority,
    {
        PeriodicControlDeclaration { interrupt_priority: priority, ..self }
    }

    /// Replaces the timing-only default with an application control contract.
    pub fn task(self, task: TaskContract) -> (r: Self)
        ensures
            r.task == task,
            r.id == self.id,
            r.definition == self.definition,
            r.hardware_id == self.hardware_id,
            r.scheduler_hz == self.scheduler_hz,
            r.control_hz == self.control_hz,
            r.interrupt_priority == self.interrupt_priority,
            r.safety_class == self.safety_class,
            r.local == self.local,
            r.shared == self.shared,
            r.spawns == self.spawns,
    {
        PeriodicControlDeclaration { task, ..self }
    }

    /// Marks the expanded task as an authoritative safety-path owner.
    pub fn safety_critical(self) -> (r: Self)
        ensures
            r.safety_class == TaskSafetyClass::SafetyCritical,
            r.id == self.id,
            r.definition == self.definition,
            r.hardware_id == self.hardware_id,
            r.scheduler_hz == self.scheduler_hz,
            r.control_hz == self.control_hz,
            r.interrupt_priority == self.interrupt_priority,
            r.task == self.task,
            r.local == self.local,
            r.shared == self.shared,
            r.spawns == self.spawns,
    {
        PeriodicControlDeclaration { safety_class: TaskSafetyClass::SafetyCritical, ..self }
    }

    /// Supplies application-owned local capability bindings.
    pub fn with_local(self, bindings: Vec<ResourceBinding>) -> (r: Self)
        ensures
            r.local == bindings,
            r.id == self.id,
            r.definition == self.definition,
            r.hardware_id == self.hardware_id,
            r.scheduler_hz == self.scheduler_hz,
            r.control_hz == self.control_hz,
            r.interrupt_priority == self.interrupt_priority,
            r.task == self.task,
            r.safety_class == self.safety_class,
            r.shared == self.shared,
            r.spawns == self.spawns,
    {
        PeriodicControlDeclaration { local: bindings, ..self }
    }

    /// Supplies observation and configuration shared-resource bindings.
    pub fn with_shared(self, bindings: Vec<ResourceBinding>) -> (r: Self)
        ensures
            r.shared == bindings,
            r.id == self.id,
            r.definition == self.definition,
            r.hardware_id == self.hardware_id,
            r.scheduler_hz == self.scheduler_hz,
            r.control_hz == self.control_hz,
            r.interrupt_priority == self.interrupt_priority,
            r.task == self.task,
            r.safety_class == self.safety_class,
            r.local == self.local,
            r.spawns == self.spawns,
    {
        PeriodicControlDeclaration { shared: bindings, ..self }
    }

    /// Supplies typed software-task wake destinations.
    pub fn with_spawns(self, bindings: Vec<SpawnBinding>) -> (r: Self)
        ensures
            r.spawns == bindings,
            r.id == self.id,
            r.definition == self.definition,
            r.hardware_id == self.hardware_id,
            r.scheduler_hz == self.scheduler_hz,
            r.control_hz == self.control_hz,
            r.interrupt_priority == self.interrupt_priority,
            r.task == self.task,
            r.safety_class == self.safety_class,
            r.local == self.local,
            r.shared == self.shared,
    {
        PeriodicControlDeclaration { spawns: bindings, ..self }
    }

    /// Exact number of scheduler updates per control step after validation.
    pub fn ticks_per_control(&self) -> (r: u32)
        ensures
            r == spec_ticks_per_control(*self),
    {
        match self.scheduler_hz.checked_div(self.control_hz) {
            Some(ticks) => ticks,
            None => 0,
        }
    }
}

/// Contract of the periodic control tick: it owns the scheduler and the
/// phase counter, and is configured with the ticks in one control step.
pub fn periodic_control_tick_contract() -> (r: TaskContract)
    ensures
        r.id@ == "periodic_control_tick"@,
        r.source.function@ == "periodic_control_tick"@,
        r.local@.len() == 2,
        r.local@[0].id@ == "scheduler"@,
        r.local@[0].rust_type@ == "ControlScheduler"@,
        r.local@[1].id@ == "phase"@,
        r.local@[1].rust_type@ == "u32"@,
        r.shared@.len() == 0,
        r.config@.len() == 1,
        r.config@[0].id@ == "ticks_per_control"@,
        r.config@[0].rust_type@ == "u32"@,
        r.spawns@.len() == 0,
{
    let mut contract = TaskContract::new(
        "periodic_control_tick",
        TaskSource::new("src/backends/stm32f4/tasks/periodic_control_tick.rs", "periodic_control_tick"),
    );
    contract.local.push(ResourceRequirement::new("scheduler", "ControlScheduler"));
    contract.local.push(ResourceRequirement::new("phase", "u32"));
    contract.config.push(ResourceRequirement::new("ticks_per_control", "u32"));
    contract
}

/// Shared STM32F4 periodic-control definition.
pub fn periodic_control_timer() -> (r: PeriodicControlDefinition)
    ensures
        r.id@ == "periodic_control_timer"@,
        r.task.id@ == "periodic_control_tick"@,
        r.resources@.len() == 2,
        r.resources@[0].role == PeriodicControlResourceRole::Scheduler,
        r.resources@[1].role == PeriodicControlResourceRole::Phase,
{
    PeriodicControlDefinition {
        id: "periodic_control_timer",
        task: periodic_control_tick_contract(),
        resources: periodic_control_resources(),
    }
}

/// Suffix that names a role's generated resource.
pub open spec fn spec_resource_suffix(role: PeriodicControlResourceRole) -> Seq<char> {
    match role {
        PeriodicControlResourceRole::Scheduler => "scheduler"@,
        PeriodicControlResourceRole::Phase => "phase"@,
    }
}

/// Suffix that names a role's generated resource.
pub fn resource_suffix(role: PeriodicControlResourceRole) -> (r: &'static str)
    ensures
        r@ == spec_resource_suffix(role),
{
    match role {
        PeriodicControlResourceRole::Scheduler => "scheduler",
        PeriodicControlResourceRole::Phase => "phase",
    }
}

/// First rule a periodic-control declaration breaks on a board, as the
/// diagnostic it is rejected with; `None` when it is valid.
pub open spec fn periodic_control_error(d: PeriodicControlDeclaration, board: BoardDeclaration) -> Option<
    Seq<char>,
> {
    let prefix = "periodic control `"@ + d.id@;
    if board_timer(board, d.hardware_id@) is None {
        Some(prefix + "` consumes undeclared board timer `"@ + d.hardware_id@ + "`"@)
    } else if d.scheduler_hz == 0 || d.control_hz == 0 {
        Some(prefix + "` scheduler and control frequencies must be nonzero"@)
    } else if d.control_hz > d.scheduler_hz {
        Some(prefix + "` control frequency cannot exceed its scheduler frequency"@)
    } else if d.scheduler_hz % d.control_hz != 0 {
        Some(
            prefix
                + "` scheduler frequency must be an integer multiple of its control frequency"@,
        )
    } else if d.interrupt_priority == 0 {
        Some(prefix + "` must have a nonzero interrupt priority"@)
    } else {
        None
    }
}

/// Validates a periodic-control declaration against the selected board.
pub fn validate(declaration: &PeriodicControlDeclaration, board: &BoardDeclaration) -> (r: Result<
    (),
    String,
>)
    ensures
        r is Ok <==> periodic_control_error(*declaration, *board) is None,
        r matches Err(e) ==> periodic_control_error(*declaration, *board) == Some(e@),
{
    let id = declaration.id;
    if board.timer(declaration.hardware_id).is_none() {
        return Err(concat5(
            "periodic control `",
            id,
            "` consumes undeclared board timer `",
            declaration.hardware_id,
            "`",
        ));
    }
    if declaration.scheduler_hz == 0 || declaration.control_hz == 0 {
        return Err(concat3("periodic control `", id, "` scheduler and control frequencies must be nonzero"));
    }
    if declaration.control_hz > declaration.scheduler_hz {
        return Err(concat3("periodic control `", id, "` control frequency cannot exceed its scheduler frequency"));
    }
    if declaration.scheduler_hz % declaration.control_hz != 0 {
        return Err(concat3(
            "periodic control `",
            id,
            "` scheduler frequency must be an integer multiple of its control frequency",
        ));
    }
    if declaration.interrupt_priority == 0 {
        return Err(concat3("periodic control `", id, "` must have a nonzero interrupt priority"));
    }
    Ok(())
}

/// A declaration that passes validation schedules a whole, positive number
/// of timer updates per control step, and those updates span exactly one
/// control period.
pub proof fn lemma_validated_cadence_is_exact(d: PeriodicControlDeclaration, board: BoardDeclaration)
    requires
        periodic_control_error(d, board) is None,
    ensures
        spec_ticks_per_control(d) >= 1,
        spec_ticks_per_control(d) * d.control_hz == d.scheduler_hz,
{
    let s = d.scheduler_hz as int;
    let c = d.control_hz as int;
    assert(c > 0 && c <= s && s % c == 0);
    assert(s == (s / c) * c + s % c) by (nonlinear_arith)
        requires
            c > 0,
    ;
    assert(s / c >= 1) by (nonlinear_arith)
        requires
            c > 0,
            c <= s,
    ;
    assert(s / c <= s) by (nonlinear_arith)
        requires
            c > 0,
            s >= 0,
    ;
}

} // verus!
