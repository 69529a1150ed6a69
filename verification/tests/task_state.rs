use app_builder::board::McuDeclaration;
use app_builder::hardware_lowering::McuDevice;
use app_builder::initialization::ClockSource;
use app_builder::board::{BoardDeclaration, TimerHardwareDeclaration, TimerPeripheral};
use app_builder::expand::component_task_with_bindings;
use app_builder::periodic_control::{periodic_control_timer, PeriodicControlDeclaration};
use app_builder::resolve::{
    resolve_periodic_control, ResolvedPeriodicControl, ResolvedResourceBinding, ResolvedTask,
    ResolvedTaskTrigger,
};
use app_builder::state::{
    TaskStateDeclaration, TaskStateField, TaskStateRecipe, TaskStateRole, TaskStateSchema,
};
use app_builder::task::{ConfigValue, TaskContract, TaskSafetyClass, TaskSource};
use app_builder::task_state::resolve_task_state;

fn board() -> BoardDeclaration {
    BoardDeclaration {
        mcu: McuDeclaration { device: McuDevice::Stm32f405, clock: ClockSource::Hsi, system_clock_hz: 16_000_000 },
        id: "foxeer_f405_v2",
        gpio: Vec::new(),
        timers: vec![TimerHardwareDeclaration { id: "tim4", peripheral: TimerPeripheral::Tim4 }],
        spi: Vec::new(),
        serial: Vec::new(),
    }
}

fn timing_only_control() -> PeriodicControlDeclaration {
    periodic_control_timer()
        .declare("control", "tim4")
        .scheduler_hz(800)
        .control_hz(400)
        .interrupt_priority(14)
}

fn control_with_loop() -> (ResolvedPeriodicControl, ResolvedTask) {
    let control = resolve_periodic_control(&board(), timing_only_control()).unwrap();
    let task = component_task_with_bindings(
        "control",
        "control_loop".to_owned(),
        &control.declaration.task,
        ResolvedTaskTrigger::Interrupt("TIM4".to_owned()),
        14,
        vec![("scheduler", "control_scheduler"), ("phase", "control_phase")],
        vec![],
        vec![("ticks_per_control", ConfigValue::U32(2))],
        vec![],
    )
    .unwrap();
    (control, task)
}

fn plain_task(id: &str) -> ResolvedTask {
    ResolvedTask {
        id: id.to_owned(),
        contract: TaskContract::new("body", TaskSource::new("tasks.rs", "body")),
        trigger: ResolvedTaskTrigger::Software,
        priority: 1,
        safety_class: TaskSafetyClass::NonSafetyCritical,
        local: Vec::new(),
        shared: Vec::new(),
        config: Vec::new(),
        spawns: Vec::new(),
        owner_component: None,
    }
}

#[test]
fn cadence_mismatch_is_reported_by_task_state_resolution() {
    let schema = TaskStateSchema { id: "cadence_state", version: 1 };
    let state: TaskStateDeclaration = schema.declare(
        "control_loop",
        vec![TaskStateField::new(
            "samples_per_control_loop",
            TaskStateRole::SamplesPerControlLoop,
            TaskStateRecipe::U32(3),
        )],
    );
    let (control, task) = control_with_loop();
    let mut tasks = vec![task];
    let error = resolve_task_state(&vec![state], &mut tasks, &vec![control]).unwrap_err();
    assert!(error.contains("supplies 3 scheduler ticks"));
    assert!(error.contains("resolves to 2"));
    assert_eq!(
        error,
        "task-state field `samples_per_control_loop` supplies 3 scheduler ticks per control step, but periodic control `control` resolves to 2"
    );
}

#[test]
fn task_state_owner_must_be_a_resolved_task() {
    let schema = TaskStateSchema { id: "sequence_state", version: 1 };
    let state = schema.declare(
        "missing_task",
        vec![TaskStateField::new(
            "imu_last_sequence",
            TaskStateRole::ImuLastSequence,
            TaskStateRecipe::U32(0),
        )],
    );
    let mut tasks: Vec<ResolvedTask> = Vec::new();
    let error = resolve_task_state(&vec![state], &mut tasks, &Vec::new()).unwrap_err();
    assert!(error.contains("targets missing task `missing_task`"));
    assert_eq!(
        error,
        "task-state schema `sequence_state` version 1 targets missing task `missing_task`"
    );
}

#[test]
fn matching_cadence_state_is_bound_to_its_owner_once() {
    let schema = TaskStateSchema { id: "cadence_state", version: 2 };
    let state = schema.declare(
        "control_loop",
        vec![
            TaskStateField::new(
                "samples_per_control_loop",
                TaskStateRole::SamplesPerControlLoop,
                TaskStateRecipe::U32(2),
            ),
            TaskStateField::new("armed", TaskStateRole::ImuLastSequence, TaskStateRecipe::Bool(false)),
        ],
    );
    let (control, task) = control_with_loop();
    let mut tasks = vec![plain_task("other"), task];
    tasks[1].local.push(ResolvedResourceBinding {
        logical: "armed",
        target: "armed".to_owned(),
    });
    let resolved = resolve_task_state(&vec![state], &mut tasks, &vec![control]).unwrap();
    assert_eq!(resolved.len(), 2);
    assert_eq!(resolved[0].id, "samples_per_control_loop");
    assert_eq!(resolved[0].owner_task, "control_loop");
    assert_eq!(resolved[1].recipe, TaskStateRecipe::Bool(false));
    let targets: Vec<&str> = tasks[1].local.iter().map(|b| b.target.as_str()).collect();
    assert_eq!(
        targets,
        ["control_scheduler", "control_phase", "armed", "samples_per_control_loop"]
    );
    assert!(tasks[0].local.is_empty());
}

#[test]
fn state_name_taken_by_another_binding_collides() {
    let schema = TaskStateSchema { id: "sequence_state", version: 1 };
    let state = schema.declare(
        "imu_bridge",
        vec![TaskStateField::new(
            "control_phase",
            TaskStateRole::ImuLastSequence,
            TaskStateRecipe::U32(0),
        )],
    );
    let mut task = plain_task("imu_bridge");
    task.local.push(ResolvedResourceBinding { logical: "phase", target: "control_phase".to_owned() });
    let mut tasks = vec![task];
    assert_eq!(
        resolve_task_state(&vec![state], &mut tasks, &Vec::new()).unwrap_err(),
        "task-state field `control_phase` collides with an existing local binding on task `imu_bridge`"
    );
}
