use app_builder::board::McuDeclaration;
use app_builder::hardware_lowering::McuDevice;
use app_builder::initialization::ClockSource;
use app_builder::board::{BoardDeclaration, TimerHardwareDeclaration, TimerPeripheral};
use app_builder::periodic_control::{
    acknowledge_control_tick, periodic_control_resources, periodic_control_tick,
    periodic_control_timer, resource_suffix, validate, ControlScheduler,
    PeriodicControlDeclaration, PeriodicControlResourceRole,
};

fn board() -> BoardDeclaration {
    BoardDeclaration {
        mcu: McuDeclaration { device: McuDevice::Stm32f405, clock: ClockSource::Hsi, system_clock_hz: 16_000_000 },
        id: "foxeer_f405_v2",
        gpio: Vec::new(),
        timers: vec![
            TimerHardwareDeclaration {
                id: "tim4",
                peripheral: TimerPeripheral::Tim4,
            },
            TimerHardwareDeclaration {
                id: "tim5",
                peripheral: TimerPeripheral::Tim5,
            },
        ],
        spi: Vec::new(),
        serial: Vec::new(),
    }
}

fn control(scheduler_hz: u32, control_hz: u32) -> PeriodicControlDeclaration {
    periodic_control_timer()
        .declare("control", "tim4")
        .scheduler_hz(scheduler_hz)
        .control_hz(control_hz)
        .interrupt_priority(14)
}

#[test]
fn declaration_preserves_the_golden_frequency_ratio() {
    let declaration = control(800, 400);

    validate(&declaration, &board()).unwrap();
    assert_eq!(declaration.ticks_per_control(), 2);
}

#[test]
fn declaration_rejects_non_integral_control_cadence() {
    let declaration = control(800, 333);

    assert!(validate(&declaration, &board())
        .unwrap_err()
        .contains("integer multiple"));
}

#[test]
fn declaration_rejects_zero_or_inverted_frequencies() {
    let zero = control(0, 400);
    let inverted = control(400, 800);

    assert!(validate(&zero, &board()).unwrap_err().contains("nonzero"));
    assert!(validate(&inverted, &board())
        .unwrap_err()
        .contains("cannot exceed"));
}

#[test]
fn declaration_rejects_an_undeclared_timer_and_zero_priority() {
    let missing = periodic_control_timer()
        .declare("control", "tim9")
        .scheduler_hz(800)
        .control_hz(400)
        .interrupt_priority(14);
    assert_eq!(
        validate(&missing, &board()).unwrap_err(),
        "periodic control `control` consumes undeclared board timer `tim9`"
    );
    let unprioritized = periodic_control_timer()
        .declare("control", "tim4")
        .scheduler_hz(800)
        .control_hz(400);
    assert_eq!(
        validate(&unprioritized, &board()).unwrap_err(),
        "periodic control `control` must have a nonzero interrupt priority"
    );
}

#[test]
fn control_runs_once_every_ticks_per_control_updates() {
    let mut scheduler = ControlScheduler::new();
    let mut phase = 0u32;
    let mut steps = Vec::new();
    for _ in 0..6 {
        steps.push(periodic_control_tick(&mut scheduler, &mut phase, 3));
    }
    assert_eq!(steps, vec![false, false, true, false, false, true]);
    assert_eq!(scheduler.acknowledged_ticks(), 6);
    assert_eq!(phase, 0);
}

#[test]
fn acknowledged_ticks_wrap_at_the_counter_limit() {
    let mut scheduler = ControlScheduler {
        acknowledged_ticks: u32::MAX,
    };
    acknowledge_control_tick(&mut scheduler);
    assert_eq!(scheduler.acknowledged_ticks(), 0);
}

#[test]
fn timer_component_owns_scheduler_and_phase() {
    let resources = periodic_control_resources();
    assert_eq!(resources.len(), 2);
    assert_eq!(resources[0].role, PeriodicControlResourceRole::Scheduler);
    assert_eq!(resources[1].role, PeriodicControlResourceRole::Phase);
    assert_eq!(resource_suffix(PeriodicControlResourceRole::Scheduler), "scheduler");
    assert_eq!(resource_suffix(PeriodicControlResourceRole::Phase), "phase");
}

#[test]
fn every_tick_is_acknowledged_and_every_second_tick_reaches_control_cadence() {
    let mut scheduler = ControlScheduler::default();
    let mut phase = 0;

    periodic_control_tick(&mut scheduler, &mut phase, 2);
    assert_eq!(scheduler.acknowledged_ticks(), 1);
    assert_eq!(phase, 1);

    periodic_control_tick(&mut scheduler, &mut phase, 2);
    assert_eq!(scheduler.acknowledged_ticks(), 2);
    assert_eq!(phase, 0);
}
