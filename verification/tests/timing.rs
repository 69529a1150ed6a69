use app_builder::timing::{validate, validate_init_delay, InitDelayDeclaration, MonotonicDeclaration};

#[test]
fn valid_systick_frequency_is_accepted() {
    validate(MonotonicDeclaration::systick(1_000)).unwrap();
}

#[test]
fn zero_systick_frequency_is_rejected() {
    let error = validate(MonotonicDeclaration::systick(0)).unwrap_err();
    assert_eq!(error, "monotonic tick frequency must be nonzero");
}

#[test]
fn valid_timer_microsecond_frequency_is_accepted() {
    validate(MonotonicDeclaration::timer("tim2", 1_000_000)).unwrap();
}

#[test]
fn zero_timer_frequency_is_rejected() {
    let error = validate(MonotonicDeclaration::timer("tim2", 0)).unwrap_err();
    assert_eq!(error, "monotonic tick frequency must be nonzero");
}

#[test]
fn zero_initialization_delay_frequency_is_rejected() {
    let error = validate_init_delay(InitDelayDeclaration::timer("tim5", 0)).unwrap_err();
    assert_eq!(error, "initialization delay tick frequency must be nonzero");
}

#[test]
fn nonzero_initialization_delay_frequency_is_accepted() {
    validate_init_delay(InitDelayDeclaration::timer("tim5", 1_000_000)).unwrap();
}

#[test]
fn monotonic_accessors_report_frequency_and_timer() {
    assert_eq!(MonotonicDeclaration::systick(1_000).tick_hz(), 1_000);
    assert_eq!(MonotonicDeclaration::systick(1_000).hardware_id(), None);
    let timer = MonotonicDeclaration::timer("tim2", 1_000_000);
    assert_eq!(timer.tick_hz(), 1_000_000);
    assert_eq!(timer.hardware_id(), Some("tim2"));
}
