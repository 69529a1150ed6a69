use app_builder::button_exti::{button_exti, ExtiButton};

#[test]
fn pending_interrupt_is_cleared_and_shared_state_is_toggled() {
    let mut button = ExtiButton { pending: true };
    let mut enabled = false;

    button_exti(&mut button, &mut enabled, true);

    assert!(!button.pending);
    assert!(enabled);
}

#[test]
fn spurious_entry_leaves_resources_unchanged() {
    let mut button = ExtiButton { pending: false };
    let mut enabled = false;

    button_exti(&mut button, &mut enabled, true);

    assert!(!button.pending);
    assert!(!enabled);
}

#[test]
fn press_announces_the_toggled_state() {
    let mut button = ExtiButton { pending: true };
    let mut enabled = true;

    let spawned = button_exti(&mut button, &mut enabled, true);

    assert_eq!(spawned, Some(false));
    assert!(!enabled);
}

#[test]
fn press_without_toggle_clears_pending_and_keeps_state() {
    let mut button = ExtiButton { pending: true };
    let mut enabled = true;

    let spawned = button_exti(&mut button, &mut enabled, false);

    assert!(!button.pending);
    assert!(enabled);
    assert_eq!(spawned, Some(true));
}

#[test]
fn spurious_entry_spawns_nothing() {
    let mut button = ExtiButton { pending: false };
    let mut enabled = true;
    assert_eq!(button_exti(&mut button, &mut enabled, true), None);
    assert!(enabled);
}
