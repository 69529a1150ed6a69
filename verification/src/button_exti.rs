//! STM32F4 EXTI button task.

use vstd::prelude::*;

verus! {

/// Interrupt-capable button line: whether its EXTI pending bit is set.
#[derive(Clone, Copy, Debug, PartialEq, Eq, Structural)]
pub struct ExtiButton {
    /// The EXTI pending bit of the button line.
    pub pending: bool,
}

/// Handles one STM32F4 EXTI button interrupt.
///
/// A spurious entry (no pending bit) changes nothing and spawns nothing.
/// Otherwise the pending bit is cleared, the shared enabled state is toggled
/// when `toggle_on_press` is set, and the resulting state is announced to the
/// composed software task (returned as `Some`).
pub fn button_exti(button: &mut ExtiButton, enabled: &mut bool, toggle_on_press: bool) -> (spawned:
    Option<bool>)
    ensures
        !old(button).pending ==> *final(button) == *old(button) && *final(enabled) == *old(enabled)
            && spawned is None,
        old(button).pending ==> !final(button).pending && *final(enabled) == (if toggle_on_press {
            !*old(enabled)
        } else {
            *old(enabled)
        }) && spawned == Some(*final(enabled)),
{
    if !button.pending {
        return None;
    }
    button.pending = false;
    if toggle_on_press {
        *enabled = !*enabled;
    }
    Some(*enabled)
}

} // verus!
