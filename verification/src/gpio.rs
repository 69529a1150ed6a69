//! Declarative STM32F4 GPIO configuration.
//!
//! These types record board-owned electrical facts without embedding concrete
//! HAL pin types in the board declaration.

use vstd::prelude::*;

use crate::pins::PinId;

verus! {

/// Configures the internal pull resistor for a GPIO pin.
#[derive(Clone, Copy, Debug, PartialEq, Eq, Structural)]
pub enum Pull {
    /// No internal pull resistor (a floating input).
    Floating,
    /// Enable the internal pull-up resistor.
    Up,
    /// Enable the internal pull-down resistor.
    Down,
}

/// Configures the electrical output-driver mode.
#[derive(Clone, Copy, Debug, PartialEq, Eq, Structural)]
pub enum Drive {
    /// Actively drives both high and low output levels.
    PushPull,
}

/// Represents a digital GPIO logic level.
#[derive(Clone, Copy, Debug, PartialEq, Eq, Structural)]
pub enum Level {
    /// Logic-low electrical level.
    Low,
    /// Logic-high electrical level.
    High,
}

/// Selects the electrical edge that triggers a GPIO interrupt.
#[derive(Clone, Copy, Debug, PartialEq, Eq, Structural)]
pub enum InterruptEdge {
    /// Trigger when the pin transitions from low to high.
    Rising,
    /// Trigger when the pin transitions from high to low.
    Falling,
    /// Trigger on either a rising or falling transition.
    Both,
}

/// Describes external-interrupt configuration for a GPIO input.
#[derive(Clone, Copy, Debug, PartialEq, Eq, Structural)]
pub struct ExternalInterrupt {
    /// Electrical edge that triggers the interrupt.
    pub edge: InterruptEdge,
}

/// Describes whether a GPIO resource is configured as an input or output.
#[derive(Clone, Copy, Debug, PartialEq, Eq, Structural)]
pub enum GpioMode {
    /// Configure the pin as a digital input.
    Input {
        /// Optional external-interrupt configuration.
        interrupt: Option<ExternalInterrupt>,
    },
    /// Configure the pin as a digital output.
    Output {
        /// Electrical output-driver mode.
        drive: Drive,
        /// Output level applied during initialization.
        initial_level: Level,
    },
}

/// One named GPIO resource physically present on a board.
#[derive(Clone, Copy, Debug)]
pub struct GpioHardwareDeclaration {
    /// Stable identifier used by task-local composition bindings.
    pub id: &'static str,
    /// Physical pin assigned to this resource.
    pub pin: PinId,
    /// Internal pull-resistor configuration.
    pub pull: Pull,
    /// Input or output configuration applied during initialization.
    pub mode: GpioMode,
}

impl GpioHardwareDeclaration {
    /// Creates a digital input without a pull resistor or interrupt.
    pub fn input(id: &'static str, pin: PinId) -> (r: Self)
        ensures
            r.id == id,
            r.pin == pin,
            r.pull == Pull::Floating,
            r.mode == (GpioMode::Input { interrupt: None }),
    {
        GpioHardwareDeclaration { id, pin, pull: Pull::Floating, mode: GpioMode::Input { interrupt: None } }
    }

    /// Creates a push-pull digital output with the supplied initial level.
    pub fn output(id: &'static str, pin: PinId, initial_level: Level) -> (r: Self)
        ensures
            r.id == id,
            r.pin == pin,
            r.pull == Pull::Floating,
            r.mode == (GpioMode::Output { drive: Drive::PushPull, initial_level }),
    {
        GpioHardwareDeclaration {
            id,
            pin,
            pull: Pull::Floating,
            mode: GpioMode::Output { drive: Drive::PushPull, initial_level },
        }
    }

    /// Enables the internal pull-up resistor.
    pub fn pull_up(self) -> (r: Self)
        ensures
            r.id == self.id,
            r.pin == self.pin,
            r.pull == Pull::Up,
            r.mode == self.mode,
    {
        GpioHardwareDeclaration { pull: Pull::Up, ..self }
    }

    /// Enables the internal pull-down resistor.
    pub fn pull_down(self) -> (r: Self)
        ensures
            r.id == self.id,
            r.pin == self.pin,
            r.pull == Pull::Down,
            r.mode == self.mode,
    {
        GpioHardwareDeclaration { pull: Pull::Down, ..self }
    }

    /// Enables an external interrupt on an input resource.
    ///
    /// Output resources cannot take an interrupt.
    pub fn interrupt_on(self, edge: InterruptEdge) -> (r: Self)
        requires
            self.mode is Input,
        ensures
            r.id == self.id,
            r.pin == self.pin,
            r.pull == self.pull,
            r.mode == (GpioMode::Input { interrupt: Some(ExternalInterrupt { edge }) }),
    {
        GpioHardwareDeclaration {
            mode: GpioMode::Input { interrupt: Some(ExternalInterrupt { edge }) },
            ..self
        }
    }
}

} // verus!
