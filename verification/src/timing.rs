//! Application timing declarations used by generated RTIC apps.

use vstd::prelude::*;

verus! {

/// Monotonic timer selected by an application composition.
#[derive(Clone, Copy, Debug)]
pub enum MonotonicDeclaration {
    /// Cortex-M SysTick monotonic exposed to task bodies as `Mono`.
    SysTick {
        /// Number of monotonic ticks per second.
        tick_hz: u32,
    },
    /// Board-declared timer exposed to task bodies as `Mono`.
    Timer {
        /// Stable board timer identifier.
        hardware_id: &'static str,
        /// Number of monotonic ticks per second.
        tick_hz: u32,
    },
}

/// Tick frequency of a monotonic declaration.
pub open spec fn spec_tick_hz(m: MonotonicDeclaration) -> u32 {
    match m {
        MonotonicDeclaration::SysTick { tick_hz } => tick_hz,
        MonotonicDeclaration::Timer { tick_hz, .. } => tick_hz,
    }
}

/// Message given when a monotonic has no ticks.
pub open spec fn zero_monotonic_message() -> Seq<char> {
    "monotonic tick frequency must be nonzero"@
}

/// Message given when an initialization delay has no ticks.
pub open spec fn zero_init_delay_message() -> Seq<char> {
    "initialization delay tick frequency must be nonzero"@
}

impl MonotonicDeclaration {
    /// Selects a SysTick monotonic with the supplied tick frequency.
    pub fn systick(tick_hz: u32) -> (r: Self)
        ensures
            r == (MonotonicDeclaration::SysTick { tick_hz }),
    {
        MonotonicDeclaration::SysTick { tick_hz }
    }

    /// Selects a named board timer as the application-wide monotonic.
    pub fn timer(hardware_id: &'static str, tick_hz: u32) -> (r: Self)
        ensures
            r == (MonotonicDeclaration::Timer { hardware_id, tick_hz }),
    {
        MonotonicDeclaration::Timer { hardware_id, tick_hz }
    }

    /// Returns the configured monotonic tick frequency.
    pub fn tick_hz(self) -> (r: u32)
        ensures
            r == spec_tick_hz(self),
    {
        match self {
            MonotonicDeclaration::SysTick { tick_hz } => tick_hz,
            MonotonicDeclaration::Timer { tick_hz, .. } => tick_hz,
        }
    }

    /// Returns the named board timer consumed by this declaration, if any.
    pub fn hardware_id(self) -> (r: Option<&'static str>)
        ensures
            match self {
                MonotonicDeclaration::SysTick { .. } => r is None,
                MonotonicDeclaration::Timer { hardware_id, .. } => r == Some(hardware_id),
            },
    {
        match self {
            MonotonicDeclaration::SysTick { .. } => None,
            MonotonicDeclaration::Timer { hardware_id, .. } => Some(hardware_id),
        }
    }
}

/// Board timer made available as a general synchronous initialization delay.
#[derive(Clone, Copy, Debug)]
pub struct InitDelayDeclaration {
    /// Stable board timer identifier.
    pub hardware_id: &'static str,
    /// Number of delay timer ticks per second.
    pub tick_hz: u32,
}

impl InitDelayDeclaration {
    /// Selects a named board timer for synchronous initialization delays.
    pub fn timer(hardware_id: &'static str, tick_hz: u32) -> (r: Self)
        ensures
            r.hardware_id == hardware_id,
            r.tick_hz == tick_hz,
    {
        InitDelayDeclaration { hardware_id, tick_hz }
    }
}

/// Accepts a monotonic exactly when it ticks at a nonzero frequency.
pub fn validate(monotonic: MonotonicDeclaration) -> (r: Result<(), String>)
    ensures
        r is Ok <==> spec_tick_hz(monotonic) != 0,
        r matches Err(e) ==> e@ == zero_monotonic_message(),
{
    if monotonic.tick_hz() == 0 {
        return Err(String::from_str("monotonic tick frequency must be nonzero"));
    }
    Ok(())
}

/// Accepts an initialization delay exactly when it ticks at a nonzero frequency.
pub fn validate_init_delay(delay: InitDelayDeclaration) -> (r: Result<(), String>)
    ensures
        r is Ok <==> delay.tick_hz != 0,
        r matches Err(e) ==> e@ == zero_init_delay_message(),
{
    if delay.tick_hz == 0 {
        return Err(String::from_str("initialization delay tick frequency must be nonzero"));
    }
    Ok(())
}

} // verus!
