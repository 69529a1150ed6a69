//! Physical STM32 GPIO pin coordinates.

use vstd::prelude::*;

verus! {

/// One STM32 GPIO port.
#[derive(Clone, Copy, Debug, PartialEq, Eq, Structural, PartialOrd, Ord)]
pub enum GpioPort {
    /// Port A.
    A,
    /// Port B.
    B,
    /// Port C.
    C,
    /// Port D.
    D,
    /// Port E.
    E,
    /// Port F.
    F,
    /// Port G.
    G,
    /// Port H.
    H,
    /// Port I.
    I,
    /// Port J.
    J,
    /// Port K.
    K,
}

/// One physical package pin: a port and a pin number from 0 through 15.
#[derive(Clone, Copy, Debug, PartialEq, Eq, Structural, PartialOrd, Ord)]
pub struct PinId {
    /// GPIO port.
    pub port: GpioPort,
    /// Pin number within the port.
    pub pin: u8,
}

impl PinId {
    /// Creates a pin coordinate; the pin number must be a valid STM32 line.
    pub fn new(port: GpioPort, pin: u8) -> (r: Self)
        requires
            pin < 16,
        ensures
            r.port == port,
            r.pin == pin,
    {
        PinId { port, pin }
    }
}

/// Name of a port as written in diagnostics (`A` through `K`).
pub open spec fn port_name(port: GpioPort) -> Seq<char> {
    match port {
        GpioPort::A => "A"@,
        GpioPort::B => "B"@,
        GpioPort::C => "C"@,
        GpioPort::D => "D"@,
        GpioPort::E => "E"@,
        GpioPort::F => "F"@,
        GpioPort::G => "G"@,
        GpioPort::H => "H"@,
        GpioPort::I => "I"@,
        GpioPort::J => "J"@,
        GpioPort::K => "K"@,
    }
}

impl GpioPort {
    /// Name of this port (`A` through `K`).
    pub fn name(self) -> (r: &'static str)
        ensures
            r@ == port_name(self),
    {
        match self {
            GpioPort::A => "A",
            GpioPort::B => "B",
            GpioPort::C => "C",
            GpioPort::D => "D",
            GpioPort::E => "E",
            GpioPort::F => "F",
            GpioPort::G => "G",
            GpioPort::H => "H",
            GpioPort::I => "I",
            GpioPort::J => "J",
            GpioPort::K => "K",
        }
    }
}

} // verus!
