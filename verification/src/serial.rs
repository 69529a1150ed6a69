//! STM32F4 serial peripherals.

use vstd::prelude::*;

verus! {

/// One STM32F4 USART or UART peripheral.
#[derive(Clone, Copy, Debug, PartialEq, Eq, Structural)]
pub enum SerialPeripheral {
    /// USART1.
    Usart1,
    /// USART2.
    Usart2,
    /// USART3.
    Usart3,
    /// UART4.
    Uart4,
    /// UART5.
    Uart5,
    /// USART6.
    Usart6,
    /// UART7.
    Uart7,
    /// UART8.
    Uart8,
}

/// Number in the peripheral's name.
pub open spec fn serial_number(p: SerialPeripheral) -> nat {
    match p {
        SerialPeripheral::Usart1 => 1,
        SerialPeripheral::Usart2 => 2,
        SerialPeripheral::Usart3 => 3,
        SerialPeripheral::Uart4 => 4,
        SerialPeripheral::Uart5 => 5,
        SerialPeripheral::Usart6 => 6,
        SerialPeripheral::Uart7 => 7,
        SerialPeripheral::Uart8 => 8,
    }
}

/// The peripheral is an asynchronous-only UART rather than a USART.
pub open spec fn is_uart(p: SerialPeripheral) -> bool {
    p is Uart4 || p is Uart5 || p is Uart7 || p is Uart8
}

} // verus!
