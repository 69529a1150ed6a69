//! Board hardware declarations consumed by components and tasks.

use vstd::prelude::*;

use crate::dma_route::DmaRoute;
use crate::gpio::{GpioHardwareDeclaration, InterruptEdge};
use crate::hardware_lowering::McuDevice;
use crate::initialization::ClockSource;
use crate::pins::PinId;
use crate::platform_config::ImuInstallationId;
use crate::serial_endpoint::SerialHardwareDeclaration;
use crate::task::FrameRotation;
use crate::text::str_eq;

verus! {

/// General-purpose or basic timer peripherals a board can hand to components.
#[derive(Clone, Copy, Debug, PartialEq, Eq, Structural, PartialOrd, Ord)]
pub enum TimerPeripheral {
    /// TIM2.
    Tim2,
    /// TIM4.
    Tim4,
    /// TIM5.
    Tim5,
    /// TIM6.
    Tim6,
}

/// Number in the timer peripheral's name.
pub open spec fn timer_number(p: TimerPeripheral) -> nat {
    match p {
        TimerPeripheral::Tim2 => 2,
        TimerPeripheral::Tim4 => 4,
        TimerPeripheral::Tim5 => 5,
        TimerPeripheral::Tim6 => 6,
    }
}

/// Interrupt vector of a timer's update event.
pub open spec fn spec_update_interrupt(p: TimerPeripheral) -> Seq<char> {
    match p {
        TimerPeripheral::Tim2 => "TIM2"@,
        TimerPeripheral::Tim4 => "TIM4"@,
        TimerPeripheral::Tim5 => "TIM5"@,
        TimerPeripheral::Tim6 => "TIM6_DAC"@,
    }
}

/// Interrupt vector of a timer's update event.
pub fn update_interrupt(p: TimerPeripheral) -> (r: &'static str)
    ensures
        r@ == spec_update_interrupt(p),
{
    match p {
        TimerPeripheral::Tim2 => "TIM2",
        TimerPeripheral::Tim4 => "TIM4",
        TimerPeripheral::Tim5 => "TIM5",
        TimerPeripheral::Tim6 => "TIM6_DAC",
    }
}

/// One named timer physically available on a board.
#[derive(Clone, Copy, Debug)]
pub struct TimerHardwareDeclaration {
    /// Stable board-local identifier.
    pub id: &'static str,
    /// Timer peripheral.
    pub peripheral: TimerPeripheral,
}

/// SPI peripherals.
#[derive(Clone, Copy, Debug, PartialEq, Eq, Structural, PartialOrd, Ord)]
pub enum SpiPeripheral {
    /// SPI1.
    Spi1,
    /// SPI2.
    Spi2,
    /// SPI3.
    Spi3,
}

/// Physical SPI bus: peripheral, pins, and DMA routes.
#[derive(Clone, Copy, Debug)]
pub struct SpiBus {
    /// SPI peripheral.
    pub peripheral: SpiPeripheral,
    /// Clock pin.
    pub sck: PinId,
    /// Controller-in pin.
    pub miso: PinId,
    /// Controller-out pin.
    pub mosi: PinId,
    /// Receive DMA route.
    pub dma_rx: DmaRoute,
    /// Transmit DMA route.
    pub dma_tx: DmaRoute,
}

/// One IMU physically installed on a SPI bus.
#[derive(Clone, Copy, Debug)]
pub struct ImuInstallationDeclaration {
    /// Board-local installation number.
    pub id: ImuInstallationId,
    /// Chip-select pin.
    pub chip_select: PinId,
    /// Data-ready interrupt pin.
    pub data_ready: PinId,
    /// Data-ready interrupt edge.
    pub data_ready_edge: InterruptEdge,
    /// Rotation from the sensor frame to the body frame.
    pub orientation: FrameRotation,
}

/// One named SPI bus and the IMUs attached to it.
#[derive(Clone, Debug)]
pub struct SpiHardwareDeclaration {
    /// Stable board-local identifier.
    pub id: &'static str,
    /// Physical bus.
    pub bus: SpiBus,
    /// IMU installations attached to the bus.
    pub imu: Vec<ImuInstallationDeclaration>,
}

/// Microcontroller of a board and the clock it runs from.
#[derive(Clone, Copy, Debug, PartialEq, Eq, Structural)]
pub struct McuDeclaration {
    /// Device.
    pub device: McuDevice,
    /// Oscillator feeding the system clock.
    pub clock: ClockSource,
    /// System clock frequency in hertz.
    pub system_clock_hz: u32,
}

/// Physical facts of one board that applications may consume.
#[derive(Clone, Debug)]
pub struct BoardDeclaration {
    /// Stable board identifier.
    pub id: &'static str,
    /// Microcontroller and system clock.
    pub mcu: McuDeclaration,
    /// Named GPIO resources.
    pub gpio: Vec<GpioHardwareDeclaration>,
    /// Named timers.
    pub timers: Vec<TimerHardwareDeclaration>,
    /// Named SPI buses.
    pub spi: Vec<SpiHardwareDeclaration>,
    /// Named serial ports.
    pub serial: Vec<SerialHardwareDeclaration>,
}

/// First timer at or after index `i` whose identifier is `id`.
pub open spec fn timer_from(ts: Seq<TimerHardwareDeclaration>, id: Seq<char>, i: int) -> Option<
    TimerHardwareDeclaration,
>
    decreases ts.len() - i,
{
    if i < 0 || i >= ts.len() {
        None
    } else if ts[i].id@ == id {
        Some(ts[i])
    } else {
        timer_from(ts, id, i + 1)
    }
}

/// First GPIO at or after index `i` whose identifier is `id`.
pub open spec fn gpio_from(gs: Seq<GpioHardwareDeclaration>, id: Seq<char>, i: int) -> Option<
    GpioHardwareDeclaration,
>
    decreases gs.len() - i,
{
    if i < 0 || i >= gs.len() {
        None
    } else if gs[i].id@ == id {
        Some(gs[i])
    } else {
        gpio_from(gs, id, i + 1)
    }
}

/// Index of the first SPI bus at or after index `i` whose identifier is `id`.
pub open spec fn spi_index_from(ss: Seq<SpiHardwareDeclaration>, id: Seq<char>, i: int) -> Option<
    int,
>
    decreases ss.len() - i,
{
    if i < 0 || i >= ss.len() {
        None
    } else if ss[i].id@ == id {
        Some(i)
    } else {
        spi_index_from(ss, id, i + 1)
    }
}

/// The board timer named `id`, if any (the first declared one).
pub open spec fn board_timer(b: BoardDeclaration, id: Seq<char>) -> Option<TimerHardwareDeclaration> {
    timer_from(b.timers@, id, 0)
}

/// The board GPIO named `id`, if any (the first declared one).
pub open spec fn board_gpio(b: BoardDeclaration, id: Seq<char>) -> Option<GpioHardwareDeclaration> {
    gpio_from(b.gpio@, id, 0)
}

/// First serial port at or after index `i` whose identifier is `id`.
pub open spec fn serial_from(ss: Seq<SerialHardwareDeclaration>, id: Seq<char>, i: int) -> Option<
    SerialHardwareDeclaration,
>
    decreases ss.len() - i,
{
    if i < 0 || i >= ss.len() {
        None
    } else if ss[i].id@ == id {
        Some(ss[i])
    } else {
        serial_from(ss, id, i + 1)
    }
}

/// The board serial port named `id`, if any (the first declared one).
pub open spec fn board_serial(b: BoardDeclaration, id: Seq<char>) -> Option<SerialHardwareDeclaration> {
    serial_from(b.serial@, id, 0)
}

/// The board SPI bus named `id`, if any (the first declared one).
pub open spec fn board_spi(b: BoardDeclaration, id: Seq<char>) -> Option<SpiHardwareDeclaration> {
    match spi_index_from(b.spi@, id, 0) {
        Some(i) => Some(b.spi@[i]),
        None => None,
    }
}

/// Every timer before index `i` has an identifier other than `id`.
proof fn lemma_timer_from_skip(ts: Seq<TimerHardwareDeclaration>, id: Seq<char>, i: int)
    requires
        0 <= i <= ts.len(),
        forall|j: int| 0 <= j < i ==> ts[j].id@ != id,
    ensures
        timer_from(ts, id, 0) == timer_from(ts, id, i),
    decreases i,
{
    if i > 0 {
        lemma_timer_from_skip(ts, id, i - 1);
    }
}

proof fn lemma_gpio_from_skip(gs: Seq<GpioHardwareDeclaration>, id: Seq<char>, i: int)
    requires
        0 <= i <= gs.len(),
        forall|j: int| 0 <= j < i ==> gs[j].id@ != id,
    ensures
        gpio_from(gs, id, 0) == gpio_from(gs, id, i),
    decreases i,
{
    if i > 0 {
        lemma_gpio_from_skip(gs, id, i - 1);
    }
}

proof fn lemma_spi_from_skip(ss: Seq<SpiHardwareDeclaration>, id: Seq<char>, i: int)
    requires
        0 <= i <= ss.len(),
        forall|j: int| 0 <= j < i ==> ss[j].id@ != id,
    ensures
        spi_index_from(ss, id, 0) == spi_index_from(ss, id, i),
    decreases i,
{
    if i > 0 {
        lemma_spi_from_skip(ss, id, i - 1);
    }
}

impl BoardDeclaration {
    /// Returns the board timer named `id`.
    pub fn timer(&self, id: &str) -> (r: Option<TimerHardwareDeclaration>)
        ensures
            r == board_timer(*self, id@),
    {
        let mut i: usize = 0;
        while i < self.timers.len()
            invariant
                i <= self.timers@.len(),
                forall|j: int| 0 <= j < i ==> self.timers@[j].id@ != id@,
            decreases self.timers@.len() - i,
        {
            if str_eq(self.timers[i].id, id) {
                proof {
                    lemma_timer_from_skip(self.timers@, id@, i as int);
                }
                return Some(self.timers[i]);
            }
            i = i + 1;
        }
        proof {
            lemma_timer_from_skip(self.timers@, id@, i as int);
        }
        None
    }

    /// Returns the board GPIO named `id`.
    pub fn gpio(&self, id: &str) -> (r: Option<GpioHardwareDeclaration>)
        ensures
            r == board_gpio(*self, id@),
    {
        let mut i: usize = 0;
        while i < self.gpio.len()
            invariant
                i <= self.gpio@.len(),
                forall|j: int| 0 <= j < i ==> self.gpio@[j].id@ != id@,
            decreases self.gpio@.len() - i,
        {
            if str_eq(self.gpio[i].id, id) {
                proof {
                    lemma_gpio_from_skip(self.gpio@, id@, i as int);
                }
                return Some(self.gpio[i]);
            }
            i = i + 1;
        }
        proof {
            lemma_gpio_from_skip(self.gpio@, id@, i as int);
        }
        None
    }

    /// Returns the board serial port named `id`.
    pub fn serial(&self, id: &str) -> (r: Option<SerialHardwareDeclaration>)
        ensures
            r == board_serial(*self, id@),
    {
        let mut i: usize = 0;
        while i < self.serial.len()
            invariant
                i <= self.serial@.len(),
                board_serial(*self, id@) == serial_from(self.serial@, id@, i as int),
            decreases self.serial@.len() - i,
        {
            if str_eq(self.serial[i].id, id) {
                return Some(self.serial[i]);
            }
            i = i + 1;
        }
        None
    }

    /// Returns the board SPI bus named `id`.
    pub fn spi(&self, id: &str) -> (r: Option<&SpiHardwareDeclaration>)
        ensures
            match r {
                Some(s) => board_spi(*self, id@) == Some(*s),
                None => board_spi(*self, id@) is None,
            },
    {
        let mut i: usize = 0;
        while i < self.spi.len()
            invariant
                i <= self.spi@.len(),
                forall|j: int| 0 <= j < i ==> self.spi@[j].id@ != id@,
            decreases self.spi@.len() - i,
        {
            if str_eq(self.spi[i].id, id) {
                proof {
                    lemma_spi_from_skip(self.spi@, id@, i as int);
                }
                return Some(&self.spi[i]);
            }
            i = i + 1;
        }
        proof {
            lemma_spi_from_skip(self.spi@, id@, i as int);
        }
        None
    }
}

/// First installation, from `j` on, with the given installation number.
pub open spec fn imu_from(imus: Seq<ImuInstallationDeclaration>, id: ImuInstallationId, j: int) -> Option<
    ImuInstallationDeclaration,
>
    decreases imus.len() - j,
{
    if j < 0 || j >= imus.len() {
        None
    } else if imus[j].id == id {
        Some(imus[j])
    } else {
        imu_from(imus, id, j + 1)
    }
}

impl SpiHardwareDeclaration {
    /// Returns the IMU installation with the given number.
    pub fn imu(&self, id: ImuInstallationId) -> (r: Option<ImuInstallationDeclaration>)
        ensures
            r == imu_from(self.imu@, id, 0),
    {
        let mut j: usize = 0;
        while j < self.imu.len()
            invariant
                j <= self.imu@.len(),
                imu_from(self.imu@, id, 0) == imu_from(self.imu@, id, j as int),
            decreases self.imu@.len() - j,
        {
            if self.imu[j].id == id {
                return Some(self.imu[j]);
            }
            j = j + 1;
        }
        None
    }
}

} // verus!
