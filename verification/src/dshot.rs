//! Typed physical declarations for a four-lane STM32F405 DShot bank.

use vstd::prelude::*;

use crate::dma_route::DmaRoute;
use crate::pins::PinId;

verus! {

/// One advanced-timer output supported by the reviewed four-lane backend.
#[derive(Clone, Copy, Debug, PartialEq, Eq, Structural, PartialOrd, Ord)]
pub enum DshotTimerChannel {
    /// TIM1 channel 1 main output.
    Tim1Ch1,
    /// TIM8 channel 4 main output.
    Tim8Ch4,
    /// TIM8 channel 3 main output.
    Tim8Ch3,
    /// TIM1 channel 3 complementary output.
    Tim1Ch3N,
}

/// GPIO alternate function that routes a timer channel to its pad.
pub open spec fn spec_alternate_function(channel: DshotTimerChannel) -> u8 {
    match channel {
        DshotTimerChannel::Tim1Ch1 | DshotTimerChannel::Tim1Ch3N => 1,
        DshotTimerChannel::Tim8Ch4 | DshotTimerChannel::Tim8Ch3 => 3,
    }
}

impl DshotTimerChannel {
    /// Whether the physical pad uses the advanced timer's complementary output.
    pub fn is_complementary(self) -> (r: bool)
        ensures
            r == (self == DshotTimerChannel::Tim1Ch3N),
    {
        match self {
            DshotTimerChannel::Tim1Ch3N => true,
            _ => false,
        }
    }

    /// GPIO alternate-function number required by this timer channel.
    pub fn alternate_function(self) -> (r: u8)
        ensures
            r == spec_alternate_function(self),
    {
        match self {
            DshotTimerChannel::Tim1Ch1 | DshotTimerChannel::Tim1Ch3N => 1,
            DshotTimerChannel::Tim8Ch4 | DshotTimerChannel::Tim8Ch3 => 3,
        }
    }
}

/// One physical DShot lane, before any airframe motor remapping.
#[derive(Clone, Copy, Debug, PartialEq, Eq, Structural)]
pub struct DshotLaneHardwareDeclaration {
    /// One-based physical output number.
    pub physical_output: u8,
    /// One-based logical motor selected by the board map.
    pub logical_motor: u8,
    /// Advanced timer output driving the pad.
    pub timer_channel: DshotTimerChannel,
    /// Package pin carrying the signal.
    pub pin: PinId,
    /// Fixed memory-to-peripheral DMA request route.
    pub dma: DmaRoute,
}

impl DshotLaneHardwareDeclaration {
    /// Creates one fully specified physical DShot lane.
    pub fn new(
        physical_output: u8,
        logical_motor: u8,
        timer_channel: DshotTimerChannel,
        pin: PinId,
        dma: DmaRoute,
    ) -> (r: Self)
        ensures
            r.physical_output == physical_output,
            r.logical_motor == logical_motor,
            r.timer_channel == timer_channel,
            r.pin == pin,
            r.dma == dma,
    {
        DshotLaneHardwareDeclaration { physical_output, logical_motor, timer_channel, pin, dma }
    }
}

/// One indivisible four-lane DShot hardware containment unit.
#[derive(Clone, Copy, Debug)]
pub struct DshotBankHardwareDeclaration {
    /// Stable board-local hardware identifier.
    pub id: &'static str,
    /// Physical lanes in output order 1 through 4.
    pub lanes: [DshotLaneHardwareDeclaration; 4],
    /// Whether TIM1 is the frame master and TIM8 is started through ITR0.
    pub tim1_frame_master_with_tim8_itr0: bool,
}

impl DshotBankHardwareDeclaration {
    /// Creates a physical four-lane bank declaration with TIM1 as frame master.
    pub fn new(id: &'static str, lanes: [DshotLaneHardwareDeclaration; 4]) -> (r: Self)
        ensures
            r.id == id,
            r.lanes == lanes,
            r.tim1_frame_master_with_tim8_itr0,
    {
        DshotBankHardwareDeclaration { id, lanes, tim1_frame_master_with_tim8_itr0: true }
    }
}

} // verus!
