//! STM32F4 DMA route identifiers.
//!
//! A DMA route is the controller, stream, and request channel selected for a
//! peripheral transfer. These types describe the route without owning a DMA
//! stream or configuring a transfer.

use vstd::prelude::*;

verus! {

/// Identifies one STM32F4 DMA controller.
#[derive(Clone, Copy, Debug, PartialEq, Eq, Structural, PartialOrd, Ord)]
pub enum DmaController {
    /// DMA controller 1.
    Dma1,
    /// DMA controller 2.
    Dma2,
}

/// Identifies one stream within an STM32F4 DMA controller.
#[derive(Clone, Copy, Debug, PartialEq, Eq, Structural, PartialOrd, Ord)]
pub enum DmaStream {
    /// DMA stream 0.
    Stream0,
    /// DMA stream 1.
    Stream1,
    /// DMA stream 2.
    Stream2,
    /// DMA stream 3.
    Stream3,
    /// DMA stream 4.
    Stream4,
    /// DMA stream 5.
    Stream5,
    /// DMA stream 6.
    Stream6,
    /// DMA stream 7.
    Stream7,
}

/// Identifies an STM32F4 DMA request channel selected by a stream.
#[derive(Clone, Copy, Debug, PartialEq, Eq, Structural, PartialOrd, Ord)]
pub enum DmaChannel {
    /// DMA request channel 0.
    Channel0,
    /// DMA request channel 1.
    Channel1,
    /// DMA request channel 2.
    Channel2,
    /// DMA request channel 3.
    Channel3,
    /// DMA request channel 4.
    Channel4,
    /// DMA request channel 5.
    Channel5,
    /// DMA request channel 6.
    Channel6,
    /// DMA request channel 7.
    Channel7,
}

/// Identifies a concrete STM32F4 DMA route.
///
/// A route records the selected DMA hardware. It does not prove that the
/// route is valid for a specific peripheral or that it is not already claimed
/// by another declaration.
#[derive(Clone, Copy, Debug, PartialEq, Eq, Structural, PartialOrd, Ord)]
pub struct DmaRoute {
    /// DMA controller that owns the stream.
    pub controller: DmaController,
    /// DMA stream allocated to the transfer.
    pub stream: DmaStream,
    /// Peripheral request channel selected for the stream.
    pub channel: DmaChannel,
}

/// One-based controller number used in reference-manual names.
pub open spec fn controller_number(c: DmaController) -> nat {
    match c {
        DmaController::Dma1 => 1,
        DmaController::Dma2 => 2,
    }
}

/// Stream index within its controller.
pub open spec fn stream_number(s: DmaStream) -> nat {
    match s {
        DmaStream::Stream0 => 0,
        DmaStream::Stream1 => 1,
        DmaStream::Stream2 => 2,
        DmaStream::Stream3 => 3,
        DmaStream::Stream4 => 4,
        DmaStream::Stream5 => 5,
        DmaStream::Stream6 => 6,
        DmaStream::Stream7 => 7,
    }
}

/// Request-channel index.
pub open spec fn channel_number(c: DmaChannel) -> nat {
    match c {
        DmaChannel::Channel0 => 0,
        DmaChannel::Channel1 => 1,
        DmaChannel::Channel2 => 2,
        DmaChannel::Channel3 => 3,
        DmaChannel::Channel4 => 4,
        DmaChannel::Channel5 => 5,
        DmaChannel::Channel6 => 6,
        DmaChannel::Channel7 => 7,
    }
}

impl DmaController {
    /// One-based controller number.
    pub fn number(self) -> (n: u32)
        ensures
            n == controller_number(self),
    {
        match self {
            DmaController::Dma1 => 1,
            DmaController::Dma2 => 2,
        }
    }
}

impl DmaStream {
    /// Stream index.
    pub fn number(self) -> (n: u32)
        ensures
            n == stream_number(self),
    {
        match self {
            DmaStream::Stream0 => 0,
            DmaStream::Stream1 => 1,
            DmaStream::Stream2 => 2,
            DmaStream::Stream3 => 3,
            DmaStream::Stream4 => 4,
            DmaStream::Stream5 => 5,
            DmaStream::Stream6 => 6,
            DmaStream::Stream7 => 7,
        }
    }
}

impl DmaChannel {
    /// Request-channel index.
    pub fn number(self) -> (n: u32)
        ensures
            n == channel_number(self),
    {
        match self {
            DmaChannel::Channel0 => 0,
            DmaChannel::Channel1 => 1,
            DmaChannel::Channel2 => 2,
            DmaChannel::Channel3 => 3,
            DmaChannel::Channel4 => 4,
            DmaChannel::Channel5 => 5,
            DmaChannel::Channel6 => 6,
            DmaChannel::Channel7 => 7,
        }
    }
}

impl DmaRoute {
    /// Creates an STM32F4 DMA route declaration.
    ///
    /// This constructor does not validate peripheral compatibility or check
    /// that the route is unique within a board declaration.
    pub fn new(controller: DmaController, stream: DmaStream, channel: DmaChannel) -> (r: Self)
        ensures
            r.controller == controller,
            r.stream == stream,
            r.channel == channel,
    {
        DmaRoute { controller, stream, channel }
    }
}

} // verus!
