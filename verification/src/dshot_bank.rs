//! Host-side shape of the physical DShot motor bank that reusable actuator
//! task bodies are written against: every command is accepted, and the
//! bank reports quiet progress.

use vstd::prelude::*;

verus! {

/// One of the four DShot motor outputs.
#[derive(Clone, Copy, Debug, PartialEq, Eq, Structural)]
pub enum DshotMotor {
    /// First motor output.
    Motor1,
    /// Second motor output.
    Motor2,
    /// Third motor output.
    Motor3,
    /// Fourth motor output.
    Motor4,
}

/// Outcome of servicing one motor's DMA interrupt.
#[derive(Clone, Copy, Debug, PartialEq, Eq, Structural)]
pub enum DshotInterruptEvent {
    /// The frame transfer completed.
    Completed,
    /// The transfer faulted.
    Faulted,
    /// The interrupt had no pending transfer.
    Spurious,
}

/// Outcome of one periodic bank service step.
#[derive(Clone, Copy, Debug, PartialEq, Eq, Structural)]
pub enum DshotServiceEvent {
    /// A new frame was started.
    FrameStarted,
    /// A frame is still in flight.
    Busy,
    /// The throttle lease expired and outputs stopped.
    LeaseExpired,
    /// The bank is faulted.
    Faulted,
}

/// Why a telemetry request was refused.
#[derive(Clone, Copy, Debug, PartialEq, Eq, Structural)]
pub enum DshotTelemetryRequestError {
    /// Another request is pending.
    Busy,
    /// The bank is faulted.
    Faulted,
}

/// Why a throttle command was refused.
#[derive(Clone, Copy, Debug, PartialEq, Eq, Structural)]
pub enum DshotCommandError {
    /// A throttle lies outside the DShot range.
    ThrottleOutOfRange,
    /// The bank is faulted.
    Faulted,
}

/// Host-side motor bank: accepts every command and reports quiet progress.
#[derive(Clone, Copy, Debug)]
pub struct DshotMotorBank {}

impl DshotMotorBank {
    /// Stops every motor output.
    pub fn command_stop(&mut self)
        ensures
            *final(self) == *old(self),
    {
    }

    /// Commands four throttles under a lease; always accepted.
    pub fn command_throttles(&mut self, commands: [u16; 4], now_ms: u32, lease_duration_ms: u32) -> (r:
        Result<(), DshotCommandError>)
        ensures
            r is Ok,
    {
        Ok(())
    }

    /// Requests telemetry from one motor; always accepted.
    pub fn request_telemetry(&mut self, motor: DshotMotor) -> (r: Result<(), DshotTelemetryRequestError>)
        ensures
            r is Ok,
    {
        Ok(())
    }

    /// Services the bank once; always starts a frame.
    pub fn service(&mut self, now_ms: u32) -> (r: DshotServiceEvent)
        ensures
            r == DshotServiceEvent::FrameStarted,
    {
        DshotServiceEvent::FrameStarted
    }

    /// Takes the motor whose telemetry request went out; there never is one.
    pub fn take_telemetry_request_sent(&mut self) -> (r: Option<DshotMotor>)
        ensures
            r is None,
    {
        None
    }

    /// Services one motor's DMA interrupt; always completes.
    pub fn on_dma_interrupt(&mut self, motor: DshotMotor) -> (r: DshotInterruptEvent)
        ensures
            r == DshotInterruptEvent::Completed,
    {
        DshotInterruptEvent::Completed
    }
}

} // verus!
