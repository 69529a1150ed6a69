//! Authoritative, bounded safety-channel declarations.
//!
//! A safety channel has exactly one task-local producer and one task-local
//! consumer. The declaration describes topology only; generated firmware owns
//! the storage and splits it exactly once during RTIC initialization.

use vstd::prelude::*;

verus! {

/// Authoritative message families supported by the current generator.
#[derive(Clone, Copy, Debug, PartialEq, Eq, Structural)]
pub enum SafetyMessage {
    /// Complete latest valid SBUS input snapshot transferred into control.
    SbusInput,
    /// Decoded inertial sample transferred into control.
    ImuSample,
    /// Commands transferred from control to the safety-owned actuator task.
    MotorCommand,
    /// Observation-only IMU health evidence transferred into safety.
    PreArmHealth,
    /// Fresh safety-owned authority observation transferred to the actuator.
    ActuatorGuard,
    /// Actuator preparation completion or abort transferred into safety.
    ActuatorPreparation,
}

/// Stable portable identifier of a message family.
pub open spec fn spec_type_id(m: SafetyMessage) -> Seq<char> {
    match m {
        SafetyMessage::SbusInput => "sbus_input"@,
        SafetyMessage::ImuSample => "imu_sample"@,
        SafetyMessage::MotorCommand => "motor_cmd"@,
        SafetyMessage::PreArmHealth => "prearm_health"@,
        SafetyMessage::ActuatorGuard => "actuator_guard"@,
        SafetyMessage::ActuatorPreparation => "actuator_preparation"@,
    }
}

/// Concrete Rust message type of a message family.
pub open spec fn spec_rust_type(m: SafetyMessage) -> Seq<char> {
    match m {
        SafetyMessage::SbusInput => "RcInputSnapshot"@,
        SafetyMessage::ImuSample => "ImuData"@,
        SafetyMessage::MotorCommand => "MotorCmd"@,
        SafetyMessage::PreArmHealth => "PreArmHealthReport"@,
        SafetyMessage::ActuatorGuard => "ActuatorGuardReport"@,
        SafetyMessage::ActuatorPreparation => "ActuatorPreparationReport"@,
    }
}

/// Concrete Rust type of the producer handle of a message family.
pub open spec fn spec_producer_rust_type(m: SafetyMessage) -> Seq<char> {
    match m {
        SafetyMessage::SbusInput => "SafetyProducer<'static, RcInputSnapshot>"@,
        SafetyMessage::ImuSample => "SafetyProducer<'static, ImuData>"@,
        SafetyMessage::MotorCommand => "SafetyProducer<'static, MotorCmd>"@,
        SafetyMessage::PreArmHealth => "SafetyProducer<'static, PreArmHealthReport>"@,
        SafetyMessage::ActuatorGuard => "SafetyProducer<'static, ActuatorGuardReport>"@,
        SafetyMessage::ActuatorPreparation => "SafetyProducer<'static, ActuatorPreparationReport>"@,
    }
}

/// Concrete Rust type of the consumer handle of a message family.
pub open spec fn spec_consumer_rust_type(m: SafetyMessage) -> Seq<char> {
    match m {
        SafetyMessage::SbusInput => "SafetyConsumer<'static, RcInputSnapshot>"@,
        SafetyMessage::ImuSample => "SafetyConsumer<'static, ImuData>"@,
        SafetyMessage::MotorCommand => "SafetyConsumer<'static, MotorCmd>"@,
        SafetyMessage::PreArmHealth => "SafetyConsumer<'static, PreArmHealthReport>"@,
        SafetyMessage::ActuatorGuard => "SafetyConsumer<'static, ActuatorGuardReport>"@,
        SafetyMessage::ActuatorPreparation => "SafetyConsumer<'static, ActuatorPreparationReport>"@,
    }
}

impl SafetyMessage {
    /// Stable portable identifier for this message family.
    pub fn type_id(self) -> (r: &'static str)
        ensures
            r@ == spec_type_id(self),
    {
        match self {
            SafetyMessage::SbusInput => "sbus_input",
            SafetyMessage::ImuSample => "imu_sample",
            SafetyMessage::MotorCommand => "motor_cmd",
            SafetyMessage::PreArmHealth => "prearm_health",
            SafetyMessage::ActuatorGuard => "actuator_guard",
            SafetyMessage::ActuatorPreparation => "actuator_preparation",
        }
    }

    /// Concrete Rust message type emitted by the renderer.
    pub fn rust_type(self) -> (r: &'static str)
        ensures
            r@ == spec_rust_type(self),
    {
        match self {
            SafetyMessage::SbusInput => "RcInputSnapshot",
            SafetyMessage::ImuSample => "ImuData",
            SafetyMessage::MotorCommand => "MotorCmd",
            SafetyMessage::PreArmHealth => "PreArmHealthReport",
            SafetyMessage::ActuatorGuard => "ActuatorGuardReport",
            SafetyMessage::ActuatorPreparation => "ActuatorPreparationReport",
        }
    }

    /// Concrete Rust type required by the producer task-local slot.
    pub fn producer_rust_type(self) -> (r: &'static str)
        ensures
            r@ == spec_producer_rust_type(self),
    {
        match self {
            SafetyMessage::SbusInput => "SafetyProducer<'static, RcInputSnapshot>",
            SafetyMessage::ImuSample => "SafetyProducer<'static, ImuData>",
            SafetyMessage::MotorCommand => "SafetyProducer<'static, MotorCmd>",
            SafetyMessage::PreArmHealth => "SafetyProducer<'static, PreArmHealthReport>",
            SafetyMessage::ActuatorGuard => "SafetyProducer<'static, ActuatorGuardReport>",
            SafetyMessage::ActuatorPreparation => "SafetyProducer<'static, ActuatorPreparationReport>",
        }
    }

    /// Concrete Rust type required by the consumer task-local slot.
    pub fn consumer_rust_type(self) -> (r: &'static str)
        ensures
            r@ == spec_consumer_rust_type(self),
    {
        match self {
            SafetyMessage::SbusInput => "SafetyConsumer<'static, RcInputSnapshot>",
            SafetyMessage::ImuSample => "SafetyConsumer<'static, ImuData>",
            SafetyMessage::MotorCommand => "SafetyConsumer<'static, MotorCmd>",
            SafetyMessage::PreArmHealth => "SafetyConsumer<'static, PreArmHealthReport>",
            SafetyMessage::ActuatorGuard => "SafetyConsumer<'static, ActuatorGuardReport>",
            SafetyMessage::ActuatorPreparation => "SafetyConsumer<'static, ActuatorPreparationReport>",
        }
    }
}

/// The producer and consumer handle types wrap the message type in the
/// generic `SafetyProducer` / `SafetyConsumer` handles of the same message
/// family, so the two ends of one channel always agree on its message.
pub proof fn lemma_handle_types_wrap_message_type(m: SafetyMessage)
    ensures
        spec_producer_rust_type(m) == "SafetyProducer<'static, "@ + spec_rust_type(m) + ">"@,
        spec_consumer_rust_type(m) == "SafetyConsumer<'static, "@ + spec_rust_type(m) + ">"@,
{
    reveal_strlit("SafetyProducer<'static, ");
    reveal_strlit("SafetyConsumer<'static, ");
    reveal_strlit(">");
    reveal_strlit("RcInputSnapshot");
    reveal_strlit("ImuData");
    reveal_strlit("MotorCmd");
    reveal_strlit("PreArmHealthReport");
    reveal_strlit("ActuatorGuardReport");
    reveal_strlit("ActuatorPreparationReport");
    reveal_strlit("SafetyProducer<'static, RcInputSnapshot>");
    reveal_strlit("SafetyProducer<'static, ImuData>");
    reveal_strlit("SafetyProducer<'static, MotorCmd>");
    reveal_strlit("SafetyProducer<'static, PreArmHealthReport>");
    reveal_strlit("SafetyProducer<'static, ActuatorGuardReport>");
    reveal_strlit("SafetyProducer<'static, ActuatorPreparationReport>");
    reveal_strlit("SafetyConsumer<'static, RcInputSnapshot>");
    reveal_strlit("SafetyConsumer<'static, ImuData>");
    reveal_strlit("SafetyConsumer<'static, MotorCmd>");
    reveal_strlit("SafetyConsumer<'static, PreArmHealthReport>");
    reveal_strlit("SafetyConsumer<'static, ActuatorGuardReport>");
    reveal_strlit("SafetyConsumer<'static, ActuatorPreparationReport>");
    assert(spec_producer_rust_type(m) =~= "SafetyProducer<'static, "@ + spec_rust_type(m) + ">"@);
    assert(spec_consumer_rust_type(m) =~= "SafetyConsumer<'static, "@ + spec_rust_type(m) + ">"@);
}

/// One exclusive single-producer, single-consumer safety path.
#[derive(Clone, Copy, Debug)]
pub struct SafetyChannelDeclaration {
    /// Private static-storage identifier used by generated initialization.
    pub id: &'static str,
    /// Authoritative message family transferred by this channel.
    pub message: SafetyMessage,
    /// Number of messages that fit without an intervening receive.
    pub usable_capacity: usize,
    /// Concrete task-local resource identifier for the sole producer.
    pub producer: &'static str,
    /// Concrete task-local resource identifier for the sole consumer.
    pub consumer: &'static str,
}

/// A declaration holding exactly the given topology.
pub open spec fn declares(
    r: SafetyChannelDeclaration,
    id: &'static str,
    message: SafetyMessage,
    usable_capacity: usize,
    producer: &'static str,
    consumer: &'static str,
) -> bool {
    &&& r.id == id
    &&& r.message == message
    &&& r.usable_capacity == usable_capacity
    &&& r.producer == producer
    &&& r.consumer == consumer
}

impl SafetyChannelDeclaration {
    /// Declares a bounded authoritative channel.
    pub fn new(
        id: &'static str,
        message: SafetyMessage,
        usable_capacity: usize,
        producer: &'static str,
        consumer: &'static str,
    ) -> (r: Self)
        ensures
            declares(r, id, message, usable_capacity, producer, consumer),
    {
        SafetyChannelDeclaration { id, message, usable_capacity, producer, consumer }
    }

    /// Declares a valid-SBUS-input path into the control task.
    pub fn sbus_input(
        id: &'static str,
        usable_capacity: usize,
        producer: &'static str,
        consumer: &'static str,
    ) -> (r: Self)
        ensures
            declares(r, id, SafetyMessage::SbusInput, usable_capacity, producer, consumer),
    {
        Self::new(id, SafetyMessage::SbusInput, usable_capacity, producer, consumer)
    }

    /// Declares a decoded-IMU-sample path into the control task.
    pub fn imu_samples(
        id: &'static str,
        usable_capacity: usize,
        producer: &'static str,
        consumer: &'static str,
    ) -> (r: Self)
        ensures
            declares(r, id, SafetyMessage::ImuSample, usable_capacity, producer, consumer),
    {
        Self::new(id, SafetyMessage::ImuSample, usable_capacity, producer, consumer)
    }

    /// Declares the control-to-actuator motor-command path.
    pub fn motor_commands(
        id: &'static str,
        usable_capacity: usize,
        producer: &'static str,
        consumer: &'static str,
    ) -> (r: Self)
        ensures
            declares(r, id, SafetyMessage::MotorCommand, usable_capacity, producer, consumer),
    {
        Self::new(id, SafetyMessage::MotorCommand, usable_capacity, producer, consumer)
    }

    /// Declares an observation-only control-health path into safety.
    pub fn prearm_health(
        id: &'static str,
        usable_capacity: usize,
        producer: &'static str,
        consumer: &'static str,
    ) -> (r: Self)
        ensures
            declares(r, id, SafetyMessage::PreArmHealth, usable_capacity, producer, consumer),
    {
        Self::new(id, SafetyMessage::PreArmHealth, usable_capacity, producer, consumer)
    }

    /// Declares the safety-master authority path into the physical actuator.
    pub fn actuator_guard(
        id: &'static str,
        usable_capacity: usize,
        producer: &'static str,
        consumer: &'static str,
    ) -> (r: Self)
        ensures
            declares(r, id, SafetyMessage::ActuatorGuard, usable_capacity, producer, consumer),
    {
        Self::new(id, SafetyMessage::ActuatorGuard, usable_capacity, producer, consumer)
    }

    /// Declares an actuator preparation/fault report path into safety.
    pub fn actuator_preparation(
        id: &'static str,
        usable_capacity: usize,
        producer: &'static str,
        consumer: &'static str,
    ) -> (r: Self)
        ensures
            declares(r, id, SafetyMessage::ActuatorPreparation, usable_capacity, producer, consumer),
    {
        Self::new(id, SafetyMessage::ActuatorPreparation, usable_capacity, producer, consumer)
    }

    /// Backing queue length: one slot more than the usable capacity, or
    /// `None` when that length does not fit in `usize`.
    pub fn queue_length(self) -> (r: Option<usize>)
        ensures
            self.usable_capacity < usize::MAX ==> r == Some((self.usable_capacity + 1) as usize),
            self.usable_capacity == usize::MAX ==> r is None,
    {
        self.usable_capacity.checked_add(1)
    }
}

} // verus!
