//! Reviewed recipes for application-owned task-local state.

use vstd::prelude::*;

verus! {

/// Reviewed typed initialization recipe of one task-local state value.
#[derive(Clone, Copy, Debug, PartialEq, Eq, Structural)]
pub enum TaskStateRecipe {
    /// Unsigned counter with the given initial value.
    U32(u32),
    /// Boolean flag with the given initial value.
    Bool(bool),
    /// Foxeer flight controller with its reviewed gains.
    FoxeerFlightControllerV1,
    /// Foxeer low-pass filter for IMU rates.
    FoxeerImuRateLowPassFilterV1,
    /// Gyro angle integrator starting at rest.
    GyroAngleIntegratorV1,
    /// Map from body rates to rate-controller axes.
    BodyRateToControllerMapV1,
    /// Foxeer gyro bias calibrator.
    FoxeerGyroBiasCalibratorV1,
    /// Empty RC input snapshot.
    EmptyRcInputSnapshotV1,
    /// Foxeer safety master with outputs inhibited.
    OutputInhibitedFoxeerSafetyMasterV1,
}

/// Rust type of the value a recipe initializes.
pub open spec fn spec_state_rust_type(recipe: TaskStateRecipe) -> Seq<char> {
    match recipe {
        TaskStateRecipe::U32(_) => "u32"@,
        TaskStateRecipe::Bool(_) => "bool"@,
        TaskStateRecipe::FoxeerFlightControllerV1 => "dt::FlightController"@,
        TaskStateRecipe::FoxeerImuRateLowPassFilterV1 => "dt::ImuRateLowPassFilter"@,
        TaskStateRecipe::GyroAngleIntegratorV1 => "dt::GyroAngleIntegrator"@,
        TaskStateRecipe::BodyRateToControllerMapV1 => "FrameRotation"@,
        TaskStateRecipe::FoxeerGyroBiasCalibratorV1 => "dt::GyroBiasCalibrator"@,
        TaskStateRecipe::EmptyRcInputSnapshotV1 => "RcInputSnapshot"@,
        TaskStateRecipe::OutputInhibitedFoxeerSafetyMasterV1 => "ferrowasp_tasks::foxeer_safety::FoxeerSafetyMaster"@,
    }
}

/// Rust type of the value a recipe initializes.
pub fn state_rust_type(recipe: TaskStateRecipe) -> (r: &'static str)
    ensures
        r@ == spec_state_rust_type(recipe),
{
    match recipe {
        TaskStateRecipe::U32(_) => "u32",
        TaskStateRecipe::Bool(_) => "bool",
        TaskStateRecipe::FoxeerFlightControllerV1 => "dt::FlightController",
        TaskStateRecipe::FoxeerImuRateLowPassFilterV1 => "dt::ImuRateLowPassFilter",
        TaskStateRecipe::GyroAngleIntegratorV1 => "dt::GyroAngleIntegrator",
        TaskStateRecipe::BodyRateToControllerMapV1 => "FrameRotation",
        TaskStateRecipe::FoxeerGyroBiasCalibratorV1 => "dt::GyroBiasCalibrator",
        TaskStateRecipe::EmptyRcInputSnapshotV1 => "RcInputSnapshot",
        TaskStateRecipe::OutputInhibitedFoxeerSafetyMasterV1 => "ferrowasp_tasks::foxeer_safety::FoxeerSafetyMaster",
    }
}

/// Role a task-local state value plays for the task that owns it.
#[derive(Clone, Copy, Debug, PartialEq, Eq, Structural)]
pub enum TaskStateRole {
    /// Scheduler ticks in one control step; it must agree with the periodic
    /// control that drives the owning task.
    SamplesPerControlLoop,
    /// Sequence number of the last IMU sample consumed.
    ImuLastSequence,
}

/// Identity of a reviewed task-state schema.
#[derive(Clone, Copy, Debug)]
pub struct TaskStateSchema {
    /// Stable schema identifier.
    pub id: &'static str,
    /// Schema version.
    pub version: u32,
}

/// One application-owned state value: its local-resource identifier, role,
/// and initialization recipe.
#[derive(Clone, Copy, Debug)]
pub struct TaskStateField {
    /// Generated RTIC local-resource identifier.
    pub id: &'static str,
    /// Role of the value for its owner.
    pub role: TaskStateRole,
    /// Reviewed initialization recipe.
    pub recipe: TaskStateRecipe,
}

impl TaskStateField {
    /// Declares one state value.
    pub fn new(id: &'static str, role: TaskStateRole, recipe: TaskStateRecipe) -> (r: Self)
        ensures
            r.id == id,
            r.role == role,
            r.recipe == recipe,
    {
        TaskStateField { id, role, recipe }
    }
}

/// State values a schema declares for one owner task.
#[derive(Clone, Debug)]
pub struct TaskStateDeclaration {
    /// Schema the values follow.
    pub schema: TaskStateSchema,
    /// Concrete task that owns every value.
    pub owner_task: &'static str,
    /// Declared values, in order.
    pub fields: Vec<TaskStateField>,
}

impl TaskStateSchema {
    /// Declares the values of this schema for one owner task.
    pub fn declare(self, owner_task: &'static str, fields: Vec<TaskStateField>) -> (r: TaskStateDeclaration)
        ensures
            r.schema == self,
            r.owner_task == owner_task,
            r.fields@ == fields@,
    {
        TaskStateDeclaration { schema: self, owner_task, fields }
    }
}

/// One application-owned persistent local-state value and its sole owner.
#[derive(Clone, Copy, Debug)]
pub struct ResolvedTaskState {
    /// Generated RTIC local-resource identifier.
    pub id: &'static str,
    /// Concrete task with exclusive ownership.
    pub owner_task: &'static str,
    /// Reviewed initialization recipe.
    pub recipe: TaskStateRecipe,
}

} // verus!
