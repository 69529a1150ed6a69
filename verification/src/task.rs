//! Reusable task contracts and the concrete bindings compositions supply.

use vstd::prelude::*;

verus! {

/// Source location of a reusable task body.
#[derive(Clone, Copy, Debug)]
pub struct TaskSource {
    /// Source file holding the body.
    pub file: &'static str,
    /// Function name of the body.
    pub function: &'static str,
}

impl TaskSource {
    /// Records the source location of a reusable task body.
    pub fn new(file: &'static str, function: &'static str) -> (r: Self)
        ensures
            r.file == file,
            r.function == function,
    {
        TaskSource { file, function }
    }
}

/// One typed slot a reusable task body declares: its name and Rust type.
#[derive(Clone, Copy, Debug)]
pub struct ResourceRequirement {
    /// Slot name used by the reusable body.
    pub id: &'static str,
    /// Rust type the body expects in the slot.
    pub rust_type: &'static str,
}

impl ResourceRequirement {
    /// Declares a typed slot.
    pub fn new(id: &'static str, rust_type: &'static str) -> (r: Self)
        ensures
            r.id == id,
            r.rust_type == rust_type,
    {
        ResourceRequirement { id, rust_type }
    }
}

/// One logical spawn a reusable task body performs, with the Rust types of
/// the message it sends.
#[derive(Clone, Debug)]
pub struct SpawnRequirement {
    /// Logical spawn module used by the reusable body.
    pub id: &'static str,
    /// Rust types of the spawn arguments, in order.
    pub arguments: Vec<&'static str>,
}

impl SpawnRequirement {
    /// Declares a logical spawn sending arguments of the given Rust types.
    pub fn new(id: &'static str, arguments: Vec<&'static str>) -> (r: Self)
        ensures
            r.id == id,
            r.arguments@ == arguments@,
    {
        SpawnRequirement { id, arguments }
    }
}

/// Element-wise copy of a vector of plain values.
pub fn copy_all<T: Copy>(v: &Vec<T>) -> (r: Vec<T>)
    ensures
        r@ == v@,
{
    let mut out: Vec<T> = Vec::new();
    let mut i: usize = 0;
    while i < v.len()
        invariant
            i <= v@.len(),
            out@ == v@.take(i as int),
        decreases v@.len() - i,
    {
        out.push(v[i]);
        i = i + 1;
        proof {
            assert(out@ =~= v@.take(i as int));
        }
    }
    proof {
        assert(v@.take(v@.len() as int) =~= v@);
    }
    out
}

/// Two spawn requirements name the same spawn with the same argument types.
pub open spec fn same_spawn_requirement(a: SpawnRequirement, b: SpawnRequirement) -> bool {
    a.id == b.id && a.arguments@ == b.arguments@
}

/// Two contracts agree on identity, source, and every slot.
pub open spec fn same_contract(a: TaskContract, b: TaskContract) -> bool {
    &&& a.id == b.id
    &&& a.source == b.source
    &&& a.local@ == b.local@
    &&& a.shared@ == b.shared@
    &&& a.config@ == b.config@
    &&& a.spawns@.len() == b.spawns@.len()
    &&& forall|i: int|
        0 <= i < a.spawns@.len() ==> #[trigger] same_spawn_requirement(a.spawns@[i], b.spawns@[i])
}

/// Identity, source, and typed slots of a reusable task contract.
#[derive(Clone, Debug)]
pub struct TaskContract {
    /// Stable reusable task identifier.
    pub id: &'static str,
    /// Source location of the body.
    pub source: TaskSource,
    /// Task-local resource slots.
    pub local: Vec<ResourceRequirement>,
    /// RTIC shared resource slots.
    pub shared: Vec<ResourceRequirement>,
    /// Compile-time configuration slots.
    pub config: Vec<ResourceRequirement>,
    /// Logical spawn operations.
    pub spawns: Vec<SpawnRequirement>,
}

impl TaskContract {
    /// Declares a reusable task contract with no slots.
    pub fn new(id: &'static str, source: TaskSource) -> (r: Self)
        ensures
            r.id == id,
            r.source == source,
            r.local@.len() == 0,
            r.shared@.len() == 0,
            r.config@.len() == 0,
            r.spawns@.len() == 0,
    {
        TaskContract {
            id,
            source,
            local: Vec::new(),
            shared: Vec::new(),
            config: Vec::new(),
            spawns: Vec::new(),
        }
    }

    /// An independent contract equal to this one in every slot.
    pub fn duplicate(&self) -> (r: Self)
        ensures
            same_contract(r, *self),
    {
        let mut spawns: Vec<SpawnRequirement> = Vec::new();
        let mut i: usize = 0;
        while i < self.spawns.len()
            invariant
                i <= self.spawns@.len(),
                spawns@.len() == i,
                forall|j: int|
                    0 <= j < i ==> #[trigger] same_spawn_requirement(spawns@[j], self.spawns@[j]),
            decreases self.spawns@.len() - i,
        {
            let requirement = &self.spawns[i];
            spawns.push(SpawnRequirement::new(requirement.id, copy_all(&requirement.arguments)));
            i = i + 1;
        }
        TaskContract {
            id: self.id,
            source: self.source,
            local: copy_all(&self.local),
            shared: copy_all(&self.shared),
            config: copy_all(&self.config),
            spawns,
        }
    }
}

/// One logical-to-concrete resource binding with the slot's Rust type.
#[derive(Clone, Copy, Debug)]
pub struct ResourceBinding {
    /// Slot name used by the reusable body.
    pub logical: &'static str,
    /// Concrete resource identifier.
    pub target: &'static str,
    /// Rust type required by the slot.
    pub rust_type: &'static str,
}

impl ResourceBinding {
    /// Binds a logical slot of the given type to a concrete resource.
    pub fn new(logical: &'static str, target: &'static str, rust_type: &'static str) -> (r: Self)
        ensures
            r.logical == logical,
            r.target == target,
            r.rust_type == rust_type,
    {
        ResourceBinding { logical, target, rust_type }
    }
}

/// One axis of a sensor frame.
#[derive(Clone, Copy, Debug, PartialEq, Eq, Structural)]
pub enum Axis {
    X,
    Y,
    Z,
}

/// A sensor axis, possibly reversed.
#[derive(Clone, Copy, Debug, PartialEq, Eq, Structural)]
pub struct SignedAxis {
    /// Sensor axis.
    pub axis: Axis,
    /// The body axis points against the sensor axis.
    pub negated: bool,
}

/// Axis-aligned rotation from a sensor's frame to the body frame: the signed
/// sensor axis along each body axis.
#[derive(Clone, Copy, Debug, PartialEq, Eq, Structural)]
pub struct FrameRotation {
    pub body_x: SignedAxis,
    pub body_y: SignedAxis,
    pub body_z: SignedAxis,
}

/// Compile-time value supplied to a configuration slot.
#[derive(Clone, Copy, Debug, PartialEq, Eq, Structural)]
pub enum ConfigValue {
    /// Boolean value.
    Bool(bool),
    /// Unsigned 32-bit value.
    U32(u32),
    /// Duration in milliseconds.
    Millis(u32),
    /// Sensor-to-body frame rotation.
    FrameRotation(FrameRotation),
}

/// Rust type of a configuration value.
pub open spec fn spec_config_rust_type(v: ConfigValue) -> Seq<char> {
    match v {
        ConfigValue::Bool(_) => "bool"@,
        ConfigValue::U32(_) => "u32"@,
        ConfigValue::Millis(_) => "MillisDurationU32"@,
        ConfigValue::FrameRotation(_) => "FrameRotation"@,
    }
}

impl ConfigValue {
    /// Rust type of this value.
    pub fn rust_type(self) -> (r: &'static str)
        ensures
            r@ == spec_config_rust_type(self),
    {
        match self {
            ConfigValue::Bool(_) => "bool",
            ConfigValue::U32(_) => "u32",
            ConfigValue::Millis(_) => "MillisDurationU32",
            ConfigValue::FrameRotation(_) => "FrameRotation",
        }
    }
}

/// One concrete value for a configuration slot.
#[derive(Clone, Copy, Debug)]
pub struct ConfigBinding {
    /// Slot name used by the reusable body.
    pub logical: &'static str,
    /// Rust type the typed slot declared.
    pub expected_type: &'static str,
    /// Supplied value.
    pub value: ConfigValue,
}

impl ConfigBinding {
    /// Supplies a value to a typed configuration slot.
    pub fn new(logical: &'static str, expected_type: &'static str, value: ConfigValue) -> (r: Self)
        ensures
            r.logical == logical,
            r.expected_type == expected_type,
            r.value == value,
    {
        ConfigBinding { logical, expected_type, value }
    }
}

/// One logical-to-concrete spawn destination with the message types the
/// logical spawn sends.
#[derive(Clone, Debug)]
pub struct SpawnBinding {
    /// Logical spawn module used by the reusable body.
    pub logical: &'static str,
    /// Concrete destination task.
    pub target: &'static str,
    /// Rust types of the spawn arguments, in order.
    pub arguments: Vec<&'static str>,
}

impl SpawnBinding {
    /// Binds a logical spawn with the given argument types to a destination.
    pub fn new(logical: &'static str, target: &'static str, arguments: Vec<&'static str>) -> (r:
        Self)
        ensures
            r.logical == logical,
            r.target == target,
            r.arguments@ == arguments@,
    {
        SpawnBinding { logical, target, arguments }
    }
}

/// Safety role assigned to one concrete task instance.
#[derive(Clone, Copy, Debug, PartialEq, Eq, Structural)]
pub enum TaskSafetyClass {
    /// Task directly owns an authoritative safety-path channel handle.
    SafetyCritical,
    /// Task can influence safety behavior but owns no authoritative handle.
    SafetyRelated,
    /// Task has no authority over a safety path.
    NonSafetyCritical,
}

} // verus!
