//! Safe copies of native topology information.
use vstd::prelude::*;
use crate::error::{decoded, NativeError, StatusCodes};

verus! {

/// A system CPU identifier.
#[derive(Clone, Copy, Debug, PartialEq, Eq, Hash, PartialOrd, Ord, Structural)]
pub struct CpuId {
    value: u32,
}

/// A system NUMA-node identifier.
#[derive(Clone, Copy, Debug, PartialEq, Eq, Hash, PartialOrd, Ord, Structural)]
pub struct NumaNodeId {
    value: u32,
}

impl CpuId {
    /// The system identifier.
    pub closed spec fn id(self) -> u32 {
        self.value
    }

    /// The identifier fits the signed native interface.
    #[verifier::type_invariant]
    pub closed spec fn wf(self) -> bool {
        self.value <= i32::MAX
    }

    /// Constructs an identifier accepted by the signed native API.
    ///
    /// nOS-V represents topology identifiers as `i32`; rejecting larger values
    /// here ensures every stored identifier can be passed on without truncation.
    pub fn new(value: u32) -> (result: Result<Self, NativeError>)
        ensures
            match result {
                Ok(cpu) => value <= i32::MAX && cpu.id() == value,
                Err(error) => value > i32::MAX && error == NativeError::InvalidParameter,
            },
    {
        if value > (i32::MAX as u32) {
            Err(NativeError::InvalidParameter)
        } else {
            Ok(CpuId { value })
        }
    }

    /// Returns the non-negative system identifier.
    pub fn get(self) -> (value: u32)
        ensures
            value == self.id(),
            value <= i32::MAX,
    {
        proof {
            use_type_invariant(&self);
        }
        self.value
    }

    /// Converts a native signed identifier while rejecting negative sentinel values.
    pub fn from_native(value: i32) -> (result: Result<Self, NativeError>)
        ensures
            match result {
                Ok(cpu) => value >= 0 && cpu.id() == value,
                Err(error) => value < 0 && error == NativeError::InvalidParameter,
            },
    {
        if value < 0 {
            Err(NativeError::InvalidParameter)
        } else {
            Ok(CpuId { value: value as u32 })
        }
    }
}

impl NumaNodeId {
    /// The system identifier.
    pub closed spec fn id(self) -> u32 {
        self.value
    }

    /// The identifier fits the signed native interface.
    #[verifier::type_invariant]
    pub closed spec fn wf(self) -> bool {
        self.value <= i32::MAX
    }

    /// Constructs an identifier accepted by the signed native API.
    pub fn new(value: u32) -> (result: Result<Self, NativeError>)
        ensures
            match result {
                Ok(node) => value <= i32::MAX && node.id() == value,
                Err(error) => value > i32::MAX && error == NativeError::InvalidParameter,
            },
    {
        if value > (i32::MAX as u32) {
            Err(NativeError::InvalidParameter)
        } else {
            Ok(NumaNodeId { value })
        }
    }

    /// Returns the non-negative system identifier.
    pub fn get(self) -> (value: u32)
        ensures
            value == self.id(),
            value <= i32::MAX,
    {
        proof {
            use_type_invariant(&self);
        }
        self.value
    }

    /// Converts a native signed identifier while rejecting negative sentinel values.
    pub fn from_native(value: i32) -> (result: Result<Self, NativeError>)
        ensures
            match result {
                Ok(node) => value >= 0 && node.id() == value,
                Err(error) => value < 0 && error == NativeError::InvalidParameter,
            },
    {
        if value < 0 {
            Err(NativeError::InvalidParameter)
        } else {
            Ok(NumaNodeId { value: value as u32 })
        }
    }
}

/// A topology level exposed by nOS-V.
#[derive(Clone, Copy, Debug, PartialEq, Eq, Hash, Structural)]
#[non_exhaustive]
pub enum TopologyLevel {
    /// A machine node.
    Node,
    /// A NUMA node.
    Numa,
    /// A complex set.
    ComplexSet,
    /// A physical core.
    Core,
    /// A CPU.
    Cpu,
}

/// A topology domain at a particular level.
#[derive(Clone, Copy, Debug, PartialEq, Eq, Hash, Structural)]
pub struct DomainId {
    level: TopologyLevel,
    system_id: i32,
}

impl DomainId {
    /// Level and system identifier of this domain.
    pub closed spec fn parts(self) -> (TopologyLevel, i32) {
        (self.level, self.system_id)
    }

    /// The system identifier is not negative.
    #[verifier::type_invariant]
    pub closed spec fn wf(self) -> bool {
        self.system_id >= 0
    }

    /// Constructs a domain identifier at the supplied topology level.
    ///
    /// Returns [`NativeError::InvalidParameter`] for a negative native identifier.
    pub fn new(level: TopologyLevel, system_id: i32) -> (result: Result<Self, NativeError>)
        ensures
            match result {
                Ok(domain) => system_id >= 0 && domain.parts() == (level, system_id),
                Err(error) => system_id < 0 && error == NativeError::InvalidParameter,
            },
    {
        if system_id < 0 {
            Err(NativeError::InvalidParameter)
        } else {
            Ok(DomainId { level, system_id })
        }
    }

    /// Returns the topology level in which this identifier is defined.
    pub fn level(self) -> (level: TopologyLevel)
        ensures
            level == self.parts().0,
    {
        self.level
    }

    /// Returns the non-negative system identifier expected by nOS-V.
    pub fn system_id(self) -> (system_id: i32)
        ensures
            system_id == self.parts().1,
            system_id >= 0,
    {
        proof {
            use_type_invariant(&self);
        }
        self.system_id
    }
}

/// What to do with the array that accompanied a native identifier count.
///
/// In every case the array, if there is one, is released with C's allocator.
#[derive(Clone, Copy, Debug, PartialEq, Eq, Structural)]
pub enum CopyPlan {
    /// The result is empty.
    Empty,
    /// Copy this many identifiers out of the array.
    Copy(usize),
    /// The query failed.
    Fail(NativeError),
}

/// The error that a negative count stands for.
///
/// A success code in the count position violates the native contract.
pub open spec fn count_error(codes: StatusCodes, count: i32) -> NativeError {
    match decoded(codes, count) {
        Err(error) => error,
        Ok(_) => NativeError::InvalidOperation,
    }
}

/// Converts a negative native count into a typed error.
pub fn native_count_error(codes: &StatusCodes, count: i32) -> (error: NativeError)
    ensures
        error == count_error(*codes, count),
{
    match NativeError::from_code(codes, count) {
        Err(error) => error,
        Ok(()) => NativeError::InvalidOperation,
    }
}

/// How an identifier array is copied.
///
/// A positive count without an array means that the native allocation failed.
/// An array that could not be a slice of this address space is refused.
pub open spec fn planned_copy(codes: StatusCodes, count: i32, present: bool) -> CopyPlan {
    if count < 0 {
        CopyPlan::Fail(count_error(codes, count))
    } else if count == 0 {
        CopyPlan::Empty
    } else if !present {
        CopyPlan::Fail(NativeError::OutOfMemory)
    } else if count > isize::MAX / 4 {
        CopyPlan::Fail(NativeError::InvalidParameter)
    } else {
        CopyPlan::Copy(count as usize)
    }
}

/// Decides how an identifier array is copied.
///
/// `present` tells whether the query returned an array.
pub fn copy_plan(codes: &StatusCodes, count: i32, present: bool) -> (plan: CopyPlan)
    ensures
        plan == planned_copy(*codes, count, present),
{
    if count < 0 {
        return CopyPlan::Fail(native_count_error(codes, count));
    }
    if count == 0 {
        return CopyPlan::Empty;
    }
    if !present {
        return CopyPlan::Fail(NativeError::OutOfMemory);
    }
    let len: usize = count as usize;
    if len > (isize::MAX as usize) / 4 {
        return CopyPlan::Fail(NativeError::InvalidParameter);
    }
    CopyPlan::Copy(len)
}

/// Whether every native identifier is acceptable.
pub open spec fn all_valid(values: Seq<i32>) -> bool {
    forall|i: int| 0 <= i < values.len() ==> #[trigger] values[i] >= 0
}

/// Converts a snapshot of native CPU identifiers.
///
/// One negative identifier makes the whole snapshot fail.
pub fn collect_cpus(values: Vec<i32>) -> (result: Result<Vec<CpuId>, NativeError>)
    ensures
        match result {
            Ok(cpus) => all_valid(values@) && cpus@.len() == values@.len() && forall|i: int|
                0 <= i < cpus@.len() ==> (#[trigger] cpus@[i]).id() == values@[i],
            Err(error) => !all_valid(values@) && error == NativeError::InvalidParameter,
        },
{
    let mut cpus: Vec<CpuId> = Vec::new();
    let mut i: usize = 0;
    while i < values.len()
        invariant
            i <= values@.len(),
            cpus@.len() == i,
            forall|j: int| 0 <= j < i ==> values@[j] >= 0,
            forall|j: int| 0 <= j < i ==> (#[trigger] cpus@[j]).id() == values@[j],
        decreases values.len() - i,
    {
        match CpuId::from_native(values[i]) {
            Ok(cpu) => cpus.push(cpu),
            Err(error) => {
                assert(values@[i as int] < 0);
                return Err(error);
            },
        }
        i = i + 1;
    }
    Ok(cpus)
}

/// Converts a snapshot of native NUMA-node identifiers.
pub fn collect_numa_nodes(values: Vec<i32>) -> (result: Result<Vec<NumaNodeId>, NativeError>)
    ensures
        match result {
            Ok(nodes) => all_valid(values@) && nodes@.len() == values@.len() && forall|i: int|
                0 <= i < nodes@.len() ==> (#[trigger] nodes@[i]).id() == values@[i],
            Err(error) => !all_valid(values@) && error == NativeError::InvalidParameter,
        },
{
    let mut nodes: Vec<NumaNodeId> = Vec::new();
    let mut i: usize = 0;
    while i < values.len()
        invariant
            i <= values@.len(),
            nodes@.len() == i,
            forall|j: int| 0 <= j < i ==> values@[j] >= 0,
            forall|j: int| 0 <= j < i ==> (#[trigger] nodes@[j]).id() == values@[j],
        decreases values.len() - i,
    {
        match NumaNodeId::from_native(values[i]) {
            Ok(node) => nodes.push(node),
            Err(error) => {
                assert(values@[i as int] < 0);
                return Err(error);
            },
        }
        i = i + 1;
    }
    Ok(nodes)
}

/// Converts a snapshot of native domain identifiers at `level`.
pub fn collect_domains(level: TopologyLevel, values: Vec<i32>) -> (result: Result<
    Vec<DomainId>,
    NativeError,
>)
    ensures
        match result {
            Ok(domains) => all_valid(values@) && domains@.len() == values@.len() && forall|i: int|
                0 <= i < domains@.len() ==> (#[trigger] domains@[i]).parts() == (level, values@[i]),
            Err(error) => !all_valid(values@) && error == NativeError::InvalidParameter,
        },
{
    let mut domains: Vec<DomainId> = Vec::new();
    let mut i: usize = 0;
    while i < values.len()
        invariant
            i <= values@.len(),
            domains@.len() == i,
            forall|j: int| 0 <= j < i ==> values@[j] >= 0,
            forall|j: int| 0 <= j < i ==> (#[trigger] domains@[j]).parts() == (level, values@[j]),
        decreases values.len() - i,
    {
        match DomainId::new(level, values[i]) {
            Ok(domain) => domains.push(domain),
            Err(error) => {
                assert(values@[i as int] < 0);
                return Err(error);
            },
        }
        i = i + 1;
    }
    Ok(domains)
}

/// A native answer: the count, and the identifiers copied as [`copy_plan`] says.
pub struct NativeIds {
    /// Announced number of identifiers, or a negative status code.
    pub count: i32,
    /// Whether the query returned an array.
    pub present: bool,
    /// Identifiers copied out of the array.
    pub ids: Vec<i32>,
}

impl NativeIds {
    /// Every identifier that is to be copied was.
    pub open spec fn wf(self) -> bool {
        self.count > 0 && self.present && self.count <= isize::MAX / 4 ==> self.ids@.len()
            == self.count
    }
}

/// Read-only topology query capability tied to a runtime.
///
/// A topology value does not keep a runtime alive and becomes harmless after
/// shutdown or in a child process created by `fork`. The native answer is
/// handed in; it is absent when the runtime is not live.
#[derive(Clone, Copy, Debug, PartialEq, Eq, Structural)]
pub struct Topology {
    /// Status codes of the native library.
    pub codes: StatusCodes,
}

/// The identifiers that a query yields.
pub open spec fn snapshot(codes: StatusCodes, answer: Option<NativeIds>) -> Result<
    Seq<i32>,
    NativeError,
> {
    match answer {
        None => Err(NativeError::NotInitialized),
        Some(native) => match planned_copy(codes, native.count, native.present) {
            CopyPlan::Fail(error) => Err(error),
            CopyPlan::Empty => Ok(Seq::empty()),
            CopyPlan::Copy(_) => if all_valid(native.ids@) {
                Ok(native.ids@)
            } else {
                Err(NativeError::InvalidParameter)
            },
        },
    }
}

impl Topology {
    /// Picks the identifiers to convert, or the error of the query.
    fn copied(&self, answer: Option<NativeIds>) -> (result: Result<Vec<i32>, NativeError>)
        ensures
            ({
                let wanted = snapshot(self.codes, answer);
                match result {
                    Ok(values) => if all_valid(values@) {
                        wanted == Ok::<Seq<i32>, NativeError>(values@)
                    } else {
                        wanted == Err::<Seq<i32>, NativeError>(NativeError::InvalidParameter)
                    },
                    Err(error) => wanted == Err::<Seq<i32>, NativeError>(error),
                }
            }),
    {
        let native = match answer {
            Some(native) => native,
            None => {
                return Err(NativeError::NotInitialized);
            },
        };
        match copy_plan(&self.codes, native.count, native.present) {
            CopyPlan::Empty => {
                let none: Vec<i32> = Vec::new();
                assert(none@ =~= Seq::<i32>::empty());
                Ok(none)
            },
            CopyPlan::Copy(_) => Ok(native.ids),
            CopyPlan::Fail(error) => Err(error),
        }
    }

    /// Returns a snapshot of visible system CPUs.
    pub fn cpus(&self, answer: Option<NativeIds>) -> (result: Result<
        Vec<CpuId>,
        NativeError,
    >)
        requires
            answer is Some ==> answer->0.wf(),
        ensures
            match (result, snapshot(self.codes, answer)) {
                (Ok(cpus), Ok(values)) => cpus@.len() == values.len() && cpus@.len() == answer->0.count
                    && forall|i: int|
                    0 <= i < cpus@.len() ==> (#[trigger] cpus@[i]).id() == values[i],
                (Err(error), Err(wanted)) => error == wanted,
                _ => false,
            },
    {
        match self.copied(answer) {
            Ok(values) => collect_cpus(values),
            Err(error) => Err(error),
        }
    }

    /// Returns a snapshot of visible system NUMA nodes.
    pub fn numa_nodes(&self, answer: Option<NativeIds>) -> (result: Result<
        Vec<NumaNodeId>,
        NativeError,
    >)
        requires
            answer is Some ==> answer->0.wf(),
        ensures
            match (result, snapshot(self.codes, answer)) {
                (Ok(nodes), Ok(values)) => nodes@.len() == values.len() && nodes@.len() == answer->0.count
                    && forall|i: int|
                    0 <= i < nodes@.len() ==> (#[trigger] nodes@[i]).id() == values[i],
                (Err(error), Err(wanted)) => error == wanted,
                _ => false,
            },
    {
        match self.copied(answer) {
            Ok(values) => collect_numa_nodes(values),
            Err(error) => Err(error),
        }
    }

    /// Returns a snapshot of visible domains at `level`.
    ///
    /// Each returned [`DomainId`] retains its level because system identifiers
    /// are interpreted in the context of a particular topology hierarchy.
    pub fn domains(
        &self,
        level: TopologyLevel,
        answer: Option<NativeIds>,
    ) -> (result: Result<Vec<DomainId>, NativeError>)
        requires
            answer is Some ==> answer->0.wf(),
        ensures
            match (result, snapshot(self.codes, answer)) {
                (Ok(domains), Ok(values)) => domains@.len() == values.len() && domains@.len() == answer->0.count
                    && forall|i: int|
                    0 <= i < domains@.len() ==> (#[trigger] domains@[i]).parts() == (
                        level,
                        values[i],
                    ),
                (Err(error), Err(wanted)) => error == wanted,
                _ => false,
            },
    {
        match self.copied(answer) {
            Ok(values) => collect_domains(level, values),
            Err(error) => Err(error),
        }
    }

    /// Returns the visible CPUs contained by a domain.
    pub fn cpus_in(&self, answer: Option<NativeIds>) -> (result: Result<
        Vec<CpuId>,
        NativeError,
    >)
        requires
            answer is Some ==> answer->0.wf(),
        ensures
            match (result, snapshot(self.codes, answer)) {
                (Ok(cpus), Ok(values)) => cpus@.len() == values.len() && cpus@.len() == answer->0.count
                    && forall|i: int|
                    0 <= i < cpus@.len() ==> (#[trigger] cpus@[i]).id() == values[i],
                (Err(error), Err(wanted)) => error == wanted,
                _ => false,
            },
    {
        self.cpus(answer)
    }
}

} // verus!
