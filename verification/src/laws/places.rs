//! Identifiers, the topology, affinities and memory.
use vstd::prelude::*;
use crate::affinity::{Affinity, AffinityKind, AffinityLevel, AffinityTarget, RawAffinity};
use crate::error::{NativeError, StatusCodes};
use crate::memory::MemoryStats;
use crate::topology::{
    collect_cpus, collect_domains, collect_numa_nodes, copy_plan, native_count_error, CopyPlan,
    CpuId, DomainId, NativeIds, NumaNodeId, Topology, TopologyLevel,
};

verus! {

/// An identifier is what it was made from, exactly if that fits a native signed
/// number; a native number is one exactly if it is not negative.
pub proof fn lemma_identifiers_are_native_numbers(
    value: u32,
    native: i32,
    cpu: Result<CpuId, NativeError>,
    node: Result<NumaNodeId, NativeError>,
    native_cpu: Result<CpuId, NativeError>,
    native_node: Result<NumaNodeId, NativeError>,
    got: (u32, u32, u32, u32),
)
    requires
        call_ensures(CpuId::new, (value,), cpu),
        call_ensures(NumaNodeId::new, (value,), node),
        call_ensures(CpuId::from_native, (native,), native_cpu),
        call_ensures(NumaNodeId::from_native, (native,), native_node),
        cpu is Ok ==> call_ensures(CpuId::get, (cpu->Ok_0,), got.0),
        node is Ok ==> call_ensures(NumaNodeId::get, (node->Ok_0,), got.1),
        native_cpu is Ok ==> call_ensures(CpuId::get, (native_cpu->Ok_0,), got.2),
        native_node is Ok ==> call_ensures(NumaNodeId::get, (native_node->Ok_0,), got.3),
    ensures
        cpu is Ok <==> value <= 0x7fff_ffff,
        node is Ok <==> value <= 0x7fff_ffff,
        native_cpu is Ok <==> native >= 0,
        native_node is Ok <==> native >= 0,
        cpu is Ok ==> got.0 == value && got.1 == value,
        native >= 0 ==> got.2 == native && got.3 == native,
        cpu is Err ==> cpu->Err_0 == NativeError::InvalidParameter && node->Err_0
            == NativeError::InvalidParameter,
        native < 0 ==> native_cpu->Err_0 == NativeError::InvalidParameter && native_node->Err_0
            == NativeError::InvalidParameter,
{
}

/// A domain keeps its level and identifier, which is not negative.
pub proof fn lemma_domain_keeps_its_parts(
    level: TopologyLevel,
    system_id: i32,
    domain: Result<DomainId, NativeError>,
    found: TopologyLevel,
    id: i32,
)
    requires
        call_ensures(DomainId::new, (level, system_id), domain),
        domain is Ok ==> call_ensures(DomainId::level, (domain->Ok_0,), found) && call_ensures(
            DomainId::system_id,
            (domain->Ok_0,),
            id,
        ),
    ensures
        domain is Ok <==> system_id >= 0,
        domain is Ok ==> found == level && id == system_id,
        domain matches Err(error) ==> error == NativeError::InvalidParameter,
{
}

/// A snapshot is taken of exactly the identifiers that the native library counted:
/// none for zero, and an error for a negative count, for a missing list, and for a
/// list that no allocation can hold.
pub proof fn lemma_counted_identifiers_are_copied(
    codes: StatusCodes,
    count: i32,
    present: bool,
    plan: CopyPlan,
    error: NativeError,
)
    requires
        call_ensures(copy_plan, (&codes, count, present), plan),
        call_ensures(native_count_error, (&codes, count), error),
    ensures
        plan is Empty <==> count == 0,
        plan is Copy <==> 0 < count <= isize::MAX / 4 && present,
        plan matches CopyPlan::Copy(len) ==> len == count,
        plan is Fail && count < 0 ==> plan->Fail_0 == error,
        plan is Fail && count > 0 && !present ==> plan->Fail_0 == NativeError::OutOfMemory,
        plan is Fail && count > 0 && present ==> plan->Fail_0 == NativeError::InvalidParameter,
        count == codes.success ==> error == NativeError::InvalidOperation,
{
}

/// Native identifiers are taken over in order and none is left out, unless one of
/// them is negative.
pub proof fn lemma_identifiers_are_collected_in_order(
    values: Vec<i32>,
    level: TopologyLevel,
    cpus: Result<Vec<CpuId>, NativeError>,
    nodes: Result<Vec<NumaNodeId>, NativeError>,
    domains: Result<Vec<DomainId>, NativeError>,
    at: int,
    got: (u32, u32, TopologyLevel, i32),
)
    requires
        call_ensures(collect_cpus, (values,), cpus),
        call_ensures(collect_numa_nodes, (values,), nodes),
        call_ensures(collect_domains, (level, values), domains),
        0 <= at < values@.len(),
        cpus is Ok ==> call_ensures(CpuId::get, (cpus->Ok_0@[at],), got.0),
        nodes is Ok ==> call_ensures(NumaNodeId::get, (nodes->Ok_0@[at],), got.1),
        domains is Ok ==> call_ensures(DomainId::level, (domains->Ok_0@[at],), got.2),
        domains is Ok ==> call_ensures(DomainId::system_id, (domains->Ok_0@[at],), got.3),
    ensures
        ({
            let usable = forall|i: int| 0 <= i < values@.len() ==> #[trigger] values@[i] >= 0;
            &&& cpus is Ok <==> usable
            &&& nodes is Ok <==> usable
            &&& domains is Ok <==> usable
        }),
        cpus is Ok ==> cpus->Ok_0@.len() == values@.len() && got.0 == values@[at],
        nodes is Ok ==> nodes->Ok_0@.len() == values@.len() && got.1 == values@[at],
        domains is Ok ==> domains->Ok_0@.len() == values@.len() && got.2 == level && got.3
            == values@[at],
        cpus matches Err(error) ==> error == NativeError::InvalidParameter,
        nodes matches Err(error) ==> error == NativeError::InvalidParameter,
        domains matches Err(error) ==> error == NativeError::InvalidParameter,
{
}

/// A query of the topology gives the identifiers that the native library answered
/// with, in order, whatever is asked for; without a runtime it says so, and it fails
/// on an answer that cannot be one.
pub proof fn lemma_topology_is_the_native_answer(
    topology: Topology,
    level: TopologyLevel,
    answer: Option<NativeIds>,
    count_error: NativeError,
    cpus: Result<Vec<CpuId>, NativeError>,
    within: Result<Vec<CpuId>, NativeError>,
    nodes: Result<Vec<NumaNodeId>, NativeError>,
    domains: Result<Vec<DomainId>, NativeError>,
)
    requires
        answer is Some ==> answer->0.wf() && call_ensures(
            native_count_error,
            (&topology.codes, answer->0.count),
            count_error,
        ),
        call_ensures(Topology::cpus, (&topology, answer), cpus),
        call_ensures(Topology::cpus_in, (&topology, answer), within),
        call_ensures(Topology::numa_nodes, (&topology, answer), nodes),
        call_ensures(Topology::domains, (&topology, level, answer), domains),
    ensures
        answer is None ==> cpus == Err::<Vec<CpuId>, NativeError>(NativeError::NotInitialized),
        answer matches Some(native) ==> {
            &&& cpus is Ok <==> native.count == 0 || (0 < native.count <= isize::MAX / 4
                && native.present && forall|i: int|
                0 <= i < native.ids@.len() ==> #[trigger] native.ids@[i] >= 0)
            &&& cpus is Ok ==> cpus->Ok_0@.len() == native.count
            &&& nodes is Ok ==> nodes->Ok_0@.len() == native.count
            &&& domains is Ok ==> domains->Ok_0@.len() == native.count
            &&& cpus is Ok ==> forall|i: int|
                0 <= i < native.count ==> (#[trigger] cpus->Ok_0@[i]).id() == native.ids@[i]
            &&& nodes is Ok ==> forall|i: int|
                0 <= i < native.count ==> (#[trigger] nodes->Ok_0@[i]).id() == native.ids@[i]
            &&& domains is Ok ==> forall|i: int|
                0 <= i < native.count ==> (#[trigger] domains->Ok_0@[i]).parts() == (
                    level,
                    native.ids@[i],
                )
            &&& native.count < 0 ==> cpus->Err_0 == count_error
            &&& native.count > 0 && !native.present ==> cpus->Err_0 == NativeError::OutOfMemory
            &&& cpus is Err && native.count > 0 && native.present ==> cpus->Err_0
                == NativeError::InvalidParameter
        },
        nodes is Ok <==> cpus is Ok,
        domains is Ok <==> cpus is Ok,
        within is Ok <==> cpus is Ok,
        cpus is Err ==> nodes->Err_0 == cpus->Err_0 && domains->Err_0 == cpus->Err_0
            && within->Err_0 == cpus->Err_0,
        cpus is Ok ==> within->Ok_0@.len() == cpus->Ok_0@.len() && forall|i: int|
            0 <= i < cpus->Ok_0@.len() ==> (#[trigger] within->Ok_0@[i]).id()
                == cpus->Ok_0@[i].id(),
{
}

/// An affinity reaches the native library with the kind and the number that were
/// asked for, and is refused exactly if the number does not fit.
pub proof fn lemma_affinity_is_what_was_asked(
    kind: AffinityKind,
    target: AffinityTarget,
    raw: Result<RawAffinity, NativeError>,
    free: Result<RawAffinity, NativeError>,
    id: u32,
)
    requires
        call_ensures(Affinity::to_raw, (Affinity::Target { kind, target },), raw),
        call_ensures(Affinity::to_raw, (Affinity::Any,), free),
        target matches AffinityTarget::Cpu(cpu) ==> call_ensures(CpuId::get, (cpu,), id),
        target matches AffinityTarget::NumaNode(node) ==> call_ensures(
            NumaNodeId::get,
            (node,),
            id,
        ),
        target matches AffinityTarget::ComplexSet(set) ==> set == id,
    ensures
        raw is Ok <==> id < 0x2000_0000,
        raw matches Ok(raw) ==> raw.kind == kind && raw.index == id && (raw.level
            == AffinityLevel::Cpu <==> target is Cpu) && (raw.level == AffinityLevel::Numa
            <==> target is NumaNode) && (raw.level == AffinityLevel::UserComplex
            <==> target is ComplexSet),
        raw matches Err(error) ==> error == NativeError::InvalidParameter,
        free is Ok && free->Ok_0.level == AffinityLevel::Unplaced,
        free->Ok_0.index == 0 && free->Ok_0.kind == AffinityKind::Preferred,
{
}

/// The shorthands for affinities have the kind and target of their names.
pub proof fn lemma_affinity_shorthands(
    cpu: CpuId,
    node: NumaNodeId,
    preferred_cpu: Affinity,
    strict_cpu: Affinity,
    preferred_node: Affinity,
    strict_node: Affinity,
)
    requires
        call_ensures(Affinity::preferred_cpu, (cpu,), preferred_cpu),
        call_ensures(Affinity::strict_cpu, (cpu,), strict_cpu),
        call_ensures(Affinity::preferred_numa_node, (node,), preferred_node),
        call_ensures(Affinity::strict_numa_node, (node,), strict_node),
    ensures
        preferred_cpu is Target && preferred_cpu->kind is Preferred && preferred_cpu->target
            == AffinityTarget::Cpu(cpu),
        strict_cpu is Target && strict_cpu->kind is Strict && strict_cpu->target
            == AffinityTarget::Cpu(cpu),
        preferred_node is Target && preferred_node->kind is Preferred && preferred_node->target
            == AffinityTarget::NumaNode(node),
        strict_node is Target && strict_node->kind is Strict && strict_node->target
            == AffinityTarget::NumaNode(node),
{
}

/// Statistics are what was measured, if each measurement succeeded, no more is used
/// than there is, and the pressure is a number from zero to one; the first failure
/// is reported.
pub proof fn lemma_statistics_are_plausible(
    used: Result<usize, NativeError>,
    size: Result<usize, NativeError>,
    pressure_bits: Result<u32, NativeError>,
    stats: Result<MemoryStats, NativeError>,
)
    requires
        call_ensures(MemoryStats::check, (used, size, pressure_bits), stats),
    ensures
        stats is Ok <==> used is Ok && size is Ok && pressure_bits is Ok && used->Ok_0
            <= size->Ok_0 && (pressure_bits->Ok_0 <= 0x3f80_0000 || pressure_bits->Ok_0
            == 0x8000_0000),
        stats matches Ok(stats) ==> stats.used == used->Ok_0 && stats.size == size->Ok_0
            && stats.pressure_bits == pressure_bits->Ok_0,
        used matches Err(error) ==> stats == Err::<MemoryStats, NativeError>(error),
        used is Ok && size is Err ==> stats == Err::<MemoryStats, NativeError>(size->Err_0),
        used is Ok && size is Ok && pressure_bits is Err ==> stats == Err::<
            MemoryStats,
            NativeError,
        >(pressure_bits->Err_0),
        used is Ok && size is Ok && pressure_bits is Ok && stats is Err ==> stats->Err_0
            == NativeError::InvalidOperation,
{
}

} // verus!
