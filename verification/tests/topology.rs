//! Identifiers, affinities, topology snapshots and memory statistics.
use nosv::affinity::{
    Affinity, AffinityKind, AffinityLevel, AffinityTarget, RawAffinity, MAX_INDEX,
};
use nosv::error::{NativeError, StatusCodes};
use nosv::memory::MemoryStats;
use nosv::topology::{
    collect_domains, copy_plan, native_count_error, CopyPlan, CpuId, DomainId, NativeIds,
    NumaNodeId, Topology, TopologyLevel,
};

fn codes() -> StatusCodes {
    StatusCodes {
        success: 0,
        invalid_callback: -1,
        invalid_metadata_size: -2,
        invalid_operation: -3,
        invalid_parameter: -4,
        not_initialized: -5,
        out_of_memory: -6,
        outside_task: -7,
        busy: -8,
        timeout: -9,
    }
}

#[test]
fn identifiers_reject_signed_abi_overflow_and_negative_domains() {
    assert_eq!(CpuId::new(i32::MAX as u32).unwrap().get(), i32::MAX as u32);
    assert_eq!(CpuId::new(i32::MAX as u32 + 1), Err(NativeError::InvalidParameter));
    assert_eq!(NumaNodeId::from_native(-1), Err(NativeError::InvalidParameter));
    assert_eq!(DomainId::new(TopologyLevel::Cpu, -1), Err(NativeError::InvalidParameter));
    let domain = DomainId::new(TopologyLevel::Numa, 7).unwrap();
    assert_eq!(domain.level(), TopologyLevel::Numa);
    assert_eq!(domain.system_id(), 7);
}

#[test]
fn affinity_index_boundary_is_checked_without_truncation() {
    let maximum = CpuId::new(MAX_INDEX).unwrap();
    assert!(Affinity::strict_cpu(maximum).to_raw().is_ok());
    let too_large = CpuId::new(MAX_INDEX + 1).unwrap();
    assert!(matches!(
        Affinity::preferred_cpu(too_large).to_raw(),
        Err(NativeError::InvalidParameter)
    ));
    assert!(Affinity::Any.to_raw().is_ok());
}

#[test]
fn affinities_name_level_kind_and_index() {
    let cpu = CpuId::new(3).unwrap();
    let node = NumaNodeId::new(4).unwrap();
    assert_eq!(
        Affinity::preferred_cpu(cpu).to_raw(),
        Ok(RawAffinity { level: AffinityLevel::Cpu, kind: AffinityKind::Preferred, index: 3 })
    );
    assert_eq!(
        Affinity::strict_cpu(cpu).to_raw(),
        Ok(RawAffinity { level: AffinityLevel::Cpu, kind: AffinityKind::Strict, index: 3 })
    );
    assert_eq!(
        Affinity::preferred_numa_node(node).to_raw(),
        Ok(RawAffinity { level: AffinityLevel::Numa, kind: AffinityKind::Preferred, index: 4 })
    );
    assert_eq!(
        Affinity::strict_numa_node(node).to_raw(),
        Ok(RawAffinity { level: AffinityLevel::Numa, kind: AffinityKind::Strict, index: 4 })
    );
    let complex = Affinity::Target {
        kind: AffinityKind::Strict,
        target: AffinityTarget::ComplexSet(MAX_INDEX),
    };
    assert_eq!(
        complex.to_raw(),
        Ok(RawAffinity {
            level: AffinityLevel::UserComplex,
            kind: AffinityKind::Strict,
            index: MAX_INDEX,
        })
    );
    let complex = Affinity::Target {
        kind: AffinityKind::Strict,
        target: AffinityTarget::ComplexSet(MAX_INDEX + 1),
    };
    assert_eq!(complex.to_raw(), Err(NativeError::InvalidParameter));
    assert_eq!(MAX_INDEX, (1 << 29) - 1);
}

#[test]
fn native_counts_decide_what_is_copied() {
    let codes = codes();
    assert_eq!(copy_plan(&codes, 0, false), CopyPlan::Empty);
    assert_eq!(copy_plan(&codes, 3, true), CopyPlan::Copy(3));
    assert_eq!(copy_plan(&codes, -6, true), CopyPlan::Fail(NativeError::OutOfMemory));
    assert_eq!(native_count_error(&codes, -8), NativeError::Busy);
    assert_eq!(native_count_error(&codes, -77), NativeError::Unknown(-77));
}

fn answer(ids: Vec<i32>) -> Option<NativeIds> {
    Some(NativeIds { count: ids.len() as i32, present: true, ids })
}

#[test]
fn snapshots_are_validated() {
    let topology = Topology { codes: codes() };
    assert_eq!(
        topology.cpus(answer(vec![4, 9])),
        Ok(vec![CpuId::new(4).unwrap(), CpuId::new(9).unwrap()])
    );
    assert_eq!(topology.cpus(None), Err(NativeError::NotInitialized));
    assert_eq!(topology.cpus(answer(vec![])), Ok(vec![]));
    assert_eq!(topology.numa_nodes(answer(vec![0, -1])), Err(NativeError::InvalidParameter));
    let absent = |count| Some(NativeIds { count, present: false, ids: vec![] });
    assert_eq!(topology.cpus_in(absent(-5)), Err(NativeError::NotInitialized));
    assert_eq!(topology.cpus_in(absent(3)), Err(NativeError::OutOfMemory));
    assert_eq!(
        topology.domains(TopologyLevel::Core, answer(vec![5])),
        Ok(vec![DomainId::new(TopologyLevel::Core, 5).unwrap()])
    );
    assert_eq!(
        collect_domains(TopologyLevel::Core, vec![1, -2]),
        Err(NativeError::InvalidParameter)
    );
}

#[test]
fn memory_statistics_are_checked() {
    let half = 0.5f32.to_bits();
    assert_eq!(
        MemoryStats::check(Ok(3), Ok(8), Ok(half)),
        Ok(MemoryStats { used: 3, size: 8, pressure_bits: half })
    );
    for pressure in [0.0f32, -0.0, 1.0] {
        assert!(MemoryStats::check(Ok(8), Ok(8), Ok(pressure.to_bits())).is_ok());
    }
    for pressure in [-0.1f32, 1.0000001, f32::NAN, f32::INFINITY, f32::NEG_INFINITY] {
        assert!(MemoryStats::check(Ok(3), Ok(8), Ok(pressure.to_bits())).is_err());
    }
    assert!(MemoryStats::check(Ok(9), Ok(8), Ok(half)).is_err());
    assert_eq!(
        MemoryStats::check(Err(NativeError::Busy), Ok(8), Ok(half)),
        Err(NativeError::Busy)
    );
}
