//! Validated task affinity values.
//!
//! nOS-V encodes affinity as C bitfields. This module replaces those layout-
//! sensitive fields with ordinary enums, validates the 29-bit native index, and
//! converts back only while an unsubmitted task is being built.
use vstd::prelude::*;
use crate::error::NativeError;
use crate::topology::{CpuId, NumaNodeId};

verus! {

/// Largest index representable by the 29-bit field of the native affinity.
pub const MAX_INDEX: u32 = 536_870_911;

/// Whether placement is preferred or mandatory.
#[derive(Clone, Copy, Debug, PartialEq, Eq, Structural)]
pub enum AffinityKind {
    /// Prefer the target but allow nOS-V to choose another placement.
    Preferred,
    /// Require nOS-V to place the task at the selected target.
    Strict,
}

/// A validated nOS-V placement target.
#[derive(Clone, Copy, Debug, PartialEq, Eq, Structural)]
pub enum AffinityTarget {
    /// A system CPU identifier from the runtime's topology view.
    Cpu(CpuId),
    /// A system NUMA-node identifier from the runtime's topology view.
    NumaNode(NumaNodeId),
    /// A native user-defined complex-set identifier.
    ComplexSet(u32),
}

/// Placement fixed before a task's first native submission.
///
/// Affinity is deliberately immutable after spawning because nOS-V documents
/// concurrent or post-submit mutation as undefined.
#[derive(Clone, Copy, Debug, PartialEq, Eq, Structural)]
pub enum Affinity {
    /// Leave placement entirely to nOS-V's scheduler.
    Any,
    /// Apply `target` as either a preference or strict constraint.
    Target {
        /// Placement strength.
        kind: AffinityKind,
        /// Placement target.
        target: AffinityTarget,
    },
}

/// Level field of the native affinity.
#[derive(Clone, Copy, Debug, PartialEq, Eq, Structural)]
pub enum AffinityLevel {
    /// No placement.
    Unplaced,
    /// Placement by CPU.
    Cpu,
    /// Placement by NUMA node.
    Numa,
    /// Placement by user-defined complex set.
    UserComplex,
}

/// The fields of the native affinity, each within its range.
#[derive(Clone, Copy, Debug, PartialEq, Eq, Structural)]
pub struct RawAffinity {
    /// Level field.
    pub level: AffinityLevel,
    /// Type field.
    pub kind: AffinityKind,
    /// Index field, at most [`MAX_INDEX`].
    pub index: u32,
}

impl AffinityTarget {
    /// Level and index of this target.
    pub open spec fn parts(self) -> (AffinityLevel, u32) {
        match self {
            AffinityTarget::Cpu(id) => (AffinityLevel::Cpu, id.id()),
            AffinityTarget::NumaNode(id) => (AffinityLevel::Numa, id.id()),
            AffinityTarget::ComplexSet(id) => (AffinityLevel::UserComplex, id),
        }
    }
}

impl Affinity {
    /// The native form of this value, if its index can be represented.
    pub open spec fn raw(self) -> Option<RawAffinity> {
        match self {
            Affinity::Any => Some(
                RawAffinity {
                    level: AffinityLevel::Unplaced,
                    kind: AffinityKind::Preferred,
                    index: 0,
                },
            ),
            Affinity::Target { kind, target } => if target.parts().1 <= MAX_INDEX {
                Some(RawAffinity { level: target.parts().0, kind, index: target.parts().1 })
            } else {
                None
            },
        }
    }

    /// Constructs a soft preference for `cpu`.
    ///
    /// The CPU index is validated against the native field when the task is
    /// spawned.
    pub fn preferred_cpu(cpu: CpuId) -> (affinity: Self)
        ensures
            affinity == (Affinity::Target {
                kind: AffinityKind::Preferred,
                target: AffinityTarget::Cpu(cpu),
            }),
    {
        Affinity::Target { kind: AffinityKind::Preferred, target: AffinityTarget::Cpu(cpu) }
    }

    /// Constructs a strict placement requirement for `cpu`.
    pub fn strict_cpu(cpu: CpuId) -> (affinity: Self)
        ensures
            affinity == (Affinity::Target {
                kind: AffinityKind::Strict,
                target: AffinityTarget::Cpu(cpu),
            }),
    {
        Affinity::Target { kind: AffinityKind::Strict, target: AffinityTarget::Cpu(cpu) }
    }

    /// Constructs a soft preference for `node`.
    pub fn preferred_numa_node(node: NumaNodeId) -> (affinity: Self)
        ensures
            affinity == (Affinity::Target {
                kind: AffinityKind::Preferred,
                target: AffinityTarget::NumaNode(node),
            }),
    {
        Affinity::Target { kind: AffinityKind::Preferred, target: AffinityTarget::NumaNode(node) }
    }

    /// Constructs a strict placement requirement for `node`.
    pub fn strict_numa_node(node: NumaNodeId) -> (affinity: Self)
        ensures
            affinity == (Affinity::Target {
                kind: AffinityKind::Strict,
                target: AffinityTarget::NumaNode(node),
            }),
    {
        Affinity::Target { kind: AffinityKind::Strict, target: AffinityTarget::NumaNode(node) }
    }

    /// Encodes this value into the fields of the native affinity.
    ///
    /// Every field is filled, and indices that would otherwise be truncated are
    /// rejected.
    pub fn to_raw(self) -> (result: Result<RawAffinity, NativeError>)
        ensures
            result == (match self.raw() {
                Some(raw) => Ok::<RawAffinity, NativeError>(raw),
                None => Err(NativeError::InvalidParameter),
            }),
    {
        match self {
            Affinity::Any => Ok(
                RawAffinity {
                    level: AffinityLevel::Unplaced,
                    kind: AffinityKind::Preferred,
                    index: 0,
                },
            ),
            Affinity::Target { kind, target } => {
                let (level, index): (AffinityLevel, u32) = match target {
                    AffinityTarget::Cpu(id) => (AffinityLevel::Cpu, id.get()),
                    AffinityTarget::NumaNode(id) => (AffinityLevel::Numa, id.get()),
                    AffinityTarget::ComplexSet(id) => (AffinityLevel::UserComplex, id),
                };
                if index > MAX_INDEX {
                    return Err(NativeError::InvalidParameter);
                }
                Ok(RawAffinity { level, kind, index })
            },
        }
    }
}

/// An encoded index is the identifier itself and fits the native field; no two
/// targets of one level share an encoding.
pub proof fn lemma_no_truncation(a: Affinity, b: Affinity)
    ensures
        a.raw() matches Some(raw) ==> raw.index < 0x2000_0000,
        a matches Affinity::Target { target, .. } ==> (a.raw() matches Some(raw) ==> raw.index
            == target.parts().1),
        a.raw() is Some && a.raw() == b.raw() ==> match (a, b) {
            (
                Affinity::Target { kind: first_kind, target: first },
                Affinity::Target { kind: second_kind, target: second },
            ) => first_kind == second_kind && first.parts() == second.parts(),
            (Affinity::Any, Affinity::Any) => true,
            _ => false,
        },
{
}

} // verus!
