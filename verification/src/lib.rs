//! Verified core of a futures-based runtime for nOS-V.
//!
//! The crate holds the decisions of the runtime as state machines on plain
//! values: which descriptor a wake submits, how a task ends, which timers are
//! due, where a completion is routed, what a driver does after a pass. Callers
//! perform the native and kernel operations that the machines ask for and hand
//! their outcomes back. Values that only a caller can hold are type parameters:
//! `W` stands for wakers, `R` for native descriptors, `P` for panic payloads.
//!
//! Scheduling is cooperative. A future that never returns from its poll cannot
//! be cancelled and can prevent runtime shutdown.
pub mod affinity;
pub mod clock;
pub mod errno;
pub mod error;
pub mod framing;
pub mod fs;
pub mod io;
pub mod io_uring;
pub mod laws;
pub mod memory;
pub mod net;
pub mod park;
pub mod runtime;
mod sealed;
pub mod table;
pub mod task;
pub mod text;
pub mod time;
pub mod topology;
pub mod waker;

pub use affinity::{Affinity, AffinityKind, AffinityTarget};
pub use error::{
    BlockOnError, InitError, JoinError, NativeError, RuntimeClosed, ShutdownError, SpawnError,
};
pub use memory::MemoryStats;
pub use runtime::RuntimeBuilder;
pub use task::{AbortHandle, JoinHandle, TaskBuilder};
pub use topology::{CpuId, DomainId, NumaNodeId, Topology, TopologyLevel};
