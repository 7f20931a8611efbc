//! Shared-memory statistics exposed by nOS-V.
use vstd::prelude::*;
use crate::error::NativeError;

verus! {

/// The bits of the single-precision value one.
pub const ONE_BITS: u32 = 0x3f80_0000;

/// The bits of the single-precision value negative zero.
pub const NEGATIVE_ZERO_BITS: u32 = 0x8000_0000;

/// A checked snapshot of nOS-V shared-memory usage.
#[derive(Clone, Copy, Debug, PartialEq, Eq, Structural)]
pub struct MemoryStats {
    /// Bytes currently in use.
    pub used: usize,
    /// Total shared-memory bytes.
    pub size: usize,
    /// Bits of the single-precision pressure, a number from zero to one.
    pub pressure_bits: u32,
}

/// Whether `bits` encode a single-precision number from zero to one.
///
/// Non-negative single-precision values are ordered like their bits, so these
/// are the bits up to those of one. Negative zero equals zero.
pub open spec fn is_unit_interval(bits: u32) -> bool {
    bits <= ONE_BITS || bits == NEGATIVE_ZERO_BITS
}

impl MemoryStats {
    /// Checks the answers of the three native queries.
    ///
    /// The first query that failed decides the error. Usage beyond the size, or
    /// a pressure outside its range, means that the native answer is unusable.
    pub fn check(
        used: Result<usize, NativeError>,
        size: Result<usize, NativeError>,
        pressure_bits: Result<u32, NativeError>,
    ) -> (result: Result<Self, NativeError>)
        ensures
            result == (match (used, size, pressure_bits) {
                (Err(error), _, _) => Err::<Self, NativeError>(error),
                (Ok(_), Err(error), _) => Err(error),
                (Ok(_), Ok(_), Err(error)) => Err(error),
                (Ok(used), Ok(size), Ok(pressure_bits)) => if used <= size && is_unit_interval(
                    pressure_bits,
                ) {
                    Ok(MemoryStats { used, size, pressure_bits })
                } else {
                    Err(NativeError::InvalidOperation)
                },
            }),
    {
        let used: usize = match used {
            Ok(used) => used,
            Err(error) => {
                return Err(error);
            },
        };
        let size: usize = match size {
            Ok(size) => size,
            Err(error) => {
                return Err(error);
            },
        };
        let pressure_bits: u32 = match pressure_bits {
            Ok(bits) => bits,
            Err(error) => {
                return Err(error);
            },
        };
        if used > size || !(pressure_bits <= ONE_BITS || pressure_bits == NEGATIVE_ZERO_BITS) {
            return Err(NativeError::InvalidOperation);
        }
        Ok(MemoryStats { used, size, pressure_bits })
    }
}

} // verus!
