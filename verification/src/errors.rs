use vstd::prelude::*;

use crate::instructions::Op;

verus! {

/// The conditions under which the core refuses to continue.
///
/// Every one of these is unrecoverable at the point of detection: the core
/// reports it to the driver instead of guessing a fallback, so that gaps and
/// misuses stay visible to test harnesses.
#[derive(Clone, Copy, Debug, PartialEq, Eq, Structural)]
pub enum NesError {
    /// An operation whose semantics were never completed; the variant
    /// names the mnemonic.
    UnimplementedInstruction { op: Op },
    /// A register port whose handler was never completed (port is the CPU
    /// address of the port, decoded modulo 8).
    UnimplementedPort { port: u8 },
    /// A read from a write-only register port, or a write to the read-only
    /// status port.
    InvalidPortAccess { port: u8 },
    /// A write to read-only memory, or any access outside the defined
    /// decode ranges.
    InvalidMemoryAccess { address: u16 },
    /// The maskable interrupt line is acknowledged but not supported.
    UnsupportedInterrupt,
    /// A cartridge image whose header or length does not fit the format.
    MalformedImage,
    /// A cartridge image whose bank layout is not the fixed-mapping one
    /// this core supports.
    UnsupportedCartridge,
}

/// Relates a mutation's outcome to its specification: on `Ok` the state
/// became the specified one, on `Err` the specified error came back and the
/// state did not move.
pub open spec fn evolves_to<T>(
    pre: T,
    post: T,
    r: Result<(), NesError>,
    target: Result<T, NesError>,
) -> bool {
    match target {
        Ok(t) => r is Ok && post == t,
        Err(e) => r == Err::<(), NesError>(e) && post == pre,
    }
}

} // verus!
