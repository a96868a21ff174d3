//! The errors of the core and of the loaders.
use vstd::prelude::*;

verus! {

/// The ways in which the core refuses a request.
#[derive(Debug, Clone, Copy, PartialEq, Eq, Structural)]
pub enum Error {
    /// The opcode and funct fields name no instruction.
    InvalidInstruction,
    /// The CSR index is outside the supported set.
    InvalidRegister,
    /// The address matches no device and lies outside DRAM.
    InvalidAddress,
    /// The address of an LR or SC is not naturally aligned.
    MisalignedReservation,
    /// The Sv39 walk ended without a valid leaf.
    PageFault,
    /// The PMP scan denied the access.
    PMPFault,
    /// The request needs a feature that the emulator does not have.
    Unimplemented,
}

/// The ways in which a memory image or an ELF file is refused.
#[derive(Debug, Clone, Copy, PartialEq, Eq, Structural)]
pub enum LoadError {
    /// The hex text has an odd number of characters.
    OddLength,
    /// The text holds a character that is no hex digit.
    NotHex,
    /// The image does not fit in DRAM.
    TooBig,
    /// The file does not start with the ELF magic number.
    NotElf,
    /// The file ends before a field or a segment that it announces.
    Truncated,
    /// A segment is to be placed outside DRAM.
    OutsideDram,
    /// No DRAM size is given.
    NoMemorySize,
}

/// What an operation that may fail did to a state: on success the state is
/// the one wanted, on failure the error is reported and the state is untouched.
pub open spec fn refines<S>(pre: S, post: S, got: Result<(), Error>, want: Result<S, Error>) -> bool {
    match want {
        Ok(s) => got is Ok && post == s,
        Err(e) => got == Err::<(), Error>(e) && post == pre,
    }
}

} // verus!
