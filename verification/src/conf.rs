//! The constants that lay out the machine.
use vstd::prelude::*;

verus! {

/// Physical address at which DRAM starts; everything below is memory-mapped I/O.
pub const MEM_OFF: u64 = 0x8000_0000;

/// DRAM size in bytes when none is given.
pub const MEMORY_SIZE: usize = 0x800_0000;

/// Initial stack pointer: the top of the default DRAM.
pub const STACK_BOTTOM: u64 = 0x8800_0000;

/// What `mtime` gains with each retired instruction.
pub const MTIME_STEP: u64 = 2500;

} // verus!
