//! A single-hart RV64IMA emulator core: decoder, register file, execution
//! engine, trap unit, Sv39 translation, PMP and the memory-mapped bus.
pub mod bus;
pub mod cmd;
pub mod conf;
pub mod cpu;
pub mod dbg;
pub mod dram;
pub mod emulator;
pub mod error;
pub mod plic;
pub mod uart;
pub mod util;
pub mod virtio;
