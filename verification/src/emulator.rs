//! The emulator: a hart over a freshly loaded memory, and the ELF loader.
use vstd::prelude::*;
use vstd::string::StringSliceAdditionalSpecFns;
use crate::bus::{Bus, BusView};
use crate::cmd::Command;
use crate::conf::{MEM_OFF, STACK_BOTTOM};
use crate::cpu::register::RegisterView;
use crate::cpu::{Cpu, CpuView, Mode};
use crate::dram::{load_image, load_segment, Dram, Dump};
use crate::error::{Error, LoadError};
use crate::plic::{Plic, PlicView};
use crate::uart::{Uart, UartView};
use crate::virtio::Virtio;

verus! {

pub const ENTRY_POINT_OFFSET: usize = 0x18;
pub const PROGRAM_HEADER_OFFSET: usize = 0x20;
pub const PROGRAM_HEADER_SIZE_OFFSET: usize = 0x36;
pub const PROGRAM_HEADER_NUM_OFFSET: usize = 0x38;
pub const SEGMENT_TYPE_LOAD: u64 = 0x1;
pub const SEGMENT_OFFSET_OFFSET: u64 = 0x8;
pub const SEGMENT_PHYS_ADDR_OFFSET: u64 = 0x18;
pub const SEGMENT_SIZE_OFFSET: u64 = 0x20;

/// The little-endian number in the `size` bytes of `data` from `idx` on; 0
/// where `size` is 0.
pub open spec fn ltl(data: Seq<u8>, idx: int, size: int) -> u64
    decreases size,
{
    if size <= 0 {
        0
    } else {
        ltl(data, idx, size - 1) | ((data[idx + size - 1] as u64) << (8 * (size - 1)) as u64)
    }
}

/// A field of up to eight bytes at `idx`, if the data holds all of it.
pub open spec fn field(data: Seq<u8>, idx: int, size: int) -> Option<u64> {
    if 0 <= size <= 8 && 0 <= idx && idx + size <= data.len() {
        Some(ltl(data, idx, size))
    } else {
        None
    }
}

/// Whether the data does not start with the ELF magic number.
pub open spec fn not_elf(data: Seq<u8>) -> bool {
    data.len() < 4 || data[0] != 0x7F || data[1] != 0x45 || data[2] != 0x4C || data[3] != 0x46
}

/// What loading the segments of the program headers from the `i`-th on does
/// to memory. The headers are `ph_size` bytes apart from `ph_off` on, and
/// there are `ph_num` of them; a header of the loadable type names the
/// range of the file that goes to memory and the physical address it goes
/// to. The first header or segment that cannot be read stops it; what was
/// loaded before stays loaded.
pub open spec fn load_segments(mem: Seq<u8>, data: Seq<u8>, ph_off: u64, ph_size: u64, i: u64, ph_num: u64) -> (
    Seq<u8>,
    Result<(), LoadError>,
)
    decreases ph_num - i,
{
    if i >= ph_num {
        (mem, Ok(()))
    } else {
        let ph_addr = ph_off + i * ph_size;
        match field(data, ph_addr, 4) {
            None => (mem, Err(LoadError::Truncated)),
            Some(seg_type) => if seg_type != SEGMENT_TYPE_LOAD {
                load_segments(mem, data, ph_off, ph_size, (i + 1) as u64, ph_num)
            } else {
                match (
                    field(data, ph_addr + SEGMENT_OFFSET_OFFSET, 8),
                    field(data, ph_addr + SEGMENT_PHYS_ADDR_OFFSET, 8),
                    field(data, ph_addr + SEGMENT_SIZE_OFFSET, 8),
                ) {
                    (Some(seg_off), Some(seg_phys_addr), Some(seg_size)) => match load_segment(
                        mem,
                        data,
                        seg_off as int,
                        seg_phys_addr as int,
                        seg_size as int,
                    ) {
                        Ok(m) => load_segments(m, data, ph_off, ph_size, (i + 1) as u64, ph_num),
                        Err(e) => (mem, Err(e)),
                    },
                    _ => (mem, Err(LoadError::Truncated)),
                }
            },
        }
    }
}

/// What loading an ELF file does to memory: the table of program headers is
/// found through the file header, and every loadable segment is loaded.
pub open spec fn load_program_spec(mem: Seq<u8>, data: Seq<u8>) -> (Seq<u8>, Result<(), LoadError>) {
    match (
        field(data, PROGRAM_HEADER_OFFSET as int, 8),
        field(data, PROGRAM_HEADER_SIZE_OFFSET as int, 2),
        field(data, PROGRAM_HEADER_NUM_OFFSET as int, 2),
    ) {
        (Some(ph_off), Some(ph_size), Some(ph_num)) => load_segments(mem, data, ph_off, ph_size, 0, ph_num),
        _ => (mem, Err(LoadError::Truncated)),
    }
}

/// What DRAM holds when the emulator starts, and where the hart starts: a
/// zeroed memory of `mem_size` bytes, then the hex image, then the ELF file,
/// whichever of them are given. The entry point is that of the ELF file,
/// and the DRAM base where none is given.
pub open spec fn boot(mem_size: usize, image: Option<Seq<u8>>, elf: Option<Seq<u8>>) -> Result<
    (Seq<u8>, u64),
    LoadError,
> {
    let zeroed = Seq::new(mem_size as nat, |i: int| 0u8);
    let with_image = match image {
        None => Ok(zeroed),
        Some(text) => load_image(zeroed, text),
    };
    match with_image {
        Err(e) => Err(e),
        Ok(mem) => match elf {
            None => Ok((mem, MEM_OFF)),
            Some(data) => if not_elf(data) {
                Err(LoadError::NotElf)
            } else {
                match field(data, ENTRY_POINT_OFFSET as int, 8) {
                    None => Err(LoadError::Truncated),
                    Some(entry) => match load_program_spec(mem, data).1 {
                        Err(e) => Err(e),
                        Ok(_) => Ok((load_program_spec(mem, data).0, entry)),
                    },
                }
            },
        },
    }
}

/// The emulator: one hart, and where it starts.
pub struct Emulator {
    pub cpu: Cpu,
    pub entry_point: u64,
}

impl Emulator {
    /// Builds the emulator that the command asks for. `image` is the text of
    /// the hex memory image and `elf` the bytes of the ELF file, where the
    /// command names one.
    pub fn new(cmd: &Command, image: Option<&str>, elf: Option<&Vec<u8>>) -> (r: Result<Emulator, LoadError>)
        ensures
            match r {
                Ok(emu) => {
                    &&& cmd.mem_size matches Some(mem_size)
                    &&& boot(
                        mem_size,
                        match image {
                            Some(t) => Some(t.spec_bytes()),
                            None => None,
                        },
                        match elf {
                            Some(d) => Some(d@),
                            None => None,
                        },
                    ) matches Ok((mem, entry))
                    &&& emu.entry_point == entry
                    &&& emu.cpu.wf()
                    &&& emu.cpu@ == (CpuView {
                        dbg: cmd.dbg,
                        dbg_step: cmd.dbg.bp == 0,
                        bus: BusView {
                            dram: mem,
                            uart: UartView::reset(),
                            plic: PlicView::reset(),
                            virtio: Virtio {
                                mmio_status: 0,
                                mmio_driver_features: 0,
                                mmio_guest_page_size: 0,
                                mmio_queue_sel: 0,
                            },
                        },
                        rsv_words: mem_size / 32 * 8,
                        rsv: Set::empty(),
                        mode: Mode::M,
                        mtime: 0,
                        mtimecmp: 0,
                        reg: RegisterView::reset(),
                    })
                },
                Err(e) => match cmd.mem_size {
                    None => e == LoadError::NoMemorySize,
                    Some(mem_size) => boot(
                        mem_size,
                        match image {
                            Some(t) => Some(t.spec_bytes()),
                            None => None,
                        },
                        match elf {
                            Some(d) => Some(d@),
                            None => None,
                        },
                    ) == Err::<(Seq<u8>, u64), LoadError>(e),
                },
            },
    {
        let mem_size = match cmd.mem_size {
            Some(n) => n,
            None => {
                return Err(LoadError::NoMemorySize);
            },
        };
        let mut dram = Dram::new(mem_size);
        let mut entry_point = MEM_OFF;
        if let Some(text) = image {
            match dram.load(text) {
                Ok(_) => {},
                Err(e) => {
                    return Err(e);
                },
            }
        }
        if let Some(data) = elf {
            if is_not_elf(data) {
                return Err(LoadError::NotElf);
            }
            entry_point = match get_ltl(data, ENTRY_POINT_OFFSET, 8) {
                Some(e) => e,
                None => {
                    return Err(LoadError::Truncated);
                },
            };
            match load_program(&mut dram, data) {
                Ok(_) => {},
                Err(e) => {
                    return Err(e);
                },
            }
        }
        let bus = Bus::new(dram, Uart::new(), Plic::new(), Virtio::new());
        Ok(Emulator { cpu: Cpu::new(bus, mem_size, cmd.dbg), entry_point })
    }

    /// The bytes that a dump of the physical addresses `begin` to `end`
    /// shows, in whole rows of 16.
    pub fn print_dram(&self, begin: usize, end: usize) -> (r: Result<Dump, Error>)
        ensures
            match r {
                Ok(d) => {
                    let lo = (begin - MEM_OFF) - (begin - MEM_OFF) % 16;
                    let hi = (end - MEM_OFF + 15) / 16 * 16;
                    &&& MEM_OFF <= begin <= end
                    &&& hi <= self.cpu@.bus.dram.len()
                    &&& d.base == lo + MEM_OFF
                    &&& d.bytes@ == self.cpu@.bus.dram.subrange(lo, hi)
                },
                Err(e) => {
                    &&& e == Error::InvalidAddress
                    &&& (begin < MEM_OFF || end < begin || (end - MEM_OFF + 15) / 16 * 16 > self.cpu@.bus.dram.len())
                },
            },
    {
        self.cpu.pdram_range(begin, end)
    }

    /// The hart, for a dump of its registers.
    pub fn print_cpu(&self) -> (r: &Cpu)
        ensures
            r@ == self.cpu@,
    {
        &self.cpu
    }

    /// Starts the hart at the entry point and runs it for up to `limit`
    /// ticks. Tells whether the debugger stopped it.
    pub fn exec(&mut self, limit: u64) -> (r: Result<bool, Error>)
        requires
            old(self).cpu.wf(),
        ensures
            final(self).cpu.wf(),
            final(self).entry_point == old(self).entry_point,
            (final(self).cpu@, r) == old(self).cpu@.write_x(2, STACK_BOTTOM).write_pc(old(self).entry_point).run(
                limit as nat,
            ),
    {
        self.cpu.init(self.entry_point);
        self.cpu.run(limit)
    }
}

/// Reads the `size` bytes of `data` from `idx` on as a little-endian
/// number; 0 where `size` is 0. `None` where the data ends before the field
/// does, and for a field of more than eight bytes.
pub fn get_ltl(data: &Vec<u8>, idx: usize, size: usize) -> (r: Option<u64>)
    ensures
        r == field(data@, idx as int, size as int),
{
    if size > 8 || idx > data.len() || size > data.len() - idx {
        return None;
    }
    let mut addr: u64 = 0;
    let mut i: usize = 0;
    while i < size
        invariant
            i <= size <= 8,
            idx + size <= data@.len() <= usize::MAX,
            addr == ltl(data@, idx as int, i as int),
        decreases size - i,
    {
        addr |= (data[idx + i] as u64) << (8 * i as u64);
        i += 1;
    }
    Some(addr)
}

/// Tells whether the data does not start with the ELF magic number.
pub fn is_not_elf(data: &Vec<u8>) -> (r: bool)
    ensures
        r == not_elf(data@),
{
    if data.len() < 4 {
        return true;
    }
    if data[0] != 0x7F || data[1] != 0x45 || data[2] != 0x4C || data[3] != 0x46 {
        return true;
    }
    false
}

/// Reads a field of a program header; `None` where the data ends before it.
fn header_field(data: &Vec<u8>, ph_addr: u64, offset: u64, size: usize) -> (r: Option<u64>)
    requires
        offset <= 0x20,
    ensures
        r == field(data@, ph_addr + offset, size as int),
{
    let len = data.len();
    if ph_addr > u64::MAX - offset || ph_addr + offset > len as u64 {
        return None;
    }
    get_ltl(data, (ph_addr + offset) as usize, size)
}

/// Loads the loadable segments of an ELF file into DRAM.
pub fn load_program(dram: &mut Dram, data: &Vec<u8>) -> (r: Result<(), LoadError>)
    ensures
        (final(dram)@, r) == load_program_spec(old(dram)@, data@),
{
    let ph_off = get_ltl(data, PROGRAM_HEADER_OFFSET, 8);
    let ph_size = get_ltl(data, PROGRAM_HEADER_SIZE_OFFSET, 2);
    let ph_num = get_ltl(data, PROGRAM_HEADER_NUM_OFFSET, 2);
    let (ph_off, ph_size, ph_num) = match (ph_off, ph_size, ph_num) {
        (Some(a), Some(b), Some(c)) => (a, b, c),
        _ => {
            return Err(LoadError::Truncated);
        },
    };
    let len = data.len() as u64;
    let mut i: u64 = 0;
    while i < ph_num
        invariant
            i <= ph_num,
            len == data@.len(),
            load_program_spec(old(dram)@, data@) == load_segments(old(dram)@, data@, ph_off, ph_size, 0, ph_num),
            data@.len() <= usize::MAX,
            load_segments(dram@, data@, ph_off, ph_size, i, ph_num) == load_segments(
                old(dram)@,
                data@,
                ph_off,
                ph_size,
                0,
                ph_num,
            ),
        decreases ph_num - i,
    {
        let ph_addr = match i.checked_mul(ph_size) {
            Some(v) => ph_off.checked_add(v),
            None => None,
        };
        let ph_addr = match ph_addr {
            Some(v) => v,
            None => {
                return Err(LoadError::Truncated);
            },
        };
        let seg_type = match header_field(data, ph_addr, 0, 4) {
            Some(v) => v,
            None => {
                return Err(LoadError::Truncated);
            },
        };
        if seg_type == SEGMENT_TYPE_LOAD {
            let seg_off = header_field(data, ph_addr, SEGMENT_OFFSET_OFFSET, 8);
            let seg_phys_addr = header_field(data, ph_addr, SEGMENT_PHYS_ADDR_OFFSET, 8);
            let seg_size = header_field(data, ph_addr, SEGMENT_SIZE_OFFSET, 8);
            let (seg_off, seg_phys_addr, seg_size) = match (seg_off, seg_phys_addr, seg_size) {
                (Some(a), Some(b), Some(c)) => (a, b, c),
                _ => {
                    return Err(LoadError::Truncated);
                },
            };
            if seg_off > len || seg_size > len - seg_off {
                return Err(LoadError::Truncated);
            }
            match dram.load_seg(data, seg_off as usize, seg_phys_addr, seg_size as usize) {
                Ok(_) => {},
                Err(e) => {
                    return Err(e);
                },
            }
        }
        i += 1;
    }
    Ok(())
}

} // verus!
