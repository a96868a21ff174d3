//! The hart: its state, its path to memory, the dispatch of decoded
//! instructions, and the tick that retires one instruction.
pub mod arith;
pub mod atomic;
pub mod instructions;
pub mod integer;
pub mod mmu;
pub mod muldiv;
pub mod register;
pub mod reservation;
pub mod system;
pub mod trap;

use vstd::prelude::*;
use crate::bus::{Bus, BusView, Width};
use crate::conf::{MEM_OFF, MTIME_STEP, STACK_BOTTOM};
use crate::dram::Dump;
use crate::error::{refines, Error};
use instructions::{decode_spec, InstName, Instruction};
use register::{Register, RegisterView};
use reservation::{covered_words, reserved_words};

verus! {

/// Address of the memory-mapped timer.
pub const MTIME: u64 = 0x200_BFF8;

/// Address of the memory-mapped timer comparand.
pub const MTIMECMP: u64 = 0x200_4000;

/// Privilege mode.
#[derive(Debug, Clone, Copy, PartialEq, Eq, Structural)]
pub enum Mode {
    M,
    S,
    U,
}

/// The kind of an access, for translation and PMP.
#[derive(Debug, Clone, Copy, PartialEq, Eq, Structural)]
pub enum PMPPerm {
    R,
    W,
    X,
}

/// One hart with what it owns: registers, bus, reservations, timer.
#[derive(Debug)]
pub struct Cpu {
    pub dbg: crate::dbg::Debug,
    /// Whether the debugger stops after every instruction.
    pub dbg_step: bool,
    pub bus: Bus,
    /// Reservation bitmap: one bit for each four bytes of DRAM.
    pub mem_reserved_w: Vec<u8>,
    /// Privilege mode.
    pub mode: Mode,
    pub mtime: u64,
    pub mtimecmp: u64,
    pub reg: Register,
}

/// The state of the hart as the instructions see it.
pub struct CpuView {
    pub dbg: crate::dbg::Debug,
    pub dbg_step: bool,
    pub bus: BusView,
    /// How many words of DRAM can be reserved.
    pub rsv_words: int,
    /// The reserved words: a word is four bytes of DRAM, and its index is
    /// its offset divided by four.
    pub rsv: Set<int>,
    pub mode: Mode,
    pub mtime: u64,
    pub mtimecmp: u64,
    pub reg: RegisterView,
}

impl CpuView {
    pub open spec fn wf(self) -> bool {
        self.bus.wf()
    }

    /// The value of integer register `reg`.
    pub open spec fn x(self, reg: u8) -> u64 {
        self.reg.x[reg as int]
    }

    /// The state after a write of `value` to integer register `reg`.
    pub open spec fn write_x(self, reg: u8, value: u64) -> CpuView {
        CpuView { reg: self.reg.write_x(reg, value), ..self }
    }

    /// The state with the program counter at `pc`.
    pub open spec fn write_pc(self, pc: u64) -> CpuView {
        CpuView { reg: self.reg.write_pc(pc), ..self }
    }

    /// The state after a write of `value` to the CSR `idx`.
    pub open spec fn write_csr(self, idx: u16, value: u64) -> CpuView {
        CpuView { reg: self.reg.write_csr(idx, value), ..self }
    }

    /// What a load from the device address `addr` gives: the timer
    /// registers are the hart's own, everything else is the bus's.
    pub open spec fn l_mm(self, addr: u64) -> Result<u64, Error> {
        if addr == MTIME {
            Ok(self.mtime)
        } else if addr == MTIMECMP {
            Ok(self.mtimecmp)
        } else {
            self.bus.l_mm(addr)
        }
    }

    /// What a store of `data` to the device address `addr` gives.
    pub open spec fn s_mm(self, addr: u64, data: u64) -> Result<CpuView, Error> {
        if addr == MTIME {
            Ok(CpuView { mtime: data, ..self })
        } else if addr == MTIMECMP {
            Ok(CpuView { mtimecmp: data, ..self })
        } else {
            match self.bus.s_mm(addr, data) {
                Ok(bus) => Ok(CpuView { bus, ..self }),
                Err(e) => Err(e),
            }
        }
    }

    /// What a load of the given width from the physical address `pa` gives,
    /// zero-extended: below the DRAM base the timer registers or a device
    /// answer, and the value is cut to the width; from the base on the bus
    /// answers.
    pub open spec fn phys_load(self, pa: u64, width: Width) -> Result<u64, Error> {
        if pa < MEM_OFF {
            match self.l_mm(pa) {
                Ok(v) => Ok(v & width.mask()),
                Err(e) => Err(e),
            }
        } else {
            self.bus.load(width, pa)
        }
    }

    /// What a store of the low bytes of `value` to the physical address `pa`
    /// gives.
    pub open spec fn phys_store(self, pa: u64, width: Width, value: u64) -> Result<CpuView, Error> {
        if pa < MEM_OFF {
            self.s_mm(pa, value & width.mask())
        } else {
            match self.bus.store(width, pa, value) {
                Ok(bus) => Ok(CpuView { bus, ..self }),
                Err(e) => Err(e),
            }
        }
    }

    /// What executing a decoded instruction gives: the state after it, or
    /// the error that it ends in.
    pub open spec fn exec(self, inst: Instruction) -> Result<CpuView, Error> {
        match inst.name {
            InstName::Lui => Ok(self.lui(inst)),
            InstName::Auipc => Ok(self.auipc(inst)),
            InstName::Jal => Ok(self.jal(inst)),
            InstName::Jalr => Ok(self.jalr(inst)),
            InstName::Beq => Ok(self.beq(inst)),
            InstName::Bne => Ok(self.bne(inst)),
            InstName::Blt => Ok(self.blt(inst)),
            InstName::Bge => Ok(self.bge(inst)),
            InstName::Bltu => Ok(self.bltu(inst)),
            InstName::Bgeu => Ok(self.bgeu(inst)),
            InstName::Lb => self.lb(inst),
            InstName::Lh => self.lh(inst),
            InstName::Lw => self.lw(inst),
            InstName::Lbu => self.lbu(inst),
            InstName::Lhu => self.lhu(inst),
            InstName::Sb => self.sb(inst),
            InstName::Sh => self.sh(inst),
            InstName::Sw => self.sw(inst),
            InstName::Addi => Ok(self.addi(inst)),
            InstName::Slti => Ok(self.slti(inst)),
            InstName::Sltiu => Ok(self.sltiu(inst)),
            InstName::Xori => Ok(self.xori(inst)),
            InstName::Ori => Ok(self.ori(inst)),
            InstName::Andi => Ok(self.andi(inst)),
            InstName::Slli => Ok(self.slli(inst)),
            InstName::Srli => Ok(self.srli(inst)),
            InstName::Srai => Ok(self.srai(inst)),
            InstName::Add => Ok(self.add(inst)),
            InstName::Sub => Ok(self.sub(inst)),
            InstName::Sll => Ok(self.sll(inst)),
            InstName::Slt => Ok(self.slt(inst)),
            InstName::Sltu => Ok(self.sltu(inst)),
            InstName::Xor => Ok(self.xor(inst)),
            InstName::Srl => Ok(self.srl(inst)),
            InstName::Sra => Ok(self.sra(inst)),
            InstName::Or => Ok(self.or(inst)),
            InstName::And => Ok(self.and(inst)),
            InstName::Fence => Ok(self.fence(inst)),
            InstName::FenceI => Ok(self.fence_i(inst)),
            InstName::Ecall => self.ecall(inst),
            InstName::Ebreak => self.ebreak(inst),
            InstName::Csrrw => self.csrrw(inst),
            InstName::Csrrs => self.csrrs(inst),
            InstName::Csrrc => self.csrrc(inst),
            InstName::Csrrwi => self.csrrwi(inst),
            InstName::Csrrsi => self.csrrsi(inst),
            InstName::Csrrci => self.csrrci(inst),
            InstName::Sret => Ok(self.sret(inst)),
            InstName::Mret => Ok(self.mret(inst)),
            InstName::Wfi => Ok(self.wfi(inst)),
            InstName::SfenceVma => Ok(self.sfence_vma(inst)),
            InstName::Mul => Ok(self.mul(inst)),
            InstName::Mulh => Ok(self.mulh(inst)),
            InstName::Mulhsu => Ok(self.mulhsu(inst)),
            InstName::Mulhu => Ok(self.mulhu(inst)),
            InstName::Div => Ok(self.div(inst)),
            InstName::Divu => Ok(self.divu(inst)),
            InstName::Rem => Ok(self.rem(inst)),
            InstName::Remu => Ok(self.remu(inst)),
            InstName::LrW => self.lr_w(inst),
            InstName::ScW => self.sc_w(inst),
            InstName::AmoswapW => self.amoswap_w(inst),
            InstName::AmoaddW => self.amoadd_w(inst),
            InstName::AmoxorW => self.amoxor_w(inst),
            InstName::AmoandW => self.amoand_w(inst),
            InstName::AmoorW => self.amoor_w(inst),
            InstName::AmominW => self.amomin_w(inst),
            InstName::AmomaxW => self.amomax_w(inst),
            InstName::AmominuW => self.amominu_w(inst),
            InstName::AmomaxuW => self.amomaxu_w(inst),
            InstName::Lwu => self.lwu(inst),
            InstName::Ld => self.ld(inst),
            InstName::Sd => self.sd(inst),
            InstName::Addiw => Ok(self.addiw(inst)),
            InstName::Slliw => Ok(self.slliw(inst)),
            InstName::Srliw => Ok(self.srliw(inst)),
            InstName::Sraiw => Ok(self.sraiw(inst)),
            InstName::Addw => Ok(self.addw(inst)),
            InstName::Subw => Ok(self.subw(inst)),
            InstName::Sllw => Ok(self.sllw(inst)),
            InstName::Srlw => Ok(self.srlw(inst)),
            InstName::Sraw => Ok(self.sraw(inst)),
            InstName::Mulw => Ok(self.mulw(inst)),
            InstName::Divw => Ok(self.divw(inst)),
            InstName::Divuw => Ok(self.divuw(inst)),
            InstName::Remw => Ok(self.remw(inst)),
            InstName::Remuw => Ok(self.remuw(inst)),
            InstName::LrD => self.lr_d(inst),
            InstName::ScD => self.sc_d(inst),
            InstName::AmoswapD => self.amoswap_d(inst),
            InstName::AmoaddD => self.amoadd_d(inst),
            InstName::AmoxorD => self.amoxor_d(inst),
            InstName::AmoandD => self.amoand_d(inst),
            InstName::AmoorD => self.amoor_d(inst),
            InstName::AmominD => self.amomin_d(inst),
            InstName::AmomaxD => self.amomax_d(inst),
            InstName::AmominuD => self.amominu_d(inst),
            InstName::AmomaxuD => self.amomaxu_d(inst),
        }
    }

    /// The state after an instruction has retired: it was executed, and
    /// where that left the program counter as it was, the counter moved on
    /// by 4.
    pub open spec fn retire(self, inst: Instruction) -> Result<CpuView, Error> {
        match self.exec(inst) {
            Err(e) => Err(e),
            Ok(s) => Ok(
                if s.reg.pc == self.reg.pc {
                    s.write_pc(self.reg.pc.wrapping_add(4))
                } else {
                    s
                },
            ),
        }
    }

    /// The state after the timer has advanced by one step: the machine
    /// timer interrupt is pending once the timer has reached its comparand.
    pub open spec fn advance_timer(self) -> CpuView {
        let mtime = self.mtime.wrapping_add(MTIME_STEP);
        CpuView { mtime, reg: trap::timer_spec(self.reg, mtime, self.mtimecmp), ..self }
    }

    /// The state after the interrupt unit has run.
    pub open spec fn deliver(self) -> CpuView {
        let (reg, mode) = trap::interrupt_spec(self.reg, self.mode);
        CpuView { reg, mode, ..self }
    }

    /// Whether the debugger stops the hart where it is: it is on, and it
    /// steps or the hart is at the breakpoint.
    pub open spec fn stops(self) -> bool {
        self.dbg.enable && (self.dbg_step || self.reg.pc == self.dbg.bp)
    }

    /// One tick: the instruction at the program counter is fetched, decoded
    /// and retired, the timer advances, and the interrupt unit runs. With
    /// the state comes whether the debugger stops the hart; once it has
    /// stopped at the breakpoint it steps.
    pub open spec fn tick(self) -> Result<(CpuView, bool), Error> {
        match self.fetch() {
            Err(e) => Err(e),
            Ok(word) => match decode_spec(word) {
                Err(e) => Err(e),
                Ok(inst) => match self.retire(inst) {
                    Err(e) => Err(e),
                    Ok(s) => {
                        let t = s.advance_timer().deliver();
                        Ok((CpuView { dbg_step: t.stops() || t.dbg_step, ..t }, t.stops()))
                    },
                },
            },
        }
    }

    /// Up to `limit` ticks: the run ends with the tick at which the
    /// debugger stops the hart, with the first tick that fails, whose error
    /// it reports, or when `limit` ticks are done. With the state comes
    /// whether the debugger stopped the hart.
    pub open spec fn run(self, limit: nat) -> (CpuView, Result<bool, Error>)
        decreases limit,
    {
        if limit == 0 {
            (self, Ok(false))
        } else {
            match self.tick() {
                Err(e) => (self, Err(e)),
                Ok((s, stop)) => if stop {
                    (s, Ok(true))
                } else {
                    s.run((limit - 1) as nat)
                },
            }
        }
    }
}

impl View for Cpu {
    type V = CpuView;

    open spec fn view(&self) -> CpuView {
        CpuView {
            dbg: self.dbg,
            dbg_step: self.dbg_step,
            bus: self.bus@,
            rsv_words: covered_words(self.mem_reserved_w@),
            rsv: reserved_words(self.mem_reserved_w@),
            mode: self.mode,
            mtime: self.mtime,
            mtimecmp: self.mtimecmp,
            reg: self.reg@,
        }
    }
}

impl Cpu {
    pub open spec fn wf(&self) -> bool {
        self@.wf()
    }

    /// A hart in machine mode with every register 0, no reservation, both
    /// timer registers 0, and a reservation bitmap for `mem_size` bytes of
    /// DRAM. The debugger starts in single-step where no breakpoint is given.
    pub fn new(bus: Bus, mem_size: usize, dbg: crate::dbg::Debug) -> (r: Cpu)
        ensures
            r@ == (CpuView {
                dbg,
                dbg_step: dbg.bp == 0,
                bus: bus@,
                rsv_words: mem_size / 32 * 8,
                rsv: Set::empty(),
                mode: Mode::M,
                mtime: 0,
                mtimecmp: 0,
                reg: RegisterView::reset(),
            }),
    {
        let dbg_step = if dbg.bp == 0 {
            true
        } else {
            false
        };
        let r = Cpu {
            dbg,
            dbg_step,
            bus,
            mem_reserved_w: reservation::new_bitmap(mem_size / 32),
            mode: Mode::M,
            mtime: 0,
            mtimecmp: 0,
            reg: Register::new(),
        };
        r
    }

    /// The bytes that a dump of the physical addresses `begin` to `end`
    /// shows, in whole rows of 16.
    pub fn pdram_range(&self, begin: usize, end: usize) -> (r: Result<Dump, Error>)
        ensures
            match r {
                Ok(d) => {
                    let lo = (begin - MEM_OFF) - (begin - MEM_OFF) % 16;
                    let hi = (end - MEM_OFF + 15) / 16 * 16;
                    &&& MEM_OFF <= begin <= end
                    &&& hi <= self@.bus.dram.len()
                    &&& d.base == lo + MEM_OFF
                    &&& d.bytes@ == self@.bus.dram.subrange(lo, hi)
                },
                Err(e) => {
                    &&& e == Error::InvalidAddress
                    &&& (begin < MEM_OFF || end < begin || (end - MEM_OFF + 15) / 16 * 16 > self@.bus.dram.len())
                },
            },
    {
        self.bus.pdram_range(begin, end)
    }

    /// Loads from a device address: the timer registers are the hart's own,
    /// everything else goes to the bus.
    pub fn l_mm(&self, addr: u64) -> (r: Result<u64, Error>)
        requires
            self.wf(),
        ensures
            r == self@.l_mm(addr),
    {
        match addr {
            0x200_BFF8 => Ok(self.mtime),
            0x200_4000 => Ok(self.mtimecmp),
            _ => self.bus.l_mm(addr),
        }
    }

    /// Stores to a device address: the timer registers are the hart's own,
    /// everything else goes to the bus.
    pub fn s_mm(&mut self, addr: u64, data: u64) -> (r: Result<(), Error>)
        requires
            old(self).wf(),
        ensures
            final(self).wf(),
            refines(old(self)@, final(self)@, r, old(self)@.s_mm(addr, data)),
    {
        match addr {
            0x200_BFF8 => {
                self.mtime = data;
                Ok(())
            },
            0x200_4000 => {
                self.mtimecmp = data;
                Ok(())
            },
            _ => self.bus.s_mm(addr, data),
        }
    }

    /// Loads a value of the given width from a physical address,
    /// zero-extended.
    pub fn load_phys(&self, pa: u64, width: Width) -> (r: Result<u64, Error>)
        requires
            self.wf(),
        ensures
            r == self@.phys_load(pa, width),
    {
        if pa < MEM_OFF {
            match self.l_mm(pa) {
                Ok(v) => Ok(v & width.bits()),
                Err(e) => Err(e),
            }
        } else {
            self.bus.load(width, pa)
        }
    }

    /// Stores the low bytes of `value` at a physical address.
    pub fn store_phys(&mut self, pa: u64, width: Width, value: u64) -> (r: Result<(), Error>)
        requires
            old(self).wf(),
        ensures
            final(self).wf(),
            refines(old(self)@, final(self)@, r, old(self)@.phys_store(pa, width, value)),
    {
        if pa < MEM_OFF {
            self.s_mm(pa, value & width.bits())
        } else {
            self.bus.store(width, pa, value)
        }
    }

    /// Sets the stack pointer to the configured stack bottom and the program
    /// counter to the entry point.
    pub fn init(&mut self, entry_point: u64)
        ensures
            final(self)@ == old(self)@.write_x(2, STACK_BOTTOM).write_pc(entry_point),
    {
        self.reg.set_reg(2, STACK_BOTTOM);
        self.reg.set_pc(entry_point);
    }

    /// Executes a decoded instruction. On failure nothing has changed.
    pub fn exec_instruction(&mut self, inst: &Instruction) -> (r: Result<(), Error>)
        requires
            old(self).wf(),
            inst.wf(),
        ensures
            final(self).wf(),
            refines(old(self)@, final(self)@, r, old(self)@.exec(*inst)),
    {
        match inst.name {
            // RV32I
            InstName::Lui => {
                self.lui(inst);
                Ok(())
            },
            InstName::Auipc => {
                self.auipc(inst);
                Ok(())
            },
            InstName::Jal => {
                self.jal(inst);
                Ok(())
            },
            InstName::Jalr => {
                self.jalr(inst);
                Ok(())
            },
            InstName::Beq => {
                self.beq(inst);
                Ok(())
            },
            InstName::Bne => {
                self.bne(inst);
                Ok(())
            },
            InstName::Blt => {
                self.blt(inst);
                Ok(())
            },
            InstName::Bge => {
                self.bge(inst);
                Ok(())
            },
            InstName::Bltu => {
                self.bltu(inst);
                Ok(())
            },
            InstName::Bgeu => {
                self.bgeu(inst);
                Ok(())
            },
            InstName::Lb => self.lb(inst),
            InstName::Lh => self.lh(inst),
            InstName::Lw => self.lw(inst),
            InstName::Lbu => self.lbu(inst),
            InstName::Lhu => self.lhu(inst),
            InstName::Sb => self.sb(inst),
            InstName::Sh => self.sh(inst),
            InstName::Sw => self.sw(inst),
            InstName::Addi => {
                self.addi(inst);
                Ok(())
            },
            InstName::Slti => {
                self.slti(inst);
                Ok(())
            },
            InstName::Sltiu => {
                self.sltiu(inst);
                Ok(())
            },
            InstName::Xori => {
                self.xori(inst);
                Ok(())
            },
            InstName::Ori => {
                self.ori(inst);
                Ok(())
            },
            InstName::Andi => {
                self.andi(inst);
                Ok(())
            },
            InstName::Slli => {
                self.slli(inst);
                Ok(())
            },
            InstName::Srli => {
                self.srli(inst);
                Ok(())
            },
            InstName::Srai => {
                self.srai(inst);
                Ok(())
            },
            InstName::Add => {
                self.add(inst);
                Ok(())
            },
            InstName::Sub => {
                self.sub(inst);
                Ok(())
            },
            InstName::Sll => {
                self.sll(inst);
                Ok(())
            },
            InstName::Slt => {
                self.slt(inst);
                Ok(())
            },
            InstName::Sltu => {
                self.sltu(inst);
                Ok(())
            },
            InstName::Xor => {
                self.xor(inst);
                Ok(())
            },
            InstName::Srl => {
                self.srl(inst);
                Ok(())
            },
            InstName::Sra => {
                self.sra(inst);
                Ok(())
            },
            InstName::Or => {
                self.or(inst);
                Ok(())
            },
            InstName::And => {
                self.and(inst);
                Ok(())
            },
            InstName::Fence => {
                self.fence(inst);
                Ok(())
            },
            InstName::FenceI => {
                self.fence_i(inst);
                Ok(())
            },
            InstName::Ecall => self.ecall(inst),
            InstName::Ebreak => self.ebreak(inst),
            InstName::Csrrw => self.csrrw(inst),
            InstName::Csrrs => self.csrrs(inst),
            InstName::Csrrc => self.csrrc(inst),
            InstName::Csrrwi => self.csrrwi(inst),
            InstName::Csrrsi => self.csrrsi(inst),
            InstName::Csrrci => self.csrrci(inst),
            InstName::Sret => {
                self.sret(inst);
                Ok(())
            },
            InstName::Mret => {
                self.mret(inst);
                Ok(())
            },
            InstName::Wfi => {
                self.wfi(inst);
                Ok(())
            },
            InstName::SfenceVma => {
                self.sfence_vma(inst);
                Ok(())
            },
            // RV32M
            InstName::Mul => {
                self.mul(inst);
                Ok(())
            },
            InstName::Mulh => {
                self.mulh(inst);
                Ok(())
            },
            InstName::Mulhsu => {
                self.mulhsu(inst);
                Ok(())
            },
            InstName::Mulhu => {
                self.mulhu(inst);
                Ok(())
            },
            InstName::Div => {
                self.div(inst);
                Ok(())
            },
            InstName::Divu => {
                self.divu(inst);
                Ok(())
            },
            InstName::Rem => {
                self.rem(inst);
                Ok(())
            },
            InstName::Remu => {
                self.remu(inst);
                Ok(())
            },
            // RV32A
            InstName::LrW => self.lr_w(inst),
            InstName::ScW => self.sc_w(inst),
            InstName::AmoswapW => self.amoswap_w(inst),
            InstName::AmoaddW => self.amoadd_w(inst),
            InstName::AmoxorW => self.amoxor_w(inst),
            InstName::AmoandW => self.amoand_w(inst),
            InstName::AmoorW => self.amoor_w(inst),
            InstName::AmominW => self.amomin_w(inst),
            InstName::AmomaxW => self.amomax_w(inst),
            InstName::AmominuW => self.amominu_w(inst),
            InstName::AmomaxuW => self.amomaxu_w(inst),
            // RV64I
            InstName::Lwu => self.lwu(inst),
            InstName::Ld => self.ld(inst),
            InstName::Sd => self.sd(inst),
            InstName::Addiw => {
                self.addiw(inst);
                Ok(())
            },
            InstName::Slliw => {
                self.slliw(inst);
                Ok(())
            },
            InstName::Srliw => {
                self.srliw(inst);
                Ok(())
            },
            InstName::Sraiw => {
                self.sraiw(inst);
                Ok(())
            },
            InstName::Addw => {
                self.addw(inst);
                Ok(())
            },
            InstName::Subw => {
                self.subw(inst);
                Ok(())
            },
            InstName::Sllw => {
                self.sllw(inst);
                Ok(())
            },
            InstName::Srlw => {
                self.srlw(inst);
                Ok(())
            },
            InstName::Sraw => {
                self.sraw(inst);
                Ok(())
            },
            // RV64M
            InstName::Mulw => {
                self.mulw(inst);
                Ok(())
            },
            InstName::Divw => {
                self.divw(inst);
                Ok(())
            },
            InstName::Divuw => {
                self.divuw(inst);
                Ok(())
            },
            InstName::Remw => {
                self.remw(inst);
                Ok(())
            },
            InstName::Remuw => {
                self.remuw(inst);
                Ok(())
            },
            // RV64A
            InstName::LrD => self.lr_d(inst),
            InstName::ScD => self.sc_d(inst),
            InstName::AmoswapD => self.amoswap_d(inst),
            InstName::AmoaddD => self.amoadd_d(inst),
            InstName::AmoxorD => self.amoxor_d(inst),
            InstName::AmoandD => self.amoand_d(inst),
            InstName::AmoorD => self.amoor_d(inst),
            InstName::AmominD => self.amomin_d(inst),
            InstName::AmomaxD => self.amomax_d(inst),
            InstName::AmominuD => self.amominu_d(inst),
            InstName::AmomaxuD => self.amomaxu_d(inst),
        }
    }

    /// Runs one tick. On failure nothing has changed. Tells whether the
    /// debugger stops the hart after this tick.
    pub fn tick(&mut self) -> (r: Result<bool, Error>)
        requires
            old(self).wf(),
        ensures
            final(self).wf(),
            match old(self)@.tick() {
                Ok((s, stop)) => r == Ok::<bool, Error>(stop) && final(self)@ == s,
                Err(e) => r == Err::<bool, Error>(e) && final(self)@ == old(self)@,
            },
    {
        let data = match self.fetch() {
            Ok(data) => data,
            Err(e) => {
                return Err(e);
            },
        };
        let inst = match Instruction::decode(data) {
            Ok(inst) => inst,
            Err(e) => {
                return Err(e);
            },
        };
        let pre_pc = self.reg.pc;
        match self.exec_instruction(&inst) {
            Ok(_) => {},
            Err(e) => {
                return Err(e);
            },
        }
        if pre_pc == self.reg.pc {
            self.reg.set_pc(pre_pc.wrapping_add(4));
        }
        self.mtime = self.mtime.wrapping_add(MTIME_STEP);
        trap::timer_int(&mut self.reg, self.mtime, self.mtimecmp);
        trap::interrupt(&mut self.reg, &mut self.mode);
        let mut stop = false;
        if self.dbg.enable {
            if self.dbg_step {
                stop = true;
            } else if self.dbg.is_bp(self.reg.pc) {
                stop = true;
                self.dbg_step = true;
            }
        }
        Ok(stop)
    }

    /// Runs up to `limit` ticks, and stops early at the tick at which the
    /// debugger stops the hart and at the first tick that fails. Tells
    /// whether the debugger stopped the hart.
    pub fn run(&mut self, limit: u64) -> (r: Result<bool, Error>)
        requires
            old(self).wf(),
        ensures
            final(self).wf(),
            (final(self)@, r) == old(self)@.run(limit as nat),
    {
        let mut left = limit;
        while left > 0
            invariant
                self.wf(),
                self@.run(left as nat) == old(self)@.run(limit as nat),
            decreases left,
        {
            match self.tick() {
                Ok(stop) => {
                    if stop {
                        return Ok(true);
                    }
                },
                Err(e) => {
                    return Err(e);
                },
            }
            left = left - 1;
        }
        Ok(false)
    }

    /// Tells whether the hart is well formed: the arrays of the interrupt
    /// controller have their full lengths.
    pub fn is_well_formed(&self) -> (r: bool)
        ensures
            r == self.wf(),
    {
        self.bus.plic.priority.len() == crate::plic::SOURCES && self.bus.plic.pending.len()
            == crate::plic::PENDING_WORDS && self.bus.plic.enable.len() == crate::plic::ENABLE_WORDS
            && self.bus.plic.priority_thr.len() == crate::plic::CONTEXTS && self.bus.plic.claim.len()
            == crate::plic::CONTEXTS
    }

    /// Sets the breakpoint and lets the hart run free until it gets there.
    pub fn set_breakpoint(&mut self, bp: u64)
        ensures
            final(self)@ == (CpuView {
                dbg: crate::dbg::Debug { enable: old(self)@.dbg.enable, bp },
                dbg_step: false,
                ..old(self)@
            }),
    {
        self.dbg.bp = bp;
        self.dbg_step = false;
    }
}

/// For every instruction that retires, either executing it moved the
/// program counter, or the counter moved on by exactly 4; nothing else
/// differs from what executing it gave.
pub proof fn lemma_retire_pc(s: CpuView, inst: Instruction)
    requires
        s.retire(inst) is Ok,
    ensures
        s.exec(inst) is Ok,
        s.exec(inst).unwrap().reg.pc != s.reg.pc ==> s.retire(inst).unwrap() == s.exec(inst).unwrap(),
        s.exec(inst).unwrap().reg.pc == s.reg.pc ==> s.retire(inst).unwrap() == s.exec(inst).unwrap().write_pc(
            s.reg.pc.wrapping_add(4),
        ),
        s.reg.pc <= u64::MAX - 4 && s.exec(inst).unwrap().reg.pc == s.reg.pc ==> s.retire(inst).unwrap().reg.pc
            == s.reg.pc + 4,
{
}

/// A store changes no register.
pub proof fn lemma_store_keeps_registers(s: CpuView, pa: u64, width: Width, value: u64)
    ensures
        s.phys_store(pa, width, value) matches Ok(t) ==> t.reg == s.reg && t.rsv == s.rsv && t.rsv_words
            == s.rsv_words && t.mode == s.mode,
{
}

/// Whatever is executed, the register file stays well formed: there are 32
/// integer registers, `x[0]` is 0, and the CSRs are those that there were.
pub proof fn lemma_exec_keeps_x0(s: CpuView, inst: Instruction)
    requires
        s.reg.wf(),
        inst.wf(),
        s.exec(inst) is Ok,
    ensures
        s.exec(inst).unwrap().reg.wf(),
        s.exec(inst).unwrap().x(0) == 0,
{
    match instructions::group_of(inst.name) {
        instructions::InstGroup::Integer => integer::lemma_exec_integer(s, inst),
        instructions::InstGroup::MulDiv => muldiv::lemma_exec_muldiv(s, inst),
        instructions::InstGroup::System => system::lemma_exec_system(s, inst),
        instructions::InstGroup::Atomic => atomic::lemma_exec_atomic(s, inst),
    }
}

/// A tick leaves the register file well formed, too.
pub proof fn lemma_tick_keeps_x0(s: CpuView)
    requires
        s.reg.wf(),
        s.tick() is Ok,
    ensures
        s.tick().unwrap().0.reg.wf(),
        s.tick().unwrap().0.x(0) == 0,
{
    let word = s.fetch().unwrap();
    let inst = decode_spec(word).unwrap();
    instructions::lemma_decode_well_formed(word);
    lemma_exec_keeps_x0(s, inst);
    let r = s.retire(inst).unwrap();
    assert(r.reg.wf());
    let a = r.advance_timer();
    assert(a.reg.wf());
    trap::lemma_interrupt_keeps_registers(a.reg, a.mode);
}

} // verus!
