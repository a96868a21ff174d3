//! The register file: 32 integer registers, the program counter and the CSRs.
use vstd::prelude::*;
use crate::error::Error;

verus! {

// supervisor-level CSRs
pub const SSTATUS: u16 = 0x100;
pub const SIE: u16 = 0x104;
pub const STVEC: u16 = 0x105;
pub const SCOUNTEREN: u16 = 0x106;
pub const SENVCFG: u16 = 0x10A;
pub const SSCRATCH: u16 = 0x140;
pub const SEPC: u16 = 0x141;
pub const SCAUSE: u16 = 0x142;
pub const STVAL: u16 = 0x143;
pub const SIP: u16 = 0x144;
pub const SATP: u16 = 0x180;
pub const SCONTEXT: u16 = 0x5A8;

// machine-level CSRs
pub const MVENDORID: u16 = 0xF11;
pub const MARCHID: u16 = 0xF12;
pub const MIMPID: u16 = 0xF13;
pub const MHARTID: u16 = 0xF14;
pub const MCONFIGPTR: u16 = 0xF15;
pub const MSTATUS: u16 = 0x300;
pub const MISA: u16 = 0x301;
pub const MEDELEG: u16 = 0x302;
pub const MIDELEG: u16 = 0x303;
pub const MIE: u16 = 0x304;
pub const MTVEC: u16 = 0x305;
pub const MCOUNTEREN: u16 = 0x306;
pub const MENVCFG: u16 = 0x30A;
pub const MSTATUSH: u16 = 0x310;
pub const MENVCFGH: u16 = 0x31A;
pub const MSCRATCH: u16 = 0x340;
pub const MEPC: u16 = 0x341;
pub const MCAUSE: u16 = 0x342;
pub const MTVAL: u16 = 0x343;
pub const MIP: u16 = 0x344;
pub const MTINST: u16 = 0x34A;
pub const MTVAL2: u16 = 0x34B;
pub const MSECCFG: u16 = 0x747;
pub const MSECCFGH: u16 = 0x757;
/// `pmpcfg0`; `pmpcfg1` to `pmpcfg15` follow it.
pub const PMPCFG0: u16 = 0x3A0;
/// `pmpaddr0`; `pmpaddr1` to `pmpaddr63` follow it.
pub const PMPADDR0: u16 = 0x3B0;

/// The CSR indices that the register file holds.
pub open spec fn is_csr(idx: u16) -> bool {
    ||| idx == SSTATUS || idx == SIE || idx == STVEC || idx == SCOUNTEREN || idx == SENVCFG
    ||| (SSCRATCH <= idx <= SIP)
    ||| idx == SATP || idx == SCONTEXT
    ||| (MVENDORID <= idx <= MCONFIGPTR)
    ||| (MSTATUS <= idx <= MCOUNTEREN)
    ||| idx == MENVCFG || idx == MSTATUSH || idx == MENVCFGH
    ||| (MSCRATCH <= idx <= MIP)
    ||| idx == MTINST || idx == MTVAL2 || idx == MSECCFG || idx == MSECCFGH
    ||| (PMPCFG0 <= idx <= 0x3EF)
}

/// Tells whether the register file holds the CSR `idx`.
pub fn csr_exists(idx: u16) -> (r: bool)
    ensures
        r == is_csr(idx),
{
    match idx {
        0x100 | 0x104 | 0x105 | 0x106 | 0x10A => true,
        0x140..=0x144 => true,
        0x180 | 0x5A8 => true,
        0xF11..=0xF15 => true,
        0x300..=0x306 => true,
        0x30A | 0x310 | 0x31A => true,
        0x340..=0x344 => true,
        0x34A | 0x34B | 0x747 | 0x757 => true,
        0x3A0..=0x3EF => true,
        _ => false,
    }
}

/// The integer registers, the program counter and the CSRs of one hart.
#[derive(Debug)]
pub struct Register {
    /// `x[1]` to `x[31]`; the entry at 0 is never read.
    pub x: [u64; 32],
    pub pc: u64,
    /// One slot per 12-bit CSR index; only those of `is_csr` are in use.
    pub csr: [u64; 4096],
}

/// The register file as the instructions see it.
pub struct RegisterView {
    /// The 32 integer registers; `x[0]` is 0.
    pub x: Seq<u64>,
    pub pc: u64,
    /// The CSRs, keyed by index; the keys are those of `is_csr`.
    pub csr: Map<u16, u64>,
}

impl RegisterView {
    /// Every register, the program counter and every CSR 0.
    pub open spec fn reset() -> RegisterView {
        RegisterView { x: Seq::new(32, |i: int| 0u64), pc: 0, csr: Map::new(|i: u16| is_csr(i), |i: u16| 0u64) }
    }

    pub open spec fn wf(self) -> bool {
        &&& self.x.len() == 32
        &&& self.x[0] == 0
        &&& forall|i: u16| self.csr.contains_key(i) <==> is_csr(i)
    }

    /// The value of integer register `reg`.
    pub open spec fn reg(self, reg: u8) -> u64 {
        self.x[reg as int]
    }

    /// The register file after a write of `value` to integer register `reg`:
    /// a write to `x[0]` changes nothing.
    pub open spec fn write_x(self, reg: u8, value: u64) -> RegisterView {
        if reg == 0 {
            self
        } else {
            RegisterView { x: self.x.update(reg as int, value), ..self }
        }
    }

    /// The register file with the program counter at `pc`.
    pub open spec fn write_pc(self, pc: u64) -> RegisterView {
        RegisterView { pc, ..self }
    }

    /// The register file after a write of `value` to the CSR `idx`.
    pub open spec fn write_csr(self, idx: u16, value: u64) -> RegisterView {
        RegisterView { csr: self.csr.insert(idx, value), ..self }
    }

    /// What a read of the CSR `idx` gives.
    pub open spec fn get_csr(self, idx: u16) -> Result<u64, Error> {
        if is_csr(idx) {
            Ok(self.csr[idx])
        } else {
            Err(Error::InvalidRegister)
        }
    }

    /// What a write of `value` to the CSR `idx` gives.
    pub open spec fn set_csr(self, idx: u16, value: u64) -> Result<RegisterView, Error> {
        if is_csr(idx) {
            Ok(self.write_csr(idx, value))
        } else {
            Err(Error::InvalidRegister)
        }
    }
}

impl View for Register {
    type V = RegisterView;

    open spec fn view(&self) -> RegisterView {
        RegisterView {
            x: Seq::new(32, |i: int| if i == 0 { 0u64 } else { self.x[i] }),
            pc: self.pc,
            csr: Map::new(|i: u16| is_csr(i), |i: u16| self.csr[i as int]),
        }
    }
}

impl Register {
    /// A register file with every register, the program counter and every
    /// CSR 0.
    pub fn new() -> (r: Register)
        ensures
            r@ == RegisterView::reset(),
    {
        let r = Register { x: [0u64; 32], pc: 0, csr: [0u64; 4096] };
        assert(r@.x =~= RegisterView::reset().x);
        assert(r@.csr =~= RegisterView::reset().csr);
        r
    }

    /// Reads integer register `reg`; `x[0]` reads as 0.
    pub fn get_reg(&self, reg: u8) -> (r: u64)
        requires
            reg < 32,
        ensures
            r == self@.reg(reg),
            reg == 0 ==> r == 0,
    {
        if reg == 0 {
            0
        } else {
            self.x[reg as usize]
        }
    }

    /// Reads the CSR `reg`, or fails with `InvalidRegister` where the
    /// register file holds no such CSR.
    pub fn get_csr(&self, reg: u16) -> (r: Result<u64, Error>)
        ensures
            r == self@.get_csr(reg),
    {
        if csr_exists(reg) {
            Ok(self.csr[reg as usize])
        } else {
            Err(Error::InvalidRegister)
        }
    }

    /// Writes integer register `reg`; a write to `x[0]` is dropped.
    pub fn set_reg(&mut self, reg: u8, value: u64)
        requires
            reg < 32,
        ensures
            final(self)@ == old(self)@.write_x(reg, value),
            final(self)@.x[0] == 0,
    {
        if reg != 0 {
            self.x[reg as usize] = value;
            assert(self@.x =~= old(self)@.x.update(reg as int, value));
            assert(self@.csr =~= old(self)@.csr);
        }
    }

    /// Writes the CSR `reg`, or fails with `InvalidRegister` and changes
    /// nothing where the register file holds no such CSR.
    pub fn set_csr(&mut self, reg: u16, value: u64) -> (r: Result<(), Error>)
        ensures
            crate::error::refines(old(self)@, final(self)@, r, old(self)@.set_csr(reg, value)),
    {
        if csr_exists(reg) {
            self.csr[reg as usize] = value;
            assert(self@.x =~= old(self)@.x);
            assert(self@.csr =~= old(self)@.csr.insert(reg, value));
            Ok(())
        } else {
            Err(Error::InvalidRegister)
        }
    }

    /// Reads a CSR that the register file is known to hold.
    pub fn csr(&self, idx: u16) -> (r: u64)
        requires
            is_csr(idx),
        ensures
            r == self@.csr[idx],
    {
        self.csr[idx as usize]
    }

    /// Writes a CSR that the register file is known to hold.
    pub fn write_csr(&mut self, idx: u16, value: u64)
        requires
            is_csr(idx),
        ensures
            final(self)@ == old(self)@.write_csr(idx, value),
    {
        self.csr[idx as usize] = value;
        assert(self@.x =~= old(self)@.x);
        assert(self@.csr =~= old(self)@.csr.insert(idx, value));
    }

    /// The value of the register at position `i` of a dump.
    pub fn shown(&self, i: usize) -> (r: u64)
        requires
            i < SHOWN,
        ensures
            r == shown_value(self@, i as int),
    {
        if i < 32 {
            self.get_reg(i as u8)
        } else if i == 32 {
            self.pc
        } else {
            self.csr(register_code(i))
        }
    }

    /// Sorts the registers of a dump into those that are 0, which are only
    /// named, and the others, which are shown with their values.
    pub fn print(&self) -> (r: RegisterDump)
        ensures
            r.nonzero@ == nonzero_upto(self@, SHOWN as int),
            r.zero@ == zero_upto(self@, SHOWN as int),
    {
        let mut nonzero: Vec<(usize, u64)> = Vec::new();
        let mut zero_ls: Vec<usize> = Vec::new();
        let mut i: usize = 0;
        while i < SHOWN
            invariant
                i <= SHOWN,
                nonzero@ == nonzero_upto(self@, i as int),
                zero_ls@ == zero_upto(self@, i as int),
            decreases SHOWN - i,
        {
            let value = self.shown(i);
            if value == 0 {
                zero_ls.push(i);
            } else {
                nonzero.push((i, value));
            }
            i += 1;
        }
        RegisterDump { nonzero, zero: zero_ls }
    }

    /// Moves the program counter.
    pub fn set_pc(&mut self, pc: u64)
        ensures
            final(self)@ == old(self)@.write_pc(pc),
    {
        self.pc = pc;
    }
}

/// How many registers a dump looks at: the integer registers, the program
/// counter and a choice of CSRs.
pub const SHOWN: usize = 51;

/// The CSR at position `i` of a dump, for the positions after the program
/// counter.
pub open spec fn shown_csr(i: int) -> u16 {
    if i == 33 {
        MSTATUS
    } else if i == 34 {
        MEDELEG
    } else if i == 35 {
        MIDELEG
    } else if i == 36 {
        MIE
    } else if i == 37 {
        MSCRATCH
    } else if i == 38 {
        MEPC
    } else if i == 39 {
        MIP
    } else if i == 40 {
        MTVEC
    } else if i == 41 {
        SSTATUS
    } else if i == 42 {
        SIE
    } else if i == 43 {
        STVEC
    } else if i == 44 {
        SSCRATCH
    } else if i == 45 {
        SEPC
    } else if i == 46 {
        SCAUSE
    } else if i == 47 {
        SIP
    } else if i == 48 {
        SATP
    } else if i == 49 {
        PMPADDR0
    } else {
        PMPCFG0
    }
}

/// The number by which a dump calls the register at position `i`: its
/// index for an integer register and for a CSR, and 0x20 for the program
/// counter.
pub open spec fn shown_code(i: int) -> u16 {
    if i <= 32 {
        i as u16
    } else {
        shown_csr(i)
    }
}

/// The value of the register at position `i` of a dump.
pub open spec fn shown_value(reg: RegisterView, i: int) -> u64 {
    if i < 32 {
        reg.x[i]
    } else if i == 32 {
        reg.pc
    } else {
        reg.csr[shown_csr(i)]
    }
}

/// The registers among the first `n` of a dump that are not 0, in order,
/// each with its position and its value.
pub open spec fn nonzero_upto(reg: RegisterView, n: int) -> Seq<(usize, u64)>
    decreases n,
{
    if n <= 0 {
        Seq::empty()
    } else if shown_value(reg, n - 1) != 0 {
        nonzero_upto(reg, n - 1).push(((n - 1) as usize, shown_value(reg, n - 1)))
    } else {
        nonzero_upto(reg, n - 1)
    }
}

/// The positions of the registers among the first `n` of a dump that are 0,
/// in order.
pub open spec fn zero_upto(reg: RegisterView, n: int) -> Seq<usize>
    decreases n,
{
    if n <= 0 {
        Seq::empty()
    } else if shown_value(reg, n - 1) == 0 {
        zero_upto(reg, n - 1).push((n - 1) as usize)
    } else {
        zero_upto(reg, n - 1)
    }
}

/// What a dump of the registers shows.
pub struct RegisterDump {
    /// The registers that are not 0, each with its position and its value.
    pub nonzero: Vec<(usize, u64)>,
    /// The positions of the registers that are 0.
    pub zero: Vec<usize>,
}

/// The name of the register at position `i` of a dump.
pub open spec fn shown_name(i: int) -> Seq<char> {
    if i == 0 {
        "zero"@
    } else if i == 1 {
        "ra"@
    } else if i == 2 {
        "sp"@
    } else if i == 3 {
        "gp"@
    } else if i == 4 {
        "tp"@
    } else if i == 5 {
        "t0"@
    } else if i == 6 {
        "t1"@
    } else if i == 7 {
        "t2"@
    } else if i == 8 {
        "fp"@
    } else if i == 9 {
        "s1"@
    } else if i == 10 {
        "a0"@
    } else if i == 11 {
        "a1"@
    } else if i == 12 {
        "a2"@
    } else if i == 13 {
        "a3"@
    } else if i == 14 {
        "a4"@
    } else if i == 15 {
        "a5"@
    } else if i == 16 {
        "a6"@
    } else if i == 17 {
        "a7"@
    } else if i == 18 {
        "s2"@
    } else if i == 19 {
        "s3"@
    } else if i == 20 {
        "s4"@
    } else if i == 21 {
        "s5"@
    } else if i == 22 {
        "s6"@
    } else if i == 23 {
        "s7"@
    } else if i == 24 {
        "s8"@
    } else if i == 25 {
        "s9"@
    } else if i == 26 {
        "s10"@
    } else if i == 27 {
        "s11"@
    } else if i == 28 {
        "t3"@
    } else if i == 29 {
        "t4"@
    } else if i == 30 {
        "t5"@
    } else if i == 31 {
        "t6"@
    } else if i == 32 {
        "pc"@
    } else if i == 33 {
        "mstatus"@
    } else if i == 34 {
        "medeleg"@
    } else if i == 35 {
        "mideleg"@
    } else if i == 36 {
        "mie"@
    } else if i == 37 {
        "mscratch"@
    } else if i == 38 {
        "mepc"@
    } else if i == 39 {
        "mip"@
    } else if i == 40 {
        "mtvec"@
    } else if i == 41 {
        "sstatus"@
    } else if i == 42 {
        "sie"@
    } else if i == 43 {
        "stvec"@
    } else if i == 44 {
        "sscratch"@
    } else if i == 45 {
        "sepc"@
    } else if i == 46 {
        "scause"@
    } else if i == 47 {
        "sip"@
    } else if i == 48 {
        "satp"@
    } else if i == 49 {
        "pmpaddr0"@
    } else {
        "pmpcfg0"@
    }
}

/// The name of the register at position `i` of a dump.
pub fn register_name(i: usize) -> (r: &'static str)
    requires
        i < SHOWN,
    ensures
        r@ == shown_name(i as int),
{
    match i {
        0 => "zero",
        1 => "ra",
        2 => "sp",
        3 => "gp",
        4 => "tp",
        5 => "t0",
        6 => "t1",
        7 => "t2",
        8 => "fp",
        9 => "s1",
        10 => "a0",
        11 => "a1",
        12 => "a2",
        13 => "a3",
        14 => "a4",
        15 => "a5",
        16 => "a6",
        17 => "a7",
        18 => "s2",
        19 => "s3",
        20 => "s4",
        21 => "s5",
        22 => "s6",
        23 => "s7",
        24 => "s8",
        25 => "s9",
        26 => "s10",
        27 => "s11",
        28 => "t3",
        29 => "t4",
        30 => "t5",
        31 => "t6",
        32 => "pc",
        33 => "mstatus",
        34 => "medeleg",
        35 => "mideleg",
        36 => "mie",
        37 => "mscratch",
        38 => "mepc",
        39 => "mip",
        40 => "mtvec",
        41 => "sstatus",
        42 => "sie",
        43 => "stvec",
        44 => "sscratch",
        45 => "sepc",
        46 => "scause",
        47 => "sip",
        48 => "satp",
        49 => "pmpaddr0",
        _ => "pmpcfg0",
    }
}

/// The number by which a dump calls the register at position `i`.
pub fn register_code(i: usize) -> (r: u16)
    requires
        i < SHOWN,
    ensures
        r == shown_code(i as int),
        i > 32 ==> is_csr(r),
{
    match i {
        0..=32 => i as u16,
        33 => MSTATUS,
        34 => MEDELEG,
        35 => MIDELEG,
        36 => MIE,
        37 => MSCRATCH,
        38 => MEPC,
        39 => MIP,
        40 => MTVEC,
        41 => SSTATUS,
        42 => SIE,
        43 => STVEC,
        44 => SSCRATCH,
        45 => SEPC,
        46 => SCAUSE,
        47 => SIP,
        48 => SATP,
        49 => PMPADDR0,
        _ => PMPCFG0,
    }
}

/// `x[0]` is 0 in every register file, and stays 0 whatever is written, to
/// whichever register.
pub proof fn lemma_x0_is_zero(r: Register, reg: u8, value: u64)
    requires
        reg < 32,
    ensures
        r@.wf(),
        r@.reg(0) == 0,
        r@.write_x(reg, value).reg(0) == 0,
        r@.write_x(reg, value).wf(),
{
}

} // verus!
