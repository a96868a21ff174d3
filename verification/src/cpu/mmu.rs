//! What stands between an address and memory: Sv39 translation and the
//! physical memory protection check.
use vstd::prelude::*;
use crate::conf::MEM_OFF;
use crate::dram::{dword_at, word_at};
use crate::error::{refines, Error};
use super::register::{RegisterView, MSTATUS, PMPADDR0, PMPCFG0, SATP};
use crate::bus::Width;
use super::{Cpu, CpuView, Mode, PMPPerm};

verus! {

// values of `satp.MODE`
pub const BARE: u64 = 0;
pub const SV39: u64 = 8;
pub const SV48: u64 = 9;
pub const SV57: u64 = 10;
pub const SV64: u64 = 11;

/// The physical page number in `satp` and in a page table entry, once
/// shifted into place: 44 bits.
pub const PPN_MASK: u64 = 0xFFF_FFFF_FFFF;

// flags of a page table entry
pub const PTE_V: u64 = 0b0001;
pub const PTE_R: u64 = 0b0010;
pub const PTE_W: u64 = 0b0100;
pub const PTE_X: u64 = 0b1000;

/// `mstatus.MPRV`: loads and stores are made with the privilege in `MPP`.
pub const MSTATUS_MPRV: u64 = 0x2_0000;

/// The flag that allows an access of the given kind, in a page table entry
/// shifted right by one and in a PMP configuration byte alike.
pub open spec fn perm_bit(perm: PMPPerm) -> u64 {
    match perm {
        PMPPerm::R => 0b001,
        PMPPerm::W => 0b010,
        PMPPerm::X => 0b100,
    }
}

/// The index into the page table of the given level that a virtual address
/// holds: nine bits, above the twelve of the page offset.
pub open spec fn vpn(va: u64, level: u64) -> u64 {
    (va >> (12 + 9 * level) as u64) & 0x1FF
}

/// The bits of an address that lie within a page mapped at the given level:
/// 4 KiB, 2 MiB or 1 GiB.
pub open spec fn page_mask(level: u64) -> u64 {
    if level == 0 {
        0xFFF
    } else if level == 1 {
        0x1F_FFFF
    } else {
        0x3FFF_FFFF
    }
}

/// The address of the table or page that an entry points to.
pub open spec fn pte_target(pte: u64) -> u64 {
    ((pte >> 10) & PPN_MASK) << 12
}

/// The physical address that a leaf entry at the given level gives to a
/// virtual address: the page of the entry, and the address's offset in it.
pub open spec fn leaf_pa(pte: u64, va: u64, level: u64) -> u64 {
    (pte_target(pte) & !page_mask(level)) | (va & page_mask(level))
}

/// The Sv39 walk from the table at `table`, which is of the given level,
/// through the page tables in DRAM. An entry that is not valid, or that is
/// writable and not readable, ends it with `PageFault`; so does a leaf that
/// does not allow the access, and a pointer at level 0. A table outside DRAM
/// ends it with `InvalidAddress`.
pub open spec fn sv39_walk(mem: Seq<u8>, table: u64, va: u64, level: u64, perm: PMPPerm) -> Result<u64, Error>
    decreases level,
{
    let pte_addr = table + vpn(va, level) * 8;
    if pte_addr < MEM_OFF {
        Err(Error::InvalidAddress)
    } else {
        match dword_at(mem, (pte_addr - MEM_OFF) as u64) {
            Err(e) => Err(e),
            Ok(pte) => if pte & PTE_V == 0 || (pte & PTE_R == 0 && pte & PTE_W != 0) {
                Err(Error::PageFault)
            } else if pte & (PTE_R | PTE_X) != 0 {
                if (pte >> 1) & perm_bit(perm) != 0 {
                    Ok(leaf_pa(pte, va, level))
                } else {
                    Err(Error::PageFault)
                }
            } else if level == 0 {
                Err(Error::PageFault)
            } else {
                sv39_walk(mem, pte_target(pte), va, (level - 1) as u64, perm)
            },
        }
    }
}

/// The configuration byte of PMP entry `i`. Eight of them are packed in each
/// even-numbered `pmpcfg` register.
pub open spec fn pmp_cfg(reg: RegisterView, i: u16) -> u64 {
    (reg.csr[(PMPCFG0 + i / 8 * 2) as u16] >> ((i % 8) * 8) as u64) & 0xFF
}

/// The lower bound of the range of PMP entry `i` in top-of-range mode: the
/// top of the entry before it, 0 for the first.
pub open spec fn pmp_lower(reg: RegisterView, i: u16) -> u64 {
    if i == 0 {
        0
    } else {
        reg.csr[(PMPADDR0 + i - 1) as u16] << 2
    }
}

/// The upper bound of the range of PMP entry `i` in top-of-range mode.
pub open spec fn pmp_upper(reg: RegisterView, i: u16) -> u64 {
    reg.csr[(PMPADDR0 + i) as u16] << 2
}

/// The PMP scan from entry `i` on. An entry that is off is passed over, and
/// so is a top-of-range entry whose range does not hold the address. The
/// first top-of-range entry whose range holds it decides: the access is
/// allowed where the entry has the flag of its kind, and is a `PMPFault`
/// otherwise. The other two address modes are `Unimplemented`. Where no
/// entry decides, the access is allowed.
pub open spec fn pmp_scan(reg: RegisterView, addr: u64, perm: PMPPerm, i: u16) -> Result<(), Error>
    decreases 64 - i,
{
    if i >= 64 {
        Ok(())
    } else {
        let cfg = pmp_cfg(reg, i);
        let a = (cfg >> 3) & 0b11;
        if a == 0 {
            pmp_scan(reg, addr, perm, (i + 1) as u16)
        } else if a == 1 {
            if pmp_lower(reg, i) <= addr < pmp_upper(reg, i) {
                if cfg & perm_bit(perm) != 0 {
                    Ok(())
                } else {
                    Err(Error::PMPFault)
                }
            } else {
                pmp_scan(reg, addr, perm, (i + 1) as u16)
            }
        } else {
            Err(Error::Unimplemented)
        }
    }
}

impl CpuView {
    /// The physical address of a virtual address, by `satp.MODE`: in bare
    /// mode the address itself, in Sv39 what the walk gives, and
    /// `Unimplemented` in every other mode.
    pub open spec fn trans_addr(self, va: u64, perm: PMPPerm) -> Result<u64, Error> {
        let satp = self.reg.csr[SATP];
        if satp >> 60 == BARE {
            Ok(va)
        } else if satp >> 60 == SV39 {
            sv39_walk(self.bus.dram, (satp & PPN_MASK) << 12, va, 2, perm)
        } else {
            Err(Error::Unimplemented)
        }
    }

    /// Whether an access of the given kind goes through the PMP scan: every
    /// access below machine mode, and in machine mode those loads and
    /// stores that `mstatus.MPRV` gives the privilege of a lower mode.
    pub open spec fn pmp_applies(self, perm: PMPPerm) -> bool {
        let mstatus = self.reg.csr[MSTATUS];
        let mpp = (mstatus >> 11) & 0b11;
        match self.mode {
            Mode::M => mstatus & MSTATUS_MPRV != 0 && (mpp == 0 || mpp == 1) && perm != PMPPerm::X,
            _ => true,
        }
    }

    /// What the PMP check says of an access to a physical address.
    pub open spec fn check_pmp(self, addr: u64, perm: PMPPerm) -> Result<(), Error> {
        if self.pmp_applies(perm) {
            pmp_scan(self.reg, addr, perm, 0)
        } else {
            Ok(())
        }
    }

    /// The physical address that an access of the given kind to a virtual
    /// address reaches: translation, then the PMP check.
    pub open spec fn access(self, va: u64, perm: PMPPerm) -> Result<u64, Error> {
        match self.trans_addr(va, perm) {
            Err(e) => Err(e),
            Ok(pa) => match self.check_pmp(pa, perm) {
                Err(e) => Err(e),
                Ok(_) => Ok(pa),
            },
        }
    }

    /// What a load of the given width from a virtual address gives,
    /// zero-extended.
    pub open spec fn load(self, va: u64, width: Width) -> Result<u64, Error> {
        match self.access(va, PMPPerm::R) {
            Err(e) => Err(e),
            Ok(pa) => self.phys_load(pa, width),
        }
    }

    /// What a store of the low bytes of `value` to a virtual address gives.
    pub open spec fn store(self, va: u64, width: Width, value: u64) -> Result<CpuView, Error> {
        match self.access(va, PMPPerm::W) {
            Err(e) => Err(e),
            Ok(pa) => self.phys_store(pa, width, value),
        }
    }

    /// The instruction word at the program counter. Instructions come from
    /// DRAM only.
    pub open spec fn fetch(self) -> Result<u32, Error> {
        match self.access(self.reg.pc, PMPPerm::X) {
            Err(e) => Err(e),
            Ok(pa) => if pa < MEM_OFF {
                Err(Error::InvalidAddress)
            } else {
                word_at(self.bus.dram, (pa - MEM_OFF) as u64)
            },
        }
    }
}

/// Tells whether a flags field allows an access of the given kind.
fn allows(flags: u64, perm: PMPPerm) -> (r: bool)
    ensures
        r == (flags & perm_bit(perm) != 0),
{
    match perm {
        PMPPerm::R => flags & 0b001 != 0,
        PMPPerm::W => flags & 0b010 != 0,
        PMPPerm::X => flags & 0b100 != 0,
    }
}

proof fn lemma_walk_bounds(x: u64, va: u64, level: u64)
    requires
        level <= 2,
    ensures
        ((x >> 10) & PPN_MASK) << 12 <= 0xFF_FFFF_FFFF_F000,
        (x & PPN_MASK) << 12 <= 0xFF_FFFF_FFFF_F000,
        (va >> (12 + 9 * level) as u64) & 0x1FF < 512,
{
    let s = (12 + 9 * level) as u64;
    assert(((x >> 10) & 0xFFF_FFFF_FFFF) << 12 <= 0xFF_FFFF_FFFF_F000 && (x & 0xFFF_FFFF_FFFF) << 12
        <= 0xFF_FFFF_FFFF_F000 && (va >> s) & 0x1FF < 512) by (bit_vector);
}

impl Cpu {
    /// Translates a virtual address for an access of the given kind.
    pub fn trans_addr(&self, addr: u64, perm: PMPPerm) -> (r: Result<u64, Error>)
        ensures
            r == self@.trans_addr(addr, perm),
    {
        match self.reg.csr(SATP) >> 60 {
            0 => Ok(addr),
            8 => self.sv39(addr, perm),
            9 => self.sv48(addr),
            10 => self.sv57(addr),
            11 => self.sv64(addr),
            _ => Err(Error::Unimplemented),
        }
    }

    /// Walks the three levels of Sv39 page tables.
    ///
    /// A virtual address holds, above the 12 bits of the page offset, 9 bits
    /// of index for each of the levels 0, 1 and 2.
    pub fn sv39(&self, va: u64, perm: PMPPerm) -> (r: Result<u64, Error>)
        ensures
            r == sv39_walk(self@.bus.dram, (self@.reg.csr[SATP] & PPN_MASK) << 12, va, 2, perm),
    {
        let satp = self.reg.csr(SATP);
        let mut table = (satp & PPN_MASK) << 12;
        let mut level: u64 = 2;
        proof {
            lemma_walk_bounds(satp, va, level);
        }
        loop
            invariant
                level <= 2,
                table <= 0xFF_FFFF_FFFF_F000,
                sv39_walk(self@.bus.dram, table, va, level, perm) == sv39_walk(
                    self@.bus.dram,
                    (self@.reg.csr[SATP] & PPN_MASK) << 12,
                    va,
                    2,
                    perm,
                ),
            decreases level,
        {
            proof {
                lemma_walk_bounds(0, va, level);
            }
            let idx = (va >> (12 + 9 * level)) & 0x1FF;
            let pte_addr = table + idx * 8;
            if pte_addr < MEM_OFF {
                return Err(Error::InvalidAddress);
            }
            let pte = match self.bus.ld_dram(pte_addr - MEM_OFF) {
                Ok(pte) => pte,
                Err(e) => {
                    return Err(e);
                },
            };
            if pte & PTE_V == 0 || (pte & PTE_R == 0 && pte & PTE_W != 0) {
                return Err(Error::PageFault);
            }
            let target = ((pte >> 10) & PPN_MASK) << 12;
            if pte & (PTE_R | PTE_X) != 0 {
                if !allows(pte >> 1, perm) {
                    return Err(Error::PageFault);
                }
                let mask: u64 = if level == 0 {
                    0xFFF
                } else if level == 1 {
                    0x1F_FFFF
                } else {
                    0x3FFF_FFFF
                };
                return Ok((target & !mask) | (va & mask));
            }
            if level == 0 {
                return Err(Error::PageFault);
            }
            proof {
                lemma_walk_bounds(pte, va, level);
            }
            table = target;
            level = level - 1;
        }
    }

    fn sv48(&self, _va: u64) -> (r: Result<u64, Error>)
        ensures
            r == Err::<u64, Error>(Error::Unimplemented),
    {
        Err(Error::Unimplemented)
    }

    fn sv57(&self, _va: u64) -> (r: Result<u64, Error>)
        ensures
            r == Err::<u64, Error>(Error::Unimplemented),
    {
        Err(Error::Unimplemented)
    }

    fn sv64(&self, _va: u64) -> (r: Result<u64, Error>)
        ensures
            r == Err::<u64, Error>(Error::Unimplemented),
    {
        Err(Error::Unimplemented)
    }

    /// Checks an access to a physical address against the PMP entries, where
    /// the mode and `mstatus` ask for it.
    pub fn check_pmp(&self, addr: u64, perm: PMPPerm) -> (r: Result<(), Error>)
        ensures
            r == self@.check_pmp(addr, perm),
    {
        if let Mode::S | Mode::U = self.mode {
            return self.blocked_by_pmp(addr, perm);
        }
        let mstatus = self.reg.csr(MSTATUS);
        let mprv = mstatus & MSTATUS_MPRV != 0;
        let mpp = (mstatus >> 11) & 0b11;
        if mprv && (mpp == 0 || mpp == 1) && perm != PMPPerm::X {
            return self.blocked_by_pmp(addr, perm);
        }
        Ok(())
    }

    /// Scans the 64 PMP entries for the one that decides the access.
    pub fn blocked_by_pmp(&self, addr: u64, perm: PMPPerm) -> (r: Result<(), Error>)
        ensures
            r == pmp_scan(self@.reg, addr, perm, 0),
    {
        let mut i: u16 = 0;
        while i < 64
            invariant
                i <= 64,
                pmp_scan(self@.reg, addr, perm, i) == pmp_scan(self@.reg, addr, perm, 0),
            decreases 64 - i,
        {
            let pmpcfg = self.reg.csr(PMPCFG0 + i / 8 * 2);
            let pmpcfg = (pmpcfg >> ((i % 8) * 8)) & 0xFF;
            let a = (pmpcfg >> 3) & 0b11;
            // TOR
            if a == 1 {
                let begin: u64 = if i == 0 {
                    0
                } else {
                    self.reg.csr(PMPADDR0 + i - 1) << 2
                };
                let end = self.reg.csr(PMPADDR0 + i) << 2;
                if begin <= addr && addr < end {
                    if allows(pmpcfg, perm) {
                        return Ok(());
                    }
                    return Err(Error::PMPFault);
                }
            } else if a != 0 {
                // NA4, NAPOT
                return Err(Error::Unimplemented);
            }
            i += 1;
        }
        Ok(())
    }

    /// Translates a virtual address and checks the access against the PMP.
    pub fn access(&self, va: u64, perm: PMPPerm) -> (r: Result<u64, Error>)
        ensures
            r == self@.access(va, perm),
    {
        let pa = match self.trans_addr(va, perm) {
            Ok(pa) => pa,
            Err(e) => {
                return Err(e);
            },
        };
        match self.check_pmp(pa, perm) {
            Ok(_) => Ok(pa),
            Err(e) => Err(e),
        }
    }

    /// Loads a value of the given width from a virtual address,
    /// zero-extended.
    pub fn load(&self, va: u64, width: Width) -> (r: Result<u64, Error>)
        requires
            self.wf(),
        ensures
            r == self@.load(va, width),
    {
        match self.access(va, PMPPerm::R) {
            Ok(pa) => self.load_phys(pa, width),
            Err(e) => Err(e),
        }
    }

    /// Stores the low bytes of `value` at a virtual address.
    pub fn store(&mut self, va: u64, width: Width, value: u64) -> (r: Result<(), Error>)
        requires
            old(self).wf(),
        ensures
            final(self).wf(),
            refines(old(self)@, final(self)@, r, old(self)@.store(va, width, value)),
    {
        match self.access(va, PMPPerm::W) {
            Ok(pa) => self.store_phys(pa, width, value),
            Err(e) => Err(e),
        }
    }

    /// Reads the instruction word at the program counter.
    pub fn fetch(&self) -> (r: Result<u32, Error>)
        ensures
            r == self@.fetch(),
    {
        let addr = match self.access(self.reg.pc, PMPPerm::X) {
            Ok(pa) => pa,
            Err(e) => {
                return Err(e);
            },
        };
        if addr < MEM_OFF {
            return Err(Error::InvalidAddress);
        }
        self.bus.lw_dram(addr - MEM_OFF)
    }
}

} // verus!
