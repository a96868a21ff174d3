use vstd::prelude::*;
use crate::conf::MEM_OFF;
use crate::error::{refines, Error};
use super::arith::{self, max_spec, maxu_spec, min_spec, minu_spec, sext32};
use super::instructions::Instruction;
use super::reservation::{release_word, reserve_word, word_reserved};
use crate::bus::Width;
use super::{Cpu, CpuView, PMPPerm};

verus! {

/// What an atomic memory operation does to the value in memory.
#[derive(Debug, Clone, Copy, PartialEq, Eq, Structural)]
pub enum AmoOp {
    Swap,
    Add,
    Xor,
    And,
    Or,
    Min,
    Max,
    Minu,
    Maxu,
}

/// The width of an atomic operation: a doubleword where `d` holds, else a word.
pub open spec fn amo_width(d: bool) -> Width {
    if d {
        Width::D
    } else {
        Width::W
    }
}

/// What an atomic load leaves in `x[rd]`: the doubleword, or the word
/// sign-extended.
pub open spec fn amo_result(d: bool, value: u64) -> u64 {
    if d {
        value
    } else {
        sext32(value)
    }
}

/// The value that an atomic memory operation stores, from the value `old`
/// in memory and the value `src` of `x[rs2]`. A word operation compares the
/// low words.
pub open spec fn amo_value(op: AmoOp, d: bool, old: u64, src: u64) -> u64 {
    match op {
        AmoOp::Swap => src,
        AmoOp::Add => old.wrapping_add(src),
        AmoOp::Xor => old ^ src,
        AmoOp::And => old & src,
        AmoOp::Or => old | src,
        AmoOp::Min => if d {
            min_spec(old, src)
        } else {
            min_spec(sext32(old), sext32(src))
        },
        AmoOp::Max => if d {
            max_spec(old, src)
        } else {
            max_spec(sext32(old), sext32(src))
        },
        AmoOp::Minu => if d {
            minu_spec(old, src)
        } else {
            minu_spec(old & 0xFFFF_FFFF, src & 0xFFFF_FFFF)
        },
        AmoOp::Maxu => if d {
            maxu_spec(old, src)
        } else {
            maxu_spec(old & 0xFFFF_FFFF, src & 0xFFFF_FFFF)
        },
    }
}

/// Computes the value that an atomic memory operation stores.
pub fn amo_apply(op: AmoOp, d: bool, old: u64, src: u64) -> (r: u64)
    ensures
        r == amo_value(op, d, old, src),
{
    match op {
        AmoOp::Swap => src,
        AmoOp::Add => old.wrapping_add(src),
        AmoOp::Xor => old ^ src,
        AmoOp::And => old & src,
        AmoOp::Or => old | src,
        AmoOp::Min => if d {
            arith::min(old, src)
        } else {
            arith::min(arith::sext_word(old), arith::sext_word(src))
        },
        AmoOp::Max => if d {
            arith::max(old, src)
        } else {
            arith::max(arith::sext_word(old), arith::sext_word(src))
        },
        AmoOp::Minu => if d {
            arith::minu(old, src)
        } else {
            arith::minu(old & 0xFFFF_FFFF, src & 0xFFFF_FFFF)
        },
        AmoOp::Maxu => if d {
            arith::maxu(old, src)
        } else {
            arith::maxu(old & 0xFFFF_FFFF, src & 0xFFFF_FFFF)
        },
    }
}

impl CpuView {
    /// The first word of a reservation on the DRAM offset `addr`, of a
    /// doubleword where `d` holds and of a word otherwise. An offset that is
    /// not naturally aligned is a `MisalignedReservation`, one that the
    /// reservation bitmap does not cover an `InvalidAddress`.
    pub open spec fn rsv_index(self, addr: u64, d: bool) -> Result<int, Error> {
        if (d && addr % 8 != 0) || addr % 4 != 0 {
            Err(Error::MisalignedReservation)
        } else if addr / 4 + (if d { 2int } else { 1int }) > self.rsv_words {
            Err(Error::InvalidAddress)
        } else {
            Ok(addr as int / 4)
        }
    }

    /// The words of the reservation that starts at word `w`.
    pub open spec fn rsv_set(w: int, d: bool) -> Set<int> {
        if d {
            set![w, w + 1]
        } else {
            set![w]
        }
    }

    /// The state with a reservation on the DRAM offset `addr`.
    pub open spec fn reserve_mem(self, addr: u64, d: bool) -> Result<CpuView, Error> {
        match self.rsv_index(addr, d) {
            Err(e) => Err(e),
            Ok(w) => Ok(CpuView { rsv: self.rsv.union(Self::rsv_set(w, d)), ..self }),
        }
    }

    /// Whether the reservation on the DRAM offset `addr` holds.
    pub open spec fn check_mem_reservation(self, addr: u64, d: bool) -> Result<bool, Error> {
        match self.rsv_index(addr, d) {
            Err(e) => Err(e),
            Ok(w) => Ok(Self::rsv_set(w, d).subset_of(self.rsv)),
        }
    }

    /// The state without the reservation on the DRAM offset `addr`.
    pub open spec fn invalidate_mem_reservation(self, addr: u64, d: bool) -> Result<CpuView, Error> {
        match self.rsv_index(addr, d) {
            Err(e) => Err(e),
            Ok(w) => Ok(CpuView { rsv: self.rsv.difference(Self::rsv_set(w, d)), ..self }),
        }
    }

    /// Whether the address in `x[rs1]` is not naturally aligned for the width.
    pub open spec fn misaligned(self, inst: Instruction, d: bool) -> bool {
        (d && self.x(inst.rs1) % 8 != 0) || self.x(inst.rs1) % 4 != 0
    }

    /// Load-reserved: `x[rd]` takes the value at the address in `x[rs1]`,
    /// and the address is reserved. The address is naturally aligned and
    /// lies in DRAM.
    #[verifier::opaque]
    pub open spec fn load_reserved(self, inst: Instruction, d: bool) -> Result<CpuView, Error> {
        if self.misaligned(inst, d) {
            Err(Error::MisalignedReservation)
        } else {
            match self.access(self.x(inst.rs1), PMPPerm::R) {
                Err(e) => Err(e),
                Ok(pa) => if pa < MEM_OFF {
                    Err(Error::InvalidAddress)
                } else {
                    match self.phys_load(pa, amo_width(d)) {
                        Err(e) => Err(e),
                        Ok(v) => match self.reserve_mem((pa - MEM_OFF) as u64, d) {
                            Err(e) => Err(e),
                            Ok(s) => Ok(s.write_x(inst.rd, amo_result(d, v))),
                        },
                    }
                },
            }
        }
    }

    /// Store-conditional: where the reservation on the address in `x[rs1]`
    /// holds, `x[rs2]` is stored there and `x[rd]` is 0; otherwise nothing
    /// is stored and `x[rd]` is 1. Either way the reservation is gone.
    #[verifier::opaque]
    pub open spec fn store_conditional(self, inst: Instruction, d: bool) -> Result<CpuView, Error> {
        if self.misaligned(inst, d) {
            Err(Error::MisalignedReservation)
        } else {
            match self.access(self.x(inst.rs1), PMPPerm::W) {
                Err(e) => Err(e),
                Ok(pa) => if pa < MEM_OFF {
                    Err(Error::InvalidAddress)
                } else {
                    let off = (pa - MEM_OFF) as u64;
                    match self.check_mem_reservation(off, d) {
                        Err(e) => Err(e),
                        Ok(held) => if held {
                            match self.phys_store(pa, amo_width(d), self.x(inst.rs2)) {
                                Err(e) => Err(e),
                                Ok(s) => match s.invalidate_mem_reservation(off, d) {
                                    Err(e) => Err(e),
                                    Ok(t) => Ok(t.write_x(inst.rd, 0)),
                                },
                            }
                        } else {
                            match self.invalidate_mem_reservation(off, d) {
                                Err(e) => Err(e),
                                Ok(t) => Ok(t.write_x(inst.rd, 1)),
                            }
                        },
                    }
                },
            }
        }
    }

    /// An atomic memory operation: the value at the address in `x[rs1]` is
    /// loaded, combined with `x[rs2]` and stored back, and `x[rd]` takes the
    /// value that was loaded.
    #[verifier::opaque]
    pub open spec fn amo(self, inst: Instruction, op: AmoOp, d: bool) -> Result<CpuView, Error> {
        match self.access(self.x(inst.rs1), PMPPerm::W) {
            Err(e) => Err(e),
            Ok(pa) => match self.phys_load(pa, amo_width(d)) {
                Err(e) => Err(e),
                Ok(old) => match self.phys_store(pa, amo_width(d), amo_value(op, d, old, self.x(inst.rs2))) {
                    Err(e) => Err(e),
                    Ok(s) => Ok(s.write_x(inst.rd, amo_result(d, old))),
                },
            },
        }
    }

    /// `x[rd] = LoadReserved32(M[x[rs1]])`
    pub open spec fn lr_w(self, inst: Instruction) -> Result<CpuView, Error> {
        self.load_reserved(inst, false)
    }

    /// `x[rd] = StoreConditional32(M[x[rs1]], x[rs2])`
    pub open spec fn sc_w(self, inst: Instruction) -> Result<CpuView, Error> {
        self.store_conditional(inst, false)
    }

    /// `x[rd] = AMO32(M[x[rs1]] SWAP x[rs2])`
    pub open spec fn amoswap_w(self, inst: Instruction) -> Result<CpuView, Error> {
        self.amo(inst, AmoOp::Swap, false)
    }

    /// `x[rd] = AMO32(M[x[rs1]] + x[rs2])`
    pub open spec fn amoadd_w(self, inst: Instruction) -> Result<CpuView, Error> {
        self.amo(inst, AmoOp::Add, false)
    }

    /// `x[rd] = AMO32(M[x[rs1]] ^ x[rs2])`
    pub open spec fn amoxor_w(self, inst: Instruction) -> Result<CpuView, Error> {
        self.amo(inst, AmoOp::Xor, false)
    }

    /// `x[rd] = AMO32(M[x[rs1]] & x[rs2])`
    pub open spec fn amoand_w(self, inst: Instruction) -> Result<CpuView, Error> {
        self.amo(inst, AmoOp::And, false)
    }

    /// `x[rd] = AMO32(M[x[rs1]] | x[rs2])`
    pub open spec fn amoor_w(self, inst: Instruction) -> Result<CpuView, Error> {
        self.amo(inst, AmoOp::Or, false)
    }

    /// `x[rd] = AMO32(M[x[rs1]] MIN x[rs2])`
    pub open spec fn amomin_w(self, inst: Instruction) -> Result<CpuView, Error> {
        self.amo(inst, AmoOp::Min, false)
    }

    /// `x[rd] = AMO32(M[x[rs1]] MAX x[rs2])`
    pub open spec fn amomax_w(self, inst: Instruction) -> Result<CpuView, Error> {
        self.amo(inst, AmoOp::Max, false)
    }

    /// `x[rd] = AMO32(M[x[rs1]] MINU x[rs2])`
    pub open spec fn amominu_w(self, inst: Instruction) -> Result<CpuView, Error> {
        self.amo(inst, AmoOp::Minu, false)
    }

    /// `x[rd] = AMO32(M[x[rs1]] MAXU x[rs2])`
    pub open spec fn amomaxu_w(self, inst: Instruction) -> Result<CpuView, Error> {
        self.amo(inst, AmoOp::Maxu, false)
    }

    /// `x[rd] = LoadReserved64(M[x[rs1]])`
    pub open spec fn lr_d(self, inst: Instruction) -> Result<CpuView, Error> {
        self.load_reserved(inst, true)
    }

    /// `x[rd] = StoreConditional64(M[x[rs1]], x[rs2])`
    pub open spec fn sc_d(self, inst: Instruction) -> Result<CpuView, Error> {
        self.store_conditional(inst, true)
    }

    /// `x[rd] = AMO64(M[x[rs1]] SWAP x[rs2])`
    pub open spec fn amoswap_d(self, inst: Instruction) -> Result<CpuView, Error> {
        self.amo(inst, AmoOp::Swap, true)
    }

    /// `x[rd] = AMO64(M[x[rs1]] + x[rs2])`
    pub open spec fn amoadd_d(self, inst: Instruction) -> Result<CpuView, Error> {
        self.amo(inst, AmoOp::Add, true)
    }

    /// `x[rd] = AMO64(M[x[rs1]] ^ x[rs2])`
    pub open spec fn amoxor_d(self, inst: Instruction) -> Result<CpuView, Error> {
        self.amo(inst, AmoOp::Xor, true)
    }

    /// `x[rd] = AMO64(M[x[rs1]] & x[rs2])`
    pub open spec fn amoand_d(self, inst: Instruction) -> Result<CpuView, Error> {
        self.amo(inst, AmoOp::And, true)
    }

    /// `x[rd] = AMO64(M[x[rs1]] | x[rs2])`
    pub open spec fn amoor_d(self, inst: Instruction) -> Result<CpuView, Error> {
        self.amo(inst, AmoOp::Or, true)
    }

    /// `x[rd] = AMO64(M[x[rs1]] MIN x[rs2])`
    pub open spec fn amomin_d(self, inst: Instruction) -> Result<CpuView, Error> {
        self.amo(inst, AmoOp::Min, true)
    }

    /// `x[rd] = AMO64(M[x[rs1]] MAX x[rs2])`
    pub open spec fn amomax_d(self, inst: Instruction) -> Result<CpuView, Error> {
        self.amo(inst, AmoOp::Max, true)
    }

    /// `x[rd] = AMO64(M[x[rs1]] MINU x[rs2])`
    pub open spec fn amominu_d(self, inst: Instruction) -> Result<CpuView, Error> {
        self.amo(inst, AmoOp::Minu, true)
    }

    /// `x[rd] = AMO64(M[x[rs1]] MAXU x[rs2])`
    pub open spec fn amomaxu_d(self, inst: Instruction) -> Result<CpuView, Error> {
        self.amo(inst, AmoOp::Maxu, true)
    }
}

impl Cpu {
    /// Tells whether the reservation bitmap covers the reservation on the
    /// DRAM offset `addr`, and that the offset is aligned for it.
    fn rsv_word(&self, addr: u64, d: bool) -> (r: Result<(usize, u8), Error>)
        ensures
            match r {
                Ok((idx, k)) => {
                    &&& self@.rsv_index(addr, d) == Ok::<int, Error>(idx * 8 + k)
                    &&& idx < self.mem_reserved_w@.len()
                    &&& k < 8
                    &&& d ==> k < 7
                },
                Err(e) => self@.rsv_index(addr, d) == Err::<int, Error>(e),
            },
    {
        if (d && addr % 8 != 0) || addr % 4 != 0 {
            return Err(Error::MisalignedReservation);
        }
        let len = self.mem_reserved_w.len();
        if addr / 32 >= len as u64 {
            return Err(Error::InvalidAddress);
        }
        Ok(((addr / 32) as usize, ((addr % 32) / 4) as u8))
    }

    /// Reserves the word, or the doubleword where `d` holds, at the DRAM
    /// offset `addr`.
    pub fn reserve_mem(&mut self, addr: u64, d: bool) -> (r: Result<(), Error>)
        ensures
            refines(old(self)@, final(self)@, r, old(self)@.reserve_mem(addr, d)),
    {
        let (idx, k) = match self.rsv_word(addr, d) {
            Ok(w) => w,
            Err(e) => {
                return Err(e);
            },
        };
        reserve_word(&mut self.mem_reserved_w, idx, k);
        if d {
            reserve_word(&mut self.mem_reserved_w, idx, k + 1);
        }
        assert(self@.rsv =~= old(self)@.rsv.union(CpuView::rsv_set(idx * 8 + k, d)));
        Ok(())
    }

    /// Tells whether the reservation at the DRAM offset `addr` holds.
    pub fn check_mem_reservation(&self, addr: u64, d: bool) -> (r: Result<bool, Error>)
        ensures
            r == self@.check_mem_reservation(addr, d),
    {
        let (idx, k) = match self.rsv_word(addr, d) {
            Ok(w) => w,
            Err(e) => {
                return Err(e);
            },
        };
        let mut held = word_reserved(&self.mem_reserved_w, idx, k);
        if d {
            held = held && word_reserved(&self.mem_reserved_w, idx, k + 1);
        }
        Ok(held)
    }

    /// Takes back the reservation at the DRAM offset `addr`.
    pub fn invalidate_mem_reservation(&mut self, addr: u64, d: bool) -> (r: Result<(), Error>)
        ensures
            refines(old(self)@, final(self)@, r, old(self)@.invalidate_mem_reservation(addr, d)),
    {
        let (idx, k) = match self.rsv_word(addr, d) {
            Ok(w) => w,
            Err(e) => {
                return Err(e);
            },
        };
        release_word(&mut self.mem_reserved_w, idx, k);
        if d {
            release_word(&mut self.mem_reserved_w, idx, k + 1);
        }
        assert(self@.rsv =~= old(self)@.rsv.difference(CpuView::rsv_set(idx * 8 + k, d)));
        Ok(())
    }

    /// Loads a word or a doubleword and reserves its address.
    fn load_reserved(&mut self, inst: &Instruction, d: bool) -> (r: Result<(), Error>)
        requires
            old(self).wf(),
            inst.wf(),
        ensures
            final(self).wf(),
            refines(old(self)@, final(self)@, r, old(self)@.load_reserved(*inst, d)),
    {
        reveal(CpuView::load_reserved);
        let addr = self.reg.get_reg(inst.rs1);
        if (d && addr % 8 != 0) || addr % 4 != 0 {
            return Err(Error::MisalignedReservation);
        }
        let width = if d {
            Width::D
        } else {
            Width::W
        };
        let pa = match self.access(addr, PMPPerm::R) {
            Ok(pa) => pa,
            Err(e) => {
                return Err(e);
            },
        };
        if pa < MEM_OFF {
            return Err(Error::InvalidAddress);
        }
        let data = match self.load_phys(pa, width) {
            Ok(v) => v,
            Err(e) => {
                return Err(e);
            },
        };
        match self.reserve_mem(pa - MEM_OFF, d) {
            Ok(_) => {},
            Err(e) => {
                return Err(e);
            },
        }
        let v = if d {
            data
        } else {
            arith::sext_word(data)
        };
        self.reg.set_reg(inst.rd, v);
        Ok(())
    }

    /// Stores a word or a doubleword where its address is still reserved.
    fn store_conditional(&mut self, inst: &Instruction, d: bool) -> (r: Result<(), Error>)
        requires
            old(self).wf(),
            inst.wf(),
        ensures
            final(self).wf(),
            refines(old(self)@, final(self)@, r, old(self)@.store_conditional(*inst, d)),
    {
        reveal(CpuView::store_conditional);
        let addr = self.reg.get_reg(inst.rs1);
        if (d && addr % 8 != 0) || addr % 4 != 0 {
            return Err(Error::MisalignedReservation);
        }
        let width = if d {
            Width::D
        } else {
            Width::W
        };
        let pa = match self.access(addr, PMPPerm::W) {
            Ok(pa) => pa,
            Err(e) => {
                return Err(e);
            },
        };
        if pa < MEM_OFF {
            return Err(Error::InvalidAddress);
        }
        let off = pa - MEM_OFF;
        let held = match self.check_mem_reservation(off, d) {
            Ok(h) => h,
            Err(e) => {
                return Err(e);
            },
        };
        if held {
            let data = self.reg.get_reg(inst.rs2);
            match self.store_phys(pa, width, data) {
                Ok(_) => {},
                Err(e) => {
                    return Err(e);
                },
            }
        }
        let cleared = self.invalidate_mem_reservation(off, d);
        assert(cleared is Ok);
        self.reg.set_reg(
            inst.rd,
            if held {
                0
            } else {
                1
            },
        );
        Ok(())
    }

    /// Loads, combines and stores back, and leaves the loaded value in `x[rd]`.
    fn amo(&mut self, inst: &Instruction, op: AmoOp, d: bool) -> (r: Result<(), Error>)
        requires
            old(self).wf(),
            inst.wf(),
        ensures
            final(self).wf(),
            refines(old(self)@, final(self)@, r, old(self)@.amo(*inst, op, d)),
    {
        reveal(CpuView::amo);
        let addr = self.reg.get_reg(inst.rs1);
        let width = if d {
            Width::D
        } else {
            Width::W
        };
        let pa = match self.access(addr, PMPPerm::W) {
            Ok(pa) => pa,
            Err(e) => {
                return Err(e);
            },
        };
        let data = match self.load_phys(pa, width) {
            Ok(v) => v,
            Err(e) => {
                return Err(e);
            },
        };
        let src = self.reg.get_reg(inst.rs2);
        match self.store_phys(pa, width, amo_apply(op, d, data, src)) {
            Ok(_) => {},
            Err(e) => {
                return Err(e);
            },
        }
        let v = if d {
            data
        } else {
            arith::sext_word(data)
        };
        self.reg.set_reg(inst.rd, v);
        Ok(())
    }

    /// `x[rd] = LoadReserved32(M[x[rs1]])`
    pub fn lr_w(&mut self, inst: &Instruction) -> (r: Result<(), Error>)
        requires
            old(self).wf(),
            inst.wf(),
        ensures
            final(self).wf(),
            refines(old(self)@, final(self)@, r, old(self)@.lr_w(*inst)),
    {
        self.load_reserved(inst, false)
    }

    /// `x[rd] = StoreConditional32(M[x[rs1]], x[rs2])`
    pub fn sc_w(&mut self, inst: &Instruction) -> (r: Result<(), Error>)
        requires
            old(self).wf(),
            inst.wf(),
        ensures
            final(self).wf(),
            refines(old(self)@, final(self)@, r, old(self)@.sc_w(*inst)),
    {
        self.store_conditional(inst, false)
    }

    /// `x[rd] = AMO32(M[x[rs1]] SWAP x[rs2])`
    pub fn amoswap_w(&mut self, inst: &Instruction) -> (r: Result<(), Error>)
        requires
            old(self).wf(),
            inst.wf(),
        ensures
            final(self).wf(),
            refines(old(self)@, final(self)@, r, old(self)@.amoswap_w(*inst)),
    {
        self.amo(inst, AmoOp::Swap, false)
    }

    /// `x[rd] = AMO32(M[x[rs1]] + x[rs2])`
    pub fn amoadd_w(&mut self, inst: &Instruction) -> (r: Result<(), Error>)
        requires
            old(self).wf(),
            inst.wf(),
        ensures
            final(self).wf(),
            refines(old(self)@, final(self)@, r, old(self)@.amoadd_w(*inst)),
    {
        self.amo(inst, AmoOp::Add, false)
    }

    /// `x[rd] = AMO32(M[x[rs1]] ^ x[rs2])`
    pub fn amoxor_w(&mut self, inst: &Instruction) -> (r: Result<(), Error>)
        requires
            old(self).wf(),
            inst.wf(),
        ensures
            final(self).wf(),
            refines(old(self)@, final(self)@, r, old(self)@.amoxor_w(*inst)),
    {
        self.amo(inst, AmoOp::Xor, false)
    }

    /// `x[rd] = AMO32(M[x[rs1]] & x[rs2])`
    pub fn amoand_w(&mut self, inst: &Instruction) -> (r: Result<(), Error>)
        requires
            old(self).wf(),
            inst.wf(),
        ensures
            final(self).wf(),
            refines(old(self)@, final(self)@, r, old(self)@.amoand_w(*inst)),
    {
        self.amo(inst, AmoOp::And, false)
    }

    /// `x[rd] = AMO32(M[x[rs1]] | x[rs2])`
    pub fn amoor_w(&mut self, inst: &Instruction) -> (r: Result<(), Error>)
        requires
            old(self).wf(),
            inst.wf(),
        ensures
            final(self).wf(),
            refines(old(self)@, final(self)@, r, old(self)@.amoor_w(*inst)),
    {
        self.amo(inst, AmoOp::Or, false)
    }

    /// `x[rd] = AMO32(M[x[rs1]] MIN x[rs2])`
    pub fn amomin_w(&mut self, inst: &Instruction) -> (r: Result<(), Error>)
        requires
            old(self).wf(),
            inst.wf(),
        ensures
            final(self).wf(),
            refines(old(self)@, final(self)@, r, old(self)@.amomin_w(*inst)),
    {
        self.amo(inst, AmoOp::Min, false)
    }

    /// `x[rd] = AMO32(M[x[rs1]] MAX x[rs2])`
    pub fn amomax_w(&mut self, inst: &Instruction) -> (r: Result<(), Error>)
        requires
            old(self).wf(),
            inst.wf(),
        ensures
            final(self).wf(),
            refines(old(self)@, final(self)@, r, old(self)@.amomax_w(*inst)),
    {
        self.amo(inst, AmoOp::Max, false)
    }

    /// `x[rd] = AMO32(M[x[rs1]] MINU x[rs2])`
    pub fn amominu_w(&mut self, inst: &Instruction) -> (r: Result<(), Error>)
        requires
            old(self).wf(),
            inst.wf(),
        ensures
            final(self).wf(),
            refines(old(self)@, final(self)@, r, old(self)@.amominu_w(*inst)),
    {
        self.amo(inst, AmoOp::Minu, false)
    }

    /// `x[rd] = AMO32(M[x[rs1]] MAXU x[rs2])`
    pub fn amomaxu_w(&mut self, inst: &Instruction) -> (r: Result<(), Error>)
        requires
            old(self).wf(),
            inst.wf(),
        ensures
            final(self).wf(),
            refines(old(self)@, final(self)@, r, old(self)@.amomaxu_w(*inst)),
    {
        self.amo(inst, AmoOp::Maxu, false)
    }

    /// `x[rd] = LoadReserved64(M[x[rs1]])`
    pub fn lr_d(&mut self, inst: &Instruction) -> (r: Result<(), Error>)
        requires
            old(self).wf(),
            inst.wf(),
        ensures
            final(self).wf(),
            refines(old(self)@, final(self)@, r, old(self)@.lr_d(*inst)),
    {
        self.load_reserved(inst, true)
    }

    /// `x[rd] = StoreConditional64(M[x[rs1]], x[rs2])`
    pub fn sc_d(&mut self, inst: &Instruction) -> (r: Result<(), Error>)
        requires
            old(self).wf(),
            inst.wf(),
        ensures
            final(self).wf(),
            refines(old(self)@, final(self)@, r, old(self)@.sc_d(*inst)),
    {
        self.store_conditional(inst, true)
    }

    /// `x[rd] = AMO64(M[x[rs1]] SWAP x[rs2])`
    pub fn amoswap_d(&mut self, inst: &Instruction) -> (r: Result<(), Error>)
        requires
            old(self).wf(),
            inst.wf(),
        ensures
            final(self).wf(),
            refines(old(self)@, final(self)@, r, old(self)@.amoswap_d(*inst)),
    {
        self.amo(inst, AmoOp::Swap, true)
    }

    /// `x[rd] = AMO64(M[x[rs1]] + x[rs2])`
    pub fn amoadd_d(&mut self, inst: &Instruction) -> (r: Result<(), Error>)
        requires
            old(self).wf(),
            inst.wf(),
        ensures
            final(self).wf(),
            refines(old(self)@, final(self)@, r, old(self)@.amoadd_d(*inst)),
    {
        self.amo(inst, AmoOp::Add, true)
    }

    /// `x[rd] = AMO64(M[x[rs1]] ^ x[rs2])`
    pub fn amoxor_d(&mut self, inst: &Instruction) -> (r: Result<(), Error>)
        requires
            old(self).wf(),
            inst.wf(),
        ensures
            final(self).wf(),
            refines(old(self)@, final(self)@, r, old(self)@.amoxor_d(*inst)),
    {
        self.amo(inst, AmoOp::Xor, true)
    }

    /// `x[rd] = AMO64(M[x[rs1]] & x[rs2])`
    pub fn amoand_d(&mut self, inst: &Instruction) -> (r: Result<(), Error>)
        requires
            old(self).wf(),
            inst.wf(),
        ensures
            final(self).wf(),
            refines(old(self)@, final(self)@, r, old(self)@.amoand_d(*inst)),
    {
        self.amo(inst, AmoOp::And, true)
    }

    /// `x[rd] = AMO64(M[x[rs1]] | x[rs2])`
    pub fn amoor_d(&mut self, inst: &Instruction) -> (r: Result<(), Error>)
        requires
            old(self).wf(),
            inst.wf(),
        ensures
            final(self).wf(),
            refines(old(self)@, final(self)@, r, old(self)@.amoor_d(*inst)),
    {
        self.amo(inst, AmoOp::Or, true)
    }

    /// `x[rd] = AMO64(M[x[rs1]] MIN x[rs2])`
    pub fn amomin_d(&mut self, inst: &Instruction) -> (r: Result<(), Error>)
        requires
            old(self).wf(),
            inst.wf(),
        ensures
            final(self).wf(),
            refines(old(self)@, final(self)@, r, old(self)@.amomin_d(*inst)),
    {
        self.amo(inst, AmoOp::Min, true)
    }

    /// `x[rd] = AMO64(M[x[rs1]] MAX x[rs2])`
    pub fn amomax_d(&mut self, inst: &Instruction) -> (r: Result<(), Error>)
        requires
            old(self).wf(),
            inst.wf(),
        ensures
            final(self).wf(),
            refines(old(self)@, final(self)@, r, old(self)@.amomax_d(*inst)),
    {
        self.amo(inst, AmoOp::Max, true)
    }

    /// `x[rd] = AMO64(M[x[rs1]] MINU x[rs2])`
    pub fn amominu_d(&mut self, inst: &Instruction) -> (r: Result<(), Error>)
        requires
            old(self).wf(),
            inst.wf(),
        ensures
            final(self).wf(),
            refines(old(self)@, final(self)@, r, old(self)@.amominu_d(*inst)),
    {
        self.amo(inst, AmoOp::Minu, true)
    }

    /// `x[rd] = AMO64(M[x[rs1]] MAXU x[rs2])`
    pub fn amomaxu_d(&mut self, inst: &Instruction) -> (r: Result<(), Error>)
        requires
            old(self).wf(),
            inst.wf(),
        ensures
            final(self).wf(),
            refines(old(self)@, final(self)@, r, old(self)@.amomaxu_d(*inst)),
    {
        self.amo(inst, AmoOp::Maxu, true)
    }
}

/// A load-reserved or store-conditional whose address is not naturally
/// aligned fails with `MisalignedReservation`: a word wants a multiple of
/// four, a doubleword a multiple of eight.
pub proof fn lemma_misaligned_reservation(s: CpuView, inst: Instruction)
    ensures
        s.x(inst.rs1) % 4 != 0 ==> s.lr_w(inst) == Err::<CpuView, Error>(Error::MisalignedReservation) && s.sc_w(inst)
            == Err::<CpuView, Error>(Error::MisalignedReservation),
        s.x(inst.rs1) % 8 != 0 ==> s.lr_d(inst) == Err::<CpuView, Error>(Error::MisalignedReservation) && s.sc_d(inst)
            == Err::<CpuView, Error>(Error::MisalignedReservation),
{
    reveal(CpuView::load_reserved);
    reveal(CpuView::store_conditional);
}

/// After a store-conditional, successful or not, the reservation on its
/// address no longer holds; every other reservation is as it was. Where the
/// hart held no other reservation, none is left. `x[rd]` tells whether the
/// reservation held: it is 0 where it did, and 1 where it did not.
pub proof fn lemma_sc_clears_reservation(s: CpuView, inst: Instruction, d: bool)
    requires
        s.reg.wf(),
        inst.wf(),
        s.store_conditional(inst, d) is Ok,
    ensures
        ({
            let t = s.store_conditional(inst, d).unwrap();
            let pa = s.access(s.x(inst.rs1), PMPPerm::W).unwrap();
            let off = (pa - MEM_OFF) as u64;
            let w = s.rsv_index(off, d).unwrap();
            &&& s.access(s.x(inst.rs1), PMPPerm::W) is Ok
            &&& pa >= MEM_OFF
            &&& s.rsv_index(off, d) is Ok
            &&& t.rsv == s.rsv.difference(CpuView::rsv_set(w, d))
            &&& t.check_mem_reservation(off, d) == Ok::<bool, Error>(false)
            &&& s.rsv.subset_of(CpuView::rsv_set(w, d)) ==> t.rsv == Set::<int>::empty()
            &&& inst.rd != 0 ==> t.x(inst.rd) == (if s.check_mem_reservation(off, d) == Ok::<bool, Error>(true) {
                0u64
            } else {
                1u64
            })
        }),
{
    reveal(CpuView::store_conditional);
    let pa = s.access(s.x(inst.rs1), PMPPerm::W).unwrap();
    let off = (pa - MEM_OFF) as u64;
    let w = s.rsv_index(off, d).unwrap();
    let t = s.store_conditional(inst, d).unwrap();
    let held = s.check_mem_reservation(off, d).unwrap();
    if held {
        let stored = s.phys_store(pa, amo_width(d), s.x(inst.rs2)).unwrap();
        assert(stored.rsv == s.rsv);
        assert(stored.rsv_words == s.rsv_words);
    }
    assert(t.rsv =~= s.rsv.difference(CpuView::rsv_set(w, d)));
    assert(CpuView::rsv_set(w, d).contains(w));
    if s.rsv.subset_of(CpuView::rsv_set(w, d)) {
        assert(t.rsv =~= Set::<int>::empty());
    }
}

/// An atomic memory operation leaves the register file well formed.
proof fn lemma_amo_keeps_registers(s: CpuView, inst: Instruction, op: AmoOp, d: bool)
    requires
        s.reg.wf(),
        inst.wf(),
    ensures
        s.amo(inst, op, d) matches Ok(t) ==> t.reg.wf(),
{
    reveal(CpuView::amo);
    if s.amo(inst, op, d) is Ok {
        let pa = s.access(s.x(inst.rs1), PMPPerm::W).unwrap();
        let old = s.phys_load(pa, amo_width(d)).unwrap();
        super::lemma_store_keeps_registers(s, pa, amo_width(d), amo_value(op, d, old, s.x(inst.rs2)));
    }
}

/// A load-reserved and a store-conditional leave the register file well
/// formed.
proof fn lemma_reservation_keeps_registers(s: CpuView, inst: Instruction, d: bool)
    requires
        s.reg.wf(),
        inst.wf(),
    ensures
        s.load_reserved(inst, d) matches Ok(t) ==> t.reg.wf(),
        s.store_conditional(inst, d) matches Ok(t) ==> t.reg.wf(),
{
    reveal(CpuView::load_reserved);
    reveal(CpuView::store_conditional);
    if s.store_conditional(inst, d) is Ok {
        let pa = s.access(s.x(inst.rs1), PMPPerm::W).unwrap();
        super::lemma_store_keeps_registers(s, pa, amo_width(d), s.x(inst.rs2));
    }
}

/// Each an atomic instruction leaves the register file well formed: `x[0]`
/// stays 0, and no CSR comes or goes.
pub proof fn lemma_atomic_keeps_registers(s: CpuView, inst: Instruction)
    requires
        s.reg.wf(),
        inst.wf(),
    ensures
        s.lr_w(inst) matches Ok(t) ==> t.reg.wf(),
        s.sc_w(inst) matches Ok(t) ==> t.reg.wf(),
        s.amoswap_w(inst) matches Ok(t) ==> t.reg.wf(),
        s.amoadd_w(inst) matches Ok(t) ==> t.reg.wf(),
        s.amoxor_w(inst) matches Ok(t) ==> t.reg.wf(),
        s.amoand_w(inst) matches Ok(t) ==> t.reg.wf(),
        s.amoor_w(inst) matches Ok(t) ==> t.reg.wf(),
        s.amomin_w(inst) matches Ok(t) ==> t.reg.wf(),
        s.amomax_w(inst) matches Ok(t) ==> t.reg.wf(),
        s.amominu_w(inst) matches Ok(t) ==> t.reg.wf(),
        s.amomaxu_w(inst) matches Ok(t) ==> t.reg.wf(),
        s.lr_d(inst) matches Ok(t) ==> t.reg.wf(),
        s.sc_d(inst) matches Ok(t) ==> t.reg.wf(),
        s.amoswap_d(inst) matches Ok(t) ==> t.reg.wf(),
        s.amoadd_d(inst) matches Ok(t) ==> t.reg.wf(),
        s.amoxor_d(inst) matches Ok(t) ==> t.reg.wf(),
        s.amoand_d(inst) matches Ok(t) ==> t.reg.wf(),
        s.amoor_d(inst) matches Ok(t) ==> t.reg.wf(),
        s.amomin_d(inst) matches Ok(t) ==> t.reg.wf(),
        s.amomax_d(inst) matches Ok(t) ==> t.reg.wf(),
        s.amominu_d(inst) matches Ok(t) ==> t.reg.wf(),
        s.amomaxu_d(inst) matches Ok(t) ==> t.reg.wf(),
{
    lemma_reservation_keeps_registers(s, inst, false);
    lemma_amo_keeps_registers(s, inst, AmoOp::Swap, false);
    lemma_amo_keeps_registers(s, inst, AmoOp::Add, false);
    lemma_amo_keeps_registers(s, inst, AmoOp::Xor, false);
    lemma_amo_keeps_registers(s, inst, AmoOp::And, false);
    lemma_amo_keeps_registers(s, inst, AmoOp::Or, false);
    lemma_amo_keeps_registers(s, inst, AmoOp::Min, false);
    lemma_amo_keeps_registers(s, inst, AmoOp::Max, false);
    lemma_amo_keeps_registers(s, inst, AmoOp::Minu, false);
    lemma_amo_keeps_registers(s, inst, AmoOp::Maxu, false);
    lemma_reservation_keeps_registers(s, inst, true);
    lemma_amo_keeps_registers(s, inst, AmoOp::Swap, true);
    lemma_amo_keeps_registers(s, inst, AmoOp::Add, true);
    lemma_amo_keeps_registers(s, inst, AmoOp::Xor, true);
    lemma_amo_keeps_registers(s, inst, AmoOp::And, true);
    lemma_amo_keeps_registers(s, inst, AmoOp::Or, true);
    lemma_amo_keeps_registers(s, inst, AmoOp::Min, true);
    lemma_amo_keeps_registers(s, inst, AmoOp::Max, true);
    lemma_amo_keeps_registers(s, inst, AmoOp::Minu, true);
    lemma_amo_keeps_registers(s, inst, AmoOp::Maxu, true);
}

/// Executing an atomic instruction leaves the register file well formed.
pub proof fn lemma_exec_atomic(s: CpuView, inst: Instruction)
    requires
        s.reg.wf(),
        inst.wf(),
        super::instructions::group_of(inst.name) == super::instructions::InstGroup::Atomic,
        s.exec(inst) is Ok,
    ensures
        s.exec(inst).unwrap().reg.wf(),
{
    lemma_atomic_keeps_registers(s, inst);
    match inst.name {
        super::instructions::InstName::LrW => {
            assert(s.exec(inst) == s.lr_w(inst));
        },
        super::instructions::InstName::ScW => {
            assert(s.exec(inst) == s.sc_w(inst));
        },
        super::instructions::InstName::AmoswapW => {
            assert(s.exec(inst) == s.amoswap_w(inst));
        },
        super::instructions::InstName::AmoaddW => {
            assert(s.exec(inst) == s.amoadd_w(inst));
        },
        super::instructions::InstName::AmoxorW => {
            assert(s.exec(inst) == s.amoxor_w(inst));
        },
        super::instructions::InstName::AmoandW => {
            assert(s.exec(inst) == s.amoand_w(inst));
        },
        super::instructions::InstName::AmoorW => {
            assert(s.exec(inst) == s.amoor_w(inst));
        },
        super::instructions::InstName::AmominW => {
            assert(s.exec(inst) == s.amomin_w(inst));
        },
        super::instructions::InstName::AmomaxW => {
            assert(s.exec(inst) == s.amomax_w(inst));
        },
        super::instructions::InstName::AmominuW => {
            assert(s.exec(inst) == s.amominu_w(inst));
        },
        super::instructions::InstName::AmomaxuW => {
            assert(s.exec(inst) == s.amomaxu_w(inst));
        },
        super::instructions::InstName::LrD => {
            assert(s.exec(inst) == s.lr_d(inst));
        },
        super::instructions::InstName::ScD => {
            assert(s.exec(inst) == s.sc_d(inst));
        },
        super::instructions::InstName::AmoswapD => {
            assert(s.exec(inst) == s.amoswap_d(inst));
        },
        super::instructions::InstName::AmoaddD => {
            assert(s.exec(inst) == s.amoadd_d(inst));
        },
        super::instructions::InstName::AmoxorD => {
            assert(s.exec(inst) == s.amoxor_d(inst));
        },
        super::instructions::InstName::AmoandD => {
            assert(s.exec(inst) == s.amoand_d(inst));
        },
        super::instructions::InstName::AmoorD => {
            assert(s.exec(inst) == s.amoor_d(inst));
        },
        super::instructions::InstName::AmominD => {
            assert(s.exec(inst) == s.amomin_d(inst));
        },
        super::instructions::InstName::AmomaxD => {
            assert(s.exec(inst) == s.amomax_d(inst));
        },
        super::instructions::InstName::AmominuD => {
            assert(s.exec(inst) == s.amominu_d(inst));
        },
        super::instructions::InstName::AmomaxuD => {
            assert(s.exec(inst) == s.amomaxu_d(inst));
        },
        _ => {},
    }
}

} // verus!
