//! The CSR instructions and the privileged instructions.
use vstd::prelude::*;
use crate::error::{refines, Error};
use super::instructions::Instruction;
use super::mmu::MSTATUS_MPRV;
use super::register::{MEPC, MSTATUS, SEPC, SSTATUS};
use super::trap::{MSTATUS_MIE, MSTATUS_MPIE, MSTATUS_MPP, SSTATUS_SIE, SSTATUS_SPIE, SSTATUS_SPP};
use super::{Cpu, CpuView, Mode};

verus! {

/// `mstatus` on return from a machine-mode handler: `MIE` takes `MPIE`,
/// `MPIE` is set, `MPP` and `MPRV` are cleared.
pub open spec fn mstatus_on_return(mstatus: u64) -> u64 {
    (mstatus & !(MSTATUS_MIE | MSTATUS_MPP | MSTATUS_MPRV)) | MSTATUS_MPIE | (if mstatus & MSTATUS_MPIE != 0 {
        MSTATUS_MIE
    } else {
        0
    })
}

/// `sstatus` on return from a supervisor-mode handler: `SIE` takes `SPIE`,
/// `SPIE` is set, `SPP` is cleared.
pub open spec fn sstatus_on_return(sstatus: u64) -> u64 {
    (sstatus & !(SSTATUS_SIE | SSTATUS_SPP)) | SSTATUS_SPIE | (if sstatus & SSTATUS_SPIE != 0 {
        SSTATUS_SIE
    } else {
        0
    })
}

/// The mode that `mstatus.MPP` names; the reserved value names none, and the
/// hart stays in the mode `current`.
pub open spec fn mode_of_mpp(mstatus: u64, current: Mode) -> Mode {
    let mpp = (mstatus & MSTATUS_MPP) >> 11;
    if mpp == 0 {
        Mode::U
    } else if mpp == 1 {
        Mode::S
    } else if mpp == 3 {
        Mode::M
    } else {
        current
    }
}

/// The mode that `sstatus.SPP` names.
pub open spec fn mode_of_spp(sstatus: u64) -> Mode {
    if sstatus & SSTATUS_SPP != 0 {
        Mode::S
    } else {
        Mode::U
    }
}

impl CpuView {
    /// A CSR instruction: `t = CSRs[csr]; CSRs[csr] = value(t); x[rd] = t`,
    /// where `value` makes the new value from the old one. An index that
    /// names no CSR is an `InvalidRegister`.
    pub open spec fn csr_op(self, inst: Instruction, value: spec_fn(u64) -> u64) -> Result<CpuView, Error> {
        match self.reg.get_csr(inst.imm as u16) {
            Err(e) => Err(e),
            Ok(t) => Ok(self.write_csr(inst.imm as u16, value(t)).write_x(inst.rd, t)),
        }
    }

    /// `t = CSRs[csr]; CSRs[csr] = x[rs1]; x[rd] = t`
    pub open spec fn csrrw(self, inst: Instruction) -> Result<CpuView, Error> {
        self.csr_op(inst, |t: u64| self.x(inst.rs1))
    }

    /// `t = CSRs[csr]; CSRs[csr] = t | x[rs1]; x[rd] = t`
    pub open spec fn csrrs(self, inst: Instruction) -> Result<CpuView, Error> {
        self.csr_op(inst, |t: u64| t | self.x(inst.rs1))
    }

    /// `t = CSRs[csr]; CSRs[csr] = t & ~x[rs1]; x[rd] = t`
    pub open spec fn csrrc(self, inst: Instruction) -> Result<CpuView, Error> {
        self.csr_op(inst, |t: u64| t & !self.x(inst.rs1))
    }

    /// `x[rd] = CSRs[csr]; CSRs[csr] = zimm`, with the five bits of the
    /// `rs1` field as `zimm`.
    pub open spec fn csrrwi(self, inst: Instruction) -> Result<CpuView, Error> {
        self.csr_op(inst, |t: u64| inst.rs1 as u64)
    }

    /// `t = CSRs[csr]; CSRs[csr] = t | zimm; x[rd] = t`
    pub open spec fn csrrsi(self, inst: Instruction) -> Result<CpuView, Error> {
        self.csr_op(inst, |t: u64| t | inst.rs1 as u64)
    }

    /// `t = CSRs[csr]; CSRs[csr] = t & ~zimm; x[rd] = t`
    pub open spec fn csrrci(self, inst: Instruction) -> Result<CpuView, Error> {
        self.csr_op(inst, |t: u64| t & !(inst.rs1 as u64))
    }

    /// `RaiseException(EnvironmentCall)`: the emulator has no handler for it.
    pub open spec fn ecall(self, inst: Instruction) -> Result<CpuView, Error> {
        Err(Error::Unimplemented)
    }

    /// `RaiseException(Breakpoint)`: the emulator has no handler for it.
    pub open spec fn ebreak(self, inst: Instruction) -> Result<CpuView, Error> {
        Err(Error::Unimplemented)
    }

    /// Return from a supervisor-mode handler: the mode comes from
    /// `sstatus.SPP`, `sstatus` is restored, and the hart goes to `sepc`.
    pub open spec fn sret(self, inst: Instruction) -> CpuView {
        let sstatus = self.reg.csr[SSTATUS];
        CpuView { mode: mode_of_spp(sstatus), ..self.write_csr(SSTATUS, sstatus_on_return(sstatus)) }.write_pc(
            self.reg.csr[SEPC],
        )
    }

    /// Return from a machine-mode handler: the mode comes from
    /// `mstatus.MPP`, `mstatus` is restored, and the hart goes to `mepc`.
    pub open spec fn mret(self, inst: Instruction) -> CpuView {
        let mstatus = self.reg.csr[MSTATUS];
        CpuView {
            mode: mode_of_mpp(mstatus, self.mode),
            ..self.write_csr(MSTATUS, mstatus_on_return(mstatus))
        }.write_pc(self.reg.csr[MEPC])
    }

    /// `while (noInterruptsPending) idle`: the hart does not wait.
    pub open spec fn wfi(self, inst: Instruction) -> CpuView {
        self
    }

    /// `Fence(Store, AddressTranslation)`: nothing is cached.
    pub open spec fn sfence_vma(self, inst: Instruction) -> CpuView {
        self
    }
}

impl Cpu {
    /// `t = CSRs[csr]; CSRs[csr] = x[rs1]; x[rd] = t`
    pub fn csrrw(&mut self, inst: &Instruction) -> (r: Result<(), Error>)
        requires
            inst.wf(),
        ensures
            refines(old(self)@, final(self)@, r, old(self)@.csrrw(*inst)),
    {
        let csr = inst.imm as u16;
        let t = match self.reg.get_csr(csr) {
            Ok(t) => t,
            Err(e) => {
                return Err(e);
            },
        };
        let v = self.reg.get_reg(inst.rs1);
        self.reg.write_csr(csr, v);
        self.reg.set_reg(inst.rd, t);
        Ok(())
    }

    /// `t = CSRs[csr]; CSRs[csr] = t | x[rs1]; x[rd] = t`
    pub fn csrrs(&mut self, inst: &Instruction) -> (r: Result<(), Error>)
        requires
            inst.wf(),
        ensures
            refines(old(self)@, final(self)@, r, old(self)@.csrrs(*inst)),
    {
        let csr = inst.imm as u16;
        let t = match self.reg.get_csr(csr) {
            Ok(t) => t,
            Err(e) => {
                return Err(e);
            },
        };
        let v = self.reg.get_reg(inst.rs1);
        self.reg.write_csr(csr, t | v);
        self.reg.set_reg(inst.rd, t);
        Ok(())
    }

    /// `t = CSRs[csr]; CSRs[csr] = t & ~x[rs1]; x[rd] = t`
    pub fn csrrc(&mut self, inst: &Instruction) -> (r: Result<(), Error>)
        requires
            inst.wf(),
        ensures
            refines(old(self)@, final(self)@, r, old(self)@.csrrc(*inst)),
    {
        let csr = inst.imm as u16;
        let t = match self.reg.get_csr(csr) {
            Ok(t) => t,
            Err(e) => {
                return Err(e);
            },
        };
        let v = self.reg.get_reg(inst.rs1);
        self.reg.write_csr(csr, t & !v);
        self.reg.set_reg(inst.rd, t);
        Ok(())
    }

    /// `x[rd] = CSRs[csr]; CSRs[csr] = zimm`
    pub fn csrrwi(&mut self, inst: &Instruction) -> (r: Result<(), Error>)
        requires
            inst.wf(),
        ensures
            refines(old(self)@, final(self)@, r, old(self)@.csrrwi(*inst)),
    {
        let csr = inst.imm as u16;
        let t = match self.reg.get_csr(csr) {
            Ok(t) => t,
            Err(e) => {
                return Err(e);
            },
        };
        let zimm = inst.rs1;
        self.reg.write_csr(csr, zimm as u64);
        self.reg.set_reg(inst.rd, t);
        Ok(())
    }

    /// `t = CSRs[csr]; CSRs[csr] = t | zimm; x[rd] = t`
    pub fn csrrsi(&mut self, inst: &Instruction) -> (r: Result<(), Error>)
        requires
            inst.wf(),
        ensures
            refines(old(self)@, final(self)@, r, old(self)@.csrrsi(*inst)),
    {
        let csr = inst.imm as u16;
        let t = match self.reg.get_csr(csr) {
            Ok(t) => t,
            Err(e) => {
                return Err(e);
            },
        };
        let zimm = inst.rs1;
        self.reg.write_csr(csr, t | zimm as u64);
        self.reg.set_reg(inst.rd, t);
        Ok(())
    }

    /// `t = CSRs[csr]; CSRs[csr] = t & ~zimm; x[rd] = t`
    pub fn csrrci(&mut self, inst: &Instruction) -> (r: Result<(), Error>)
        requires
            inst.wf(),
        ensures
            refines(old(self)@, final(self)@, r, old(self)@.csrrci(*inst)),
    {
        let csr = inst.imm as u16;
        let t = match self.reg.get_csr(csr) {
            Ok(t) => t,
            Err(e) => {
                return Err(e);
            },
        };
        let zimm = inst.rs1;
        self.reg.write_csr(csr, t & !(zimm as u64));
        self.reg.set_reg(inst.rd, t);
        Ok(())
    }

    /// `RaiseException(EnvironmentCall)`
    pub fn ecall(&mut self, inst: &Instruction) -> (r: Result<(), Error>)
        ensures
            refines(old(self)@, final(self)@, r, old(self)@.ecall(*inst)),
    {
        Err(Error::Unimplemented)
    }

    /// `RaiseException(Breakpoint)`
    pub fn ebreak(&mut self, inst: &Instruction) -> (r: Result<(), Error>)
        ensures
            refines(old(self)@, final(self)@, r, old(self)@.ebreak(*inst)),
    {
        Err(Error::Unimplemented)
    }

    /// `ExceptionReturn(Supervisor)`
    pub fn sret(&mut self, inst: &Instruction)
        ensures
            final(self)@ == old(self)@.sret(*inst),
    {
        let sstatus = self.reg.csr(SSTATUS);
        let sie = if sstatus & SSTATUS_SPIE != 0 {
            SSTATUS_SIE
        } else {
            0
        };
        self.reg.write_csr(SSTATUS, (sstatus & !(SSTATUS_SIE | SSTATUS_SPP)) | SSTATUS_SPIE | sie);
        let sepc = self.reg.csr(SEPC);
        self.reg.set_pc(sepc);
        if sstatus & SSTATUS_SPP != 0 {
            self.mode = Mode::S;
        } else {
            self.mode = Mode::U;
        }
    }

    /// `ExceptionReturn(Machine)`
    pub fn mret(&mut self, inst: &Instruction)
        ensures
            final(self)@ == old(self)@.mret(*inst),
    {
        let mstatus = self.reg.csr(MSTATUS);
        let pre_mpp = (mstatus & MSTATUS_MPP) >> 11;
        let mie = if mstatus & MSTATUS_MPIE != 0 {
            MSTATUS_MIE
        } else {
            0
        };
        self.reg.write_csr(MSTATUS, (mstatus & !(MSTATUS_MIE | MSTATUS_MPP | MSTATUS_MPRV)) | MSTATUS_MPIE | mie);
        let mepc = self.reg.csr(MEPC);
        self.reg.set_pc(mepc);
        match pre_mpp {
            0 => self.mode = Mode::U,
            1 => self.mode = Mode::S,
            3 => self.mode = Mode::M,
            _ => (),
        }
    }

    /// `while (noInterruptsPending) idle`
    pub fn wfi(&mut self, inst: &Instruction)
        ensures
            final(self)@ == old(self)@.wfi(*inst),
    {
    }

    /// `Fence(Store, AddressTranslation)`
    pub fn sfence_vma(&mut self, inst: &Instruction)
        ensures
            final(self)@ == old(self)@.sfence_vma(*inst),
    {
    }
}

/// A CSR read by `csrrs` with `x0` as the source changes no CSR, and leaves
/// the CSR's value in `x[rd]`.
pub proof fn lemma_csrrs_x0_reads(s: CpuView, inst: Instruction)
    requires
        s.reg.wf(),
        inst.wf(),
        inst.rs1 == 0,
        s.reg.get_csr(inst.imm as u16) is Ok,
    ensures
        s.csrrs(inst) == Ok::<CpuView, Error>(s.write_x(inst.rd, s.reg.csr[inst.imm as u16])),
        s.csrrs(inst).unwrap().reg.csr == s.reg.csr,
        inst.rd != 0 ==> s.csrrs(inst).unwrap().x(inst.rd) == s.reg.csr[inst.imm as u16],
{
    let t = s.reg.csr[inst.imm as u16];
    assert(t | 0 == t) by (bit_vector);
    assert(s.reg.csr.insert(inst.imm as u16, t) =~= s.reg.csr);
}

/// After `mret`, `mstatus.MIE` is what `mstatus.MPIE` was, `mstatus.MPIE` is
/// 1, `mstatus.MPP` names user mode, and the hart is at what `mepc` held.
pub proof fn lemma_mret(s: CpuView, inst: Instruction)
    ensures
        (s.mret(inst).reg.csr[MSTATUS] & MSTATUS_MIE != 0) == (s.reg.csr[MSTATUS] & MSTATUS_MPIE != 0),
        s.mret(inst).reg.csr[MSTATUS] & MSTATUS_MPIE != 0,
        s.mret(inst).reg.csr[MSTATUS] & MSTATUS_MPP == 0,
        s.mret(inst).reg.csr[MSTATUS] & MSTATUS_MPRV == 0,
        s.mret(inst).reg.pc == s.reg.csr[MEPC],
        s.mret(inst).mode == mode_of_mpp(s.reg.csr[MSTATUS], s.mode),
{
    let m = s.reg.csr[MSTATUS];
    assert({
        &&& (mstatus_on_return(m) & MSTATUS_MIE != 0) == (m & MSTATUS_MPIE != 0)
        &&& mstatus_on_return(m) & MSTATUS_MPIE != 0
        &&& mstatus_on_return(m) & MSTATUS_MPP == 0
        &&& mstatus_on_return(m) & MSTATUS_MPRV == 0
    }) by (bit_vector);
}

/// Each CSR or privileged instruction leaves the register file well formed: `x[0]`
/// stays 0, and no CSR comes or goes.
pub proof fn lemma_system_keeps_registers(s: CpuView, inst: Instruction)
    requires
        s.reg.wf(),
        inst.wf(),
    ensures
        s.ecall(inst) matches Ok(t) ==> t.reg.wf(),
        s.ebreak(inst) matches Ok(t) ==> t.reg.wf(),
        s.csrrw(inst) matches Ok(t) ==> t.reg.wf(),
        s.csrrs(inst) matches Ok(t) ==> t.reg.wf(),
        s.csrrc(inst) matches Ok(t) ==> t.reg.wf(),
        s.csrrwi(inst) matches Ok(t) ==> t.reg.wf(),
        s.csrrsi(inst) matches Ok(t) ==> t.reg.wf(),
        s.csrrci(inst) matches Ok(t) ==> t.reg.wf(),
        s.sret(inst).reg.wf(),
        s.mret(inst).reg.wf(),
        s.wfi(inst).reg.wf(),
        s.sfence_vma(inst).reg.wf(),
{
    assert forall|i: u16| s.write_csr(MSTATUS, mstatus_on_return(s.reg.csr[MSTATUS])).reg.csr.contains_key(i)
        <==> super::register::is_csr(i) by {}
    assert forall|i: u16| s.write_csr(SSTATUS, sstatus_on_return(s.reg.csr[SSTATUS])).reg.csr.contains_key(i)
        <==> super::register::is_csr(i) by {}
    if s.reg.get_csr(inst.imm as u16) is Ok {
        assert forall|v: u64, i: u16| #[trigger]
            s.write_csr(inst.imm as u16, v).reg.csr.contains_key(i) <==> super::register::is_csr(i) by {}
    }
}

/// Executing a CSR or privileged instruction leaves the register file well formed.
pub proof fn lemma_exec_system(s: CpuView, inst: Instruction)
    requires
        s.reg.wf(),
        inst.wf(),
        super::instructions::group_of(inst.name) == super::instructions::InstGroup::System,
        s.exec(inst) is Ok,
    ensures
        s.exec(inst).unwrap().reg.wf(),
{
    lemma_system_keeps_registers(s, inst);
    match inst.name {
        super::instructions::InstName::Ecall => {
            assert(s.exec(inst) == s.ecall(inst));
        },
        super::instructions::InstName::Ebreak => {
            assert(s.exec(inst) == s.ebreak(inst));
        },
        super::instructions::InstName::Csrrw => {
            assert(s.exec(inst) == s.csrrw(inst));
        },
        super::instructions::InstName::Csrrs => {
            assert(s.exec(inst) == s.csrrs(inst));
        },
        super::instructions::InstName::Csrrc => {
            assert(s.exec(inst) == s.csrrc(inst));
        },
        super::instructions::InstName::Csrrwi => {
            assert(s.exec(inst) == s.csrrwi(inst));
        },
        super::instructions::InstName::Csrrsi => {
            assert(s.exec(inst) == s.csrrsi(inst));
        },
        super::instructions::InstName::Csrrci => {
            assert(s.exec(inst) == s.csrrci(inst));
        },
        super::instructions::InstName::Sret => {
            assert(s.exec(inst) == Ok::<CpuView, crate::error::Error>(s.sret(inst)));
        },
        super::instructions::InstName::Mret => {
            assert(s.exec(inst) == Ok::<CpuView, crate::error::Error>(s.mret(inst)));
        },
        super::instructions::InstName::Wfi => {
            assert(s.exec(inst) == Ok::<CpuView, crate::error::Error>(s.wfi(inst)));
        },
        super::instructions::InstName::SfenceVma => {
            assert(s.exec(inst) == Ok::<CpuView, crate::error::Error>(s.sfence_vma(inst)));
        },
        _ => {},
    }
}

} // verus!
