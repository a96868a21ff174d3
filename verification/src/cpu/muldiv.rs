//! The multiply and divide instructions.
use vstd::prelude::*;
use super::arith::{
    self, div_spec, divu_spec, divuw_spec, divw_spec, mulh_spec, mulhsu_spec, mulhu_spec, rem_spec, remu_spec,
    remuw_spec, remw_spec, sext32,
};
use super::instructions::Instruction;
use super::{Cpu, CpuView};

verus! {

impl CpuView {
    /// `x[rd] = x[rs1] * x[rs2]`
    pub open spec fn mul(self, inst: Instruction) -> CpuView {
        self.write_x(inst.rd, self.x(inst.rs1).wrapping_mul(self.x(inst.rs2)))
    }

    /// `x[rd] = (x[rs1] s*s x[rs2]) >>s XLEN`
    pub open spec fn mulh(self, inst: Instruction) -> CpuView {
        self.write_x(inst.rd, mulh_spec(self.x(inst.rs1), self.x(inst.rs2)))
    }

    /// `x[rd] = (x[rs1] s*u x[rs2]) >>s XLEN`
    pub open spec fn mulhsu(self, inst: Instruction) -> CpuView {
        self.write_x(inst.rd, mulhsu_spec(self.x(inst.rs1), self.x(inst.rs2)))
    }

    /// `x[rd] = (x[rs1] u*u x[rs2]) >>u XLEN`
    pub open spec fn mulhu(self, inst: Instruction) -> CpuView {
        self.write_x(inst.rd, mulhu_spec(self.x(inst.rs1), self.x(inst.rs2)))
    }

    /// `x[rd] = x[rs1] /s x[rs2]`
    pub open spec fn div(self, inst: Instruction) -> CpuView {
        self.write_x(inst.rd, div_spec(self.x(inst.rs1), self.x(inst.rs2)))
    }

    /// `x[rd] = x[rs1] /u x[rs2]`
    pub open spec fn divu(self, inst: Instruction) -> CpuView {
        self.write_x(inst.rd, divu_spec(self.x(inst.rs1), self.x(inst.rs2)))
    }

    /// `x[rd] = x[rs1] %s x[rs2]`
    pub open spec fn rem(self, inst: Instruction) -> CpuView {
        self.write_x(inst.rd, rem_spec(self.x(inst.rs1), self.x(inst.rs2)))
    }

    /// `x[rd] = x[rs1] %u x[rs2]`
    pub open spec fn remu(self, inst: Instruction) -> CpuView {
        self.write_x(inst.rd, remu_spec(self.x(inst.rs1), self.x(inst.rs2)))
    }

    /// `x[rd] = sext((x[rs1] * x[rs2])[31:0])`
    pub open spec fn mulw(self, inst: Instruction) -> CpuView {
        self.write_x(inst.rd, sext32(self.x(inst.rs1).wrapping_mul(self.x(inst.rs2))))
    }

    /// `x[rd] = sext(x[rs1][31:0] /s x[rs2][31:0])`
    pub open spec fn divw(self, inst: Instruction) -> CpuView {
        self.write_x(inst.rd, divw_spec(self.x(inst.rs1), self.x(inst.rs2)))
    }

    /// `x[rd] = sext(x[rs1][31:0] /u x[rs2][31:0])`
    pub open spec fn divuw(self, inst: Instruction) -> CpuView {
        self.write_x(inst.rd, divuw_spec(self.x(inst.rs1), self.x(inst.rs2)))
    }

    /// `x[rd] = sext(x[rs1][31:0] %s x[rs2][31:0])`
    pub open spec fn remw(self, inst: Instruction) -> CpuView {
        self.write_x(inst.rd, remw_spec(self.x(inst.rs1), self.x(inst.rs2)))
    }

    /// `x[rd] = sext(x[rs1][31:0] %u x[rs2][31:0])`
    pub open spec fn remuw(self, inst: Instruction) -> CpuView {
        self.write_x(inst.rd, remuw_spec(self.x(inst.rs1), self.x(inst.rs2)))
    }
}

impl Cpu {
    /// `x[rd] = x[rs1] * x[rs2]`
    pub fn mul(&mut self, inst: &Instruction)
        requires
            inst.wf(),
        ensures
            final(self)@ == old(self)@.mul(*inst),
    {
        let a = self.reg.get_reg(inst.rs1);
        let b = self.reg.get_reg(inst.rs2);
        let v = a.wrapping_mul(b);
        self.reg.set_reg(inst.rd, v);
    }

    /// `x[rd] = (x[rs1] s*s x[rs2]) >>s XLEN`
    pub fn mulh(&mut self, inst: &Instruction)
        requires
            inst.wf(),
        ensures
            final(self)@ == old(self)@.mulh(*inst),
    {
        let a = self.reg.get_reg(inst.rs1);
        let b = self.reg.get_reg(inst.rs2);
        let v = arith::mulh(a, b);
        self.reg.set_reg(inst.rd, v);
    }

    /// `x[rd] = (x[rs1] s*u x[rs2]) >>s XLEN`
    pub fn mulhsu(&mut self, inst: &Instruction)
        requires
            inst.wf(),
        ensures
            final(self)@ == old(self)@.mulhsu(*inst),
    {
        let a = self.reg.get_reg(inst.rs1);
        let b = self.reg.get_reg(inst.rs2);
        let v = arith::mulhsu(a, b);
        self.reg.set_reg(inst.rd, v);
    }

    /// `x[rd] = (x[rs1] u*u x[rs2]) >>u XLEN`
    pub fn mulhu(&mut self, inst: &Instruction)
        requires
            inst.wf(),
        ensures
            final(self)@ == old(self)@.mulhu(*inst),
    {
        let a = self.reg.get_reg(inst.rs1);
        let b = self.reg.get_reg(inst.rs2);
        let v = arith::mulhu(a, b);
        self.reg.set_reg(inst.rd, v);
    }

    /// `x[rd] = x[rs1] /s x[rs2]`
    pub fn div(&mut self, inst: &Instruction)
        requires
            inst.wf(),
        ensures
            final(self)@ == old(self)@.div(*inst),
    {
        let a = self.reg.get_reg(inst.rs1);
        let b = self.reg.get_reg(inst.rs2);
        let v = arith::div(a, b);
        self.reg.set_reg(inst.rd, v);
    }

    /// `x[rd] = x[rs1] /u x[rs2]`
    pub fn divu(&mut self, inst: &Instruction)
        requires
            inst.wf(),
        ensures
            final(self)@ == old(self)@.divu(*inst),
    {
        let a = self.reg.get_reg(inst.rs1);
        let b = self.reg.get_reg(inst.rs2);
        let v = arith::divu(a, b);
        self.reg.set_reg(inst.rd, v);
    }

    /// `x[rd] = x[rs1] %s x[rs2]`
    pub fn rem(&mut self, inst: &Instruction)
        requires
            inst.wf(),
        ensures
            final(self)@ == old(self)@.rem(*inst),
    {
        let a = self.reg.get_reg(inst.rs1);
        let b = self.reg.get_reg(inst.rs2);
        let v = arith::rem(a, b);
        self.reg.set_reg(inst.rd, v);
    }

    /// `x[rd] = x[rs1] %u x[rs2]`
    pub fn remu(&mut self, inst: &Instruction)
        requires
            inst.wf(),
        ensures
            final(self)@ == old(self)@.remu(*inst),
    {
        let a = self.reg.get_reg(inst.rs1);
        let b = self.reg.get_reg(inst.rs2);
        let v = arith::remu(a, b);
        self.reg.set_reg(inst.rd, v);
    }

    /// `x[rd] = sext((x[rs1] * x[rs2])[31:0])`
    pub fn mulw(&mut self, inst: &Instruction)
        requires
            inst.wf(),
        ensures
            final(self)@ == old(self)@.mulw(*inst),
    {
        let a = self.reg.get_reg(inst.rs1);
        let b = self.reg.get_reg(inst.rs2);
        let v = arith::sext_word(a.wrapping_mul(b));
        self.reg.set_reg(inst.rd, v);
    }

    /// `x[rd] = sext(x[rs1][31:0] /s x[rs2][31:0])`
    pub fn divw(&mut self, inst: &Instruction)
        requires
            inst.wf(),
        ensures
            final(self)@ == old(self)@.divw(*inst),
    {
        let a = self.reg.get_reg(inst.rs1);
        let b = self.reg.get_reg(inst.rs2);
        let v = arith::divw(a, b);
        self.reg.set_reg(inst.rd, v);
    }

    /// `x[rd] = sext(x[rs1][31:0] /u x[rs2][31:0])`
    pub fn divuw(&mut self, inst: &Instruction)
        requires
            inst.wf(),
        ensures
            final(self)@ == old(self)@.divuw(*inst),
    {
        let a = self.reg.get_reg(inst.rs1);
        let b = self.reg.get_reg(inst.rs2);
        let v = arith::divuw(a, b);
        self.reg.set_reg(inst.rd, v);
    }

    /// `x[rd] = sext(x[rs1][31:0] %s x[rs2][31:0])`
    pub fn remw(&mut self, inst: &Instruction)
        requires
            inst.wf(),
        ensures
            final(self)@ == old(self)@.remw(*inst),
    {
        let a = self.reg.get_reg(inst.rs1);
        let b = self.reg.get_reg(inst.rs2);
        let v = arith::remw(a, b);
        self.reg.set_reg(inst.rd, v);
    }

    /// `x[rd] = sext(x[rs1][31:0] %u x[rs2][31:0])`
    pub fn remuw(&mut self, inst: &Instruction)
        requires
            inst.wf(),
        ensures
            final(self)@ == old(self)@.remuw(*inst),
    {
        let a = self.reg.get_reg(inst.rs1);
        let b = self.reg.get_reg(inst.rs2);
        let v = arith::remuw(a, b);
        self.reg.set_reg(inst.rd, v);
    }
}

/// Word multiplication and division leave a sign-extended word in
/// `x[rd]`: bits 63 to 32 equal bit 31.
pub proof fn lemma_word_muldiv(s: CpuView, inst: Instruction)
    requires
        s.reg.wf(),
        inst.wf(),
        inst.rd != 0,
    ensures
        arith::is_sext32(s.mulw(inst).x(inst.rd)),
        arith::is_sext32(s.divw(inst).x(inst.rd)),
        arith::is_sext32(s.divuw(inst).x(inst.rd)),
        arith::is_sext32(s.remw(inst).x(inst.rd)),
        arith::is_sext32(s.remuw(inst).x(inst.rd)),
{
    let a = s.x(inst.rs1);
    let b = s.x(inst.rs2);
    arith::lemma_word_results(a, b);
    arith::lemma_sext32(a.wrapping_mul(b));
}

/// Each multiply or divide instruction leaves the register file well formed: `x[0]`
/// stays 0, and no CSR comes or goes.
pub proof fn lemma_muldiv_keeps_registers(s: CpuView, inst: Instruction)
    requires
        s.reg.wf(),
        inst.wf(),
    ensures
        s.mul(inst).reg.wf(),
        s.mulh(inst).reg.wf(),
        s.mulhsu(inst).reg.wf(),
        s.mulhu(inst).reg.wf(),
        s.div(inst).reg.wf(),
        s.divu(inst).reg.wf(),
        s.rem(inst).reg.wf(),
        s.remu(inst).reg.wf(),
        s.mulw(inst).reg.wf(),
        s.divw(inst).reg.wf(),
        s.divuw(inst).reg.wf(),
        s.remw(inst).reg.wf(),
        s.remuw(inst).reg.wf(),
{
}

/// Executing a multiply or divide instruction leaves the register file well formed.
pub proof fn lemma_exec_muldiv(s: CpuView, inst: Instruction)
    requires
        s.reg.wf(),
        inst.wf(),
        super::instructions::group_of(inst.name) == super::instructions::InstGroup::MulDiv,
        s.exec(inst) is Ok,
    ensures
        s.exec(inst).unwrap().reg.wf(),
{
    lemma_muldiv_keeps_registers(s, inst);
    match inst.name {
        super::instructions::InstName::Mul => {
            assert(s.exec(inst) == Ok::<CpuView, crate::error::Error>(s.mul(inst)));
        },
        super::instructions::InstName::Mulh => {
            assert(s.exec(inst) == Ok::<CpuView, crate::error::Error>(s.mulh(inst)));
        },
        super::instructions::InstName::Mulhsu => {
            assert(s.exec(inst) == Ok::<CpuView, crate::error::Error>(s.mulhsu(inst)));
        },
        super::instructions::InstName::Mulhu => {
            assert(s.exec(inst) == Ok::<CpuView, crate::error::Error>(s.mulhu(inst)));
        },
        super::instructions::InstName::Div => {
            assert(s.exec(inst) == Ok::<CpuView, crate::error::Error>(s.div(inst)));
        },
        super::instructions::InstName::Divu => {
            assert(s.exec(inst) == Ok::<CpuView, crate::error::Error>(s.divu(inst)));
        },
        super::instructions::InstName::Rem => {
            assert(s.exec(inst) == Ok::<CpuView, crate::error::Error>(s.rem(inst)));
        },
        super::instructions::InstName::Remu => {
            assert(s.exec(inst) == Ok::<CpuView, crate::error::Error>(s.remu(inst)));
        },
        super::instructions::InstName::Mulw => {
            assert(s.exec(inst) == Ok::<CpuView, crate::error::Error>(s.mulw(inst)));
        },
        super::instructions::InstName::Divw => {
            assert(s.exec(inst) == Ok::<CpuView, crate::error::Error>(s.divw(inst)));
        },
        super::instructions::InstName::Divuw => {
            assert(s.exec(inst) == Ok::<CpuView, crate::error::Error>(s.divuw(inst)));
        },
        super::instructions::InstName::Remw => {
            assert(s.exec(inst) == Ok::<CpuView, crate::error::Error>(s.remw(inst)));
        },
        super::instructions::InstName::Remuw => {
            assert(s.exec(inst) == Ok::<CpuView, crate::error::Error>(s.remuw(inst)));
        },
        _ => {},
    }
}

} // verus!
