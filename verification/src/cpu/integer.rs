//! The base integer instructions of RV64I.
use vstd::prelude::*;
use crate::error::{refines, Error};
use super::arith::{self, flag, sext, sext32, sext_spec, signed64, slt_spec, sra_spec};
use super::instructions::Instruction;
use crate::bus::Width;
use super::{Cpu, CpuView};

verus! {

impl CpuView {
    /// `x[rd] = sext(immediate[31:12] << 12)`
    pub open spec fn lui(self, inst: Instruction) -> CpuView {
        self.write_x(inst.rd, sext32((inst.imm as u64) << 12))
    }

    /// `x[rd] = pc + sext(immediate[31:12] << 12)`
    pub open spec fn auipc(self, inst: Instruction) -> CpuView {
        self.write_x(inst.rd, self.reg.pc.wrapping_add(sext32((inst.imm as u64) << 12)))
    }

    /// `x[rd] = pc + 4; pc += sext(offset)`
    pub open spec fn jal(self, inst: Instruction) -> CpuView {
        self.write_x(inst.rd, self.reg.pc.wrapping_add(4)).write_pc(
            self.reg.pc.wrapping_add(sext_spec(inst.imm as u64, 0x10_0000)),
        )
    }

    /// `t = pc + 4; pc = (x[rs1] + sext(offset)) & ~1; x[rd] = t`
    pub open spec fn jalr(self, inst: Instruction) -> CpuView {
        self.write_pc(
            self.x(inst.rs1).wrapping_add(sext_spec(inst.imm as u64, 0x800)) & 0xFFFF_FFFF_FFFF_FFFE,
        ).write_x(inst.rd, self.reg.pc.wrapping_add(4))
    }

    /// A conditional branch: where it is taken, `pc += sext(offset)`.
    pub open spec fn branch(self, inst: Instruction, taken: bool) -> CpuView {
        if taken {
            self.write_pc(self.reg.pc.wrapping_add(sext_spec(inst.imm as u64, 0x1000)))
        } else {
            self
        }
    }

    /// `if (x[rs1] == x[rs2]) pc += sext(offset)`
    pub open spec fn beq(self, inst: Instruction) -> CpuView {
        self.branch(inst, self.x(inst.rs1) == self.x(inst.rs2))
    }

    /// `if (x[rs1] != x[rs2]) pc += sext(offset)`
    pub open spec fn bne(self, inst: Instruction) -> CpuView {
        self.branch(inst, self.x(inst.rs1) != self.x(inst.rs2))
    }

    /// `if (x[rs1] <s x[rs2]) pc += sext(offset)`
    pub open spec fn blt(self, inst: Instruction) -> CpuView {
        self.branch(inst, signed64(self.x(inst.rs1)) < signed64(self.x(inst.rs2)))
    }

    /// `if (x[rs1] >=s x[rs2]) pc += sext(offset)`
    pub open spec fn bge(self, inst: Instruction) -> CpuView {
        self.branch(inst, signed64(self.x(inst.rs1)) >= signed64(self.x(inst.rs2)))
    }

    /// `if (x[rs1] <u x[rs2]) pc += sext(offset)`
    pub open spec fn bltu(self, inst: Instruction) -> CpuView {
        self.branch(inst, self.x(inst.rs1) < self.x(inst.rs2))
    }

    /// `if (x[rs1] >=u x[rs2]) pc += sext(offset)`
    pub open spec fn bgeu(self, inst: Instruction) -> CpuView {
        self.branch(inst, self.x(inst.rs1) >= self.x(inst.rs2))
    }

    /// A load: `x[rd] = M[x[rs1] + sext(offset)]`, of the given width,
    /// sign-extended from `sign_bit`, or zero-extended where that is 0.
    pub open spec fn load_ext(self, inst: Instruction, width: Width, sign_bit: u64) -> Result<CpuView, Error> {
        match self.load(self.x(inst.rs1).wrapping_add(sext_spec(inst.imm as u64, 0x800)), width) {
            Ok(v) => Ok(self.write_x(inst.rd, sext_spec(v, sign_bit))),
            Err(e) => Err(e),
        }
    }

    /// A store: `M[x[rs1] + sext(offset)] = x[rs2]`, cut to the given width.
    pub open spec fn store_reg(self, inst: Instruction, width: Width) -> Result<CpuView, Error> {
        self.store(self.x(inst.rs1).wrapping_add(sext_spec(inst.imm as u64, 0x800)), width, self.x(inst.rs2))
    }

    /// `x[rd] = sext(M[x[rs1] + sext(offset)][7:0])`
    pub open spec fn lb(self, inst: Instruction) -> Result<CpuView, Error> {
        self.load_ext(inst, Width::B, 0x80)
    }

    /// `x[rd] = sext(M[x[rs1] + sext(offset)][15:0])`
    pub open spec fn lh(self, inst: Instruction) -> Result<CpuView, Error> {
        self.load_ext(inst, Width::H, 0x8000)
    }

    /// `x[rd] = sext(M[x[rs1] + sext(offset)][31:0])`
    pub open spec fn lw(self, inst: Instruction) -> Result<CpuView, Error> {
        self.load_ext(inst, Width::W, 0x8000_0000)
    }

    /// `x[rd] = M[x[rs1] + sext(offset)][7:0]`
    pub open spec fn lbu(self, inst: Instruction) -> Result<CpuView, Error> {
        self.load_ext(inst, Width::B, 0)
    }

    /// `x[rd] = M[x[rs1] + sext(offset)][15:0]`
    pub open spec fn lhu(self, inst: Instruction) -> Result<CpuView, Error> {
        self.load_ext(inst, Width::H, 0)
    }

    /// `x[rd] = M[x[rs1] + sext(offset)][31:0]`
    pub open spec fn lwu(self, inst: Instruction) -> Result<CpuView, Error> {
        self.load_ext(inst, Width::W, 0)
    }

    /// `x[rd] = M[x[rs1] + sext(offset)][63:0]`
    pub open spec fn ld(self, inst: Instruction) -> Result<CpuView, Error> {
        self.load_ext(inst, Width::D, 0)
    }

    /// `M[x[rs1] + sext(offset)] = x[rs2][7:0]`
    pub open spec fn sb(self, inst: Instruction) -> Result<CpuView, Error> {
        self.store_reg(inst, Width::B)
    }

    /// `M[x[rs1] + sext(offset)] = x[rs2][15:0]`
    pub open spec fn sh(self, inst: Instruction) -> Result<CpuView, Error> {
        self.store_reg(inst, Width::H)
    }

    /// `M[x[rs1] + sext(offset)] = x[rs2][31:0]`
    pub open spec fn sw(self, inst: Instruction) -> Result<CpuView, Error> {
        self.store_reg(inst, Width::W)
    }

    /// `M[x[rs1] + sext(offset)] = x[rs2][63:0]`
    pub open spec fn sd(self, inst: Instruction) -> Result<CpuView, Error> {
        self.store_reg(inst, Width::D)
    }

    /// `x[rd] = x[rs1] + sext(immediate)`
    pub open spec fn addi(self, inst: Instruction) -> CpuView {
        self.write_x(inst.rd, self.x(inst.rs1).wrapping_add(sext_spec(inst.imm as u64, 0x800)))
    }

    /// `x[rd] = x[rs1] <s sext(immediate)`
    pub open spec fn slti(self, inst: Instruction) -> CpuView {
        self.write_x(inst.rd, slt_spec(self.x(inst.rs1), sext_spec(inst.imm as u64, 0x800)))
    }

    /// `x[rd] = x[rs1] <u sext(immediate)`
    pub open spec fn sltiu(self, inst: Instruction) -> CpuView {
        self.write_x(inst.rd, flag(self.x(inst.rs1) < sext_spec(inst.imm as u64, 0x800)))
    }

    /// `x[rd] = x[rs1] ^ sext(immediate)`
    pub open spec fn xori(self, inst: Instruction) -> CpuView {
        self.write_x(inst.rd, self.x(inst.rs1) ^ sext_spec(inst.imm as u64, 0x800))
    }

    /// `x[rd] = x[rs1] | sext(immediate)`
    pub open spec fn ori(self, inst: Instruction) -> CpuView {
        self.write_x(inst.rd, self.x(inst.rs1) | sext_spec(inst.imm as u64, 0x800))
    }

    /// `x[rd] = x[rs1] & sext(immediate)`
    pub open spec fn andi(self, inst: Instruction) -> CpuView {
        self.write_x(inst.rd, self.x(inst.rs1) & sext_spec(inst.imm as u64, 0x800))
    }

    /// `x[rd] = x[rs1] << shamt`
    pub open spec fn slli(self, inst: Instruction) -> CpuView {
        self.write_x(inst.rd, self.x(inst.rs1) << ((inst.imm as u64) & 0x3F))
    }

    /// `x[rd] = x[rs1] >>u shamt`
    pub open spec fn srli(self, inst: Instruction) -> CpuView {
        self.write_x(inst.rd, self.x(inst.rs1) >> ((inst.imm as u64) & 0x3F))
    }

    /// `x[rd] = x[rs1] >>s shamt`
    pub open spec fn srai(self, inst: Instruction) -> CpuView {
        self.write_x(inst.rd, sra_spec(self.x(inst.rs1), (inst.imm as u64) & 0x3F))
    }

    /// `x[rd] = x[rs1] + x[rs2]`
    pub open spec fn add(self, inst: Instruction) -> CpuView {
        self.write_x(inst.rd, self.x(inst.rs1).wrapping_add(self.x(inst.rs2)))
    }

    /// `x[rd] = x[rs1] - x[rs2]`
    pub open spec fn sub(self, inst: Instruction) -> CpuView {
        self.write_x(inst.rd, self.x(inst.rs1).wrapping_sub(self.x(inst.rs2)))
    }

    /// `x[rd] = x[rs1] << x[rs2], by the low six bits`
    pub open spec fn sll(self, inst: Instruction) -> CpuView {
        self.write_x(inst.rd, self.x(inst.rs1) << (self.x(inst.rs2) & 0x3F))
    }

    /// `x[rd] = x[rs1] <s x[rs2]`
    pub open spec fn slt(self, inst: Instruction) -> CpuView {
        self.write_x(inst.rd, slt_spec(self.x(inst.rs1), self.x(inst.rs2)))
    }

    /// `x[rd] = x[rs1] <u x[rs2]`
    pub open spec fn sltu(self, inst: Instruction) -> CpuView {
        self.write_x(inst.rd, flag(self.x(inst.rs1) < self.x(inst.rs2)))
    }

    /// `x[rd] = x[rs1] ^ x[rs2]`
    pub open spec fn xor(self, inst: Instruction) -> CpuView {
        self.write_x(inst.rd, self.x(inst.rs1) ^ self.x(inst.rs2))
    }

    /// `x[rd] = x[rs1] >>u x[rs2], by the low six bits`
    pub open spec fn srl(self, inst: Instruction) -> CpuView {
        self.write_x(inst.rd, self.x(inst.rs1) >> (self.x(inst.rs2) & 0x3F))
    }

    /// `x[rd] = x[rs1] >>s x[rs2], by the low six bits`
    pub open spec fn sra(self, inst: Instruction) -> CpuView {
        self.write_x(inst.rd, sra_spec(self.x(inst.rs1), self.x(inst.rs2) & 0x3F))
    }

    /// `x[rd] = x[rs1] | x[rs2]`
    pub open spec fn or(self, inst: Instruction) -> CpuView {
        self.write_x(inst.rd, self.x(inst.rs1) | self.x(inst.rs2))
    }

    /// `x[rd] = x[rs1] & x[rs2]`
    pub open spec fn and(self, inst: Instruction) -> CpuView {
        self.write_x(inst.rd, self.x(inst.rs1) & self.x(inst.rs2))
    }

    /// `Fence(pred, succ)`: memory is sequentially consistent as it is.
    pub open spec fn fence(self, inst: Instruction) -> CpuView {
        self
    }

    /// `Fence(Store, Fetch)`: nothing to do.
    pub open spec fn fence_i(self, inst: Instruction) -> CpuView {
        self
    }

    /// `x[rd] = sext((x[rs1] + sext(immediate))[31:0])`
    pub open spec fn addiw(self, inst: Instruction) -> CpuView {
        self.write_x(inst.rd, sext32(self.x(inst.rs1).wrapping_add(sext_spec(inst.imm as u64, 0x800))))
    }

    /// `x[rd] = sext((x[rs1] << shamt)[31:0])`
    pub open spec fn slliw(self, inst: Instruction) -> CpuView {
        self.write_x(inst.rd, sext32(self.x(inst.rs1) << ((inst.imm as u64) & 0x1F)))
    }

    /// `x[rd] = sext(x[rs1][31:0] >>u shamt)`
    pub open spec fn srliw(self, inst: Instruction) -> CpuView {
        self.write_x(inst.rd, sext32((self.x(inst.rs1) & 0xFFFF_FFFF) >> ((inst.imm as u64) & 0x1F)))
    }

    /// `x[rd] = sext(x[rs1][31:0] >>s shamt)`
    pub open spec fn sraiw(self, inst: Instruction) -> CpuView {
        self.write_x(inst.rd, sra_spec(sext32(self.x(inst.rs1)), (inst.imm as u64) & 0x1F))
    }

    /// `x[rd] = sext((x[rs1] + x[rs2])[31:0])`
    pub open spec fn addw(self, inst: Instruction) -> CpuView {
        self.write_x(inst.rd, sext32(self.x(inst.rs1).wrapping_add(self.x(inst.rs2))))
    }

    /// `x[rd] = sext((x[rs1] - x[rs2])[31:0])`
    pub open spec fn subw(self, inst: Instruction) -> CpuView {
        self.write_x(inst.rd, sext32(self.x(inst.rs1).wrapping_sub(self.x(inst.rs2))))
    }

    /// `x[rd] = sext((x[rs1] << x[rs2][4:0])[31:0])`
    pub open spec fn sllw(self, inst: Instruction) -> CpuView {
        self.write_x(inst.rd, sext32(self.x(inst.rs1) << (self.x(inst.rs2) & 0x1F)))
    }

    /// `x[rd] = sext(x[rs1][31:0] >>u x[rs2][4:0])`
    pub open spec fn srlw(self, inst: Instruction) -> CpuView {
        self.write_x(inst.rd, sext32((self.x(inst.rs1) & 0xFFFF_FFFF) >> (self.x(inst.rs2) & 0x1F)))
    }

    /// `x[rd] = sext(x[rs1][31:0] >>s x[rs2][4:0])`
    pub open spec fn sraw(self, inst: Instruction) -> CpuView {
        self.write_x(inst.rd, sra_spec(sext32(self.x(inst.rs1)), self.x(inst.rs2) & 0x1F))
    }
}

impl Cpu {
    /// `x[rd] = sext(immediate[31:12] << 12)`
    pub fn lui(&mut self, inst: &Instruction)
        requires
            inst.wf(),
        ensures
            final(self)@ == old(self)@.lui(*inst),
    {
        let v = arith::sext_word((inst.imm as u64) << 12);
        self.reg.set_reg(inst.rd, v);
    }

    /// `x[rd] = pc + sext(immediate[31:12] << 12)`
    pub fn auipc(&mut self, inst: &Instruction)
        requires
            inst.wf(),
        ensures
            final(self)@ == old(self)@.auipc(*inst),
    {
        let v = self.reg.pc.wrapping_add(arith::sext_word((inst.imm as u64) << 12));
        self.reg.set_reg(inst.rd, v);
    }

    /// `x[rd] = pc + 4; pc += sext(offset)`
    pub fn jal(&mut self, inst: &Instruction)
        requires
            inst.wf(),
        ensures
            final(self)@ == old(self)@.jal(*inst),
    {
        let imm = sext(inst.imm as u64, 0x10_0000);
        let pc = self.reg.pc;
        self.reg.set_reg(inst.rd, pc.wrapping_add(4));
        self.reg.set_pc(pc.wrapping_add(imm));
    }

    /// `t = pc + 4; pc = (x[rs1] + sext(offset)) & ~1; x[rd] = t`
    pub fn jalr(&mut self, inst: &Instruction)
        requires
            inst.wf(),
        ensures
            final(self)@ == old(self)@.jalr(*inst),
    {
        let t = self.reg.pc.wrapping_add(4);
        let imm = sext(inst.imm as u64, 0x800);
        let v = self.reg.get_reg(inst.rs1).wrapping_add(imm);
        self.reg.set_pc(v & 0xFFFF_FFFF_FFFF_FFFE);
        self.reg.set_reg(inst.rd, t);
    }

    /// Takes a conditional branch, or does not.
    fn branch(&mut self, inst: &Instruction, taken: bool)
        ensures
            final(self)@ == old(self)@.branch(*inst, taken),
    {
        if taken {
            let imm = sext(inst.imm as u64, 0x1000);
            let pc = self.reg.pc;
            self.reg.set_pc(pc.wrapping_add(imm));
        }
    }

    /// `if (x[rs1] == x[rs2]) pc += sext(offset)`
    pub fn beq(&mut self, inst: &Instruction)
        requires
            inst.wf(),
        ensures
            final(self)@ == old(self)@.beq(*inst),
    {
        let a = self.reg.get_reg(inst.rs1);
        let b = self.reg.get_reg(inst.rs2);
        self.branch(inst, a == b);
    }

    /// `if (x[rs1] != x[rs2]) pc += sext(offset)`
    pub fn bne(&mut self, inst: &Instruction)
        requires
            inst.wf(),
        ensures
            final(self)@ == old(self)@.bne(*inst),
    {
        let a = self.reg.get_reg(inst.rs1);
        let b = self.reg.get_reg(inst.rs2);
        self.branch(inst, a != b);
    }

    /// `if (x[rs1] <s x[rs2]) pc += sext(offset)`
    pub fn blt(&mut self, inst: &Instruction)
        requires
            inst.wf(),
        ensures
            final(self)@ == old(self)@.blt(*inst),
    {
        let a = self.reg.get_reg(inst.rs1);
        let b = self.reg.get_reg(inst.rs2);
        self.branch(inst, arith::to_signed(a) < arith::to_signed(b));
    }

    /// `if (x[rs1] >=s x[rs2]) pc += sext(offset)`
    pub fn bge(&mut self, inst: &Instruction)
        requires
            inst.wf(),
        ensures
            final(self)@ == old(self)@.bge(*inst),
    {
        let a = self.reg.get_reg(inst.rs1);
        let b = self.reg.get_reg(inst.rs2);
        self.branch(inst, arith::to_signed(a) >= arith::to_signed(b));
    }

    /// `if (x[rs1] <u x[rs2]) pc += sext(offset)`
    pub fn bltu(&mut self, inst: &Instruction)
        requires
            inst.wf(),
        ensures
            final(self)@ == old(self)@.bltu(*inst),
    {
        let a = self.reg.get_reg(inst.rs1);
        let b = self.reg.get_reg(inst.rs2);
        self.branch(inst, a < b);
    }

    /// `if (x[rs1] >=u x[rs2]) pc += sext(offset)`
    pub fn bgeu(&mut self, inst: &Instruction)
        requires
            inst.wf(),
        ensures
            final(self)@ == old(self)@.bgeu(*inst),
    {
        let a = self.reg.get_reg(inst.rs1);
        let b = self.reg.get_reg(inst.rs2);
        self.branch(inst, a >= b);
    }

    /// Loads into `x[rd]` from `x[rs1] + sext(offset)`.
    fn load_ext(&mut self, inst: &Instruction, width: Width, sign_bit: u64) -> (r: Result<(), Error>)
        requires
            old(self).wf(),
            inst.wf(),
        ensures
            final(self).wf(),
            refines(old(self)@, final(self)@, r, old(self)@.load_ext(*inst, width, sign_bit)),
    {
        let addr = self.reg.get_reg(inst.rs1).wrapping_add(sext(inst.imm as u64, 0x800));
        match self.load(addr, width) {
            Ok(v) => {
                self.reg.set_reg(inst.rd, sext(v, sign_bit));
                Ok(())
            },
            Err(e) => Err(e),
        }
    }

    /// Stores `x[rs2]` at `x[rs1] + sext(offset)`.
    fn store_reg(&mut self, inst: &Instruction, width: Width) -> (r: Result<(), Error>)
        requires
            old(self).wf(),
            inst.wf(),
        ensures
            final(self).wf(),
            refines(old(self)@, final(self)@, r, old(self)@.store_reg(*inst, width)),
    {
        let addr = self.reg.get_reg(inst.rs1).wrapping_add(sext(inst.imm as u64, 0x800));
        let v = self.reg.get_reg(inst.rs2);
        self.store(addr, width, v)
    }

    /// `x[rd] = sext(M[x[rs1] + sext(offset)][7:0])`
    pub fn lb(&mut self, inst: &Instruction) -> (r: Result<(), Error>)
        requires
            old(self).wf(),
            inst.wf(),
        ensures
            final(self).wf(),
            refines(old(self)@, final(self)@, r, old(self)@.lb(*inst)),
    {
        self.load_ext(inst, Width::B, 0x80)
    }

    /// `x[rd] = sext(M[x[rs1] + sext(offset)][15:0])`
    pub fn lh(&mut self, inst: &Instruction) -> (r: Result<(), Error>)
        requires
            old(self).wf(),
            inst.wf(),
        ensures
            final(self).wf(),
            refines(old(self)@, final(self)@, r, old(self)@.lh(*inst)),
    {
        self.load_ext(inst, Width::H, 0x8000)
    }

    /// `x[rd] = sext(M[x[rs1] + sext(offset)][31:0])`
    pub fn lw(&mut self, inst: &Instruction) -> (r: Result<(), Error>)
        requires
            old(self).wf(),
            inst.wf(),
        ensures
            final(self).wf(),
            refines(old(self)@, final(self)@, r, old(self)@.lw(*inst)),
    {
        self.load_ext(inst, Width::W, 0x8000_0000)
    }

    /// `x[rd] = M[x[rs1] + sext(offset)][7:0]`
    pub fn lbu(&mut self, inst: &Instruction) -> (r: Result<(), Error>)
        requires
            old(self).wf(),
            inst.wf(),
        ensures
            final(self).wf(),
            refines(old(self)@, final(self)@, r, old(self)@.lbu(*inst)),
    {
        self.load_ext(inst, Width::B, 0)
    }

    /// `x[rd] = M[x[rs1] + sext(offset)][15:0]`
    pub fn lhu(&mut self, inst: &Instruction) -> (r: Result<(), Error>)
        requires
            old(self).wf(),
            inst.wf(),
        ensures
            final(self).wf(),
            refines(old(self)@, final(self)@, r, old(self)@.lhu(*inst)),
    {
        self.load_ext(inst, Width::H, 0)
    }

    /// `x[rd] = M[x[rs1] + sext(offset)][31:0]`
    pub fn lwu(&mut self, inst: &Instruction) -> (r: Result<(), Error>)
        requires
            old(self).wf(),
            inst.wf(),
        ensures
            final(self).wf(),
            refines(old(self)@, final(self)@, r, old(self)@.lwu(*inst)),
    {
        self.load_ext(inst, Width::W, 0)
    }

    /// `x[rd] = M[x[rs1] + sext(offset)][63:0]`
    pub fn ld(&mut self, inst: &Instruction) -> (r: Result<(), Error>)
        requires
            old(self).wf(),
            inst.wf(),
        ensures
            final(self).wf(),
            refines(old(self)@, final(self)@, r, old(self)@.ld(*inst)),
    {
        self.load_ext(inst, Width::D, 0)
    }

    /// `M[x[rs1] + sext(offset)] = x[rs2][7:0]`
    pub fn sb(&mut self, inst: &Instruction) -> (r: Result<(), Error>)
        requires
            old(self).wf(),
            inst.wf(),
        ensures
            final(self).wf(),
            refines(old(self)@, final(self)@, r, old(self)@.sb(*inst)),
    {
        self.store_reg(inst, Width::B)
    }

    /// `M[x[rs1] + sext(offset)] = x[rs2][15:0]`
    pub fn sh(&mut self, inst: &Instruction) -> (r: Result<(), Error>)
        requires
            old(self).wf(),
            inst.wf(),
        ensures
            final(self).wf(),
            refines(old(self)@, final(self)@, r, old(self)@.sh(*inst)),
    {
        self.store_reg(inst, Width::H)
    }

    /// `M[x[rs1] + sext(offset)] = x[rs2][31:0]`
    pub fn sw(&mut self, inst: &Instruction) -> (r: Result<(), Error>)
        requires
            old(self).wf(),
            inst.wf(),
        ensures
            final(self).wf(),
            refines(old(self)@, final(self)@, r, old(self)@.sw(*inst)),
    {
        self.store_reg(inst, Width::W)
    }

    /// `M[x[rs1] + sext(offset)] = x[rs2][63:0]`
    pub fn sd(&mut self, inst: &Instruction) -> (r: Result<(), Error>)
        requires
            old(self).wf(),
            inst.wf(),
        ensures
            final(self).wf(),
            refines(old(self)@, final(self)@, r, old(self)@.sd(*inst)),
    {
        self.store_reg(inst, Width::D)
    }

    /// `x[rd] = x[rs1] + sext(immediate)`
    pub fn addi(&mut self, inst: &Instruction)
        requires
            inst.wf(),
        ensures
            final(self)@ == old(self)@.addi(*inst),
    {
        let a = self.reg.get_reg(inst.rs1);
        let imm = sext(inst.imm as u64, 0x800);
        let v = a.wrapping_add(imm);
        self.reg.set_reg(inst.rd, v);
    }

    /// `x[rd] = x[rs1] <s sext(immediate)`
    pub fn slti(&mut self, inst: &Instruction)
        requires
            inst.wf(),
        ensures
            final(self)@ == old(self)@.slti(*inst),
    {
        let a = self.reg.get_reg(inst.rs1);
        let imm = sext(inst.imm as u64, 0x800);
        let v = arith::slt(a, imm);
        self.reg.set_reg(inst.rd, v);
    }

    /// `x[rd] = x[rs1] <u sext(immediate)`
    pub fn sltiu(&mut self, inst: &Instruction)
        requires
            inst.wf(),
        ensures
            final(self)@ == old(self)@.sltiu(*inst),
    {
        let a = self.reg.get_reg(inst.rs1);
        let imm = sext(inst.imm as u64, 0x800);
        let v = if a < imm { 1 } else { 0 };
        self.reg.set_reg(inst.rd, v);
    }

    /// `x[rd] = x[rs1] ^ sext(immediate)`
    pub fn xori(&mut self, inst: &Instruction)
        requires
            inst.wf(),
        ensures
            final(self)@ == old(self)@.xori(*inst),
    {
        let a = self.reg.get_reg(inst.rs1);
        let imm = sext(inst.imm as u64, 0x800);
        let v = a ^ imm;
        self.reg.set_reg(inst.rd, v);
    }

    /// `x[rd] = x[rs1] | sext(immediate)`
    pub fn ori(&mut self, inst: &Instruction)
        requires
            inst.wf(),
        ensures
            final(self)@ == old(self)@.ori(*inst),
    {
        let a = self.reg.get_reg(inst.rs1);
        let imm = sext(inst.imm as u64, 0x800);
        let v = a | imm;
        self.reg.set_reg(inst.rd, v);
    }

    /// `x[rd] = x[rs1] & sext(immediate)`
    pub fn andi(&mut self, inst: &Instruction)
        requires
            inst.wf(),
        ensures
            final(self)@ == old(self)@.andi(*inst),
    {
        let a = self.reg.get_reg(inst.rs1);
        let imm = sext(inst.imm as u64, 0x800);
        let v = a & imm;
        self.reg.set_reg(inst.rd, v);
    }

    /// `x[rd] = x[rs1] << shamt`
    pub fn slli(&mut self, inst: &Instruction)
        requires
            inst.wf(),
        ensures
            final(self)@ == old(self)@.slli(*inst),
    {
        let a = self.reg.get_reg(inst.rs1);
        let imm = inst.imm as u64;
        let v = a << arith::shamt6(imm);
        self.reg.set_reg(inst.rd, v);
    }

    /// `x[rd] = x[rs1] >>u shamt`
    pub fn srli(&mut self, inst: &Instruction)
        requires
            inst.wf(),
        ensures
            final(self)@ == old(self)@.srli(*inst),
    {
        let a = self.reg.get_reg(inst.rs1);
        let imm = inst.imm as u64;
        let v = a >> arith::shamt6(imm);
        self.reg.set_reg(inst.rd, v);
    }

    /// `x[rd] = x[rs1] >>s shamt`
    pub fn srai(&mut self, inst: &Instruction)
        requires
            inst.wf(),
        ensures
            final(self)@ == old(self)@.srai(*inst),
    {
        let a = self.reg.get_reg(inst.rs1);
        let imm = inst.imm as u64;
        let v = arith::sra(a, arith::shamt6(imm));
        self.reg.set_reg(inst.rd, v);
    }

    /// `x[rd] = x[rs1] + x[rs2]`
    pub fn add(&mut self, inst: &Instruction)
        requires
            inst.wf(),
        ensures
            final(self)@ == old(self)@.add(*inst),
    {
        let a = self.reg.get_reg(inst.rs1);
        let b = self.reg.get_reg(inst.rs2);
        let v = a.wrapping_add(b);
        self.reg.set_reg(inst.rd, v);
    }

    /// `x[rd] = x[rs1] - x[rs2]`
    pub fn sub(&mut self, inst: &Instruction)
        requires
            inst.wf(),
        ensures
            final(self)@ == old(self)@.sub(*inst),
    {
        let a = self.reg.get_reg(inst.rs1);
        let b = self.reg.get_reg(inst.rs2);
        let v = a.wrapping_sub(b);
        self.reg.set_reg(inst.rd, v);
    }

    /// `x[rd] = x[rs1] << x[rs2], by the low six bits`
    pub fn sll(&mut self, inst: &Instruction)
        requires
            inst.wf(),
        ensures
            final(self)@ == old(self)@.sll(*inst),
    {
        let a = self.reg.get_reg(inst.rs1);
        let b = self.reg.get_reg(inst.rs2);
        let v = a << arith::shamt6(b);
        self.reg.set_reg(inst.rd, v);
    }

    /// `x[rd] = x[rs1] <s x[rs2]`
    pub fn slt(&mut self, inst: &Instruction)
        requires
            inst.wf(),
        ensures
            final(self)@ == old(self)@.slt(*inst),
    {
        let a = self.reg.get_reg(inst.rs1);
        let b = self.reg.get_reg(inst.rs2);
        let v = arith::slt(a, b);
        self.reg.set_reg(inst.rd, v);
    }

    /// `x[rd] = x[rs1] <u x[rs2]`
    pub fn sltu(&mut self, inst: &Instruction)
        requires
            inst.wf(),
        ensures
            final(self)@ == old(self)@.sltu(*inst),
    {
        let a = self.reg.get_reg(inst.rs1);
        let b = self.reg.get_reg(inst.rs2);
        let v = if a < b { 1 } else { 0 };
        self.reg.set_reg(inst.rd, v);
    }

    /// `x[rd] = x[rs1] ^ x[rs2]`
    pub fn xor(&mut self, inst: &Instruction)
        requires
            inst.wf(),
        ensures
            final(self)@ == old(self)@.xor(*inst),
    {
        let a = self.reg.get_reg(inst.rs1);
        let b = self.reg.get_reg(inst.rs2);
        let v = a ^ b;
        self.reg.set_reg(inst.rd, v);
    }

    /// `x[rd] = x[rs1] >>u x[rs2], by the low six bits`
    pub fn srl(&mut self, inst: &Instruction)
        requires
            inst.wf(),
        ensures
            final(self)@ == old(self)@.srl(*inst),
    {
        let a = self.reg.get_reg(inst.rs1);
        let b = self.reg.get_reg(inst.rs2);
        let v = a >> arith::shamt6(b);
        self.reg.set_reg(inst.rd, v);
    }

    /// `x[rd] = x[rs1] >>s x[rs2], by the low six bits`
    pub fn sra(&mut self, inst: &Instruction)
        requires
            inst.wf(),
        ensures
            final(self)@ == old(self)@.sra(*inst),
    {
        let a = self.reg.get_reg(inst.rs1);
        let b = self.reg.get_reg(inst.rs2);
        let v = arith::sra(a, arith::shamt6(b));
        self.reg.set_reg(inst.rd, v);
    }

    /// `x[rd] = x[rs1] | x[rs2]`
    pub fn or(&mut self, inst: &Instruction)
        requires
            inst.wf(),
        ensures
            final(self)@ == old(self)@.or(*inst),
    {
        let a = self.reg.get_reg(inst.rs1);
        let b = self.reg.get_reg(inst.rs2);
        let v = a | b;
        self.reg.set_reg(inst.rd, v);
    }

    /// `x[rd] = x[rs1] & x[rs2]`
    pub fn and(&mut self, inst: &Instruction)
        requires
            inst.wf(),
        ensures
            final(self)@ == old(self)@.and(*inst),
    {
        let a = self.reg.get_reg(inst.rs1);
        let b = self.reg.get_reg(inst.rs2);
        let v = a & b;
        self.reg.set_reg(inst.rd, v);
    }

    /// `Fence(pred, succ)`
    pub fn fence(&mut self, inst: &Instruction)
        ensures
            final(self)@ == old(self)@.fence(*inst),
    {
    }

    /// `Fence(Store, Fetch)`
    pub fn fence_i(&mut self, inst: &Instruction)
        ensures
            final(self)@ == old(self)@.fence_i(*inst),
    {
    }

    /// `x[rd] = sext((x[rs1] + sext(immediate))[31:0])`
    pub fn addiw(&mut self, inst: &Instruction)
        requires
            inst.wf(),
        ensures
            final(self)@ == old(self)@.addiw(*inst),
    {
        let a = self.reg.get_reg(inst.rs1);
        let imm = sext(inst.imm as u64, 0x800);
        let v = arith::sext_word(a.wrapping_add(imm));
        self.reg.set_reg(inst.rd, v);
    }

    /// `x[rd] = sext((x[rs1] << shamt)[31:0])`
    pub fn slliw(&mut self, inst: &Instruction)
        requires
            inst.wf(),
        ensures
            final(self)@ == old(self)@.slliw(*inst),
    {
        let a = self.reg.get_reg(inst.rs1);
        let imm = inst.imm as u64;
        let v = arith::sext_word(a << arith::shamt5(imm));
        self.reg.set_reg(inst.rd, v);
    }

    /// `x[rd] = sext(x[rs1][31:0] >>u shamt)`
    pub fn srliw(&mut self, inst: &Instruction)
        requires
            inst.wf(),
        ensures
            final(self)@ == old(self)@.srliw(*inst),
    {
        let a = self.reg.get_reg(inst.rs1);
        let imm = inst.imm as u64;
        let v = arith::sext_word((a & 0xFFFF_FFFF) >> arith::shamt5(imm));
        self.reg.set_reg(inst.rd, v);
    }

    /// `x[rd] = sext(x[rs1][31:0] >>s shamt)`
    pub fn sraiw(&mut self, inst: &Instruction)
        requires
            inst.wf(),
        ensures
            final(self)@ == old(self)@.sraiw(*inst),
    {
        let a = self.reg.get_reg(inst.rs1);
        let imm = inst.imm as u64;
        let v = arith::sra(arith::sext_word(a), arith::shamt5(imm));
        self.reg.set_reg(inst.rd, v);
    }

    /// `x[rd] = sext((x[rs1] + x[rs2])[31:0])`
    pub fn addw(&mut self, inst: &Instruction)
        requires
            inst.wf(),
        ensures
            final(self)@ == old(self)@.addw(*inst),
    {
        let a = self.reg.get_reg(inst.rs1);
        let b = self.reg.get_reg(inst.rs2);
        let v = arith::sext_word(a.wrapping_add(b));
        self.reg.set_reg(inst.rd, v);
    }

    /// `x[rd] = sext((x[rs1] - x[rs2])[31:0])`
    pub fn subw(&mut self, inst: &Instruction)
        requires
            inst.wf(),
        ensures
            final(self)@ == old(self)@.subw(*inst),
    {
        let a = self.reg.get_reg(inst.rs1);
        let b = self.reg.get_reg(inst.rs2);
        let v = arith::sext_word(a.wrapping_sub(b));
        self.reg.set_reg(inst.rd, v);
    }

    /// `x[rd] = sext((x[rs1] << x[rs2][4:0])[31:0])`
    pub fn sllw(&mut self, inst: &Instruction)
        requires
            inst.wf(),
        ensures
            final(self)@ == old(self)@.sllw(*inst),
    {
        let a = self.reg.get_reg(inst.rs1);
        let b = self.reg.get_reg(inst.rs2);
        let v = arith::sext_word(a << arith::shamt5(b));
        self.reg.set_reg(inst.rd, v);
    }

    /// `x[rd] = sext(x[rs1][31:0] >>u x[rs2][4:0])`
    pub fn srlw(&mut self, inst: &Instruction)
        requires
            inst.wf(),
        ensures
            final(self)@ == old(self)@.srlw(*inst),
    {
        let a = self.reg.get_reg(inst.rs1);
        let b = self.reg.get_reg(inst.rs2);
        let v = arith::sext_word((a & 0xFFFF_FFFF) >> arith::shamt5(b));
        self.reg.set_reg(inst.rd, v);
    }

    /// `x[rd] = sext(x[rs1][31:0] >>s x[rs2][4:0])`
    pub fn sraw(&mut self, inst: &Instruction)
        requires
            inst.wf(),
        ensures
            final(self)@ == old(self)@.sraw(*inst),
    {
        let a = self.reg.get_reg(inst.rs1);
        let b = self.reg.get_reg(inst.rs2);
        let v = arith::sra(arith::sext_word(a), arith::shamt5(b));
        self.reg.set_reg(inst.rd, v);
    }
}

/// Word arithmetic leaves a sign-extended word in `x[rd]`: bits 63 to 32
/// equal bit 31.
pub proof fn lemma_word_arithmetic(s: CpuView, inst: Instruction)
    requires
        s.reg.wf(),
        inst.wf(),
        inst.rd != 0,
    ensures
        arith::is_sext32(s.addiw(inst).x(inst.rd)),
        arith::is_sext32(s.slliw(inst).x(inst.rd)),
        arith::is_sext32(s.srliw(inst).x(inst.rd)),
        arith::is_sext32(s.sraiw(inst).x(inst.rd)),
        arith::is_sext32(s.addw(inst).x(inst.rd)),
        arith::is_sext32(s.subw(inst).x(inst.rd)),
        arith::is_sext32(s.sllw(inst).x(inst.rd)),
        arith::is_sext32(s.srlw(inst).x(inst.rd)),
        arith::is_sext32(s.sraw(inst).x(inst.rd)),
        arith::is_sext32(s.lui(inst).x(inst.rd)),
{
    let a = s.x(inst.rs1);
    let b = s.x(inst.rs2);
    arith::lemma_word_results(a, b);
    arith::lemma_word_results(a, inst.imm as u64);
    arith::lemma_sext32(a.wrapping_add(sext_spec(inst.imm as u64, 0x800)));
    arith::lemma_sext32(a << ((inst.imm as u64) & 0x1F));
    arith::lemma_sext32((a & 0xFFFF_FFFF) >> ((inst.imm as u64) & 0x1F));
    arith::lemma_sext32(a.wrapping_add(b));
    arith::lemma_sext32(a.wrapping_sub(b));
    arith::lemma_sext32(a << (b & 0x1F));
    arith::lemma_sext32((a & 0xFFFF_FFFF) >> (b & 0x1F));
    arith::lemma_sext32((inst.imm as u64) << 12);
}

/// Each base integer instruction leaves the register file well formed: `x[0]`
/// stays 0, and no CSR comes or goes.
pub proof fn lemma_integer_keeps_registers(s: CpuView, inst: Instruction)
    requires
        s.reg.wf(),
        inst.wf(),
    ensures
        s.lui(inst).reg.wf(),
        s.auipc(inst).reg.wf(),
        s.jal(inst).reg.wf(),
        s.jalr(inst).reg.wf(),
        s.beq(inst).reg.wf(),
        s.bne(inst).reg.wf(),
        s.blt(inst).reg.wf(),
        s.bge(inst).reg.wf(),
        s.bltu(inst).reg.wf(),
        s.bgeu(inst).reg.wf(),
        s.lb(inst) matches Ok(t) ==> t.reg.wf(),
        s.lh(inst) matches Ok(t) ==> t.reg.wf(),
        s.lw(inst) matches Ok(t) ==> t.reg.wf(),
        s.lbu(inst) matches Ok(t) ==> t.reg.wf(),
        s.lhu(inst) matches Ok(t) ==> t.reg.wf(),
        s.sb(inst) matches Ok(t) ==> t.reg.wf(),
        s.sh(inst) matches Ok(t) ==> t.reg.wf(),
        s.sw(inst) matches Ok(t) ==> t.reg.wf(),
        s.addi(inst).reg.wf(),
        s.slti(inst).reg.wf(),
        s.sltiu(inst).reg.wf(),
        s.xori(inst).reg.wf(),
        s.ori(inst).reg.wf(),
        s.andi(inst).reg.wf(),
        s.slli(inst).reg.wf(),
        s.srli(inst).reg.wf(),
        s.srai(inst).reg.wf(),
        s.add(inst).reg.wf(),
        s.sub(inst).reg.wf(),
        s.sll(inst).reg.wf(),
        s.slt(inst).reg.wf(),
        s.sltu(inst).reg.wf(),
        s.xor(inst).reg.wf(),
        s.srl(inst).reg.wf(),
        s.sra(inst).reg.wf(),
        s.or(inst).reg.wf(),
        s.and(inst).reg.wf(),
        s.fence(inst).reg.wf(),
        s.fence_i(inst).reg.wf(),
        s.lwu(inst) matches Ok(t) ==> t.reg.wf(),
        s.ld(inst) matches Ok(t) ==> t.reg.wf(),
        s.sd(inst) matches Ok(t) ==> t.reg.wf(),
        s.addiw(inst).reg.wf(),
        s.slliw(inst).reg.wf(),
        s.srliw(inst).reg.wf(),
        s.sraiw(inst).reg.wf(),
        s.addw(inst).reg.wf(),
        s.subw(inst).reg.wf(),
        s.sllw(inst).reg.wf(),
        s.srlw(inst).reg.wf(),
        s.sraw(inst).reg.wf(),
{
}

/// Executing a base integer instruction leaves the register file well formed.
pub proof fn lemma_exec_integer(s: CpuView, inst: Instruction)
    requires
        s.reg.wf(),
        inst.wf(),
        super::instructions::group_of(inst.name) == super::instructions::InstGroup::Integer,
        s.exec(inst) is Ok,
    ensures
        s.exec(inst).unwrap().reg.wf(),
{
    lemma_integer_keeps_registers(s, inst);
    match inst.name {
        super::instructions::InstName::Lui => {
            assert(s.exec(inst) == Ok::<CpuView, crate::error::Error>(s.lui(inst)));
        },
        super::instructions::InstName::Auipc => {
            assert(s.exec(inst) == Ok::<CpuView, crate::error::Error>(s.auipc(inst)));
        },
        super::instructions::InstName::Jal => {
            assert(s.exec(inst) == Ok::<CpuView, crate::error::Error>(s.jal(inst)));
        },
        super::instructions::InstName::Jalr => {
            assert(s.exec(inst) == Ok::<CpuView, crate::error::Error>(s.jalr(inst)));
        },
        super::instructions::InstName::Beq => {
            assert(s.exec(inst) == Ok::<CpuView, crate::error::Error>(s.beq(inst)));
        },
        super::instructions::InstName::Bne => {
            assert(s.exec(inst) == Ok::<CpuView, crate::error::Error>(s.bne(inst)));
        },
        super::instructions::InstName::Blt => {
            assert(s.exec(inst) == Ok::<CpuView, crate::error::Error>(s.blt(inst)));
        },
        super::instructions::InstName::Bge => {
            assert(s.exec(inst) == Ok::<CpuView, crate::error::Error>(s.bge(inst)));
        },
        super::instructions::InstName::Bltu => {
            assert(s.exec(inst) == Ok::<CpuView, crate::error::Error>(s.bltu(inst)));
        },
        super::instructions::InstName::Bgeu => {
            assert(s.exec(inst) == Ok::<CpuView, crate::error::Error>(s.bgeu(inst)));
        },
        super::instructions::InstName::Lb => {
            assert(s.exec(inst) == s.lb(inst));
        },
        super::instructions::InstName::Lh => {
            assert(s.exec(inst) == s.lh(inst));
        },
        super::instructions::InstName::Lw => {
            assert(s.exec(inst) == s.lw(inst));
        },
        super::instructions::InstName::Lbu => {
            assert(s.exec(inst) == s.lbu(inst));
        },
        super::instructions::InstName::Lhu => {
            assert(s.exec(inst) == s.lhu(inst));
        },
        super::instructions::InstName::Sb => {
            assert(s.exec(inst) == s.sb(inst));
        },
        super::instructions::InstName::Sh => {
            assert(s.exec(inst) == s.sh(inst));
        },
        super::instructions::InstName::Sw => {
            assert(s.exec(inst) == s.sw(inst));
        },
        super::instructions::InstName::Addi => {
            assert(s.exec(inst) == Ok::<CpuView, crate::error::Error>(s.addi(inst)));
        },
        super::instructions::InstName::Slti => {
            assert(s.exec(inst) == Ok::<CpuView, crate::error::Error>(s.slti(inst)));
        },
        super::instructions::InstName::Sltiu => {
            assert(s.exec(inst) == Ok::<CpuView, crate::error::Error>(s.sltiu(inst)));
        },
        super::instructions::InstName::Xori => {
            assert(s.exec(inst) == Ok::<CpuView, crate::error::Error>(s.xori(inst)));
        },
        super::instructions::InstName::Ori => {
            assert(s.exec(inst) == Ok::<CpuView, crate::error::Error>(s.ori(inst)));
        },
        super::instructions::InstName::Andi => {
            assert(s.exec(inst) == Ok::<CpuView, crate::error::Error>(s.andi(inst)));
        },
        super::instructions::InstName::Slli => {
            assert(s.exec(inst) == Ok::<CpuView, crate::error::Error>(s.slli(inst)));
        },
        super::instructions::InstName::Srli => {
            assert(s.exec(inst) == Ok::<CpuView, crate::error::Error>(s.srli(inst)));
        },
        super::instructions::InstName::Srai => {
            assert(s.exec(inst) == Ok::<CpuView, crate::error::Error>(s.srai(inst)));
        },
        super::instructions::InstName::Add => {
            assert(s.exec(inst) == Ok::<CpuView, crate::error::Error>(s.add(inst)));
        },
        super::instructions::InstName::Sub => {
            assert(s.exec(inst) == Ok::<CpuView, crate::error::Error>(s.sub(inst)));
        },
        super::instructions::InstName::Sll => {
            assert(s.exec(inst) == Ok::<CpuView, crate::error::Error>(s.sll(inst)));
        },
        super::instructions::InstName::Slt => {
            assert(s.exec(inst) == Ok::<CpuView, crate::error::Error>(s.slt(inst)));
        },
        super::instructions::InstName::Sltu => {
            assert(s.exec(inst) == Ok::<CpuView, crate::error::Error>(s.sltu(inst)));
        },
        super::instructions::InstName::Xor => {
            assert(s.exec(inst) == Ok::<CpuView, crate::error::Error>(s.xor(inst)));
        },
        super::instructions::InstName::Srl => {
            assert(s.exec(inst) == Ok::<CpuView, crate::error::Error>(s.srl(inst)));
        },
        super::instructions::InstName::Sra => {
            assert(s.exec(inst) == Ok::<CpuView, crate::error::Error>(s.sra(inst)));
        },
        super::instructions::InstName::Or => {
            assert(s.exec(inst) == Ok::<CpuView, crate::error::Error>(s.or(inst)));
        },
        super::instructions::InstName::And => {
            assert(s.exec(inst) == Ok::<CpuView, crate::error::Error>(s.and(inst)));
        },
        super::instructions::InstName::Fence => {
            assert(s.exec(inst) == Ok::<CpuView, crate::error::Error>(s.fence(inst)));
        },
        super::instructions::InstName::FenceI => {
            assert(s.exec(inst) == Ok::<CpuView, crate::error::Error>(s.fence_i(inst)));
        },
        super::instructions::InstName::Lwu => {
            assert(s.exec(inst) == s.lwu(inst));
        },
        super::instructions::InstName::Ld => {
            assert(s.exec(inst) == s.ld(inst));
        },
        super::instructions::InstName::Sd => {
            assert(s.exec(inst) == s.sd(inst));
        },
        super::instructions::InstName::Addiw => {
            assert(s.exec(inst) == Ok::<CpuView, crate::error::Error>(s.addiw(inst)));
        },
        super::instructions::InstName::Slliw => {
            assert(s.exec(inst) == Ok::<CpuView, crate::error::Error>(s.slliw(inst)));
        },
        super::instructions::InstName::Srliw => {
            assert(s.exec(inst) == Ok::<CpuView, crate::error::Error>(s.srliw(inst)));
        },
        super::instructions::InstName::Sraiw => {
            assert(s.exec(inst) == Ok::<CpuView, crate::error::Error>(s.sraiw(inst)));
        },
        super::instructions::InstName::Addw => {
            assert(s.exec(inst) == Ok::<CpuView, crate::error::Error>(s.addw(inst)));
        },
        super::instructions::InstName::Subw => {
            assert(s.exec(inst) == Ok::<CpuView, crate::error::Error>(s.subw(inst)));
        },
        super::instructions::InstName::Sllw => {
            assert(s.exec(inst) == Ok::<CpuView, crate::error::Error>(s.sllw(inst)));
        },
        super::instructions::InstName::Srlw => {
            assert(s.exec(inst) == Ok::<CpuView, crate::error::Error>(s.srlw(inst)));
        },
        super::instructions::InstName::Sraw => {
            assert(s.exec(inst) == Ok::<CpuView, crate::error::Error>(s.sraw(inst)));
        },
        _ => {},
    }
}

} // verus!
