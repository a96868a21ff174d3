//! The decoder: from a 32-bit instruction word to its fields and the name of
//! its operation.
use vstd::prelude::*;
use crate::error::Error;

verus! {

/// The six encodings of an instruction word.
#[derive(Debug, Clone, Copy, PartialEq, Eq, Structural)]
pub enum InstFmt {
    R,
    I,
    S,
    B,
    U,
    J,
}

/// The operations that the decoder recognises.
#[derive(Debug, Clone, Copy, PartialEq, Eq, Structural)]
pub enum InstName {
    // RV32I
    Lui,
    Auipc,
    Jal,
    Jalr,
    Beq,
    Bne,
    Blt,
    Bge,
    Bltu,
    Bgeu,
    Lb,
    Lh,
    Lw,
    Lbu,
    Lhu,
    Sb,
    Sh,
    Sw,
    Addi,
    Slti,
    Sltiu,
    Xori,
    Ori,
    Andi,
    Slli,
    Srli,
    Srai,
    Add,
    Sub,
    Sll,
    Slt,
    Sltu,
    Xor,
    Srl,
    Sra,
    Or,
    And,
    Fence,
    FenceI,
    Ecall,
    Ebreak,
    Csrrw,
    Csrrs,
    Csrrc,
    Csrrwi,
    Csrrsi,
    Csrrci,
    Sret,
    Mret,
    Wfi,
    SfenceVma,
    // RV32M
    Mul,
    Mulh,
    Mulhsu,
    Mulhu,
    Div,
    Divu,
    Rem,
    Remu,
    // RV32A
    LrW,
    ScW,
    AmoswapW,
    AmoaddW,
    AmoxorW,
    AmoandW,
    AmoorW,
    AmominW,
    AmomaxW,
    AmominuW,
    AmomaxuW,
    // RV64I
    Lwu,
    Ld,
    Sd,
    Addiw,
    Slliw,
    Srliw,
    Sraiw,
    Addw,
    Subw,
    Sllw,
    Srlw,
    Sraw,
    // RV64M
    Mulw,
    Divw,
    Divuw,
    Remw,
    Remuw,
    // RV64A
    LrD,
    ScD,
    AmoswapD,
    AmoaddD,
    AmoxorD,
    AmoandD,
    AmoorD,
    AmominD,
    AmomaxD,
    AmominuD,
    AmomaxuD,
}

/// The mnemonic of an operation, as assembly writes it.
pub open spec fn mnemonic_of(name: InstName) -> Seq<char> {
    match name {
        InstName::Lui => "lui"@,
        InstName::Auipc => "auipc"@,
        InstName::Jal => "jal"@,
        InstName::Jalr => "jalr"@,
        InstName::Beq => "beq"@,
        InstName::Bne => "bne"@,
        InstName::Blt => "blt"@,
        InstName::Bge => "bge"@,
        InstName::Bltu => "bltu"@,
        InstName::Bgeu => "bgeu"@,
        InstName::Lb => "lb"@,
        InstName::Lh => "lh"@,
        InstName::Lw => "lw"@,
        InstName::Lbu => "lbu"@,
        InstName::Lhu => "lhu"@,
        InstName::Sb => "sb"@,
        InstName::Sh => "sh"@,
        InstName::Sw => "sw"@,
        InstName::Addi => "addi"@,
        InstName::Slti => "slti"@,
        InstName::Sltiu => "sltiu"@,
        InstName::Xori => "xori"@,
        InstName::Ori => "ori"@,
        InstName::Andi => "andi"@,
        InstName::Slli => "slli"@,
        InstName::Srli => "srli"@,
        InstName::Srai => "srai"@,
        InstName::Add => "add"@,
        InstName::Sub => "sub"@,
        InstName::Sll => "sll"@,
        InstName::Slt => "slt"@,
        InstName::Sltu => "sltu"@,
        InstName::Xor => "xor"@,
        InstName::Srl => "srl"@,
        InstName::Sra => "sra"@,
        InstName::Or => "or"@,
        InstName::And => "and"@,
        InstName::Fence => "fence"@,
        InstName::FenceI => "fence.i"@,
        InstName::Ecall => "ecall"@,
        InstName::Ebreak => "ebreak"@,
        InstName::Csrrw => "csrrw"@,
        InstName::Csrrs => "csrrs"@,
        InstName::Csrrc => "csrrc"@,
        InstName::Csrrwi => "csrrwi"@,
        InstName::Csrrsi => "csrrsi"@,
        InstName::Csrrci => "csrrci"@,
        InstName::Sret => "sret"@,
        InstName::Mret => "mret"@,
        InstName::Wfi => "wfi"@,
        InstName::SfenceVma => "sfence.vma"@,
        InstName::Mul => "mul"@,
        InstName::Mulh => "mulh"@,
        InstName::Mulhsu => "mulhsu"@,
        InstName::Mulhu => "mulhu"@,
        InstName::Div => "div"@,
        InstName::Divu => "divu"@,
        InstName::Rem => "rem"@,
        InstName::Remu => "remu"@,
        InstName::LrW => "lr.w"@,
        InstName::ScW => "sc.w"@,
        InstName::AmoswapW => "amoswap.w"@,
        InstName::AmoaddW => "amoadd.w"@,
        InstName::AmoxorW => "amoxor.w"@,
        InstName::AmoandW => "amoand.w"@,
        InstName::AmoorW => "amoor.w"@,
        InstName::AmominW => "amomin.w"@,
        InstName::AmomaxW => "amomax.w"@,
        InstName::AmominuW => "amominu.w"@,
        InstName::AmomaxuW => "amomaxu.w"@,
        InstName::Lwu => "lwu"@,
        InstName::Ld => "ld"@,
        InstName::Sd => "sd"@,
        InstName::Addiw => "addiw"@,
        InstName::Slliw => "slliw"@,
        InstName::Srliw => "srliw"@,
        InstName::Sraiw => "sraiw"@,
        InstName::Addw => "addw"@,
        InstName::Subw => "subw"@,
        InstName::Sllw => "sllw"@,
        InstName::Srlw => "srlw"@,
        InstName::Sraw => "sraw"@,
        InstName::Mulw => "mulw"@,
        InstName::Divw => "divw"@,
        InstName::Divuw => "divuw"@,
        InstName::Remw => "remw"@,
        InstName::Remuw => "remuw"@,
        InstName::LrD => "lr.d"@,
        InstName::ScD => "sc.d"@,
        InstName::AmoswapD => "amoswap.d"@,
        InstName::AmoaddD => "amoadd.d"@,
        InstName::AmoxorD => "amoxor.d"@,
        InstName::AmoandD => "amoand.d"@,
        InstName::AmoorD => "amoor.d"@,
        InstName::AmominD => "amomin.d"@,
        InstName::AmomaxD => "amomax.d"@,
        InstName::AmominuD => "amominu.d"@,
        InstName::AmomaxuD => "amomaxu.d"@,
    }
}

impl InstName {
    /// The mnemonic of the operation, as assembly writes it.
    pub fn mnemonic(&self) -> (r: &'static str)
        ensures
            r@ == mnemonic_of(*self),
    {
        match self {
            InstName::Lui => "lui",
            InstName::Auipc => "auipc",
            InstName::Jal => "jal",
            InstName::Jalr => "jalr",
            InstName::Beq => "beq",
            InstName::Bne => "bne",
            InstName::Blt => "blt",
            InstName::Bge => "bge",
            InstName::Bltu => "bltu",
            InstName::Bgeu => "bgeu",
            InstName::Lb => "lb",
            InstName::Lh => "lh",
            InstName::Lw => "lw",
            InstName::Lbu => "lbu",
            InstName::Lhu => "lhu",
            InstName::Sb => "sb",
            InstName::Sh => "sh",
            InstName::Sw => "sw",
            InstName::Addi => "addi",
            InstName::Slti => "slti",
            InstName::Sltiu => "sltiu",
            InstName::Xori => "xori",
            InstName::Ori => "ori",
            InstName::Andi => "andi",
            InstName::Slli => "slli",
            InstName::Srli => "srli",
            InstName::Srai => "srai",
            InstName::Add => "add",
            InstName::Sub => "sub",
            InstName::Sll => "sll",
            InstName::Slt => "slt",
            InstName::Sltu => "sltu",
            InstName::Xor => "xor",
            InstName::Srl => "srl",
            InstName::Sra => "sra",
            InstName::Or => "or",
            InstName::And => "and",
            InstName::Fence => "fence",
            InstName::FenceI => "fence.i",
            InstName::Ecall => "ecall",
            InstName::Ebreak => "ebreak",
            InstName::Csrrw => "csrrw",
            InstName::Csrrs => "csrrs",
            InstName::Csrrc => "csrrc",
            InstName::Csrrwi => "csrrwi",
            InstName::Csrrsi => "csrrsi",
            InstName::Csrrci => "csrrci",
            InstName::Sret => "sret",
            InstName::Mret => "mret",
            InstName::Wfi => "wfi",
            InstName::SfenceVma => "sfence.vma",
            InstName::Mul => "mul",
            InstName::Mulh => "mulh",
            InstName::Mulhsu => "mulhsu",
            InstName::Mulhu => "mulhu",
            InstName::Div => "div",
            InstName::Divu => "divu",
            InstName::Rem => "rem",
            InstName::Remu => "remu",
            InstName::LrW => "lr.w",
            InstName::ScW => "sc.w",
            InstName::AmoswapW => "amoswap.w",
            InstName::AmoaddW => "amoadd.w",
            InstName::AmoxorW => "amoxor.w",
            InstName::AmoandW => "amoand.w",
            InstName::AmoorW => "amoor.w",
            InstName::AmominW => "amomin.w",
            InstName::AmomaxW => "amomax.w",
            InstName::AmominuW => "amominu.w",
            InstName::AmomaxuW => "amomaxu.w",
            InstName::Lwu => "lwu",
            InstName::Ld => "ld",
            InstName::Sd => "sd",
            InstName::Addiw => "addiw",
            InstName::Slliw => "slliw",
            InstName::Srliw => "srliw",
            InstName::Sraiw => "sraiw",
            InstName::Addw => "addw",
            InstName::Subw => "subw",
            InstName::Sllw => "sllw",
            InstName::Srlw => "srlw",
            InstName::Sraw => "sraw",
            InstName::Mulw => "mulw",
            InstName::Divw => "divw",
            InstName::Divuw => "divuw",
            InstName::Remw => "remw",
            InstName::Remuw => "remuw",
            InstName::LrD => "lr.d",
            InstName::ScD => "sc.d",
            InstName::AmoswapD => "amoswap.d",
            InstName::AmoaddD => "amoadd.d",
            InstName::AmoxorD => "amoxor.d",
            InstName::AmoandD => "amoand.d",
            InstName::AmoorD => "amoor.d",
            InstName::AmominD => "amomin.d",
            InstName::AmomaxD => "amomax.d",
            InstName::AmominuD => "amominu.d",
            InstName::AmomaxuD => "amomaxu.d",
        }
    }
}

/// Major opcode of LUI.
pub const OP_LUI: u8 = 0b011_0111;

/// Major opcode of AUIPC.
pub const OP_AUIPC: u8 = 0b001_0111;

/// Major opcode of JAL.
pub const OP_JAL: u8 = 0b110_1111;

/// Major opcode of JALR.
pub const OP_JALR: u8 = 0b110_0111;

/// Major opcode of the conditional branches.
pub const OP_BRANCH: u8 = 0b110_0011;

/// Major opcode of the loads.
pub const OP_LOAD: u8 = 0b000_0011;

/// Major opcode of the stores.
pub const OP_STORE: u8 = 0b010_0011;

/// Major opcode of the register-immediate arithmetic.
pub const OP_OP_IMM: u8 = 0b001_0011;

/// Major opcode of the register-register arithmetic.
pub const OP_OP: u8 = 0b011_0011;

/// Major opcode of the fences.
pub const OP_MISC_MEM: u8 = 0b000_1111;

/// Major opcode of the CSR and privileged instructions.
pub const OP_SYSTEM: u8 = 0b111_0011;

/// Major opcode of the atomic memory operations.
pub const OP_AMO: u8 = 0b010_1111;

/// Major opcode of the register-immediate arithmetic on words.
pub const OP_OP_IMM_32: u8 = 0b001_1011;

/// Major opcode of the register-register arithmetic on words.
pub const OP_OP_32: u8 = 0b011_1011;

/// The encoding that a major opcode uses, if the opcode is known.
pub open spec fn format_of(opcode: u8) -> Option<InstFmt> {
    if opcode == OP_LUI || opcode == OP_AUIPC {
        Some(InstFmt::U)
    } else if opcode == OP_JAL {
        Some(InstFmt::J)
    } else if opcode == OP_BRANCH {
        Some(InstFmt::B)
    } else if opcode == OP_STORE {
        Some(InstFmt::S)
    } else if opcode == OP_OP || opcode == OP_OP_32 || opcode == OP_AMO {
        Some(InstFmt::R)
    } else if opcode == OP_JALR || opcode == OP_LOAD || opcode == OP_OP_IMM || opcode == OP_OP_IMM_32
        || opcode == OP_MISC_MEM || opcode == OP_SYSTEM {
        Some(InstFmt::I)
    } else {
        None
    }
}

/// Maps a major opcode to its encoding.
pub fn to_format(opcode: u8) -> (r: Result<InstFmt, Error>)
    ensures
        match r {
            Ok(fmt) => format_of(opcode) == Some(fmt),
            Err(e) => e == Error::InvalidInstruction && format_of(opcode) is None,
        },
{
    match opcode {
        0b011_0111 => Ok(InstFmt::U),
        0b001_0111 => Ok(InstFmt::U),
        0b110_1111 => Ok(InstFmt::J),
        0b110_0111 => Ok(InstFmt::I),
        0b110_0011 => Ok(InstFmt::B),
        0b000_0011 => Ok(InstFmt::I),
        0b010_0011 => Ok(InstFmt::S),
        0b001_0011 => Ok(InstFmt::I),
        0b011_0011 => Ok(InstFmt::R),
        0b000_1111 => Ok(InstFmt::I),
        0b111_0011 => Ok(InstFmt::I),
        0b010_1111 => Ok(InstFmt::R),
        0b001_1011 => Ok(InstFmt::I),
        0b011_1011 => Ok(InstFmt::R),
        _ => Err(Error::InvalidInstruction),
    }
}

/// The conditional branch that `funct3` selects.
pub open spec fn branch_name(funct3: u8) -> Option<InstName> {
    if funct3 == 0b000 {
        Some(InstName::Beq)
    } else if funct3 == 0b001 {
        Some(InstName::Bne)
    } else if funct3 == 0b100 {
        Some(InstName::Blt)
    } else if funct3 == 0b101 {
        Some(InstName::Bge)
    } else if funct3 == 0b110 {
        Some(InstName::Bltu)
    } else if funct3 == 0b111 {
        Some(InstName::Bgeu)
    } else {
        None
    }
}

/// The load that `funct3` selects.
pub open spec fn load_name(funct3: u8) -> Option<InstName> {
    if funct3 == 0b000 {
        Some(InstName::Lb)
    } else if funct3 == 0b001 {
        Some(InstName::Lh)
    } else if funct3 == 0b010 {
        Some(InstName::Lw)
    } else if funct3 == 0b100 {
        Some(InstName::Lbu)
    } else if funct3 == 0b101 {
        Some(InstName::Lhu)
    } else if funct3 == 0b110 {
        Some(InstName::Lwu)
    } else if funct3 == 0b011 {
        Some(InstName::Ld)
    } else {
        None
    }
}

/// The store that `funct3` selects.
pub open spec fn store_name(funct3: u8) -> Option<InstName> {
    if funct3 == 0b000 {
        Some(InstName::Sb)
    } else if funct3 == 0b001 {
        Some(InstName::Sh)
    } else if funct3 == 0b010 {
        Some(InstName::Sw)
    } else if funct3 == 0b011 {
        Some(InstName::Sd)
    } else {
        None
    }
}

/// The register-immediate operation that `funct3` selects. A shift carries a
/// six-bit amount, so only the upper six bits of `funct7` tell the shifts apart.
pub open spec fn op_imm_name(funct3: u8, funct7: u8) -> Option<InstName> {
    if funct3 == 0b000 {
        Some(InstName::Addi)
    } else if funct3 == 0b010 {
        Some(InstName::Slti)
    } else if funct3 == 0b011 {
        Some(InstName::Sltiu)
    } else if funct3 == 0b100 {
        Some(InstName::Xori)
    } else if funct3 == 0b110 {
        Some(InstName::Ori)
    } else if funct3 == 0b111 {
        Some(InstName::Andi)
    } else if funct3 == 0b001 && funct7 >> 1 == 0b00_0000 {
        Some(InstName::Slli)
    } else if funct3 == 0b101 && funct7 >> 1 == 0b00_0000 {
        Some(InstName::Srli)
    } else if funct3 == 0b101 && funct7 >> 1 == 0b01_0000 {
        Some(InstName::Srai)
    } else {
        None
    }
}

/// The register-register operation that `funct3` and `funct7` select.
pub open spec fn op_name(funct3: u8, funct7: u8) -> Option<InstName> {
    if funct3 == 0b000 && funct7 == 0b000_0000 {
        Some(InstName::Add)
    } else if funct3 == 0b000 && funct7 == 0b010_0000 {
        Some(InstName::Sub)
    } else if funct3 == 0b000 && funct7 == 0b000_0001 {
        Some(InstName::Mul)
    } else if funct3 == 0b001 && funct7 == 0b000_0000 {
        Some(InstName::Sll)
    } else if funct3 == 0b001 && funct7 == 0b000_0001 {
        Some(InstName::Mulh)
    } else if funct3 == 0b010 && funct7 == 0b000_0000 {
        Some(InstName::Slt)
    } else if funct3 == 0b010 && funct7 == 0b000_0001 {
        Some(InstName::Mulhsu)
    } else if funct3 == 0b011 && funct7 == 0b000_0000 {
        Some(InstName::Sltu)
    } else if funct3 == 0b011 && funct7 == 0b000_0001 {
        Some(InstName::Mulhu)
    } else if funct3 == 0b100 && funct7 == 0b000_0000 {
        Some(InstName::Xor)
    } else if funct3 == 0b100 && funct7 == 0b000_0001 {
        Some(InstName::Div)
    } else if funct3 == 0b101 && funct7 == 0b000_0000 {
        Some(InstName::Srl)
    } else if funct3 == 0b101 && funct7 == 0b010_0000 {
        Some(InstName::Sra)
    } else if funct3 == 0b101 && funct7 == 0b000_0001 {
        Some(InstName::Divu)
    } else if funct3 == 0b110 && funct7 == 0b000_0000 {
        Some(InstName::Or)
    } else if funct3 == 0b110 && funct7 == 0b000_0001 {
        Some(InstName::Rem)
    } else if funct3 == 0b111 && funct7 == 0b000_0000 {
        Some(InstName::And)
    } else if funct3 == 0b111 && funct7 == 0b000_0001 {
        Some(InstName::Remu)
    } else {
        None
    }
}

/// The fence that `funct3` selects.
pub open spec fn misc_mem_name(funct3: u8) -> Option<InstName> {
    if funct3 == 0b000 {
        Some(InstName::Fence)
    } else if funct3 == 0b001 {
        Some(InstName::FenceI)
    } else {
        None
    }
}

/// The privileged or CSR operation that the funct fields select.
pub open spec fn system_name(funct3: u8, funct7: u8, funct12: u16) -> Option<InstName> {
    if funct3 == 0b000 && funct7 == 0b000_1001 {
        Some(InstName::SfenceVma)
    } else if funct3 == 0b000 && funct12 == 0b0000_0000_0000 {
        Some(InstName::Ecall)
    } else if funct3 == 0b000 && funct12 == 0b0000_0000_0001 {
        Some(InstName::Ebreak)
    } else if funct3 == 0b000 && funct12 == 0b0001_0000_0010 {
        Some(InstName::Sret)
    } else if funct3 == 0b000 && funct12 == 0b0011_0000_0010 {
        Some(InstName::Mret)
    } else if funct3 == 0b000 && funct12 == 0b0001_0000_0101 {
        Some(InstName::Wfi)
    } else if funct3 == 0b001 {
        Some(InstName::Csrrw)
    } else if funct3 == 0b010 {
        Some(InstName::Csrrs)
    } else if funct3 == 0b011 {
        Some(InstName::Csrrc)
    } else if funct3 == 0b101 {
        Some(InstName::Csrrwi)
    } else if funct3 == 0b110 {
        Some(InstName::Csrrsi)
    } else if funct3 == 0b111 {
        Some(InstName::Csrrci)
    } else {
        None
    }
}

/// The atomic operation that `funct3` (the width) and the upper five bits of
/// `funct7` select.
pub open spec fn amo_name(funct3: u8, funct7: u8) -> Option<InstName> {
    let funct5 = (funct7 >> 2) & 0b1_1111;
    if funct3 == 0b010 && funct5 == 0b0_0010 {
        Some(InstName::LrW)
    } else if funct3 == 0b010 && funct5 == 0b0_0011 {
        Some(InstName::ScW)
    } else if funct3 == 0b010 && funct5 == 0b0_0001 {
        Some(InstName::AmoswapW)
    } else if funct3 == 0b010 && funct5 == 0b0_0000 {
        Some(InstName::AmoaddW)
    } else if funct3 == 0b010 && funct5 == 0b0_0100 {
        Some(InstName::AmoxorW)
    } else if funct3 == 0b010 && funct5 == 0b0_1100 {
        Some(InstName::AmoandW)
    } else if funct3 == 0b010 && funct5 == 0b0_1000 {
        Some(InstName::AmoorW)
    } else if funct3 == 0b010 && funct5 == 0b1_0000 {
        Some(InstName::AmominW)
    } else if funct3 == 0b010 && funct5 == 0b1_0100 {
        Some(InstName::AmomaxW)
    } else if funct3 == 0b010 && funct5 == 0b1_1000 {
        Some(InstName::AmominuW)
    } else if funct3 == 0b010 && funct5 == 0b1_1100 {
        Some(InstName::AmomaxuW)
    } else if funct3 == 0b011 && funct5 == 0b0_0010 {
        Some(InstName::LrD)
    } else if funct3 == 0b011 && funct5 == 0b0_0011 {
        Some(InstName::ScD)
    } else if funct3 == 0b011 && funct5 == 0b0_0001 {
        Some(InstName::AmoswapD)
    } else if funct3 == 0b011 && funct5 == 0b0_0000 {
        Some(InstName::AmoaddD)
    } else if funct3 == 0b011 && funct5 == 0b0_0100 {
        Some(InstName::AmoxorD)
    } else if funct3 == 0b011 && funct5 == 0b0_1100 {
        Some(InstName::AmoandD)
    } else if funct3 == 0b011 && funct5 == 0b0_1000 {
        Some(InstName::AmoorD)
    } else if funct3 == 0b011 && funct5 == 0b1_0000 {
        Some(InstName::AmominD)
    } else if funct3 == 0b011 && funct5 == 0b1_0100 {
        Some(InstName::AmomaxD)
    } else if funct3 == 0b011 && funct5 == 0b1_1000 {
        Some(InstName::AmominuD)
    } else if funct3 == 0b011 && funct5 == 0b1_1100 {
        Some(InstName::AmomaxuD)
    } else {
        None
    }
}

/// The register-immediate word operation that the funct fields select. A
/// word shift carries a five-bit amount: its sixth bit is reserved.
pub open spec fn op_imm_32_name(funct3: u8, funct7: u8) -> Option<InstName> {
    if funct3 == 0b000 {
        Some(InstName::Addiw)
    } else if funct3 == 0b001 && funct7 == 0b000_0000 {
        Some(InstName::Slliw)
    } else if funct3 == 0b101 && funct7 == 0b000_0000 {
        Some(InstName::Srliw)
    } else if funct3 == 0b101 && funct7 == 0b010_0000 {
        Some(InstName::Sraiw)
    } else {
        None
    }
}

/// The register-register word operation that the funct fields select.
pub open spec fn op_32_name(funct3: u8, funct7: u8) -> Option<InstName> {
    if funct3 == 0b000 && funct7 == 0b000_0000 {
        Some(InstName::Addw)
    } else if funct3 == 0b000 && funct7 == 0b010_0000 {
        Some(InstName::Subw)
    } else if funct3 == 0b000 && funct7 == 0b000_0001 {
        Some(InstName::Mulw)
    } else if funct3 == 0b001 && funct7 == 0b000_0000 {
        Some(InstName::Sllw)
    } else if funct3 == 0b100 && funct7 == 0b000_0001 {
        Some(InstName::Divw)
    } else if funct3 == 0b101 && funct7 == 0b000_0000 {
        Some(InstName::Srlw)
    } else if funct3 == 0b101 && funct7 == 0b010_0000 {
        Some(InstName::Sraw)
    } else if funct3 == 0b101 && funct7 == 0b000_0001 {
        Some(InstName::Divuw)
    } else if funct3 == 0b110 && funct7 == 0b000_0001 {
        Some(InstName::Remw)
    } else if funct3 == 0b111 && funct7 == 0b000_0001 {
        Some(InstName::Remuw)
    } else {
        None
    }
}

/// The operation that an instruction word names, by its major opcode and
/// funct fields; `None` where the combination names nothing.
pub open spec fn name_of(opcode: u8, funct3: u8, funct7: u8, funct12: u16) -> Option<InstName> {
    if opcode == OP_LUI {
        Some(InstName::Lui)
    } else if opcode == OP_AUIPC {
        Some(InstName::Auipc)
    } else if opcode == OP_JAL {
        Some(InstName::Jal)
    } else if opcode == OP_JALR {
        if funct3 == 0b000 {
            Some(InstName::Jalr)
        } else {
            None
        }
    } else if opcode == OP_BRANCH {
        branch_name(funct3)
    } else if opcode == OP_LOAD {
        load_name(funct3)
    } else if opcode == OP_STORE {
        store_name(funct3)
    } else if opcode == OP_OP_IMM {
        op_imm_name(funct3, funct7)
    } else if opcode == OP_OP {
        op_name(funct3, funct7)
    } else if opcode == OP_MISC_MEM {
        misc_mem_name(funct3)
    } else if opcode == OP_SYSTEM {
        system_name(funct3, funct7, funct12)
    } else if opcode == OP_AMO {
        amo_name(funct3, funct7)
    } else if opcode == OP_OP_IMM_32 {
        op_imm_32_name(funct3, funct7)
    } else if opcode == OP_OP_32 {
        op_32_name(funct3, funct7)
    } else {
        None
    }
}

/// Names the operation of an instruction word from its major opcode and
/// funct fields.
pub fn to_name(opcode: u8, funct3: u8, funct7: u8, funct12: u16) -> (r: Result<InstName, Error>)
    ensures
        match r {
            Ok(name) => name_of(opcode, funct3, funct7, funct12) == Some(name),
            Err(e) => e == Error::InvalidInstruction && name_of(opcode, funct3, funct7, funct12) is None,
        },
{
    let bad: Result<InstName, Error> = Err(Error::InvalidInstruction);
    match opcode {
        0b011_0111 => Ok(InstName::Lui),
        0b001_0111 => Ok(InstName::Auipc),
        0b110_1111 => Ok(InstName::Jal),
        0b110_0111 => match funct3 {
            0b000 => Ok(InstName::Jalr),
            _ => bad,
        },
        0b110_0011 => match funct3 {
            0b000 => Ok(InstName::Beq),
            0b001 => Ok(InstName::Bne),
            0b100 => Ok(InstName::Blt),
            0b101 => Ok(InstName::Bge),
            0b110 => Ok(InstName::Bltu),
            0b111 => Ok(InstName::Bgeu),
            _ => bad,
        },
        0b000_0011 => match funct3 {
            0b000 => Ok(InstName::Lb),
            0b001 => Ok(InstName::Lh),
            0b010 => Ok(InstName::Lw),
            0b100 => Ok(InstName::Lbu),
            0b101 => Ok(InstName::Lhu),
            0b110 => Ok(InstName::Lwu),
            0b011 => Ok(InstName::Ld),
            _ => bad,
        },
        0b010_0011 => match funct3 {
            0b000 => Ok(InstName::Sb),
            0b001 => Ok(InstName::Sh),
            0b010 => Ok(InstName::Sw),
            0b011 => Ok(InstName::Sd),
            _ => bad,
        },
        0b001_0011 => match funct3 {
            0b000 => Ok(InstName::Addi),
            0b010 => Ok(InstName::Slti),
            0b011 => Ok(InstName::Sltiu),
            0b100 => Ok(InstName::Xori),
            0b110 => Ok(InstName::Ori),
            0b111 => Ok(InstName::Andi),
            0b001 => match funct7 >> 1 {
                0b00_0000 => Ok(InstName::Slli),
                _ => bad,
            },
            0b101 => match funct7 >> 1 {
                0b00_0000 => Ok(InstName::Srli),
                0b01_0000 => Ok(InstName::Srai),
                _ => bad,
            },
            _ => bad,
        },
        0b011_0011 => match funct3 {
            0b000 => match funct7 {
                0b000_0000 => Ok(InstName::Add),
                0b010_0000 => Ok(InstName::Sub),
                0b000_0001 => Ok(InstName::Mul),
                _ => bad,
            },
            0b001 => match funct7 {
                0b000_0000 => Ok(InstName::Sll),
                0b000_0001 => Ok(InstName::Mulh),
                _ => bad,
            },
            0b010 => match funct7 {
                0b000_0000 => Ok(InstName::Slt),
                0b000_0001 => Ok(InstName::Mulhsu),
                _ => bad,
            },
            0b011 => match funct7 {
                0b000_0000 => Ok(InstName::Sltu),
                0b000_0001 => Ok(InstName::Mulhu),
                _ => bad,
            },
            0b100 => match funct7 {
                0b000_0000 => Ok(InstName::Xor),
                0b000_0001 => Ok(InstName::Div),
                _ => bad,
            },
            0b101 => match funct7 {
                0b000_0000 => Ok(InstName::Srl),
                0b010_0000 => Ok(InstName::Sra),
                0b000_0001 => Ok(InstName::Divu),
                _ => bad,
            },
            0b110 => match funct7 {
                0b000_0000 => Ok(InstName::Or),
                0b000_0001 => Ok(InstName::Rem),
                _ => bad,
            },
            0b111 => match funct7 {
                0b000_0000 => Ok(InstName::And),
                0b000_0001 => Ok(InstName::Remu),
                _ => bad,
            },
            _ => bad,
        },
        0b000_1111 => match funct3 {
            0b000 => Ok(InstName::Fence),
            0b001 => Ok(InstName::FenceI),
            _ => bad,
        },
        0b111_0011 => match funct3 {
            0b000 => match funct7 {
                0b000_1001 => Ok(InstName::SfenceVma),
                _ => match funct12 {
                    0b0000_0000_0000 => Ok(InstName::Ecall),
                    0b0000_0000_0001 => Ok(InstName::Ebreak),
                    0b0001_0000_0010 => Ok(InstName::Sret),
                    0b0011_0000_0010 => Ok(InstName::Mret),
                    0b0001_0000_0101 => Ok(InstName::Wfi),
                    _ => bad,
                },
            },
            0b001 => Ok(InstName::Csrrw),
            0b010 => Ok(InstName::Csrrs),
            0b011 => Ok(InstName::Csrrc),
            0b101 => Ok(InstName::Csrrwi),
            0b110 => Ok(InstName::Csrrsi),
            0b111 => Ok(InstName::Csrrci),
            _ => bad,
        },
        0b010_1111 => {
            let funct5 = (funct7 >> 2) & 0b1_1111;
            match funct3 {
                0b010 => match funct5 {
                    0b0_0010 => Ok(InstName::LrW),
                    0b0_0011 => Ok(InstName::ScW),
                    0b0_0001 => Ok(InstName::AmoswapW),
                    0b0_0000 => Ok(InstName::AmoaddW),
                    0b0_0100 => Ok(InstName::AmoxorW),
                    0b0_1100 => Ok(InstName::AmoandW),
                    0b0_1000 => Ok(InstName::AmoorW),
                    0b1_0000 => Ok(InstName::AmominW),
                    0b1_0100 => Ok(InstName::AmomaxW),
                    0b1_1000 => Ok(InstName::AmominuW),
                    0b1_1100 => Ok(InstName::AmomaxuW),
                    _ => bad,
                },
                0b011 => match funct5 {
                    0b0_0010 => Ok(InstName::LrD),
                    0b0_0011 => Ok(InstName::ScD),
                    0b0_0001 => Ok(InstName::AmoswapD),
                    0b0_0000 => Ok(InstName::AmoaddD),
                    0b0_0100 => Ok(InstName::AmoxorD),
                    0b0_1100 => Ok(InstName::AmoandD),
                    0b0_1000 => Ok(InstName::AmoorD),
                    0b1_0000 => Ok(InstName::AmominD),
                    0b1_0100 => Ok(InstName::AmomaxD),
                    0b1_1000 => Ok(InstName::AmominuD),
                    0b1_1100 => Ok(InstName::AmomaxuD),
                    _ => bad,
                },
                _ => bad,
            }
        },
        0b001_1011 => match funct3 {
            0b000 => Ok(InstName::Addiw),
            0b001 => match funct7 {
                0b000_0000 => Ok(InstName::Slliw),
                _ => bad,
            },
            0b101 => match funct7 {
                0b000_0000 => Ok(InstName::Srliw),
                0b010_0000 => Ok(InstName::Sraiw),
                _ => bad,
            },
            _ => bad,
        },
        0b011_1011 => match funct3 {
            0b000 => match funct7 {
                0b000_0000 => Ok(InstName::Addw),
                0b010_0000 => Ok(InstName::Subw),
                0b000_0001 => Ok(InstName::Mulw),
                _ => bad,
            },
            0b001 => match funct7 {
                0b000_0000 => Ok(InstName::Sllw),
                _ => bad,
            },
            0b100 => match funct7 {
                0b000_0001 => Ok(InstName::Divw),
                _ => bad,
            },
            0b101 => match funct7 {
                0b000_0000 => Ok(InstName::Srlw),
                0b010_0000 => Ok(InstName::Sraw),
                0b000_0001 => Ok(InstName::Divuw),
                _ => bad,
            },
            0b110 => match funct7 {
                0b000_0001 => Ok(InstName::Remw),
                _ => bad,
            },
            0b111 => match funct7 {
                0b000_0001 => Ok(InstName::Remuw),
                _ => bad,
            },
            _ => bad,
        },
        _ => bad,
    }
}
/// The five-bit register field that starts at bit `shift` of an instruction word.
pub open spec fn reg_field(inst: u32, shift: u32) -> u8 {
    ((inst >> shift) & 0b1_1111) as u8
}

/// `funct3`, `funct7` and `funct12` of an instruction word: bits 14..12,
/// 31..25 and 31..20.
pub open spec fn funct_of(inst: u32) -> (u8, u8, u16) {
    (((inst >> 12) & 0b111) as u8, ((inst >> 25) & 0b111_1111) as u8, ((inst >> 20) & 0b1111_1111_1111) as u16)
}

/// The immediate of an instruction word in the given encoding, assembled from
/// its bit fields and not yet sign-extended.
pub open spec fn imm_of(inst: u32, fmt: InstFmt) -> u32 {
    match fmt {
        InstFmt::R => 0,
        InstFmt::I => (inst >> 20) & 0xFFF,
        InstFmt::S => (((inst >> 25) & 0x7F) << 5) | ((inst >> 7) & 0x1F),
        InstFmt::B => (((inst >> 31) & 0x1) << 12) | (((inst >> 7) & 0x1) << 11) | (((inst >> 25) & 0x3F) << 5)
            | (((inst >> 8) & 0xF) << 1),
        InstFmt::U => inst >> 12,
        InstFmt::J => (((inst >> 31) & 0x1) << 20) | (((inst >> 12) & 0xFF) << 12) | (((inst >> 20) & 0x1) << 11)
            | (((inst >> 21) & 0x3FF) << 1),
    }
}

/// Whether `imm` is an immediate that the encoding can carry: it fits the
/// encoding's width, and its lowest bit is clear where the encoding has none.
pub open spec fn valid_imm(fmt: InstFmt, imm: u32) -> bool {
    match fmt {
        InstFmt::R => imm == 0,
        InstFmt::I | InstFmt::S => imm < 0x1000,
        InstFmt::B => imm < 0x2000 && imm & 1 == 0,
        InstFmt::U => imm < 0x10_0000,
        InstFmt::J => imm < 0x20_0000 && imm & 1 == 0,
    }
}

/// The bits of an instruction word that hold the immediate of the encoding.
pub open spec fn imm_mask(fmt: InstFmt) -> u32 {
    match fmt {
        InstFmt::R => 0,
        InstFmt::I => 0xFFF0_0000,
        InstFmt::S | InstFmt::B => 0xFE00_0F80,
        InstFmt::U | InstFmt::J => 0xFFFF_F000,
    }
}

/// The immediate laid out in the bits that the encoding gives it, all other
/// bits of the word clear.
pub open spec fn encode_imm_spec(fmt: InstFmt, imm: u32) -> u32 {
    match fmt {
        InstFmt::R => 0,
        InstFmt::I => (imm & 0xFFF) << 20,
        InstFmt::S => (((imm >> 5) & 0x7F) << 25) | ((imm & 0x1F) << 7),
        InstFmt::B => (((imm >> 12) & 0x1) << 31) | (((imm >> 5) & 0x3F) << 25) | (((imm >> 1) & 0xF) << 8) | (((imm
            >> 11) & 0x1) << 7),
        InstFmt::U => (imm & 0xF_FFFF) << 12,
        InstFmt::J => (((imm >> 20) & 0x1) << 31) | (((imm >> 1) & 0x3FF) << 21) | (((imm >> 11) & 0x1) << 20) | (((imm
            >> 12) & 0xFF) << 12),
    }
}

/// Lays an immediate out in the bits that the encoding gives it.
pub fn encode_imm(fmt: InstFmt, imm: u32) -> (r: u32)
    ensures
        r == encode_imm_spec(fmt, imm),
{
    match fmt {
        InstFmt::R => 0,
        InstFmt::I => (imm & 0xFFF) << 20,
        InstFmt::S => (((imm >> 5) & 0x7F) << 25) | ((imm & 0x1F) << 7),
        InstFmt::B => (((imm >> 12) & 0x1) << 31) | (((imm >> 5) & 0x3F) << 25) | (((imm >> 1) & 0xF) << 8) | (((imm
            >> 11) & 0x1) << 7),
        InstFmt::U => (imm & 0xF_FFFF) << 12,
        InstFmt::J => (((imm >> 20) & 0x1) << 31) | (((imm >> 1) & 0x3FF) << 21) | (((imm >> 11) & 0x1) << 20) | (((imm
            >> 12) & 0xFF) << 12),
    }
}

/// Decoding after encoding gives the immediate back: whatever the other bits
/// of the word hold, an immediate that the encoding can carry is read back
/// unchanged from the word it was laid out in.
pub proof fn lemma_decode_encode_imm(fmt: InstFmt, imm: u32, rest: u32)
    requires
        valid_imm(fmt, imm),
    ensures
        imm_of((rest & !imm_mask(fmt)) | encode_imm_spec(fmt, imm), fmt) == imm,
{
    assert({
        &&& (imm < 0x1000 ==> imm_of((rest & !imm_mask(InstFmt::I)) | encode_imm_spec(InstFmt::I, imm), InstFmt::I)
            == imm)
        &&& (imm < 0x1000 ==> imm_of((rest & !imm_mask(InstFmt::S)) | encode_imm_spec(InstFmt::S, imm), InstFmt::S)
            == imm)
        &&& (imm < 0x2000 && imm & 1 == 0 ==> imm_of(
            (rest & !imm_mask(InstFmt::B)) | encode_imm_spec(InstFmt::B, imm),
            InstFmt::B,
        ) == imm)
        &&& (imm < 0x10_0000 ==> imm_of(
            (rest & !imm_mask(InstFmt::U)) | encode_imm_spec(InstFmt::U, imm),
            InstFmt::U,
        ) == imm)
        &&& (imm < 0x20_0000 && imm & 1 == 0 ==> imm_of(
            (rest & !imm_mask(InstFmt::J)) | encode_imm_spec(InstFmt::J, imm),
            InstFmt::J,
        ) == imm)
    }) by (bit_vector);
}

/// Encoding after decoding gives the word's immediate bits back, and what the
/// decoder reads is always an immediate that the encoding can carry.
pub proof fn lemma_encode_decode_imm(fmt: InstFmt, inst: u32)
    ensures
        valid_imm(fmt, imm_of(inst, fmt)),
        encode_imm_spec(fmt, imm_of(inst, fmt)) == inst & imm_mask(fmt),
{
    assert({
        &&& imm_of(inst, InstFmt::I) < 0x1000
        &&& imm_of(inst, InstFmt::S) < 0x1000
        &&& imm_of(inst, InstFmt::B) < 0x2000
        &&& imm_of(inst, InstFmt::B) & 1 == 0
        &&& imm_of(inst, InstFmt::U) < 0x10_0000
        &&& imm_of(inst, InstFmt::J) < 0x20_0000
        &&& imm_of(inst, InstFmt::J) & 1 == 0
        &&& encode_imm_spec(InstFmt::R, imm_of(inst, InstFmt::R)) == inst & imm_mask(InstFmt::R)
        &&& encode_imm_spec(InstFmt::I, imm_of(inst, InstFmt::I)) == inst & imm_mask(InstFmt::I)
        &&& encode_imm_spec(InstFmt::S, imm_of(inst, InstFmt::S)) == inst & imm_mask(InstFmt::S)
        &&& encode_imm_spec(InstFmt::B, imm_of(inst, InstFmt::B)) == inst & imm_mask(InstFmt::B)
        &&& encode_imm_spec(InstFmt::U, imm_of(inst, InstFmt::U)) == inst & imm_mask(InstFmt::U)
        &&& encode_imm_spec(InstFmt::J, imm_of(inst, InstFmt::J)) == inst & imm_mask(InstFmt::J)
    }) by (bit_vector);
}

/// Extracts `funct3`, `funct7` and `funct12` from an instruction word.
pub fn to_funct(inst: u32) -> (r: (u8, u8, u16))
    ensures
        r == funct_of(inst),
{
    let funct3 = (inst >> 12 & 0b111) as u8;
    let funct7 = (inst >> 25 & 0b111_1111) as u8;
    let funct12 = (inst >> 20 & 0b1111_1111_1111) as u16;
    (funct3, funct7, funct12)
}

/// The register fields and the immediate that the encoding defines, as
/// `(rs1, rs2, rd, imm)`; a field that the encoding lacks is 0.
pub open spec fn ri_of(inst: u32, fmt: InstFmt) -> (u8, u8, u8, u32) {
    let rs1 = reg_field(inst, 15);
    let rs2 = reg_field(inst, 20);
    let rd = reg_field(inst, 7);
    let imm = imm_of(inst, fmt);
    match fmt {
        InstFmt::R => (rs1, rs2, rd, imm),
        InstFmt::I => (rs1, 0, rd, imm),
        InstFmt::S | InstFmt::B => (rs1, rs2, 0, imm),
        InstFmt::U | InstFmt::J => (0, 0, rd, imm),
    }
}

/// Extracts the register fields and assembles the immediate of an
/// instruction word in the given encoding.
pub fn to_ri(inst: u32, fmt: InstFmt) -> (r: (u8, u8, u8, u32))
    ensures
        r == ri_of(inst, fmt),
        r.0 < 32,
        r.1 < 32,
        r.2 < 32,
        valid_imm(fmt, r.3),
{
    let mut rs1: u8 = 0;
    let mut rs2: u8 = 0;
    let mut rd: u8 = 0;
    let mut imm: u32 = 0;
    proof {
        assert(((inst >> 15u32) & 0b1_1111) < 32 && ((inst >> 20u32) & 0b1_1111) < 32 && ((inst >> 7u32) & 0b1_1111)
            < 32) by (bit_vector);
        lemma_encode_decode_imm(fmt, inst);
    }
    match fmt {
        InstFmt::R => {
            rs1 = (inst >> 15 & 0b1_1111) as u8;
            rs2 = (inst >> 20 & 0b1_1111) as u8;
            rd = (inst >> 7 & 0b1_1111) as u8;
        },
        InstFmt::I => {
            rs1 = (inst >> 15 & 0b1_1111) as u8;
            rd = (inst >> 7 & 0b1_1111) as u8;
            imm = inst >> 20 & 0b1111_1111_1111;
        },
        InstFmt::S => {
            rs1 = (inst >> 15 & 0b1_1111) as u8;
            rs2 = (inst >> 20 & 0b1_1111) as u8;
            imm = inst >> 25 & 0b111_1111;
            imm <<= 5;
            imm |= inst >> 7 & 0b1_1111;
        },
        InstFmt::B => {
            rs1 = (inst >> 15 & 0b1_1111) as u8;
            rs2 = (inst >> 20 & 0b1_1111) as u8;
            imm = inst >> 31 & 0b1;
            imm <<= 1;
            imm |= inst >> 7 & 0b1;
            imm <<= 6;
            imm |= inst >> 25 & 0b11_1111;
            imm <<= 4;
            imm |= inst >> 8 & 0b1111;
            imm <<= 1;
            assert((((((((inst >> 31u32 & 0b1u32) << 1u32) | (inst >> 7u32 & 0b1u32)) << 6u32) | (inst >> 25u32
                & 0b11_1111u32)) << 4u32) | (inst >> 8u32 & 0b1111u32)) << 1u32 == imm_of(inst, InstFmt::B))
                by (bit_vector);
        },
        InstFmt::U => {
            rd = (inst >> 7 & 0b1_1111) as u8;
            imm = inst >> 12;
        },
        InstFmt::J => {
            rd = (inst >> 7 & 0b1_1111) as u8;
            imm = inst >> 31 & 0b1;
            imm <<= 8;
            imm |= inst >> 12 & 0b1111_1111;
            imm <<= 1;
            imm |= inst >> 20 & 0b1;
            imm <<= 10;
            imm |= inst >> 21 & 0b11_1111_1111;
            imm <<= 1;
            assert((((((((inst >> 31u32 & 0b1u32) << 8u32) | (inst >> 12u32 & 0b1111_1111u32)) << 1u32) | (inst
                >> 20u32 & 0b1u32)) << 10u32) | (inst >> 21u32 & 0b11_1111_1111u32)) << 1u32 == imm_of(
                inst,
                InstFmt::J,
            )) by (bit_vector);
        },
    }
    (rs1, rs2, rd, imm)
}

/// A decoded instruction. The decoder is its only producer.
#[derive(Debug, Clone, Copy, PartialEq, Eq, Structural)]
pub struct Instruction {
    /// Major opcode, 7 bits.
    pub opcode: u8,
    pub name: InstName,
    pub fmt: InstFmt,
    /// First source register, 5 bits.
    pub rs1: u8,
    /// Second source register, 5 bits.
    pub rs2: u8,
    /// Destination register, 5 bits.
    pub rd: u8,
    /// The immediate as the word holds it, not sign-extended.
    pub imm: u32,
    /// The instruction word.
    pub raw_inst: u32,
}

/// What decoding an instruction word gives: the record of its fields, or
/// `InvalidInstruction` where the opcode is unknown or the funct fields name
/// no operation.
pub open spec fn decode_spec(inst: u32) -> Result<Instruction, Error> {
    let opcode = (inst & 0b0111_1111) as u8;
    let (funct3, funct7, funct12) = funct_of(inst);
    match (format_of(opcode), name_of(opcode, funct3, funct7, funct12)) {
        (Some(fmt), Some(name)) => {
            let (rs1, rs2, rd, imm) = ri_of(inst, fmt);
            Ok(Instruction { opcode, name, fmt, rs1, rs2, rd, imm, raw_inst: inst })
        },
        _ => Err(Error::InvalidInstruction),
    }
}

impl Instruction {
    /// The fields fit their widths and the immediate fits the encoding.
    pub open spec fn wf(&self) -> bool {
        &&& self.opcode < 128
        &&& self.rs1 < 32
        &&& self.rs2 < 32
        &&& self.rd < 32
        &&& valid_imm(self.fmt, self.imm)
    }

    /// Decodes an instruction word.
    pub fn decode(inst: u32) -> (r: Result<Instruction, Error>)
        ensures
            r == decode_spec(inst),
            r matches Ok(i) ==> i.wf() && i.raw_inst == inst,
    {
        let opcode = (inst & 0b0111_1111) as u8;
        assert((inst & 0b0111_1111) < 128) by (bit_vector);
        let (funct3, funct7, funct12) = to_funct(inst);
        let fmt = match to_format(opcode) {
            Ok(fmt) => fmt,
            Err(e) => {
                return Err(e);
            },
        };
        let name = match to_name(opcode, funct3, funct7, funct12) {
            Ok(name) => name,
            Err(e) => {
                return Err(e);
            },
        };
        let (rs1, rs2, rd, imm) = to_ri(inst, fmt);
        Ok(Instruction { opcode, name, fmt, rs1, rs2, rd, imm, raw_inst: inst })
    }
}

/// A shift by an immediate is legal exactly if the bits above its six-bit
/// amount are clear, or, for the arithmetic right shift, are `010000`: an
/// amount of 63 can be written and an amount of 64 cannot. The amount that
/// is decoded is the low six bits of the immediate.
pub proof fn lemma_shift_immediate(inst: u32)
    requires
        inst & 0b0111_1111 == OP_OP_IMM,
    ensures
        (inst >> 12) & 0b111 == 0b001 ==> (decode_spec(inst) is Ok <==> inst >> 26 == 0),
        (inst >> 12) & 0b111 == 0b101 ==> (decode_spec(inst) is Ok <==> inst >> 26 == 0 || inst >> 26 == 0b01_0000),
        decode_spec(inst) matches Ok(i) ==> i.imm & 0x3F == (inst >> 20) & 0x3F && i.imm & 0x3F < 64,
{
    assert({
        let funct7 = ((inst >> 25) & 0b111_1111) as u8;
        let funct3 = ((inst >> 12) & 0b111) as u8;
        &&& (funct7 >> 1 == 0b00_0000) == (inst >> 26 == 0)
        &&& (funct7 >> 1 == 0b01_0000) == (inst >> 26 == 0b01_0000)
        &&& funct3 == (inst >> 12) & 0b111
        &&& (inst & 0b0111_1111) as u8 == inst & 0b0111_1111
        &&& ((inst >> 20) & 0xFFF) & 0x3F == (inst >> 20) & 0x3F
        &&& ((inst >> 20) & 0xFFF) & 0x3F < 64
    }) by (bit_vector);
}

/// What the decoder gives is well formed: its fields fit their widths and
/// its immediate fits its encoding.
pub proof fn lemma_decode_well_formed(inst: u32)
    ensures
        decode_spec(inst) matches Ok(i) ==> i.wf() && i.raw_inst == inst,
{
    assert(((inst >> 15u32) & 0b1_1111) < 32 && ((inst >> 20u32) & 0b1_1111) < 32 && ((inst >> 7u32) & 0b1_1111) < 32
        && (inst & 0b0111_1111) < 128) by (bit_vector);
    if decode_spec(inst) is Ok {
        let i = decode_spec(inst).unwrap();
        lemma_encode_decode_imm(i.fmt, inst);
    }
}

/// The part of the instruction set that an operation belongs to.
#[derive(Debug, Clone, Copy, PartialEq, Eq, Structural)]
pub enum InstGroup {
    /// The base integer instructions.
    Integer,
    /// Multiplication and division.
    MulDiv,
    /// CSR and privileged instructions.
    System,
    /// Atomic instructions.
    Atomic,
}

/// The part of the instruction set that an operation belongs to.
pub open spec fn group_of(name: InstName) -> InstGroup {
    match name {
        InstName::Mul | InstName::Mulh | InstName::Mulhsu | InstName::Mulhu | InstName::Div | InstName::Divu | InstName::Rem | InstName::Remu | InstName::Mulw | InstName::Divw | InstName::Divuw | InstName::Remw | InstName::Remuw => InstGroup::MulDiv,
        InstName::Ecall | InstName::Ebreak | InstName::Csrrw | InstName::Csrrs | InstName::Csrrc | InstName::Csrrwi | InstName::Csrrsi | InstName::Csrrci | InstName::Sret | InstName::Mret | InstName::Wfi | InstName::SfenceVma => InstGroup::System,
        InstName::LrW | InstName::ScW | InstName::AmoswapW | InstName::AmoaddW | InstName::AmoxorW | InstName::AmoandW | InstName::AmoorW | InstName::AmominW | InstName::AmomaxW | InstName::AmominuW | InstName::AmomaxuW | InstName::LrD | InstName::ScD | InstName::AmoswapD | InstName::AmoaddD | InstName::AmoxorD | InstName::AmoandD | InstName::AmoorD | InstName::AmominD | InstName::AmomaxD | InstName::AmominuD | InstName::AmomaxuD => InstGroup::Atomic,
        _ => InstGroup::Integer,
    }
}

} // verus!
