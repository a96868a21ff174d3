use kotodori::bus::{Bus, Width};
use kotodori::conf::{MEM_OFF, STACK_BOTTOM};
use kotodori::cpu::atomic::{amo_apply, AmoOp};
use kotodori::cpu::instructions::Instruction;
use kotodori::cpu::register::{MEPC, MSCRATCH, MSTATUS, SEPC, SSTATUS};
use kotodori::cpu::{Cpu, Mode};
use kotodori::dram::Dram;
use kotodori::error::Error;
use kotodori::plic::Plic;
use kotodori::uart::Uart;
use kotodori::virtio::Virtio;

const NEG1: u64 = u64::MAX;

fn cpu_with(mem_size: usize) -> Cpu {
    let bus = Bus::new(Dram::new(mem_size), Uart::new(), Plic::new(), Virtio::new());
    let mut cpu = Cpu::new(bus, mem_size, kotodori::dbg::Debug::new(false, 0));
    cpu.reg.set_pc(MEM_OFF);
    cpu
}

fn r_type(funct7: u32, rs2: u32, rs1: u32, funct3: u32, rd: u32, opcode: u32) -> Instruction {
    Instruction::decode((funct7 << 25) | (rs2 << 20) | (rs1 << 15) | (funct3 << 12) | (rd << 7) | opcode).unwrap()
}

fn i_type(imm: u32, rs1: u32, funct3: u32, rd: u32, opcode: u32) -> Instruction {
    Instruction::decode(((imm & 0xFFF) << 20) | (rs1 << 15) | (funct3 << 12) | (rd << 7) | opcode).unwrap()
}

fn s_type(imm: u32, rs2: u32, rs1: u32, funct3: u32) -> Instruction {
    let word = ((imm >> 5 & 0x7F) << 25) | (rs2 << 20) | (rs1 << 15) | (funct3 << 12) | ((imm & 0x1F) << 7) | 0x23;
    Instruction::decode(word).unwrap()
}

fn b_type(imm: u32, rs2: u32, rs1: u32, funct3: u32) -> Instruction {
    let word = ((imm >> 12 & 1) << 31)
        | ((imm >> 5 & 0x3F) << 25)
        | (rs2 << 20)
        | (rs1 << 15)
        | (funct3 << 12)
        | ((imm >> 1 & 0xF) << 8)
        | ((imm >> 11 & 1) << 7)
        | 0x63;
    Instruction::decode(word).unwrap()
}

/// Executes `x3 = x1 op x2` and gives `x3`.
fn rr(opcode: u32, funct3: u32, funct7: u32, a: u64, b: u64) -> u64 {
    let mut cpu = cpu_with(0);
    cpu.reg.set_reg(1, a);
    cpu.reg.set_reg(2, b);
    assert_eq!(cpu.exec_instruction(&r_type(funct7, 2, 1, funct3, 3, opcode)), Ok(()));
    assert_eq!(cpu.reg.get_reg(1), a);
    assert_eq!(cpu.reg.get_reg(2), b);
    assert_eq!(cpu.reg.pc, MEM_OFF);
    cpu.reg.get_reg(3)
}

/// Executes `x3 = x1 op imm` and gives `x3`.
fn ri(opcode: u32, funct3: u32, imm: u32, a: u64) -> u64 {
    let mut cpu = cpu_with(0);
    cpu.reg.set_reg(1, a);
    assert_eq!(cpu.exec_instruction(&i_type(imm, 1, funct3, 3, opcode)), Ok(()));
    assert_eq!(cpu.reg.pc, MEM_OFF);
    cpu.reg.get_reg(3)
}

#[test]
fn init_sets_stack_and_entry() {
    let mut cpu = cpu_with(0);
    cpu.init(0x8000_1234);
    assert_eq!(cpu.reg.get_reg(2), STACK_BOTTOM);
    assert_eq!(cpu.reg.pc, 0x8000_1234);
    assert_eq!(cpu.mode, Mode::M);
    assert_eq!((cpu.mtime, cpu.mtimecmp), (0, 0));
    assert!(cpu.is_well_formed());
}

#[test]
fn register_register_arithmetic() {
    const OP: u32 = 0b011_0011;
    assert_eq!(rr(OP, 0, 0, 5, 7), 12);
    assert_eq!(rr(OP, 0, 0, NEG1, 2), 1);
    assert_eq!(rr(OP, 0, 0x20, 5, 7), 0xFFFF_FFFF_FFFF_FFFE);
    assert_eq!(rr(OP, 1, 0, 1, 63), 1 << 63);
    // only the low six bits of the amount count
    assert_eq!(rr(OP, 1, 0, 1, 64 + 3), 8);
    assert_eq!(rr(OP, 2, 0, NEG1, 1), 1);
    assert_eq!(rr(OP, 2, 0, 1, NEG1), 0);
    assert_eq!(rr(OP, 3, 0, NEG1, 1), 0);
    assert_eq!(rr(OP, 3, 0, 1, NEG1), 1);
    assert_eq!(rr(OP, 4, 0, 0b1100, 0b1010), 0b0110);
    assert_eq!(rr(OP, 5, 0, 1 << 63, 63), 1);
    assert_eq!(rr(OP, 5, 0, 1 << 63, 32), 1 << 31);
    assert_eq!(rr(OP, 5, 0x20, 1 << 63, 63), NEG1);
    assert_eq!(rr(OP, 5, 0x20, 1 << 63, 32), 0xFFFF_FFFF_8000_0000);
    assert_eq!(rr(OP, 6, 0, 0b1100, 0b1010), 0b1110);
    assert_eq!(rr(OP, 7, 0, 0b1100, 0b1010), 0b1000);
}

#[test]
fn register_immediate_arithmetic() {
    const OP: u32 = 0b001_0011;
    assert_eq!(ri(OP, 0, 1, 0), 1);
    assert_eq!(ri(OP, 0, 0xFFF, 0), NEG1);
    assert_eq!(ri(OP, 0, 0x800, 0x1000), 0x800);
    assert_eq!(ri(OP, 0, 0x7FF, NEG1), 0x7FE);
    assert_eq!(ri(OP, 2, 0xFFF, 0xFFFF_FFFF_FFFF_FFFE), 1);
    assert_eq!(ri(OP, 2, 0xFFF, 0), 0);
    assert_eq!(ri(OP, 3, 0xFFF, 0), 1);
    assert_eq!(ri(OP, 3, 1, 0), 1);
    assert_eq!(ri(OP, 3, 0, 0), 0);
    assert_eq!(ri(OP, 4, 0xFFF, 0xF0), 0xFFFF_FFFF_FFFF_FF0F);
    assert_eq!(ri(OP, 6, 0x800, 1), 0xFFFF_FFFF_FFFF_F801);
    assert_eq!(ri(OP, 7, 0x0F0, 0xFFFF), 0xF0);
    assert_eq!(ri(OP, 7, 0xFFF, 0x1234_5678_9ABC_DEF0), 0x1234_5678_9ABC_DEF0);
    assert_eq!(ri(OP, 1, 63, 1), 1 << 63);
    assert_eq!(ri(OP, 1, 4, 0xF000_0000_0000_000F), 0xF0);
    assert_eq!(ri(OP, 5, 63, 1 << 63), 1);
    assert_eq!(ri(OP, 5, 0x400 | 63, 1 << 63), NEG1);
    assert_eq!(ri(OP, 5, 0x400 | 4, 0x70), 7);
}

#[test]
fn word_arithmetic_is_sign_extended() {
    const OP32: u32 = 0b011_1011;
    const IMM32: u32 = 0b001_1011;
    assert_eq!(rr(OP32, 0, 0, 0x7FFF_FFFF, 1), 0xFFFF_FFFF_8000_0000);
    assert_eq!(rr(OP32, 0, 0, 0xFFFF_FFFF, 1), 0);
    assert_eq!(rr(OP32, 0, 0x20, 0, 1), NEG1);
    assert_eq!(rr(OP32, 0, 0x20, 0x1_0000_0005, 3), 2);
    assert_eq!(rr(OP32, 1, 0, 1, 31), 0xFFFF_FFFF_8000_0000);
    // only the low five bits of the amount count
    assert_eq!(rr(OP32, 1, 0, 1, 32 + 4), 16);
    assert_eq!(rr(OP32, 5, 0, 0xFFFF_FFFF_8000_0000, 31), 1);
    assert_eq!(rr(OP32, 5, 0, 0xFFFF_FFFF_8000_0000, 0), 0xFFFF_FFFF_8000_0000);
    assert_eq!(rr(OP32, 5, 0x20, 0x8000_0000, 31), NEG1);
    assert_eq!(rr(OP32, 5, 0x20, 0x1234_5678_4000_0000, 30), 1);
    assert_eq!(ri(IMM32, 0, 1, 0x7FFF_FFFF), 0xFFFF_FFFF_8000_0000);
    assert_eq!(ri(IMM32, 0, 0xFFF, 0), NEG1);
    assert_eq!(ri(IMM32, 0, 0, 0x1234_5678_9ABC_DEF0), 0xFFFF_FFFF_9ABC_DEF0);
    assert_eq!(ri(IMM32, 1, 31, 1), 0xFFFF_FFFF_8000_0000);
    assert_eq!(ri(IMM32, 1, 4, 0xFFFF_FFFF), 0xFFFF_FFFF_FFFF_FFF0);
    assert_eq!(ri(IMM32, 5, 4, 0xFFFF_FFFF_FFFF_FFFF), 0x0FFF_FFFF);
    assert_eq!(ri(IMM32, 5, 0x400 | 4, 0x8000_0000), 0xFFFF_FFFF_F800_0000);
    for v in [
        rr(OP32, 0, 0, 0x7FFF_FFFF, 1),
        rr(OP32, 0, 1, 0xFFFF, 0x1_0001),
        rr(OP32, 4, 1, 0x8000_0000, 3),
        ri(IMM32, 1, 31, 3),
    ] {
        assert_eq!(v >> 32, if (v >> 31) & 1 == 1 { 0xFFFF_FFFF } else { 0 });
    }
}

#[test]
fn multiply_and_divide_instructions() {
    const OP: u32 = 0b011_0011;
    const OP32: u32 = 0b011_1011;
    assert_eq!(rr(OP, 0, 1, 6, 7), 42);
    assert_eq!(rr(OP, 0, 1, NEG1, NEG1), 1);
    assert_eq!(rr(OP, 0, 1, 1 << 63, 2), 0);
    assert_eq!(rr(OP, 1, 1, NEG1, NEG1), 0);
    assert_eq!(rr(OP, 2, 1, NEG1, NEG1), NEG1);
    assert_eq!(rr(OP, 3, 1, NEG1, NEG1), 0xFFFF_FFFF_FFFF_FFFE);
    assert_eq!(rr(OP, 4, 1, 0xFFFF_FFFF_FFFF_FFF9, 2), 0xFFFF_FFFF_FFFF_FFFD);
    assert_eq!(rr(OP, 4, 1, 7, 0), NEG1);
    assert_eq!(rr(OP, 5, 1, 0xFFFF_FFFF_FFFF_FFF9, 2), 0x7FFF_FFFF_FFFF_FFFC);
    assert_eq!(rr(OP, 6, 1, 0xFFFF_FFFF_FFFF_FFF9, 2), NEG1);
    assert_eq!(rr(OP, 6, 1, 7, 0), 7);
    assert_eq!(rr(OP, 7, 1, 0xFFFF_FFFF_FFFF_FFF9, 2), 1);
    assert_eq!(rr(OP32, 0, 1, 0x1_0000_0003, 0x8000_0000), 0xFFFF_FFFF_8000_0000);
    assert_eq!(rr(OP32, 0, 1, 0x10000, 0x10000), 0);
    assert_eq!(rr(OP32, 4, 1, 0xFFFF_FFF9, 2), 0xFFFF_FFFF_FFFF_FFFD);
    assert_eq!(rr(OP32, 5, 1, 0xFFFF_FFF9, 2), 0x7FFF_FFFC);
    assert_eq!(rr(OP32, 6, 1, 0xFFFF_FFF9, 2), NEG1);
    assert_eq!(rr(OP32, 7, 1, 0xFFFF_FFF9, 2), 1);
}

#[test]
fn upper_immediates() {
    let mut cpu = cpu_with(0);
    cpu.reg.set_pc(0x8000_1000);
    // auipc x5, 0x12345
    cpu.auipc(&Instruction::decode(0x1234_5297).unwrap());
    assert_eq!(cpu.reg.get_reg(5), 0x8000_1000 + 0x1234_5000);
    // auipc x5, 0xFFFFF
    cpu.auipc(&Instruction::decode(0xFFFF_F297).unwrap());
    assert_eq!(cpu.reg.get_reg(5), 0x8000_0000);
    // lui x5, 0x80000
    cpu.lui(&Instruction::decode(0x8000_02B7).unwrap());
    assert_eq!(cpu.reg.get_reg(5), 0xFFFF_FFFF_8000_0000);
    // lui x0, 0x1 writes nothing
    cpu.lui(&Instruction::decode(0x0000_1037).unwrap());
    assert_eq!(cpu.reg.get_reg(0), 0);
    assert_eq!(cpu.reg.pc, 0x8000_1000);
}

#[test]
fn jumps() {
    let mut cpu = cpu_with(0);
    cpu.reg.set_pc(0x8000_0010);
    // jal x0, -4
    cpu.jal(&Instruction::decode(0xFFDF_F06F).unwrap());
    assert_eq!(cpu.reg.pc, 0x8000_000C);
    assert_eq!(cpu.reg.get_reg(0), 0);
    // jalr x1, 7(x5): bit 0 of the target is cleared
    cpu.reg.set_reg(5, 0x8000_0100);
    cpu.jalr(&i_type(7, 5, 0, 1, 0b110_0111));
    assert_eq!(cpu.reg.pc, 0x8000_0106);
    assert_eq!(cpu.reg.get_reg(1), 0x8000_0010);
    // jalr x5, -16(x5): the source is read before the link is written
    cpu.jalr(&i_type(0xFF0, 5, 0, 5, 0b110_0111));
    assert_eq!(cpu.reg.pc, 0x8000_00F0);
    assert_eq!(cpu.reg.get_reg(5), 0x8000_010A);
}

#[test]
fn branches() {
    let cases: [(u32, u64, u64, bool); 14] = [
        (0, 5, 5, true),
        (0, 5, 6, false),
        (1, 5, 6, true),
        (1, 5, 5, false),
        (4, NEG1, 0, true),
        (4, 0, NEG1, false),
        (4, 3, 3, false),
        (5, 0, NEG1, true),
        (5, 3, 3, true),
        (5, NEG1, 0, false),
        (6, 0, NEG1, true),
        (6, NEG1, 0, false),
        (7, NEG1, 0, true),
        (7, 0, NEG1, false),
    ];
    for (funct3, a, b, taken) in cases {
        for (imm, target) in [(0x10u32, 0x8000_0110u64), (0x1FFC, 0x8000_00FC), (0x1000, 0x7FFF_F100), (0xFFE, 0x8000_10FE)] {
            let mut cpu = cpu_with(0);
            cpu.reg.set_pc(0x8000_0100);
            cpu.reg.set_reg(1, a);
            cpu.reg.set_reg(2, b);
            assert_eq!(cpu.exec_instruction(&b_type(imm, 2, 1, funct3)), Ok(()));
            assert_eq!(cpu.reg.pc, if taken { target } else { 0x8000_0100 });
        }
    }
}

#[test]
fn loads_extend_by_width() {
    let mut cpu = cpu_with(64);
    cpu.bus.sd_dram(8, 0x8877_6655_C433_A2F1).unwrap();
    cpu.reg.set_reg(1, MEM_OFF + 16);
    let load = |cpu: &mut Cpu, funct3: u32| {
        assert_eq!(cpu.exec_instruction(&i_type(0xFF8, 1, funct3, 3, 0b000_0011)), Ok(()));
        cpu.reg.get_reg(3)
    };
    assert_eq!(load(&mut cpu, 0), 0xFFFF_FFFF_FFFF_FFF1);
    assert_eq!(load(&mut cpu, 1), 0xFFFF_FFFF_FFFF_A2F1);
    assert_eq!(load(&mut cpu, 2), 0xFFFF_FFFF_C433_A2F1);
    assert_eq!(load(&mut cpu, 3), 0x8877_6655_C433_A2F1);
    assert_eq!(load(&mut cpu, 4), 0xF1);
    assert_eq!(load(&mut cpu, 5), 0xA2F1);
    assert_eq!(load(&mut cpu, 6), 0xC433_A2F1);
    cpu.bus.sd_dram(8, 0x0000_0000_7433_7271).unwrap();
    assert_eq!(load(&mut cpu, 0), 0x71);
    assert_eq!(load(&mut cpu, 1), 0x7271);
    assert_eq!(load(&mut cpu, 2), 0x7433_7271);
    // a load that fails leaves the register as it was
    cpu.reg.set_reg(1, MEM_OFF + 64 + 8);
    assert_eq!(cpu.exec_instruction(&i_type(0xFF8, 1, 3, 3, 0b000_0011)), Err(Error::InvalidAddress));
    assert_eq!(cpu.reg.get_reg(3), 0x7433_7271);
    // a load from a device register
    cpu.reg.set_reg(1, 0x1000_0000);
    assert_eq!(cpu.exec_instruction(&i_type(5, 1, 4, 3, 0b000_0011)), Ok(()));
    assert_eq!(cpu.reg.get_reg(3), 0x60);
    // x0 as the destination
    cpu.reg.set_reg(1, MEM_OFF + 16);
    assert_eq!(cpu.exec_instruction(&i_type(0xFF8, 1, 3, 0, 0b000_0011)), Ok(()));
    assert_eq!(cpu.reg.get_reg(0), 0);
}

#[test]
fn stores_truncate_to_width() {
    let mut cpu = cpu_with(64);
    cpu.reg.set_reg(1, MEM_OFF + 32);
    cpu.reg.set_reg(2, 0x1122_3344_5566_7788);
    let fill = |cpu: &mut Cpu| cpu.bus.sd_dram(24, NEG1).unwrap();
    fill(&mut cpu);
    assert_eq!(cpu.exec_instruction(&s_type(0xFF8, 2, 1, 0)), Ok(()));
    assert_eq!(cpu.bus.ld_dram(24), Ok(0xFFFF_FFFF_FFFF_FF88));
    fill(&mut cpu);
    assert_eq!(cpu.exec_instruction(&s_type(0xFF8, 2, 1, 1)), Ok(()));
    assert_eq!(cpu.bus.ld_dram(24), Ok(0xFFFF_FFFF_FFFF_7788));
    fill(&mut cpu);
    assert_eq!(cpu.exec_instruction(&s_type(0xFF8, 2, 1, 2)), Ok(()));
    assert_eq!(cpu.bus.ld_dram(24), Ok(0xFFFF_FFFF_5566_7788));
    assert_eq!(cpu.exec_instruction(&s_type(0xFF8, 2, 1, 3)), Ok(()));
    assert_eq!(cpu.bus.ld_dram(24), Ok(0x1122_3344_5566_7788));
    assert_eq!(cpu.exec_instruction(&s_type(0x7FF, 2, 1, 3)), Err(Error::InvalidAddress));
    // a store to the UART sends the byte
    cpu.reg.set_reg(1, 0x1000_0000);
    cpu.reg.set_reg(2, 0x141);
    assert_eq!(cpu.exec_instruction(&s_type(0, 2, 1, 0)), Ok(()));
    assert_eq!(cpu.bus.uart.tx, vec![0x41]);
    // a store to nowhere
    cpu.reg.set_reg(1, 0x4000_0000);
    assert_eq!(cpu.exec_instruction(&s_type(0, 2, 1, 2)), Err(Error::InvalidAddress));
}

#[test]
fn timer_registers_are_memory_mapped() {
    let mut cpu = cpu_with(0);
    assert_eq!(cpu.s_mm(0x0200_4000, 0x1234_5678_9ABC), Ok(()));
    assert_eq!(cpu.s_mm(0x0200_BFF8, 77), Ok(()));
    assert_eq!((cpu.mtime, cpu.mtimecmp), (77, 0x1234_5678_9ABC));
    assert_eq!(cpu.l_mm(0x0200_4000), Ok(0x1234_5678_9ABC));
    assert_eq!(cpu.l_mm(0x0200_BFF8), Ok(77));
    assert_eq!(cpu.load_phys(0x0200_4000, Width::D), Ok(0x1234_5678_9ABC));
    assert_eq!(cpu.load_phys(0x0200_4000, Width::W), Ok(0x5678_9ABC));
    assert_eq!(cpu.store_phys(0x0200_4000, Width::D, 5), Ok(()));
    assert_eq!(cpu.mtimecmp, 5);
    assert_eq!(cpu.l_mm(0x1000_0005), Ok(0x60));
    assert_eq!(cpu.l_mm(0x0200_0000), Err(Error::InvalidAddress));
    assert_eq!(cpu.s_mm(0x0200_0000, 1), Err(Error::InvalidAddress));
    // sd x2, 0(x1)
    cpu.reg.set_reg(1, 0x0200_4000);
    cpu.reg.set_reg(2, 10_000);
    assert_eq!(cpu.exec_instruction(&s_type(0, 2, 1, 3)), Ok(()));
    assert_eq!(cpu.mtimecmp, 10_000);
}

#[test]
fn csr_instructions() {
    let csr = |funct3: u32, rs1: u32| i_type(0x340, rs1, funct3, 3, 0b111_0011);
    let mut cpu = cpu_with(0);
    cpu.reg.set_csr(MSCRATCH, 0b1100).unwrap();
    cpu.reg.set_reg(1, 0b1010);
    assert_eq!(cpu.exec_instruction(&csr(2, 1)), Ok(()));
    assert_eq!((cpu.reg.get_reg(3), cpu.reg.get_csr(MSCRATCH)), (0b1100, Ok(0b1110)));
    assert_eq!(cpu.exec_instruction(&csr(3, 1)), Ok(()));
    assert_eq!((cpu.reg.get_reg(3), cpu.reg.get_csr(MSCRATCH)), (0b1110, Ok(0b0100)));
    assert_eq!(cpu.exec_instruction(&csr(1, 1)), Ok(()));
    assert_eq!((cpu.reg.get_reg(3), cpu.reg.get_csr(MSCRATCH)), (0b0100, Ok(0b1010)));
    // the immediate forms take the five bits of the rs1 field
    assert_eq!(cpu.exec_instruction(&csr(5, 31)), Ok(()));
    assert_eq!((cpu.reg.get_reg(3), cpu.reg.get_csr(MSCRATCH)), (0b1010, Ok(31)));
    assert_eq!(cpu.exec_instruction(&csr(7, 0b10101)), Ok(()));
    assert_eq!((cpu.reg.get_reg(3), cpu.reg.get_csr(MSCRATCH)), (31, Ok(0b01010)));
    assert_eq!(cpu.exec_instruction(&csr(6, 0b00101)), Ok(()));
    assert_eq!((cpu.reg.get_reg(3), cpu.reg.get_csr(MSCRATCH)), (0b01010, Ok(0b01111)));
    // csrrw x1, mscratch, x1 swaps
    cpu.reg.set_reg(1, 0xAAAA);
    assert_eq!(cpu.exec_instruction(&i_type(0x340, 1, 1, 1, 0b111_0011)), Ok(()));
    assert_eq!((cpu.reg.get_reg(1), cpu.reg.get_csr(MSCRATCH)), (0b01111, Ok(0xAAAA)));
    assert_eq!(cpu.reg.pc, MEM_OFF);
}

#[test]
fn csrrs_with_x0_is_a_pure_read() {
    let mut cpu = cpu_with(0);
    cpu.reg.set_csr(MSCRATCH, 0xDEAD_BEEF).unwrap();
    cpu.reg.set_reg(3, 1);
    assert_eq!(cpu.csrrs(&i_type(0x340, 0, 2, 3, 0b111_0011)), Ok(()));
    assert_eq!(cpu.reg.get_reg(3), 0xDEAD_BEEF);
    assert_eq!(cpu.reg.get_csr(MSCRATCH), Ok(0xDEAD_BEEF));
    assert_eq!(cpu.reg.print().nonzero, vec![(3, 0xDEAD_BEEF), (32, MEM_OFF), (37, 0xDEAD_BEEF)]);
}

#[test]
fn csr_instruction_on_unknown_csr() {
    let mut cpu = cpu_with(0);
    cpu.reg.set_reg(1, 5);
    cpu.reg.set_reg(3, 9);
    for funct3 in [1, 2, 3, 5, 6, 7] {
        assert_eq!(cpu.exec_instruction(&i_type(0xC00, 1, funct3, 3, 0b111_0011)), Err(Error::InvalidRegister));
    }
    assert_eq!(cpu.reg.get_reg(3), 9);
}

#[test]
fn mret_restores_mode_and_status() {
    let mret = Instruction::decode(0x3020_0073).unwrap();
    let mut cpu = cpu_with(0);
    cpu.reg.set_csr(MEPC, 0x8000_0104).unwrap();
    // MPP = S, MPIE = 1, MIE = 0, MPRV = 1
    cpu.reg.set_csr(MSTATUS, (1 << 17) | (1 << 11) | (1 << 7) | (1 << 1)).unwrap();
    assert_eq!(cpu.exec_instruction(&mret), Ok(()));
    assert_eq!(cpu.mode, Mode::S);
    assert_eq!(cpu.reg.pc, 0x8000_0104);
    assert_eq!(cpu.reg.get_csr(MSTATUS), Ok((1 << 7) | (1 << 3) | (1 << 1)));
    // MPP = M, MPIE = 0, MIE = 1
    cpu.reg.set_csr(MSTATUS, (3 << 11) | (1 << 3)).unwrap();
    cpu.mret(&mret);
    assert_eq!(cpu.mode, Mode::M);
    assert_eq!(cpu.reg.get_csr(MSTATUS), Ok(1 << 7));
    // MPP = U
    cpu.reg.set_csr(MSTATUS, 1 << 7).unwrap();
    cpu.mret(&mret);
    assert_eq!(cpu.mode, Mode::U);
    assert_eq!(cpu.reg.get_csr(MSTATUS), Ok((1 << 7) | (1 << 3)));
    // the reserved value of MPP names no mode
    cpu.reg.set_csr(MSTATUS, 2 << 11).unwrap();
    cpu.mret(&mret);
    assert_eq!(cpu.mode, Mode::U);
    assert_eq!(cpu.reg.get_csr(MSTATUS), Ok(1 << 7));
}

#[test]
fn sret_restores_mode_and_status() {
    let sret = Instruction::decode(0x1020_0073).unwrap();
    let mut cpu = cpu_with(0);
    cpu.mode = Mode::S;
    cpu.reg.set_csr(SEPC, 0x8000_0204).unwrap();
    cpu.reg.set_csr(MSTATUS, 0x1888).unwrap();
    // SPP = 1, SPIE = 1, SIE = 0
    cpu.reg.set_csr(SSTATUS, (1 << 8) | (1 << 5)).unwrap();
    assert_eq!(cpu.exec_instruction(&sret), Ok(()));
    assert_eq!(cpu.mode, Mode::S);
    assert_eq!(cpu.reg.pc, 0x8000_0204);
    assert_eq!(cpu.reg.get_csr(SSTATUS), Ok((1 << 5) | (1 << 1)));
    // SPP = 0, SPIE = 0, SIE = 1
    cpu.reg.set_csr(SSTATUS, 1 << 1).unwrap();
    cpu.sret(&sret);
    assert_eq!(cpu.mode, Mode::U);
    assert_eq!(cpu.reg.get_csr(SSTATUS), Ok(1 << 5));
    assert_eq!(cpu.reg.get_csr(MSTATUS), Ok(0x1888));
}

#[test]
fn instructions_without_effect() {
    let mut cpu = cpu_with(16);
    for word in [0x0FF0_000Fu32, 0x0000_100F, 0x1050_0073, 0x1200_0073] {
        assert_eq!(cpu.exec_instruction(&Instruction::decode(word).unwrap()), Ok(()));
    }
    assert!(cpu.reg.print().nonzero == vec![(32, MEM_OFF)]);
    assert_eq!(cpu.mode, Mode::M);
    // the environment call and the breakpoint have no handler
    assert_eq!(cpu.exec_instruction(&Instruction::decode(0x0000_0073).unwrap()), Err(Error::Unimplemented));
    assert_eq!(cpu.exec_instruction(&Instruction::decode(0x0010_0073).unwrap()), Err(Error::Unimplemented));
    assert_eq!(cpu.ecall(&Instruction::decode(0x0000_0073).unwrap()), Err(Error::Unimplemented));
    assert_eq!(cpu.reg.pc, MEM_OFF);
}

#[test]
fn atomic_memory_operations_return_the_old_value() {
    let amo = |cpu: &mut Cpu, funct5: u32, width: u32| {
        cpu.reg.set_reg(3, 0);
        let r = cpu.exec_instruction(&r_type(funct5 << 2, 2, 1, width, 3, 0b010_1111));
        (r, cpu.reg.get_reg(3))
    };
    let mut cpu = cpu_with(64);
    cpu.reg.set_reg(1, MEM_OFF + 8);
    cpu.bus.sd_dram(8, 0x1111_2222_8000_0005).unwrap();
    cpu.reg.set_reg(2, 0x7777_0000_0000_0003);
    // amoadd.w: the word is sign-extended into rd, and the upper word stays
    assert_eq!(amo(&mut cpu, 0b00000, 2), (Ok(()), 0xFFFF_FFFF_8000_0005));
    assert_eq!(cpu.bus.ld_dram(8), Ok(0x1111_2222_8000_0008));
    // amoswap.w
    assert_eq!(amo(&mut cpu, 0b00001, 2), (Ok(()), 0xFFFF_FFFF_8000_0008));
    assert_eq!(cpu.bus.ld_dram(8), Ok(0x1111_2222_0000_0003));
    assert_eq!(cpu.reg.get_reg(2), 0x7777_0000_0000_0003);
    // amoadd.d
    assert_eq!(amo(&mut cpu, 0b00000, 3), (Ok(()), 0x1111_2222_0000_0003));
    assert_eq!(cpu.bus.ld_dram(8), Ok(0x8888_2222_0000_0006));
    // amoxor.d, amoand.d, amoor.d
    cpu.bus.sd_dram(8, 0b1100).unwrap();
    cpu.reg.set_reg(2, 0b1010);
    assert_eq!(amo(&mut cpu, 0b00100, 3), (Ok(()), 0b1100));
    assert_eq!(cpu.bus.ld_dram(8), Ok(0b0110));
    assert_eq!(amo(&mut cpu, 0b01100, 3), (Ok(()), 0b0110));
    assert_eq!(cpu.bus.ld_dram(8), Ok(0b0010));
    assert_eq!(amo(&mut cpu, 0b01000, 3), (Ok(()), 0b0010));
    assert_eq!(cpu.bus.ld_dram(8), Ok(0b1010));
    // rd = rs2: the source is read before the old value is written
    cpu.reg.set_reg(2, 1);
    assert_eq!(cpu.exec_instruction(&r_type(0, 2, 1, 3, 2, 0b010_1111)), Ok(()));
    assert_eq!(cpu.reg.get_reg(2), 0b1010);
    assert_eq!(cpu.bus.ld_dram(8), Ok(0b1011));
    // outside memory nothing happens
    cpu.reg.set_reg(1, MEM_OFF + 64);
    assert_eq!(amo(&mut cpu, 0b00001, 3), (Err(Error::InvalidAddress), 0));
}

#[test]
fn atomic_minimum_and_maximum() {
    let run = |funct5: u32, width: u32, mem: u64, src: u64| {
        let mut cpu = cpu_with(16);
        cpu.reg.set_reg(1, MEM_OFF);
        cpu.reg.set_reg(2, src);
        cpu.bus.sd_dram(0, mem).unwrap();
        assert_eq!(cpu.exec_instruction(&r_type(funct5 << 2, 2, 1, width, 3, 0b010_1111)), Ok(()));
        cpu.bus.ld_dram(0).unwrap()
    };
    // doublewords
    assert_eq!(run(0b10000, 3, NEG1, 1), NEG1);
    assert_eq!(run(0b10100, 3, NEG1, 1), 1);
    assert_eq!(run(0b11000, 3, NEG1, 1), 1);
    assert_eq!(run(0b11100, 3, NEG1, 1), NEG1);
    // words: only the low word is compared and stored
    assert_eq!(run(0b10000, 2, 0x5_FFFF_FFFF, 1), 0x5_FFFF_FFFF);
    assert_eq!(run(0b10100, 2, 0x5_FFFF_FFFF, 1), 0x5_0000_0001);
    assert_eq!(run(0b11000, 2, 0x5_FFFF_FFFF, 1), 0x5_0000_0001);
    assert_eq!(run(0b11100, 2, 0x5_FFFF_FFFF, 0x9_0000_0001), 0x5_FFFF_FFFF);
    assert_eq!(run(0b10000, 2, 3, 0xFFFF_FFFF_8000_0000), 0x8000_0000);
    assert_eq!(amo_apply(AmoOp::Min, false, 0x5_FFFF_FFFF, 1) & 0xFFFF_FFFF, 0xFFFF_FFFF);
    assert_eq!(amo_apply(AmoOp::Swap, true, 5, 9), 9);
    assert_eq!(amo_apply(AmoOp::Add, true, NEG1, 2), 1);
    assert_eq!(amo_apply(AmoOp::Maxu, true, NEG1, 2), NEG1);
}

#[test]
fn doubleword_reservation() {
    let mut cpu = cpu_with(128);
    cpu.reg.set_reg(1, MEM_OFF + 0x38);
    cpu.reg.set_reg(7, 0x1122_3344_5566_7788);
    cpu.bus.sd_dram(0x38, 0xFFFF_FFFF_0000_0001).unwrap();
    // lr.d x5, (x1)
    assert_eq!(cpu.exec_instruction(&r_type(0b00010 << 2, 0, 1, 3, 5, 0b010_1111)), Ok(()));
    assert_eq!(cpu.reg.get_reg(5), 0xFFFF_FFFF_0000_0001);
    assert_eq!(cpu.check_mem_reservation(0x38, true), Ok(true));
    assert_eq!(cpu.check_mem_reservation(0x38, false), Ok(true));
    assert_eq!(cpu.check_mem_reservation(0x3C, false), Ok(true));
    assert_eq!(cpu.check_mem_reservation(0x30, true), Ok(false));
    assert_eq!(cpu.check_mem_reservation(0x40, false), Ok(false));
    // the two words of the doubleword are the last two bits of the second byte
    assert_eq!(cpu.mem_reserved_w, vec![0, 0b0000_0011, 0, 0]);
    // sc.d x6, x7, (x1)
    assert_eq!(cpu.exec_instruction(&r_type(0b00011 << 2, 7, 1, 3, 6, 0b010_1111)), Ok(()));
    assert_eq!(cpu.reg.get_reg(6), 0);
    assert_eq!(cpu.bus.ld_dram(0x38), Ok(0x1122_3344_5566_7788));
    assert_eq!(cpu.mem_reserved_w, vec![0, 0, 0, 0]);
    // a second store-conditional finds no reservation
    cpu.reg.set_reg(7, 1);
    assert_eq!(cpu.exec_instruction(&r_type(0b00011 << 2, 7, 1, 3, 6, 0b010_1111)), Ok(()));
    assert_eq!(cpu.reg.get_reg(6), 1);
    assert_eq!(cpu.bus.ld_dram(0x38), Ok(0x1122_3344_5566_7788));
}

#[test]
fn reservation_bitmap() {
    let mut cpu = cpu_with(128);
    assert_eq!(cpu.mem_reserved_w.len(), 4);
    assert_eq!(cpu.reserve_mem(0, false), Ok(()));
    assert_eq!(cpu.reserve_mem(4, false), Ok(()));
    assert_eq!(cpu.reserve_mem(0x7C, false), Ok(()));
    assert_eq!(cpu.mem_reserved_w, vec![0b1100_0000, 0, 0, 0b0000_0001]);
    assert_eq!(cpu.reserve_mem(0x20, true), Ok(()));
    assert_eq!(cpu.mem_reserved_w, vec![0b1100_0000, 0b1100_0000, 0, 0b0000_0001]);
    assert_eq!(cpu.check_mem_reservation(0, true), Ok(true));
    assert_eq!(cpu.invalidate_mem_reservation(4, false), Ok(()));
    assert_eq!(cpu.check_mem_reservation(0, true), Ok(false));
    assert_eq!(cpu.check_mem_reservation(0, false), Ok(true));
    assert_eq!(cpu.invalidate_mem_reservation(0x20, true), Ok(()));
    assert_eq!(cpu.invalidate_mem_reservation(0x40, true), Ok(()));
    assert_eq!(cpu.mem_reserved_w, vec![0b1000_0000, 0, 0, 0b0000_0001]);
    // not aligned
    assert_eq!(cpu.reserve_mem(2, false), Err(Error::MisalignedReservation));
    assert_eq!(cpu.reserve_mem(4, true), Err(Error::MisalignedReservation));
    assert_eq!(cpu.check_mem_reservation(1, false), Err(Error::MisalignedReservation));
    assert_eq!(cpu.invalidate_mem_reservation(12, true), Err(Error::MisalignedReservation));
    // not covered
    assert_eq!(cpu.reserve_mem(0x80, false), Err(Error::InvalidAddress));
    assert_eq!(cpu.check_mem_reservation(0x80, true), Err(Error::InvalidAddress));
    assert_eq!(cpu.invalidate_mem_reservation(u64::MAX - 7, true), Err(Error::InvalidAddress));
    assert_eq!(cpu.mem_reserved_w, vec![0b1000_0000, 0, 0, 0b0000_0001]);
}

#[test]
fn reservation_outside_dram() {
    let mut cpu = cpu_with(100);
    // lr.w on a device address
    cpu.reg.set_reg(1, 0x1000_0000);
    assert_eq!(cpu.exec_instruction(&r_type(0b00010 << 2, 0, 1, 2, 5, 0b010_1111)), Err(Error::InvalidAddress));
    assert_eq!(cpu.exec_instruction(&r_type(0b00011 << 2, 7, 1, 2, 6, 0b010_1111)), Err(Error::InvalidAddress));
    // the bitmap covers whole groups of 32 bytes only
    cpu.reg.set_reg(1, MEM_OFF + 96);
    assert_eq!(cpu.exec_instruction(&r_type(0b00010 << 2, 0, 1, 2, 5, 0b010_1111)), Err(Error::InvalidAddress));
    cpu.reg.set_reg(1, MEM_OFF + 92);
    assert_eq!(cpu.exec_instruction(&r_type(0b00010 << 2, 0, 1, 2, 5, 0b010_1111)), Ok(()));
    cpu.reg.set_reg(1, MEM_OFF + 100);
    assert_eq!(cpu.exec_instruction(&r_type(0b00010 << 2, 0, 1, 2, 5, 0b010_1111)), Err(Error::InvalidAddress));
}

#[test]
fn tick_reports_errors_and_changes_nothing() {
    let mut cpu = cpu_with(16);
    cpu.bus.sw_dram(0, 0xFFFF_FFFF).unwrap();
    // ld x3, 0(x0)
    cpu.bus.sw_dram(4, 0x0000_3183).unwrap();
    cpu.bus.sw_dram(8, 0x0000_0073).unwrap();
    assert_eq!(cpu.tick(), Err(Error::InvalidInstruction));
    assert_eq!((cpu.reg.pc, cpu.mtime), (MEM_OFF, 0));
    cpu.reg.set_pc(MEM_OFF + 4);
    assert_eq!(cpu.tick(), Err(Error::InvalidAddress));
    assert_eq!((cpu.reg.pc, cpu.mtime), (MEM_OFF + 4, 0));
    cpu.reg.set_pc(MEM_OFF + 8);
    assert_eq!(cpu.tick(), Err(Error::Unimplemented));
    cpu.reg.set_pc(MEM_OFF + 16);
    assert_eq!(cpu.tick(), Err(Error::InvalidAddress));
    assert_eq!(cpu.run(10), Err(Error::InvalidAddress));
    assert_eq!((cpu.reg.pc, cpu.mtime, cpu.mtimecmp), (MEM_OFF + 16, 0, 0));
}

#[test]
fn run_counts_ticks_and_stops_at_the_breakpoint() {
    // addi a0, a0, 1 ; addi a0, a0, 1 ; jal x0, -8
    let program = "00150513" .to_string() + "00150513" + "ff9ff06f";
    let bus = Bus::new(Dram::new(64), Uart::new(), Plic::new(), Virtio::new());
    let mut cpu = Cpu::new(bus, 64, kotodori::dbg::Debug::new(true, MEM_OFF + 8));
    cpu.bus.dram.load(&program).unwrap();
    cpu.init(MEM_OFF);
    cpu.mtimecmp = u64::MAX;
    assert!(!cpu.dbg_step);
    assert_eq!(cpu.run(0), Ok(false));
    assert_eq!(cpu.run(1), Ok(false));
    assert_eq!((cpu.reg.pc, cpu.reg.get_reg(10), cpu.mtime), (MEM_OFF + 4, 1, 2500));
    // the hart stops when it gets to the breakpoint, and steps from then on
    assert_eq!(cpu.run(100), Ok(true));
    assert_eq!((cpu.reg.pc, cpu.reg.get_reg(10), cpu.mtime), (MEM_OFF + 8, 2, 5000));
    assert!(cpu.dbg_step);
    assert_eq!(cpu.run(100), Ok(true));
    assert_eq!((cpu.reg.pc, cpu.mtime), (MEM_OFF, 7500));
    // a new breakpoint lets it run free again
    cpu.set_breakpoint(MEM_OFF + 4);
    assert!(!cpu.dbg_step);
    assert_eq!(cpu.run(100), Ok(true));
    assert_eq!((cpu.reg.pc, cpu.reg.get_reg(10), cpu.mtime), (MEM_OFF + 4, 3, 10000));
    cpu.dbg.enable = false;
    cpu.dbg_step = false;
    assert_eq!(cpu.run(30), Ok(false));
    assert_eq!((cpu.reg.pc, cpu.reg.get_reg(10), cpu.mtime), (MEM_OFF + 4, 23, 85000));
}

#[test]
fn jump_to_itself_moves_on() {
    // jal x0, 0: executing it leaves the program counter as it was
    let mut cpu = cpu_with(16);
    cpu.bus.sw_dram(0, 0x0000_006F).unwrap();
    cpu.mtimecmp = u64::MAX;
    assert_eq!(cpu.tick(), Ok(false));
    assert_eq!(cpu.reg.pc, MEM_OFF + 4);
}
