use kotodori::bus::Bus;
use kotodori::conf::MEM_OFF;
use kotodori::cpu::instructions::Instruction;
use kotodori::cpu::register::{MCAUSE, MEPC, MIE, MIP, MSTATUS, MTVEC};
use kotodori::cpu::{Cpu, Mode};
use kotodori::dram::Dram;
use kotodori::error::Error;
use kotodori::plic::Plic;
use kotodori::uart::Uart;
use kotodori::virtio::Virtio;

fn cpu_with(mem_size: usize) -> Cpu {
    let bus = Bus::new(Dram::new(mem_size), Uart::new(), Plic::new(), Virtio::new());
    Cpu::new(bus, mem_size, kotodori::dbg::Debug::new(false, 0))
}

fn cpu_running(words: &[u32]) -> Cpu {
    let mut cpu = cpu_with(0x1000);
    for (i, w) in words.iter().enumerate() {
        cpu.bus.sw_dram(4 * i as u64, *w).unwrap();
    }
    cpu.reg.set_pc(MEM_OFF);
    cpu
}

#[test]
fn lui_test() {
    let dram = Dram::new(0);
    let uart = Uart::new();
    let plic = Plic::new();
    let virtio = Virtio::new();
    let bus = Bus::new(dram, uart, plic, virtio);
    let dbg = kotodori::dbg::Debug::new(false, 0);
    let mut cpu = Cpu::new(bus, 0, dbg);

    // lui	a0,0x1
    let inst = Instruction::decode(0x0000_1537).unwrap();
    cpu.lui(&inst);
    assert_eq!(cpu.reg.get_reg(10), 0x1000);
}

#[test]
fn addi_round_trip() {
    let bus = Bus::new(Dram::new(64), Uart::new(), Plic::new(), Virtio::new());
    let mut cpu = Cpu::new(bus, 64, kotodori::dbg::Debug::new(false, 0));
    cpu.bus.dram.load("00100513").unwrap();
    cpu.init(MEM_OFF);
    assert_eq!(cpu.tick(), Ok(false));
    assert_eq!(cpu.reg.get_reg(10), 1);
    assert_eq!(cpu.reg.pc, MEM_OFF + 4);
}

#[test]
fn lui_sign_extension() {
    let mut cpu = cpu_with(0);
    let inst = Instruction::decode(0xFFFF_F537).unwrap();
    cpu.lui(&inst);
    assert_eq!(cpu.reg.get_reg(10), 0xFFFF_FFFF_FFFF_F000);
}

#[test]
fn jal_link_and_branch() {
    let mut cpu = cpu_with(0);
    cpu.reg.set_pc(0x8000_0000);
    let inst = Instruction::decode(0x0080_00EF).unwrap();
    cpu.jal(&inst);
    assert_eq!(cpu.reg.get_reg(1), 0x8000_0004);
    assert_eq!(cpu.reg.pc, 0x8000_0008);
}

#[test]
fn csrrw_swap() {
    let mut cpu = cpu_with(0);
    cpu.reg.set_csr(MTVEC, 0xDEAD_0000).unwrap();
    cpu.reg.set_reg(10, 0x1000);
    // csrrw a1, mtvec, a0
    let word = (0x305 << 20) | (10 << 15) | (0b001 << 12) | (11 << 7) | 0b111_0011;
    let inst = Instruction::decode(word).unwrap();
    assert_eq!(cpu.csrrw(&inst), Ok(()));
    assert_eq!(cpu.reg.get_reg(11), 0xDEAD_0000);
    assert_eq!(cpu.reg.get_csr(MTVEC), Ok(0x1000));
}

#[test]
fn timer_interrupt_delivery() {
    // addi a0, x0, 1 at 0x8000_0100
    let mut cpu = cpu_with(0x1000);
    cpu.bus.sw_dram(0x100, 0x0010_0513).unwrap();
    cpu.reg.set_pc(0x8000_0100);
    cpu.reg.set_csr(MTVEC, 0x1000).unwrap();
    cpu.reg.set_csr(MSTATUS, 0b1000).unwrap();
    cpu.reg.set_csr(MIE, 0b1000_0000).unwrap();
    cpu.mtimecmp = 0;
    assert_eq!(cpu.tick(), Ok(false));
    assert_eq!(cpu.reg.pc, 0x1000);
    assert_eq!(cpu.reg.get_csr(MEPC), Ok(0x8000_0104));
    assert_eq!(cpu.reg.get_csr(MCAUSE), Ok(0x8000_0000_0000_0007));
    let mstatus = cpu.reg.get_csr(MSTATUS).unwrap();
    assert_eq!((mstatus >> 11) & 3, 3);
    assert_eq!((mstatus >> 7) & 1, 1);
    assert_eq!((mstatus >> 3) & 1, 0);
    assert_eq!(cpu.reg.get_csr(MIP), Ok(0));
    assert_eq!(cpu.mode, Mode::M);
    assert_eq!(cpu.reg.get_reg(10), 1);
    assert_eq!(cpu.mtime, 2500);
}

#[test]
fn lr_sc_success() {
    let mut cpu = cpu_with(0x1000);
    let a = MEM_OFF + 0x40;
    cpu.bus.sw_dram(0x40, 0x1234_5678).unwrap();
    cpu.reg.set_reg(1, a);
    cpu.reg.set_reg(7, 0xAA);
    // lr.w x5, (x1)
    let lr = (0b00010 << 27) | (1 << 15) | (0b010 << 12) | (5 << 7) | 0b010_1111;
    let inst = Instruction::decode(lr).unwrap();
    assert_eq!(cpu.lr_w(&inst), Ok(()));
    assert_eq!(cpu.reg.get_reg(5), 0x1234_5678);
    assert_eq!(cpu.check_mem_reservation(0x40, false), Ok(true));
    // sc.w x6, x7, (x1)
    let sc = (0b00011 << 27) | (7 << 20) | (1 << 15) | (0b010 << 12) | (6 << 7) | 0b010_1111;
    let inst = Instruction::decode(sc).unwrap();
    cpu.reg.set_reg(6, 99);
    assert_eq!(cpu.sc_w(&inst), Ok(()));
    assert_eq!(cpu.reg.get_reg(6), 0);
    assert_eq!(cpu.bus.lw_dram(0x40), Ok(0xAA));
    assert_eq!(cpu.check_mem_reservation(0x40, false), Ok(false));
    assert!(cpu.mem_reserved_w.iter().all(|b| *b == 0));
}

#[test]
fn sc_without_reservation_fails() {
    let mut cpu = cpu_with(0x1000);
    cpu.reg.set_reg(1, MEM_OFF + 0x40);
    cpu.reg.set_reg(7, 0xAA);
    let sc = (0b00011 << 27) | (7 << 20) | (1 << 15) | (0b010 << 12) | (6 << 7) | 0b010_1111;
    let inst = Instruction::decode(sc).unwrap();
    assert_eq!(cpu.sc_w(&inst), Ok(()));
    assert_eq!(cpu.reg.get_reg(6), 1);
    assert_eq!(cpu.bus.lw_dram(0x40), Ok(0));
}

#[test]
fn misaligned_reservation() {
    let mut cpu = cpu_with(0x1000);
    cpu.reg.set_reg(1, MEM_OFF + 0x42);
    let lr = (0b00010 << 27) | (1 << 15) | (0b010 << 12) | (5 << 7) | 0b010_1111;
    let inst = Instruction::decode(lr).unwrap();
    assert_eq!(cpu.lr_w(&inst), Err(Error::MisalignedReservation));
    let sc = (0b00011 << 27) | (7 << 20) | (1 << 15) | (0b010 << 12) | (6 << 7) | 0b010_1111;
    let inst = Instruction::decode(sc).unwrap();
    assert_eq!(cpu.sc_w(&inst), Err(Error::MisalignedReservation));
    // a doubleword reservation wants eight-byte alignment
    cpu.reg.set_reg(1, MEM_OFF + 0x44);
    let lr_d = (0b00010 << 27) | (1 << 15) | (0b011 << 12) | (5 << 7) | 0b010_1111;
    let inst = Instruction::decode(lr_d).unwrap();
    assert_eq!(cpu.lr_d(&inst), Err(Error::MisalignedReservation));
}

#[test]
fn pc_advances_by_four_or_execute_moves_it() {
    // addi a0, x0, 1 ; jal x0, +8
    let mut cpu = cpu_running(&[0x0010_0513, 0x0080_006F]);
    assert_eq!(cpu.tick(), Ok(false));
    assert_eq!(cpu.reg.pc, MEM_OFF + 4);
    assert_eq!(cpu.tick(), Ok(false));
    assert_eq!(cpu.reg.pc, MEM_OFF + 12);
}

#[test]
fn timer_fires_in_the_tick_in_which_it_crosses() {
    // three times addi a0, a0, 1
    let mut cpu = cpu_running(&[0x0015_0513, 0x0015_0513, 0x0015_0513]);
    cpu.reg.set_csr(MTVEC, MEM_OFF + 0x800).unwrap();
    cpu.reg.set_csr(MSTATUS, 0b1000).unwrap();
    cpu.reg.set_csr(MIE, 0b1000_0000).unwrap();
    cpu.mtimecmp = 5000;
    assert_eq!(cpu.tick(), Ok(false));
    assert_eq!((cpu.mtime, cpu.reg.pc), (2500, MEM_OFF + 4));
    assert_eq!(cpu.reg.get_csr(MIP), Ok(0));
    assert_eq!(cpu.tick(), Ok(false));
    assert_eq!((cpu.mtime, cpu.reg.pc), (5000, MEM_OFF + 0x800));
    assert_eq!(cpu.reg.get_csr(MEPC), Ok(MEM_OFF + 8));
    assert_eq!(cpu.reg.get_csr(MCAUSE), Ok(0x8000_0000_0000_0007));
    assert_eq!(cpu.reg.get_reg(10), 2);
}

#[test]
fn timer_waits_for_the_interrupt_enable() {
    let mut cpu = cpu_running(&[0x0015_0513, 0x0015_0513]);
    cpu.reg.set_csr(MTVEC, MEM_OFF + 0x800).unwrap();
    cpu.reg.set_csr(MIE, 0b1000_0000).unwrap();
    // machine mode with MIE clear: the interrupt stays pending
    assert_eq!(cpu.tick(), Ok(false));
    assert_eq!(cpu.reg.pc, MEM_OFF + 4);
    assert_eq!(cpu.reg.get_csr(MIP), Ok(0b1000_0000));
    cpu.reg.set_csr(MSTATUS, 0b1000).unwrap();
    assert_eq!(cpu.tick(), Ok(false));
    assert_eq!(cpu.reg.pc, MEM_OFF + 0x800);
    assert_eq!(cpu.reg.get_csr(MIP), Ok(0));
}

#[test]
fn uart_output_of_a_program() {
    // lui a1, 0x10000 ; addi a0, x0, 0x4F ; sb a0, 0(a1) ; addi a0, x0, 0x4B ; sb a0, 0(a1)
    let mut cpu = cpu_running(&[0x1000_05B7, 0x04F0_0513, 0x00A5_8023, 0x04B0_0513, 0x00A5_8023]);
    cpu.mtimecmp = u64::MAX;
    assert_eq!(cpu.run(5), Ok(false));
    assert_eq!(cpu.bus.uart.take_output(), b"OK".to_vec());
    assert_eq!(cpu.reg.pc, MEM_OFF + 20);
}
