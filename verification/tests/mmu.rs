use kotodori::bus::{Bus, Width};
use kotodori::conf::MEM_OFF;
use kotodori::cpu::register::{MSTATUS, PMPADDR0, PMPCFG0, SATP};
use kotodori::cpu::{Cpu, Mode, PMPPerm};
use kotodori::dram::Dram;
use kotodori::error::Error;
use kotodori::plic::Plic;
use kotodori::uart::Uart;
use kotodori::virtio::Virtio;

const VA: u64 = (1 << 30) | (2 << 21) | (3 << 12) | 0xABC;

fn cpu_with(mem_size: usize) -> Cpu {
    let bus = Bus::new(Dram::new(mem_size), Uart::new(), Plic::new(), Virtio::new());
    Cpu::new(bus, mem_size, kotodori::dbg::Debug::new(false, 0))
}

fn pte(target: u64, flags: u64) -> u64 {
    ((target >> 12) << 10) | flags
}

/// A hart with Sv39 on, the root table at offset 0x1000, and the tables for
/// `VA` at 0x2000 and 0x3000; `leaf` is the entry at level 0.
fn paged(leaf: u64) -> Cpu {
    let mut cpu = cpu_with(0x8000);
    cpu.bus.sd_dram(0x1000 + 8, pte(MEM_OFF + 0x2000, 1)).unwrap();
    cpu.bus.sd_dram(0x2000 + 16, pte(MEM_OFF + 0x3000, 1)).unwrap();
    cpu.bus.sd_dram(0x3000 + 24, leaf).unwrap();
    cpu.reg.set_csr(SATP, (8 << 60) | ((MEM_OFF + 0x1000) >> 12)).unwrap();
    cpu
}

#[test]
fn bare_mode_passes_the_address_through() {
    let cpu = cpu_with(16);
    for va in [0u64, 0x1234, MEM_OFF, u64::MAX] {
        for perm in [PMPPerm::R, PMPPerm::W, PMPPerm::X] {
            assert_eq!(cpu.trans_addr(va, perm), Ok(va));
            assert_eq!(cpu.access(va, perm), Ok(va));
        }
    }
}

#[test]
fn sv39_walks_three_levels() {
    let mut cpu = paged(pte(MEM_OFF + 0x5000, 0xF));
    assert_eq!(cpu.trans_addr(VA, PMPPerm::R), Ok(MEM_OFF + 0x5ABC));
    assert_eq!(cpu.trans_addr(VA, PMPPerm::W), Ok(MEM_OFF + 0x5ABC));
    assert_eq!(cpu.trans_addr(VA, PMPPerm::X), Ok(MEM_OFF + 0x5ABC));
    assert_eq!(cpu.sv39(VA & !0xFFF, PMPPerm::R), Ok(MEM_OFF + 0x5000));
    assert_eq!(cpu.sv39(VA | 0xFFF, PMPPerm::R), Ok(MEM_OFF + 0x5FFF));
    // the bits above the three indices are not looked at
    assert_eq!(cpu.trans_addr(VA | (0x1FF_FFFF << 39), PMPPerm::R), Ok(MEM_OFF + 0x5ABC));
    // loads and stores go through the translation
    cpu.bus.sw_dram(0x5ABC, 0xCAFE_F00D).unwrap();
    assert_eq!(cpu.load(VA, Width::W), Ok(0xCAFE_F00D));
    assert_eq!(cpu.store(VA + 4, Width::H, 0xBEEF), Ok(()));
    assert_eq!(cpu.bus.lh_dram(0x5AC0), Ok(0xBEEF));
}

#[test]
fn sv39_superpages() {
    let mut cpu = cpu_with(0x8000);
    cpu.reg.set_csr(SATP, (8 << 60) | ((MEM_OFF + 0x1000) >> 12)).unwrap();
    // a leaf at level 2 maps 1 GiB
    cpu.bus.sd_dram(0x1000 + 8, pte(0x1_4000_0000, 0x7)).unwrap();
    assert_eq!(cpu.trans_addr(VA, PMPPerm::R), Ok(0x1_4000_0000 + (VA & 0x3FFF_FFFF)));
    // the low bits of the entry's page number are not part of the address
    cpu.bus.sd_dram(0x1000 + 8, pte(0x1_4567_8000, 0x7)).unwrap();
    assert_eq!(cpu.trans_addr(VA, PMPPerm::W), Ok(0x1_4000_0000 + (VA & 0x3FFF_FFFF)));
    // a leaf at level 1 maps 2 MiB
    cpu.bus.sd_dram(0x1000 + 8, pte(MEM_OFF + 0x2000, 1)).unwrap();
    cpu.bus.sd_dram(0x2000 + 16, pte(0x8020_0000, 0xB)).unwrap();
    assert_eq!(cpu.trans_addr(VA, PMPPerm::X), Ok(0x8020_3ABC));
    assert_eq!(cpu.trans_addr(VA, PMPPerm::R), Ok(0x8020_3ABC));
    assert_eq!(cpu.trans_addr(VA, PMPPerm::W), Err(Error::PageFault));
}

#[test]
fn sv39_page_faults() {
    // not valid
    assert_eq!(paged(pte(MEM_OFF + 0x5000, 0xE)).trans_addr(VA, PMPPerm::R), Err(Error::PageFault));
    // writable and not readable
    assert_eq!(paged(pte(MEM_OFF + 0x5000, 0x5)).trans_addr(VA, PMPPerm::W), Err(Error::PageFault));
    assert_eq!(paged(pte(MEM_OFF + 0x5000, 0xD)).trans_addr(VA, PMPPerm::X), Err(Error::PageFault));
    // a pointer at the last level
    assert_eq!(paged(pte(MEM_OFF + 0x5000, 0x1)).trans_addr(VA, PMPPerm::R), Err(Error::PageFault));
    // the leaf does not allow the access
    let read_only = paged(pte(MEM_OFF + 0x5000, 0x3));
    assert_eq!(read_only.trans_addr(VA, PMPPerm::R), Ok(MEM_OFF + 0x5ABC));
    assert_eq!(read_only.trans_addr(VA, PMPPerm::W), Err(Error::PageFault));
    assert_eq!(read_only.trans_addr(VA, PMPPerm::X), Err(Error::PageFault));
    let execute_only = paged(pte(MEM_OFF + 0x5000, 0x9));
    assert_eq!(execute_only.trans_addr(VA, PMPPerm::X), Ok(MEM_OFF + 0x5ABC));
    assert_eq!(execute_only.trans_addr(VA, PMPPerm::R), Err(Error::PageFault));
    // an address whose entries are empty
    assert_eq!(paged(pte(MEM_OFF + 0x5000, 0xF)).trans_addr(0, PMPPerm::R), Err(Error::PageFault));
    assert_eq!(paged(pte(MEM_OFF + 0x5000, 0xF)).trans_addr(VA + 0x1000, PMPPerm::R), Err(Error::PageFault));
    // a failed access changes nothing
    let mut cpu = paged(pte(MEM_OFF + 0x5000, 0x3));
    assert_eq!(cpu.store(VA, Width::W, 1), Err(Error::PageFault));
    assert_eq!(cpu.bus.lw_dram(0x5ABC), Ok(0));
}

#[test]
fn sv39_tables_lie_in_dram() {
    let mut cpu = cpu_with(0x8000);
    // the root table below the DRAM base
    cpu.reg.set_csr(SATP, (8 << 60) | 0x1000).unwrap();
    assert_eq!(cpu.trans_addr(VA, PMPPerm::R), Err(Error::InvalidAddress));
    // the root table past the end of DRAM
    cpu.reg.set_csr(SATP, (8 << 60) | ((MEM_OFF + 0x8000) >> 12)).unwrap();
    assert_eq!(cpu.trans_addr(VA, PMPPerm::R), Err(Error::InvalidAddress));
    // the next table past the end of DRAM
    cpu.reg.set_csr(SATP, (8 << 60) | ((MEM_OFF + 0x1000) >> 12)).unwrap();
    cpu.bus.sd_dram(0x1000 + 8, pte(MEM_OFF + 0x10_0000, 1)).unwrap();
    assert_eq!(cpu.trans_addr(VA, PMPPerm::R), Err(Error::InvalidAddress));
}

#[test]
fn other_translation_modes_are_unimplemented() {
    let mut cpu = cpu_with(16);
    for mode in [1u64, 7, 9, 10, 11, 12, 15] {
        cpu.reg.set_csr(SATP, mode << 60).unwrap();
        assert_eq!(cpu.trans_addr(MEM_OFF, PMPPerm::R), Err(Error::Unimplemented));
        assert_eq!(cpu.load(MEM_OFF, Width::B), Err(Error::Unimplemented));
        assert_eq!(cpu.fetch(), Err(Error::Unimplemented));
    }
}

#[test]
fn fetch_reads_from_dram_only() {
    let mut cpu = cpu_with(16);
    cpu.bus.sw_dram(4, 0x0010_0513).unwrap();
    cpu.reg.set_pc(MEM_OFF + 4);
    assert_eq!(cpu.fetch(), Ok(0x0010_0513));
    cpu.reg.set_pc(MEM_OFF + 13);
    assert_eq!(cpu.fetch(), Err(Error::InvalidAddress));
    cpu.reg.set_pc(0x1000_1000);
    assert_eq!(cpu.fetch(), Err(Error::InvalidAddress));
    cpu.reg.set_pc(0);
    assert_eq!(cpu.fetch(), Err(Error::InvalidAddress));
}

#[test]
fn pmp_is_skipped_in_machine_mode() {
    let mut cpu = cpu_with(16);
    // an entry that allows nothing
    cpu.reg.set_csr(PMPCFG0, 0x08).unwrap();
    cpu.reg.set_csr(PMPADDR0, u64::MAX >> 2).unwrap();
    for perm in [PMPPerm::R, PMPPerm::W, PMPPerm::X] {
        assert_eq!(cpu.check_pmp(MEM_OFF, perm), Ok(()));
    }
    assert_eq!(cpu.blocked_by_pmp(MEM_OFF, PMPPerm::R), Err(Error::PMPFault));
}

#[test]
fn pmp_top_of_range() {
    let mut cpu = cpu_with(0x4000);
    cpu.mode = Mode::S;
    // entry 0: [0, MEM_OFF + 0x1000) read and execute
    // entry 1: [MEM_OFF + 0x1000, MEM_OFF + 0x2000) read and write
    cpu.reg.set_csr(PMPCFG0, (0x0B << 8) | 0x0D).unwrap();
    cpu.reg.set_csr(PMPADDR0, (MEM_OFF + 0x1000) >> 2).unwrap();
    cpu.reg.set_csr(PMPADDR0 + 1, (MEM_OFF + 0x2000) >> 2).unwrap();
    assert_eq!(cpu.check_pmp(MEM_OFF, PMPPerm::R), Ok(()));
    assert_eq!(cpu.check_pmp(MEM_OFF, PMPPerm::X), Ok(()));
    assert_eq!(cpu.check_pmp(MEM_OFF, PMPPerm::W), Err(Error::PMPFault));
    assert_eq!(cpu.check_pmp(0, PMPPerm::W), Err(Error::PMPFault));
    assert_eq!(cpu.check_pmp(MEM_OFF + 0xFFF, PMPPerm::W), Err(Error::PMPFault));
    assert_eq!(cpu.check_pmp(MEM_OFF + 0x1000, PMPPerm::W), Ok(()));
    assert_eq!(cpu.check_pmp(MEM_OFF + 0x1FFF, PMPPerm::R), Ok(()));
    assert_eq!(cpu.check_pmp(MEM_OFF + 0x1000, PMPPerm::X), Err(Error::PMPFault));
    // past the last range no entry decides
    assert_eq!(cpu.check_pmp(MEM_OFF + 0x2000, PMPPerm::W), Ok(()));
    assert_eq!(cpu.check_pmp(MEM_OFF + 0x2000, PMPPerm::X), Ok(()));
    // the check stands before every access
    assert_eq!(cpu.store(MEM_OFF + 8, Width::W, 1), Err(Error::PMPFault));
    assert_eq!(cpu.load(MEM_OFF + 8, Width::W), Ok(0));
    assert_eq!(cpu.store(MEM_OFF + 0x1008, Width::W, 1), Ok(()));
    cpu.reg.set_pc(MEM_OFF + 0x1008);
    assert_eq!(cpu.fetch(), Err(Error::PMPFault));
    cpu.mode = Mode::U;
    assert_eq!(cpu.check_pmp(MEM_OFF, PMPPerm::W), Err(Error::PMPFault));
}

#[test]
fn pmp_entries_beyond_the_first_register() {
    let mut cpu = cpu_with(16);
    cpu.mode = Mode::U;
    // entry 8 is the first byte of pmpcfg2, entry 63 the last of pmpcfg14
    cpu.reg.set_csr(PMPCFG0 + 2, 0x09).unwrap();
    cpu.reg.set_csr(PMPADDR0 + 7, 0x1000 >> 2).unwrap();
    cpu.reg.set_csr(PMPADDR0 + 8, 0x2000 >> 2).unwrap();
    cpu.reg.set_csr(PMPCFG0 + 14, 0x0A << 56).unwrap();
    cpu.reg.set_csr(PMPADDR0 + 62, 0x3000 >> 2).unwrap();
    cpu.reg.set_csr(PMPADDR0 + 63, 0x4000 >> 2).unwrap();
    assert_eq!(cpu.check_pmp(0x1000, PMPPerm::R), Ok(()));
    assert_eq!(cpu.check_pmp(0x1FFF, PMPPerm::W), Err(Error::PMPFault));
    assert_eq!(cpu.check_pmp(0x0FFF, PMPPerm::W), Ok(()));
    assert_eq!(cpu.check_pmp(0x3000, PMPPerm::W), Ok(()));
    assert_eq!(cpu.check_pmp(0x3FFF, PMPPerm::R), Err(Error::PMPFault));
    assert_eq!(cpu.check_pmp(0x4000, PMPPerm::R), Ok(()));
    // the odd-numbered configuration registers hold no entry
    cpu.reg.set_csr(PMPCFG0 + 1, u64::MAX).unwrap();
    assert_eq!(cpu.check_pmp(0x4000, PMPPerm::R), Ok(()));
}

#[test]
fn pmp_other_address_modes_are_unimplemented() {
    let mut cpu = cpu_with(16);
    cpu.mode = Mode::S;
    // NA4
    cpu.reg.set_csr(PMPCFG0, 0x17).unwrap();
    assert_eq!(cpu.check_pmp(MEM_OFF, PMPPerm::R), Err(Error::Unimplemented));
    // NAPOT
    cpu.reg.set_csr(PMPCFG0, 0x1F).unwrap();
    assert_eq!(cpu.check_pmp(MEM_OFF, PMPPerm::R), Err(Error::Unimplemented));
    assert_eq!(cpu.load(MEM_OFF, Width::B), Err(Error::Unimplemented));
    // an entry before it that decides is enough
    cpu.reg.set_csr(PMPCFG0, (0x1F << 8) | 0x0F).unwrap();
    cpu.reg.set_csr(PMPADDR0, u64::MAX >> 2).unwrap();
    assert_eq!(cpu.check_pmp(MEM_OFF, PMPPerm::R), Ok(()));
}

#[test]
fn pmp_with_modified_privilege() {
    let mut cpu = cpu_with(16);
    cpu.reg.set_csr(PMPCFG0, 0x08).unwrap();
    cpu.reg.set_csr(PMPADDR0, u64::MAX >> 2).unwrap();
    // MPRV with MPP = S: loads and stores are checked, fetches are not
    cpu.reg.set_csr(MSTATUS, (1 << 17) | (1 << 11)).unwrap();
    assert_eq!(cpu.check_pmp(MEM_OFF, PMPPerm::R), Err(Error::PMPFault));
    assert_eq!(cpu.check_pmp(MEM_OFF, PMPPerm::W), Err(Error::PMPFault));
    assert_eq!(cpu.check_pmp(MEM_OFF, PMPPerm::X), Ok(()));
    // MPRV with MPP = U
    cpu.reg.set_csr(MSTATUS, 1 << 17).unwrap();
    assert_eq!(cpu.check_pmp(MEM_OFF, PMPPerm::R), Err(Error::PMPFault));
    // MPRV with MPP = M
    cpu.reg.set_csr(MSTATUS, (1 << 17) | (3 << 11)).unwrap();
    assert_eq!(cpu.check_pmp(MEM_OFF, PMPPerm::R), Ok(()));
    // MPP = S without MPRV
    cpu.reg.set_csr(MSTATUS, 1 << 11).unwrap();
    assert_eq!(cpu.check_pmp(MEM_OFF, PMPPerm::R), Ok(()));
}
