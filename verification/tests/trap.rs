use kotodori::cpu::register::{
    Register, MCAUSE, MEDELEG, MEPC, MIDELEG, MIE, MIP, MSTATUS, MTVEC, SCAUSE, SEPC, SIE, SIP, SSTATUS, STVEC,
};
use kotodori::cpu::trap::{
    get_int_code, interrupt, is_disabled_int, m_int, m_trap, s_int, s_trap, timer_int, MIP_MEIP, MIP_MSIP, MIP_MTIP,
    MIP_SEIP, MIP_SSIP, MIP_STIP,
};
use kotodori::cpu::Mode;

fn regs(values: &[(u16, u64)]) -> Register {
    let mut reg = Register::new();
    reg.set_pc(0x8000_0100);
    reg.set_csr(MTVEC, 0x1000).unwrap();
    reg.set_csr(STVEC, 0x2000).unwrap();
    for (idx, v) in values {
        reg.set_csr(*idx, *v).unwrap();
    }
    reg
}

fn csrs(reg: &Register, idx: &[u16]) -> Vec<u64> {
    idx.iter().map(|i| reg.get_csr(*i).unwrap()).collect()
}

#[test]
fn pending_bits_layout() {
    assert_eq!((MIP_SSIP, MIP_MSIP, MIP_STIP, MIP_MTIP, MIP_SEIP, MIP_MEIP), (2, 8, 32, 128, 512, 2048));
}

#[test]
fn pending_source_follows_the_fixed_order() {
    let all = MIP_SSIP | MIP_MSIP | MIP_STIP | MIP_MTIP | MIP_SEIP | MIP_MEIP;
    let order = [MIP_SSIP, MIP_MSIP, MIP_STIP, MIP_MTIP, MIP_SEIP, MIP_MEIP];
    let mut mask = all;
    for bit in order {
        assert_eq!(get_int_code(&regs(&[(MIP, mask)])), Some((bit, Mode::M)));
        assert_eq!(get_int_code(&regs(&[(SIP, mask)])), Some((bit, Mode::S)));
        mask &= !bit;
    }
    assert_eq!(get_int_code(&regs(&[])), None);
    // bits that stand for no source are not looked at
    assert_eq!(get_int_code(&regs(&[(MIP, 1 | 4 | 16 | 64 | 256 | 1024 | 4096), (SIP, 1)])), None);
}

#[test]
fn machine_pending_is_preferred_for_the_same_source() {
    assert_eq!(get_int_code(&regs(&[(MIP, MIP_MTIP), (SIP, MIP_MTIP)])), Some((MIP_MTIP, Mode::M)));
    // an earlier source wins, for whichever mode it is pending
    assert_eq!(get_int_code(&regs(&[(MIP, MIP_MTIP), (SIP, MIP_SSIP)])), Some((MIP_SSIP, Mode::S)));
    assert_eq!(get_int_code(&regs(&[(MIP, MIP_MSIP), (SIP, MIP_STIP)])), Some((MIP_MSIP, Mode::M)));
}

#[test]
fn source_enable() {
    let reg = regs(&[(MIE, MIP_MTIP), (SIE, MIP_SSIP)]);
    assert!(!is_disabled_int(&reg, MIP_MTIP, &Mode::M));
    assert!(is_disabled_int(&reg, MIP_MSIP, &Mode::M));
    assert!(is_disabled_int(&reg, MIP_MTIP, &Mode::S));
    assert!(!is_disabled_int(&reg, MIP_SSIP, &Mode::S));
    assert!(!is_disabled_int(&reg, MIP_SSIP, &Mode::U));
}

#[test]
fn machine_delivery() {
    let mut reg = regs(&[(MSTATUS, 0b1000), (SSTATUS, 0x22)]);
    let mut mode = Mode::S;
    m_int(&mut reg, &mut mode, MIP_MTIP);
    assert_eq!(mode, Mode::M);
    assert_eq!(reg.pc, 0x1000);
    // MPIE takes MIE, MIE is cleared, MPP = S
    assert_eq!(csrs(&reg, &[MSTATUS, MEPC, MCAUSE]), vec![0x880, 0x8000_0100, 0x8000_0000_0000_0007]);
    assert_eq!(csrs(&reg, &[SSTATUS, SEPC, SCAUSE]), vec![0x22, 0, 0]);

    let mut reg = regs(&[(MSTATUS, 0x1880 | (1 << 17))]);
    let mut mode = Mode::U;
    m_int(&mut reg, &mut mode, MIP_MEIP);
    // MIE was clear: MPIE is cleared; MPP = U; the other bits stay
    assert_eq!(csrs(&reg, &[MSTATUS, MCAUSE]), vec![1 << 17, 0x8000_0000_0000_000B]);

    let mut reg = regs(&[(MSTATUS, 0b1000)]);
    let mut mode = Mode::M;
    m_int(&mut reg, &mut mode, MIP_MSIP);
    assert_eq!(csrs(&reg, &[MSTATUS, MCAUSE]), vec![0x1880, 0x8000_0000_0000_0003]);
}

#[test]
fn supervisor_delivery() {
    let mut reg = regs(&[(SSTATUS, 0b0010), (MSTATUS, 0x8)]);
    let mut mode = Mode::S;
    s_int(&mut reg, &mut mode, MIP_SSIP);
    assert_eq!(mode, Mode::S);
    assert_eq!(reg.pc, 0x2000);
    // SPIE takes SIE, SIE is cleared, SPP = 1
    assert_eq!(csrs(&reg, &[SSTATUS, SEPC, SCAUSE]), vec![0x120, 0x8000_0100, 0x8000_0000_0000_0001]);
    assert_eq!(csrs(&reg, &[MSTATUS, MEPC, MCAUSE]), vec![0x8, 0, 0]);

    let mut reg = regs(&[(SSTATUS, 0x120)]);
    let mut mode = Mode::U;
    s_int(&mut reg, &mut mode, MIP_SEIP);
    assert_eq!(mode, Mode::S);
    assert_eq!(csrs(&reg, &[SSTATUS, SCAUSE]), vec![0, 0x8000_0000_0000_0009]);
    let mut reg = regs(&[]);
    let mut mode = Mode::U;
    s_int(&mut reg, &mut mode, MIP_STIP);
    assert_eq!(csrs(&reg, &[SCAUSE]), vec![0x8000_0000_0000_0005]);
}

#[test]
fn interrupt_in_machine_mode_needs_mie() {
    let mut reg = regs(&[(MIP, MIP_MTIP), (MIE, MIP_MTIP)]);
    let mut mode = Mode::M;
    interrupt(&mut reg, &mut mode);
    assert_eq!((mode, reg.pc), (Mode::M, 0x8000_0100));
    assert_eq!(csrs(&reg, &[MIP, MEPC, MCAUSE, MSTATUS]), vec![MIP_MTIP, 0, 0, 0]);

    reg.set_csr(MSTATUS, 0b1000).unwrap();
    interrupt(&mut reg, &mut mode);
    assert_eq!((mode, reg.pc), (Mode::M, 0x1000));
    // the pending bit is cleared after delivery
    assert_eq!(csrs(&reg, &[MIP, MEPC, MCAUSE, MSTATUS]), vec![0, 0x8000_0100, 0x8000_0000_0000_0007, 0x1880]);
    assert_eq!(csrs(&reg, &[SEPC, SCAUSE, SSTATUS, SIP]), vec![0, 0, 0, 0]);
}

#[test]
fn interrupt_needs_its_source_enabled() {
    let mut reg = regs(&[(MIP, MIP_MTIP | MIP_MEIP), (MIE, MIP_MEIP), (MSTATUS, 0b1000)]);
    let mut mode = Mode::M;
    interrupt(&mut reg, &mut mode);
    // the timer interrupt is looked at first, and it is switched off
    assert_eq!((mode, reg.pc), (Mode::M, 0x8000_0100));
    assert_eq!(csrs(&reg, &[MIP, MSTATUS]), vec![MIP_MTIP | MIP_MEIP, 0b1000]);
}

#[test]
fn interrupt_to_a_higher_mode_is_always_taken() {
    for from in [Mode::S, Mode::U] {
        let mut reg = regs(&[(MIP, MIP_MEIP), (MIE, MIP_MEIP)]);
        let mut mode = from;
        interrupt(&mut reg, &mut mode);
        assert_eq!((mode, reg.pc), (Mode::M, 0x1000));
        let mpp = if from == Mode::S { 1 } else { 0 };
        assert_eq!(csrs(&reg, &[MIP, MCAUSE, MSTATUS]), vec![0, 0x8000_0000_0000_000B, mpp << 11]);
    }
    let mut reg = regs(&[(SIP, MIP_SSIP), (SIE, MIP_SSIP)]);
    let mut mode = Mode::U;
    interrupt(&mut reg, &mut mode);
    assert_eq!((mode, reg.pc), (Mode::S, 0x2000));
    assert_eq!(csrs(&reg, &[SIP, SCAUSE, SEPC, SSTATUS]), vec![0, 0x8000_0000_0000_0001, 0x8000_0100, 0]);
}

#[test]
fn delegated_interrupt_goes_to_supervisor_mode() {
    let mut reg = regs(&[(MIP, MIP_STIP), (MIE, MIP_STIP), (MIDELEG, MIP_STIP), (SSTATUS, 0b10)]);
    let mut mode = Mode::S;
    interrupt(&mut reg, &mut mode);
    assert_eq!((mode, reg.pc), (Mode::S, 0x2000));
    // the bit is cleared where it was pending
    assert_eq!(csrs(&reg, &[MIP, SCAUSE, SEPC, SSTATUS]), vec![0, 0x8000_0000_0000_0005, 0x8000_0100, 0x120]);
    assert_eq!(csrs(&reg, &[MEPC, MCAUSE, MSTATUS]), vec![0, 0, 0]);

    // with SIE clear it is not taken in supervisor mode
    let mut reg = regs(&[(MIP, MIP_STIP), (MIE, MIP_STIP), (MIDELEG, MIP_STIP)]);
    let mut mode = Mode::S;
    interrupt(&mut reg, &mut mode);
    assert_eq!((mode, reg.pc), (Mode::S, 0x8000_0100));
    assert_eq!(csrs(&reg, &[MIP]), vec![MIP_STIP]);

    // and never in machine mode
    let mut reg = regs(&[(MIP, MIP_STIP), (MIE, MIP_STIP), (MIDELEG, MIP_STIP), (MSTATUS, 0b1000), (SSTATUS, 0b10)]);
    let mut mode = Mode::M;
    interrupt(&mut reg, &mut mode);
    assert_eq!((mode, reg.pc), (Mode::M, 0x8000_0100));
    assert_eq!(csrs(&reg, &[MIP, MSTATUS, SSTATUS]), vec![MIP_STIP, 0b1000, 0b10]);
}

#[test]
fn supervisor_pending_interrupt() {
    let mut reg = regs(&[(SIP, MIP_SEIP), (SIE, MIP_SEIP), (SSTATUS, 0b10), (MIE, 0)]);
    let mut mode = Mode::S;
    interrupt(&mut reg, &mut mode);
    assert_eq!((mode, reg.pc), (Mode::S, 0x2000));
    assert_eq!(csrs(&reg, &[SIP, SCAUSE]), vec![0, 0x8000_0000_0000_0009]);
    // switched off in sie
    let mut reg = regs(&[(SIP, MIP_SEIP), (SIE, MIP_SSIP), (SSTATUS, 0b10), (MIE, MIP_SEIP)]);
    let mut mode = Mode::S;
    interrupt(&mut reg, &mut mode);
    assert_eq!((mode, reg.pc), (Mode::S, 0x8000_0100));
}

#[test]
fn timer_sets_the_pending_bit() {
    let mut reg = regs(&[(MIP, MIP_SSIP)]);
    timer_int(&mut reg, 99, 100);
    assert_eq!(csrs(&reg, &[MIP]), vec![MIP_SSIP]);
    timer_int(&mut reg, 100, 100);
    assert_eq!(csrs(&reg, &[MIP]), vec![MIP_SSIP | MIP_MTIP]);
    timer_int(&mut reg, 0, 100);
    assert_eq!(csrs(&reg, &[MIP]), vec![MIP_SSIP | MIP_MTIP]);
    let mut reg = regs(&[]);
    timer_int(&mut reg, u64::MAX, 0);
    assert_eq!(csrs(&reg, &[MIP, MCAUSE]), vec![MIP_MTIP, 0]);
    assert_eq!(reg.pc, 0x8000_0100);
}

#[test]
fn exceptions_are_routed_by_medeleg() {
    let mut reg = regs(&[(MCAUSE, 8), (MEDELEG, 1 << 8)]);
    let mut mode = Mode::U;
    m_trap(&mut reg, &mut mode);
    assert_eq!(mode, Mode::S);
    let mut reg = regs(&[(MCAUSE, 8), (MEDELEG, !(1 << 8))]);
    let mut mode = Mode::U;
    m_trap(&mut reg, &mut mode);
    assert_eq!(mode, Mode::M);
    // the interrupt bit of the cause is not part of the code
    let mut reg = regs(&[(MCAUSE, (1 << 63) | 3), (MEDELEG, 1 << 3)]);
    let mut mode = Mode::S;
    m_trap(&mut reg, &mut mode);
    assert_eq!(mode, Mode::S);
    // a code that medeleg has no bit for
    let mut reg = regs(&[(MCAUSE, 64), (MEDELEG, u64::MAX)]);
    let mut mode = Mode::S;
    m_trap(&mut reg, &mut mode);
    assert_eq!(mode, Mode::M);
    assert_eq!(csrs(&reg, &[MCAUSE, MEDELEG, MEPC]), vec![64, u64::MAX, 0]);
    let mut mode = Mode::U;
    s_trap(&mut reg, &mut mode);
    assert_eq!(mode, Mode::U);
    assert_eq!(reg.pc, 0x8000_0100);
}
