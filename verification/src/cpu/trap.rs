//! The interrupt unit: which pending interrupt is taken, which mode handles
//! it, and what entering the handler does to the status registers.
use vstd::prelude::*;
use super::register::{
    Register, RegisterView, MCAUSE, MEDELEG, MEPC, MIDELEG, MIE, MIP, MSTATUS, MTVEC, SCAUSE, SEPC, SIE, SIP, SSTATUS,
    STVEC,
};
use super::Mode;

verus! {

pub const MSTATUS_MIE: u64 = 0b1000;
pub const MSTATUS_MPIE: u64 = 0b1000_0000;
pub const MSTATUS_MPP: u64 = 0b1_1000_0000_0000;
pub const SSTATUS_SIE: u64 = 0b0010;
pub const SSTATUS_SPIE: u64 = 0b10_0000;
pub const SSTATUS_SPP: u64 = 0b1_0000_0000;

/// Supervisor software interrupt.
pub const MIP_SSIP: u64 = 0b0000_0000_0010;
/// Machine software interrupt.
pub const MIP_MSIP: u64 = 0b0000_0000_1000;
/// Supervisor timer interrupt.
pub const MIP_STIP: u64 = 0b0000_0010_0000;
/// Machine timer interrupt.
pub const MIP_MTIP: u64 = 0b0000_1000_0000;
/// Supervisor external interrupt.
pub const MIP_SEIP: u64 = 0b0010_0000_0000;
/// Machine external interrupt.
pub const MIP_MEIP: u64 = 0b1000_0000_0000;

/// The bit that marks a cause as an interrupt.
pub const CAUSE_INTERRUPT: u64 = 0x8000_0000_0000_0000;

/// The candidate that one source gives: pending for machine mode where
/// `mip` has its bit, else pending for supervisor mode where `sip` has it.
pub open spec fn candidate(mip: u64, sip: u64, bit: u64) -> Option<(u64, Mode)> {
    if mip & bit != 0 {
        Some((bit, Mode::M))
    } else if sip & bit != 0 {
        Some((bit, Mode::S))
    } else {
        None
    }
}

/// The pending interrupt that is looked at: the first source, in the fixed
/// order SSIP, MSIP, STIP, MTIP, SEIP, MEIP, that is pending in `mip` or in
/// `sip`, with its bit and the mode it is pending for.
pub open spec fn pending_source(mip: u64, sip: u64) -> Option<(u64, Mode)> {
    if candidate(mip, sip, MIP_SSIP) is Some {
        candidate(mip, sip, MIP_SSIP)
    } else if candidate(mip, sip, MIP_MSIP) is Some {
        candidate(mip, sip, MIP_MSIP)
    } else if candidate(mip, sip, MIP_STIP) is Some {
        candidate(mip, sip, MIP_STIP)
    } else if candidate(mip, sip, MIP_MTIP) is Some {
        candidate(mip, sip, MIP_MTIP)
    } else if candidate(mip, sip, MIP_SEIP) is Some {
        candidate(mip, sip, MIP_SEIP)
    } else {
        candidate(mip, sip, MIP_MEIP)
    }
}

/// The cause code of the interrupt with the given pending bit: the number
/// of the bit.
pub open spec fn cause_code(bit: u64) -> u64 {
    if bit == MIP_SSIP {
        1
    } else if bit == MIP_MSIP {
        3
    } else if bit == MIP_STIP {
        5
    } else if bit == MIP_MTIP {
        7
    } else if bit == MIP_SEIP {
        9
    } else {
        11
    }
}

/// Whether the source is switched off in the enable register of the mode it
/// is pending for.
pub open spec fn is_disabled(reg: RegisterView, int_code: u64, int_mode: Mode) -> bool {
    match int_mode {
        Mode::M => int_code & reg.csr[MIE] == 0,
        Mode::S => int_code & reg.csr[SIE] == 0,
        Mode::U => false,
    }
}

/// The mode that handles a candidate: supervisor mode for one that is
/// pending for it, and for one that machine mode delegates; else machine mode.
pub open spec fn routed_to(reg: RegisterView, int_code: u64, int_mode: Mode) -> Mode {
    if int_mode == Mode::M && reg.csr[MIDELEG] & int_code == 0 {
        Mode::M
    } else {
        Mode::S
    }
}

/// Whether the hart, in mode `current`, takes an interrupt for mode
/// `target`: always for a higher mode, never for a lower one, and for its
/// own mode where the mode's interrupt-enable bit is set.
pub open spec fn gate_open(reg: RegisterView, current: Mode, target: Mode) -> bool {
    match (current, target) {
        (Mode::M, Mode::M) => reg.csr[MSTATUS] & MSTATUS_MIE != 0,
        (Mode::M, _) => false,
        (Mode::S, Mode::M) => true,
        (Mode::S, _) => reg.csr[SSTATUS] & SSTATUS_SIE != 0,
        (Mode::U, _) => true,
    }
}

/// The interrupt that is taken, if any: the pending bit, the mode it is
/// pending for, and the mode that handles it.
pub open spec fn taken(reg: RegisterView, current: Mode) -> Option<(u64, Mode, Mode)> {
    match pending_source(reg.csr[MIP], reg.csr[SIP]) {
        None => None,
        Some((bit, int_mode)) => {
            let target = routed_to(reg, bit, int_mode);
            if is_disabled(reg, bit, int_mode) || !gate_open(reg, current, target) {
                None
            } else {
                Some((bit, int_mode, target))
            }
        },
    }
}

/// The two bits that stand for a mode in `mstatus.MPP`.
pub open spec fn mode_bits(mode: Mode) -> u64 {
    match mode {
        Mode::U => 0,
        Mode::S => 1,
        Mode::M => 3,
    }
}

/// `mstatus` on entry to a machine-mode handler: `MPIE` takes `MIE`, `MIE`
/// is cleared, `MPP` takes the mode that was interrupted.
pub open spec fn mstatus_on_entry(mstatus: u64, from: Mode) -> u64 {
    (mstatus & !(MSTATUS_MIE | MSTATUS_MPIE | MSTATUS_MPP)) | (if mstatus & MSTATUS_MIE != 0 {
        MSTATUS_MPIE
    } else {
        0
    }) | (mode_bits(from) << 11)
}

/// `sstatus` on entry to a supervisor-mode handler: `SPIE` takes `SIE`,
/// `SIE` is cleared, `SPP` tells whether the hart was above user mode.
pub open spec fn sstatus_on_entry(sstatus: u64, from: Mode) -> u64 {
    (sstatus & !(SSTATUS_SIE | SSTATUS_SPIE | SSTATUS_SPP)) | (if sstatus & SSTATUS_SIE != 0 {
        SSTATUS_SPIE
    } else {
        0
    }) | (if from == Mode::U {
        0
    } else {
        SSTATUS_SPP
    })
}

/// Delivery to machine mode: `mstatus`, `mepc` and `mcause` record where
/// the hart was and why, and the hart goes to `mtvec`.
pub open spec fn m_deliver(reg: RegisterView, from: Mode, int_code: u64) -> RegisterView {
    reg.write_csr(MSTATUS, mstatus_on_entry(reg.csr[MSTATUS], from)).write_csr(MEPC, reg.pc).write_csr(
        MCAUSE,
        CAUSE_INTERRUPT | cause_code(int_code),
    ).write_pc(reg.csr[MTVEC])
}

/// Delivery to supervisor mode: as to machine mode, on `sstatus`, `sepc`,
/// `scause` and `stvec`.
pub open spec fn s_deliver(reg: RegisterView, from: Mode, int_code: u64) -> RegisterView {
    reg.write_csr(SSTATUS, sstatus_on_entry(reg.csr[SSTATUS], from)).write_csr(SEPC, reg.pc).write_csr(
        SCAUSE,
        CAUSE_INTERRUPT | cause_code(int_code),
    ).write_pc(reg.csr[STVEC])
}

/// The register file with the pending bit of a delivered interrupt cleared,
/// in `mip` or `sip` by the mode it was pending for.
pub open spec fn clear_pending(reg: RegisterView, int_code: u64, int_mode: Mode) -> RegisterView {
    match int_mode {
        Mode::M => reg.write_csr(MIP, reg.csr[MIP] & !int_code),
        Mode::S => reg.write_csr(SIP, reg.csr[SIP] & !int_code),
        Mode::U => reg,
    }
}

/// What the interrupt unit does in one tick: where an interrupt is taken it
/// is delivered to the mode that handles it and its pending bit is cleared;
/// otherwise nothing changes.
pub open spec fn interrupt_spec(reg: RegisterView, current: Mode) -> (RegisterView, Mode) {
    match taken(reg, current) {
        None => (reg, current),
        Some((bit, int_mode, target)) => if target == Mode::M {
            (clear_pending(m_deliver(reg, current, bit), bit, int_mode), Mode::M)
        } else {
            (clear_pending(s_deliver(reg, current, bit), bit, int_mode), Mode::S)
        },
    }
}

/// The register file after the timer was looked at: the machine timer
/// interrupt is pending once the timer has reached its comparand.
pub open spec fn timer_spec(reg: RegisterView, mtime: u64, limit: u64) -> RegisterView {
    if mtime >= limit {
        reg.write_csr(MIP, reg.csr[MIP] | MIP_MTIP)
    } else {
        reg
    }
}

/// Sets the machine timer interrupt pending where the timer has reached its
/// comparand.
pub fn timer_int(reg: &mut Register, mtime: u64, mtimecmp: u64)
    ensures
        final(reg)@ == timer_spec(old(reg)@, mtime, mtimecmp),
{
    if mtime >= mtimecmp {
        let mip = reg.csr(MIP);
        reg.write_csr(MIP, mip | MIP_MTIP);
    }
}

/// Takes the pending interrupt that is due, if there is one.
pub fn interrupt(reg: &mut Register, current_mode: &mut Mode)
    ensures
        (final(reg)@, *final(current_mode)) == interrupt_spec(old(reg)@, *old(current_mode)),
{
    let (int_code, int_mode) = match get_int_code(reg) {
        Some(c) => c,
        None => {
            return ;
        },
    };
    if is_disabled_int(reg, int_code, &int_mode) {
        return ;
    }
    let to_m = match int_mode {
        Mode::M => reg.csr(MIDELEG) & int_code == 0,
        _ => false,
    };
    if to_m {
        match *current_mode {
            Mode::M => {
                if reg.csr(MSTATUS) & MSTATUS_MIE == 0 {
                    return ;
                }
            },
            _ => {},
        }
        m_int(reg, current_mode, int_code);
    } else {
        match *current_mode {
            Mode::M => {
                return ;
            },
            Mode::S => {
                if reg.csr(SSTATUS) & SSTATUS_SIE == 0 {
                    return ;
                }
            },
            Mode::U => {},
        }
        s_int(reg, current_mode, int_code);
    }
    // free the interrupt pending bit
    match int_mode {
        Mode::M => {
            let mip = reg.csr(MIP);
            reg.write_csr(MIP, mip & !int_code);
        },
        Mode::S => {
            let sip = reg.csr(SIP);
            reg.write_csr(SIP, sip & !int_code);
        },
        Mode::U => {},
    }
}

/// Looks one source up in `mip` and `sip`.
fn pending_in(mip: u64, sip: u64, bit: u64) -> (r: Option<(u64, Mode)>)
    ensures
        r == candidate(mip, sip, bit),
{
    if mip & bit != 0 {
        Some((bit, Mode::M))
    } else if sip & bit != 0 {
        Some((bit, Mode::S))
    } else {
        None
    }
}

/// Picks the pending interrupt that is looked at in this tick.
pub fn get_int_code(reg: &Register) -> (r: Option<(u64, Mode)>)
    ensures
        r == pending_source(reg@.csr[MIP], reg@.csr[SIP]),
{
    let mip = reg.csr(MIP);
    let sip = reg.csr(SIP);
    let c = pending_in(mip, sip, MIP_SSIP);
    if c.is_some() {
        return c;
    }
    let c = pending_in(mip, sip, MIP_MSIP);
    if c.is_some() {
        return c;
    }
    let c = pending_in(mip, sip, MIP_STIP);
    if c.is_some() {
        return c;
    }
    let c = pending_in(mip, sip, MIP_MTIP);
    if c.is_some() {
        return c;
    }
    let c = pending_in(mip, sip, MIP_SEIP);
    if c.is_some() {
        return c;
    }
    pending_in(mip, sip, MIP_MEIP)
}

/// Tells whether the enable register of the mode that the interrupt is
/// pending for has the source switched off.
pub fn is_disabled_int(reg: &Register, int_code: u64, int_mode: &Mode) -> (r: bool)
    ensures
        r == is_disabled(reg@, int_code, *int_mode),
{
    match *int_mode {
        Mode::M => {
            if (int_code & reg.csr(MIE)) == 0 {
                return true;
            }
        },
        Mode::S => {
            if (int_code & reg.csr(SIE)) == 0 {
                return true;
            }
        },
        _ => (),
    }
    false
}

/// The cause code of the interrupt with the given pending bit.
fn int_cause(int_code: u64) -> (r: u64)
    ensures
        r == cause_code(int_code),
{
    match int_code {
        0b0000_0000_0010 => 1,
        0b0000_0000_1000 => 3,
        0b0000_0010_0000 => 5,
        0b0000_1000_0000 => 7,
        0b0010_0000_0000 => 9,
        _ => 11,
    }
}

/// Enters the machine-mode handler for the interrupt `int_code`.
pub fn m_int(reg: &mut Register, current_mode: &mut Mode, int_code: u64)
    ensures
        final(reg)@ == m_deliver(old(reg)@, *old(current_mode), int_code),
        *final(current_mode) == Mode::M,
{
    let mstatus = reg.csr(MSTATUS);
    let mpie = if mstatus & MSTATUS_MIE != 0 {
        MSTATUS_MPIE
    } else {
        0
    };
    let mpp: u64 = match *current_mode {
        Mode::U => 0,
        Mode::S => 1,
        Mode::M => 3,
    };
    *current_mode = Mode::M;
    reg.write_csr(MSTATUS, (mstatus & !(MSTATUS_MIE | MSTATUS_MPIE | MSTATUS_MPP)) | mpie | (mpp << 11));
    let pc = reg.pc;
    reg.write_csr(MEPC, pc);
    reg.write_csr(MCAUSE, CAUSE_INTERRUPT | int_cause(int_code));
    let mtvec = reg.csr(MTVEC);
    reg.set_pc(mtvec);
}

/// Enters the supervisor-mode handler for the interrupt `int_code`.
pub fn s_int(reg: &mut Register, current_mode: &mut Mode, int_code: u64)
    ensures
        final(reg)@ == s_deliver(old(reg)@, *old(current_mode), int_code),
        *final(current_mode) == Mode::S,
{
    let sstatus = reg.csr(SSTATUS);
    let spie = if sstatus & SSTATUS_SIE != 0 {
        SSTATUS_SPIE
    } else {
        0
    };
    let spp: u64 = match *current_mode {
        Mode::U => 0,
        _ => SSTATUS_SPP,
    };
    *current_mode = Mode::S;
    reg.write_csr(SSTATUS, (sstatus & !(SSTATUS_SIE | SSTATUS_SPIE | SSTATUS_SPP)) | spie | spp);
    let pc = reg.pc;
    reg.write_csr(SEPC, pc);
    reg.write_csr(SCAUSE, CAUSE_INTERRUPT | int_cause(int_code));
    let stvec = reg.csr(STVEC);
    reg.set_pc(stvec);
}

/// Whether machine mode hands the exception in `mcause` down to supervisor
/// mode: `medeleg` has the bit of its code.
pub open spec fn delegated(reg: RegisterView) -> bool {
    let e_code = reg.csr[MCAUSE] & 0x7FFF_FFFF_FFFF_FFFF;
    e_code < 64 && (reg.csr[MEDELEG] >> e_code) & 1 != 0
}

/// Routes the synchronous exception whose cause is in `mcause`: the hart
/// enters supervisor mode where the exception is delegated, else machine
/// mode. The registers are left as they are.
pub fn m_trap(reg: &mut Register, current_mode: &mut Mode)
    ensures
        final(reg)@ == old(reg)@,
        *final(current_mode) == (if delegated(old(reg)@) {
            Mode::S
        } else {
            Mode::M
        }),
{
    let e_code = reg.csr(MCAUSE) & 0x7FFF_FFFF_FFFF_FFFF;
    if e_code < 64 && (reg.csr(MEDELEG) >> e_code) & 1 != 0 {
        s_exception(reg, current_mode, e_code);
    } else {
        m_exception(reg, current_mode, e_code);
    }
}

/// Routes a synchronous exception that was raised in supervisor mode:
/// nothing is delegated further, and nothing changes.
pub fn s_trap(reg: &mut Register, current_mode: &mut Mode)
    ensures
        final(reg)@ == old(reg)@,
        *final(current_mode) == *old(current_mode),
{
}

fn m_exception(reg: &mut Register, mode: &mut Mode, e_code: u64)
    ensures
        final(reg)@ == old(reg)@,
        *final(mode) == Mode::M,
{
    *mode = Mode::M;
}

fn s_exception(reg: &mut Register, mode: &mut Mode, e_code: u64)
    ensures
        final(reg)@ == old(reg)@,
        *final(mode) == Mode::S,
{
    *mode = Mode::S;
}

/// What `mstatus` and `sstatus` hold on entry to a handler: the interrupt
/// enable bit is clear, the previous-enable bit is what the enable bit was,
/// and the previous-privilege field names the mode that was interrupted.
pub proof fn lemma_status_on_entry(status: u64, from: Mode)
    ensures
        mstatus_on_entry(status, from) & MSTATUS_MIE == 0,
        (mstatus_on_entry(status, from) & MSTATUS_MPIE != 0) == (status & MSTATUS_MIE != 0),
        (mstatus_on_entry(status, from) & MSTATUS_MPP) >> 11 == mode_bits(from),
        sstatus_on_entry(status, from) & SSTATUS_SIE == 0,
        (sstatus_on_entry(status, from) & SSTATUS_SPIE != 0) == (status & SSTATUS_SIE != 0),
        (sstatus_on_entry(status, from) & SSTATUS_SPP != 0) == (from != Mode::U),
{
    let m = mode_bits(from);
    let p: u64 = if from == Mode::U {
        0
    } else {
        SSTATUS_SPP
    };
    assert(m <= 3 ==> {
        let e = (status & !(0b1000u64 | 0b1000_0000u64 | 0b1_1000_0000_0000u64)) | (if status & 0b1000u64 != 0 {
            0b1000_0000u64
        } else {
            0u64
        }) | (m << 11);
        &&& e & 0b1000u64 == 0
        &&& (e & 0b1000_0000u64 != 0) == (status & 0b1000u64 != 0)
        &&& (e & 0b1_1000_0000_0000u64) >> 11 == m
    }) by (bit_vector);
    assert(p == 0 || p == 0b1_0000_0000u64 ==> {
        let e = (status & !(0b0010u64 | 0b10_0000u64 | 0b1_0000_0000u64)) | (if status & 0b0010u64 != 0 {
            0b10_0000u64
        } else {
            0u64
        }) | p;
        &&& e & 0b0010u64 == 0
        &&& (e & 0b10_0000u64 != 0) == (status & 0b0010u64 != 0)
        &&& (e & 0b1_0000_0000u64 != 0) == (p != 0)
    }) by (bit_vector);
}

/// Every interrupt that is taken is delivered to exactly one mode. Where
/// that is machine mode, `mepc`, `mcause` and `mstatus` record the entry,
/// the supervisor's three registers are as they were, and the hart is in
/// machine mode at `mtvec`. Where it is supervisor mode, `sepc`, `scause`
/// and `sstatus` record the entry, the machine's three registers are as
/// they were, and the hart is in supervisor mode at `stvec`. Where none is
/// taken, nothing changes.
pub proof fn lemma_interrupt_delivery(reg: RegisterView, current: Mode)
    ensures
        taken(reg, current) is None ==> interrupt_spec(reg, current) == (reg, current),
        taken(reg, current) matches Some((bit, int_mode, target)) ==> {
            let (after, mode) = interrupt_spec(reg, current);
            &&& target == Mode::M || target == Mode::S
            &&& mode == target
            &&& target == Mode::M ==> {
                &&& after.pc == reg.csr[MTVEC]
                &&& after.csr[MEPC] == reg.pc
                &&& after.csr[MCAUSE] == CAUSE_INTERRUPT | cause_code(bit)
                &&& after.csr[MSTATUS] == mstatus_on_entry(reg.csr[MSTATUS], current)
                &&& after.csr[SEPC] == reg.csr[SEPC]
                &&& after.csr[SCAUSE] == reg.csr[SCAUSE]
                &&& after.csr[SSTATUS] == reg.csr[SSTATUS]
            }
            &&& target == Mode::S ==> {
                &&& after.pc == reg.csr[STVEC]
                &&& after.csr[SEPC] == reg.pc
                &&& after.csr[SCAUSE] == CAUSE_INTERRUPT | cause_code(bit)
                &&& after.csr[SSTATUS] == sstatus_on_entry(reg.csr[SSTATUS], current)
                &&& after.csr[MEPC] == reg.csr[MEPC]
                &&& after.csr[MCAUSE] == reg.csr[MCAUSE]
                &&& after.csr[MSTATUS] == reg.csr[MSTATUS]
            }
            &&& after.x == reg.x
        },
{
}

/// After the timer was looked at, the machine timer interrupt is pending
/// exactly if the timer has reached its comparand or the interrupt was
/// pending before.
pub proof fn lemma_timer_pending(reg: RegisterView, mtime: u64, limit: u64)
    ensures
        (timer_spec(reg, mtime, limit).csr[MIP] & MIP_MTIP != 0) == (mtime >= limit || reg.csr[MIP] & MIP_MTIP != 0),
{
    let mip = reg.csr[MIP];
    assert((mip | 0b1000_0000u64) & 0b1000_0000u64 != 0) by (bit_vector);
}

/// With no interrupt pending before, the timer interrupt is taken in a tick
/// exactly if the timer has reached its comparand by the end of the tick,
/// the source is enabled in `mie`, and the hart takes interrupts for the
/// mode that handles it. It is then delivered with cause 7, to machine mode
/// at `mtvec`, or to supervisor mode at `stvec` where it is delegated, and
/// is no longer pending.
pub proof fn lemma_timer_fires(reg: RegisterView, current: Mode, mtime: u64, limit: u64)
    requires
        reg.csr[MIP] == 0,
        reg.csr[SIP] == 0,
    ensures
        taken(timer_spec(reg, mtime, limit), current) is Some <==> mtime >= limit && MIP_MTIP & reg.csr[MIE] != 0
            && gate_open(reg, current, routed_to(reg, MIP_MTIP, Mode::M)),
        taken(timer_spec(reg, mtime, limit), current) is Some ==> {
            let (after, mode) = interrupt_spec(timer_spec(reg, mtime, limit), current);
            &&& mode == routed_to(reg, MIP_MTIP, Mode::M)
            &&& mode == Mode::M ==> after.pc == reg.csr[MTVEC] && after.csr[MCAUSE] == 0x8000_0000_0000_0007
                && after.csr[MEPC] == reg.pc
            &&& mode == Mode::S ==> after.pc == reg.csr[STVEC] && after.csr[SCAUSE] == 0x8000_0000_0000_0007
                && after.csr[SEPC] == reg.pc
            &&& after.csr[MIP] == 0
        },
{
    assert({
        &&& 0u64 & 0b0000_0000_0010u64 == 0
        &&& 0u64 & 0b0000_0000_1000u64 == 0
        &&& 0u64 & 0b0000_0010_0000u64 == 0
        &&& 0u64 & 0b0000_1000_0000u64 == 0
        &&& 0u64 & 0b0010_0000_0000u64 == 0
        &&& 0u64 & 0b1000_0000_0000u64 == 0
        &&& (0u64 | 0b1000_0000u64) & 0b0000_0000_0010u64 == 0
        &&& (0u64 | 0b1000_0000u64) & 0b0000_0000_1000u64 == 0
        &&& (0u64 | 0b1000_0000u64) & 0b0000_0010_0000u64 == 0
        &&& (0u64 | 0b1000_0000u64) & 0b0000_1000_0000u64 != 0
        &&& (0u64 | 0b1000_0000u64) & !0b1000_0000u64 == 0
        &&& 0x8000_0000_0000_0000u64 | 7 == 0x8000_0000_0000_0007u64
    }) by (bit_vector);
}

/// The interrupt unit leaves the integer registers alone and writes no CSR
/// but those that there are.
pub proof fn lemma_interrupt_keeps_registers(reg: RegisterView, current: Mode)
    requires
        reg.wf(),
    ensures
        interrupt_spec(reg, current).0.wf(),
        interrupt_spec(reg, current).0.x == reg.x,
{
    let (after, _) = interrupt_spec(reg, current);
    assert forall|i: u16| after.csr.contains_key(i) <==> super::register::is_csr(i) by {}
}

} // verus!
