//! The register arrays of the platform-level interrupt controller.
use vstd::prelude::*;
use crate::error::Error;

verus! {

pub const PLIC: u64 = 0xC00_0000;
/// Priority of interrupt source 1; the sources up to 1023 follow, a word each.
pub const PRIORITY: u64 = PLIC + 0x4;
pub const PRIORITY_END: u64 = PLIC + 0xFFC;
/// Pending bits of the sources 0 to 1023, 32 to a word.
pub const PENDING: u64 = PLIC + 0x1000;
pub const PENDING_END: u64 = PLIC + 0x107C;
/// Enable bits, 32 words for each of the contexts 0 to 15871.
pub const ENABLE: u64 = PLIC + 0x2000;
pub const ENABLE_END: u64 = PLIC + 0x1F_1FFC;
/// Priority threshold of context 0; each context has a block of 0x1000 bytes.
pub const PRIORITY_THR0: u64 = PLIC + 0x20_0000;
/// Claim/complete register of context 0.
pub const CLAIM0: u64 = PLIC + 0x20_0004;
pub const PRIORITY_THR: u64 = PLIC + 0x20_1000;
pub const CLAIM: u64 = PLIC + 0x20_1004;
pub const CLAIM_END: u64 = PLIC + 0x3FF_F004;
pub const PLIC_END: u64 = PLIC + 0x3FF_FFFC;

/// Number of interrupt sources that have a priority.
pub const SOURCES: usize = 1023;
/// Number of words of pending bits.
pub const PENDING_WORDS: usize = 32;
/// Number of contexts.
pub const CONTEXTS: usize = 15872;
/// Number of words of enable bits, all contexts together.
pub const ENABLE_WORDS: usize = 507904;

/// The register arrays of the platform-level interrupt controller.
#[derive(Debug)]
pub struct Plic {
    pub priority: Vec<u32>,
    pub pending: Vec<u32>,
    pub enable: Vec<u32>,
    pub priority_thr: Vec<u32>,
    pub claim: Vec<u32>,
}

/// Which register of the controller an address names.
pub enum PlicReg {
    Priority(int),
    Pending(int),
    Enable(int),
    Threshold(int),
    Claim(int),
}

/// The register that `addr` names: a word of one of the five arrays, with
/// its index. Addresses that are not word-aligned, that lie in a gap, or
/// that lie in a context's block past its two registers name none.
pub open spec fn plic_reg(addr: u64) -> Option<PlicReg> {
    if addr % 4 != 0 {
        None
    } else if PRIORITY <= addr <= PRIORITY_END {
        Some(PlicReg::Priority((addr - PRIORITY) / 4))
    } else if PENDING <= addr <= PENDING_END {
        Some(PlicReg::Pending((addr - PENDING) / 4))
    } else if ENABLE <= addr <= ENABLE_END {
        Some(PlicReg::Enable((addr - ENABLE) / 4))
    } else if PRIORITY_THR0 <= addr <= CLAIM_END {
        if (addr - PRIORITY_THR0) % 0x1000 == 0 {
            Some(PlicReg::Threshold((addr - PRIORITY_THR0) / 0x1000))
        } else if (addr - PRIORITY_THR0) % 0x1000 == 4 {
            Some(PlicReg::Claim((addr - PRIORITY_THR0) / 0x1000))
        } else {
            None
        }
    } else {
        None
    }
}

/// The controller as loads and stores see it.
pub struct PlicView {
    pub priority: Seq<u32>,
    pub pending: Seq<u32>,
    pub enable: Seq<u32>,
    pub priority_thr: Seq<u32>,
    pub claim: Seq<u32>,
}

impl PlicView {
    /// Every array has its full length.
    pub open spec fn wf(self) -> bool {
        &&& self.priority.len() == SOURCES
        &&& self.pending.len() == PENDING_WORDS
        &&& self.enable.len() == ENABLE_WORDS
        &&& self.priority_thr.len() == CONTEXTS
        &&& self.claim.len() == CONTEXTS
    }

    /// Every register 0.
    pub open spec fn reset() -> PlicView {
        PlicView {
            priority: Seq::new(SOURCES as nat, |i: int| 0u32),
            pending: Seq::new(PENDING_WORDS as nat, |i: int| 0u32),
            enable: Seq::new(ENABLE_WORDS as nat, |i: int| 0u32),
            priority_thr: Seq::new(CONTEXTS as nat, |i: int| 0u32),
            claim: Seq::new(CONTEXTS as nat, |i: int| 0u32),
        }
    }

    /// What a load from `addr` gives.
    pub open spec fn read(self, addr: u64) -> Result<u64, Error> {
        match plic_reg(addr) {
            Some(PlicReg::Priority(i)) => Ok(self.priority[i] as u64),
            Some(PlicReg::Pending(i)) => Ok(self.pending[i] as u64),
            Some(PlicReg::Enable(i)) => Ok(self.enable[i] as u64),
            Some(PlicReg::Threshold(i)) => Ok(self.priority_thr[i] as u64),
            Some(PlicReg::Claim(i)) => Ok(self.claim[i] as u64),
            None => Err(Error::InvalidAddress),
        }
    }

    /// What a store of `data` to `addr` gives: the low word of `data` goes
    /// to the register.
    pub open spec fn write(self, addr: u64, data: u64) -> Result<PlicView, Error> {
        let w = data as u32;
        match plic_reg(addr) {
            Some(PlicReg::Priority(i)) => Ok(PlicView { priority: self.priority.update(i, w), ..self }),
            Some(PlicReg::Pending(i)) => Ok(PlicView { pending: self.pending.update(i, w), ..self }),
            Some(PlicReg::Enable(i)) => Ok(PlicView { enable: self.enable.update(i, w), ..self }),
            Some(PlicReg::Threshold(i)) => Ok(PlicView { priority_thr: self.priority_thr.update(i, w), ..self }),
            Some(PlicReg::Claim(i)) => Ok(PlicView { claim: self.claim.update(i, w), ..self }),
            None => Err(Error::InvalidAddress),
        }
    }
}

impl View for Plic {
    type V = PlicView;

    open spec fn view(&self) -> PlicView {
        PlicView {
            priority: self.priority@,
            pending: self.pending@,
            enable: self.enable@,
            priority_thr: self.priority_thr@,
            claim: self.claim@,
        }
    }
}

impl Plic {
    pub open spec fn wf(&self) -> bool {
        self@.wf()
    }

    /// A controller with every register 0.
    pub fn new() -> (r: Plic)
        ensures
            r.wf(),
            r@ == PlicView::reset(),
    {
        let r = Plic {
            priority: vec![0u32; SOURCES],
            pending: vec![0u32; PENDING_WORDS],
            enable: vec![0u32; ENABLE_WORDS],
            priority_thr: vec![0u32; CONTEXTS],
            claim: vec![0u32; CONTEXTS],
        };
        assert(r@.priority =~= PlicView::reset().priority);
        assert(r@.pending =~= PlicView::reset().pending);
        assert(r@.enable =~= PlicView::reset().enable);
        assert(r@.priority_thr =~= PlicView::reset().priority_thr);
        assert(r@.claim =~= PlicView::reset().claim);
        r
    }

    /// Loads from the register at `addr`, or fails with `InvalidAddress`
    /// where the address names no register.
    pub fn read(&self, addr: u64) -> (r: Result<u64, Error>)
        requires
            self.wf(),
        ensures
            r == self@.read(addr),
    {
        if addr % 4 != 0 {
            return Err(Error::InvalidAddress);
        }
        match addr {
            0xC00_0004..=0xC00_0FFC => Ok(self.read_priority(addr)),
            0xC00_1000..=0xC00_107C => Ok(self.read_pending(addr)),
            0xC00_2000..=0xC1F_1FFC => Ok(self.read_enable(addr)),
            0xC20_0000..=0xFFF_F004 => {
                let off = (addr - PRIORITY_THR0) % 0x1000;
                if off == 0x0 {
                    return Ok(self.read_priority_thr(addr));
                }
                if off == 0x4 {
                    return Ok(self.read_claim(addr));
                }
                Err(Error::InvalidAddress)
            },
            _ => Err(Error::InvalidAddress),
        }
    }

    fn read_priority(&self, addr: u64) -> (r: u64)
        requires
            self.wf(),
            plic_reg(addr) is Some,
            plic_reg(addr)->Some_0 is Priority,
        ensures
            self@.read(addr) == Ok::<u64, Error>(r),
    {
        let idx = (addr - PRIORITY) / 4;
        self.priority[idx as usize] as u64
    }

    fn read_pending(&self, addr: u64) -> (r: u64)
        requires
            self.wf(),
            plic_reg(addr) is Some,
            plic_reg(addr)->Some_0 is Pending,
        ensures
            self@.read(addr) == Ok::<u64, Error>(r),
    {
        let idx = (addr - PENDING) / 4;
        self.pending[idx as usize] as u64
    }

    fn read_enable(&self, addr: u64) -> (r: u64)
        requires
            self.wf(),
            plic_reg(addr) is Some,
            plic_reg(addr)->Some_0 is Enable,
        ensures
            self@.read(addr) == Ok::<u64, Error>(r),
    {
        let idx = (addr - ENABLE) / 4;
        self.enable[idx as usize] as u64
    }

    fn read_priority_thr(&self, addr: u64) -> (r: u64)
        requires
            self.wf(),
            plic_reg(addr) is Some,
            plic_reg(addr)->Some_0 is Threshold,
        ensures
            self@.read(addr) == Ok::<u64, Error>(r),
    {
        let idx = (addr - PRIORITY_THR0) / 0x1000;
        self.priority_thr[idx as usize] as u64
    }

    fn read_claim(&self, addr: u64) -> (r: u64)
        requires
            self.wf(),
            plic_reg(addr) is Some,
            plic_reg(addr)->Some_0 is Claim,
        ensures
            self@.read(addr) == Ok::<u64, Error>(r),
    {
        let idx = (addr - PRIORITY_THR0) / 0x1000;
        self.claim[idx as usize] as u64
    }

    /// Stores the low word of `data` to the register at `addr`, or fails
    /// with `InvalidAddress` and changes nothing where the address names no
    /// register.
    pub fn write(&mut self, addr: u64, data: u64) -> (r: Result<(), Error>)
        requires
            old(self).wf(),
        ensures
            final(self).wf(),
            crate::error::refines(old(self)@, final(self)@, r, old(self)@.write(addr, data)),
    {
        if addr % 4 != 0 {
            return Err(Error::InvalidAddress);
        }
        match addr {
            0xC00_0004..=0xC00_0FFC => self.write_priority(addr, data as u32),
            0xC00_1000..=0xC00_107C => self.write_pending(addr, data as u32),
            0xC00_2000..=0xC1F_1FFC => self.write_enable(addr, data as u32),
            0xC20_0000..=0xFFF_F004 => {
                let off = (addr - PRIORITY_THR0) % 0x1000;
                if off == 0x0 {
                    self.write_priority_thr(addr, data as u32);
                } else if off == 0x4 {
                    self.write_claim(addr, data as u32);
                } else {
                    return Err(Error::InvalidAddress);
                }
            },
            _ => {
                return Err(Error::InvalidAddress);
            },
        }
        Ok(())
    }

    fn write_priority(&mut self, addr: u64, data: u32)
        requires
            old(self).wf(),
            plic_reg(addr) is Some,
            plic_reg(addr)->Some_0 is Priority,
        ensures
            final(self).wf(),
            final(self)@ == (PlicView {
                priority: old(self)@.priority.update(plic_reg(addr)->Some_0->Priority_0, data),
                ..old(self)@
            }),
    {
        let idx = (addr - PRIORITY) / 4;
        self.priority[idx as usize] = data;
    }

    fn write_pending(&mut self, addr: u64, data: u32)
        requires
            old(self).wf(),
            plic_reg(addr) is Some,
            plic_reg(addr)->Some_0 is Pending,
        ensures
            final(self).wf(),
            final(self)@ == (PlicView {
                pending: old(self)@.pending.update(plic_reg(addr)->Some_0->Pending_0, data),
                ..old(self)@
            }),
    {
        let idx = (addr - PENDING) / 4;
        self.pending[idx as usize] = data;
    }

    fn write_enable(&mut self, addr: u64, data: u32)
        requires
            old(self).wf(),
            plic_reg(addr) is Some,
            plic_reg(addr)->Some_0 is Enable,
        ensures
            final(self).wf(),
            final(self)@ == (PlicView {
                enable: old(self)@.enable.update(plic_reg(addr)->Some_0->Enable_0, data),
                ..old(self)@
            }),
    {
        let idx = (addr - ENABLE) / 4;
        self.enable[idx as usize] = data;
    }

    fn write_priority_thr(&mut self, addr: u64, data: u32)
        requires
            old(self).wf(),
            plic_reg(addr) is Some,
            plic_reg(addr)->Some_0 is Threshold,
        ensures
            final(self).wf(),
            final(self)@ == (PlicView {
                priority_thr: old(self)@.priority_thr.update(plic_reg(addr)->Some_0->Threshold_0, data),
                ..old(self)@
            }),
    {
        let idx = (addr - PRIORITY_THR0) / 0x1000;
        self.priority_thr[idx as usize] = data;
    }

    fn write_claim(&mut self, addr: u64, data: u32)
        requires
            old(self).wf(),
            plic_reg(addr) is Some,
            plic_reg(addr)->Some_0 is Claim,
        ensures
            final(self).wf(),
            final(self)@ == (PlicView {
                claim: old(self)@.claim.update(plic_reg(addr)->Some_0->Claim_0, data),
                ..old(self)@
            }),
    {
        let idx = (addr - PRIORITY_THR0) / 0x1000;
        self.claim[idx as usize] = data;
    }
}

} // verus!
