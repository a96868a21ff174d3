//! The bus: it routes loads and stores to DRAM, from the DRAM base on, and to
//! the memory-mapped devices below it.
use vstd::prelude::*;
use vstd::bytes::*;
use crate::dram::{byte_at, dword_at, hword_at, store_at, word_at, Dram, Dump};
use crate::error::{refines, Error};
use crate::plic::{Plic, PlicView, PLIC, PLIC_END};
use crate::conf::MEM_OFF;
use crate::uart::{Uart, UartView, UART, UART_END};
use crate::virtio::{Virtio, VIRTIO, VIRTIO_END};

verus! {

/// The width of a load or a store.
#[derive(Debug, Clone, Copy, PartialEq, Eq, Structural)]
pub enum Width {
    /// One byte.
    B,
    /// Two bytes.
    H,
    /// Four bytes.
    W,
    /// Eight bytes.
    D,
}

impl Width {
    /// The mask of the bits that a value of this width has.
    pub open spec fn mask(self) -> u64 {
        match self {
            Width::B => 0xFF,
            Width::H => 0xFFFF,
            Width::W => 0xFFFF_FFFF,
            Width::D => 0xFFFF_FFFF_FFFF_FFFF,
        }
    }

    /// The low bytes of `value` that make up this width, little-endian.
    pub open spec fn bytes_of(self, value: u64) -> Seq<u8> {
        match self {
            Width::B => seq![value as u8],
            Width::H => spec_u16_to_le_bytes(value as u16),
            Width::W => spec_u32_to_le_bytes(value as u32),
            Width::D => spec_u64_to_le_bytes(value),
        }
    }

    /// The mask of the bits that a value of this width has.
    pub fn bits(self) -> (r: u64)
        ensures
            r == self.mask(),
    {
        match self {
            Width::B => 0xFF,
            Width::H => 0xFFFF,
            Width::W => 0xFFFF_FFFF,
            Width::D => 0xFFFF_FFFF_FFFF_FFFF,
        }
    }
}

/// What routes loads and stores: DRAM by offset, the devices by address.
#[derive(Debug)]
pub struct Bus {
    pub dram: Dram,
    pub uart: Uart,
    pub plic: Plic,
    pub virtio: Virtio,
}

/// The bus and what hangs on it, as loads and stores see them.
pub struct BusView {
    pub dram: Seq<u8>,
    pub uart: UartView,
    pub plic: PlicView,
    pub virtio: Virtio,
}

impl BusView {
    pub open spec fn wf(self) -> bool {
        self.plic.wf()
    }

    /// What a load from the device address `addr` gives: the answer of the
    /// device whose range holds the address, `InvalidAddress` where none does.
    pub open spec fn l_mm(self, addr: u64) -> Result<u64, Error> {
        if UART <= addr <= UART_END {
            self.uart.read(addr)
        } else if PLIC <= addr <= PLIC_END {
            self.plic.read(addr)
        } else if VIRTIO <= addr <= VIRTIO_END {
            self.virtio.spec_read(addr)
        } else {
            Err(Error::InvalidAddress)
        }
    }

    /// What a store of `data` to the device address `addr` gives.
    pub open spec fn s_mm(self, addr: u64, data: u64) -> Result<BusView, Error> {
        if UART <= addr <= UART_END {
            match self.uart.write(addr, data) {
                Ok(uart) => Ok(BusView { uart, ..self }),
                Err(e) => Err(e),
            }
        } else if PLIC <= addr <= PLIC_END {
            match self.plic.write(addr, data) {
                Ok(plic) => Ok(BusView { plic, ..self }),
                Err(e) => Err(e),
            }
        } else if VIRTIO <= addr <= VIRTIO_END {
            match self.virtio.spec_write(addr, data) {
                Ok(virtio) => Ok(BusView { virtio, ..self }),
                Err(e) => Err(e),
            }
        } else {
            Err(Error::InvalidAddress)
        }
    }

    /// What a load of the given width from the physical address `pa` gives,
    /// zero-extended: below the DRAM base a device answers and the value is
    /// cut to the width, from the base on DRAM answers, little-endian.
    pub open spec fn load(self, width: Width, pa: u64) -> Result<u64, Error> {
        if pa < MEM_OFF {
            match self.l_mm(pa) {
                Ok(v) => Ok(v & width.mask()),
                Err(e) => Err(e),
            }
        } else {
            let off = (pa - MEM_OFF) as u64;
            match width {
                Width::B => match byte_at(self.dram, off) {
                    Ok(v) => Ok(v as u64),
                    Err(e) => Err(e),
                },
                Width::H => match hword_at(self.dram, off) {
                    Ok(v) => Ok(v as u64),
                    Err(e) => Err(e),
                },
                Width::W => match word_at(self.dram, off) {
                    Ok(v) => Ok(v as u64),
                    Err(e) => Err(e),
                },
                Width::D => dword_at(self.dram, off),
            }
        }
    }

    /// What a store of the low bytes of `value` to the physical address `pa`
    /// gives: below the DRAM base a device takes the value, cut to the width,
    /// from the base on DRAM takes the bytes.
    pub open spec fn store(self, width: Width, pa: u64, value: u64) -> Result<BusView, Error> {
        if pa < MEM_OFF {
            self.s_mm(pa, value & width.mask())
        } else {
            self.store_dram((pa - MEM_OFF) as u64, width.bytes_of(value))
        }
    }

    /// What a store of `bytes` at the DRAM offset `addr` gives.
    pub open spec fn store_dram(self, addr: u64, bytes: Seq<u8>) -> Result<BusView, Error> {
        match store_at(self.dram, addr, bytes) {
            Ok(dram) => Ok(BusView { dram, ..self }),
            Err(e) => Err(e),
        }
    }
}

impl View for Bus {
    type V = BusView;

    open spec fn view(&self) -> BusView {
        BusView { dram: self.dram@, uart: self.uart@, plic: self.plic@, virtio: self.virtio }
    }
}

impl Bus {
    pub open spec fn wf(&self) -> bool {
        self@.wf()
    }

    /// A bus over the given memory and devices.
    pub fn new(dram: Dram, uart: Uart, plic: Plic, virtio: Virtio) -> (r: Bus)
        ensures
            r@ == (BusView { dram: dram@, uart: uart@, plic: plic@, virtio }),
    {
        Bus { dram, uart, plic, virtio }
    }

    /// The bytes that a dump of the physical addresses `begin` to `end`
    /// shows, in whole rows of 16.
    pub fn pdram_range(&self, begin: usize, end: usize) -> (r: Result<Dump, Error>)
        ensures
            match r {
                Ok(d) => {
                    let lo = (begin - crate::conf::MEM_OFF) - (begin - crate::conf::MEM_OFF) % 16;
                    let hi = (end - crate::conf::MEM_OFF + 15) / 16 * 16;
                    &&& crate::conf::MEM_OFF <= begin <= end
                    &&& hi <= self@.dram.len()
                    &&& d.base == lo + crate::conf::MEM_OFF
                    &&& d.bytes@ == self@.dram.subrange(lo, hi)
                },
                Err(e) => {
                    &&& e == Error::InvalidAddress
                    &&& (begin < crate::conf::MEM_OFF || end < begin || (end - crate::conf::MEM_OFF + 15) / 16 * 16
                        > self@.dram.len())
                },
            },
    {
        self.dram.prange(begin, end)
    }

    /// The UART, for a dump of its registers.
    pub fn puart(&self) -> (r: &Uart)
        ensures
            r@ == self@.uart,
    {
        &self.uart
    }

    /// Loads the byte at the DRAM offset `addr`.
    pub fn lb_dram(&self, addr: u64) -> (r: Result<u8, Error>)
        ensures
            r == byte_at(self@.dram, addr),
    {
        self.dram.load_byte(addr)
    }

    /// Loads the halfword at the DRAM offset `addr`.
    pub fn lh_dram(&self, addr: u64) -> (r: Result<u16, Error>)
        ensures
            r == hword_at(self@.dram, addr),
    {
        self.dram.load_hword(addr)
    }

    /// Loads the word at the DRAM offset `addr`.
    pub fn lw_dram(&self, addr: u64) -> (r: Result<u32, Error>)
        ensures
            r == word_at(self@.dram, addr),
    {
        self.dram.load_word(addr)
    }

    /// Loads the doubleword at the DRAM offset `addr`.
    pub fn ld_dram(&self, addr: u64) -> (r: Result<u64, Error>)
        ensures
            r == dword_at(self@.dram, addr),
    {
        self.dram.load_dword(addr)
    }

    /// Stores a byte at the DRAM offset `addr`.
    pub fn sb_dram(&mut self, addr: u64, data: u8) -> (r: Result<(), Error>)
        ensures
            refines(old(self)@, final(self)@, r, old(self)@.store_dram(addr, seq![data])),
    {
        self.dram.store_byte(addr, data)
    }

    /// Stores a halfword at the DRAM offset `addr`.
    pub fn sh_dram(&mut self, addr: u64, data: u16) -> (r: Result<(), Error>)
        ensures
            refines(old(self)@, final(self)@, r, old(self)@.store_dram(addr, spec_u16_to_le_bytes(data))),
    {
        self.dram.store_hword(addr, data)
    }

    /// Stores a word at the DRAM offset `addr`.
    pub fn sw_dram(&mut self, addr: u64, data: u32) -> (r: Result<(), Error>)
        ensures
            refines(old(self)@, final(self)@, r, old(self)@.store_dram(addr, spec_u32_to_le_bytes(data))),
    {
        self.dram.store_word(addr, data)
    }

    /// Stores a doubleword at the DRAM offset `addr`.
    pub fn sd_dram(&mut self, addr: u64, data: u64) -> (r: Result<(), Error>)
        ensures
            refines(old(self)@, final(self)@, r, old(self)@.store_dram(addr, spec_u64_to_le_bytes(data))),
    {
        self.dram.store_dword(addr, data)
    }

    /// Loads a value of the given width from a physical address,
    /// zero-extended: from a device below the DRAM base, from DRAM above.
    pub fn load(&self, width: Width, pa: u64) -> (r: Result<u64, Error>)
        requires
            self.wf(),
        ensures
            r == self@.load(width, pa),
    {
        if pa < MEM_OFF {
            match self.l_mm(pa) {
                Ok(v) => Ok(v & width.bits()),
                Err(e) => Err(e),
            }
        } else {
            let off = pa - MEM_OFF;
            match width {
                Width::B => match self.lb_dram(off) {
                    Ok(v) => Ok(v as u64),
                    Err(e) => Err(e),
                },
                Width::H => match self.lh_dram(off) {
                    Ok(v) => Ok(v as u64),
                    Err(e) => Err(e),
                },
                Width::W => match self.lw_dram(off) {
                    Ok(v) => Ok(v as u64),
                    Err(e) => Err(e),
                },
                Width::D => self.ld_dram(off),
            }
        }
    }

    /// Stores the low bytes of `value` at a physical address: to a device
    /// below the DRAM base, to DRAM above. On failure nothing has changed.
    pub fn store(&mut self, width: Width, pa: u64, value: u64) -> (r: Result<(), Error>)
        requires
            old(self).wf(),
        ensures
            final(self).wf(),
            refines(old(self)@, final(self)@, r, old(self)@.store(width, pa, value)),
    {
        if pa < MEM_OFF {
            self.s_mm(pa, value & width.bits())
        } else {
            let off = pa - MEM_OFF;
            match width {
                Width::B => self.sb_dram(off, value as u8),
                Width::H => self.sh_dram(off, value as u16),
                Width::W => self.sw_dram(off, value as u32),
                Width::D => self.sd_dram(off, value),
            }
        }
    }

    /// Loads from the device whose range holds `addr`, or fails with
    /// `InvalidAddress` where no device answers.
    pub fn l_mm(&self, addr: u64) -> (r: Result<u64, Error>)
        requires
            self.wf(),
        ensures
            r == self@.l_mm(addr),
    {
        match addr {
            0x1000_0000..=0x1000_0007 => self.uart.read(addr),
            0xC00_0000..=0xFFF_FFFC => self.plic.read(addr),
            0x1000_1000..=0x1000_1FFF => self.virtio.read(addr),
            _ => Err(Error::InvalidAddress),
        }
    }

    /// Stores to the device whose range holds `addr`, or fails with
    /// `InvalidAddress` and changes nothing where no device answers.
    pub fn s_mm(&mut self, addr: u64, data: u64) -> (r: Result<(), Error>)
        requires
            old(self).wf(),
        ensures
            final(self).wf(),
            refines(old(self)@, final(self)@, r, old(self)@.s_mm(addr, data)),
    {
        match addr {
            0x1000_0000..=0x1000_0007 => self.uart.write(addr, data),
            0xC00_0000..=0xFFF_FFFC => self.plic.write(addr, data),
            0x1000_1000..=0x1000_1FFF => self.virtio.write(addr, data),
            _ => Err(Error::InvalidAddress),
        }
    }
}

/// A byte that was stored in DRAM is the byte that a load from the same
/// address gives, for every address from the DRAM base up to the end of
/// memory.
pub proof fn lemma_store_load_byte(bus: BusView, pa: u64, value: u64)
    requires
        MEM_OFF <= pa < MEM_OFF + bus.dram.len(),
    ensures
        bus.store(Width::B, pa, value) is Ok,
        bus.store(Width::B, pa, value).unwrap().load(Width::B, pa) == Ok::<u64, Error>((value as u8) as u64),
{
    crate::dram::lemma_store_load_byte(bus.dram, (pa - MEM_OFF) as u64, value as u8);
}

/// A halfword, word or doubleword that was stored in DRAM is what a load of
/// the same width from the same address gives.
pub proof fn lemma_store_load(bus: BusView, width: Width, pa: u64, value: u64)
    requires
        MEM_OFF <= pa,
        bus.store(width, pa, value) is Ok,
    ensures
        bus.store(width, pa, value).unwrap().load(width, pa) == Ok::<u64, Error>(
            match width {
                Width::B => (value as u8) as u64,
                Width::H => (value as u16) as u64,
                Width::W => (value as u32) as u64,
                Width::D => value,
            },
        ),
{
    let off = (pa - MEM_OFF) as u64;
    crate::dram::lemma_store_load_wide(bus.dram, off, value as u16, value as u32, value);
    lemma_auto_spec_u16_to_from_le_bytes();
    lemma_auto_spec_u32_to_from_le_bytes();
    lemma_auto_spec_u64_to_from_le_bytes();
    if width == Width::B {
        crate::dram::lemma_store_load_byte(bus.dram, off, value as u8);
    }
}

} // verus!
