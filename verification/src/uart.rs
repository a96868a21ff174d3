//! The registers of a 16550 UART.
use vstd::prelude::*;
use crate::error::Error;

verus! {

pub const UART: u64 = 0x1000_0000;
pub const THR: u64 = UART;
pub const RBR: u64 = UART;
pub const DLL: u64 = UART;
pub const IER: u64 = UART + 1;
pub const DLH: u64 = UART + 1;
pub const IIR: u64 = UART + 2;
pub const FCR: u64 = UART + 2;
pub const LCR: u64 = UART + 3;
pub const MCR: u64 = UART + 4;
pub const LSR: u64 = UART + 5;
pub const MSR: u64 = UART + 6;
pub const SR: u64 = UART + 7;
pub const UART_END: u64 = SR;

/// Divisor latch enable, in the line control register.
pub const LCR_DLE: u8 = 0b1000_0000;

/// Transmit holding register empty, in the line status register.
pub const LSR_THE: u8 = 0b0010_0000;

/// Transmitter empty, in the line status register.
pub const LSR_TE: u8 = 0b0100_0000;

/// The registers of a 16550 UART and the bytes it has sent.
#[derive(Debug)]
pub struct Uart {
    /// Transmit holding / receive buffer register.
    pub thr_rbr: u8,
    /// Divisor latch, low byte.
    pub dll: u8,
    /// Interrupt enable register.
    pub ier: u8,
    /// Divisor latch, high byte.
    pub dlh: u8,
    /// Interrupt identification register.
    pub iir: u8,
    /// FIFO control register.
    pub fcr: u8,
    /// Line control register.
    pub lcr: u8,
    /// Modem control register.
    pub mcr: u8,
    /// Line status register.
    pub lsr: u8,
    /// Modem status register.
    pub msr: u8,
    /// Scratch register.
    pub sr: u8,
    /// The bytes written to the transmit holding register and not yet taken
    /// out, oldest first.
    pub tx: Vec<u8>,
}

/// The UART as loads and stores see it.
pub struct UartView {
    pub thr_rbr: u8,
    pub dll: u8,
    pub ier: u8,
    pub dlh: u8,
    pub iir: u8,
    pub fcr: u8,
    pub lcr: u8,
    pub mcr: u8,
    pub lsr: u8,
    pub msr: u8,
    pub sr: u8,
    pub tx: Seq<u8>,
}

impl UartView {
    /// The state after reset: no interrupt pending, transmitter empty.
    pub open spec fn reset() -> UartView {
        UartView {
            thr_rbr: 0,
            dll: 0,
            ier: 0,
            dlh: 0,
            iir: 1,
            fcr: 0,
            lcr: 0,
            mcr: 0,
            lsr: 0x60,
            msr: 0,
            sr: 0,
            tx: Seq::empty(),
        }
    }

    /// Whether the divisor latch is mapped over the first two registers.
    pub open spec fn dlab(self) -> bool {
        self.lcr & LCR_DLE != 0
    }

    /// What a load from `addr` gives.
    pub open spec fn read(self, addr: u64) -> Result<u64, Error> {
        if addr == RBR {
            Ok(
                if self.dlab() {
                    self.dll as u64
                } else {
                    self.thr_rbr as u64
                },
            )
        } else if addr == IER {
            Ok(
                if self.dlab() {
                    self.dlh as u64
                } else {
                    self.ier as u64
                },
            )
        } else if addr == IIR {
            Ok(self.iir as u64)
        } else if addr == LCR {
            Ok(self.lcr as u64)
        } else if addr == MCR {
            Ok(self.mcr as u64)
        } else if addr == LSR {
            Ok(self.lsr as u64)
        } else if addr == MSR {
            Ok(self.msr as u64)
        } else if addr == SR {
            Ok(self.sr as u64)
        } else {
            Err(Error::InvalidAddress)
        }
    }

    /// What a store of `data` to `addr` gives. A byte stored to the transmit
    /// holding register is sent: it joins `tx`.
    pub open spec fn write(self, addr: u64, data: u64) -> Result<UartView, Error> {
        let b = data as u8;
        if addr == THR {
            Ok(
                if self.dlab() {
                    UartView { dll: b, ..self }
                } else {
                    UartView { thr_rbr: b, tx: self.tx.push(b), ..self }
                },
            )
        } else if addr == IER {
            Ok(
                if self.dlab() {
                    UartView { dlh: b, ..self }
                } else {
                    UartView { ier: b, ..self }
                },
            )
        } else if addr == FCR {
            Ok(UartView { fcr: b, ..self })
        } else if addr == LCR {
            Ok(UartView { lcr: b, ..self })
        } else if addr == MCR {
            Ok(UartView { mcr: b, ..self })
        } else if addr == SR {
            Ok(UartView { sr: b, ..self })
        } else {
            Err(Error::InvalidAddress)
        }
    }
}

impl View for Uart {
    type V = UartView;

    open spec fn view(&self) -> UartView {
        UartView {
            thr_rbr: self.thr_rbr,
            dll: self.dll,
            ier: self.ier,
            dlh: self.dlh,
            iir: self.iir,
            fcr: self.fcr,
            lcr: self.lcr,
            mcr: self.mcr,
            lsr: self.lsr,
            msr: self.msr,
            sr: self.sr,
            tx: self.tx@,
        }
    }
}

impl Uart {
    /// A UART after reset.
    pub fn new() -> (r: Uart)
        ensures
            r@ == UartView::reset(),
    {
        Uart {
            thr_rbr: 0,
            dll: 0,
            ier: 0,
            dlh: 0,
            iir: 1,
            fcr: 0,
            lcr: 0,
            mcr: 0,
            lsr: 0x60,
            msr: 0,
            sr: 0,
            tx: Vec::new(),
        }
    }

    /// Loads from the register at `addr`, or fails with `InvalidAddress`
    /// where the UART has no readable register there.
    pub fn read(&self, addr: u64) -> (r: Result<u64, Error>)
        ensures
            r == self@.read(addr),
    {
        match addr {
            0x1000_0000 => Ok(self.r_thr_rbr()),
            0x1000_0001 => Ok(self.r_ier_dlh()),
            0x1000_0002 => Ok(self.iir as u64),
            0x1000_0003 => Ok(self.lcr as u64),
            0x1000_0004 => Ok(self.mcr as u64),
            0x1000_0005 => Ok(self.lsr as u64),
            0x1000_0006 => Ok(self.msr as u64),
            0x1000_0007 => Ok(self.sr as u64),
            _ => Err(Error::InvalidAddress),
        }
    }

    fn r_thr_rbr(&self) -> (r: u64)
        ensures
            self@.read(RBR) == Ok::<u64, Error>(r),
    {
        if self.lcr & LCR_DLE != 0 {
            return self.dll as u64;
        }
        self.thr_rbr as u64
    }

    fn r_ier_dlh(&self) -> (r: u64)
        ensures
            self@.read(IER) == Ok::<u64, Error>(r),
    {
        if self.lcr & LCR_DLE != 0 {
            return self.dlh as u64;
        }
        self.ier as u64
    }

    /// Stores to the register at `addr`, or fails with `InvalidAddress` and
    /// changes nothing where the UART has no writable register there.
    pub fn write(&mut self, addr: u64, data: u64) -> (r: Result<(), Error>)
        ensures
            crate::error::refines(old(self)@, final(self)@, r, old(self)@.write(addr, data)),
    {
        match addr {
            0x1000_0000 => self.w_thr_rbr(data),
            0x1000_0001 => self.w_ier_dlh(data),
            0x1000_0002 => self.fcr = data as u8,
            0x1000_0003 => self.lcr = data as u8,
            0x1000_0004 => self.mcr = data as u8,
            0x1000_0007 => self.sr = data as u8,
            _ => {
                return Err(Error::InvalidAddress);
            },
        }
        Ok(())
    }

    fn w_thr_rbr(&mut self, data: u64)
        ensures
            old(self)@.write(THR, data) == Ok::<UartView, Error>(final(self)@),
    {
        if self.lcr & LCR_DLE != 0 {
            self.dll = data as u8;
            return ;
        }
        self.thr_rbr = data as u8;
        self.tx.push(data as u8);
    }

    fn w_ier_dlh(&mut self, data: u64)
        ensures
            old(self)@.write(IER, data) == Ok::<UartView, Error>(final(self)@),
    {
        if self.lcr & LCR_DLE != 0 {
            self.dlh = data as u8;
            return ;
        }
        self.ier = data as u8;
    }

    /// Takes out the bytes that were sent since the last call, oldest first.
    pub fn take_output(&mut self) -> (r: Vec<u8>)
        ensures
            r@ == old(self)@.tx,
            final(self)@ == (UartView { tx: Seq::empty(), ..old(self)@ }),
    {
        let mut out: Vec<u8> = Vec::new();
        core::mem::swap(&mut out, &mut self.tx);
        out
    }
}

} // verus!
