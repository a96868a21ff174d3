use kotodori::error::Error;
use kotodori::plic::{Plic, CLAIM0, CLAIM_END, ENABLE, ENABLE_END, PENDING, PENDING_END, PLIC, PRIORITY, PRIORITY_END, PRIORITY_THR0};
use kotodori::uart::{Uart, DLH, DLL, FCR, IER, IIR, LCR, LSR, MCR, MSR, RBR, SR, THR, UART, UART_END};
use kotodori::virtio::{
    Virtio, VIRTIO, VIRTIO_MMIO_DEVICE_FEATURES, VIRTIO_MMIO_DEVICE_ID, VIRTIO_MMIO_DRIVER_FEATURES,
    VIRTIO_MMIO_GUEST_PAGE_SIZE, VIRTIO_MMIO_MAGIC_VALUE, VIRTIO_MMIO_QUEUE_SEL, VIRTIO_MMIO_STATUS,
    VIRTIO_MMIO_VENDOR_ID, VIRTIO_MMIO_VERSION,
};

#[test]
fn uart_after_reset() {
    let uart = Uart::new();
    assert_eq!(UART, 0x1000_0000);
    assert_eq!(UART_END, 0x1000_0007);
    assert_eq!(uart.read(RBR), Ok(0));
    assert_eq!(uart.read(IER), Ok(0));
    assert_eq!(uart.read(IIR), Ok(1));
    assert_eq!(uart.read(LCR), Ok(0));
    assert_eq!(uart.read(MCR), Ok(0));
    assert_eq!(uart.read(LSR), Ok(0x60));
    assert_eq!(uart.read(MSR), Ok(0));
    assert_eq!(uart.read(SR), Ok(0));
    assert!(uart.tx.is_empty());
}

#[test]
fn uart_transmit_sends_the_byte() {
    let mut uart = Uart::new();
    assert_eq!(uart.write(THR, b'h' as u64), Ok(()));
    assert_eq!(uart.write(THR, 0x100 | b'i' as u64), Ok(()));
    assert_eq!(uart.thr_rbr, b'i');
    assert_eq!(uart.read(RBR), Ok(b'i' as u64));
    assert_eq!(uart.read(LSR), Ok(0x60));
    assert_eq!(uart.take_output(), b"hi".to_vec());
    assert!(uart.tx.is_empty());
    assert_eq!(uart.take_output(), Vec::<u8>::new());
    assert_eq!(uart.thr_rbr, b'i');
}

#[test]
fn uart_divisor_latch_aliases_the_first_two_registers() {
    let mut uart = Uart::new();
    assert_eq!(uart.write(IER, 0x0F), Ok(()));
    assert_eq!(uart.write(LCR, 0x83), Ok(()));
    assert_eq!(uart.write(DLL, 0x12), Ok(()));
    assert_eq!(uart.write(DLH, 0x34), Ok(()));
    assert_eq!(uart.read(DLL), Ok(0x12));
    assert_eq!(uart.read(DLH), Ok(0x34));
    // nothing was sent, and the registers behind the latch are untouched
    assert!(uart.tx.is_empty());
    assert_eq!((uart.dll, uart.dlh, uart.ier, uart.thr_rbr), (0x12, 0x34, 0x0F, 0));
    assert_eq!(uart.write(LCR, 0x03), Ok(()));
    assert_eq!(uart.read(IER), Ok(0x0F));
    assert_eq!(uart.read(RBR), Ok(0));
    assert_eq!(uart.write(THR, 0x41), Ok(()));
    assert_eq!(uart.tx, vec![0x41]);
    assert_eq!(uart.dll, 0x12);
}

#[test]
fn uart_other_registers() {
    let mut uart = Uart::new();
    assert_eq!(uart.write(FCR, 0x1C7), Ok(()));
    assert_eq!(uart.fcr, 0xC7);
    // the FIFO control register is write-only: a read there gives IIR
    assert_eq!(uart.read(FCR), Ok(1));
    assert_eq!(uart.write(MCR, 0x0B), Ok(()));
    assert_eq!(uart.read(MCR), Ok(0x0B));
    assert_eq!(uart.write(SR, 0x5A), Ok(()));
    assert_eq!(uart.read(SR), Ok(0x5A));
    // the status registers cannot be written
    assert_eq!(uart.write(LSR, 0), Err(Error::InvalidAddress));
    assert_eq!(uart.write(MSR, 0), Err(Error::InvalidAddress));
    assert_eq!(uart.read(LSR), Ok(0x60));
    assert_eq!(uart.read(UART_END + 1), Err(Error::InvalidAddress));
    assert_eq!(uart.write(UART_END + 1, 0), Err(Error::InvalidAddress));
    assert_eq!(uart.read(UART - 1), Err(Error::InvalidAddress));
}

#[test]
fn plic_registers_by_address() {
    let mut plic = Plic::new();
    assert_eq!((plic.priority.len(), plic.pending.len(), plic.enable.len()), (1023, 32, 32 * 15872));
    assert_eq!((plic.priority_thr.len(), plic.claim.len()), (15872, 15872));
    assert_eq!(plic.write(PRIORITY, 7), Ok(()));
    assert_eq!(plic.write(PRIORITY + 4, 3), Ok(()));
    assert_eq!(plic.write(PRIORITY_END, 1), Ok(()));
    assert_eq!((plic.priority[0], plic.priority[1], plic.priority[1022]), (7, 3, 1));
    assert_eq!(plic.read(PRIORITY), Ok(7));
    assert_eq!(plic.read(PRIORITY + 4), Ok(3));
    assert_eq!(plic.read(PRIORITY_END), Ok(1));
    assert_eq!(plic.write(PENDING, 0xFFFF_FFFF_0000_0001), Ok(()));
    assert_eq!(plic.write(PENDING_END, 2), Ok(()));
    assert_eq!((plic.pending[0], plic.pending[31]), (1, 2));
    assert_eq!(plic.read(PENDING), Ok(1));
    assert_eq!(plic.read(PENDING_END), Ok(2));
    assert_eq!(plic.write(ENABLE, 0x10), Ok(()));
    assert_eq!(plic.write(ENABLE + 0x80, 0x20), Ok(()));
    assert_eq!(plic.write(ENABLE_END, 0x30), Ok(()));
    assert_eq!((plic.enable[0], plic.enable[32], plic.enable[32 * 15872 - 1]), (0x10, 0x20, 0x30));
    assert_eq!(plic.read(ENABLE + 0x80), Ok(0x20));
    assert_eq!(plic.read(ENABLE_END), Ok(0x30));
}

#[test]
fn plic_context_registers() {
    let mut plic = Plic::new();
    assert_eq!(plic.write(PRIORITY_THR0, 5), Ok(()));
    assert_eq!(plic.write(CLAIM0, 9), Ok(()));
    assert_eq!(plic.write(PRIORITY_THR0 + 0x1000, 6), Ok(()));
    assert_eq!(plic.write(CLAIM0 + 0x1000, 10), Ok(()));
    assert_eq!(plic.write(PLIC + 0x3FF_F000, 7), Ok(()));
    assert_eq!(plic.write(CLAIM_END, 11), Ok(()));
    assert_eq!((plic.priority_thr[0], plic.priority_thr[1], plic.priority_thr[15871]), (5, 6, 7));
    assert_eq!((plic.claim[0], plic.claim[1], plic.claim[15871]), (9, 10, 11));
    assert_eq!(plic.read(PRIORITY_THR0), Ok(5));
    assert_eq!(plic.read(CLAIM0), Ok(9));
    assert_eq!(plic.read(PRIORITY_THR0 + 0x1000), Ok(6));
    assert_eq!(plic.read(CLAIM0 + 0x1000), Ok(10));
    assert_eq!(plic.read(CLAIM_END), Ok(11));
    // the rest of a context's block holds no register
    assert_eq!(plic.read(PRIORITY_THR0 + 8), Err(Error::InvalidAddress));
    assert_eq!(plic.write(PRIORITY_THR0 + 0xFFC, 1), Err(Error::InvalidAddress));
}

#[test]
fn plic_invalid_addresses() {
    let mut plic = Plic::new();
    // not word-aligned
    assert_eq!(plic.read(PRIORITY + 1), Err(Error::InvalidAddress));
    assert_eq!(plic.write(PRIORITY + 2, 1), Err(Error::InvalidAddress));
    // source 0 has no priority
    assert_eq!(plic.read(PLIC), Err(Error::InvalidAddress));
    // gaps between the arrays
    assert_eq!(plic.read(PENDING_END + 4), Err(Error::InvalidAddress));
    assert_eq!(plic.write(ENABLE_END + 4, 1), Err(Error::InvalidAddress));
    assert_eq!(plic.read(CLAIM_END + 4), Err(Error::InvalidAddress));
    assert_eq!(plic.read(PLIC - 4), Err(Error::InvalidAddress));
    assert_eq!(plic.priority, vec![0; 1023]);
}

#[test]
fn virtio_answers_a_probe() {
    let virtio = Virtio::new();
    assert_eq!(VIRTIO, 0x1000_1000);
    assert_eq!(virtio.read(VIRTIO_MMIO_MAGIC_VALUE), Ok(0x7472_6976));
    assert_eq!(virtio.read(VIRTIO_MMIO_VERSION), Ok(1));
    assert_eq!(virtio.read(VIRTIO_MMIO_DEVICE_ID), Ok(2));
    assert_eq!(virtio.read(VIRTIO_MMIO_VENDOR_ID), Ok(0x554D_4551));
    assert_eq!(virtio.read(VIRTIO_MMIO_DEVICE_FEATURES), Ok(0));
    assert_eq!(virtio.read(VIRTIO_MMIO_STATUS), Err(Error::InvalidAddress));
    assert_eq!(virtio.read(VIRTIO + 0x14), Err(Error::InvalidAddress));
}

#[test]
fn virtio_writable_registers() {
    let mut virtio = Virtio::new();
    assert_eq!(virtio.write(VIRTIO_MMIO_STATUS, 0xF), Ok(()));
    assert_eq!(virtio.write(VIRTIO_MMIO_DRIVER_FEATURES, 0x1234), Ok(()));
    assert_eq!(virtio.write(VIRTIO_MMIO_GUEST_PAGE_SIZE, 4096), Ok(()));
    assert_eq!(virtio.write(VIRTIO_MMIO_QUEUE_SEL, 1), Ok(()));
    assert_eq!(
        virtio,
        Virtio { mmio_status: 0xF, mmio_driver_features: 0x1234, mmio_guest_page_size: 4096, mmio_queue_sel: 1 }
    );
    assert_eq!(virtio.write(VIRTIO_MMIO_MAGIC_VALUE, 0), Err(Error::InvalidAddress));
    assert_eq!(virtio.write(VIRTIO + 0x34, 0), Err(Error::InvalidAddress));
    assert_eq!(virtio.mmio_status, 0xF);
}
