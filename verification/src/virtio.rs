//! A VirtIO MMIO block device, as far as a probe looks.
use vstd::prelude::*;
use crate::error::Error;

verus! {

pub const VIRTIO: u64 = 0x1000_1000;
pub const VIRTIO_MMIO_MAGIC_VALUE: u64 = VIRTIO + 0x000;
pub const VIRTIO_MMIO_VERSION: u64 = VIRTIO + 0x004;
pub const VIRTIO_MMIO_DEVICE_ID: u64 = VIRTIO + 0x008;
pub const VIRTIO_MMIO_VENDOR_ID: u64 = VIRTIO + 0x00C;
pub const VIRTIO_MMIO_DEVICE_FEATURES: u64 = VIRTIO + 0x010;
pub const VIRTIO_MMIO_DRIVER_FEATURES: u64 = VIRTIO + 0x020;
pub const VIRTIO_MMIO_GUEST_PAGE_SIZE: u64 = VIRTIO + 0x028;
pub const VIRTIO_MMIO_QUEUE_SEL: u64 = VIRTIO + 0x030;
pub const VIRTIO_MMIO_STATUS: u64 = VIRTIO + 0x070;
pub const VIRTIO_END: u64 = 0x1000_1FFF;

/// The writable registers of a VirtIO MMIO block device that answers a probe
/// and does nothing else.
#[derive(Debug, Clone, Copy, PartialEq, Eq, Structural)]
pub struct Virtio {
    pub mmio_status: u64,
    pub mmio_driver_features: u64,
    pub mmio_guest_page_size: u64,
    pub mmio_queue_sel: u64,
}

impl Virtio {
    /// What a load from `addr` gives: the identification of a legacy block
    /// device that offers no feature.
    pub open spec fn spec_read(self, addr: u64) -> Result<u64, Error> {
        if addr == VIRTIO_MMIO_MAGIC_VALUE {
            Ok(0x7472_6976)
        } else if addr == VIRTIO_MMIO_VERSION {
            Ok(0x1)
        } else if addr == VIRTIO_MMIO_DEVICE_ID {
            Ok(0x2)
        } else if addr == VIRTIO_MMIO_VENDOR_ID {
            Ok(0x554d_4551)
        } else if addr == VIRTIO_MMIO_DEVICE_FEATURES {
            Ok(0)
        } else {
            Err(Error::InvalidAddress)
        }
    }

    /// What a store of `data` to `addr` gives.
    pub open spec fn spec_write(self, addr: u64, data: u64) -> Result<Virtio, Error> {
        if addr == VIRTIO_MMIO_STATUS {
            Ok(Virtio { mmio_status: data, ..self })
        } else if addr == VIRTIO_MMIO_DRIVER_FEATURES {
            Ok(Virtio { mmio_driver_features: data, ..self })
        } else if addr == VIRTIO_MMIO_GUEST_PAGE_SIZE {
            Ok(Virtio { mmio_guest_page_size: data, ..self })
        } else if addr == VIRTIO_MMIO_QUEUE_SEL {
            Ok(Virtio { mmio_queue_sel: data, ..self })
        } else {
            Err(Error::InvalidAddress)
        }
    }

    /// A device with every writable register 0.
    pub fn new() -> (r: Virtio)
        ensures
            r == (Virtio { mmio_status: 0, mmio_driver_features: 0, mmio_guest_page_size: 0, mmio_queue_sel: 0 }),
    {
        Virtio { mmio_status: 0, mmio_driver_features: 0, mmio_guest_page_size: 0, mmio_queue_sel: 0 }
    }

    /// Loads from the register at `addr`, or fails with `InvalidAddress`
    /// where the device has no readable register there.
    pub fn read(&self, addr: u64) -> (r: Result<u64, Error>)
        ensures
            r == self.spec_read(addr),
    {
        match addr {
            0x1000_1000 => Ok(0x7472_6976),
            0x1000_1004 => Ok(0x1),
            0x1000_1008 => Ok(0x2),
            0x1000_100C => Ok(0x554d_4551),
            0x1000_1010 => Ok(0),
            _ => Err(Error::InvalidAddress),
        }
    }

    /// Stores to the register at `addr`, or fails with `InvalidAddress` and
    /// changes nothing where the device has no writable register there.
    pub fn write(&mut self, addr: u64, data: u64) -> (r: Result<(), Error>)
        ensures
            crate::error::refines(*old(self), *final(self), r, old(self).spec_write(addr, data)),
    {
        match addr {
            0x1000_1070 => self.mmio_status = data,
            0x1000_1020 => self.mmio_driver_features = data,
            0x1000_1028 => self.mmio_guest_page_size = data,
            0x1000_1030 => self.mmio_queue_sel = data,
            _ => {
                return Err(Error::InvalidAddress);
            },
        }
        Ok(())
    }
}

} // verus!
