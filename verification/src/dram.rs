//! DRAM: a flat array of bytes, addressed by offset, little-endian. Memory
//! images are loaded here.
use vstd::prelude::*;
use vstd::bytes::*;
use vstd::slice::slice_subrange;
use vstd::string::StringSliceAdditionalSpecFns;
use crate::conf::MEM_OFF;
use crate::error::{Error, LoadError};

verus! {

/// The byte at offset `addr`, or `InvalidAddress` past the end of memory.
pub open spec fn byte_at(mem: Seq<u8>, addr: u64) -> Result<u8, Error> {
    if addr < mem.len() {
        Ok(mem[addr as int])
    } else {
        Err(Error::InvalidAddress)
    }
}

/// The little-endian halfword at offset `addr`, or `InvalidAddress` where it
/// does not lie within memory.
pub open spec fn hword_at(mem: Seq<u8>, addr: u64) -> Result<u16, Error> {
    if addr + 2 <= mem.len() {
        Ok(spec_u16_from_le_bytes(mem.subrange(addr as int, addr + 2)))
    } else {
        Err(Error::InvalidAddress)
    }
}

/// The little-endian word at offset `addr`, or `InvalidAddress` where it does
/// not lie within memory.
pub open spec fn word_at(mem: Seq<u8>, addr: u64) -> Result<u32, Error> {
    if addr + 4 <= mem.len() {
        Ok(spec_u32_from_le_bytes(mem.subrange(addr as int, addr + 4)))
    } else {
        Err(Error::InvalidAddress)
    }
}

/// The little-endian doubleword at offset `addr`, or `InvalidAddress` where
/// it does not lie within memory.
pub open spec fn dword_at(mem: Seq<u8>, addr: u64) -> Result<u64, Error> {
    if addr + 8 <= mem.len() {
        Ok(spec_u64_from_le_bytes(mem.subrange(addr as int, addr + 8)))
    } else {
        Err(Error::InvalidAddress)
    }
}

/// Memory with `bytes` in place of what it held from offset `addr` on.
pub open spec fn splice(mem: Seq<u8>, addr: int, bytes: Seq<u8>) -> Seq<u8> {
    Seq::new(mem.len(), |i: int| if addr <= i < addr + bytes.len() { bytes[i - addr] } else { mem[i] })
}

/// Memory after a store of `bytes` at offset `addr`, or `InvalidAddress`
/// where the bytes would not lie within memory.
pub open spec fn store_at(mem: Seq<u8>, addr: u64, bytes: Seq<u8>) -> Result<Seq<u8>, Error> {
    if addr + bytes.len() <= mem.len() {
        Ok(splice(mem, addr as int, bytes))
    } else {
        Err(Error::InvalidAddress)
    }
}

/// The value of an ASCII hex digit, either case.
pub open spec fn hex_digit(c: u8) -> Option<u8> {
    if 0x30 <= c <= 0x39 {
        Some((c - 0x30) as u8)
    } else if 0x61 <= c <= 0x66 {
        Some((c - 0x61 + 10) as u8)
    } else if 0x41 <= c <= 0x46 {
        Some((c - 0x41 + 10) as u8)
    } else {
        None
    }
}

/// Whether every character of the text is a hex digit.
pub open spec fn all_hex(text: Seq<u8>) -> bool {
    forall|i: int| 0 <= i < text.len() ==> hex_digit(#[trigger] text[i]) is Some
}

/// The byte that the hex digit pair at position `2 * i` of the text spells.
pub open spec fn hex_pair(text: Seq<u8>, i: int) -> u8 {
    (hex_digit(text[2 * i]).unwrap() << 4) | hex_digit(text[2 * i + 1]).unwrap()
}

/// The bytes that a hex text spells, pair by pair, or why it spells none.
pub open spec fn hex_bytes(text: Seq<u8>) -> Result<Seq<u8>, LoadError> {
    if text.len() % 2 != 0 {
        Err(LoadError::OddLength)
    } else if !all_hex(text) {
        Err(LoadError::NotHex)
    } else {
        Ok(Seq::new(text.len() / 2, |i: int| hex_pair(text, i)))
    }
}

/// Whether a byte is ASCII white space.
pub open spec fn is_space(c: u8) -> bool {
    c == 0x20 || 0x09 <= c <= 0x0D
}

/// A text without the white space before it.
pub open spec fn trim_start(text: Seq<u8>) -> Seq<u8>
    decreases text.len(),
{
    if text.len() > 0 && is_space(text[0]) {
        trim_start(text.subrange(1, text.len() as int))
    } else {
        text
    }
}

/// A text without the white space after it.
pub open spec fn trim_end(text: Seq<u8>) -> Seq<u8>
    decreases text.len(),
{
    if text.len() > 0 && is_space(text.last()) {
        trim_end(text.drop_last())
    } else {
        text
    }
}

/// A text without the white space around it.
pub open spec fn trimmed(text: Seq<u8>) -> Seq<u8> {
    trim_end(trim_start(text))
}

/// The memory image of a byte sequence: zero-padded to whole words, and each
/// word's four bytes in reverse order, so that a word written most
/// significant byte first reads back little-endian.
pub open spec fn word_image(data: Seq<u8>) -> Seq<u8> {
    Seq::new(
        ((data.len() + 3) / 4 * 4) as nat,
        |i: int|
            {
                let j = i - i % 4 + (3 - i % 4);
                if j < data.len() {
                    data[j]
                } else {
                    0u8
                }
            },
    )
}

/// What loading a hex text does to memory: the white space around the text
/// is dropped, and the image of its bytes replaces the start of memory.
pub open spec fn load_image(mem: Seq<u8>, text: Seq<u8>) -> Result<Seq<u8>, LoadError> {
    match hex_bytes(trimmed(text)) {
        Err(e) => Err(e),
        Ok(data) => if word_image(data).len() > mem.len() {
            Err(LoadError::TooBig)
        } else {
            Ok(splice(mem, 0, word_image(data)))
        },
    }
}

/// What loading a segment does to memory: `seg_size` bytes of `data` from
/// `seg_off` on go to the physical address `seg_phys_addr`.
pub open spec fn load_segment(mem: Seq<u8>, data: Seq<u8>, seg_off: int, seg_phys_addr: int, seg_size: int) -> Result<
    Seq<u8>,
    LoadError,
> {
    if seg_off + seg_size > data.len() {
        Err(LoadError::Truncated)
    } else if seg_phys_addr < MEM_OFF || seg_phys_addr - MEM_OFF + seg_size > mem.len() {
        Err(LoadError::OutsideDram)
    } else {
        Ok(splice(mem, seg_phys_addr - MEM_OFF, data.subrange(seg_off, seg_off + seg_size)))
    }
}

/// The rows of a memory dump: the offset range that covers the physical
/// addresses `begin` to `end`, widened to whole rows of 16 bytes, and the
/// bytes in it.
pub struct Dump {
    /// Physical address of the first byte.
    pub base: u64,
    pub bytes: Vec<u8>,
}

/// The flat byte array behind the DRAM region, addressed by offset.
#[derive(Debug)]
pub struct Dram {
    pub memory: Vec<u8>,
}

impl View for Dram {
    type V = Seq<u8>;

    open spec fn view(&self) -> Seq<u8> {
        self.memory@
    }
}

impl Dram {
    /// A zeroed memory of `mem_size` bytes.
    pub fn new(mem_size: usize) -> (r: Dram)
        ensures
            r@ == Seq::new(mem_size as nat, |i: int| 0u8),
    {
        let r = Dram { memory: vec![0u8; mem_size] };
        assert(r@ =~= Seq::new(mem_size as nat, |i: int| 0u8));
        r
    }

    /// Writes the byte at offset `idx`.
    pub fn set_mem(&mut self, idx: usize, data: u8) -> (r: Result<(), Error>)
        ensures
            crate::error::refines(
                old(self)@,
                final(self)@,
                r,
                if idx < old(self)@.len() {
                    Ok(old(self)@.update(idx as int, data))
                } else {
                    Err(Error::InvalidAddress)
                },
            ),
    {
        if idx < self.memory.len() {
            self.memory[idx] = data;
            Ok(())
        } else {
            Err(Error::InvalidAddress)
        }
    }

    /// Reads the byte at offset `idx`.
    pub fn get_mem(&self, idx: usize) -> (r: Result<u8, Error>)
        ensures
            r == (if idx < self@.len() {
                Ok(self@[idx as int])
            } else {
                Err(Error::InvalidAddress)
            }),
    {
        if idx < self.memory.len() {
            Ok(self.memory[idx])
        } else {
            Err(Error::InvalidAddress)
        }
    }

    /// The bytes that a dump of the physical addresses `begin` to `end`
    /// shows: the range is widened to whole rows of 16 bytes. Fails with
    /// `InvalidAddress` where the widened range is not within DRAM.
    pub fn prange(&self, begin: usize, end: usize) -> (r: Result<Dump, Error>)
        ensures
            match r {
                Ok(d) => {
                    let lo = (begin - MEM_OFF) - (begin - MEM_OFF) % 16;
                    let hi = (end - MEM_OFF + 15) / 16 * 16;
                    &&& MEM_OFF <= begin <= end
                    &&& hi <= self@.len()
                    &&& d.base == lo + MEM_OFF
                    &&& d.bytes@ == self@.subrange(lo, hi)
                },
                Err(e) => {
                    &&& e == Error::InvalidAddress
                    &&& (begin < MEM_OFF || end < begin || (end - MEM_OFF + 15) / 16 * 16 > self@.len())
                },
            },
    {
        if (begin as u64) < MEM_OFF || end < begin {
            return Err(Error::InvalidAddress);
        }
        let len = self.memory.len();
        let lo = begin - MEM_OFF as usize;
        let hi = end - MEM_OFF as usize;
        let lo = lo - lo % 16;
        if hi > len {
            return Err(Error::InvalidAddress);
        }
        let hi = if hi % 16 != 0 {
            if len - hi < 16 - hi % 16 {
                return Err(Error::InvalidAddress);
            }
            hi + (16 - hi % 16)
        } else {
            hi
        };
        let mut bytes: Vec<u8> = Vec::new();
        let mut i = lo;
        while i < hi
            invariant
                lo <= i <= hi <= len == self.memory@.len(),
                bytes@ == self@.subrange(lo as int, i as int),
            decreases hi - i,
        {
            bytes.push(self.memory[i]);
            i += 1;
            assert(bytes@ =~= self@.subrange(lo as int, i as int));
        }
        Ok(Dump { base: lo as u64 + MEM_OFF, bytes })
    }

    /// Loads a hex-text memory image at the start of memory: each pair of
    /// hex digits is one byte, and each four bytes are stored in reverse
    /// order. On failure memory is unchanged.
    pub fn load(&mut self, data: &str) -> (r: Result<(), LoadError>)
        ensures
            match load_image(old(self)@, data.spec_bytes()) {
                Ok(m) => r is Ok && final(self)@ == m,
                Err(e) => r == Err::<(), LoadError>(e) && final(self)@ == old(self)@,
            },
    {
        let text = data.as_bytes();
        let (lo, hi) = trim(text);
        let mut data = match to_byte_array(slice_subrange(text, lo, hi)) {
            Ok(d) => d,
            Err(e) => {
                return Err(e);
            },
        };
        let ghost bytes = data@;
        if data.len() > self.memory.len() {
            return Err(LoadError::TooBig);
        }
        while data.len() % 4 != 0
            invariant
                bytes.len() <= data@.len() <= (bytes.len() + 3) / 4 * 4,
                bytes.len() <= self.memory@.len() <= usize::MAX,
                forall|i: int| 0 <= i < data@.len() ==> data@[i] == (if i < bytes.len() { bytes[i] } else { 0u8 }),
            decreases (bytes.len() + 3) / 4 * 4 - data@.len(),
        {
            data.push(0);
        }
        let n = data.len();
        assert(n == word_image(bytes).len());
        if n > self.memory.len() {
            return Err(LoadError::TooBig);
        }
        let mut i: usize = 0;
        while i < n
            invariant
                i % 4 == 0,
                n % 4 == 0,
                i <= n == data@.len() <= self.memory@.len(),
                self.memory@.len() == old(self)@.len(),
                n == word_image(bytes).len(),
                forall|k: int| 0 <= k < n ==> data@[k] == (if k < bytes.len() { bytes[k] } else { 0u8 }),
                forall|k: int| 0 <= k < i ==> self.memory@[k] == word_image(bytes)[k],
                forall|k: int| i <= k < self.memory@.len() ==> self.memory@[k] == old(self)@[k],
            decreases n - i,
        {
            self.memory[i] = data[i + 3];
            self.memory[i + 1] = data[i + 2];
            self.memory[i + 2] = data[i + 1];
            self.memory[i + 3] = data[i];
            i += 4;
        }
        assert(self@ =~= splice(old(self)@, 0, word_image(bytes)));
        Ok(())
    }

    /// Copies `seg_size` bytes of `data`, from `seg_off` on, to the physical
    /// address `seg_phys_addr`. On failure memory is unchanged.
    pub fn load_seg(&mut self, data: &Vec<u8>, seg_off: usize, seg_phys_addr: u64, seg_size: usize) -> (r: Result<
        (),
        LoadError,
    >)
        ensures
            match load_segment(old(self)@, data@, seg_off as int, seg_phys_addr as int, seg_size as int) {
                Ok(m) => r is Ok && final(self)@ == m,
                Err(e) => r == Err::<(), LoadError>(e) && final(self)@ == old(self)@,
            },
    {
        if seg_off > data.len() || seg_size > data.len() - seg_off {
            return Err(LoadError::Truncated);
        }
        if seg_phys_addr < MEM_OFF {
            return Err(LoadError::OutsideDram);
        }
        let len = self.memory.len();
        if seg_phys_addr - MEM_OFF > len as u64 {
            return Err(LoadError::OutsideDram);
        }
        let base = (seg_phys_addr - MEM_OFF) as usize;
        if seg_size > len - base {
            return Err(LoadError::OutsideDram);
        }
        let mut i: usize = 0;
        while i < seg_size
            invariant
                i <= seg_size,
                seg_off + seg_size <= data@.len() <= usize::MAX,
                base + seg_size <= self.memory@.len() <= usize::MAX,
                self.memory@.len() == old(self)@.len(),
                forall|k: int| base <= k < base + i ==> self.memory@[k] == data@[seg_off + k - base],
                forall|k: int|
                    0 <= k < self.memory@.len() && !(base <= k < base + i) ==> self.memory@[k] == old(self)@[k],
            decreases seg_size - i,
        {
            self.memory[base + i] = data[seg_off + i];
            i += 1;
        }
        assert(self@ =~= splice(old(self)@, base as int, data@.subrange(seg_off as int, seg_off + seg_size)));
        Ok(())
    }

    /// Reads the byte at offset `addr`.
    pub fn load_byte(&self, addr: u64) -> (r: Result<u8, Error>)
        ensures
            r == byte_at(self@, addr),
    {
        if addr < self.memory.len() as u64 {
            Ok(self.memory[addr as usize])
        } else {
            Err(Error::InvalidAddress)
        }
    }

    /// Reads the little-endian halfword at offset `begin`.
    pub fn load_hword(&self, begin: u64) -> (r: Result<u16, Error>)
        ensures
            r == hword_at(self@, begin),
    {
        let len = self.memory.len() as u64;
        if begin <= len && len - begin >= 2 {
            let a = begin as usize;
            Ok(u16_from_le_bytes(slice_subrange(self.memory.as_slice(), a, a + 2)))
        } else {
            Err(Error::InvalidAddress)
        }
    }

    /// Reads the little-endian word at offset `addr`.
    pub fn load_word(&self, addr: u64) -> (r: Result<u32, Error>)
        ensures
            r == word_at(self@, addr),
    {
        let len = self.memory.len() as u64;
        if addr <= len && len - addr >= 4 {
            let a = addr as usize;
            Ok(u32_from_le_bytes(slice_subrange(self.memory.as_slice(), a, a + 4)))
        } else {
            Err(Error::InvalidAddress)
        }
    }

    /// Reads the little-endian doubleword at offset `addr`.
    pub fn load_dword(&self, addr: u64) -> (r: Result<u64, Error>)
        ensures
            r == dword_at(self@, addr),
    {
        let len = self.memory.len() as u64;
        if addr <= len && len - addr >= 8 {
            let a = addr as usize;
            Ok(u64_from_le_bytes(slice_subrange(self.memory.as_slice(), a, a + 8)))
        } else {
            Err(Error::InvalidAddress)
        }
    }

    /// Writes `bytes` at offset `addr`, or fails with `InvalidAddress` and
    /// changes nothing where they would not lie within memory.
    fn store_bytes(&mut self, addr: u64, bytes: &Vec<u8>) -> (r: Result<(), Error>)
        ensures
            crate::error::refines(old(self)@, final(self)@, r, store_at(old(self)@, addr, bytes@)),
    {
        let len = self.memory.len() as u64;
        let n = bytes.len();
        if !(addr <= len && len - addr >= n as u64) {
            return Err(Error::InvalidAddress);
        }
        let a = addr as usize;
        let mut i: usize = 0;
        while i < n
            invariant
                i <= n == bytes@.len(),
                a + n <= self.memory@.len() <= usize::MAX,
                self.memory@.len() == old(self)@.len(),
                forall|k: int| a <= k < a + i ==> self.memory@[k] == bytes@[k - a],
                forall|k: int| 0 <= k < self.memory@.len() && !(a <= k < a + i) ==> self.memory@[k] == old(self)@[k],
            decreases n - i,
        {
            self.memory[a + i] = bytes[i];
            i += 1;
        }
        assert(self@ =~= splice(old(self)@, addr as int, bytes@));
        Ok(())
    }

    /// Writes the byte at offset `addr`.
    pub fn store_byte(&mut self, addr: u64, data: u8) -> (r: Result<(), Error>)
        ensures
            crate::error::refines(old(self)@, final(self)@, r, store_at(old(self)@, addr, seq![data])),
    {
        if addr < self.memory.len() as u64 {
            self.memory[addr as usize] = data;
            assert(self@ =~= splice(old(self)@, addr as int, seq![data]));
            Ok(())
        } else {
            Err(Error::InvalidAddress)
        }
    }

    /// Writes the halfword at offset `addr`, little-endian.
    pub fn store_hword(&mut self, addr: u64, data: u16) -> (r: Result<(), Error>)
        ensures
            crate::error::refines(old(self)@, final(self)@, r, store_at(old(self)@, addr, spec_u16_to_le_bytes(data))),
    {
        let bytes = u16_to_le_bytes(data);
        self.store_bytes(addr, &bytes)
    }

    /// Writes the word at offset `addr`, little-endian.
    pub fn store_word(&mut self, addr: u64, data: u32) -> (r: Result<(), Error>)
        ensures
            crate::error::refines(old(self)@, final(self)@, r, store_at(old(self)@, addr, spec_u32_to_le_bytes(data))),
    {
        let bytes = u32_to_le_bytes(data);
        self.store_bytes(addr, &bytes)
    }

    /// Writes the doubleword at offset `addr`, little-endian.
    pub fn store_dword(&mut self, addr: u64, data: u64) -> (r: Result<(), Error>)
        ensures
            crate::error::refines(old(self)@, final(self)@, r, store_at(old(self)@, addr, spec_u64_to_le_bytes(data))),
    {
        let bytes = u64_to_le_bytes(data);
        self.store_bytes(addr, &bytes)
    }
}

/// Finds the range of a text that is left when the white space around it
/// is dropped.
pub fn trim(text: &[u8]) -> (r: (usize, usize))
    ensures
        r.0 <= r.1 <= text@.len(),
        text@.subrange(r.0 as int, r.1 as int) == trimmed(text@),
{
    let n = text.len();
    let mut lo: usize = 0;
    assert(text@.subrange(0, n as int) =~= text@);
    while lo < n && is_white(text[lo])
        invariant
            lo <= n == text@.len(),
            trim_start(text@.subrange(lo as int, n as int)) == trim_start(text@),
        decreases n - lo,
    {
        assert(text@.subrange(lo as int, n as int).subrange(1, n - lo) =~= text@.subrange(lo + 1, n as int));
        lo += 1;
    }
    let ghost rest = text@.subrange(lo as int, n as int);
    assert(trim_start(text@) == rest);
    let mut hi: usize = n;
    assert(rest.subrange(0, n - lo) =~= rest);
    while hi > lo && is_white(text[hi - 1])
        invariant
            lo <= hi <= n == text@.len(),
            rest == text@.subrange(lo as int, n as int),
            trim_end(rest.subrange(0, hi - lo)) == trim_end(rest),
        decreases hi,
    {
        assert(rest.subrange(0, hi - lo).drop_last() =~= rest.subrange(0, hi - lo - 1));
        hi -= 1;
    }
    assert(rest.subrange(0, hi - lo) =~= text@.subrange(lo as int, hi as int));
    (lo, hi)
}

/// Tells whether a byte is ASCII white space.
fn is_white(c: u8) -> (r: bool)
    ensures
        r == is_space(c),
{
    c == 0x20 || (0x09 <= c && c <= 0x0D)
}

/// Reads a hex text as bytes, one per pair of digits.
pub fn to_byte_array(text: &[u8]) -> (r: Result<Vec<u8>, LoadError>)
    ensures
        match r {
            Ok(v) => hex_bytes(text@) == Ok::<Seq<u8>, LoadError>(v@),
            Err(e) => hex_bytes(text@) == Err::<Seq<u8>, LoadError>(e),
        },
{
    let n = text.len();
    if n % 2 != 0 {
        return Err(LoadError::OddLength);
    }
    let mut res: Vec<u8> = Vec::new();
    let mut i: usize = 0;
    while i < n / 2
        invariant
            n == text@.len(),
            n % 2 == 0,
            i <= n / 2,
            res@.len() == i,
            forall|k: int| 0 <= k < 2 * i ==> hex_digit(#[trigger] text@[k]) is Some,
            forall|k: int| 0 <= k < i ==> res@[k] == hex_pair(text@, k),
        decreases n / 2 - i,
    {
        let hi = match to_hex(text[2 * i]) {
            Some(v) => v,
            None => {
                assert(hex_digit(text@[2 * i]) is None);
                return Err(LoadError::NotHex);
            },
        };
        let lo = match to_hex(text[2 * i + 1]) {
            Some(v) => v,
            None => {
                assert(hex_digit(text@[2 * i + 1]) is None);
                return Err(LoadError::NotHex);
            },
        };
        res.push(hi << 4 | lo);
        i += 1;
    }
    assert(all_hex(text@));
    assert(res@ =~= Seq::new(text@.len() / 2, |i: int| hex_pair(text@, i)));
    Ok(res)
}

/// The value of an ASCII hex digit, either case; `None` for any other byte.
pub fn to_hex(c: u8) -> (r: Option<u8>)
    ensures
        r == hex_digit(c),
        r matches Some(v) ==> v < 16,
{
    if 0x30 <= c && c <= 0x39 {
        Some(c - 0x30)
    } else if 0x61 <= c && c <= 0x66 {
        Some(c - 0x61 + 10)
    } else if 0x41 <= c && c <= 0x46 {
        Some(c - 0x41 + 10)
    } else {
        None
    }
}

/// A byte that was stored is the byte that a load at the same offset gives,
/// for every offset within memory.
pub proof fn lemma_store_load_byte(mem: Seq<u8>, addr: u64, data: u8)
    requires
        addr < mem.len(),
    ensures
        store_at(mem, addr, seq![data]) is Ok,
        byte_at(store_at(mem, addr, seq![data]).unwrap(), addr) == Ok::<u8, Error>(data),
{
}

/// A halfword, word or doubleword that was stored is what a load of the
/// same width at the same offset gives.
pub proof fn lemma_store_load_wide(mem: Seq<u8>, addr: u64, h: u16, w: u32, d: u64)
    ensures
        addr + 2 <= mem.len() ==> hword_at(store_at(mem, addr, spec_u16_to_le_bytes(h)).unwrap(), addr) == Ok::<
            u16,
            Error,
        >(h),
        addr + 4 <= mem.len() ==> word_at(store_at(mem, addr, spec_u32_to_le_bytes(w)).unwrap(), addr) == Ok::<
            u32,
            Error,
        >(w),
        addr + 8 <= mem.len() ==> dword_at(store_at(mem, addr, spec_u64_to_le_bytes(d)).unwrap(), addr) == Ok::<
            u64,
            Error,
        >(d),
{
    lemma_auto_spec_u16_to_from_le_bytes();
    lemma_auto_spec_u32_to_from_le_bytes();
    lemma_auto_spec_u64_to_from_le_bytes();
    if addr + 2 <= mem.len() {
        let b = spec_u16_to_le_bytes(h);
        assert(splice(mem, addr as int, b).subrange(addr as int, addr + 2) =~= b);
    }
    if addr + 4 <= mem.len() {
        let b = spec_u32_to_le_bytes(w);
        assert(splice(mem, addr as int, b).subrange(addr as int, addr + 4) =~= b);
    }
    if addr + 8 <= mem.len() {
        let b = spec_u64_to_le_bytes(d);
        assert(splice(mem, addr as int, b).subrange(addr as int, addr + 8) =~= b);
    }
}

} // verus!
