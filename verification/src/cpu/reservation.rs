//! The reservation bitmap: one bit for each word of DRAM, eight words to a
//! byte.
use vstd::prelude::*;

verus! {

/// The bit of a bitmap byte that stands for the `k`-th of its eight words,
/// the first word in the highest bit.
pub open spec fn word_bit(k: int) -> u8 {
    0x80u8 >> (k as u8)
}

/// How many words a reservation bitmap covers: eight for each byte.
pub open spec fn covered_words(bits: Seq<u8>) -> int {
    bits.len() as int * 8
}

/// The words that a reservation bitmap marks as reserved. A word is four
/// bytes of DRAM, and its index is its offset divided by four.
pub open spec fn reserved_words(bits: Seq<u8>) -> Set<int> {
    Set::new(|w: int| 0 <= w < covered_words(bits) && bits[w / 8] & word_bit(w % 8) != 0)
}

proof fn lemma_word_bits(b: u8, k: u8, j: u8)
    requires
        k < 8,
        j < 8,
    ensures
        ((b | (0x80u8 >> k)) & (0x80u8 >> j) != 0) == (b & (0x80u8 >> j) != 0 || j == k),
        ((b & !(0x80u8 >> k)) & (0x80u8 >> j) != 0) == (b & (0x80u8 >> j) != 0 && j != k),
{
    assert(k < 8 && j < 8 ==> (((b | (0x80u8 >> k)) & (0x80u8 >> j) != 0) == (b & (0x80u8 >> j) != 0 || j == k)) && ((
    (b & !(0x80u8 >> k)) & (0x80u8 >> j) != 0) == (b & (0x80u8 >> j) != 0 && j != k))) by (bit_vector);
}

/// A bitmap of `len` bytes in which no word is reserved.
pub fn new_bitmap(len: usize) -> (bits: Vec<u8>)
    ensures
        bits@.len() == len,
        reserved_words(bits@) == Set::<int>::empty(),
{
    let bits = vec![0u8; len];
    proof {
        assert forall|w: int| !reserved_words(bits@).contains(w) by {
            if 0 <= w < covered_words(bits@) {
                let k = (w % 8) as u8;
                assert(0u8 & (0x80u8 >> k) == 0) by (bit_vector);
            }
        }
        assert(reserved_words(bits@) =~= Set::<int>::empty());
    }
    bits
}

/// Marks the `k`-th word of byte `idx` as reserved.
pub fn reserve_word(bits: &mut Vec<u8>, idx: usize, k: u8)
    requires
        idx < old(bits)@.len(),
        k < 8,
    ensures
        final(bits)@.len() == old(bits)@.len(),
        reserved_words(final(bits)@) == reserved_words(old(bits)@).insert(idx * 8 + k),
{
    let ghost w = idx * 8 + k;
    let b = bits[idx];
    bits[idx] = b | (0x80u8 >> k);
    proof {
        assert forall|v: int|
            reserved_words(bits@).contains(v) == reserved_words(old(bits)@).insert(w).contains(v) by {
            if 0 <= v < covered_words(bits@) && v / 8 == idx {
                lemma_word_bits(b, k, (v % 8) as u8);
            }
        }
        assert(reserved_words(bits@) =~= reserved_words(old(bits)@).insert(w));
    }
}

/// Tells whether the `k`-th word of byte `idx` is reserved.
pub fn word_reserved(bits: &Vec<u8>, idx: usize, k: u8) -> (r: bool)
    requires
        idx < bits@.len(),
        k < 8,
    ensures
        r == reserved_words(bits@).contains(idx * 8 + k),
{
    bits[idx] & (0x80u8 >> k) != 0
}

/// Takes the reservation of the `k`-th word of byte `idx` back.
pub fn release_word(bits: &mut Vec<u8>, idx: usize, k: u8)
    requires
        idx < old(bits)@.len(),
        k < 8,
    ensures
        final(bits)@.len() == old(bits)@.len(),
        reserved_words(final(bits)@) == reserved_words(old(bits)@).remove(idx * 8 + k),
{
    let ghost w = idx * 8 + k;
    let b = bits[idx];
    bits[idx] = b & !(0x80u8 >> k);
    proof {
        assert forall|v: int|
            reserved_words(bits@).contains(v) == reserved_words(old(bits)@).remove(w).contains(v) by {
            if 0 <= v < covered_words(bits@) && v / 8 == idx {
                lemma_word_bits(b, k, (v % 8) as u8);
            }
        }
        assert(reserved_words(bits@) =~= reserved_words(old(bits)@).remove(w));
    }
}

} // verus!
