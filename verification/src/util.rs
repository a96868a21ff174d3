//! Reading numbers from text.
use vstd::prelude::*;
use vstd::string::StringSliceAdditionalSpecFns;
use crate::dram::{hex_digit, to_hex};

verus! {

/// The number that a sequence of hex digits spells, most significant digit
/// first; `None` where one of them is no hex digit.
pub open spec fn hex_value(digits: Seq<u8>) -> Option<nat>
    decreases digits.len(),
{
    if digits.len() == 0 {
        Some(0)
    } else {
        match (hex_value(digits.drop_last()), hex_digit(digits.last())) {
            (Some(v), Some(d)) => Some(v * 16 + d as nat),
            _ => None,
        }
    }
}

/// The number that a sequence of decimal digits spells; `None` where one of
/// them is no decimal digit.
pub open spec fn dec_value(digits: Seq<u8>) -> Option<nat>
    decreases digits.len(),
{
    if digits.len() == 0 {
        Some(0)
    } else {
        match dec_value(digits.drop_last()) {
            Some(v) => if 0x30 <= digits.last() <= 0x39 {
                Some(v * 10 + (digits.last() - 0x30) as nat)
            } else {
                None
            },
            None => None,
        }
    }
}

/// What is left of a text after its first `n` bytes; nothing where it has
/// no more than that.
pub open spec fn after(text: Seq<u8>, n: int) -> Seq<u8> {
    if text.len() <= n {
        Seq::empty()
    } else {
        text.subrange(n, text.len() as int)
    }
}

/// The number that an address such as `0x0123ABCD` spells: the first two
/// characters are dropped unread, and the rest are hex digits. `None` where
/// they are not, and where the number does not fit.
pub open spec fn hex_to_usize_spec(text: Seq<u8>) -> Option<usize> {
    match hex_value(after(text, 2)) {
        Some(v) => if v <= usize::MAX {
            Some(v as usize)
        } else {
            None
        },
        None => None,
    }
}

/// The number that a decimal text spells, with or without a plus sign
/// before it. `None` where it has no digit, where a character is no digit,
/// and where the number does not fit.
pub open spec fn dec_to_usize_spec(text: Seq<u8>) -> Option<usize> {
    let digits = if text.len() > 0 && text[0] == 0x2B {
        after(text, 1)
    } else {
        text
    };
    if digits.len() == 0 {
        None
    } else {
        match dec_value(digits) {
            Some(v) => if v <= usize::MAX {
                Some(v as usize)
            } else {
                None
            },
            None => None,
        }
    }
}

proof fn lemma_hex_prefix(digits: Seq<u8>, n: int)
    requires
        0 <= n <= digits.len(),
        hex_value(digits) is Some,
    ensures
        hex_value(digits.subrange(0, n)) is Some,
        hex_value(digits.subrange(0, n)).unwrap() <= hex_value(digits).unwrap(),
    decreases digits.len(),
{
    if n == digits.len() {
        assert(digits.subrange(0, n) =~= digits);
    } else {
        lemma_hex_prefix(digits.drop_last(), n);
        assert(digits.drop_last().subrange(0, n) =~= digits.subrange(0, n));
    }
}

proof fn lemma_dec_prefix(digits: Seq<u8>, n: int)
    requires
        0 <= n <= digits.len(),
        dec_value(digits) is Some,
    ensures
        dec_value(digits.subrange(0, n)) is Some,
        dec_value(digits.subrange(0, n)).unwrap() <= dec_value(digits).unwrap(),
    decreases digits.len(),
{
    if n == digits.len() {
        assert(digits.subrange(0, n) =~= digits);
    } else {
        lemma_dec_prefix(digits.drop_last(), n);
        assert(digits.drop_last().subrange(0, n) =~= digits.subrange(0, n));
    }
}

/// Reads an address such as `0x0123ABCD`.
pub fn hex_to_usize(hex: &str) -> (r: Option<usize>)
    ensures
        r == hex_to_usize_spec(hex.spec_bytes()),
{
    hex_text_to_usize(hex.as_bytes())
}

/// Reads an address such as `0x0123ABCD` from the bytes of a text.
pub fn hex_text_to_usize(text: &[u8]) -> (r: Option<usize>)
    ensures
        r == hex_to_usize_spec(text@),
{
    let n = text.len();
    if n <= 2 {
        return Some(0);
    }
    let ghost digits = text@.subrange(2, n as int);
    let mut res: usize = 0;
    let mut i: usize = 2;
    assert(digits.subrange(0, 0) =~= Seq::<u8>::empty());
    while i < n
        invariant
            2 <= i <= n == text@.len(),
            digits == text@.subrange(2, n as int),
            hex_value(digits.subrange(0, i - 2)) == Some(res as nat),
        decreases n - i,
    {
        let ghost prev = digits.subrange(0, i - 2);
        let ghost next = digits.subrange(0, i - 1);
        assert(next.drop_last() =~= prev);
        assert(next.last() == text@[i as int]);
        let d = match to_hex(text[i]) {
            Some(d) => d,
            None => {
                proof {
                    if hex_value(digits) is Some {
                        lemma_hex_prefix(digits, i - 1);
                    }
                }
                return None;
            },
        };
        let v = match res.checked_mul(16) {
            Some(v) => v.checked_add(d as usize),
            None => None,
        };
        res = match v {
            Some(v) => v,
            None => {
                proof {
                    if hex_value(digits) is Some {
                        lemma_hex_prefix(digits, i - 1);
                    }
                }
                return None;
            },
        };
        i += 1;
    }
    assert(digits.subrange(0, n - 2) =~= digits);
    Some(res)
}

/// Reads a decimal number.
pub fn dec_to_usize(dec: &str) -> (r: Option<usize>)
    ensures
        r == dec_to_usize_spec(dec.spec_bytes()),
{
    let text = dec.as_bytes();
    let n = text.len();
    let start: usize = if n > 0 && text[0] == 0x2B {
        1
    } else {
        0
    };
    if start == n {
        return None;
    }
    let ghost digits = text@.subrange(start as int, n as int);
    assert(start == 0 ==> digits =~= text@);
    let mut res: usize = 0;
    let mut i: usize = start;
    assert(digits.subrange(0, 0) =~= Seq::<u8>::empty());
    while i < n
        invariant
            text@ == dec.spec_bytes(),
            start == (if n > 0 && text@[0] == 0x2B { 1int } else { 0int }),
            start == 0 ==> digits == text@,
            start <= i <= n == text@.len(),
            digits == text@.subrange(start as int, n as int),
            dec_value(digits.subrange(0, i - start)) == Some(res as nat),
        decreases n - i,
    {
        let ghost prev = digits.subrange(0, i - start);
        let ghost next = digits.subrange(0, i - start + 1);
        assert(next.drop_last() =~= prev);
        assert(next.last() == text@[i as int]);
        let c = text[i];
        let v = if 0x30 <= c && c <= 0x39 {
            match res.checked_mul(10) {
                Some(v) => v.checked_add((c - 0x30) as usize),
                None => None,
            }
        } else {
            None
        };
        res = match v {
            Some(v) => v,
            None => {
                proof {
                    if dec_value(digits) is Some {
                        lemma_dec_prefix(digits, i - start + 1);
                    }
                }
                return None;
            },
        };
        i += 1;
    }
    assert(digits.subrange(0, n - start) =~= digits);
    Some(res)
}

} // verus!
