//! Arithmetic on 64-bit words: two's complement, sign extension, shifts,
//! products and quotients, as the integer instructions need them.
use vstd::prelude::*;

verus! {

/// The integer that a 64-bit word stands for in two's complement.
pub open spec fn signed64(x: u64) -> int {
    if x < 0x8000_0000_0000_0000 {
        x as int
    } else {
        x - 0x1_0000_0000_0000_0000
    }
}

/// The 64-bit word that stands for an integer in two's complement: the
/// integer modulo 2^64.
pub open spec fn unsigned64(i: int) -> u64 {
    (i % 0x1_0000_0000_0000_0000) as u64
}

/// The integer that a 32-bit word stands for in two's complement.
pub open spec fn signed32(x: u32) -> int {
    if x < 0x8000_0000 {
        x as int
    } else {
        x - 0x1_0000_0000
    }
}

/// The 32-bit word that stands for an integer in two's complement.
pub open spec fn unsigned32(i: int) -> u32 {
    (i % 0x1_0000_0000) as u32
}

/// Reads a 64-bit word as a signed integer.
pub fn to_signed(x: u64) -> (r: i64)
    ensures
        r == signed64(x),
{
    assert((x < 0x8000_0000_0000_0000 ==> (x as i64) == x) && (x >= 0x8000_0000_0000_0000 ==> (x as i64) == x
        - 0x1_0000_0000_0000_0000)) by (bit_vector);
    x as i64
}

/// Writes a signed integer as a 64-bit word.
pub fn from_signed(x: i64) -> (r: u64)
    ensures
        r == unsigned64(x as int),
        signed64(r) == x,
{
    assert((x >= 0 ==> (x as u64) == x) && (x < 0 ==> (x as u64) == x + 0x1_0000_0000_0000_0000)) by (bit_vector);
    x as u64
}

/// Reads a 32-bit word as a signed integer.
pub fn to_signed32(x: u32) -> (r: i32)
    ensures
        r == signed32(x),
{
    assert((x < 0x8000_0000 ==> (x as i32) == x) && (x >= 0x8000_0000 ==> (x as i32) == x - 0x1_0000_0000))
        by (bit_vector);
    x as i32
}

/// Writes a signed integer as a 32-bit word.
pub fn from_signed32(x: i32) -> (r: u32)
    ensures
        r == unsigned32(x as int),
        signed32(r) == x,
{
    assert((x >= 0 ==> (x as u32) == x) && (x < 0 ==> (x as u32) == x + 0x1_0000_0000)) by (bit_vector);
    x as u32
}

/// The low 32 bits of a word.
pub open spec fn low32(x: u64) -> u32 {
    (x & 0xFFFF_FFFF) as u32
}

/// Takes the low 32 bits of a word.
pub fn low_word(x: u64) -> (r: u32)
    ensures
        r == low32(x),
{
    (x & 0xFFFF_FFFF) as u32
}

/// Sign extension: where `imm` has the bit `sign_bit` set, every bit above
/// it is set too; otherwise `imm` is unchanged. `sign_bit` is the mask of one
/// bit, the highest of the value's width.
pub open spec fn sext_spec(imm: u64, sign_bit: u64) -> u64 {
    if sign_bit == 0 || imm & sign_bit == 0 {
        imm
    } else {
        imm | !(sign_bit | ((sign_bit - 1) as u64))
    }
}

/// Sign-extends `imm` from the bit `sign_bit` upwards.
pub fn sext(imm: u64, sign_bit: u64) -> (r: u64)
    ensures
        r == sext_spec(imm, sign_bit),
{
    if sign_bit == 0 || imm & sign_bit == 0 {
        imm
    } else {
        imm | !(sign_bit | (sign_bit - 1))
    }
}

/// A word with its upper half replaced by copies of bit 31.
pub open spec fn sext32(x: u64) -> u64 {
    sext_spec(x & 0xFFFF_FFFF, 0x8000_0000)
}

/// Sign-extends the low 32 bits of a word.
pub fn sext_word(x: u64) -> (r: u64)
    ensures
        r == sext32(x),
{
    sext(x & 0xFFFF_FFFF, 0x8000_0000)
}

/// Sign extension is idempotent, from whichever bit.
pub proof fn lemma_sext_idempotent(x: u64, sign_bit: u64)
    ensures
        sext_spec(sext_spec(x, sign_bit), sign_bit) == sext_spec(x, sign_bit),
{
    assert(sext_spec(sext_spec(x, sign_bit), sign_bit) == sext_spec(x, sign_bit)) by (bit_vector);
}

/// What sign extension means: a value of 8, 12, 13, 16, 21 or 32 bits,
/// extended from its highest bit, stands for the integer that the value
/// stands for in two's complement at its own width.
pub proof fn lemma_sext_value(x: u64)
    ensures
        x < 0x100 ==> signed64(sext_spec(x, 0x80)) == (if x < 0x80 { x as int } else { x - 0x100 }),
        x < 0x1000 ==> signed64(sext_spec(x, 0x800)) == (if x < 0x800 { x as int } else { x - 0x1000 }),
        x < 0x2000 ==> signed64(sext_spec(x, 0x1000)) == (if x < 0x1000 { x as int } else { x - 0x2000 }),
        x < 0x1_0000 ==> signed64(sext_spec(x, 0x8000)) == (if x < 0x8000 { x as int } else { x - 0x1_0000 }),
        x < 0x20_0000 ==> signed64(sext_spec(x, 0x10_0000)) == (if x < 0x10_0000 { x as int } else { x - 0x20_0000 }),
        x < 0x1_0000_0000 ==> signed64(sext_spec(x, 0x8000_0000)) == (if x < 0x8000_0000 { x as int } else { x
            - 0x1_0000_0000 }),
{
    assert({
        &&& (x < 0x100 ==> sext_spec(x, 0x80) == (if x < 0x80 { x } else { (x + 0xFFFF_FFFF_FFFF_FF00) as u64 }))
        &&& (x < 0x1000 ==> sext_spec(x, 0x800) == (if x < 0x800 { x } else { (x + 0xFFFF_FFFF_FFFF_F000) as u64 }))
        &&& (x < 0x2000 ==> sext_spec(x, 0x1000) == (if x < 0x1000 { x } else { (x + 0xFFFF_FFFF_FFFF_E000) as u64 }))
        &&& (x < 0x1_0000 ==> sext_spec(x, 0x8000) == (if x < 0x8000 { x } else { (x + 0xFFFF_FFFF_FFFF_0000) as u64 }))
        &&& (x < 0x20_0000 ==> sext_spec(x, 0x10_0000) == (if x < 0x10_0000 { x } else { (x + 0xFFFF_FFFF_FFE0_0000) as u64 }))
        &&& (x < 0x1_0000_0000 ==> sext_spec(x, 0x8000_0000) == (if x < 0x8000_0000 { x } else { (x
            + 0xFFFF_FFFF_0000_0000) as u64 }))
    }) by (bit_vector);
}

/// Whether the upper half of a word is 32 copies of its bit 31.
pub open spec fn is_sext32(x: u64) -> bool {
    x >> 32 == (if (x >> 31) & 1 == 1 { 0xFFFF_FFFFu64 } else { 0u64 })
}

/// The result of every word operation has its bits 63 to 32 equal to bit 31,
/// and its low half is the low half of what was extended.
pub proof fn lemma_sext32(x: u64)
    ensures
        is_sext32(sext32(x)),
        sext32(x) & 0xFFFF_FFFF == x & 0xFFFF_FFFF,
{
    assert(is_sext32(sext32(x)) && sext32(x) & 0xFFFF_FFFF == x & 0xFFFF_FFFF) by (bit_vector);
}

/// 1 where `c` holds, else 0.
pub open spec fn flag(c: bool) -> u64 {
    if c {
        1
    } else {
        0
    }
}

/// Signed less-than, as 1 or 0.
pub open spec fn slt_spec(a: u64, b: u64) -> u64 {
    flag(signed64(a) < signed64(b))
}

/// Signed less-than of two words, as 1 or 0.
pub fn slt(a: u64, b: u64) -> (r: u64)
    ensures
        r == slt_spec(a, b),
{
    if to_signed(a) < to_signed(b) {
        1
    } else {
        0
    }
}

/// Arithmetic right shift by `s`: the vacated bits take the sign bit.
pub open spec fn sra_spec(a: u64, s: u64) -> u64 {
    if a & 0x8000_0000_0000_0000 == 0 {
        a >> s
    } else {
        !((!a) >> s)
    }
}

/// Shifts a word right by `s`, filling with the sign bit.
pub fn sra(a: u64, s: u64) -> (r: u64)
    requires
        s < 64,
    ensures
        r == sra_spec(a, s),
{
    assert(s < 64 ==> (((a as i64) >> s) as u64) == sra_spec(a, s)) by (bit_vector);
    ((a as i64) >> s) as u64
}

/// The upper 64 bits of the 128-bit product of two signed words.
pub open spec fn mulh_spec(a: u64, b: u64) -> u64 {
    unsigned64((signed64(a) * signed64(b)) / 0x1_0000_0000_0000_0000)
}

/// The upper 64 bits of the product of a signed and an unsigned word.
pub open spec fn mulhsu_spec(a: u64, b: u64) -> u64 {
    unsigned64((signed64(a) * b) / 0x1_0000_0000_0000_0000)
}

/// The upper 64 bits of the 128-bit product of two unsigned words.
pub open spec fn mulhu_spec(a: u64, b: u64) -> u64 {
    ((a as int * b as int) / 0x1_0000_0000_0000_0000) as u64
}

/// Multiplies two signed words and keeps the upper half of the product.
pub fn mulh(a: u64, b: u64) -> (r: u64)
    ensures
        r == mulh_spec(a, b),
{
    let x: i64 = to_signed(a);
    let y: i64 = to_signed(b);
    assert(-0x4000_0000_0000_0000_0000_0000_0000_0000 <= (x as int) * (y as int) && (x as int) * (y as int)
        <= 0x4000_0000_0000_0000_0000_0000_0000_0000) by (nonlinear_arith)
        requires
            -0x8000_0000_0000_0000 <= x <= 0x7FFF_FFFF_FFFF_FFFF,
            -0x8000_0000_0000_0000 <= y <= 0x7FFF_FFFF_FFFF_FFFF,
    ;
    let p: i128 = (x as i128) * (y as i128);
    match p.checked_div_euclid(0x1_0000_0000_0000_0000i128) {
        Some(h) => from_signed(h as i64),
        None => 0,
    }
}

/// Multiplies a signed by an unsigned word and keeps the upper half of the
/// product.
pub fn mulhsu(a: u64, b: u64) -> (r: u64)
    ensures
        r == mulhsu_spec(a, b),
{
    let x: i64 = to_signed(a);
    assert(-0x8000_0000_0000_0000_0000_0000_0000_0000 < (x as int) * (b as int) && (x as int) * (b as int)
        < 0x8000_0000_0000_0000_0000_0000_0000_0000) by (nonlinear_arith)
        requires
            -0x8000_0000_0000_0000 <= x <= 0x7FFF_FFFF_FFFF_FFFF,
            0 <= b <= 0xFFFF_FFFF_FFFF_FFFF,
    ;
    assert(-0x8000_0000_0000_0000 <= ((x as int) * (b as int)) / 0x1_0000_0000_0000_0000 <= 0x7FFF_FFFF_FFFF_FFFF)
        by (nonlinear_arith)
        requires
            -0x8000_0000_0000_0000 <= x <= 0x7FFF_FFFF_FFFF_FFFF,
            0 <= b <= 0xFFFF_FFFF_FFFF_FFFF,
    ;
    let p: i128 = (x as i128) * (b as i128);
    match p.checked_div_euclid(0x1_0000_0000_0000_0000i128) {
        Some(h) => from_signed(h as i64),
        None => 0,
    }
}

/// Multiplies two unsigned words and keeps the upper half of the product.
pub fn mulhu(a: u64, b: u64) -> (r: u64)
    ensures
        r == mulhu_spec(a, b),
{
    assert((a as int) * (b as int) <= 0xFFFF_FFFF_FFFF_FFFF * 0xFFFF_FFFF_FFFF_FFFF) by (nonlinear_arith)
        requires
            0 <= a <= 0xFFFF_FFFF_FFFF_FFFF,
            0 <= b <= 0xFFFF_FFFF_FFFF_FFFF,
    ;
    let p: u128 = (a as u128) * (b as u128);
    (p / 0x1_0000_0000_0000_0000u128) as u64
}

/// The quotient of two integers, rounded towards zero.
pub open spec fn quotient(x: int, d: int) -> int {
    if x >= 0 && d > 0 {
        x / d
    } else if x < 0 && d < 0 {
        (-x) / (-d)
    } else if x < 0 {
        -((-x) / d)
    } else {
        -(x / (-d))
    }
}

/// The remainder of the division that rounds towards zero: it has the sign
/// of the dividend.
pub open spec fn remainder(x: int, d: int) -> int {
    if x == 0 {
        0
    } else if x > 0 && d > 0 {
        x % d
    } else if x < 0 && d < 0 {
        -((-x) % (-d))
    } else if x < 0 {
        -((-x) % d)
    } else {
        x % (-d)
    }
}

/// Signed division: by zero it gives all ones, and the one quotient that
/// does not fit, that of the least integer by -1, gives the dividend.
pub open spec fn div_spec(a: u64, b: u64) -> u64 {
    if b == 0 {
        u64::MAX
    } else if signed64(a) == i64::MIN && signed64(b) == -1 {
        a
    } else {
        unsigned64(quotient(signed64(a), signed64(b)))
    }
}

/// Unsigned division: by zero it gives all ones.
pub open spec fn divu_spec(a: u64, b: u64) -> u64 {
    if b == 0 {
        u64::MAX
    } else {
        a / b
    }
}

/// Signed remainder: by zero it gives the dividend, and 0 for the least
/// integer by -1.
pub open spec fn rem_spec(a: u64, b: u64) -> u64 {
    if b == 0 {
        a
    } else if signed64(a) == i64::MIN && signed64(b) == -1 {
        0
    } else {
        unsigned64(remainder(signed64(a), signed64(b)))
    }
}

/// Unsigned remainder: by zero it gives the dividend.
pub open spec fn remu_spec(a: u64, b: u64) -> u64 {
    if b == 0 {
        a
    } else {
        a % b
    }
}

/// Divides two signed words.
pub fn div(a: u64, b: u64) -> (r: u64)
    ensures
        r == div_spec(a, b),
{
    let x = to_signed(a);
    let d = to_signed(b);
    match x.checked_div(d) {
        Some(q) => from_signed(q),
        None => if b == 0 {
            u64::MAX
        } else {
            a
        },
    }
}

/// Divides two unsigned words.
pub fn divu(a: u64, b: u64) -> (r: u64)
    ensures
        r == divu_spec(a, b),
{
    if b == 0 {
        u64::MAX
    } else {
        a / b
    }
}

/// The remainder of two signed words.
pub fn rem(a: u64, b: u64) -> (r: u64)
    ensures
        r == rem_spec(a, b),
{
    let x = to_signed(a);
    let d = to_signed(b);
    match x.checked_rem(d) {
        Some(q) => from_signed(q),
        None => if b == 0 {
            a
        } else {
            0
        },
    }
}

/// The remainder of two unsigned words.
pub fn remu(a: u64, b: u64) -> (r: u64)
    ensures
        r == remu_spec(a, b),
{
    if b == 0 {
        a
    } else {
        a % b
    }
}

/// Signed division of the low words, sign-extended.
pub open spec fn divw_spec(a: u64, b: u64) -> u64 {
    let x = low32(a);
    let d = low32(b);
    sext32(
        if d == 0 {
            0xFFFF_FFFFu64
        } else if signed32(x) == i32::MIN && signed32(d) == -1 {
            x as u64
        } else {
            unsigned32(quotient(signed32(x), signed32(d))) as u64
        },
    )
}

/// Unsigned division of the low words, sign-extended.
pub open spec fn divuw_spec(a: u64, b: u64) -> u64 {
    let x = low32(a);
    let d = low32(b);
    sext32(
        if d == 0 {
            0xFFFF_FFFFu64
        } else {
            (x / d) as u64
        },
    )
}

/// Signed remainder of the low words, sign-extended.
pub open spec fn remw_spec(a: u64, b: u64) -> u64 {
    let x = low32(a);
    let d = low32(b);
    sext32(
        if d == 0 {
            x as u64
        } else if signed32(x) == i32::MIN && signed32(d) == -1 {
            0u64
        } else {
            unsigned32(remainder(signed32(x), signed32(d))) as u64
        },
    )
}

/// Unsigned remainder of the low words, sign-extended.
pub open spec fn remuw_spec(a: u64, b: u64) -> u64 {
    let x = low32(a);
    let d = low32(b);
    sext32(
        if d == 0 {
            x as u64
        } else {
            (x % d) as u64
        },
    )
}

/// Divides the low words of two words as signed integers.
pub fn divw(a: u64, b: u64) -> (r: u64)
    ensures
        r == divw_spec(a, b),
{
    let x = low_word(a);
    let d = low_word(b);
    let q: u32 = match to_signed32(x).checked_div(to_signed32(d)) {
        Some(q) => from_signed32(q),
        None => if d == 0 {
            0xFFFF_FFFF
        } else {
            x
        },
    };
    sext_word(q as u64)
}

/// Divides the low words of two words as unsigned integers.
pub fn divuw(a: u64, b: u64) -> (r: u64)
    ensures
        r == divuw_spec(a, b),
{
    let x = low_word(a);
    let d = low_word(b);
    let q: u32 = if d == 0 {
        0xFFFF_FFFF
    } else {
        x / d
    };
    sext_word(q as u64)
}

/// The remainder of the low words of two words as signed integers.
pub fn remw(a: u64, b: u64) -> (r: u64)
    ensures
        r == remw_spec(a, b),
{
    let x = low_word(a);
    let d = low_word(b);
    let xs = to_signed32(x);
    let ds = to_signed32(d);
    let q: u32 = match xs.checked_rem(ds) {
        Some(q) => from_signed32(q),
        None => if d == 0 {
            x
        } else {
            0
        },
    };
    sext_word(q as u64)
}

/// The remainder of the low words of two words as unsigned integers.
pub fn remuw(a: u64, b: u64) -> (r: u64)
    ensures
        r == remuw_spec(a, b),
{
    let x = low_word(a);
    let d = low_word(b);
    let q: u32 = if d == 0 {
        x
    } else {
        x % d
    };
    sext_word(q as u64)
}

/// The lesser of two words as signed integers.
pub open spec fn min_spec(a: u64, b: u64) -> u64 {
    if signed64(a) < signed64(b) {
        a
    } else {
        b
    }
}

/// The greater of two words as signed integers.
pub open spec fn max_spec(a: u64, b: u64) -> u64 {
    if signed64(a) < signed64(b) {
        b
    } else {
        a
    }
}

/// The lesser of two words as unsigned integers.
pub open spec fn minu_spec(a: u64, b: u64) -> u64 {
    if a < b {
        a
    } else {
        b
    }
}

/// The greater of two words as unsigned integers.
pub open spec fn maxu_spec(a: u64, b: u64) -> u64 {
    if a < b {
        b
    } else {
        a
    }
}

/// The lesser of two words, signed.
pub fn min(a: u64, b: u64) -> (r: u64)
    ensures
        r == min_spec(a, b),
{
    if to_signed(a) < to_signed(b) {
        a
    } else {
        b
    }
}

/// The greater of two words, signed.
pub fn max(a: u64, b: u64) -> (r: u64)
    ensures
        r == max_spec(a, b),
{
    if to_signed(a) < to_signed(b) {
        b
    } else {
        a
    }
}

/// The lesser of two words, unsigned.
pub fn minu(a: u64, b: u64) -> (r: u64)
    ensures
        r == minu_spec(a, b),
{
    if a < b {
        a
    } else {
        b
    }
}

/// The greater of two words, unsigned.
pub fn maxu(a: u64, b: u64) -> (r: u64)
    ensures
        r == maxu_spec(a, b),
{
    if a < b {
        b
    } else {
        a
    }
}

/// The shift amount of a 64-bit shift: the low six bits.
pub fn shamt6(b: u64) -> (r: u64)
    ensures
        r == b & 0x3F,
        r < 64,
{
    assert(b & 0x3F < 64) by (bit_vector);
    b & 0x3F
}

/// The shift amount of a word shift: the low five bits.
pub fn shamt5(b: u64) -> (r: u64)
    ensures
        r == b & 0x1F,
        r < 32,
{
    assert(b & 0x1F < 32) by (bit_vector);
    b & 0x1F
}

/// The result of every word operation has its bits 63 to 32 equal to its
/// bit 31: each is a sign-extended word, or the arithmetic shift of one by
/// less than 32.
pub proof fn lemma_word_results(a: u64, b: u64)
    ensures
        is_sext32(sext32(a)),
        is_sext32(sra_spec(sext32(a), b & 0x1F)),
        is_sext32(divw_spec(a, b)),
        is_sext32(divuw_spec(a, b)),
        is_sext32(remw_spec(a, b)),
        is_sext32(remuw_spec(a, b)),
{
    assert(forall|x: u64| #[trigger] is_sext32(sext32(x))) by {
        assert forall|x: u64| #[trigger] is_sext32(sext32(x)) by {
            lemma_sext32(x);
        }
    }
    assert(is_sext32(sra_spec(sext32(a), b & 0x1F))) by (bit_vector);
}

} // verus!
