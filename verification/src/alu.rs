//! Arithmetic and logic on register values, with the flags each operation
//! sets.
//!
//! Results wrap silently to sixteen bits. Each operation names the flags
//! it writes; the others keep their value.

use vstd::prelude::*;
use crate::flags::FLAGS;
use crate::word::{low_word, low_word_signed, signed, to_signed, to_unsigned, unsigned};

verus! {

/// Whether an exact result fits a register.
pub open spec fn fits(x: int) -> bool {
    -32768 <= x <= 32767
}

/// The magnitude of an integer.
pub open spec fn magnitude(x: int) -> int {
    if x < 0 {
        -x
    } else {
        x
    }
}

/// The quotient of a division that rounds toward zero.
#[verifier::opaque]
pub open spec fn trunc_div(a: int, b: int) -> int {
    if (a < 0) == (b < 0) {
        magnitude(a) / magnitude(b)
    } else {
        -(magnitude(a) / magnitude(b))
    }
}

/// The remainder of a division that rounds toward zero: it has the sign of
/// the dividend.
#[verifier::opaque]
pub open spec fn trunc_rem(a: int, b: int) -> int {
    if a < 0 {
        -(magnitude(a) % magnitude(b))
    } else {
        magnitude(a) % magnitude(b)
    }
}

/// The mathematical modulo, whose result has the sign of the divisor.
#[verifier::opaque]
pub open spec fn floor_mod(a: int, b: int) -> int {
    if b < 0 {
        -((-a) % (-b))
    } else {
        a % b
    }
}

/// The modulo in terms of the remainder of the magnitudes: zero stays zero,
/// and a remainder on the wrong side of zero moves by one divisor.
pub proof fn lemma_floor_mod(a: int, b: int)
    requires
        b != 0,
    ensures
        floor_mod(a, b) == {
            let rest = magnitude(a) % magnitude(b);
            if rest == 0 {
                0
            } else if a < 0 && b < 0 {
                -rest
            } else if a < 0 {
                b - rest
            } else if b < 0 {
                rest + b
            } else {
                rest
            }
        },
{
    reveal(floor_mod);
    let m = magnitude(b);
    let x = magnitude(a);
    vstd::arithmetic::div_mod::lemma_fundamental_div_mod(x, m);
    vstd::arithmetic::div_mod::lemma_mod_bound(x, m);
    if (a < 0) != (b < 0) {
        // floor_mod is (-x) % m, up to sign; -x == m * (-(x / m) - 1) + (m - rest)
        // where rest != 0, and -x == m * (-(x / m)) where rest == 0.
        let rest = x % m;
        if rest == 0 {
            assert(-x == (-(x / m)) * m + 0) by (nonlinear_arith)
                requires
                    x == m * (x / m),
            ;
            vstd::arithmetic::div_mod::lemma_fundamental_div_mod_converse(-x, m, -(x / m), 0);
        } else {
            assert(-x == (-(x / m) - 1) * m + (m - rest)) by (nonlinear_arith)
                requires
                    x == m * (x / m) + rest,
            ;
            vstd::arithmetic::div_mod::lemma_fundamental_div_mod_converse(
                -x,
                m,
                -(x / m) - 1,
                m - rest,
            );
        }
    }
}

/// Flags with Z and N set from a result and C and O kept.
pub open spec fn with_zn(f: FLAGS, result: i16) -> FLAGS {
    FLAGS { Z: result == 0, N: result < 0, ..f }
}

/// The sum of two registers, wrapped.
pub open spec fn add_value(a: i16, b: i16) -> i16 {
    signed(a + b)
}

/// The flags after an addition. C: the unsigned sum does not fit sixteen
/// bits. O: the signed sum does not fit a register. Z and N describe the
/// wrapped result.
pub open spec fn add_flags(a: i16, b: i16) -> FLAGS {
    FLAGS {
        C: unsigned(a) + unsigned(b) > 0xFFFF,
        Z: add_value(a, b) == 0,
        O: !fits(a + b),
        N: add_value(a, b) < 0,
    }
}

/// The difference of two registers, wrapped.
pub open spec fn sub_value(a: i16, b: i16) -> i16 {
    signed(a - b)
}

/// The flags after a subtraction or comparison. C: unsigned borrow. O: the
/// signed difference does not fit a register. Z and N describe the
/// wrapped result, as they do after an addition: N is its bit 15. So after
/// a comparison `O != N` says that the first register is the smaller one
/// as a signed number, also where the difference overflows.
pub open spec fn sub_flags(a: i16, b: i16) -> FLAGS {
    FLAGS {
        C: unsigned(a) < unsigned(b),
        Z: sub_value(a, b) == 0,
        O: !fits(a - b),
        N: sub_value(a, b) < 0,
    }
}

/// The full product of two registers read as unsigned words.
#[verifier::opaque]
pub open spec fn full_product(a: i16, b: i16) -> int {
    unsigned(a) * unsigned(b)
}

/// The product of two registers read as unsigned words, wrapped.
pub open spec fn mul_value(a: i16, b: i16) -> i16 {
    signed(full_product(a, b))
}

/// The flags after a multiplication. C: the full product of the unsigned
/// words exceeds `0xFFFF`. Z and N describe the wrapped result; O is kept.
pub open spec fn mul_flags(f: FLAGS, a: i16, b: i16) -> FLAGS {
    FLAGS {
        C: full_product(a, b) > 0xFFFF,
        Z: mul_value(a, b) == 0,
        O: f.O,
        N: mul_value(a, b) < 0,
    }
}

/// The quotient of two registers, rounded toward zero and wrapped (only
/// `-32768 / -1` wraps).
pub open spec fn div_value(a: i16, b: i16) -> i16 {
    signed(trunc_div(a as int, b as int))
}

/// The flags after a division. C: the division left a remainder. Z and N
/// describe the quotient; O is kept.
pub open spec fn div_flags(f: FLAGS, a: i16, b: i16) -> FLAGS {
    FLAGS {
        C: trunc_rem(a as int, b as int) != 0,
        Z: div_value(a, b) == 0,
        O: f.O,
        N: div_value(a, b) < 0,
    }
}

/// The modulo of two registers, with the sign of the divisor.
pub open spec fn mod_value(a: i16, b: i16) -> i16 {
    floor_mod(a as int, b as int) as i16
}

/// The remainder of two registers, with the sign of the dividend.
pub open spec fn rem_value(a: i16, b: i16) -> i16 {
    trunc_rem(a as int, b as int) as i16
}

/// The bitwise complement of a register: `-a - 1`.
pub open spec fn not_value(a: i16) -> i16 {
    (-a - 1) as i16
}

/// The negation of a register, wrapped (only `-32768` wraps, to itself).
pub open spec fn neg_value(a: i16) -> i16 {
    signed(-a)
}

/// The shift count that a register gives: its low four bits.
pub open spec fn shift_count(r: i16) -> int {
    unsigned(r) % 16
}

/// A register shifted left by `n` bits, zeros coming in from the right.
pub open spec fn shl_value(a: i16, n: int) -> i16 {
    signed(((unsigned(a) as u16) << (n as u16)) as int)
}

/// A register shifted right by `n` bits, zeros coming in from the left.
pub open spec fn shr_value(a: i16, n: int) -> i16 {
    signed(((unsigned(a) as u16) >> (n as u16)) as int)
}

/// A register shifted right by `n` bits, copies of the sign bit coming in
/// from the left.
pub open spec fn sar_value(a: i16, n: int) -> i16 {
    a >> (n as u16)
}

/// Adds two registers and sets all four flags.
pub fn op_add(flags: &mut FLAGS, val1: i16, val2: i16) -> (r: i16)
    ensures
        r == add_value(val1, val2),
        *final(flags) == add_flags(val1, val2),
{
    let result: u32 = to_unsigned(val1) as u32 + to_unsigned(val2) as u32;
    let exact: i32 = val1 as i32 + val2 as i32;
    assert((result as int) % 0x10000 == (exact as int) % 0x10000);
    let value: i16 = low_word(result);
    flags.C = result > 0xFFFF;
    flags.Z = value == 0;
    flags.O = exact < -32768 || exact > 32767;
    flags.N = value < 0;
    value
}

/// Subtracts `val2` from `val1` and sets all four flags.
pub fn op_sub(flags: &mut FLAGS, val1: i16, val2: i16) -> (r: i16)
    ensures
        r == sub_value(val1, val2),
        *final(flags) == sub_flags(val1, val2),
{
    let result: i32 = val1 as i32 - val2 as i32;
    let value: i16 = low_word_signed(result);
    flags.C = to_unsigned(val1) < to_unsigned(val2);
    flags.Z = value == 0;
    flags.O = result < -32768 || result > 32767;
    flags.N = value < 0;
    value
}

/// Sets Z and N from the bitwise AND of two registers.
pub fn and_flags(flags: &mut FLAGS, val1: i16, val2: i16)
    ensures
        *final(flags) == with_zn(*old(flags), val1 & val2),
{
    let result: i16 = val1 & val2;
    flags.Z = result == 0;
    flags.N = result < 0;
}

/// Sets Z and N from a result.
pub fn set_flags_z_n(flags: &mut FLAGS, val: i16)
    ensures
        *final(flags) == with_zn(*old(flags), val),
{
    flags.Z = val == 0;
    flags.N = val < 0;
}

/// Multiplies two registers as unsigned words and sets C, Z and N.
pub fn op_mul(flags: &mut FLAGS, val1: i16, val2: i16) -> (r: i16)
    ensures
        r == mul_value(val1, val2),
        *final(flags) == mul_flags(*old(flags), val1, val2),
{
    proof {
        reveal(full_product);
    }
    let a: u32 = to_unsigned(val1) as u32;
    let b: u32 = to_unsigned(val2) as u32;
    assert(a * b <= 0xFFFF * 0xFFFF) by (nonlinear_arith)
        requires
            0 <= a <= 0xFFFF,
            0 <= b <= 0xFFFF,
    ;
    let result: u32 = a * b;
    let value: i16 = low_word(result);
    flags.C = result > 0xFFFF;
    flags.Z = value == 0;
    flags.N = value < 0;
    value
}

/// The magnitude of a register.
fn magnitude_of(val: i16) -> (r: u32)
    ensures
        r == magnitude(val as int),
{
    if val < 0 {
        (-(val as i32)) as u32
    } else {
        val as u32
    }
}

/// Divides `val1` by `val2`, rounding toward zero, and sets C, Z and N.
pub fn op_div(flags: &mut FLAGS, val1: i16, val2: i16) -> (r: i16)
    requires
        val2 != 0,
    ensures
        r == div_value(val1, val2),
        *final(flags) == div_flags(*old(flags), val1, val2),
{
    proof {
        reveal(trunc_div);
        reveal(trunc_rem);
    }
    let a: u32 = magnitude_of(val1);
    let b: u32 = magnitude_of(val2);
    let quotient: i32 = if (val1 < 0) == (val2 < 0) {
        (a / b) as i32
    } else {
        -((a / b) as i32)
    };
    let value: i16 = low_word_signed(quotient);
    flags.C = a % b != 0;
    flags.Z = value == 0;
    flags.N = value < 0;
    value
}

/// The mathematical modulo of `val1` by `val2`; sets Z and N.
pub fn op_mod(flags: &mut FLAGS, val1: i16, val2: i16) -> (r: i16)
    requires
        val2 != 0,
    ensures
        r == mod_value(val1, val2),
        *final(flags) == with_zn(*old(flags), mod_value(val1, val2)),
{
    let a: u32 = magnitude_of(val1);
    let b: u32 = magnitude_of(val2);
    let rest: i32 = (a % b) as i32;
    // The remainder of the magnitudes, moved to the divisor's side of zero.
    let result: i32 = if rest == 0 {
        0
    } else if val1 < 0 && val2 < 0 {
        -rest
    } else if val1 < 0 {
        b as i32 - rest
    } else if val2 < 0 {
        rest - b as i32
    } else {
        rest
    };
    proof {
        lemma_floor_mod(val1 as int, val2 as int);
    }
    flags.Z = result == 0;
    flags.N = result < 0;
    result as i16
}

/// The remainder of `val1` by `val2`, rounding toward zero; sets Z and N.
pub fn op_rem(flags: &mut FLAGS, val1: i16, val2: i16) -> (r: i16)
    requires
        val2 != 0,
    ensures
        r == rem_value(val1, val2),
        *final(flags) == with_zn(*old(flags), rem_value(val1, val2)),
{
    proof {
        reveal(trunc_rem);
    }
    let a: u32 = magnitude_of(val1);
    let b: u32 = magnitude_of(val2);
    let rest: i32 = (a % b) as i32;
    let result: i32 = if val1 < 0 {
        -rest
    } else {
        rest
    };
    flags.Z = result == 0;
    flags.N = result < 0;
    result as i16
}

/// The bitwise complement of a register; sets Z and N.
pub fn op_not(flags: &mut FLAGS, val1: i16) -> (r: i16)
    ensures
        r == not_value(val1),
        *final(flags) == with_zn(*old(flags), not_value(val1)),
{
    let result: i16 = !val1;
    assert(result == -val1 - 1) by (bit_vector)
        requires
            result == !val1,
    ;
    flags.Z = result == 0;
    flags.N = result < 0;
    result
}

/// The negation of a register; sets Z and N.
pub fn op_neg(flags: &mut FLAGS, val1: i16) -> (r: i16)
    ensures
        r == neg_value(val1),
        *final(flags) == with_zn(*old(flags), neg_value(val1)),
{
    let result: i16 = if val1 == -32768 {
        val1
    } else {
        -val1
    };
    flags.Z = result == 0;
    flags.N = result < 0;
    result
}

/// The shift count that a register gives: its low four bits.
pub fn count_of(val: i16) -> (r: u8)
    ensures
        r == shift_count(val),
{
    (to_unsigned(val) % 16) as u8
}

/// Shifts a register left by `n` bits; sets Z and N.
pub fn op_shl(flags: &mut FLAGS, val: i16, n: u8) -> (r: i16)
    requires
        n < 16,
    ensures
        r == shl_value(val, n as int),
        *final(flags) == with_zn(*old(flags), shl_value(val, n as int)),
{
    let result: i16 = to_signed(to_unsigned(val) << (n as u16));
    flags.Z = result == 0;
    flags.N = result < 0;
    result
}

/// Shifts a register right by `n` bits, filling with zeros; sets Z and N.
pub fn op_shr(flags: &mut FLAGS, val: i16, n: u8) -> (r: i16)
    requires
        n < 16,
    ensures
        r == shr_value(val, n as int),
        *final(flags) == with_zn(*old(flags), shr_value(val, n as int)),
{
    let result: i16 = to_signed(to_unsigned(val) >> (n as u16));
    flags.Z = result == 0;
    flags.N = result < 0;
    result
}

/// Shifts a register right by `n` bits, keeping its sign; sets Z and N.
pub fn op_sar(flags: &mut FLAGS, val: i16, n: u8) -> (r: i16)
    requires
        n < 16,
    ensures
        r == sar_value(val, n as int),
        *final(flags) == with_zn(*old(flags), sar_value(val, n as int)),
{
    let result: i16 = val >> (n as u16);
    flags.Z = result == 0;
    flags.N = result < 0;
    result
}

} // verus!
