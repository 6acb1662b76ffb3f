//! Laws of the Game Boy arithmetic, proved over the model.
use crate::gameboy_model::{
    alu, daa, flag, with_flag, GbState, FLAG_C, FLAG_H, FLAG_N, FLAG_Z, REG_A, REG_F,
};
use vstd::prelude::*;

verus! {

/// Both digits of `x` are decimal.
pub open spec fn is_bcd(x: u8) -> bool {
    x as int / 16 <= 9 && x as int % 16 <= 9
}

/// The number that the packed BCD byte `x` stands for.
pub open spec fn bcd_value(x: u8) -> int {
    (x as int / 16) * 10 + x as int % 16
}

/// The packed BCD byte of `n`, for `0 <= n < 100`.
pub open spec fn to_bcd(n: int) -> int {
    (n / 10) * 16 + n % 10
}

/// Setting or clearing flag `m` decides it.
proof fn lemma_flag_set(g: u8, m: u8, on: bool)
    requires
        m == FLAG_Z || m == FLAG_N || m == FLAG_H || m == FLAG_C,
    ensures
        (with_flag(g, m, on) & m != 0) == on,
{
    assert((g | m) & m != 0 && (g & !m) & m == 0) by (bit_vector)
        requires
            m == 0x80u8 || m == 0x40u8 || m == 0x20u8 || m == 0x10u8,
    ;
}

/// Setting or clearing flag `m` keeps every other flag bit.
proof fn lemma_flag_keep(g: u8, m: u8, on: bool, m2: u8)
    requires
        m == FLAG_Z || m == FLAG_N || m == FLAG_H || m == FLAG_C,
        m2 == FLAG_Z || m2 == FLAG_N || m2 == FLAG_H || m2 == FLAG_C,
        m != m2,
    ensures
        with_flag(g, m, on) & m2 == g & m2,
{
    assert((g | m) & m2 == g & m2 && (g & !m) & m2 == g & m2) by (bit_vector)
        requires
            m == 0x80u8 || m == 0x40u8 || m == 0x20u8 || m == 0x10u8,
            m2 == 0x80u8 || m2 == 0x40u8 || m2 == 0x20u8 || m2 == 0x10u8,
            m != m2,
    ;
}

/// The decimal adjustment of the binary sum `16 * t + l` of two packed BCD bytes whose
/// tens digits add up to `t` and ones digits to `l`.
proof fn lemma_daa_digits(t: int, l: int)
    requires
        0 <= t <= 18,
        0 <= l <= 18,
    ensures
        ({
            let n = 10 * t + l;
            let sum = 16 * t + l;
            let r = sum % 256;
            let low = l > 15 || r % 16 > 9;
            let high = sum > 255 || r > 0x99;
            let adjust = (if low {
                6int
            } else {
                0
            }) + (if high {
                0x60int
            } else {
                0
            });
            &&& low == (l >= 10)
            &&& high == (n >= 100)
            &&& (r + adjust) % 256 == to_bcd(n % 100)
        }),
{
    let n = 10 * t + l;
    let sum = 16 * t + l;
    // The digits of the decimal sum.
    let (tens, ones) = if l >= 10 {
        (t + 1, l - 10)
    } else {
        (t, l)
    };
    assert(n == 10 * tens + ones && 0 <= ones <= 9);
    let m = if tens >= 10 {
        tens - 10
    } else {
        tens
    };
    assert(n % 100 == 10 * m + ones);
    assert(to_bcd(n % 100) == 16 * m + ones);
    if l >= 16 {
        assert(sum == 16 * (t + 1) + (l - 16));
    } else {
        assert(sum == 16 * t + l);
    }
    if sum > 255 {
        assert(sum % 256 == sum - 256);
    } else {
        assert(sum % 256 == sum);
    }
}

/// `ADD A, v` followed by `DAA` on packed BCD operands leaves in A the packed BCD of the
/// decimal sum modulo 100; the carry is set exactly when the sum reaches 100, zero exactly
/// when A is zero, and half-carry and subtract are clear.
#[verifier::rlimit(40)]
pub proof fn daa_after_add_is_decimal_sum(s: GbState, v: u8)
    requires
        s.wf(),
        is_bcd(s.registers[REG_A as int]),
        is_bcd(v),
    ensures
        ({
            let n = bcd_value(s.registers[REG_A as int]) + bcd_value(v);
            let u = daa(alu(s, 0, v));
            &&& u.registers[REG_A as int] == to_bcd(n % 100)
            &&& flag(u, FLAG_C) == (n >= 100)
            &&& flag(u, FLAG_Z) == (n % 100 == 0)
            &&& !flag(u, FLAG_H)
            &&& !flag(u, FLAG_N)
        }),
{
    reveal(alu);
    let a = s.registers[REG_A as int] as int;
    let vi = v as int;
    let t = alu(s, 0, v);
    let f0 = s.registers[REG_F as int];
    let r = ((a + vi) % 256) as u8;
    let h = a % 16 + vi % 16 > 15;
    let c = a + vi > 255;
    // The flags after the addition.
    let f1 = with_flag(f0, FLAG_Z, r == 0);
    let f2 = with_flag(f1, FLAG_N, false);
    let f3 = with_flag(f2, FLAG_H, h);
    let f4 = with_flag(f3, FLAG_C, c);
    lemma_flag_set(f3, FLAG_C, c);
    lemma_flag_keep(f3, FLAG_C, c, FLAG_H);
    lemma_flag_keep(f3, FLAG_C, c, FLAG_N);
    lemma_flag_set(f2, FLAG_H, h);
    lemma_flag_keep(f2, FLAG_H, h, FLAG_N);
    lemma_flag_set(f1, FLAG_N, false);
    assert(t.registers[REG_F as int] == f4);
    assert(t.registers[REG_A as int] == r);
    let (ah, al, vh, vl) = (a / 16, a % 16, vi / 16, vi % 16);
    assert(a + vi == 16 * (ah + vh) + (al + vl));
    lemma_daa_digits(ah + vh, al + vl);
    let n = bcd_value(s.registers[REG_A as int]) + bcd_value(v);
    let high = c || r as int > 0x99;
    let res = daa(t).registers[REG_A as int];
    assert(res as int == to_bcd(n % 100));
    // The flags after the adjustment.
    let g1 = if high {
        with_flag(f4, FLAG_C, true)
    } else {
        f4
    };
    let g2 = with_flag(g1, FLAG_Z, res == 0);
    lemma_flag_set(f4, FLAG_C, true);
    lemma_flag_keep(f4, FLAG_C, true, FLAG_N);
    lemma_flag_set(g1, FLAG_Z, res == 0);
    lemma_flag_keep(g1, FLAG_Z, res == 0, FLAG_C);
    lemma_flag_keep(g1, FLAG_Z, res == 0, FLAG_N);
    lemma_flag_set(g2, FLAG_H, false);
    lemma_flag_keep(g2, FLAG_H, false, FLAG_C);
    lemma_flag_keep(g2, FLAG_H, false, FLAG_N);
    lemma_flag_keep(g2, FLAG_H, false, FLAG_Z);
    assert(res == 0 <==> n % 100 == 0);
}

} // verus!
