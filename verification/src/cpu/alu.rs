//! The arithmetic of the processor: what each operation makes of its
//! operands and of the flags.

use crate::bits::{bit, get_bit};
use crate::register::Flags;
use vstd::prelude::*;

verus! {

/// One for a flag that is set.
pub open spec fn one_if(flag: bool) -> int {
    if flag {
        1
    } else {
        0
    }
}

/// `a + b + carry` in eight bits. H is the carry out of bit 3, C out of
/// bit 7.
pub open spec fn add8(a: u8, b: u8, carry: bool) -> (u8, Flags) {
    let sum = a + b + one_if(carry);
    (
        (sum % 256) as u8,
        Flags {
            z: sum % 256 == 0,
            n: false,
            h: a % 16 + b % 16 + one_if(carry) > 15,
            c: sum > 255,
        },
    )
}

/// `a - b - carry` in eight bits. H is the borrow into bit 4, C into bit 8.
pub open spec fn sub8(a: u8, b: u8, carry: bool) -> (u8, Flags) {
    let diff = a - b - one_if(carry);
    (
        (diff % 256) as u8,
        Flags {
            z: diff % 256 == 0,
            n: true,
            h: a % 16 < b % 16 + one_if(carry),
            c: diff < 0,
        },
    )
}

/// The result and flags of the operation with the number `op` in an
/// instruction on the accumulator `a` and the operand `b`: ADD, ADC, SUB,
/// SBC, AND, XOR, OR and CP, which compares and leaves the accumulator as
/// it is.
pub open spec fn alu(op: u8, a: u8, b: u8, f: Flags) -> (u8, Flags) {
    if op == 0 {
        add8(a, b, false)
    } else if op == 1 {
        add8(a, b, f.c)
    } else if op == 2 {
        sub8(a, b, false)
    } else if op == 3 {
        sub8(a, b, f.c)
    } else if op == 4 {
        (a & b, Flags { z: a & b == 0, n: false, h: true, c: false })
    } else if op == 5 {
        (a ^ b, Flags { z: a ^ b == 0, n: false, h: false, c: false })
    } else if op == 6 {
        (a | b, Flags { z: a | b == 0, n: false, h: false, c: false })
    } else {
        (a, sub8(a, b, false).1)
    }
}

/// `v + 1` in eight bits. The carry flag stays.
pub open spec fn inc8(v: u8, f: Flags) -> (u8, Flags) {
    (((v + 1) % 256) as u8, Flags { z: v == 255, n: false, h: v % 16 == 15, c: f.c })
}

/// `v - 1` in eight bits. The carry flag stays.
pub open spec fn dec8(v: u8, f: Flags) -> (u8, Flags) {
    (((v - 1) % 256) as u8, Flags { z: v == 1, n: true, h: v % 16 == 0, c: f.c })
}

/// `a + b` in sixteen bits. H is the carry out of bit 11, C out of bit 15;
/// the zero flag stays.
pub open spec fn add16(a: u16, b: u16, f: Flags) -> (u16, Flags) {
    (
        ((a + b) % 0x10000) as u16,
        Flags { z: f.z, n: false, h: a % 0x1000 + b % 0x1000 > 0xFFF, c: a + b > 0xFFFF },
    )
}

/// The byte `d` read as a signed number.
pub open spec fn signed(d: u8) -> int {
    if d >= 128 {
        d - 256
    } else {
        d as int
    }
}

/// `sp` plus the signed byte `d`. H and C are the carries out of bits 3
/// and 7 of the sum of the low byte of `sp` and `d` taken unsigned.
pub open spec fn add_signed(sp: u16, d: u8) -> (u16, Flags) {
    (
        ((sp + signed(d)) % 0x10000) as u16,
        Flags { z: false, n: false, h: sp % 16 + d % 16 > 15, c: sp % 256 + d > 255 },
    )
}

/// The rotations and shifts, by their number in an instruction: RLC and
/// RRC rotate the byte, RL and RR rotate it through the carry, SLA and SRL
/// shift zeros in, SRA keeps the sign, SWAP exchanges the halves. C is the
/// bit that leaves the byte.
pub open spec fn rot(op: u8, v: u8, f: Flags) -> (u8, Flags) {
    let (r, c): (int, bool) = if op == 0 {
        ((v * 2) % 256 + v / 128, v >= 128)
    } else if op == 1 {
        (v / 2 + (v % 2) * 128, v % 2 == 1)
    } else if op == 2 {
        ((v * 2) % 256 + one_if(f.c), v >= 128)
    } else if op == 3 {
        (v / 2 + one_if(f.c) * 128, v % 2 == 1)
    } else if op == 4 {
        ((v * 2) % 256, v >= 128)
    } else if op == 5 {
        (v / 2 + (v / 128) * 128, v % 2 == 1)
    } else if op == 6 {
        ((v % 16) * 16 + v / 16, false)
    } else {
        (v as int / 2, v % 2 == 1)
    };
    (r as u8, Flags { z: r == 0, n: false, h: false, c })
}

/// The decimal adjustment of the accumulator after an addition or
/// subtraction of numbers written in decimal, a digit to each half byte.
pub open spec fn daa(a: u8, f: Flags) -> (u8, Flags) {
    let low: int = if f.h || (!f.n && a % 16 > 9) {
        6
    } else {
        0
    };
    let high: int = if f.c || (!f.n && a > 0x99) {
        0x60
    } else {
        0
    };
    let r = if f.n {
        (a - low - high) % 256
    } else {
        (a + low + high) % 256
    };
    (r as u8, Flags { z: r == 0, n: f.n, h: false, c: high != 0 })
}

/// The flags after a test of bit `n` of `v`: Z tells that the bit is zero.
pub open spec fn bit_test(n: u8, v: u8, f: Flags) -> Flags {
    Flags { z: !bit(v, n as int), n: false, h: true, c: f.c }
}

pub fn exec_add8(a: u8, b: u8, carry: bool) -> (r: (u8, Flags))
    ensures
        r == add8(a, b, carry),
{
    let cin: u16 = if carry {
        1
    } else {
        0
    };
    let sum: u16 = a as u16 + b as u16 + cin;
    (
        (sum % 256) as u8,
        Flags {
            z: sum % 256 == 0,
            n: false,
            h: (a % 16) as u16 + (b % 16) as u16 + cin > 15,
            c: sum > 255,
        },
    )
}

pub fn exec_sub8(a: u8, b: u8, carry: bool) -> (r: (u8, Flags))
    ensures
        r == sub8(a, b, carry),
{
    let cin: u16 = if carry {
        1
    } else {
        0
    };
    let take: u16 = b as u16 + cin;
    let res: u16 = if a as u16 >= take {
        a as u16 - take
    } else {
        a as u16 + 256 - take
    };
    ((res % 256) as u8, Flags {
        z: res % 256 == 0,
        n: true,
        h: ((a % 16) as u16) < (b % 16) as u16 + cin,
        c: (a as u16) < take,
    })
}

pub fn exec_alu(op: u8, a: u8, b: u8, f: Flags) -> (r: (u8, Flags))
    ensures
        r == alu(op, a, b, f),
{
    if op == 0 {
        exec_add8(a, b, false)
    } else if op == 1 {
        exec_add8(a, b, f.c)
    } else if op == 2 {
        exec_sub8(a, b, false)
    } else if op == 3 {
        exec_sub8(a, b, f.c)
    } else if op == 4 {
        (a & b, Flags { z: a & b == 0, n: false, h: true, c: false })
    } else if op == 5 {
        (a ^ b, Flags { z: a ^ b == 0, n: false, h: false, c: false })
    } else if op == 6 {
        (a | b, Flags { z: a | b == 0, n: false, h: false, c: false })
    } else {
        (a, exec_sub8(a, b, false).1)
    }
}

pub fn exec_inc8(v: u8, f: Flags) -> (r: (u8, Flags))
    ensures
        r == inc8(v, f),
{
    (v.wrapping_add(1), Flags { z: v == 255, n: false, h: v % 16 == 15, c: f.c })
}

pub fn exec_dec8(v: u8, f: Flags) -> (r: (u8, Flags))
    ensures
        r == dec8(v, f),
{
    (v.wrapping_sub(1), Flags { z: v == 1, n: true, h: v % 16 == 0, c: f.c })
}

pub fn exec_add16(a: u16, b: u16, f: Flags) -> (r: (u16, Flags))
    ensures
        r == add16(a, b, f),
{
    (
        a.wrapping_add(b),
        Flags {
            z: f.z,
            n: false,
            h: (a % 0x1000) as u32 + (b % 0x1000) as u32 > 0xFFF,
            c: a as u32 + b as u32 > 0xFFFF,
        },
    )
}

pub fn exec_add_signed(sp: u16, d: u8) -> (r: (u16, Flags))
    ensures
        r == add_signed(sp, d),
{
    let sum: u32 = if d >= 128 {
        sp as u32 + 0x10000 + d as u32 - 256
    } else {
        sp as u32 + d as u32
    };
    (
        (sum % 0x10000) as u16,
        Flags {
            z: false,
            n: false,
            h: (sp % 16) as u32 + (d % 16) as u32 > 15,
            c: (sp % 256) as u32 + d as u32 > 255,
        },
    )
}

pub fn exec_rot(op: u8, v: u8, f: Flags) -> (r: (u8, Flags))
    ensures
        r == rot(op, v, f),
{
    let cin: u8 = if f.c {
        1
    } else {
        0
    };
    let double: u8 = ((v as u16 * 2) % 256) as u8;
    let (r, c): (u8, bool) = if op == 0 {
        (double + v / 128, v >= 128)
    } else if op == 1 {
        (v / 2 + (v % 2) * 128, v % 2 == 1)
    } else if op == 2 {
        (double + cin, v >= 128)
    } else if op == 3 {
        (v / 2 + cin * 128, v % 2 == 1)
    } else if op == 4 {
        (double, v >= 128)
    } else if op == 5 {
        (v / 2 + (v / 128) * 128, v % 2 == 1)
    } else if op == 6 {
        ((v % 16) * 16 + v / 16, false)
    } else {
        (v / 2, v % 2 == 1)
    };
    (r, Flags { z: r == 0, n: false, h: false, c })
}

pub fn exec_daa(a: u8, f: Flags) -> (r: (u8, Flags))
    ensures
        r == daa(a, f),
{
    let low: u16 = if f.h || (!f.n && a % 16 > 9) {
        6
    } else {
        0
    };
    let high: u16 = if f.c || (!f.n && a > 0x99) {
        0x60
    } else {
        0
    };
    let r: u16 = if f.n {
        (a as u16 + 256 - low - high) % 256
    } else {
        (a as u16 + low + high) % 256
    };
    (r as u8, Flags { z: r == 0, n: f.n, h: false, c: high != 0 })
}

pub fn exec_bit_test(n: u8, v: u8, f: Flags) -> (r: Flags)
    requires
        n < 8,
    ensures
        r == bit_test(n, v, f),
{
    Flags { z: !get_bit(v, n), n: false, h: true, c: f.c }
}

} // verus!
