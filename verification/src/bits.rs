//! Bytes as rows of eight bits, in arithmetic.

use vstd::prelude::*;

verus! {

/// Two to the power `n`, for the bit numbers of a byte.
pub open spec fn pow2(n: int) -> int {
    if n <= 0 {
        1
    } else if n == 1 {
        2
    } else if n == 2 {
        4
    } else if n == 3 {
        8
    } else if n == 4 {
        16
    } else if n == 5 {
        32
    } else if n == 6 {
        64
    } else {
        128
    }
}

/// Bit `n` of `v`, as a number.
#[verifier::opaque]
pub open spec fn bit_value(v: u8, n: int) -> int {
    (v as int / pow2(n)) % 2
}

/// Whether bit `n` of `v` is set.
pub open spec fn bit(v: u8, n: int) -> bool {
    bit_value(v, n) == 1
}

/// The byte whose bits, from bit 7 down to bit 0, are the arguments.
#[verifier::opaque]
pub open spec fn byte_of(
    b7: bool,
    b6: bool,
    b5: bool,
    b4: bool,
    b3: bool,
    b2: bool,
    b1: bool,
    b0: bool,
) -> u8 {
    ((if b7 {
        128int
    } else {
        0int
    }) + (if b6 {
        64int
    } else {
        0int
    }) + (if b5 {
        32int
    } else {
        0int
    }) + (if b4 {
        16int
    } else {
        0int
    }) + (if b3 {
        8int
    } else {
        0int
    }) + (if b2 {
        4int
    } else {
        0int
    }) + (if b1 {
        2int
    } else {
        0int
    }) + (if b0 {
        1int
    } else {
        0int
    })) as u8
}

pub fn exec_pow2(n: u8) -> (p: u8)
    requires
        n < 8,
    ensures
        p == pow2(n as int),
        p >= 1,
{
    match n {
        0 => 1,
        1 => 2,
        2 => 4,
        3 => 8,
        4 => 16,
        5 => 32,
        6 => 64,
        _ => 128,
    }
}

pub fn get_bit(v: u8, n: u8) -> (b: bool)
    requires
        n < 8,
    ensures
        b == bit(v, n as int),
{
    reveal(bit_value);
    (v / exec_pow2(n)) % 2 == 1
}

pub fn get_bit_value(v: u8, n: u8) -> (b: u8)
    requires
        n < 8,
    ensures
        b == bit_value(v, n as int),
        b < 2,
{
    reveal(bit_value);
    (v / exec_pow2(n)) % 2
}

pub fn pack(b7: bool, b6: bool, b5: bool, b4: bool, b3: bool, b2: bool, b1: bool, b0: bool) -> (v:
    u8)
    ensures
        v == byte_of(b7, b6, b5, b4, b3, b2, b1, b0),
{
    reveal(byte_of);
    let mut v: u8 = 0;
    if b7 {
        v = v + 128;
    }
    if b6 {
        v = v + 64;
    }
    if b5 {
        v = v + 32;
    }
    if b4 {
        v = v + 16;
    }
    if b3 {
        v = v + 8;
    }
    if b2 {
        v = v + 4;
    }
    if b1 {
        v = v + 2;
    }
    if b0 {
        v = v + 1;
    }
    v
}

/// A byte is made of its bits.
pub proof fn lemma_byte_of_bits(v: u8)
    ensures
        byte_of(
            bit(v, 7),
            bit(v, 6),
            bit(v, 5),
            bit(v, 4),
            bit(v, 3),
            bit(v, 2),
            bit(v, 1),
            bit(v, 0),
        ) == v,
{
    reveal(bit_value);
    reveal(byte_of);
    assert(v == (v / 128) % 2 * 128 + (v / 64) % 2 * 64 + (v / 32) % 2 * 32 + (v / 16) % 2 * 16 + (v
        / 8) % 2 * 8 + (v / 4) % 2 * 4 + (v / 2) % 2 * 2 + v % 2) by (bit_vector);
}

/// The bits of a byte made of bits are those bits.
pub proof fn lemma_bits_of_byte(
    b7: bool,
    b6: bool,
    b5: bool,
    b4: bool,
    b3: bool,
    b2: bool,
    b1: bool,
    b0: bool,
)
    ensures
        ({
            let v = byte_of(b7, b6, b5, b4, b3, b2, b1, b0);
            &&& bit(v, 7) == b7
            &&& bit(v, 6) == b6
            &&& bit(v, 5) == b5
            &&& bit(v, 4) == b4
            &&& bit(v, 3) == b3
            &&& bit(v, 2) == b2
            &&& bit(v, 1) == b1
            &&& bit(v, 0) == b0
        }),
{
    reveal(bit_value);
    reveal(byte_of);
}


} // verus!

verus! {

/// The byte `v` with bit `n` cleared.
pub open spec fn without_bit(v: u8, n: int) -> u8 {
    if bit(v, n) {
        (v - pow2(n)) as u8
    } else {
        v
    }
}

/// The byte `v` with bit `n` set.
pub open spec fn with_bit(v: u8, n: int) -> u8 {
    if bit(v, n) {
        v
    } else {
        (v + pow2(n)) as u8
    }
}

/// A byte is at least as large as a bit that is set in it, and leaves room
/// for a bit that is not.
pub proof fn lemma_bit_weight(v: u8, n: int)
    requires
        0 <= n < 8,
    ensures
        bit(v, n) ==> v >= pow2(n),
        !bit(v, n) ==> v + pow2(n) <= 255,
{
    reveal(bit_value);
    if n == 0 {
    } else if n == 1 {
    } else if n == 2 {
    } else if n == 3 {
    } else if n == 4 {
    } else if n == 5 {
    } else if n == 6 {
    } else {
    }
}

pub fn clear_bit(v: u8, n: u8) -> (r: u8)
    requires
        n < 8,
    ensures
        r == without_bit(v, n as int),
{
    proof {
        lemma_bit_weight(v, n as int);
    }
    if get_bit(v, n) {
        v - exec_pow2(n)
    } else {
        v
    }
}

pub fn set_bit(v: u8, n: u8) -> (r: u8)
    requires
        n < 8,
    ensures
        r == with_bit(v, n as int),
{
    proof {
        lemma_bit_weight(v, n as int);
    }
    if get_bit(v, n) {
        v
    } else {
        v + exec_pow2(n)
    }
}

} // verus!
