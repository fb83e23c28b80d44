//! The registers of the processor.

use vstd::prelude::*;

verus! {

/// The flags, which make up the upper half of the register F. Its lower
/// half is always zero.
#[derive(Debug, Clone, Copy, PartialEq, Eq, Structural)]
pub struct Flags {
    /// Bit 7: the result was zero.
    pub z: bool,
    /// Bit 6: the operation was a subtraction.
    pub n: bool,
    /// Bit 5: there was a carry out of the lower half.
    pub h: bool,
    /// Bit 4: there was a carry.
    pub c: bool,
}

impl Flags {
    /// The register F.
    pub open spec fn byte(self) -> u8 {
        ((if self.z {
            128int
        } else {
            0int
        }) + (if self.n {
            64int
        } else {
            0int
        }) + (if self.h {
            32int
        } else {
            0int
        }) + (if self.c {
            16int
        } else {
            0int
        })) as u8
    }

    /// The flags that a byte put into F sets. Its lower half is dropped.
    pub open spec fn of_byte(v: u8) -> Flags {
        Flags { z: v >= 128, n: (v / 64) % 2 == 1, h: (v / 32) % 2 == 1, c: (v / 16) % 2 == 1 }
    }

    pub fn exec_byte(&self) -> (v: u8)
        ensures
            v == self.byte(),
            v % 16 == 0,
    {
        let mut v: u8 = 0;
        if self.z {
            v = v + 128;
        }
        if self.n {
            v = v + 64;
        }
        if self.h {
            v = v + 32;
        }
        if self.c {
            v = v + 16;
        }
        v
    }

    pub fn from_byte(v: u8) -> (f: Flags)
        ensures
            f == Flags::of_byte(v),
    {
        Flags { z: v >= 128, n: (v / 64) % 2 == 1, h: (v / 32) % 2 == 1, c: (v / 16) % 2 == 1 }
    }
}

#[derive(Debug, Clone, Copy, PartialEq, Eq, Structural)]
pub struct Registers {
    pub a: u8,
    pub f: Flags,
    pub b: u8,
    pub c: u8,
    pub d: u8,
    pub e: u8,
    pub h: u8,
    pub l: u8,
    pub sp: u16,
    pub pc: u16,
}

/// The word made of a high and a low byte.
pub open spec fn word(high: u8, low: u8) -> u16 {
    (high * 256 + low) as u16
}

pub fn exec_word(high: u8, low: u8) -> (w: u16)
    ensures
        w == word(high, low),
{
    high as u16 * 256 + low as u16
}

/// The high byte of a word.
pub open spec fn high(w: u16) -> u8 {
    (w / 256) as u8
}

/// The low byte of a word.
pub open spec fn low(w: u16) -> u8 {
    (w % 256) as u8
}

pub fn exec_high(w: u16) -> (b: u8)
    ensures
        b == high(w),
{
    (w / 256) as u8
}

pub fn exec_low(w: u16) -> (b: u8)
    ensures
        b == low(w),
{
    (w % 256) as u8
}

/// The word `w` moved on by `n`, around the end of the address space.
pub open spec fn wrap16(w: int) -> u16 {
    (w % 0x10000) as u16
}

impl Registers {
    /// The registers when the program of a cartridge starts, on the
    /// monochrome machine and, with `color`, on the colour machine.
    pub open spec fn initial(color: bool) -> Registers {
        Registers {
            a: if color {
                0x11
            } else {
                0x01
            },
            f: Flags { z: true, n: false, h: true, c: true },
            b: 0x00,
            c: 0x13,
            d: 0x00,
            e: 0xD8,
            h: 0x01,
            l: 0x4D,
            sp: 0xFFFE,
            pc: 0x0100,
        }
    }

    pub open spec fn af(self) -> u16 {
        word(self.a, self.f.byte())
    }

    pub open spec fn bc(self) -> u16 {
        word(self.b, self.c)
    }

    pub open spec fn de(self) -> u16 {
        word(self.d, self.e)
    }

    pub open spec fn hl(self) -> u16 {
        word(self.h, self.l)
    }

    pub open spec fn with_af(self, v: u16) -> Registers {
        Registers { a: high(v), f: Flags::of_byte(low(v)), ..self }
    }

    pub open spec fn with_bc(self, v: u16) -> Registers {
        Registers { b: high(v), c: low(v), ..self }
    }

    pub open spec fn with_de(self, v: u16) -> Registers {
        Registers { d: high(v), e: low(v), ..self }
    }

    pub open spec fn with_hl(self, v: u16) -> Registers {
        Registers { h: high(v), l: low(v), ..self }
    }

    /// The byte register with the number `i` in an instruction: B, C, D,
    /// E, H, L, and A for 7. The number 6 stands for the byte in memory at
    /// HL and is no register.
    pub open spec fn r8(self, i: u8) -> u8 {
        if i == 0 {
            self.b
        } else if i == 1 {
            self.c
        } else if i == 2 {
            self.d
        } else if i == 3 {
            self.e
        } else if i == 4 {
            self.h
        } else if i == 5 {
            self.l
        } else {
            self.a
        }
    }

    pub open spec fn with_r8(self, i: u8, v: u8) -> Registers {
        if i == 0 {
            Registers { b: v, ..self }
        } else if i == 1 {
            Registers { c: v, ..self }
        } else if i == 2 {
            Registers { d: v, ..self }
        } else if i == 3 {
            Registers { e: v, ..self }
        } else if i == 4 {
            Registers { h: v, ..self }
        } else if i == 5 {
            Registers { l: v, ..self }
        } else {
            Registers { a: v, ..self }
        }
    }

    /// The word register with the number `i` in an instruction: BC, DE,
    /// HL and SP.
    pub open spec fn rp(self, i: u8) -> u16 {
        if i == 0 {
            self.bc()
        } else if i == 1 {
            self.de()
        } else if i == 2 {
            self.hl()
        } else {
            self.sp
        }
    }

    pub open spec fn with_rp(self, i: u8, v: u16) -> Registers {
        if i == 0 {
            self.with_bc(v)
        } else if i == 1 {
            self.with_de(v)
        } else if i == 2 {
            self.with_hl(v)
        } else {
            Registers { sp: v, ..self }
        }
    }

    /// The word register with the number `i` in a push or pop: BC, DE, HL
    /// and AF.
    pub open spec fn rp2(self, i: u8) -> u16 {
        if i == 3 {
            self.af()
        } else {
            self.rp(i)
        }
    }

    pub open spec fn with_rp2(self, i: u8, v: u16) -> Registers {
        if i == 3 {
            self.with_af(v)
        } else {
            self.with_rp(i, v)
        }
    }

    /// Whether the condition with the number `i` in an instruction holds:
    /// not zero, zero, no carry, carry.
    pub open spec fn cond(self, i: u8) -> bool {
        if i == 0 {
            !self.f.z
        } else if i == 1 {
            self.f.z
        } else if i == 2 {
            !self.f.c
        } else {
            self.f.c
        }
    }

    pub fn new(color: bool) -> (r: Registers)
        ensures
            r == Registers::initial(color),
    {
        Registers {
            a: if color {
                0x11
            } else {
                0x01
            },
            f: Flags { z: true, n: false, h: true, c: true },
            b: 0x00,
            c: 0x13,
            d: 0x00,
            e: 0xD8,
            h: 0x01,
            l: 0x4D,
            sp: 0xFFFE,
            pc: 0x0100,
        }
    }

    pub fn exec_hl(&self) -> (w: u16)
        ensures
            w == self.hl(),
    {
        exec_word(self.h, self.l)
    }

    pub fn exec_with_hl(&self, v: u16) -> (r: Registers)
        ensures
            r == self.with_hl(v),
    {
        Registers { h: exec_high(v), l: exec_low(v), ..*self }
    }

    pub fn exec_r8(&self, i: u8) -> (v: u8)
        ensures
            v == self.r8(i),
    {
        if i == 0 {
            self.b
        } else if i == 1 {
            self.c
        } else if i == 2 {
            self.d
        } else if i == 3 {
            self.e
        } else if i == 4 {
            self.h
        } else if i == 5 {
            self.l
        } else {
            self.a
        }
    }

    pub fn exec_with_r8(&self, i: u8, v: u8) -> (r: Registers)
        ensures
            r == self.with_r8(i, v),
    {
        if i == 0 {
            Registers { b: v, ..*self }
        } else if i == 1 {
            Registers { c: v, ..*self }
        } else if i == 2 {
            Registers { d: v, ..*self }
        } else if i == 3 {
            Registers { e: v, ..*self }
        } else if i == 4 {
            Registers { h: v, ..*self }
        } else if i == 5 {
            Registers { l: v, ..*self }
        } else {
            Registers { a: v, ..*self }
        }
    }

    pub fn exec_rp(&self, i: u8) -> (v: u16)
        ensures
            v == self.rp(i),
    {
        if i == 0 {
            exec_word(self.b, self.c)
        } else if i == 1 {
            exec_word(self.d, self.e)
        } else if i == 2 {
            exec_word(self.h, self.l)
        } else {
            self.sp
        }
    }

    pub fn exec_with_rp(&self, i: u8, v: u16) -> (r: Registers)
        ensures
            r == self.with_rp(i, v),
    {
        if i == 0 {
            Registers { b: exec_high(v), c: exec_low(v), ..*self }
        } else if i == 1 {
            Registers { d: exec_high(v), e: exec_low(v), ..*self }
        } else if i == 2 {
            Registers { h: exec_high(v), l: exec_low(v), ..*self }
        } else {
            Registers { sp: v, ..*self }
        }
    }

    pub fn exec_rp2(&self, i: u8) -> (v: u16)
        ensures
            v == self.rp2(i),
    {
        if i == 3 {
            exec_word(self.a, self.f.exec_byte())
        } else {
            self.exec_rp(i)
        }
    }

    pub fn exec_with_rp2(&self, i: u8, v: u16) -> (r: Registers)
        ensures
            r == self.with_rp2(i, v),
    {
        if i == 3 {
            Registers { a: exec_high(v), f: Flags::from_byte(exec_low(v)), ..*self }
        } else {
            self.exec_with_rp(i, v)
        }
    }

    pub fn exec_cond(&self, i: u8) -> (r: bool)
        ensures
            r == self.cond(i),
    {
        if i == 0 {
            !self.f.z
        } else if i == 1 {
            self.f.z
        } else if i == 2 {
            !self.f.c
        } else {
            self.f.c
        }
    }
}

/// The lower half of F is zero, whatever the flags are, and so it is in
/// AF, also after any value was put into AF.
pub proof fn lemma_low_nibble_of_f(r: Registers, v: u16)
    ensures
        r.f.byte() % 16 == 0,
        r.af() % 16 == 0,
        r.with_af(v).f.byte() % 16 == 0,
        r.with_af(v).af() % 16 == 0,
        r.with_af(v).af() == v - v % 16,
{
}

} // verus!
