//! The instructions.
//!
//! An opcode is read as three numbers: `x`, its two upper bits; `y`, the
//! three bits below; and `z`, its three lowest bits. `p` is the upper two
//! bits of `y` and `q` its lowest.

use crate::bits::{clear_bit, set_bit, with_bit, without_bit};
use crate::cpu::alu::{
    add16, add_signed, alu, bit_test, daa, dec8, exec_add16, exec_add_signed, exec_alu,
    exec_bit_test, exec_daa, exec_dec8, exec_inc8, exec_rot, inc8, rot, signed,
};
use crate::cpu::{Cpu, CpuModel, CpuState, Ime};
use crate::gbmode::GbMode;
use crate::mmu::{MmuModel, MmuRegs};
use crate::register::{wrap16, Flags, Registers};
use vstd::prelude::*;

verus! {

impl CpuModel {
    pub open spec fn with_flags(self, f: Flags) -> CpuModel {
        CpuModel { reg: Registers { f, ..self.reg }, ..self }
    }

    pub open spec fn with_a(self, a: u8, f: Flags) -> CpuModel {
        CpuModel { reg: Registers { a, f, ..self.reg }, ..self }
    }

    /// Cycles of an instruction on a byte operand: more where the operand
    /// is in memory.
    pub open spec fn operand_cycles(i: u8, register: u32, memory: u32) -> u32 {
        if i == 6 {
            memory
        } else {
            register
        }
    }

    /// PC moved by the signed byte `d`.
    pub open spec fn jumped_by(self, d: u8) -> CpuModel {
        self.with_pc(wrap16(self.reg.pc + signed(d)))
    }

    /// Opcodes with `x` 0 and `z` 0: NOP, LD (nn),SP, STOP, JR d and
    /// JR cc,d. STOP takes the byte after it along; on the colour machine
    /// with a change of speed armed it changes the speed, else it puts the
    /// processor to sleep.
    #[verifier::opaque]
    pub open spec fn executed_x0_z0(self, y: u8) -> (CpuModel, u32) {
        if y == 0 {
            (self, 4)
        } else if y == 1 {
            let (m, a) = self.imm16();
            (CpuModel { mmu: m.mmu.written_word(a, m.reg.sp), ..m }, 20)
        } else if y == 2 {
            let (m, _) = self.imm8();
            if m.mmu.regs.color() && m.mmu.regs.speed_switch_armed {
                (
                    CpuModel {
                        mmu: MmuModel { regs: m.mmu.regs.speed_switched(), ..m.mmu },
                        ..m
                    },
                    4,
                )
            } else {
                (CpuModel { state: CpuState { stopped: true, ..m.state }, ..m }, 4)
            }
        } else {
            let (m, d) = self.imm8();
            if y == 3 || m.reg.cond((y - 4) as u8) {
                (m.jumped_by(d), 12)
            } else {
                (m, 8)
            }
        }
    }

    /// Opcodes with `x` 0 and `z` 1: LD rp,nn and ADD HL,rp.
    #[verifier::opaque]
    pub open spec fn executed_x0_z1(self, y: u8) -> (CpuModel, u32) {
        if y % 2 == 0 {
            let (m, v) = self.imm16();
            (m.with_reg(m.reg.with_rp(y / 2, v)), 12)
        } else {
            let (v, f) = add16(self.reg.hl(), self.reg.rp(y / 2), self.reg.f);
            (self.with_reg(self.reg.with_hl(v)).with_flags(f), 8)
        }
    }

    /// The address that the loads with `z` 2 use: BC, DE, or HL, which the
    /// load then moves up for `p` 2 and down for `p` 3.
    pub open spec fn indirect(self, p: u8) -> u16 {
        if p == 0 {
            self.reg.bc()
        } else if p == 1 {
            self.reg.de()
        } else {
            self.reg.hl()
        }
    }

    pub open spec fn hl_moved(self, p: u8) -> CpuModel {
        if p == 2 {
            self.with_reg(self.reg.with_hl(wrap16(self.reg.hl() + 1)))
        } else if p == 3 {
            self.with_reg(self.reg.with_hl(wrap16(self.reg.hl() - 1)))
        } else {
            self
        }
    }

    /// Opcodes with `x` 0 and `z` 2: LD (BC),A, LD (DE),A, LD (HL+),A,
    /// LD (HL-),A and the loads the other way.
    #[verifier::opaque]
    pub open spec fn executed_x0_z2(self, y: u8) -> (CpuModel, u32) {
        let p = y / 2;
        if y % 2 == 0 {
            (self.stored(self.indirect(p), self.reg.a).hl_moved(p), 8)
        } else {
            (
                self.with_reg(
                    Registers { a: self.mmu.read(self.indirect(p)), ..self.reg },
                ).hl_moved(p),
                8,
            )
        }
    }

    /// Opcodes with `x` 0 and `z` 3: INC rp and DEC rp. No flag changes.
    #[verifier::opaque]
    pub open spec fn executed_x0_z3(self, y: u8) -> (CpuModel, u32) {
        let p = y / 2;
        if y % 2 == 0 {
            (self.with_reg(self.reg.with_rp(p, wrap16(self.reg.rp(p) + 1))), 8)
        } else {
            (self.with_reg(self.reg.with_rp(p, wrap16(self.reg.rp(p) - 1))), 8)
        }
    }

    /// Opcodes with `x` 0 and `z` 4, 5 or 6: INC r, DEC r and LD r,n.
    #[verifier::opaque]
    pub open spec fn executed_x0_z456(self, y: u8, z: u8) -> (CpuModel, u32) {
        if z == 4 {
            let (v, f) = inc8(self.operand(y), self.reg.f);
            (self.with_flags(f).with_operand(y, v), Self::operand_cycles(y, 4, 12))
        } else if z == 5 {
            let (v, f) = dec8(self.operand(y), self.reg.f);
            (self.with_flags(f).with_operand(y, v), Self::operand_cycles(y, 4, 12))
        } else {
            let (m, v) = self.imm8();
            (m.with_operand(y, v), Self::operand_cycles(y, 8, 12))
        }
    }

    /// Opcodes with `x` 0 and `z` 7: the four rotations of the
    /// accumulator, which clear Z, and DAA, CPL, SCF and CCF.
    #[verifier::opaque]
    pub open spec fn executed_x0_z7(self, y: u8) -> (CpuModel, u32) {
        let a = self.reg.a;
        let f = self.reg.f;
        if y < 4 {
            let (v, g) = rot(y, a, f);
            (self.with_a(v, Flags { z: false, ..g }), 4)
        } else if y == 4 {
            let (v, g) = daa(a, f);
            (self.with_a(v, g), 4)
        } else if y == 5 {
            (self.with_a((255 - a) as u8, Flags { n: true, h: true, ..f }), 4)
        } else if y == 6 {
            (self.with_flags(Flags { n: false, h: false, c: true, ..f }), 4)
        } else {
            (self.with_flags(Flags { n: false, h: false, c: !f.c, ..f }), 4)
        }
    }

    /// The machine after HALT. With the master switch off and an interrupt
    /// requested and enabled, the processor does not sleep, and reads the
    /// next opcode without moving PC on.
    pub open spec fn halt_entered(self) -> CpuModel {
        if self.state.ime != Ime::Enabled && self.pending() is Some {
            CpuModel { state: CpuState { halt_bug: true, ..self.state }, ..self }
        } else {
            CpuModel { state: CpuState { halted: true, ..self.state }, ..self }
        }
    }

    /// Opcodes with `x` 1: LD r,r', and HALT in the place of LD (HL),(HL).
    #[verifier::opaque]
    pub open spec fn executed_x1(self, y: u8, z: u8) -> (CpuModel, u32) {
        if y == 6 && z == 6 {
            (self.halt_entered(), 4)
        } else {
            (
                self.with_operand(y, self.operand(z)),
                if y == 6 || z == 6 {
                    8
                } else {
                    4
                },
            )
        }
    }

    /// Opcodes with `x` 2: the arithmetic of the accumulator with a byte
    /// operand.
    #[verifier::opaque]
    pub open spec fn executed_x2(self, y: u8, z: u8) -> (CpuModel, u32) {
        let (a, f) = alu(y, self.reg.a, self.operand(z), self.reg.f);
        (self.with_a(a, f), Self::operand_cycles(z, 4, 8))
    }

    /// The machine after a return: PC is taken off the stack.
    pub open spec fn returned(self) -> CpuModel {
        self.popped().0.with_pc(self.popped().1)
    }

    /// Opcodes with `x` 3 and `z` 0: RET cc, LDH (n),A, ADD SP,d,
    /// LDH A,(n) and LD HL,SP+d.
    #[verifier::opaque]
    pub open spec fn executed_x3_z0(self, y: u8) -> (CpuModel, u32) {
        if y < 4 {
            if self.reg.cond(y) {
                (self.returned(), 20)
            } else {
                (self, 8)
            }
        } else {
            let (m, n) = self.imm8();
            if y == 4 {
                (m.stored((0xFF00 + n) as u16, m.reg.a), 12)
            } else if y == 5 {
                let (sp, f) = add_signed(m.reg.sp, n);
                (m.with_reg(Registers { sp, f, ..m.reg }), 16)
            } else if y == 6 {
                (m.with_reg(Registers { a: m.mmu.read((0xFF00 + n) as u16), ..m.reg }), 12)
            } else {
                let (v, f) = add_signed(m.reg.sp, n);
                (m.with_reg(m.reg.with_hl(v)).with_flags(f), 12)
            }
        }
    }

    /// Opcodes with `x` 3 and `z` 1: POP, RET, RETI, which also puts the
    /// master switch on, JP HL and LD SP,HL.
    #[verifier::opaque]
    pub open spec fn executed_x3_z1(self, y: u8) -> (CpuModel, u32) {
        let p = y / 2;
        if y % 2 == 0 {
            let (m, v) = self.popped();
            (m.with_reg(m.reg.with_rp2(p, v)), 12)
        } else if p == 0 {
            (self.returned(), 16)
        } else if p == 1 {
            let m = self.returned();
            (CpuModel { state: CpuState { ime: Ime::Enabled, ..m.state }, ..m }, 16)
        } else if p == 2 {
            (self.with_pc(self.reg.hl()), 4)
        } else {
            (self.with_reg(Registers { sp: self.reg.hl(), ..self.reg }), 8)
        }
    }

    /// Opcodes with `x` 3 and `z` 2: JP cc,nn and the loads between the
    /// accumulator and memory at 0xFF00 + C or at nn.
    #[verifier::opaque]
    pub open spec fn executed_x3_z2(self, y: u8) -> (CpuModel, u32) {
        if y < 4 {
            let (m, a) = self.imm16();
            if m.reg.cond(y) {
                (m.with_pc(a), 16)
            } else {
                (m, 12)
            }
        } else if y == 4 {
            (self.stored((0xFF00 + self.reg.c) as u16, self.reg.a), 8)
        } else if y == 5 {
            let (m, a) = self.imm16();
            (m.stored(a, m.reg.a), 16)
        } else if y == 6 {
            (
                self.with_reg(
                    Registers { a: self.mmu.read((0xFF00 + self.reg.c) as u16), ..self.reg },
                ),
                8,
            )
        } else {
            let (m, a) = self.imm16();
            (m.with_reg(Registers { a: m.mmu.read(a), ..m.reg }), 16)
        }
    }

    /// The instructions that follow the opcode 0xCB: rotations and shifts,
    /// BIT, RES and SET, each on a byte operand.
    #[verifier::opaque]
    pub open spec fn executed_cb(self) -> (CpuModel, u32) {
        let (m, op) = self.imm8();
        let x = op / 64;
        let y = (op / 8) % 8;
        let z = op % 8;
        let v = m.operand(z);
        if x == 0 {
            let (r, f) = rot(y, v, m.reg.f);
            (m.with_flags(f).with_operand(z, r), Self::operand_cycles(z, 8, 16))
        } else if x == 1 {
            (m.with_flags(bit_test(y, v, m.reg.f)), Self::operand_cycles(z, 8, 12))
        } else if x == 2 {
            (m.with_operand(z, without_bit(v, y as int)), Self::operand_cycles(z, 8, 16))
        } else {
            (m.with_operand(z, with_bit(v, y as int)), Self::operand_cycles(z, 8, 16))
        }
    }

    /// Opcodes with `x` 3 and `z` 3: JP nn, the prefix 0xCB, DI, and EI,
    /// which puts the master switch on before the next instruction.
    #[verifier::opaque]
    pub open spec fn executed_x3_z3(self, y: u8) -> (CpuModel, u32) {
        if y == 0 {
            let (m, a) = self.imm16();
            (m.with_pc(a), 16)
        } else if y == 1 {
            self.executed_cb()
        } else if y == 6 {
            (CpuModel { state: CpuState { ime: Ime::Disabled, ..self.state }, ..self }, 4)
        } else if y == 7 {
            (
                CpuModel {
                    state: CpuState {
                        ime: if self.state.ime == Ime::Enabled {
                            Ime::Enabled
                        } else {
                            Ime::PendingEnable
                        },
                        ..self.state
                    },
                    ..self
                },
                4,
            )
        } else {
            (self, 4)
        }
    }

    /// The machine after a call of `a`.
    pub open spec fn called(self, a: u16) -> CpuModel {
        self.pushed(self.reg.pc).with_pc(a)
    }

    /// Opcodes with `x` 3 and `z` 4 or 5: CALL cc,nn, PUSH and CALL nn.
    #[verifier::opaque]
    pub open spec fn executed_x3_z45(self, y: u8, z: u8) -> (CpuModel, u32) {
        if z == 4 && y < 4 {
            let (m, a) = self.imm16();
            if m.reg.cond(y) {
                (m.called(a), 24)
            } else {
                (m, 12)
            }
        } else if z == 5 && y % 2 == 0 {
            (self.pushed(self.reg.rp2(y / 2)), 16)
        } else if z == 5 && y == 1 {
            let (m, a) = self.imm16();
            (m.called(a), 24)
        } else {
            (self, 4)
        }
    }

    /// Opcodes with `x` 3 and `z` 6 or 7: the arithmetic of the accumulator
    /// with the byte that follows, and RST.
    #[verifier::opaque]
    pub open spec fn executed_x3_z67(self, y: u8, z: u8) -> (CpuModel, u32) {
        if z == 6 {
            let (m, n) = self.imm8();
            let (a, f) = alu(y, m.reg.a, n, m.reg.f);
            (m.with_a(a, f), 8)
        } else {
            (self.called((y * 8) as u16), 16)
        }
    }

    /// The machine after the instruction with the opcode `op` was executed,
    /// PC standing behind the opcode, and the cycles that the instruction
    /// took: more for a jump that is taken than for one that is not.
    pub open spec fn executed(self, op: u8) -> (CpuModel, u32) {
        let x = op / 64;
        let y = (op / 8) % 8;
        let z = op % 8;
        if x == 0 {
            if z == 0 {
                self.executed_x0_z0(y)
            } else if z == 1 {
                self.executed_x0_z1(y)
            } else if z == 2 {
                self.executed_x0_z2(y)
            } else if z == 3 {
                self.executed_x0_z3(y)
            } else if z == 7 {
                self.executed_x0_z7(y)
            } else {
                self.executed_x0_z456(y, z)
            }
        } else if x == 1 {
            self.executed_x1(y, z)
        } else if x == 2 {
            self.executed_x2(y, z)
        } else if z == 0 {
            self.executed_x3_z0(y)
        } else if z == 1 {
            self.executed_x3_z1(y)
        } else if z == 2 {
            self.executed_x3_z2(y)
        } else if z == 3 {
            self.executed_x3_z3(y)
        } else if z == 4 || z == 5 {
            self.executed_x3_z45(y, z)
        } else {
            self.executed_x3_z67(y, z)
        }
    }
}

impl Cpu {
    fn jump_by(&mut self, d: u8)
        ensures
            final(self)@ == old(self)@.jumped_by(d),
    {
        let pc = self.reg.pc;
        let target: u16 = if d >= 128 {
            pc.wrapping_sub(256 - d as u16)
        } else {
            pc.wrapping_add(d as u16)
        };
        self.reg = Registers { pc: target, ..self.reg };
    }

    fn exec_x0_z0(&mut self, y: u8) -> (cycles: u32)
        requires
            old(self)@.wf(),
            y < 8,
        ensures
            (final(self)@, cycles) == old(self)@.executed_x0_z0(y),
            final(self)@.wf(),
    {
        reveal(CpuModel::executed_x0_z0);
        if y == 0 {
            4
        } else if y == 1 {
            let a = self.fetch16();
            self.mmu.ww(a, self.reg.sp);
            20
        } else if y == 2 {
            let _ = self.fetch8();
            if self.mmu.regs.gbmode == GbMode::Color && self.mmu.regs.speed_switch_armed {
                self.mmu.switch_speed();
            } else {
                self.state = CpuState { stopped: true, ..self.state };
            }
            4
        } else {
            let d = self.fetch8();
            if y == 3 || self.reg.exec_cond(y - 4) {
                self.jump_by(d);
                12
            } else {
                8
            }
        }
    }

    fn exec_x0_z1(&mut self, y: u8) -> (cycles: u32)
        requires
            old(self)@.wf(),
            y < 8,
        ensures
            (final(self)@, cycles) == old(self)@.executed_x0_z1(y),
            final(self)@.wf(),
    {
        reveal(CpuModel::executed_x0_z1);
        if y % 2 == 0 {
            let v = self.fetch16();
            self.reg = self.reg.exec_with_rp(y / 2, v);
            12
        } else {
            let (v, f) = exec_add16(self.reg.exec_hl(), self.reg.exec_rp(y / 2), self.reg.f);
            self.reg = Registers { f, ..self.reg.exec_with_hl(v) };
            8
        }
    }

    fn indirect(&self, p: u8) -> (a: u16)
        ensures
            a == self@.indirect(p),
    {
        if p == 0 {
            self.reg.exec_rp(0)
        } else if p == 1 {
            self.reg.exec_rp(1)
        } else {
            self.reg.exec_hl()
        }
    }

    fn move_hl(&mut self, p: u8)
        ensures
            final(self)@ == old(self)@.hl_moved(p),
    {
        if p == 2 {
            self.reg = self.reg.exec_with_hl(self.reg.exec_hl().wrapping_add(1));
        } else if p == 3 {
            self.reg = self.reg.exec_with_hl(self.reg.exec_hl().wrapping_sub(1));
        }
    }

    fn exec_x0_z2(&mut self, y: u8) -> (cycles: u32)
        requires
            old(self)@.wf(),
            y < 8,
        ensures
            (final(self)@, cycles) == old(self)@.executed_x0_z2(y),
            final(self)@.wf(),
    {
        reveal(CpuModel::executed_x0_z2);
        let p = y / 2;
        let a = self.indirect(p);
        if y % 2 == 0 {
            self.store(a, self.reg.a);
        } else {
            let v = self.mmu.rb(a);
            self.reg = Registers { a: v, ..self.reg };
        }
        self.move_hl(p);
        8
    }

    fn exec_x0_z3(&mut self, y: u8) -> (cycles: u32)
        requires
            old(self)@.wf(),
            y < 8,
        ensures
            (final(self)@, cycles) == old(self)@.executed_x0_z3(y),
            final(self)@.wf(),
    {
        reveal(CpuModel::executed_x0_z3);
        let p = y / 2;
        let v = self.reg.exec_rp(p);
        if y % 2 == 0 {
            self.reg = self.reg.exec_with_rp(p, v.wrapping_add(1));
        } else {
            self.reg = self.reg.exec_with_rp(p, v.wrapping_sub(1));
        }
        8
    }

    fn set_flags(&mut self, f: Flags)
        ensures
            final(self)@ == old(self)@.with_flags(f),
    {
        self.reg = Registers { f, ..self.reg };
    }

    fn exec_x0_z456(&mut self, y: u8, z: u8) -> (cycles: u32)
        requires
            old(self)@.wf(),
            y < 8,
            4 <= z <= 6,
        ensures
            (final(self)@, cycles) == old(self)@.executed_x0_z456(y, z),
            final(self)@.wf(),
    {
        reveal(CpuModel::executed_x0_z456);
        let memory: u32 = 12;
        if z == 4 {
            let (v, f) = exec_inc8(self.operand(y), self.reg.f);
            self.set_flags(f);
            self.set_operand(y, v);
            if y == 6 {
                memory
            } else {
                4
            }
        } else if z == 5 {
            let (v, f) = exec_dec8(self.operand(y), self.reg.f);
            self.set_flags(f);
            self.set_operand(y, v);
            if y == 6 {
                memory
            } else {
                4
            }
        } else {
            let v = self.fetch8();
            self.set_operand(y, v);
            if y == 6 {
                memory
            } else {
                8
            }
        }
    }

    fn exec_x0_z7(&mut self, y: u8) -> (cycles: u32)
        requires
            old(self)@.wf(),
            y < 8,
        ensures
            (final(self)@, cycles) == old(self)@.executed_x0_z7(y),
            final(self)@.wf(),
    {
        reveal(CpuModel::executed_x0_z7);
        let a = self.reg.a;
        let f = self.reg.f;
        if y < 4 {
            let (v, g) = exec_rot(y, a, f);
            self.reg = Registers { a: v, f: Flags { z: false, ..g }, ..self.reg };
        } else if y == 4 {
            let (v, g) = exec_daa(a, f);
            self.reg = Registers { a: v, f: g, ..self.reg };
        } else if y == 5 {
            self.reg = Registers { a: 255 - a, f: Flags { n: true, h: true, ..f }, ..self.reg };
        } else if y == 6 {
            self.reg = Registers { f: Flags { n: false, h: false, c: true, ..f }, ..self.reg };
        } else {
            self.reg = Registers { f: Flags { n: false, h: false, c: !f.c, ..f }, ..self.reg };
        }
        4
    }

    fn halt(&mut self)
        ensures
            final(self)@ == old(self)@.halt_entered(),
    {
        let pending = self.pending();
        if self.state.ime != Ime::Enabled && pending.is_some() {
            self.state = CpuState { halt_bug: true, ..self.state };
        } else {
            self.state = CpuState { halted: true, ..self.state };
        }
    }

    fn exec_x1(&mut self, y: u8, z: u8) -> (cycles: u32)
        requires
            old(self)@.wf(),
            y < 8,
            z < 8,
        ensures
            (final(self)@, cycles) == old(self)@.executed_x1(y, z),
            final(self)@.wf(),
    {
        reveal(CpuModel::executed_x1);
        if y == 6 && z == 6 {
            self.halt();
            4
        } else {
            let v = self.operand(z);
            self.set_operand(y, v);
            if y == 6 || z == 6 {
                8
            } else {
                4
            }
        }
    }

    fn exec_x2(&mut self, y: u8, z: u8) -> (cycles: u32)
        requires
            old(self)@.wf(),
            y < 8,
            z < 8,
        ensures
            (final(self)@, cycles) == old(self)@.executed_x2(y, z),
            final(self)@.wf(),
    {
        reveal(CpuModel::executed_x2);
        let (a, f) = exec_alu(y, self.reg.a, self.operand(z), self.reg.f);
        self.reg = Registers { a, f, ..self.reg };
        if z == 6 {
            8
        } else {
            4
        }
    }

    fn exec_x3_z0(&mut self, y: u8) -> (cycles: u32)
        requires
            old(self)@.wf(),
            y < 8,
        ensures
            (final(self)@, cycles) == old(self)@.executed_x3_z0(y),
            final(self)@.wf(),
    {
        reveal(CpuModel::executed_x3_z0);
        if y < 4 {
            if self.reg.exec_cond(y) {
                self.ret();
                20
            } else {
                8
            }
        } else {
            let n = self.fetch8();
            if y == 4 {
                self.store(0xFF00 + n as u16, self.reg.a);
                12
            } else if y == 5 {
                let (sp, f) = exec_add_signed(self.reg.sp, n);
                self.reg = Registers { sp, f, ..self.reg };
                16
            } else if y == 6 {
                let v = self.mmu.rb(0xFF00 + n as u16);
                self.reg = Registers { a: v, ..self.reg };
                12
            } else {
                let (v, f) = exec_add_signed(self.reg.sp, n);
                self.reg = Registers { f, ..self.reg.exec_with_hl(v) };
                12
            }
        }
    }

    fn ret(&mut self)
        requires
            old(self)@.wf(),
        ensures
            final(self)@ == old(self)@.returned(),
            final(self)@.wf(),
    {
        let a = self.pop();
        self.reg = Registers { pc: a, ..self.reg };
    }

    fn pop_rp2(&mut self, p: u8)
        requires
            old(self)@.wf(),
        ensures
            final(self)@ == old(self)@.popped().0.with_reg(
                old(self)@.popped().0.reg.with_rp2(p, old(self)@.popped().1),
            ),
            final(self)@.wf(),
    {
        let v = self.pop();
        self.reg = self.reg.exec_with_rp2(p, v);
    }

    fn set_ime(&mut self, ime: Ime)
        ensures
            final(self)@ == (CpuModel {
                state: CpuState { ime, ..old(self)@.state },
                ..old(self)@
            }),
    {
        self.state = CpuState { ime, ..self.state };
    }

    fn exec_x3_z1(&mut self, y: u8) -> (cycles: u32)
        requires
            old(self)@.wf(),
            y < 8,
        ensures
            (final(self)@, cycles) == old(self)@.executed_x3_z1(y),
            final(self)@.wf(),
    {
        reveal(CpuModel::executed_x3_z1);
        let p = y / 2;
        if y % 2 == 0 {
            self.pop_rp2(p);
            12
        } else if p == 0 {
            self.ret();
            16
        } else if p == 1 {
            self.ret();
            self.set_ime(Ime::Enabled);
            16
        } else if p == 2 {
            self.reg = Registers { pc: self.reg.exec_hl(), ..self.reg };
            4
        } else {
            self.reg = Registers { sp: self.reg.exec_hl(), ..self.reg };
            8
        }
    }

    fn exec_x3_z2(&mut self, y: u8) -> (cycles: u32)
        requires
            old(self)@.wf(),
            y < 8,
        ensures
            (final(self)@, cycles) == old(self)@.executed_x3_z2(y),
            final(self)@.wf(),
    {
        reveal(CpuModel::executed_x3_z2);
        if y < 4 {
            let a = self.fetch16();
            if self.reg.exec_cond(y) {
                self.reg = Registers { pc: a, ..self.reg };
                16
            } else {
                12
            }
        } else if y == 4 {
            self.store(0xFF00 + self.reg.c as u16, self.reg.a);
            8
        } else if y == 5 {
            let a = self.fetch16();
            self.store(a, self.reg.a);
            16
        } else if y == 6 {
            let v = self.mmu.rb(0xFF00 + self.reg.c as u16);
            self.reg = Registers { a: v, ..self.reg };
            8
        } else {
            let a = self.fetch16();
            let v = self.mmu.rb(a);
            self.reg = Registers { a: v, ..self.reg };
            16
        }
    }

    fn exec_cb(&mut self) -> (cycles: u32)
        requires
            old(self)@.wf(),
        ensures
            (final(self)@, cycles) == old(self)@.executed_cb(),
            final(self)@.wf(),
    {
        reveal(CpuModel::executed_cb);
        let op = self.fetch8();
        let x = op / 64;
        let y = (op / 8) % 8;
        let z = op % 8;
        let v = self.operand(z);
        let slow: u32 = if z == 6 {
            16
        } else {
            8
        };
        if x == 0 {
            let (r, f) = exec_rot(y, v, self.reg.f);
            self.set_flags(f);
            self.set_operand(z, r);
            slow
        } else if x == 1 {
            let f = exec_bit_test(y, v, self.reg.f);
            self.set_flags(f);
            if z == 6 {
                12
            } else {
                8
            }
        } else if x == 2 {
            self.set_operand(z, clear_bit(v, y));
            slow
        } else {
            self.set_operand(z, set_bit(v, y));
            slow
        }
    }

    fn exec_x3_z3(&mut self, y: u8) -> (cycles: u32)
        requires
            old(self)@.wf(),
            y < 8,
        ensures
            (final(self)@, cycles) == old(self)@.executed_x3_z3(y),
            final(self)@.wf(),
    {
        reveal(CpuModel::executed_x3_z3);
        if y == 0 {
            let a = self.fetch16();
            self.reg = Registers { pc: a, ..self.reg };
            16
        } else if y == 1 {
            self.exec_cb()
        } else if y == 6 {
            self.state = CpuState { ime: Ime::Disabled, ..self.state };
            4
        } else if y == 7 {
            let ime = if self.state.ime == Ime::Enabled {
                Ime::Enabled
            } else {
                Ime::PendingEnable
            };
            self.state = CpuState { ime, ..self.state };
            4
        } else {
            4
        }
    }

    fn call(&mut self, a: u16)
        requires
            old(self)@.wf(),
        ensures
            final(self)@ == old(self)@.called(a),
            final(self)@.wf(),
    {
        self.push(self.reg.pc);
        self.reg = Registers { pc: a, ..self.reg };
    }

    fn exec_x3_z45(&mut self, y: u8, z: u8) -> (cycles: u32)
        requires
            old(self)@.wf(),
            y < 8,
        ensures
            (final(self)@, cycles) == old(self)@.executed_x3_z45(y, z),
            final(self)@.wf(),
    {
        reveal(CpuModel::executed_x3_z45);
        if z == 4 && y < 4 {
            let a = self.fetch16();
            if self.reg.exec_cond(y) {
                self.call(a);
                24
            } else {
                12
            }
        } else if z == 5 && y % 2 == 0 {
            self.push(self.reg.exec_rp2(y / 2));
            16
        } else if z == 5 && y == 1 {
            let a = self.fetch16();
            self.call(a);
            24
        } else {
            4
        }
    }

    fn exec_x3_z67(&mut self, y: u8, z: u8) -> (cycles: u32)
        requires
            old(self)@.wf(),
            y < 8,
        ensures
            (final(self)@, cycles) == old(self)@.executed_x3_z67(y, z),
            final(self)@.wf(),
    {
        reveal(CpuModel::executed_x3_z67);
        if z == 6 {
            let n = self.fetch8();
            let (a, f) = exec_alu(y, self.reg.a, n, self.reg.f);
            self.reg = Registers { a, f, ..self.reg };
            8
        } else {
            self.call(y as u16 * 8);
            16
        }
    }

    /// Executes the instruction with the opcode `op`, which was just read.
    /// Returns the cycles that it took.
    pub fn execute(&mut self, op: u8) -> (cycles: u32)
        requires
            old(self)@.wf(),
        ensures
            (final(self)@, cycles) == old(self)@.executed(op),
            final(self)@.wf(),
    {
        let x = op / 64;
        let y = (op / 8) % 8;
        let z = op % 8;
        if x == 0 {
            if z == 0 {
                self.exec_x0_z0(y)
            } else if z == 1 {
                self.exec_x0_z1(y)
            } else if z == 2 {
                self.exec_x0_z2(y)
            } else if z == 3 {
                self.exec_x0_z3(y)
            } else if z == 7 {
                self.exec_x0_z7(y)
            } else {
                self.exec_x0_z456(y, z)
            }
        } else if x == 1 {
            self.exec_x1(y, z)
        } else if x == 2 {
            self.exec_x2(y, z)
        } else if z == 0 {
            self.exec_x3_z0(y)
        } else if z == 1 {
            self.exec_x3_z1(y)
        } else if z == 2 {
            self.exec_x3_z2(y)
        } else if z == 3 {
            self.exec_x3_z3(y)
        } else if z == 4 || z == 5 {
            self.exec_x3_z45(y, z)
        } else {
            self.exec_x3_z67(y, z)
        }
    }
}

} // verus!
