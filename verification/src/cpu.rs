//! The processor: it takes its program from memory instruction by
//! instruction, serves interrupts between instructions, and sleeps when
//! told to.
//!
//! Time is counted in clock cycles, four to a machine cycle.

use crate::gbmode::{GbMode, GbSpeed};
use crate::mmu::laws::lemma_cycle_accounting;
use crate::mmu::{IntFlags, Interrupt, Mmu, MmuModel, MmuRegs};
use crate::register::{exec_high, exec_low, exec_word, high, low, word, wrap16, Registers};
use vstd::prelude::*;

pub mod alu;
pub mod ops;

verus! {

/// Cycles that serving an interrupt takes.
pub const INTERRUPT_CYCLES: u32 = 20;

/// Cycles for which a sleeping processor sleeps on before it looks again.
pub const IDLE_CYCLES: u32 = 4;

/// The master switch of the interrupts.
#[derive(Debug, Clone, Copy, PartialEq, Eq, Structural)]
pub enum Ime {
    Disabled,
    Enabled,
    /// EI was executed: the switch goes on before the next instruction.
    PendingEnable,
}

/// What the processor is doing apart from what its registers say.
#[derive(Debug, Clone, Copy, PartialEq, Eq, Structural)]
pub struct CpuState {
    pub ime: Ime,
    /// HALT was executed: the processor sleeps until an interrupt is
    /// requested.
    pub halted: bool,
    /// STOP was executed: the processor sleeps until a key is pressed.
    pub stopped: bool,
    /// HALT was executed with the interrupts switched off and one
    /// requested: the next opcode is read without moving PC on.
    pub halt_bug: bool,
}

pub struct Cpu {
    pub reg: Registers,
    pub mmu: Mmu,
    pub state: CpuState,
}

/// The processor and the machine around it as a value.
pub struct CpuModel {
    pub reg: Registers,
    pub mmu: MmuModel,
    pub state: CpuState,
}

impl View for Cpu {
    type V = CpuModel;

    open spec fn view(&self) -> CpuModel {
        CpuModel { reg: self.reg, mmu: self.mmu@, state: self.state }
    }
}

/// Opcodes that stand for no instruction.
pub open spec fn is_undefined(op: u8) -> bool {
    op == 0xD3 || op == 0xDB || op == 0xDD || op == 0xE3 || op == 0xE4 || op == 0xEB || op == 0xEC
        || op == 0xED || op == 0xF4 || op == 0xFC || op == 0xFD
}

impl CpuState {
    pub open spec fn initial() -> CpuState {
        CpuState { ime: Ime::Disabled, halted: false, stopped: false, halt_bug: false }
    }
}

impl CpuModel {
    pub open spec fn wf(self) -> bool {
        self.mmu.wf()
    }

    pub open spec fn with_reg(self, reg: Registers) -> CpuModel {
        CpuModel { reg, ..self }
    }

    pub open spec fn with_pc(self, pc: u16) -> CpuModel {
        CpuModel { reg: Registers { pc, ..self.reg }, ..self }
    }

    /// The machine after `v` was stored at `a`.
    pub open spec fn stored(self, a: u16, v: u8) -> CpuModel {
        CpuModel { mmu: self.mmu.written(a, v), ..self }
    }

    /// The byte that follows in the program, and the machine with PC
    /// moved past it.
    pub open spec fn imm8(self) -> (CpuModel, u8) {
        (self.with_pc(wrap16(self.reg.pc + 1)), self.mmu.read(self.reg.pc))
    }

    /// The word that follows in the program, low byte first, and the
    /// machine with PC moved past it.
    pub open spec fn imm16(self) -> (CpuModel, u16) {
        (self.with_pc(wrap16(self.reg.pc + 2)), self.mmu.read_word(self.reg.pc))
    }

    /// The machine after `v` was pushed on the stack, which grows down.
    pub open spec fn pushed(self, v: u16) -> CpuModel {
        let sp = wrap16(self.reg.sp - 2);
        CpuModel {
            reg: Registers { sp, ..self.reg },
            mmu: self.mmu.written_word(sp, v),
            ..self
        }
    }

    /// The word on top of the stack, and the machine with it taken off.
    pub open spec fn popped(self) -> (CpuModel, u16) {
        (
            CpuModel { reg: Registers { sp: wrap16(self.reg.sp + 2), ..self.reg }, ..self },
            self.mmu.read_word(self.reg.sp),
        )
    }

    /// The operand with the number `i` in an instruction: a byte register,
    /// or for 6 the byte in memory at HL.
    pub open spec fn operand(self, i: u8) -> u8 {
        if i == 6 {
            self.mmu.read(self.reg.hl())
        } else {
            self.reg.r8(i)
        }
    }

    pub open spec fn with_operand(self, i: u8, v: u8) -> CpuModel {
        if i == 6 {
            self.stored(self.reg.hl(), v)
        } else {
            self.with_reg(self.reg.with_r8(i, v))
        }
    }

    /// The interrupt to serve next, if there is one: the one of highest
    /// priority among those requested and enabled in IE.
    pub open spec fn pending(self) -> Option<Interrupt> {
        self.mmu.regs.intf.pending(self.mmu.regs.inte)
    }

    /// The machine after the service of `irq` began: the master switch is
    /// off, the request is taken back, PC is on the stack and at the
    /// interrupt's vector, and the processor is awake.
    pub open spec fn serviced(self, irq: Interrupt) -> CpuModel {
        let m = CpuModel {
            mmu: MmuModel {
                regs: MmuRegs { intf: self.mmu.regs.intf.without(irq), ..self.mmu.regs },
                ..self.mmu
            },
            state: CpuState { ime: Ime::Disabled, halted: false, ..self.state },
            ..self
        };
        m.pushed(self.reg.pc).with_pc(irq.vector())
    }

    /// The opcode that the processor reads next, and the machine with PC
    /// moved past it, or not moved where HALT left it stuck.
    pub open spec fn opcode_fetched(self) -> (CpuModel, u8) {
        (
            CpuModel {
                reg: Registers {
                    pc: if self.state.halt_bug {
                        self.reg.pc
                    } else {
                        wrap16(self.reg.pc + 1)
                    },
                    ..self.reg
                },
                state: CpuState { halt_bug: false, ..self.state },
                ..self
            },
            self.mmu.read(self.reg.pc),
        )
    }

    /// The machine with the master switch on if EI asked for it.
    pub open spec fn ime_updated(self) -> CpuModel {
        if self.state.ime == Ime::PendingEnable {
            CpuModel { state: CpuState { ime: Ime::Enabled, ..self.state }, ..self }
        } else {
            self
        }
    }

    /// The machine woken from HALT if an interrupt is requested and
    /// enabled in IE, and from STOP if a key press has requested the
    /// joypad interrupt.
    pub open spec fn woken(self) -> CpuModel {
        CpuModel {
            state: CpuState {
                halted: self.state.halted && self.pending() is None,
                stopped: self.state.stopped && !self.mmu.regs.intf.joypad,
                ..self.state
            },
            ..self
        }
    }

    /// Whether the next step executes an instruction, rather than serve an
    /// interrupt or sleep.
    pub open spec fn executes_next(self) -> bool {
        let s = self.ime_updated();
        !(s.state.ime == Ime::Enabled && s.pending() is Some) && !s.woken().state.halted
            && !s.woken().state.stopped
    }

    /// Whether the processor can take a step: it is not about to execute
    /// an opcode that stands for no instruction.
    pub open spec fn can_step(self) -> bool {
        !(self.executes_next() && is_undefined(self.mmu.read(self.reg.pc)))
    }

    /// The machine after one step of the processor, before the rest of the
    /// machine has caught up, and the cycles that the step took. A step
    /// serves the pending interrupt if the master switch is on, which takes
    /// 20 cycles; else it sleeps for 4 cycles if the processor sleeps; else
    /// it executes one instruction.
    pub open spec fn stepped(self) -> (CpuModel, u32) {
        let s = self.ime_updated();
        if s.state.ime == Ime::Enabled && s.pending() is Some {
            (s.serviced(s.pending()->0), INTERRUPT_CYCLES)
        } else {
            let w = s.woken();
            if w.state.halted || w.state.stopped {
                (w, IDLE_CYCLES)
            } else {
                let (f, op) = w.opcode_fetched();
                f.executed(op)
            }
        }
    }

    /// The machine after one step of the processor and the time it took.
    pub open spec fn cycled(self) -> CpuModel {
        let (s, cycles) = self.stepped();
        CpuModel { mmu: s.mmu.advanced(cycles), ..s }
    }

    /// The machine when the program of the cartridge starts.
    pub open spec fn initial(mmu: MmuModel) -> CpuModel {
        CpuModel {
            reg: Registers::initial(mmu.regs.gbmode == GbMode::Color),
            mmu,
            state: CpuState::initial(),
        }
    }
}

impl Cpu {
    pub fn new(mmu: Mmu) -> (cpu: Cpu)
        requires
            mmu@.wf(),
        ensures
            cpu@ == CpuModel::initial(mmu@),
            cpu@.wf(),
    {
        Cpu {
            reg: Registers::new(mmu.regs.gbmode == GbMode::Color),
            mmu,
            state: CpuState { ime: Ime::Disabled, halted: false, stopped: false, halt_bug: false },
        }
    }

    pub fn store(&mut self, a: u16, v: u8)
        requires
            old(self)@.wf(),
        ensures
            final(self)@ == old(self)@.stored(a, v),
            final(self)@.wf(),
    {
        self.mmu.wb(a, v);
    }

    pub fn fetch8(&mut self) -> (v: u8)
        requires
            old(self)@.wf(),
        ensures
            (final(self)@, v) == old(self)@.imm8(),
            final(self)@.wf(),
    {
        let v = self.mmu.rb(self.reg.pc);
        self.reg = Registers { pc: self.reg.pc.wrapping_add(1), ..self.reg };
        v
    }

    pub fn fetch16(&mut self) -> (v: u16)
        requires
            old(self)@.wf(),
        ensures
            (final(self)@, v) == old(self)@.imm16(),
            final(self)@.wf(),
    {
        let v = self.mmu.rw(self.reg.pc);
        self.reg = Registers { pc: self.reg.pc.wrapping_add(2), ..self.reg };
        v
    }

    pub fn push(&mut self, v: u16)
        requires
            old(self)@.wf(),
        ensures
            final(self)@ == old(self)@.pushed(v),
            final(self)@.wf(),
    {
        let sp = self.reg.sp.wrapping_sub(2);
        self.reg = Registers { sp, ..self.reg };
        self.mmu.ww(sp, v);
    }

    pub fn pop(&mut self) -> (v: u16)
        requires
            old(self)@.wf(),
        ensures
            (final(self)@, v) == old(self)@.popped(),
            final(self)@.wf(),
    {
        let v = self.mmu.rw(self.reg.sp);
        self.reg = Registers { sp: self.reg.sp.wrapping_add(2), ..self.reg };
        v
    }

    pub fn operand(&self, i: u8) -> (v: u8)
        requires
            self@.wf(),
        ensures
            v == self@.operand(i),
    {
        if i == 6 {
            self.mmu.rb(self.reg.exec_hl())
        } else {
            self.reg.exec_r8(i)
        }
    }

    pub fn set_operand(&mut self, i: u8, v: u8)
        requires
            old(self)@.wf(),
        ensures
            final(self)@ == old(self)@.with_operand(i, v),
            final(self)@.wf(),
    {
        if i == 6 {
            self.mmu.wb(self.reg.exec_hl(), v);
        } else {
            self.reg = self.reg.exec_with_r8(i, v);
        }
    }

    fn pending(&self) -> (r: Option<Interrupt>)
        ensures
            r == self@.pending(),
    {
        self.mmu.regs.intf.exec_pending(self.mmu.regs.inte)
    }

    fn take_request(&mut self, irq: Interrupt)
        requires
            old(self)@.wf(),
        ensures
            final(self)@ == (CpuModel {
                mmu: MmuModel {
                    regs: MmuRegs {
                        intf: old(self)@.mmu.regs.intf.without(irq),
                        ..old(self)@.mmu.regs
                    },
                    ..old(self)@.mmu
                },
                ..old(self)@
            }),
            final(self)@.wf(),
    {
        reveal(MmuModel::wf);
        let r = self.mmu.regs;
        self.mmu.regs = MmuRegs { intf: r.intf.exec_without(irq), ..r };
    }

    fn service(&mut self, irq: Interrupt)
        requires
            old(self)@.wf(),
        ensures
            final(self)@ == old(self)@.serviced(irq),
            final(self)@.wf(),
    {
        let pc = self.reg.pc;
        self.take_request(irq);
        self.state = CpuState { ime: Ime::Disabled, halted: false, ..self.state };
        self.push(pc);
        self.reg = Registers { pc: irq.exec_vector(), ..self.reg };
    }

    fn fetch_opcode(&mut self) -> (op: u8)
        requires
            old(self)@.wf(),
        ensures
            (final(self)@, op) == old(self)@.opcode_fetched(),
            final(self)@.wf(),
    {
        let op = self.mmu.rb(self.reg.pc);
        if !self.state.halt_bug {
            self.reg = Registers { pc: self.reg.pc.wrapping_add(1), ..self.reg };
        }
        self.state = CpuState { halt_bug: false, ..self.state };
        op
    }

    fn wake(&mut self)
        ensures
            final(self)@ == old(self)@.woken(),
    {
        let pending = self.pending();
        self.state =
        CpuState {
            halted: self.state.halted && pending.is_none(),
            stopped: self.state.stopped && !self.mmu.regs.intf.joypad,
            ..self.state
        };
    }

    /// Whether the processor can take a step.
    pub fn can_step(&self) -> (r: bool)
        requires
            self@.wf(),
        ensures
            r == self@.can_step(),
    {
        let ime_on = match self.state.ime {
            Ime::Disabled => false,
            _ => true,
        };
        let pending = self.pending();
        if ime_on && pending.is_some() {
            return true;
        }
        let halted = self.state.halted && pending.is_none();
        let stopped = self.state.stopped && !self.mmu.regs.intf.joypad;
        if halted || stopped {
            return true;
        }
        let op = self.mmu.rb(self.reg.pc);
        !(op == 0xD3 || op == 0xDB || op == 0xDD || op == 0xE3 || op == 0xE4 || op == 0xEB || op
            == 0xEC || op == 0xED || op == 0xF4 || op == 0xFC || op == 0xFD)
    }

    /// Takes one step of the processor: serves an interrupt, sleeps, or
    /// executes an instruction. Returns the cycles that it took.
    pub fn step(&mut self) -> (cycles: u32)
        requires
            old(self)@.wf(),
            old(self)@.can_step(),
        ensures
            (final(self)@, cycles) == old(self)@.stepped(),
            final(self)@.wf(),
    {
        if self.state.ime == Ime::PendingEnable {
            self.state = CpuState { ime: Ime::Enabled, ..self.state };
        }
        let pending = self.pending();
        if self.state.ime == Ime::Enabled && pending.is_some() {
            self.service(pending.unwrap());
            return INTERRUPT_CYCLES;
        }
        self.wake();
        if self.state.halted || self.state.stopped {
            return IDLE_CYCLES;
        }
        let op = self.fetch_opcode();
        self.execute(op)
    }

    /// Takes one step of the processor and lets the rest of the machine
    /// catch up. Returns the time that passed, in cycles of picture and
    /// sound: the cycles of the step at single speed, half of them at
    /// double speed.
    pub fn do_cycle(&mut self) -> (dots: u32)
        requires
            old(self)@.wf(),
            old(self)@.can_step(),
        ensures
            final(self)@ == old(self)@.cycled(),
            dots == old(self)@.stepped().0.mmu.dots(old(self)@.stepped().1),
            final(self)@.wf(),
    {
        let cycles = self.step();
        self.mmu.do_cycle(cycles)
    }
}

/// The lower half of F is zero in every state of the machine, so also
/// after any step.
pub proof fn lemma_low_nibble_of_f_stays_zero(c: CpuModel)
    ensures
        c.reg.f.byte() % 16 == 0,
        c.stepped().0.reg.f.byte() % 16 == 0,
        c.cycled().reg.f.byte() % 16 == 0,
        c.cycled().reg.af() % 16 == 0,
{
}

/// With the master switch on, or about to go on, and an interrupt requested
/// and enabled, the next step serves the one of highest priority, which
/// takes 20 cycles.
pub proof fn lemma_interrupt_is_served(c: CpuModel, irq: Interrupt)
    requires
        c.state.ime != Ime::Disabled,
        c.pending() == Some(irq),
    ensures
        c.stepped().1 == INTERRUPT_CYCLES,
        c.stepped().0 == c.ime_updated().serviced(irq),
{
    let s = c.ime_updated();
    assert(s.state.ime == Ime::Enabled);
    assert(s.pending() == Some(irq));
}

/// The service of an interrupt switches the master switch off, pushes PC,
/// and leaves PC at the vector of the interrupt, 0x0040 plus eight times
/// its number, and the processor awake.
pub proof fn lemma_service(c: CpuModel, irq: Interrupt)
    ensures
        c.serviced(irq).state.ime == Ime::Disabled,
        !c.serviced(irq).state.halted,
        c.serviced(irq).reg.pc == 0x0040 + 8 * irq.index(),
        c.serviced(irq).reg.sp == wrap16(c.reg.sp - 2),
{
}

/// While the processor takes a step of `c` cycles, the timer runs for `c`
/// cycles, and picture and sound for `c` cycles at single speed and for
/// half of `c` at double speed; the speed is the one after the step, which
/// STOP may have changed.
pub proof fn lemma_step_cycle_accounting(c: CpuModel)
    ensures
        ({
            let (s, cycles) = c.stepped();
            let dots = s.mmu.dots(cycles) as nat;
            &&& c.cycled().mmu.timer == s.mmu.timer.advance(cycles as nat).0
            &&& c.cycled().mmu.gpu.regs == s.mmu.gpu.regs.after(dots)
            &&& c.cycled().mmu.sound == s.mmu.sound.advance(dots)
            &&& s.mmu.regs.speed == GbSpeed::Single ==> dots == cycles
            &&& s.mmu.regs.speed == GbSpeed::Double ==> dots == cycles / 2
        }),
{
    let (s, cycles) = c.stepped();
    lemma_cycle_accounting(s.mmu, cycles);
}

} // verus!
