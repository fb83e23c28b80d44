//! The divider and the programmable timer.
//!
//! A 16-bit counter runs at the speed of the processor. Its high byte is the
//! register DIV. While the timer is switched on, TIMA counts once each time
//! the counter reaches a multiple of the period that TAC selects, which is
//! when the bit of the counter that TAC selects falls. When TIMA overflows
//! it reads zero for one cycle; in the cycle after it is loaded from TMA and
//! the timer interrupt is requested.

use vstd::prelude::*;

verus! {

/// Address of DIV.
pub const DIV: u16 = 0xFF04;

/// Address of TIMA.
pub const TIMA: u16 = 0xFF05;

/// Address of TMA.
pub const TMA: u16 = 0xFF06;

/// Address of TAC.
pub const TAC: u16 = 0xFF07;

/// The rate that the low two bits of TAC select.
#[derive(Debug, Clone, Copy, PartialEq, Eq, Structural)]
pub enum TimerClock {
    Every1024,
    Every16,
    Every64,
    Every256,
}

impl TimerClock {
    /// Cycles between two counts of TIMA.
    pub open spec fn period(self) -> u16 {
        match self {
            TimerClock::Every1024 => 1024,
            TimerClock::Every16 => 16,
            TimerClock::Every64 => 64,
            TimerClock::Every256 => 256,
        }
    }

    /// The two bits of TAC that select this rate.
    pub open spec fn code(self) -> u8 {
        match self {
            TimerClock::Every1024 => 0,
            TimerClock::Every16 => 1,
            TimerClock::Every64 => 2,
            TimerClock::Every256 => 3,
        }
    }

    /// The rate that a value written to TAC selects.
    pub open spec fn of_tac(v: u8) -> TimerClock {
        if v % 4 == 0 {
            TimerClock::Every1024
        } else if v % 4 == 1 {
            TimerClock::Every16
        } else if v % 4 == 2 {
            TimerClock::Every64
        } else {
            TimerClock::Every256
        }
    }

    pub fn exec_period(self) -> (p: u16)
        ensures
            p == self.period(),
    {
        match self {
            TimerClock::Every1024 => 1024,
            TimerClock::Every16 => 16,
            TimerClock::Every64 => 64,
            TimerClock::Every256 => 256,
        }
    }

    pub fn exec_code(self) -> (c: u8)
        ensures
            c == self.code(),
    {
        match self {
            TimerClock::Every1024 => 0,
            TimerClock::Every16 => 1,
            TimerClock::Every64 => 2,
            TimerClock::Every256 => 3,
        }
    }

    pub fn from_tac(v: u8) -> (c: TimerClock)
        ensures
            c == TimerClock::of_tac(v),
    {
        let low: u8 = v % 4;
        if low == 0 {
            TimerClock::Every1024
        } else if low == 1 {
            TimerClock::Every16
        } else if low == 2 {
            TimerClock::Every64
        } else {
            TimerClock::Every256
        }
    }
}

#[derive(Debug, Clone, Copy, PartialEq, Eq, Structural)]
pub struct Timer {
    /// The free-running counter. DIV is its high byte.
    pub counter: u16,
    pub tima: u8,
    pub tma: u8,
    /// Bit 2 of TAC.
    pub enabled: bool,
    /// Bits 0 and 1 of TAC.
    pub clock: TimerClock,
    /// TIMA overflowed in the last cycle and waits to be loaded from TMA.
    pub reload_pending: bool,
}

impl Timer {
    /// The timer after power-on.
    pub open spec fn initial() -> Timer {
        Timer {
            counter: 0,
            tima: 0,
            tma: 0,
            enabled: false,
            clock: TimerClock::Every1024,
            reload_pending: false,
        }
    }

    pub fn new() -> (t: Timer)
        ensures
            t == Timer::initial(),
    {
        Timer {
            counter: 0,
            tima: 0,
            tma: 0,
            enabled: false,
            clock: TimerClock::Every1024,
            reload_pending: false,
        }
    }

    /// What a read of `a` returns: the register at `a`, and 0xFF where the
    /// timer has none. The bits of TAC that do not exist read as ones.
    pub open spec fn read(self, a: u16) -> u8 {
        if a == DIV {
            (self.counter / 256) as u8
        } else if a == TIMA {
            self.tima
        } else if a == TMA {
            self.tma
        } else if a == TAC {
            (0xF8 + (if self.enabled {
                4int
            } else {
                0int
            }) + self.clock.code()) as u8
        } else {
            0xFF
        }
    }

    /// The timer after `v` was written to `a`. A write to DIV clears the
    /// whole counter, whatever is written.
    pub open spec fn written(self, a: u16, v: u8) -> Timer {
        if a == DIV {
            Timer { counter: 0, ..self }
        } else if a == TIMA {
            Timer { tima: v, ..self }
        } else if a == TMA {
            Timer { tma: v, ..self }
        } else if a == TAC {
            Timer { enabled: (v / 4) % 2 == 1, clock: TimerClock::of_tac(v), ..self }
        } else {
            self
        }
    }

    /// The timer one cycle later, and whether it requests its interrupt in
    /// that cycle.
    pub open spec fn tick(self) -> (Timer, bool) {
        let counter = if self.counter == 0xFFFF {
            0u16
        } else {
            (self.counter + 1) as u16
        };
        let loaded = if self.reload_pending {
            self.tma
        } else {
            self.tima
        };
        let counts = self.enabled && counter % self.clock.period() == 0;
        let t = Timer {
            counter,
            tima: if !counts {
                loaded
            } else if loaded == 0xFF {
                0u8
            } else {
                (loaded + 1) as u8
            },
            reload_pending: counts && loaded == 0xFF,
            ..self
        };
        (t, self.reload_pending)
    }

    /// The timer `n` cycles later, and whether it requested its interrupt in
    /// one of them.
    pub open spec fn advance(self, n: nat) -> (Timer, bool)
        decreases n,
    {
        if n == 0 {
            (self, false)
        } else {
            let (t, before) = self.advance((n - 1) as nat);
            let (next, now) = t.tick();
            (next, before || now)
        }
    }

    pub fn rb(&self, a: u16) -> (v: u8)
        ensures
            v == self.read(a),
    {
        if a == DIV {
            (self.counter / 256) as u8
        } else if a == TIMA {
            self.tima
        } else if a == TMA {
            self.tma
        } else if a == TAC {
            0xF8 + (if self.enabled {
                4
            } else {
                0
            }) + self.clock.exec_code()
        } else {
            0xFF
        }
    }

    pub fn wb(&mut self, a: u16, v: u8)
        ensures
            *final(self) == old(self).written(a, v),
    {
        if a == DIV {
            self.counter = 0;
        } else if a == TIMA {
            self.tima = v;
        } else if a == TMA {
            self.tma = v;
        } else if a == TAC {
            self.enabled = (v / 4) % 2 == 1;
            self.clock = TimerClock::from_tac(v);
        }
    }

    /// Runs the timer for `ticks` cycles. Returns whether the timer interrupt
    /// is to be requested.
    pub fn do_cycle(&mut self, ticks: u32) -> (irq: bool)
        ensures
            (*final(self), irq) == old(self).advance(ticks as nat),
    {
        let mut irq = false;
        let mut i: u32 = 0;
        while i < ticks
            invariant
                i <= ticks,
                (*self, irq) == old(self).advance(i as nat),
            decreases ticks - i,
        {
            if self.reload_pending {
                irq = true;
                self.tima = self.tma;
                self.reload_pending = false;
            }
            self.counter = if self.counter == 0xFFFF {
                0
            } else {
                self.counter + 1
            };
            if self.enabled && self.counter % self.clock.exec_period() == 0 {
                if self.tima == 0xFF {
                    self.tima = 0;
                    self.reload_pending = true;
                } else {
                    self.tima = self.tima + 1;
                }
            }
            i += 1;
        }
        irq
    }
}

/// A write to DIV, of any value, makes DIV read zero, and it still reads
/// zero after any number of cycles short of the 256 that the counter takes
/// to reach its high byte.
pub proof fn lemma_div_reset(t: Timer, v: u8, n: nat)
    requires
        n < 256,
    ensures
        t.written(DIV, v).read(DIV) == 0,
        t.written(DIV, v).advance(n).0.read(DIV) == 0,
        t.written(DIV, v).advance(n).0.counter == n,
    decreases n,
{
    if n > 0 {
        lemma_div_reset(t, v, (n - 1) as nat);
    }
}

/// TIMA, TMA and the low three bits of TAC read back as they were written;
/// the rest of TAC reads as ones.
pub proof fn lemma_timer_read_back(t: Timer, v: u8)
    ensures
        t.written(TIMA, v).read(TIMA) == v,
        t.written(TMA, v).read(TMA) == v,
        t.written(TAC, v).read(TAC) == 0xF8 + v % 8,
{
}

/// Advancing by `a` cycles and then by `b` is advancing by `a + b`.
pub proof fn lemma_advance_add(t: Timer, a: nat, b: nat)
    ensures
        t.advance(a + b).0 == t.advance(a).0.advance(b).0,
        t.advance(a + b).1 == (t.advance(a).1 || t.advance(a).0.advance(b).1),
    decreases b,
{
    if b > 0 {
        lemma_advance_add(t, a, (b - 1) as nat);
        assert((a + b - 1) as nat == a + (b - 1) as nat);
    }
}

} // verus!
