//! The serial port, with nothing on the other end of the cable.
//!
//! A write to SC with bit 7 set starts the transfer of the byte in SB. The
//! transfer takes eight bits of 512 cycles each. When it is over, SB holds
//! the eight one bits that an open cable shifts in, bit 7 of SC is clear and
//! the serial interrupt is requested. While the port is tapped, every byte
//! that starts a transfer is also kept for the host.

use vstd::prelude::*;

verus! {

/// Address of SB.
pub const SB: u16 = 0xFF01;

/// Address of SC.
pub const SC: u16 = 0xFF02;

/// Cycles that a transfer of one byte takes.
pub const TRANSFER_CYCLES: u32 = 4096;

pub struct Serial {
    pub data: u8,
    pub control: u8,
    /// Cycles until the running transfer ends; zero while none runs.
    pub remaining: u32,
    /// Whether bytes sent are kept for the host.
    pub tapped: bool,
    /// The bytes kept for the host, oldest first.
    pub sent: Vec<u8>,
}

/// The serial port as a value.
pub struct SerialModel {
    pub data: u8,
    pub control: u8,
    pub remaining: u32,
    pub tapped: bool,
    pub sent: Seq<u8>,
}

impl View for Serial {
    type V = SerialModel;

    open spec fn view(&self) -> SerialModel {
        SerialModel {
            data: self.data,
            control: self.control,
            remaining: self.remaining,
            tapped: self.tapped,
            sent: self.sent@,
        }
    }
}

impl SerialModel {
    /// The port after power-on.
    pub open spec fn initial() -> SerialModel {
        SerialModel { data: 0, control: 0, remaining: 0, tapped: false, sent: Seq::empty() }
    }

    /// What a read of `a` returns. The bits of SC that do not exist read as
    /// ones.
    pub open spec fn read(self, a: u16) -> u8 {
        if a == SB {
            self.data
        } else if a == SC {
            self.control | 0x7E
        } else {
            0xFF
        }
    }

    /// The port after `v` was written to `a`.
    pub open spec fn written(self, a: u16, v: u8) -> SerialModel {
        if a == SB {
            SerialModel { data: v, ..self }
        } else if a == SC {
            if v >= 0x80 {
                SerialModel {
                    control: v,
                    remaining: TRANSFER_CYCLES,
                    sent: if self.tapped {
                        self.sent.push(self.data)
                    } else {
                        self.sent
                    },
                    ..self
                }
            } else {
                SerialModel { control: v, remaining: 0, ..self }
            }
        } else {
            self
        }
    }

    /// The port one cycle later, and whether it requests its interrupt in
    /// that cycle.
    pub open spec fn tick(self) -> (SerialModel, bool) {
        if self.remaining == 0 {
            (self, false)
        } else if self.remaining == 1 {
            (SerialModel { data: 0xFF, control: self.control & 0x7F, remaining: 0, ..self }, true)
        } else {
            (SerialModel { remaining: (self.remaining - 1) as u32, ..self }, false)
        }
    }

    /// The port `n` cycles later, and whether it requested its interrupt in
    /// one of them.
    pub open spec fn advance(self, n: nat) -> (SerialModel, bool)
        decreases n,
    {
        if n == 0 {
            (self, false)
        } else {
            let (s, before) = self.advance((n - 1) as nat);
            let (next, now) = s.tick();
            (next, before || now)
        }
    }

    /// The port with the bytes kept for the host taken away.
    pub open spec fn drained(self) -> SerialModel {
        SerialModel { sent: Seq::empty(), ..self }
    }
}

impl Serial {
    pub fn new() -> (s: Serial)
        ensures
            s@ == SerialModel::initial(),
    {
        Serial { data: 0, control: 0, remaining: 0, tapped: false, sent: Vec::new() }
    }

    pub fn rb(&self, a: u16) -> (v: u8)
        ensures
            v == self@.read(a),
    {
        if a == SB {
            self.data
        } else if a == SC {
            self.control | 0x7E
        } else {
            0xFF
        }
    }

    pub fn wb(&mut self, a: u16, v: u8)
        ensures
            final(self)@ == old(self)@.written(a, v),
    {
        if a == SB {
            self.data = v;
        } else if a == SC {
            self.control = v;
            if v >= 0x80 {
                self.remaining = TRANSFER_CYCLES;
                if self.tapped {
                    self.sent.push(self.data);
                }
            } else {
                self.remaining = 0;
            }
        }
    }

    /// Runs the port for `ticks` cycles. Returns whether the serial
    /// interrupt is to be requested.
    pub fn do_cycle(&mut self, ticks: u32) -> (irq: bool)
        ensures
            (final(self)@, irq) == old(self)@.advance(ticks as nat),
    {
        let mut irq = false;
        let mut i: u32 = 0;
        while i < ticks
            invariant
                i <= ticks,
                (self@, irq) == old(self)@.advance(i as nat),
            decreases ticks - i,
        {
            if self.remaining == 1 {
                self.data = 0xFF;
                self.control = self.control & 0x7F;
                self.remaining = 0;
                irq = true;
            } else if self.remaining > 1 {
                self.remaining = self.remaining - 1;
            }
            i += 1;
        }
        irq
    }

    /// Starts or stops keeping the bytes sent for the host.
    pub fn set_tapped(&mut self, on: bool)
        ensures
            final(self)@ == (SerialModel { tapped: on, ..old(self)@ }),
    {
        self.tapped = on;
    }

    /// Hands the bytes kept for the host over, oldest first.
    pub fn take_sent(&mut self) -> (bytes: Vec<u8>)
        ensures
            bytes@ == old(self)@.sent,
            final(self)@ == old(self)@.drained(),
    {
        let mut bytes: Vec<u8> = Vec::new();
        core::mem::swap(&mut bytes, &mut self.sent);
        bytes
    }
}

/// A transfer that was started ends after exactly 4096 cycles, and requests
/// the interrupt in the last of them and not before.
pub proof fn lemma_transfer_length(s: SerialModel, v: u8, n: nat)
    requires
        v >= 0x80,
        n <= TRANSFER_CYCLES,
    ensures
        s.written(SC, v).advance(n).0.remaining == TRANSFER_CYCLES - n,
        s.written(SC, v).advance(n).1 == (n == TRANSFER_CYCLES),
        n == TRANSFER_CYCLES ==> s.written(SC, v).advance(n).0.data == 0xFF,
    decreases n,
{
    if n > 0 {
        lemma_transfer_length(s, v, (n - 1) as nat);
    }
}

} // verus!
