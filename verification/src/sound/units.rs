//! The units that the sound channels are built from.

use vstd::prelude::*;

verus! {

/// Steps of a length counter of the square and noise channels.
pub const SHORT_LENGTH: u16 = 64;

/// Steps of the length counter of the wave channel.
pub const LONG_LENGTH: u16 = 256;

/// The volume envelope of a channel.
#[derive(Debug, Clone, Copy, PartialEq, Eq, Structural)]
pub struct Envelope {
    /// The volume that a trigger starts from, 0 to 15.
    pub initial: u8,
    /// The volume rises.
    pub up: bool,
    /// Envelope clocks between two steps of the volume; zero for none.
    pub period: u8,
    /// The volume now, 0 to 15.
    pub volume: u8,
    /// Envelope clocks until the next step.
    pub timer: u8,
}

impl Envelope {
    pub open spec fn wf(self) -> bool {
        self.initial < 16 && self.period < 8 && self.volume < 16 && self.timer < 8
    }

    pub open spec fn silent() -> Envelope {
        Envelope { initial: 0, up: false, period: 0, volume: 0, timer: 0 }
    }

    /// The envelope register: initial volume in bits 7 to 4, direction in
    /// bit 3, period in bits 2 to 0.
    pub open spec fn byte(self) -> u8 {
        (self.initial * 16 + (if self.up {
            8int
        } else {
            0int
        }) + self.period) as u8
    }

    /// The envelope after `v` was written to its register. The volume that
    /// sounds changes at the next trigger only.
    pub open spec fn written(self, v: u8) -> Envelope {
        Envelope { initial: v / 16, up: (v / 8) % 2 == 1, period: v % 8, ..self }
    }

    /// The channel's converter is on unless the upper five bits of the
    /// register are zero.
    pub open spec fn dac_on(self) -> bool {
        self.initial > 0 || self.up
    }

    /// The envelope after a trigger.
    pub open spec fn triggered(self) -> Envelope {
        Envelope { volume: self.initial, timer: self.period, ..self }
    }

    /// The envelope after one envelope clock: every `period` clocks the
    /// volume moves by one in its direction and stays within 0 and 15.
    pub open spec fn stepped(self) -> Envelope {
        if self.period == 0 {
            self
        } else if self.timer > 1 {
            Envelope { timer: (self.timer - 1) as u8, ..self }
        } else {
            Envelope {
                timer: self.period,
                volume: if self.up && self.volume < 15 {
                    (self.volume + 1) as u8
                } else if !self.up && self.volume > 0 {
                    (self.volume - 1) as u8
                } else {
                    self.volume
                },
                ..self
            }
        }
    }

    pub fn exec_byte(&self) -> (v: u8)
        requires
            self.wf(),
        ensures
            v == self.byte(),
    {
        self.initial * 16 + (if self.up {
            8
        } else {
            0
        }) + self.period
    }

    pub fn exec_written(&self, v: u8) -> (e: Envelope)
        requires
            self.wf(),
        ensures
            e == self.written(v),
            e.wf(),
    {
        Envelope { initial: v / 16, up: (v / 8) % 2 == 1, period: v % 8, ..*self }
    }

    pub fn exec_dac_on(&self) -> (r: bool)
        ensures
            r == self.dac_on(),
    {
        self.initial > 0 || self.up
    }

    pub fn exec_triggered(&self) -> (e: Envelope)
        requires
            self.wf(),
        ensures
            e == self.triggered(),
            e.wf(),
    {
        Envelope { volume: self.initial, timer: self.period, ..*self }
    }

    pub fn exec_stepped(&self) -> (e: Envelope)
        requires
            self.wf(),
        ensures
            e == self.stepped(),
            e.wf(),
    {
        if self.period == 0 {
            *self
        } else if self.timer > 1 {
            Envelope { timer: self.timer - 1, ..*self }
        } else {
            Envelope {
                timer: self.period,
                volume: if self.up && self.volume < 15 {
                    self.volume + 1
                } else if !self.up && self.volume > 0 {
                    self.volume - 1
                } else {
                    self.volume
                },
                ..*self
            }
        }
    }
}

/// The length counter of a channel.
#[derive(Debug, Clone, Copy, PartialEq, Eq, Structural)]
pub struct Length {
    /// Length clocks until the channel is switched off.
    pub left: u16,
    /// The counter runs.
    pub on: bool,
}

impl Length {
    pub open spec fn idle() -> Length {
        Length { left: 0, on: false }
    }

    /// The counter after `v` was loaded: `full - v` clocks are left.
    pub open spec fn loaded(self, full: u16, v: u16) -> Length {
        Length { left: (full - v % full) as u16, ..self }
    }

    /// The counter after a trigger: one that ran out starts from the full
    /// length.
    pub open spec fn triggered(self, full: u16) -> Length {
        if self.left == 0 {
            Length { left: full, ..self }
        } else {
            self
        }
    }

    /// The counter after one length clock.
    pub open spec fn stepped(self) -> Length {
        if self.on && self.left > 0 {
            Length { left: (self.left - 1) as u16, ..self }
        } else {
            self
        }
    }

    /// Whether a length clock switches the channel off: the counter runs
    /// and reaches zero.
    pub open spec fn expires(self) -> bool {
        self.on && self.left == 1
    }

    pub fn exec_loaded(&self, full: u16, v: u16) -> (l: Length)
        requires
            full > 0,
        ensures
            l == self.loaded(full, v),
            0 < l.left <= full,
    {
        Length { left: full - v % full, ..*self }
    }

    pub fn exec_triggered(&self, full: u16) -> (l: Length)
        ensures
            l == self.triggered(full),
            self.left <= full ==> l.left <= full,
    {
        if self.left == 0 {
            Length { left: full, ..*self }
        } else {
            *self
        }
    }

    pub fn exec_stepped(&self) -> (l: Length)
        ensures
            l == self.stepped(),
            l.left <= self.left,
    {
        if self.on && self.left > 0 {
            Length { left: self.left - 1, ..*self }
        } else {
            *self
        }
    }

    pub fn exec_expires(&self) -> (r: bool)
        ensures
            r == self.expires(),
    {
        self.on && self.left == 1
    }
}

/// Whether the wave of duty `duty` is high at step `pos` of its eight
/// steps: one step in eight, two, four or six.
pub open spec fn duty_high(duty: u8, pos: u8) -> bool {
    if duty == 0 {
        pos == 7
    } else if duty == 1 {
        pos == 0 || pos == 7
    } else if duty == 2 {
        pos == 0 || pos >= 5
    } else {
        1 <= pos && pos <= 6
    }
}

pub fn exec_duty_high(duty: u8, pos: u8) -> (r: bool)
    ensures
        r == duty_high(duty, pos),
{
    if duty == 0 {
        pos == 7
    } else if duty == 1 {
        pos == 0 || pos == 7
    } else if duty == 2 {
        pos == 0 || pos >= 5
    } else {
        1 <= pos && pos <= 6
    }
}

/// A square wave channel.
#[derive(Debug, Clone, Copy, PartialEq, Eq, Structural)]
pub struct Square {
    /// The channel sounds.
    pub on: bool,
    /// The duty, 0 to 3.
    pub duty: u8,
    pub length: Length,
    /// The frequency setting, eleven bits.
    pub freq: u16,
    /// Cycles until the wave moves on by a step.
    pub timer: u16,
    /// The step of the wave, 0 to 7.
    pub pos: u8,
    pub env: Envelope,
}

impl Square {
    pub open spec fn wf(self) -> bool {
        &&& self.duty < 4
        &&& self.length.left <= SHORT_LENGTH
        &&& self.freq < 2048
        &&& self.timer <= 8192
        &&& self.pos < 8
        &&& self.env.wf()
    }

    pub open spec fn silent() -> Square {
        Square {
            on: false,
            duty: 0,
            length: Length::idle(),
            freq: 0,
            timer: 0,
            pos: 0,
            env: Envelope::silent(),
        }
    }

    /// Cycles that a step of the wave lasts.
    pub open spec fn period(self) -> u16 {
        ((2048 - self.freq) * 4) as u16
    }

    /// The channel one cycle later.
    pub open spec fn clocked(self) -> Square {
        if self.timer <= 1 {
            Square { timer: self.period(), pos: ((self.pos + 1) % 8) as u8, ..self }
        } else {
            Square { timer: (self.timer - 1) as u16, ..self }
        }
    }

    /// What the channel puts out, 0 to 15: its volume while it sounds and
    /// the wave is high.
    pub open spec fn output(self) -> u8 {
        if self.on && duty_high(self.duty, self.pos) {
            self.env.volume
        } else {
            0
        }
    }

    /// The channel after one length clock.
    pub open spec fn length_stepped(self) -> Square {
        Square { on: self.on && !self.length.expires(), length: self.length.stepped(), ..self }
    }

    /// The channel after one envelope clock.
    pub open spec fn envelope_stepped(self) -> Square {
        Square { env: self.env.stepped(), ..self }
    }

    /// The channel after a trigger: it sounds if its converter is on.
    pub open spec fn triggered(self) -> Square {
        Square {
            on: self.env.dac_on(),
            length: self.length.triggered(SHORT_LENGTH),
            timer: self.period(),
            env: self.env.triggered(),
            ..self
        }
    }

    /// After a write to the duty and length register.
    pub open spec fn with_duty_length(self, v: u8) -> Square {
        Square { duty: v / 64, length: self.length.loaded(SHORT_LENGTH, v as u16), ..self }
    }

    /// After a write to the envelope register: without the converter the
    /// channel falls silent.
    pub open spec fn with_envelope(self, v: u8) -> Square {
        Square { env: self.env.written(v), on: self.on && self.env.written(v).dac_on(), ..self }
    }

    /// After a write to the low byte of the frequency.
    pub open spec fn with_freq_low(self, v: u8) -> Square {
        Square { freq: ((self.freq / 256) * 256 + v) as u16, ..self }
    }

    /// After a write to the control register: the upper three bits of the
    /// frequency, whether the length counter runs, and in bit 7 a trigger.
    pub open spec fn with_control(self, v: u8) -> Square {
        let s = Square {
            freq: ((v % 8) * 256 + self.freq % 256) as u16,
            length: Length { on: (v / 64) % 2 == 1, ..self.length },
            ..self
        };
        if v >= 128 {
            s.triggered()
        } else {
            s
        }
    }

    pub fn exec_period(&self) -> (p: u16)
        requires
            self.freq < 2048,
        ensures
            p == self.period(),
            4 <= p <= 8192,
    {
        (2048 - self.freq) * 4
    }

    pub fn exec_clocked(&self) -> (s: Square)
        requires
            self.wf(),
        ensures
            s == self.clocked(),
            s.wf(),
    {
        if self.timer <= 1 {
            Square { timer: self.exec_period(), pos: (self.pos + 1) % 8, ..*self }
        } else {
            Square { timer: self.timer - 1, ..*self }
        }
    }

    pub fn exec_output(&self) -> (v: u8)
        requires
            self.wf(),
        ensures
            v == self.output(),
            v < 16,
    {
        if self.on && exec_duty_high(self.duty, self.pos) {
            self.env.volume
        } else {
            0
        }
    }

    pub fn exec_length_stepped(&self) -> (s: Square)
        requires
            self.wf(),
        ensures
            s == self.length_stepped(),
            s.wf(),
    {
        Square {
            on: self.on && !self.length.exec_expires(),
            length: self.length.exec_stepped(),
            ..*self
        }
    }

    pub fn exec_envelope_stepped(&self) -> (s: Square)
        requires
            self.wf(),
        ensures
            s == self.envelope_stepped(),
            s.wf(),
    {
        Square { env: self.env.exec_stepped(), ..*self }
    }

    pub fn exec_triggered(&self) -> (s: Square)
        requires
            self.wf(),
        ensures
            s == self.triggered(),
            s.wf(),
    {
        Square {
            on: self.env.exec_dac_on(),
            length: self.length.exec_triggered(SHORT_LENGTH),
            timer: self.exec_period(),
            env: self.env.exec_triggered(),
            ..*self
        }
    }

    pub fn exec_with_duty_length(&self, v: u8) -> (s: Square)
        requires
            self.wf(),
        ensures
            s == self.with_duty_length(v),
            s.wf(),
    {
        Square { duty: v / 64, length: self.length.exec_loaded(SHORT_LENGTH, v as u16), ..*self }
    }

    pub fn exec_with_envelope(&self, v: u8) -> (s: Square)
        requires
            self.wf(),
        ensures
            s == self.with_envelope(v),
            s.wf(),
    {
        let env = self.env.exec_written(v);
        Square { env, on: self.on && env.exec_dac_on(), ..*self }
    }

    pub fn exec_with_freq_low(&self, v: u8) -> (s: Square)
        requires
            self.wf(),
        ensures
            s == self.with_freq_low(v),
            s.wf(),
    {
        Square { freq: (self.freq / 256) * 256 + v as u16, ..*self }
    }

    pub fn exec_with_control(&self, v: u8) -> (s: Square)
        requires
            self.wf(),
        ensures
            s == self.with_control(v),
            s.wf(),
    {
        let s = Square {
            freq: (v % 8) as u16 * 256 + self.freq % 256,
            length: Length { on: (v / 64) % 2 == 1, ..self.length },
            ..*self
        };
        if v >= 128 {
            s.exec_triggered()
        } else {
            s
        }
    }
}

/// The frequency sweep of the first square channel.
#[derive(Debug, Clone, Copy, PartialEq, Eq, Structural)]
pub struct Sweep {
    /// Sweep clocks between two steps of the frequency; zero for none.
    pub pace: u8,
    /// The frequency falls.
    pub down: bool,
    /// The step is the frequency shifted right by this.
    pub shift: u8,
    /// The sweep runs.
    pub on: bool,
    /// Sweep clocks until the next step.
    pub timer: u8,
    /// The frequency that the sweep works on.
    pub shadow: u16,
}

impl Sweep {
    pub open spec fn wf(self) -> bool {
        self.pace < 8 && self.shift < 8 && self.timer <= 8 && self.shadow < 2048
    }

    pub open spec fn idle() -> Sweep {
        Sweep { pace: 0, down: false, shift: 0, on: false, timer: 0, shadow: 0 }
    }

    /// The sweep register. Bit 7 reads one.
    pub open spec fn byte(self) -> u8 {
        (0x80 + self.pace * 16 + (if self.down {
            8int
        } else {
            0int
        }) + self.shift) as u8
    }

    pub open spec fn written(self, v: u8) -> Sweep {
        Sweep { pace: (v / 16) % 8, down: (v / 8) % 2 == 1, shift: v % 8, ..self }
    }

    /// The pace as a count of clocks: a pace of zero counts eight.
    pub open spec fn reload(self) -> u8 {
        if self.pace == 0 {
            8
        } else {
            self.pace
        }
    }

    /// The frequency that the next step goes to: the old one plus or minus
    /// the old one shifted right.
    pub open spec fn next_freq(self) -> int {
        if self.down {
            self.shadow - (self.shadow >> self.shift)
        } else {
            self.shadow + (self.shadow >> self.shift)
        }
    }

    pub fn exec_byte(&self) -> (v: u8)
        requires
            self.wf(),
        ensures
            v == self.byte(),
    {
        0x80 + self.pace * 16 + (if self.down {
            8
        } else {
            0
        }) + self.shift
    }

    pub fn exec_written(&self, v: u8) -> (s: Sweep)
        requires
            self.wf(),
        ensures
            s == self.written(v),
            s.wf(),
    {
        Sweep { pace: (v / 16) % 8, down: (v / 8) % 2 == 1, shift: v % 8, ..*self }
    }

    pub fn exec_reload(&self) -> (r: u8)
        requires
            self.wf(),
        ensures
            r == self.reload(),
            1 <= r <= 8,
    {
        if self.pace == 0 {
            8
        } else {
            self.pace
        }
    }

    pub fn exec_next_freq(&self) -> (f: u16)
        requires
            self.wf(),
        ensures
            f == self.next_freq(),
            f < 4096,
    {
        let shadow = self.shadow;
        let shift = self.shift;
        let step: u16 = shadow >> shift;
        assert(shadow >> shift <= shadow) by (bit_vector);
        if self.down {
            shadow - step
        } else {
            shadow + step
        }
    }
}

/// The first square channel after a trigger of its sweep: the sweep takes
/// the channel's frequency and runs if it has a pace or a shift. With a
/// shift, a next frequency above 2047 silences the channel at once.
pub open spec fn sweep_triggered(ch: Square, sw: Sweep) -> (Square, Sweep) {
    let s = Sweep {
        shadow: ch.freq,
        timer: sw.reload(),
        on: sw.pace != 0 || sw.shift != 0,
        ..sw
    };
    (
        if s.shift != 0 && s.next_freq() > 2047 {
            Square { on: false, ..ch }
        } else {
            ch
        },
        s,
    )
}

/// The first square channel after one sweep clock. Every `pace` clocks a
/// running sweep with a pace works out the next frequency: above 2047 it
/// silences the channel; else, with a shift, the channel takes it, and it
/// is silenced if the frequency after that would be above 2047.
pub open spec fn sweep_stepped(ch: Square, sw: Sweep) -> (Square, Sweep) {
    if sw.timer > 1 {
        (ch, Sweep { timer: (sw.timer - 1) as u8, ..sw })
    } else {
        let s = Sweep { timer: sw.reload(), ..sw };
        if !(sw.on && sw.pace != 0) {
            (ch, s)
        } else if s.next_freq() > 2047 {
            (Square { on: false, ..ch }, s)
        } else if s.shift == 0 {
            (ch, s)
        } else {
            let moved = Sweep { shadow: s.next_freq() as u16, ..s };
            (
                Square { freq: moved.shadow, on: ch.on && moved.next_freq() <= 2047, ..ch },
                moved,
            )
        }
    }
}

pub fn exec_sweep_triggered(ch: &Square, sw: &Sweep) -> (r: (Square, Sweep))
    requires
        ch.wf(),
        sw.wf(),
    ensures
        r == sweep_triggered(*ch, *sw),
        r.0.wf(),
        r.1.wf(),
{
    let s = Sweep {
        shadow: ch.freq,
        timer: sw.exec_reload(),
        on: sw.pace != 0 || sw.shift != 0,
        ..*sw
    };
    if s.shift != 0 && s.exec_next_freq() > 2047 {
        (Square { on: false, ..*ch }, s)
    } else {
        (*ch, s)
    }
}

pub fn exec_sweep_stepped(ch: &Square, sw: &Sweep) -> (r: (Square, Sweep))
    requires
        ch.wf(),
        sw.wf(),
    ensures
        r == sweep_stepped(*ch, *sw),
        r.0.wf(),
        r.1.wf(),
{
    if sw.timer > 1 {
        (*ch, Sweep { timer: sw.timer - 1, ..*sw })
    } else {
        let s = Sweep { timer: sw.exec_reload(), ..*sw };
        if !(sw.on && sw.pace != 0) {
            (*ch, s)
        } else {
            let next = s.exec_next_freq();
            if next > 2047 {
                (Square { on: false, ..*ch }, s)
            } else if s.shift == 0 {
                (*ch, s)
            } else {
                let moved = Sweep { shadow: next, ..s };
                (Square { freq: next, on: ch.on && moved.exec_next_freq() <= 2047, ..*ch }, moved)
            }
        }
    }
}

/// The channel that plays the wave table.
#[derive(Debug, Clone, Copy, PartialEq, Eq, Structural)]
pub struct Wave {
    pub on: bool,
    /// The channel's converter is on.
    pub dac: bool,
    pub length: Length,
    /// The output level: 0 mutes, 1 plays the samples as they are, 2 halves
    /// and 3 quarters them.
    pub level: u8,
    pub freq: u16,
    /// Cycles until the next sample.
    pub timer: u16,
    /// The sample that plays, 0 to 31.
    pub pos: u8,
}

impl Wave {
    pub open spec fn wf(self) -> bool {
        &&& self.length.left <= LONG_LENGTH
        &&& self.level < 4
        &&& self.freq < 2048
        &&& self.timer <= 4096
        &&& self.pos < 32
    }

    pub open spec fn silent() -> Wave {
        Wave {
            on: false,
            dac: false,
            length: Length::idle(),
            level: 0,
            freq: 0,
            timer: 0,
            pos: 0,
        }
    }

    /// Cycles that a sample lasts.
    pub open spec fn period(self) -> u16 {
        ((2048 - self.freq) * 2) as u16
    }

    pub open spec fn clocked(self) -> Wave {
        if self.timer <= 1 {
            Wave { timer: self.period(), pos: ((self.pos + 1) % 32) as u8, ..self }
        } else {
            Wave { timer: (self.timer - 1) as u16, ..self }
        }
    }

    /// The sample that plays: the table holds two samples of four bits to
    /// a byte, the upper one first.
    pub open spec fn sample(self, table: Seq<u8>) -> u8 {
        if self.pos % 2 == 0 {
            table[self.pos as int / 2] / 16
        } else {
            table[self.pos as int / 2] % 16
        }
    }

    /// What the channel puts out, 0 to 15.
    pub open spec fn output(self, table: Seq<u8>) -> u8 {
        if !self.on || self.level == 0 {
            0
        } else if self.level == 1 {
            self.sample(table)
        } else if self.level == 2 {
            self.sample(table) / 2
        } else {
            self.sample(table) / 4
        }
    }

    pub open spec fn length_stepped(self) -> Wave {
        Wave { on: self.on && !self.length.expires(), length: self.length.stepped(), ..self }
    }

    pub open spec fn triggered(self) -> Wave {
        Wave {
            on: self.dac,
            length: self.length.triggered(LONG_LENGTH),
            timer: self.period(),
            pos: 0,
            ..self
        }
    }

    /// After a write to the converter switch.
    pub open spec fn with_dac(self, v: u8) -> Wave {
        Wave { dac: v >= 128, on: self.on && v >= 128, ..self }
    }

    pub open spec fn with_length(self, v: u8) -> Wave {
        Wave { length: self.length.loaded(LONG_LENGTH, v as u16), ..self }
    }

    pub open spec fn with_level(self, v: u8) -> Wave {
        Wave { level: (v / 32) % 4, ..self }
    }

    pub open spec fn with_freq_low(self, v: u8) -> Wave {
        Wave { freq: ((self.freq / 256) * 256 + v) as u16, ..self }
    }

    pub open spec fn with_control(self, v: u8) -> Wave {
        let w = Wave {
            freq: ((v % 8) * 256 + self.freq % 256) as u16,
            length: Length { on: (v / 64) % 2 == 1, ..self.length },
            ..self
        };
        if v >= 128 {
            w.triggered()
        } else {
            w
        }
    }

    pub fn exec_period(&self) -> (p: u16)
        requires
            self.freq < 2048,
        ensures
            p == self.period(),
            2 <= p <= 4096,
    {
        (2048 - self.freq) * 2
    }

    pub fn exec_clocked(&self) -> (w: Wave)
        requires
            self.wf(),
        ensures
            w == self.clocked(),
            w.wf(),
    {
        if self.timer <= 1 {
            Wave { timer: self.exec_period(), pos: (self.pos + 1) % 32, ..*self }
        } else {
            Wave { timer: self.timer - 1, ..*self }
        }
    }

    pub fn exec_output(&self, table: &Vec<u8>) -> (v: u8)
        requires
            self.wf(),
            table@.len() == 16,
        ensures
            v == self.output(table@),
            v < 16,
    {
        let byte = table[self.pos as usize / 2];
        let sample: u8 = if self.pos % 2 == 0 {
            byte / 16
        } else {
            byte % 16
        };
        if !self.on || self.level == 0 {
            0
        } else if self.level == 1 {
            sample
        } else if self.level == 2 {
            sample / 2
        } else {
            sample / 4
        }
    }

    pub fn exec_length_stepped(&self) -> (w: Wave)
        requires
            self.wf(),
        ensures
            w == self.length_stepped(),
            w.wf(),
    {
        Wave {
            on: self.on && !self.length.exec_expires(),
            length: self.length.exec_stepped(),
            ..*self
        }
    }

    pub fn exec_triggered(&self) -> (w: Wave)
        requires
            self.wf(),
        ensures
            w == self.triggered(),
            w.wf(),
    {
        Wave {
            on: self.dac,
            length: self.length.exec_triggered(LONG_LENGTH),
            timer: self.exec_period(),
            pos: 0,
            ..*self
        }
    }

    pub fn exec_with_control(&self, v: u8) -> (w: Wave)
        requires
            self.wf(),
        ensures
            w == self.with_control(v),
            w.wf(),
    {
        let w = Wave {
            freq: (v % 8) as u16 * 256 + self.freq % 256,
            length: Length { on: (v / 64) % 2 == 1, ..self.length },
            ..*self
        };
        if v >= 128 {
            w.exec_triggered()
        } else {
            w
        }
    }
}

/// The noise channel.
#[derive(Debug, Clone, Copy, PartialEq, Eq, Structural)]
pub struct Noise {
    pub on: bool,
    pub length: Length,
    /// The clock is the divisor shifted left by this.
    pub shift: u8,
    /// The register is seven bits wide, not fifteen.
    pub narrow: bool,
    /// The code of the divisor, 0 to 7.
    pub divisor: u8,
    /// Cycles until the register shifts.
    pub timer: u32,
    /// The shift register, fifteen bits.
    pub lfsr: u16,
    pub env: Envelope,
}

/// Two to the power `n`, up to the sixteenth.
pub open spec fn pow2_16(n: u8) -> u32 {
    if n == 0 {
        1
    } else if n == 1 {
        2
    } else if n == 2 {
        4
    } else if n == 3 {
        8
    } else if n == 4 {
        16
    } else if n == 5 {
        32
    } else if n == 6 {
        64
    } else if n == 7 {
        128
    } else if n == 8 {
        256
    } else if n == 9 {
        512
    } else if n == 10 {
        1024
    } else if n == 11 {
        2048
    } else if n == 12 {
        4096
    } else if n == 13 {
        8192
    } else if n == 14 {
        16384
    } else {
        32768
    }
}

pub fn exec_pow2_16(n: u8) -> (p: u32)
    ensures
        p == pow2_16(n),
        1 <= p <= 32768,
{
    match n {
        0 => 1,
        1 => 2,
        2 => 4,
        3 => 8,
        4 => 16,
        5 => 32,
        6 => 64,
        7 => 128,
        8 => 256,
        9 => 512,
        10 => 1024,
        11 => 2048,
        12 => 4096,
        13 => 8192,
        14 => 16384,
        _ => 32768,
    }
}

impl Noise {
    pub open spec fn wf(self) -> bool {
        &&& self.length.left <= SHORT_LENGTH
        &&& self.shift < 16
        &&& self.divisor < 8
        &&& self.lfsr < 0x8000
        &&& self.env.wf()
    }

    pub open spec fn silent() -> Noise {
        Noise {
            on: false,
            length: Length::idle(),
            shift: 0,
            narrow: false,
            divisor: 0,
            timer: 0,
            lfsr: 0,
            env: Envelope::silent(),
        }
    }

    /// Cycles between two shifts of the register: the divisor, which is 8
    /// for code 0 and 16 times the code else, times two to the shift.
    pub open spec fn period(self) -> u32 {
        ((if self.divisor == 0 {
            8int
        } else {
            self.divisor * 16
        }) * pow2_16(self.shift)) as u32
    }

    /// The register after a shift: the difference of its two lowest bits
    /// enters at bit 14 and, in a narrow register, at bit 6 too.
    pub open spec fn shifted(self) -> u16 {
        let new = ((self.lfsr % 2) + ((self.lfsr / 2) % 2)) % 2;
        let wide = self.lfsr / 2 + new * 0x4000;
        if self.narrow {
            (wide - ((wide / 64) % 2) * 64 + new * 64) as u16
        } else {
            wide as u16
        }
    }

    pub open spec fn clocked(self) -> Noise {
        if self.timer <= 1 {
            Noise { timer: self.period(), lfsr: self.shifted(), ..self }
        } else {
            Noise { timer: (self.timer - 1) as u32, ..self }
        }
    }

    /// What the channel puts out: its volume while it sounds and the lowest
    /// bit of the register is zero.
    pub open spec fn output(self) -> u8 {
        if self.on && self.lfsr % 2 == 0 {
            self.env.volume
        } else {
            0
        }
    }

    pub open spec fn length_stepped(self) -> Noise {
        Noise { on: self.on && !self.length.expires(), length: self.length.stepped(), ..self }
    }

    pub open spec fn envelope_stepped(self) -> Noise {
        Noise { env: self.env.stepped(), ..self }
    }

    pub open spec fn triggered(self) -> Noise {
        Noise {
            on: self.env.dac_on(),
            length: self.length.triggered(SHORT_LENGTH),
            timer: self.period(),
            lfsr: 0x7FFF,
            env: self.env.triggered(),
            ..self
        }
    }

    pub open spec fn with_length(self, v: u8) -> Noise {
        Noise { length: self.length.loaded(SHORT_LENGTH, v as u16), ..self }
    }

    pub open spec fn with_envelope(self, v: u8) -> Noise {
        Noise { env: self.env.written(v), on: self.on && self.env.written(v).dac_on(), ..self }
    }

    /// After a write to the clock register: shift in bits 7 to 4, width in
    /// bit 3, divisor code in bits 2 to 0.
    pub open spec fn with_clock(self, v: u8) -> Noise {
        Noise { shift: v / 16, narrow: (v / 8) % 2 == 1, divisor: v % 8, ..self }
    }

    /// The clock register.
    pub open spec fn clock_byte(self) -> u8 {
        (self.shift * 16 + (if self.narrow {
            8int
        } else {
            0int
        }) + self.divisor) as u8
    }

    pub open spec fn with_control(self, v: u8) -> Noise {
        let n = Noise { length: Length { on: (v / 64) % 2 == 1, ..self.length }, ..self };
        if v >= 128 {
            n.triggered()
        } else {
            n
        }
    }

    pub fn exec_period(&self) -> (p: u32)
        requires
            self.wf(),
        ensures
            p == self.period(),
    {
        let base: u32 = if self.divisor == 0 {
            8
        } else {
            self.divisor as u32 * 16
        };
        let scale = exec_pow2_16(self.shift);
        assert(base * scale <= 112 * 32768) by (nonlinear_arith)
            requires
                base <= 112,
                scale <= 32768,
        ;
        base * scale
    }

    pub fn exec_shifted(&self) -> (r: u16)
        requires
            self.wf(),
        ensures
            r == self.shifted(),
            r < 0x8000,
    {
        let new: u16 = ((self.lfsr % 2) + ((self.lfsr / 2) % 2)) % 2;
        let wide: u16 = self.lfsr / 2 + new * 0x4000;
        if self.narrow {
            wide - ((wide / 64) % 2) * 64 + new * 64
        } else {
            wide
        }
    }

    pub fn exec_clocked(&self) -> (n: Noise)
        requires
            self.wf(),
        ensures
            n == self.clocked(),
            n.wf(),
    {
        if self.timer <= 1 {
            Noise { timer: self.exec_period(), lfsr: self.exec_shifted(), ..*self }
        } else {
            Noise { timer: self.timer - 1, ..*self }
        }
    }

    pub fn exec_output(&self) -> (v: u8)
        requires
            self.wf(),
        ensures
            v == self.output(),
            v < 16,
    {
        if self.on && self.lfsr % 2 == 0 {
            self.env.volume
        } else {
            0
        }
    }

    pub fn exec_length_stepped(&self) -> (n: Noise)
        requires
            self.wf(),
        ensures
            n == self.length_stepped(),
            n.wf(),
    {
        Noise {
            on: self.on && !self.length.exec_expires(),
            length: self.length.exec_stepped(),
            ..*self
        }
    }

    pub fn exec_envelope_stepped(&self) -> (n: Noise)
        requires
            self.wf(),
        ensures
            n == self.envelope_stepped(),
            n.wf(),
    {
        Noise { env: self.env.exec_stepped(), ..*self }
    }

    pub fn exec_triggered(&self) -> (n: Noise)
        requires
            self.wf(),
        ensures
            n == self.triggered(),
            n.wf(),
    {
        Noise {
            on: self.env.exec_dac_on(),
            length: self.length.exec_triggered(SHORT_LENGTH),
            timer: self.exec_period(),
            lfsr: 0x7FFF,
            env: self.env.exec_triggered(),
            ..*self
        }
    }

    pub fn exec_with_envelope(&self, v: u8) -> (n: Noise)
        requires
            self.wf(),
        ensures
            n == self.with_envelope(v),
            n.wf(),
    {
        let env = self.env.exec_written(v);
        Noise { env, on: self.on && env.exec_dac_on(), ..*self }
    }

    pub fn exec_with_control(&self, v: u8) -> (n: Noise)
        requires
            self.wf(),
        ensures
            n == self.with_control(v),
            n.wf(),
    {
        let n = Noise { length: Length { on: (v / 64) % 2 == 1, ..self.length }, ..*self };
        if v >= 128 {
            n.exec_triggered()
        } else {
            n
        }
    }
}

} // verus!
