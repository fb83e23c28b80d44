//! The sound unit: four channels, the sequencer that clocks their lengths,
//! envelopes and sweep, and the mixer that makes stereo samples of them.
//!
//! The unit runs cycle by cycle. Samples come out as whole numbers from
//! -480 to 480, at the rate the host asks for; the host scales them.

use crate::bits::{bit, get_bit};
use crate::mbc::filled;
use crate::sound::units::{
    exec_sweep_stepped, exec_sweep_triggered, sweep_stepped, sweep_triggered, Length, Noise,
    Square, Sweep, Wave,
};
use vstd::prelude::*;

pub mod units;

verus! {

/// Cycles of the processor in a second, at single speed.
pub const CPU_FREQUENCY: u32 = 4_194_304;

/// Cycles between two steps of the sequencer, which runs at 512 Hz.
pub const SEQUENCER_PERIOD: u16 = 8192;

/// Largest sample, and minus the smallest.
pub const SAMPLE_MAX: i16 = 480;

pub const NR10: u16 = 0xFF10;

pub const NR11: u16 = 0xFF11;

pub const NR12: u16 = 0xFF12;

pub const NR13: u16 = 0xFF13;

pub const NR14: u16 = 0xFF14;

pub const NR21: u16 = 0xFF16;

pub const NR22: u16 = 0xFF17;

pub const NR23: u16 = 0xFF18;

pub const NR24: u16 = 0xFF19;

pub const NR30: u16 = 0xFF1A;

pub const NR31: u16 = 0xFF1B;

pub const NR32: u16 = 0xFF1C;

pub const NR33: u16 = 0xFF1D;

pub const NR34: u16 = 0xFF1E;

pub const NR41: u16 = 0xFF20;

pub const NR42: u16 = 0xFF21;

pub const NR43: u16 = 0xFF22;

pub const NR44: u16 = 0xFF23;

pub const NR50: u16 = 0xFF24;

pub const NR51: u16 = 0xFF25;

pub const NR52: u16 = 0xFF26;

/// First byte of the wave table.
pub const WAVE_START: u16 = 0xFF30;

/// The sequencer: a clock of 512 Hz that counts eight steps.
#[derive(Debug, Clone, Copy, PartialEq, Eq, Structural)]
pub struct Sequencer {
    /// Cycles since the last step.
    pub clock: u16,
    /// The step that comes next, 0 to 7.
    pub step: u8,
}

/// The pacing of the samples.
#[derive(Debug, Clone, Copy, PartialEq, Eq, Structural)]
pub struct Pace {
    /// Samples in a second; zero for none.
    pub sample_rate: u32,
    /// The part of a sample that has built up, in units of which
    /// `CPU_FREQUENCY` make a sample.
    pub clock: u32,
}

/// The registers and counters of the sound unit.
#[derive(Debug, Clone, Copy, PartialEq, Eq, Structural)]
pub struct SoundState {
    /// The unit is switched on.
    pub power: bool,
    pub seq: Sequencer,
    pub ch1: Square,
    pub sweep: Sweep,
    pub ch2: Square,
    pub ch3: Wave,
    pub ch4: Noise,
    /// The volume register: left volume in bits 6 to 4, right in 2 to 0.
    pub nr50: u8,
    /// The panning register: bits 7 to 4 put channels 4 to 1 on the left,
    /// bits 3 to 0 on the right.
    pub nr51: u8,
    pub pace: Pace,
}

/// What a channel adds to the mix: its output, 0 to 15, spread from -15 to
/// 15 by its converter, and nothing with the converter off.
pub open spec fn amplitude(output: u8, dac: bool) -> int {
    if dac {
        2 * output - 15
    } else {
        0
    }
}

fn exec_amplitude(output: u8, dac: bool) -> (a: i16)
    requires
        output < 16,
    ensures
        a == amplitude(output, dac),
        -15 <= a <= 15,
{
    if dac {
        2 * output as i16 - 15
    } else {
        0
    }
}

impl SoundState {
    pub open spec fn wf(self) -> bool {
        &&& self.seq.clock < SEQUENCER_PERIOD
        &&& self.seq.step < 8
        &&& self.ch1.wf()
        &&& self.sweep.wf()
        &&& self.ch2.wf()
        &&& self.ch3.wf()
        &&& self.ch4.wf()
        &&& self.pace.sample_rate <= CPU_FREQUENCY
        &&& self.pace.clock < CPU_FREQUENCY
    }

    /// The unit switched off, making samples at `sample_rate`.
    pub open spec fn off(sample_rate: u32) -> SoundState {
        SoundState {
            power: false,
            seq: Sequencer { clock: 0, step: 0 },
            ch1: Square::silent(),
            sweep: Sweep::idle(),
            ch2: Square::silent(),
            ch3: Wave::silent(),
            ch4: Noise::silent(),
            nr50: 0,
            nr51: 0,
            pace: Pace { sample_rate, clock: 0 },
        }
    }

    /// After a length clock.
    pub open spec fn length_stepped(self) -> SoundState {
        SoundState {
            ch1: self.ch1.length_stepped(),
            ch2: self.ch2.length_stepped(),
            ch3: self.ch3.length_stepped(),
            ch4: self.ch4.length_stepped(),
            ..self
        }
    }

    /// After a sweep clock.
    pub open spec fn sweep_stepped(self) -> SoundState {
        let (ch1, sweep) = sweep_stepped(self.ch1, self.sweep);
        SoundState { ch1, sweep, ..self }
    }

    /// After an envelope clock.
    pub open spec fn envelope_stepped(self) -> SoundState {
        SoundState {
            ch1: self.ch1.envelope_stepped(),
            ch2: self.ch2.envelope_stepped(),
            ch4: self.ch4.envelope_stepped(),
            ..self
        }
    }

    /// After a step of the sequencer: the lengths are clocked on every
    /// other step, which is 256 times a second, the sweep on steps 2 and 6,
    /// 128 times, and the envelopes on step 7, 64 times.
    pub open spec fn sequenced(self) -> SoundState {
        let step = self.seq.step;
        let a = if step % 2 == 0 {
            self.length_stepped()
        } else {
            self
        };
        let b = if step == 2 || step == 6 {
            a.sweep_stepped()
        } else {
            a
        };
        let c = if step == 7 {
            b.envelope_stepped()
        } else {
            b
        };
        SoundState { seq: Sequencer { clock: 0, step: ((step + 1) % 8) as u8 }, ..c }
    }

    /// After a cycle of the channels' own clocks.
    pub open spec fn clocked(self) -> SoundState {
        SoundState {
            ch1: self.ch1.clocked(),
            ch2: self.ch2.clocked(),
            ch3: self.ch3.clocked(),
            ch4: self.ch4.clocked(),
            ..self
        }
    }

    /// The registers and counters one cycle later, the pacing of samples
    /// apart. A unit that is switched off stands still.
    #[verifier::opaque]
    pub open spec fn ticked(self) -> SoundState {
        if !self.power {
            self
        } else if self.seq.clock + 1 >= SEQUENCER_PERIOD {
            self.sequenced().clocked()
        } else {
            (SoundState {
                seq: Sequencer { clock: (self.seq.clock + 1) as u16, ..self.seq },
                ..self
            }).clocked()
        }
    }

    /// What channel `k`, from 1 to 4, adds to the mix.
    pub open spec fn channel_amplitude(self, table: Seq<u8>, k: int) -> int {
        if k == 1 {
            amplitude(self.ch1.output(), self.ch1.env.dac_on())
        } else if k == 2 {
            amplitude(self.ch2.output(), self.ch2.env.dac_on())
        } else if k == 3 {
            amplitude(self.ch3.output(table), self.ch3.dac)
        } else {
            amplitude(self.ch4.output(), self.ch4.env.dac_on())
        }
    }

    /// What channel `k` adds to one side: its amplitude if the panning
    /// register puts it there.
    pub open spec fn panned_channel(self, table: Seq<u8>, left: bool, k: int) -> int {
        if bit(
            self.nr51,
            if left {
                k + 3
            } else {
                k - 1
            },
        ) {
            self.channel_amplitude(table, k)
        } else {
            0
        }
    }

    /// The sum of the channels that the panning register puts on one side.
    pub open spec fn panned(self, table: Seq<u8>, left: bool) -> int {
        self.panned_channel(table, left, 1) + self.panned_channel(table, left, 2)
            + self.panned_channel(table, left, 3) + self.panned_channel(table, left, 4)
    }

    /// The volume of one side, 1 to 8.
    pub open spec fn volume(self, left: bool) -> int {
        if left {
            (self.nr50 as int / 16) % 8 + 1
        } else {
            self.nr50 as int % 8 + 1
        }
    }

    /// The sample of one side: the channels panned there, times the volume
    /// of the side.
    pub open spec fn mixed(self, table: Seq<u8>, left: bool) -> int {
        self.panned(table, left) * self.volume(left)
    }

    /// What a read of the register at `a` returns. Bits that cannot be
    /// read are ones.
    #[verifier::opaque]
    pub open spec fn read(self, a: u16) -> u8 {
        let on = |b: bool| if b { 0x40int } else { 0int };
        if a == NR10 {
            self.sweep.byte()
        } else if a == NR11 {
            (self.ch1.duty * 64 + 0x3F) as u8
        } else if a == NR12 {
            self.ch1.env.byte()
        } else if a == NR14 {
            (0xBF + on(self.ch1.length.on)) as u8
        } else if a == NR21 {
            (self.ch2.duty * 64 + 0x3F) as u8
        } else if a == NR22 {
            self.ch2.env.byte()
        } else if a == NR24 {
            (0xBF + on(self.ch2.length.on)) as u8
        } else if a == NR30 {
            (0x7F + 2 * on(self.ch3.dac)) as u8
        } else if a == NR32 {
            (0x9F + self.ch3.level * 32) as u8
        } else if a == NR34 {
            (0xBF + on(self.ch3.length.on)) as u8
        } else if a == NR42 {
            self.ch4.env.byte()
        } else if a == NR43 {
            self.ch4.clock_byte()
        } else if a == NR44 {
            (0xBF + on(self.ch4.length.on)) as u8
        } else if a == NR50 {
            self.nr50
        } else if a == NR51 {
            self.nr51
        } else if a == NR52 {
            (0x70 + 2 * on(self.power) + (if self.ch4.on {
                8int
            } else {
                0int
            }) + (if self.ch3.on {
                4int
            } else {
                0int
            }) + (if self.ch2.on {
                2int
            } else {
                0int
            }) + (if self.ch1.on {
                1int
            } else {
                0int
            })) as u8
        } else {
            0xFF
        }
    }

    /// After a write to a register of the first channel.
    pub open spec fn written_ch1(self, a: u16, v: u8) -> SoundState {
        if a == NR10 {
            SoundState { sweep: self.sweep.written(v), ..self }
        } else if a == NR11 {
            SoundState { ch1: self.ch1.with_duty_length(v), ..self }
        } else if a == NR12 {
            SoundState { ch1: self.ch1.with_envelope(v), ..self }
        } else if a == NR13 {
            SoundState { ch1: self.ch1.with_freq_low(v), ..self }
        } else if v >= 128 {
            let (ch1, sweep) = sweep_triggered(self.ch1.with_control(v), self.sweep);
            SoundState { ch1, sweep, ..self }
        } else {
            SoundState { ch1: self.ch1.with_control(v), ..self }
        }
    }

    /// After a write to a register of the second channel.
    pub open spec fn written_ch2(self, a: u16, v: u8) -> SoundState {
        if a == NR21 {
            SoundState { ch2: self.ch2.with_duty_length(v), ..self }
        } else if a == NR22 {
            SoundState { ch2: self.ch2.with_envelope(v), ..self }
        } else if a == NR23 {
            SoundState { ch2: self.ch2.with_freq_low(v), ..self }
        } else {
            SoundState { ch2: self.ch2.with_control(v), ..self }
        }
    }

    /// After a write to a register of the third channel.
    pub open spec fn written_ch3(self, a: u16, v: u8) -> SoundState {
        if a == NR30 {
            SoundState { ch3: self.ch3.with_dac(v), ..self }
        } else if a == NR31 {
            SoundState { ch3: self.ch3.with_length(v), ..self }
        } else if a == NR32 {
            SoundState { ch3: self.ch3.with_level(v), ..self }
        } else if a == NR33 {
            SoundState { ch3: self.ch3.with_freq_low(v), ..self }
        } else {
            SoundState { ch3: self.ch3.with_control(v), ..self }
        }
    }

    /// After a write to a register of the fourth channel.
    pub open spec fn written_ch4(self, a: u16, v: u8) -> SoundState {
        if a == NR41 {
            SoundState { ch4: self.ch4.with_length(v), ..self }
        } else if a == NR42 {
            SoundState { ch4: self.ch4.with_envelope(v), ..self }
        } else if a == NR43 {
            SoundState { ch4: self.ch4.with_clock(v), ..self }
        } else {
            SoundState { ch4: self.ch4.with_control(v), ..self }
        }
    }

    /// After a write to the power switch, bit 7 of NR52: switching off
    /// clears every register, switching on starts the sequencer afresh.
    pub open spec fn with_power(self, v: u8) -> SoundState {
        if v < 128 {
            SoundState { pace: self.pace, ..Self::off(self.pace.sample_rate) }
        } else if !self.power {
            SoundState { power: true, seq: Sequencer { clock: 0, step: 0 }, ..self }
        } else {
            self
        }
    }

    /// The registers after `v` was written to the register at `a`. While
    /// the unit is switched off only the power switch can be written.
    #[verifier::opaque]
    pub open spec fn written(self, a: u16, v: u8) -> SoundState {
        if a == NR52 {
            self.with_power(v)
        } else if !self.power {
            self
        } else if NR10 <= a && a <= NR14 {
            self.written_ch1(a, v)
        } else if NR21 <= a && a <= NR24 {
            self.written_ch2(a, v)
        } else if NR30 <= a && a <= NR34 {
            self.written_ch3(a, v)
        } else if NR41 <= a && a <= NR44 {
            self.written_ch4(a, v)
        } else if a == NR50 {
            SoundState { nr50: v, ..self }
        } else if a == NR51 {
            SoundState { nr51: v, ..self }
        } else {
            self
        }
    }

    fn exec_sequenced(&self) -> (s: SoundState)
        requires
            self.wf(),
        ensures
            s == self.sequenced(),
            s.wf(),
    {
        let step = self.seq.step;
        let a = if step % 2 == 0 {
            SoundState {
                ch1: self.ch1.exec_length_stepped(),
                ch2: self.ch2.exec_length_stepped(),
                ch3: self.ch3.exec_length_stepped(),
                ch4: self.ch4.exec_length_stepped(),
                ..*self
            }
        } else {
            *self
        };
        let b = if step == 2 || step == 6 {
            let (ch1, sweep) = exec_sweep_stepped(&a.ch1, &a.sweep);
            SoundState { ch1, sweep, ..a }
        } else {
            a
        };
        let c = if step == 7 {
            SoundState {
                ch1: b.ch1.exec_envelope_stepped(),
                ch2: b.ch2.exec_envelope_stepped(),
                ch4: b.ch4.exec_envelope_stepped(),
                ..b
            }
        } else {
            b
        };
        SoundState { seq: Sequencer { clock: 0, step: (step + 1) % 8 }, ..c }
    }

    fn exec_clocked(&self) -> (s: SoundState)
        requires
            self.wf(),
        ensures
            s == self.clocked(),
            s.wf(),
    {
        SoundState {
            ch1: self.ch1.exec_clocked(),
            ch2: self.ch2.exec_clocked(),
            ch3: self.ch3.exec_clocked(),
            ch4: self.ch4.exec_clocked(),
            ..*self
        }
    }

    fn exec_ticked(&self) -> (s: SoundState)
        requires
            self.wf(),
        ensures
            s == self.ticked(),
            s.wf(),
    {
        reveal(SoundState::ticked);
        if !self.power {
            *self
        } else if self.seq.clock + 1 >= SEQUENCER_PERIOD {
            self.exec_sequenced().exec_clocked()
        } else {
            (SoundState {
                seq: Sequencer { clock: self.seq.clock + 1, ..self.seq },
                ..*self
            }).exec_clocked()
        }
    }

    fn exec_panned_channel(&self, table: &Vec<u8>, left: bool, k: u8) -> (a: i16)
        requires
            self.wf(),
            table@.len() == 16,
            1 <= k <= 4,
        ensures
            a == self.panned_channel(table@, left, k as int),
            -15 <= a <= 15,
    {
        let n: u8 = if left {
            k + 3
        } else {
            k - 1
        };
        if !get_bit(self.nr51, n) {
            0
        } else if k == 1 {
            exec_amplitude(self.ch1.exec_output(), self.ch1.env.exec_dac_on())
        } else if k == 2 {
            exec_amplitude(self.ch2.exec_output(), self.ch2.env.exec_dac_on())
        } else if k == 3 {
            exec_amplitude(self.ch3.exec_output(table), self.ch3.dac)
        } else {
            exec_amplitude(self.ch4.exec_output(), self.ch4.env.exec_dac_on())
        }
    }

    fn exec_panned(&self, table: &Vec<u8>, left: bool) -> (sum: i16)
        requires
            self.wf(),
            table@.len() == 16,
        ensures
            sum == self.panned(table@, left),
            -60 <= sum <= 60,
    {
        let a1 = self.exec_panned_channel(table, left, 1);
        let a2 = self.exec_panned_channel(table, left, 2);
        let a3 = self.exec_panned_channel(table, left, 3);
        let a4 = self.exec_panned_channel(table, left, 4);
        a1 + a2 + a3 + a4
    }

    fn exec_volume(&self, left: bool) -> (v: i16)
        ensures
            v == self.volume(left),
            1 <= v <= 8,
    {
        if left {
            ((self.nr50 / 16) % 8) as i16 + 1
        } else {
            (self.nr50 % 8) as i16 + 1
        }
    }

    fn exec_mixed(&self, table: &Vec<u8>, left: bool) -> (m: i16)
        requires
            self.wf(),
            table@.len() == 16,
        ensures
            m == self.mixed(table@, left),
            -SAMPLE_MAX <= m <= SAMPLE_MAX,
    {
        let sum = self.exec_panned(table, left);
        let volume = self.exec_volume(left);
        assert(-480 <= sum * volume <= 480) by (nonlinear_arith)
            requires
                -60 <= sum <= 60,
                1 <= volume <= 8,
        ;
        sum * volume
    }

    fn exec_read(&self, a: u16) -> (v: u8)
        requires
            self.wf(),
        ensures
            v == self.read(a),
    {
        reveal(SoundState::read);
        if a == NR10 {
            self.sweep.exec_byte()
        } else if a == NR11 {
            self.ch1.duty * 64 + 0x3F
        } else if a == NR12 {
            self.ch1.env.exec_byte()
        } else if a == NR14 {
            0xBF + if self.ch1.length.on {
                0x40
            } else {
                0
            }
        } else if a == NR21 {
            self.ch2.duty * 64 + 0x3F
        } else if a == NR22 {
            self.ch2.env.exec_byte()
        } else if a == NR24 {
            0xBF + if self.ch2.length.on {
                0x40
            } else {
                0
            }
        } else if a == NR30 {
            0x7F + if self.ch3.dac {
                0x80
            } else {
                0
            }
        } else if a == NR32 {
            0x9F + self.ch3.level * 32
        } else if a == NR34 {
            0xBF + if self.ch3.length.on {
                0x40
            } else {
                0
            }
        } else if a == NR42 {
            self.ch4.env.exec_byte()
        } else if a == NR43 {
            self.ch4.shift * 16 + (if self.ch4.narrow {
                8
            } else {
                0
            }) + self.ch4.divisor
        } else if a == NR44 {
            0xBF + if self.ch4.length.on {
                0x40
            } else {
                0
            }
        } else if a == NR50 {
            self.nr50
        } else if a == NR51 {
            self.nr51
        } else if a == NR52 {
            let mut v: u8 = 0x70;
            if self.power {
                v = v + 0x80;
            }
            if self.ch4.on {
                v = v + 8;
            }
            if self.ch3.on {
                v = v + 4;
            }
            if self.ch2.on {
                v = v + 2;
            }
            if self.ch1.on {
                v = v + 1;
            }
            v
        } else {
            0xFF
        }
    }

    fn exec_written_ch1(&self, a: u16, v: u8) -> (s: SoundState)
        requires
            self.wf(),
        ensures
            s == self.written_ch1(a, v),
            s.wf(),
    {
        if a == NR10 {
            SoundState { sweep: self.sweep.exec_written(v), ..*self }
        } else if a == NR11 {
            SoundState { ch1: self.ch1.exec_with_duty_length(v), ..*self }
        } else if a == NR12 {
            SoundState { ch1: self.ch1.exec_with_envelope(v), ..*self }
        } else if a == NR13 {
            SoundState { ch1: self.ch1.exec_with_freq_low(v), ..*self }
        } else if v >= 128 {
            let (ch1, sweep) = exec_sweep_triggered(&self.ch1.exec_with_control(v), &self.sweep);
            SoundState { ch1, sweep, ..*self }
        } else {
            SoundState { ch1: self.ch1.exec_with_control(v), ..*self }
        }
    }

    fn exec_written_ch2(&self, a: u16, v: u8) -> (s: SoundState)
        requires
            self.wf(),
        ensures
            s == self.written_ch2(a, v),
            s.wf(),
    {
        if a == NR21 {
            SoundState { ch2: self.ch2.exec_with_duty_length(v), ..*self }
        } else if a == NR22 {
            SoundState { ch2: self.ch2.exec_with_envelope(v), ..*self }
        } else if a == NR23 {
            SoundState { ch2: self.ch2.exec_with_freq_low(v), ..*self }
        } else {
            SoundState { ch2: self.ch2.exec_with_control(v), ..*self }
        }
    }

    fn exec_written_ch3(&self, a: u16, v: u8) -> (s: SoundState)
        requires
            self.wf(),
        ensures
            s == self.written_ch3(a, v),
            s.wf(),
    {
        let ch3 = self.ch3;
        if a == NR30 {
            SoundState { ch3: Wave { dac: v >= 128, on: ch3.on && v >= 128, ..ch3 }, ..*self }
        } else if a == NR31 {
            SoundState {
                ch3: Wave { length: ch3.length.exec_loaded(256, v as u16), ..ch3 },
                ..*self
            }
        } else if a == NR32 {
            SoundState { ch3: Wave { level: (v / 32) % 4, ..ch3 }, ..*self }
        } else if a == NR33 {
            SoundState { ch3: Wave { freq: (ch3.freq / 256) * 256 + v as u16, ..ch3 }, ..*self }
        } else {
            SoundState { ch3: ch3.exec_with_control(v), ..*self }
        }
    }

    fn exec_written_ch4(&self, a: u16, v: u8) -> (s: SoundState)
        requires
            self.wf(),
        ensures
            s == self.written_ch4(a, v),
            s.wf(),
    {
        let ch4 = self.ch4;
        if a == NR41 {
            SoundState {
                ch4: Noise { length: ch4.length.exec_loaded(64, v as u16), ..ch4 },
                ..*self
            }
        } else if a == NR42 {
            SoundState { ch4: ch4.exec_with_envelope(v), ..*self }
        } else if a == NR43 {
            SoundState {
                ch4: Noise { shift: v / 16, narrow: (v / 8) % 2 == 1, divisor: v % 8, ..ch4 },
                ..*self
            }
        } else {
            SoundState { ch4: ch4.exec_with_control(v), ..*self }
        }
    }

    fn exec_off(sample_rate: u32) -> (s: SoundState)
        requires
            sample_rate <= CPU_FREQUENCY,
        ensures
            s == Self::off(sample_rate),
            s.wf(),
    {
        let env = crate::sound::units::Envelope {
            initial: 0,
            up: false,
            period: 0,
            volume: 0,
            timer: 0,
        };
        let length = Length { left: 0, on: false };
        let square = Square { on: false, duty: 0, length, freq: 0, timer: 0, pos: 0, env };
        SoundState {
            power: false,
            seq: Sequencer { clock: 0, step: 0 },
            ch1: square,
            sweep: Sweep { pace: 0, down: false, shift: 0, on: false, timer: 0, shadow: 0 },
            ch2: square,
            ch3: Wave { on: false, dac: false, length, level: 0, freq: 0, timer: 0, pos: 0 },
            ch4: Noise {
                on: false,
                length,
                shift: 0,
                narrow: false,
                divisor: 0,
                timer: 0,
                lfsr: 0,
                env,
            },
            nr50: 0,
            nr51: 0,
            pace: Pace { sample_rate, clock: 0 },
        }
    }

    fn exec_written(&self, a: u16, v: u8) -> (s: SoundState)
        requires
            self.wf(),
        ensures
            s == self.written(a, v),
            s.wf(),
    {
        reveal(SoundState::written);
        if a == NR52 {
            if v < 128 {
                SoundState { pace: self.pace, ..Self::exec_off(self.pace.sample_rate) }
            } else if !self.power {
                SoundState { power: true, seq: Sequencer { clock: 0, step: 0 }, ..*self }
            } else {
                *self
            }
        } else if !self.power {
            *self
        } else if NR10 <= a && a <= NR14 {
            self.exec_written_ch1(a, v)
        } else if NR21 <= a && a <= NR24 {
            self.exec_written_ch2(a, v)
        } else if NR30 <= a && a <= NR34 {
            self.exec_written_ch3(a, v)
        } else if NR41 <= a && a <= NR44 {
            self.exec_written_ch4(a, v)
        } else if a == NR50 {
            SoundState { nr50: v, ..*self }
        } else if a == NR51 {
            SoundState { nr51: v, ..*self }
        } else {
            *self
        }
    }
}

pub struct Sound {
    pub state: SoundState,
    /// The wave table, sixteen bytes.
    pub wave: Vec<u8>,
    /// The samples made and not yet taken, left and right, oldest first.
    pub samples: Vec<(i16, i16)>,
}

/// The sound unit as a value.
pub struct SoundModel {
    pub state: SoundState,
    pub wave: Seq<u8>,
    pub samples: Seq<(i16, i16)>,
}

impl View for Sound {
    type V = SoundModel;

    open spec fn view(&self) -> SoundModel {
        SoundModel { state: self.state, wave: self.wave@, samples: self.samples@ }
    }
}

impl SoundModel {
    pub open spec fn wf(self) -> bool {
        self.state.wf() && self.wave.len() == 16
    }

    /// The unit after power-on: switched off, silent, making no samples.
    pub open spec fn initial() -> SoundModel {
        SoundModel {
            state: SoundState::off(0),
            wave: Seq::new(16, |i: int| 0u8),
            samples: Seq::empty(),
        }
    }

    /// What a read of `a` returns.
    pub open spec fn read(self, a: u16) -> u8 {
        if WAVE_START <= a && a < WAVE_START + 16 {
            self.wave[a - WAVE_START]
        } else {
            self.state.read(a)
        }
    }

    /// The unit after `v` was written to `a`.
    pub open spec fn written(self, a: u16, v: u8) -> SoundModel {
        if WAVE_START <= a && a < WAVE_START + 16 {
            SoundModel { wave: self.wave.update(a - WAVE_START, v), ..self }
        } else {
            SoundModel { state: self.state.written(a, v), ..self }
        }
    }

    /// The unit one cycle later. Each cycle adds the sample rate to the
    /// pacing clock; when that reaches the number of cycles in a second, a
    /// sample is due, and the mix of that moment is added to the samples.
    pub open spec fn tick(self) -> SoundModel {
        let s = self.state.ticked();
        let clock = s.pace.clock + s.pace.sample_rate;
        if clock >= CPU_FREQUENCY {
            SoundModel {
                state: SoundState {
                    pace: Pace { clock: (clock - CPU_FREQUENCY) as u32, ..s.pace },
                    ..s
                },
                samples: self.samples.push(
                    (s.mixed(self.wave, true) as i16, s.mixed(self.wave, false) as i16),
                ),
                ..self
            }
        } else {
            SoundModel {
                state: SoundState { pace: Pace { clock: clock as u32, ..s.pace }, ..s },
                ..self
            }
        }
    }

    /// The unit `n` cycles later.
    pub open spec fn advance(self, n: nat) -> SoundModel
        decreases n,
    {
        if n == 0 {
            self
        } else {
            self.advance((n - 1) as nat).tick()
        }
    }

    /// The unit making samples at `rate`, or at one a cycle if `rate` asks
    /// for more.
    pub open spec fn with_sample_rate(self, rate: u32) -> SoundModel {
        SoundModel {
            state: SoundState {
                pace: Pace {
                    sample_rate: if rate > CPU_FREQUENCY {
                        CPU_FREQUENCY
                    } else {
                        rate
                    },
                    clock: 0,
                },
                ..self.state
            },
            ..self
        }
    }

    /// The unit with the samples taken away.
    pub open spec fn drained(self) -> SoundModel {
        SoundModel { samples: Seq::empty(), ..self }
    }
}

impl Sound {
    pub fn new() -> (s: Sound)
        ensures
            s@ == SoundModel::initial(),
            s@.wf(),
    {
        Sound { state: SoundState::exec_off(0), wave: filled(16, 0), samples: Vec::new() }
    }

    pub fn rb(&self, a: u16) -> (v: u8)
        requires
            self@.wf(),
        ensures
            v == self@.read(a),
    {
        if WAVE_START <= a && a < WAVE_START + 16 {
            self.wave[(a - WAVE_START) as usize]
        } else {
            self.state.exec_read(a)
        }
    }

    pub fn wb(&mut self, a: u16, v: u8)
        requires
            old(self)@.wf(),
        ensures
            final(self)@ == old(self)@.written(a, v),
            final(self)@.wf(),
    {
        if WAVE_START <= a && a < WAVE_START + 16 {
            self.wave.set((a - WAVE_START) as usize, v);
        } else {
            self.state = self.state.exec_written(a, v);
        }
    }

    fn tick(&mut self)
        requires
            old(self)@.wf(),
        ensures
            final(self)@ == old(self)@.tick(),
            final(self)@.wf(),
    {
        let s = self.state.exec_ticked();
        let clock: u32 = s.pace.clock + s.pace.sample_rate;
        if clock >= CPU_FREQUENCY {
            let left = s.exec_mixed(&self.wave, true);
            let right = s.exec_mixed(&self.wave, false);
            self.samples.push((left, right));
            self.state = SoundState { pace: Pace { clock: clock - CPU_FREQUENCY, ..s.pace }, ..s };
        } else {
            self.state = SoundState { pace: Pace { clock, ..s.pace }, ..s };
        }
    }

    /// Runs the unit for `ticks` cycles.
    pub fn do_cycle(&mut self, ticks: u32)
        requires
            old(self)@.wf(),
        ensures
            final(self)@ == old(self)@.advance(ticks as nat),
            final(self)@.wf(),
    {
        let mut i: u32 = 0;
        while i < ticks
            invariant
                i <= ticks,
                self@.wf(),
                self@ == old(self)@.advance(i as nat),
            decreases ticks - i,
        {
            self.tick();
            i += 1;
        }
    }

    /// Sets the rate at which samples are made; zero for none.
    pub fn set_sample_rate(&mut self, rate: u32)
        requires
            old(self)@.wf(),
        ensures
            final(self)@ == old(self)@.with_sample_rate(rate),
            final(self)@.wf(),
    {
        let sample_rate = if rate > CPU_FREQUENCY {
            CPU_FREQUENCY
        } else {
            rate
        };
        self.state = SoundState { pace: Pace { sample_rate, clock: 0 }, ..self.state };
    }

    /// Hands the samples made so far over, oldest first.
    pub fn take_samples(&mut self) -> (samples: Vec<(i16, i16)>)
        ensures
            samples@ == old(self)@.samples,
            final(self)@ == old(self)@.drained(),
    {
        let mut samples: Vec<(i16, i16)> = Vec::new();
        core::mem::swap(&mut samples, &mut self.samples);
        samples
    }
}

/// A unit that runs for `n` cycles makes the samples that the pacing clock
/// calls for and no others: `n` times the sample rate, with what had built
/// up, divided by the cycles in a second.
pub proof fn lemma_sample_count(m: SoundModel, n: nat)
    requires
        m.state.pace.sample_rate <= CPU_FREQUENCY,
        m.state.pace.clock < CPU_FREQUENCY,
    ensures
        m.advance(n).state.pace.sample_rate == m.state.pace.sample_rate,
        m.advance(n).wave == m.wave,
        m.advance(n).samples.len() == m.samples.len() + (m.state.pace.clock + n
            * m.state.pace.sample_rate) / (CPU_FREQUENCY as int),
        m.advance(n).state.pace.clock == (m.state.pace.clock + n * m.state.pace.sample_rate) % (
        CPU_FREQUENCY as int),
    decreases n,
{
    if n > 0 {
        let before = m.advance((n - 1) as nat);
        lemma_sample_count(m, (n - 1) as nat);
        assert(before.state.ticked().pace == before.state.pace) by {
            reveal(SoundState::ticked);
        }
        let rate = m.state.pace.sample_rate as int;
        let c0 = m.state.pace.clock as int;
        assert(c0 + n * rate == (c0 + (n - 1) * rate) + rate) by (nonlinear_arith);
        let x = c0 + (n - 1) * rate;
        assert(x >= 0) by (nonlinear_arith)
            requires
                x == c0 + (n - 1) * rate,
                c0 >= 0,
                rate >= 0,
                n >= 1,
        ;
        lemma_div_step(x, rate);
    }
}

/// Adding less than a whole to a number moves its quotient by at most one.
proof fn lemma_div_step(x: int, rate: int)
    requires
        x >= 0,
        0 <= rate <= CPU_FREQUENCY,
    ensures
        x % 4194304 + rate >= 4194304 ==> (x + rate) / 4194304 == x / 4194304 + 1 && (x + rate)
            % 4194304 == x % 4194304 + rate - 4194304,
        x % 4194304 + rate < 4194304 ==> (x + rate) / 4194304 == x / 4194304 && (x + rate)
            % 4194304 == x % 4194304 + rate,
{
}

} // verus!
