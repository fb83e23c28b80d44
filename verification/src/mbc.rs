//! Cartridges and their bank controllers.
//!
//! The processor sees 32 KiB of the cartridge's ROM: a fixed window from
//! 0x0000 and a switchable one from 0x4000, each 16 KiB. Writes to these
//! addresses do not reach the ROM; they set the registers of the bank
//! controller. One bank of 8 KiB of the cartridge's RAM, or a register of
//! its clock, is seen from 0xA000. The switchable window never shows bank 0:
//! a bank number that comes to zero shows bank 1.

use vstd::prelude::*;

pub mod header;

use crate::mbc::header::{
    check_header, features, features_of, header_fault, ram_banks, ram_banks_of, rom_banks,
    rom_banks_of, CartridgeError, MbcKind, CARTRIDGE_TYPE, HEADER_END, RAM_SIZE, ROM_SIZE,
};

verus! {

/// Size of a bank of ROM.
pub const ROM_BANK_SIZE: usize = 0x4000;

/// Size of a bank of RAM.
pub const RAM_BANK_SIZE: usize = 0x2000;

/// Size of the RAM inside an MBC2, in half bytes.
pub const MBC2_RAM_SIZE: usize = 512;

/// The registers of the clock on an MBC3 cartridge.
#[derive(Debug, Clone, Copy, PartialEq, Eq, Structural)]
pub struct RtcRegs {
    pub seconds: u8,
    pub minutes: u8,
    pub hours: u8,
    /// The day counter, nine bits.
    pub days: u16,
    pub halted: bool,
    /// The day counter has overflowed.
    pub carry: bool,
}

impl RtcRegs {
    pub open spec fn zero() -> RtcRegs {
        RtcRegs { seconds: 0, minutes: 0, hours: 0, days: 0, halted: false, carry: false }
    }

    pub open spec fn wf(self) -> bool {
        self.seconds < 64 && self.minutes < 64 && self.hours < 32 && self.days < 512
    }

    /// What register `n` reads as: seconds, minutes, hours, the low eight
    /// bits of the days, and the ninth bit of the days with the halt flag in
    /// bit 6 and the carry in bit 7.
    pub open spec fn read(self, n: u8) -> u8 {
        if n == 0 {
            self.seconds
        } else if n == 1 {
            self.minutes
        } else if n == 2 {
            self.hours
        } else if n == 3 {
            (self.days % 256) as u8
        } else {
            (self.days / 256 + (if self.halted {
                64int
            } else {
                0int
            }) + (if self.carry {
                128int
            } else {
                0int
            })) as u8
        }
    }

    /// The registers after `v` was written to register `n`.
    pub open spec fn written(self, n: u8, v: u8) -> RtcRegs {
        if n == 0 {
            RtcRegs { seconds: v % 64, ..self }
        } else if n == 1 {
            RtcRegs { minutes: v % 64, ..self }
        } else if n == 2 {
            RtcRegs { hours: v % 32, ..self }
        } else if n == 3 {
            RtcRegs { days: ((self.days / 256) * 256 + v) as u16, ..self }
        } else {
            RtcRegs {
                days: ((v % 2) * 256 + self.days % 256) as u16,
                halted: (v / 64) % 2 == 1,
                carry: v / 128 == 1,
                ..self
            }
        }
    }

    /// The registers one second later. A halted clock stands still.
    pub open spec fn next_second(self) -> RtcRegs {
        if self.halted {
            self
        } else if self.seconds != 59 {
            RtcRegs { seconds: ((self.seconds + 1) % 64) as u8, ..self }
        } else if self.minutes != 59 {
            RtcRegs { seconds: 0, minutes: ((self.minutes + 1) % 64) as u8, ..self }
        } else if self.hours != 23 {
            RtcRegs { seconds: 0, minutes: 0, hours: ((self.hours + 1) % 32) as u8, ..self }
        } else if self.days != 511 {
            RtcRegs { seconds: 0, minutes: 0, hours: 0, days: (self.days + 1) as u16, ..self }
        } else {
            RtcRegs { seconds: 0, minutes: 0, hours: 0, days: 0, carry: true, ..self }
        }
    }

    pub fn new() -> (r: RtcRegs)
        ensures
            r == RtcRegs::zero(),
    {
        RtcRegs { seconds: 0, minutes: 0, hours: 0, days: 0, halted: false, carry: false }
    }

    pub fn rb(&self, n: u8) -> (v: u8)
        requires
            self.wf(),
        ensures
            v == self.read(n),
    {
        if n == 0 {
            self.seconds
        } else if n == 1 {
            self.minutes
        } else if n == 2 {
            self.hours
        } else if n == 3 {
            (self.days % 256) as u8
        } else {
            (self.days / 256) as u8 + (if self.halted {
                64
            } else {
                0
            }) + (if self.carry {
                128
            } else {
                0
            })
        }
    }

    pub fn wb(&mut self, n: u8, v: u8)
        requires
            old(self).wf(),
        ensures
            *final(self) == old(self).written(n, v),
            final(self).wf(),
    {
        if n == 0 {
            self.seconds = v % 64;
        } else if n == 1 {
            self.minutes = v % 64;
        } else if n == 2 {
            self.hours = v % 32;
        } else if n == 3 {
            self.days = (self.days / 256) * 256 + v as u16;
        } else {
            self.days = (v % 2) as u16 * 256 + self.days % 256;
            self.halted = (v / 64) % 2 == 1;
            self.carry = v / 128 == 1;
        }
    }

    /// Lets one second pass.
    pub fn tick_second(&mut self)
        requires
            old(self).wf(),
        ensures
            *final(self) == old(self).next_second(),
            final(self).wf(),
    {
        if self.halted {
        } else if self.seconds != 59 {
            self.seconds = (self.seconds + 1) % 64;
        } else if self.minutes != 59 {
            self.seconds = 0;
            self.minutes = (self.minutes + 1) % 64;
        } else if self.hours != 23 {
            self.seconds = 0;
            self.minutes = 0;
            self.hours = (self.hours + 1) % 32;
        } else if self.days != 511 {
            self.seconds = 0;
            self.minutes = 0;
            self.hours = 0;
            self.days = self.days + 1;
        } else {
            self.seconds = 0;
            self.minutes = 0;
            self.hours = 0;
            self.days = 0;
            self.carry = true;
        }
    }
}

/// The registers of a bank controller, and what the header says of the
/// cartridge.
#[derive(Debug, Clone, Copy, PartialEq, Eq, Structural)]
pub struct MbcState {
    pub kind: MbcKind,
    /// Banks of ROM, at least two.
    pub rom_banks: u16,
    /// Banks of RAM.
    pub ram_banks: u8,
    pub battery: bool,
    pub timer: bool,
    /// Whether the RAM can be read and written.
    pub ram_on: bool,
    /// The ROM bank register. On an MBC1 its five bits, never zero.
    pub rom_bank: u16,
    /// The RAM bank register. On an MBC1 the two bits that serve as RAM bank
    /// or as bits 5 and 6 of the ROM bank.
    pub ram_bank: u8,
    /// The banking mode of an MBC1.
    pub mode: bool,
    /// A register of the clock, and not RAM, is seen from 0xA000.
    pub rtc_selected: bool,
    /// Which register of the clock.
    pub rtc_reg: u8,
    /// A zero was written to the latch, and a one will latch the clock.
    pub latch_armed: bool,
    /// The running clock.
    pub rtc_live: RtcRegs,
    /// The clock as it was when it was last latched.
    pub rtc_latched: RtcRegs,
    /// RAM was written since the flag was last cleared.
    pub dirty: bool,
}

impl MbcState {
    pub open spec fn wf(self) -> bool {
        &&& 2 <= self.rom_banks <= 512
        &&& self.ram_banks <= 16
        &&& self.rom_bank < 512
        &&& self.ram_bank < 16
        &&& self.rtc_reg < 5
        &&& self.rtc_live.wf()
        &&& self.rtc_latched.wf()
    }

    /// The registers of a cartridge that was just plugged in.
    pub open spec fn initial(
        kind: MbcKind,
        rom_banks: u16,
        ram_banks: u8,
        battery: bool,
        timer: bool,
    ) -> MbcState {
        MbcState {
            kind,
            rom_banks,
            ram_banks,
            battery,
            timer,
            ram_on: false,
            rom_bank: 1,
            ram_bank: 0,
            mode: false,
            rtc_selected: false,
            rtc_reg: 0,
            latch_armed: false,
            rtc_live: RtcRegs::zero(),
            rtc_latched: RtcRegs::zero(),
            dirty: false,
        }
    }

    /// A bank number brought into the banks that the ROM has, and to bank 1
    /// where that comes to zero.
    pub open spec fn never_zero(self, bank: int) -> int {
        if bank % (self.rom_banks as int) == 0 {
            1
        } else {
            bank % (self.rom_banks as int)
        }
    }

    /// The bank in the switchable window.
    pub open spec fn window_bank(self) -> int {
        match self.kind {
            MbcKind::NoMbc => 1,
            MbcKind::Mbc1 => self.never_zero(self.ram_bank * 32 + self.rom_bank),
            _ => self.never_zero(self.rom_bank as int),
        }
    }

    /// The bank in the fixed window: bank 0, but on an MBC1 in mode 1, where
    /// the two upper bits of the bank number apply to it too.
    pub open spec fn fixed_bank(self) -> int {
        if self.kind == MbcKind::Mbc1 && self.mode {
            (self.ram_bank * 32) % (self.rom_banks as int)
        } else {
            0
        }
    }

    /// The bank of RAM seen from 0xA000. An MBC1 in mode 0 shows bank 0.
    pub open spec fn ram_bank_seen(self) -> int {
        if self.ram_banks == 0 {
            0
        } else if self.kind == MbcKind::Mbc1 && !self.mode {
            0
        } else {
            (self.ram_bank % self.ram_banks) as int
        }
    }

    /// The place in the ROM of the byte seen at `a`.
    pub open spec fn rom_index(self, a: u16) -> int {
        if a < 0x4000 {
            self.fixed_bank() * ROM_BANK_SIZE + a
        } else {
            self.window_bank() * ROM_BANK_SIZE + a % 0x4000
        }
    }

    /// The place in the RAM of the byte seen at `a`.
    pub open spec fn ram_index(self, a: u16) -> int {
        if self.kind == MbcKind::Mbc2 {
            (a % 512) as int
        } else {
            self.ram_bank_seen() * RAM_BANK_SIZE + a % 0x2000
        }
    }

    /// The size of the cartridge's RAM in bytes.
    pub open spec fn ram_size(self) -> int {
        if self.kind == MbcKind::Mbc2 {
            MBC2_RAM_SIZE as int
        } else {
            self.ram_banks * RAM_BANK_SIZE
        }
    }

    /// Whether an access at 0xA000 and above goes to a register of the clock.
    pub open spec fn clock_seen(self) -> bool {
        self.kind == MbcKind::Mbc3 && self.timer && self.rtc_selected
    }

    /// A value written to the RAM gate opens it if its low half is 0xA.
    pub open spec fn opens_ram(v: u8) -> bool {
        v % 16 == 0x0A
    }

    /// The low `modulus` values of `v` as a bank number, with one for zero.
    pub open spec fn bank_of(v: u8, modulus: int) -> u16 {
        if v % (modulus as u8) == 0 {
            1
        } else {
            (v % (modulus as u8)) as u16
        }
    }

    /// An MBC1 after a write: the RAM gate below 0x2000, then the five low
    /// bits of the ROM bank, then the two upper bits, then the mode.
    pub open spec fn written_mbc1(self, a: u16, v: u8) -> MbcState {
        if a < 0x2000 {
            MbcState { ram_on: Self::opens_ram(v), ..self }
        } else if a < 0x4000 {
            MbcState { rom_bank: Self::bank_of(v, 32), ..self }
        } else if a < 0x6000 {
            MbcState { ram_bank: v % 4, ..self }
        } else if a < 0x8000 {
            MbcState { mode: v % 2 == 1, ..self }
        } else {
            self
        }
    }

    /// An MBC2 after a write below 0x4000: bit 8 of the address tells the
    /// ROM bank, of four bits, from the RAM gate.
    pub open spec fn written_mbc2(self, a: u16, v: u8) -> MbcState {
        if a >= 0x4000 {
            self
        } else if (a / 256) % 2 == 0 {
            MbcState { ram_on: Self::opens_ram(v), ..self }
        } else {
            MbcState { rom_bank: Self::bank_of(v, 16), ..self }
        }
    }

    /// An MBC3 after a write: the RAM gate, the seven bits of the ROM bank,
    /// the choice of a RAM bank (0 to 3) or of a register of the clock (8 to
    /// 12), and the latch: a zero and then a one copy the running clock to
    /// the registers that are read.
    pub open spec fn written_mbc3(self, a: u16, v: u8) -> MbcState {
        if a < 0x2000 {
            MbcState { ram_on: Self::opens_ram(v), ..self }
        } else if a < 0x4000 {
            MbcState { rom_bank: Self::bank_of(v, 128), ..self }
        } else if a < 0x6000 {
            if v < 4 {
                MbcState { ram_bank: v, rtc_selected: false, ..self }
            } else if 8 <= v && v <= 12 && self.timer {
                MbcState { rtc_selected: true, rtc_reg: (v - 8) as u8, ..self }
            } else {
                self
            }
        } else if a < 0x8000 {
            if v == 0 {
                MbcState { latch_armed: true, ..self }
            } else if v == 1 && self.latch_armed {
                MbcState { latch_armed: false, rtc_latched: self.rtc_live, ..self }
            } else {
                MbcState { latch_armed: false, ..self }
            }
        } else {
            self
        }
    }

    /// An MBC5 after a write: the RAM gate, the low eight bits of the ROM
    /// bank below 0x3000, its ninth bit below 0x4000, and the RAM bank.
    pub open spec fn written_mbc5(self, a: u16, v: u8) -> MbcState {
        if a < 0x2000 {
            MbcState { ram_on: Self::opens_ram(v), ..self }
        } else if a < 0x3000 {
            MbcState { rom_bank: ((self.rom_bank / 256) * 256 + v) as u16, ..self }
        } else if a < 0x4000 {
            MbcState { rom_bank: ((v % 2) * 256 + self.rom_bank % 256) as u16, ..self }
        } else if a < 0x6000 {
            MbcState { ram_bank: v % 16, ..self }
        } else {
            self
        }
    }

    /// The registers after `v` was written to the ROM address `a`.
    #[verifier::opaque]
    pub open spec fn written(self, a: u16, v: u8) -> MbcState {
        match self.kind {
            MbcKind::NoMbc => self,
            MbcKind::Mbc1 => self.written_mbc1(a, v),
            MbcKind::Mbc2 => self.written_mbc2(a, v),
            MbcKind::Mbc3 => self.written_mbc3(a, v),
            MbcKind::Mbc5 => self.written_mbc5(a, v),
        }
    }

    fn exec_never_zero(&self, bank: u16) -> (r: usize)
        requires
            self.wf(),
        ensures
            r == self.never_zero(bank as int),
            1 <= r < 512,
    {
        let b = bank % self.rom_banks;
        if b == 0 {
            1
        } else {
            b as usize
        }
    }

    fn exec_rom_index(&self, a: u16) -> (r: usize)
        requires
            self.wf(),
        ensures
            r == self.rom_index(a),
    {
        if a < 0x4000 {
            let bank: usize = if self.kind == MbcKind::Mbc1 && self.mode {
                ((self.ram_bank as u16 * 32) % self.rom_banks) as usize
            } else {
                0
            };
            bank * ROM_BANK_SIZE + a as usize
        } else {
            let bank: usize = match self.kind {
                MbcKind::NoMbc => 1,
                MbcKind::Mbc1 => self.exec_never_zero(self.ram_bank as u16 * 32 + self.rom_bank),
                _ => self.exec_never_zero(self.rom_bank),
            };
            bank * ROM_BANK_SIZE + (a % 0x4000) as usize
        }
    }

    fn exec_ram_index(&self, a: u16) -> (r: usize)
        requires
            self.wf(),
        ensures
            r == self.ram_index(a),
    {
        if self.kind == MbcKind::Mbc2 {
            (a % 512) as usize
        } else {
            let bank: usize = if self.ram_banks == 0 {
                0
            } else if self.kind == MbcKind::Mbc1 && !self.mode {
                0
            } else {
                (self.ram_bank % self.ram_banks) as usize
            };
            bank * RAM_BANK_SIZE + (a % 0x2000) as usize
        }
    }

    fn bank(v: u8, modulus: u8) -> (r: u16)
        requires
            modulus > 0,
        ensures
            r == Self::bank_of(v, modulus as int),
            r < 256,
    {
        if v % modulus == 0 {
            1
        } else {
            (v % modulus) as u16
        }
    }

    fn write_mbc1(&mut self, a: u16, v: u8)
        requires
            old(self).wf(),
        ensures
            *final(self) == old(self).written_mbc1(a, v),
            final(self).wf(),
    {
        if a < 0x2000 {
            self.ram_on = v % 16 == 0x0A;
        } else if a < 0x4000 {
            self.rom_bank = Self::bank(v, 32);
        } else if a < 0x6000 {
            self.ram_bank = v % 4;
        } else if a < 0x8000 {
            self.mode = v % 2 == 1;
        }
    }

    fn write_mbc2(&mut self, a: u16, v: u8)
        requires
            old(self).wf(),
        ensures
            *final(self) == old(self).written_mbc2(a, v),
            final(self).wf(),
    {
        if a >= 0x4000 {
        } else if (a / 256) % 2 == 0 {
            self.ram_on = v % 16 == 0x0A;
        } else {
            self.rom_bank = Self::bank(v, 16);
        }
    }

    fn write_mbc3(&mut self, a: u16, v: u8)
        requires
            old(self).wf(),
        ensures
            *final(self) == old(self).written_mbc3(a, v),
            final(self).wf(),
    {
        if a < 0x2000 {
            self.ram_on = v % 16 == 0x0A;
        } else if a < 0x4000 {
            self.rom_bank = Self::bank(v, 128);
        } else if a < 0x6000 {
            if v < 4 {
                self.ram_bank = v;
                self.rtc_selected = false;
            } else if 8 <= v && v <= 12 && self.timer {
                self.rtc_selected = true;
                self.rtc_reg = v - 8;
            }
        } else if a < 0x8000 {
            if v == 0 {
                self.latch_armed = true;
            } else if v == 1 && self.latch_armed {
                self.latch_armed = false;
                self.rtc_latched = self.rtc_live;
            } else {
                self.latch_armed = false;
            }
        }
    }

    fn write_mbc5(&mut self, a: u16, v: u8)
        requires
            old(self).wf(),
        ensures
            *final(self) == old(self).written_mbc5(a, v),
            final(self).wf(),
    {
        if a < 0x2000 {
            self.ram_on = v % 16 == 0x0A;
        } else if a < 0x3000 {
            self.rom_bank = (self.rom_bank / 256) * 256 + v as u16;
        } else if a < 0x4000 {
            self.rom_bank = (v % 2) as u16 * 256 + self.rom_bank % 256;
        } else if a < 0x6000 {
            self.ram_bank = v % 16;
        }
    }

    fn write(&mut self, a: u16, v: u8)
        requires
            old(self).wf(),
        ensures
            *final(self) == old(self).written(a, v),
            final(self).wf(),
            final(self).ram_size() == old(self).ram_size(),
    {
        reveal(MbcState::written);
        match self.kind {
            MbcKind::NoMbc => {},
            MbcKind::Mbc1 => self.write_mbc1(a, v),
            MbcKind::Mbc2 => self.write_mbc2(a, v),
            MbcKind::Mbc3 => self.write_mbc3(a, v),
            MbcKind::Mbc5 => self.write_mbc5(a, v),
        }
    }
}

pub struct Cartridge {
    pub state: MbcState,
    pub rom: Vec<u8>,
    pub ram: Vec<u8>,
}

/// A cartridge as a value.
pub struct CartridgeModel {
    pub state: MbcState,
    pub rom: Seq<u8>,
    pub ram: Seq<u8>,
}

impl View for Cartridge {
    type V = CartridgeModel;

    open spec fn view(&self) -> CartridgeModel {
        CartridgeModel { state: self.state, rom: self.rom@, ram: self.ram@ }
    }
}

impl CartridgeModel {
    pub open spec fn wf(self) -> bool {
        &&& self.state.wf()
        &&& self.rom.len() >= HEADER_END
        &&& self.ram.len() == self.state.ram_size()
    }

    /// The cartridge that an accepted image makes: its RAM all zero, its
    /// registers as after power-on.
    pub open spec fn plugged_in(image: Seq<u8>) -> CartridgeModel {
        let f = features_of(image[CARTRIDGE_TYPE as int])->0;
        let state = MbcState::initial(
            f.kind,
            rom_banks_of(image[ROM_SIZE as int])->0,
            if f.ram {
                ram_banks_of(image[RAM_SIZE as int])
            } else {
                0
            },
            f.battery,
            f.timer,
        );
        CartridgeModel {
            state,
            rom: image,
            ram: Seq::new(state.ram_size() as nat, |i: int| 0u8),
        }
    }

    /// What a read of the ROM address `a` returns: the byte of the bank in
    /// the window that `a` lies in, and 0xFF beyond the end of the image.
    #[verifier::opaque]
    pub open spec fn read_rom(self, a: u16) -> u8 {
        if self.state.rom_index(a) < self.rom.len() {
            self.rom[self.state.rom_index(a)]
        } else {
            0xFF
        }
    }

    /// The cartridge after `v` was written to the ROM address `a`.
    pub open spec fn written_rom(self, a: u16, v: u8) -> CartridgeModel {
        CartridgeModel { state: self.state.written(a, v), ..self }
    }

    /// What a read of the RAM address `a` returns. RAM that is switched off
    /// or not there reads 0xFF. The RAM of an MBC2 holds half bytes, and
    /// their upper halves read as ones.
    #[verifier::opaque]
    pub open spec fn read_ram(self, a: u16) -> u8 {
        if !self.state.ram_on {
            0xFF
        } else if self.state.clock_seen() {
            self.state.rtc_latched.read(self.state.rtc_reg)
        } else if self.state.ram_index(a) < self.ram.len() {
            if self.state.kind == MbcKind::Mbc2 {
                (0xF0 + self.ram[self.state.ram_index(a)] % 16) as u8
            } else {
                self.ram[self.state.ram_index(a)]
            }
        } else {
            0xFF
        }
    }

    /// The cartridge after `v` was written to the RAM address `a`.
    #[verifier::opaque]
    pub open spec fn written_ram(self, a: u16, v: u8) -> CartridgeModel {
        if !self.state.ram_on {
            self
        } else if self.state.clock_seen() {
            CartridgeModel {
                state: MbcState {
                    rtc_live: self.state.rtc_live.written(self.state.rtc_reg, v),
                    ..self.state
                },
                ..self
            }
        } else if self.state.ram_index(a) < self.ram.len() {
            CartridgeModel {
                state: MbcState { dirty: true, ..self.state },
                ram: self.ram.update(
                    self.state.ram_index(a),
                    if self.state.kind == MbcKind::Mbc2 {
                        v % 16
                    } else {
                        v
                    },
                ),
                ..self
            }
        } else {
            self
        }
    }

    /// The cartridge one second later.
    pub open spec fn next_second(self) -> CartridgeModel {
        CartridgeModel {
            state: MbcState { rtc_live: self.state.rtc_live.next_second(), ..self.state },
            ..self
        }
    }

    /// The cartridge with the RAM that was saved earlier put back. RAM of
    /// another size is not taken.
    pub open spec fn with_ram(self, saved: Seq<u8>) -> CartridgeModel {
        if saved.len() == self.ram.len() {
            CartridgeModel { ram: saved, ..self }
        } else {
            self
        }
    }
}

/// A vector of `n` bytes, all `value`.
pub fn filled(n: usize, value: u8) -> (v: Vec<u8>)
    ensures
        v@ == Seq::new(n as nat, |i: int| value),
{
    let mut v: Vec<u8> = Vec::new();
    let mut i: usize = 0;
    while i < n
        invariant
            i <= n,
            v@ == Seq::new(i as nat, |k: int| value),
        decreases n - i,
    {
        v.push(value);
        assert(v@ =~= Seq::new((i + 1) as nat, |k: int| value));
        i += 1;
    }
    v
}

impl Cartridge {
    /// Makes a cartridge of an image, if nothing is wrong with its header.
    pub fn load(image: Vec<u8>, skip_checksum: bool) -> (r: Result<Cartridge, CartridgeError>)
        ensures
            match header_fault(image@, skip_checksum) {
                Some(e) => r matches Err(f) && f == e,
                None => r matches Ok(c) && c@ == CartridgeModel::plugged_in(image@) && c@.wf(),
            },
    {
        match check_header(image.as_slice(), skip_checksum) {
            Err(e) => { return Err(e); },
            Ok(()) => {},
        }
        let f = features(image[CARTRIDGE_TYPE]).unwrap();
        let rom_banks = rom_banks(image[ROM_SIZE]).unwrap();
        let ram_banks: u8 = if f.ram {
            ram_banks(image[RAM_SIZE])
        } else {
            0
        };
        let ram_size: usize = if f.kind == MbcKind::Mbc2 {
            MBC2_RAM_SIZE
        } else {
            ram_banks as usize * RAM_BANK_SIZE
        };
        let state = MbcState {
            kind: f.kind,
            rom_banks,
            ram_banks,
            battery: f.battery,
            timer: f.timer,
            ram_on: false,
            rom_bank: 1,
            ram_bank: 0,
            mode: false,
            rtc_selected: false,
            rtc_reg: 0,
            latch_armed: false,
            rtc_live: RtcRegs::new(),
            rtc_latched: RtcRegs::new(),
            dirty: false,
        };
        Ok(Cartridge { state, rom: image, ram: filled(ram_size, 0) })
    }

    pub fn read_rom(&self, a: u16) -> (v: u8)
        requires
            self@.wf(),
        ensures
            v == self@.read_rom(a),
    {
        reveal(CartridgeModel::read_rom);
        let i = self.state.exec_rom_index(a);
        if i < self.rom.len() {
            self.rom[i]
        } else {
            0xFF
        }
    }

    pub fn write_rom(&mut self, a: u16, v: u8)
        requires
            old(self)@.wf(),
        ensures
            final(self)@ == old(self)@.written_rom(a, v),
            final(self)@.wf(),
    {
        self.state.write(a, v);
    }

    pub fn read_ram(&self, a: u16) -> (v: u8)
        requires
            self@.wf(),
        ensures
            v == self@.read_ram(a),
    {
        reveal(CartridgeModel::read_ram);
        if !self.state.ram_on {
            return 0xFF;
        }
        if self.state.kind == MbcKind::Mbc3 && self.state.timer && self.state.rtc_selected {
            return self.state.rtc_latched.rb(self.state.rtc_reg);
        }
        let i = self.state.exec_ram_index(a);
        if i < self.ram.len() {
            if self.state.kind == MbcKind::Mbc2 {
                0xF0 + self.ram[i] % 16
            } else {
                self.ram[i]
            }
        } else {
            0xFF
        }
    }

    pub fn write_ram(&mut self, a: u16, v: u8)
        requires
            old(self)@.wf(),
        ensures
            final(self)@ == old(self)@.written_ram(a, v),
            final(self)@.wf(),
    {
        reveal(CartridgeModel::written_ram);
        if !self.state.ram_on {
            return ;
        }
        if self.state.kind == MbcKind::Mbc3 && self.state.timer && self.state.rtc_selected {
            self.state.rtc_live.wb(self.state.rtc_reg, v);
            return ;
        }
        let i = self.state.exec_ram_index(a);
        if i < self.ram.len() {
            let stored = if self.state.kind == MbcKind::Mbc2 {
                v % 16
            } else {
                v
            };
            self.ram.set(i, stored);
            self.state.dirty = true;
        }
    }

    /// Lets one second pass on the cartridge's clock.
    pub fn tick_second(&mut self)
        requires
            old(self)@.wf(),
        ensures
            final(self)@ == old(self)@.next_second(),
            final(self)@.wf(),
    {
        self.state.rtc_live.tick_second();
    }

    /// Whether the cartridge keeps its RAM when the power is off.
    pub fn is_battery_backed(&self) -> (r: bool)
        ensures
            r == self@.state.battery,
    {
        self.state.battery
    }

    /// Whether RAM was written since this was last asked.
    pub fn check_and_reset_ram_updated(&mut self) -> (r: bool)
        ensures
            r == old(self)@.state.dirty,
            final(self)@ == (CartridgeModel {
                state: MbcState { dirty: false, ..old(self)@.state },
                ..old(self)@
            }),
    {
        let r = self.state.dirty;
        self.state.dirty = false;
        r
    }

    /// A copy of the RAM, to be saved.
    pub fn dump_ram(&self) -> (saved: Vec<u8>)
        ensures
            saved@ == self@.ram,
    {
        let mut saved: Vec<u8> = Vec::new();
        let mut i: usize = 0;
        while i < self.ram.len()
            invariant
                i <= self.ram.len(),
                saved@ == self.ram@.take(i as int),
            decreases self.ram.len() - i,
        {
            saved.push(self.ram[i]);
            assert(saved@ =~= self.ram@.take(i + 1));
            i += 1;
        }
        assert(self.ram@.take(i as int) =~= self.ram@);
        saved
    }

    /// Puts back RAM that was saved earlier. Returns whether it was taken:
    /// it must have the size of the cartridge's RAM.
    pub fn load_ram(&mut self, saved: Vec<u8>) -> (taken: bool)
        requires
            old(self)@.wf(),
        ensures
            taken == (saved@.len() == old(self)@.ram.len()),
            final(self)@ == old(self)@.with_ram(saved@),
            final(self)@.wf(),
    {
        if saved.len() == self.ram.len() {
            self.ram = saved;
            true
        } else {
            false
        }
    }
}

/// On an MBC1, choosing bank 0 with the five-bit register puts bank 1 in the
/// switchable window, as long as the two upper bits of the bank number are
/// zero: a read there returns the byte of bank 1.
pub proof fn lemma_mbc1_bank_zero_is_bank_one(c: CartridgeModel, a: u16, v: u8, at: u16)
    requires
        c.wf(),
        c.state.kind == MbcKind::Mbc1,
        c.state.ram_bank == 0,
        0x2000 <= a < 0x4000,
        v % 32 == 0,
        0x4000 <= at < 0x8000,
        c.rom.len() >= 2 * ROM_BANK_SIZE,
    ensures
        c.written_rom(a, v).state.window_bank() == 1,
        c.written_rom(a, v).read_rom(at) == c.rom[ROM_BANK_SIZE + (at - 0x4000)],
{
    reveal(MbcState::written);
    reveal(CartridgeModel::read_rom);
    vstd::arithmetic::div_mod::lemma_small_mod(1, c.state.rom_banks as nat);
}

/// The switchable window never shows bank 0, and the bank it shows is one
/// that the header gives the ROM.
pub proof fn lemma_window_bank_in_range(s: MbcState)
    requires
        s.wf(),
    ensures
        1 <= s.window_bank() < s.rom_banks,
{
}

/// RAM that is switched on reads back what was written to it, and a write to
/// one place leaves every other place as it was. This holds of whole bytes,
/// so not of the RAM of an MBC2, nor while the clock is seen in its place.
pub proof fn lemma_ram_read_back(c: CartridgeModel, a: u16, v: u8, b: u16)
    requires
        c.wf(),
        c.state.ram_on,
        !c.state.clock_seen(),
        c.state.kind != MbcKind::Mbc2,
        c.state.ram_banks > 0,
    ensures
        c.written_ram(a, v).read_ram(a) == v,
        b % 0x2000 != a % 0x2000 ==> c.written_ram(a, v).read_ram(b) == c.read_ram(b),
{
    reveal(CartridgeModel::read_ram);
    reveal(CartridgeModel::written_ram);
    assert(c.state.ram_index(a) < c.ram.len()) by (nonlinear_arith)
        requires
            c.state.ram_index(a) == c.state.ram_bank_seen() * 0x2000 + a % 0x2000,
            0 <= c.state.ram_bank_seen() < c.state.ram_banks,
            c.ram.len() == c.state.ram_banks * 0x2000,
            0 <= a % 0x2000 < 0x2000,
    ;
}

} // verus!
