//! The memory map: which part of the machine answers at which address, the
//! interrupt registers, work memory, and the transfers that copy memory by
//! themselves.
//!
//! | addresses     | what answers                                   |
//! |---------------|------------------------------------------------|
//! | 0000 - 7FFF   | the cartridge's ROM and its bank controller    |
//! | 8000 - 9FFF   | video memory                                   |
//! | A000 - BFFF   | the cartridge's RAM                            |
//! | C000 - CFFF   | work memory, bank 0                            |
//! | D000 - DFFF   | work memory, the bank that SVBK selects        |
//! | E000 - FDFF   | the same as C000 - DDFF                        |
//! | FE00 - FE9F   | the sprite table                               |
//! | FEA0 - FEFF   | nothing                                        |
//! | FF00 - FF7F   | registers                                      |
//! | FF80 - FFFE   | high memory                                    |
//! | FFFF          | the interrupt enable register                  |

use crate::gbmode::{GbMode, GbSpeed};
use crate::gpu::{Gpu, GpuEvents, GpuModel};
use crate::keypad::{Keypad, KeypadKey};
use crate::mbc::{filled, Cartridge, CartridgeModel};
use crate::serial::{Serial, SerialModel};
use crate::sound::{Sound, SoundModel};
use crate::timer::Timer;
use vstd::prelude::*;

pub mod laws;

verus! {

/// Size of work memory: eight banks of 4 KiB.
pub const WRAM_SIZE: usize = 0x8000;

/// Size of high memory.
pub const HRAM_SIZE: usize = 0x7F;

/// Cycles for which a transfer to the sprite table hides the table: 160
/// machine cycles.
pub const OAM_DMA_CYCLES: u16 = 640;

/// Address of the joypad register.
pub const JOYP: u16 = 0xFF00;

/// Address of the interrupt flags.
pub const IF: u16 = 0xFF0F;

/// Address of the register that starts a transfer to the sprite table.
pub const DMA: u16 = 0xFF46;

/// Address of the speed switch.
pub const KEY1: u16 = 0xFF4D;

/// Address of the high byte of the source of a transfer to video memory.
pub const HDMA1: u16 = 0xFF51;

/// Address of the low byte of the source.
pub const HDMA2: u16 = 0xFF52;

/// Address of the high byte of the destination.
pub const HDMA3: u16 = 0xFF53;

/// Address of the low byte of the destination.
pub const HDMA4: u16 = 0xFF54;

/// Address of the register that starts, stops and reports a transfer to
/// video memory.
pub const HDMA5: u16 = 0xFF55;

/// Address of the work memory bank register.
pub const SVBK: u16 = 0xFF70;

/// Address of the interrupt enable register.
pub const IE: u16 = 0xFFFF;

/// The five interrupts, in the order of their priority.
#[derive(Debug, Clone, Copy, PartialEq, Eq, Structural)]
pub enum Interrupt {
    VBlank,
    Stat,
    Timer,
    Serial,
    Joypad,
}

impl Interrupt {
    /// The bit of the interrupt in IF and IE.
    pub open spec fn index(self) -> int {
        match self {
            Interrupt::VBlank => 0,
            Interrupt::Stat => 1,
            Interrupt::Timer => 2,
            Interrupt::Serial => 3,
            Interrupt::Joypad => 4,
        }
    }

    /// The address at which the service of the interrupt begins.
    pub open spec fn vector(self) -> u16 {
        (0x0040 + 8 * self.index()) as u16
    }

    pub fn exec_vector(self) -> (a: u16)
        ensures
            a == self.vector(),
    {
        match self {
            Interrupt::VBlank => 0x0040,
            Interrupt::Stat => 0x0048,
            Interrupt::Timer => 0x0050,
            Interrupt::Serial => 0x0058,
            Interrupt::Joypad => 0x0060,
        }
    }
}

/// The interrupts that are requested: the register IF, bit by bit.
#[derive(Debug, Clone, Copy, PartialEq, Eq, Structural)]
pub struct IntFlags {
    pub vblank: bool,
    pub stat: bool,
    pub timer: bool,
    pub serial: bool,
    pub joypad: bool,
}

impl IntFlags {
    pub open spec fn none() -> IntFlags {
        IntFlags { vblank: false, stat: false, timer: false, serial: false, joypad: false }
    }

    /// The register IF. Its upper three bits read as ones.
    pub open spec fn byte(self) -> u8 {
        (0xE0 + (if self.joypad {
            16int
        } else {
            0int
        }) + (if self.serial {
            8int
        } else {
            0int
        }) + (if self.timer {
            4int
        } else {
            0int
        }) + (if self.stat {
            2int
        } else {
            0int
        }) + (if self.vblank {
            1int
        } else {
            0int
        })) as u8
    }

    /// The flags that a byte written to IF sets.
    pub open spec fn of_byte(v: u8) -> IntFlags {
        IntFlags {
            vblank: v % 2 == 1,
            stat: (v / 2) % 2 == 1,
            timer: (v / 4) % 2 == 1,
            serial: (v / 8) % 2 == 1,
            joypad: (v / 16) % 2 == 1,
        }
    }

    /// Whether `which` is requested.
    pub open spec fn has(self, which: Interrupt) -> bool {
        match which {
            Interrupt::VBlank => self.vblank,
            Interrupt::Stat => self.stat,
            Interrupt::Timer => self.timer,
            Interrupt::Serial => self.serial,
            Interrupt::Joypad => self.joypad,
        }
    }

    /// The flags with `which` no longer requested.
    pub open spec fn without(self, which: Interrupt) -> IntFlags {
        match which {
            Interrupt::VBlank => IntFlags { vblank: false, ..self },
            Interrupt::Stat => IntFlags { stat: false, ..self },
            Interrupt::Timer => IntFlags { timer: false, ..self },
            Interrupt::Serial => IntFlags { serial: false, ..self },
            Interrupt::Joypad => IntFlags { joypad: false, ..self },
        }
    }

    /// These requests and those of `other`.
    pub open spec fn or(self, other: IntFlags) -> IntFlags {
        IntFlags {
            vblank: self.vblank || other.vblank,
            stat: self.stat || other.stat,
            timer: self.timer || other.timer,
            serial: self.serial || other.serial,
            joypad: self.joypad || other.joypad,
        }
    }

    /// The requested interrupt of the highest priority among those that
    /// `inte`, the register IE, enables.
    pub open spec fn pending(self, inte: u8) -> Option<Interrupt> {
        let enabled = Self::of_byte(inte);
        if self.vblank && enabled.vblank {
            Some(Interrupt::VBlank)
        } else if self.stat && enabled.stat {
            Some(Interrupt::Stat)
        } else if self.timer && enabled.timer {
            Some(Interrupt::Timer)
        } else if self.serial && enabled.serial {
            Some(Interrupt::Serial)
        } else if self.joypad && enabled.joypad {
            Some(Interrupt::Joypad)
        } else {
            None
        }
    }

    pub fn exec_byte(&self) -> (v: u8)
        ensures
            v == self.byte(),
    {
        let mut v: u8 = 0xE0;
        if self.joypad {
            v = v + 16;
        }
        if self.serial {
            v = v + 8;
        }
        if self.timer {
            v = v + 4;
        }
        if self.stat {
            v = v + 2;
        }
        if self.vblank {
            v = v + 1;
        }
        v
    }

    pub fn from_byte(v: u8) -> (f: IntFlags)
        ensures
            f == Self::of_byte(v),
    {
        IntFlags {
            vblank: v % 2 == 1,
            stat: (v / 2) % 2 == 1,
            timer: (v / 4) % 2 == 1,
            serial: (v / 8) % 2 == 1,
            joypad: (v / 16) % 2 == 1,
        }
    }

    pub fn exec_without(&self, which: Interrupt) -> (f: IntFlags)
        ensures
            f == self.without(which),
    {
        match which {
            Interrupt::VBlank => IntFlags { vblank: false, ..*self },
            Interrupt::Stat => IntFlags { stat: false, ..*self },
            Interrupt::Timer => IntFlags { timer: false, ..*self },
            Interrupt::Serial => IntFlags { serial: false, ..*self },
            Interrupt::Joypad => IntFlags { joypad: false, ..*self },
        }
    }

    pub fn exec_or(&self, other: IntFlags) -> (f: IntFlags)
        ensures
            f == self.or(other),
    {
        IntFlags {
            vblank: self.vblank || other.vblank,
            stat: self.stat || other.stat,
            timer: self.timer || other.timer,
            serial: self.serial || other.serial,
            joypad: self.joypad || other.joypad,
        }
    }

    pub fn exec_pending(&self, inte: u8) -> (r: Option<Interrupt>)
        ensures
            r == self.pending(inte),
    {
        let enabled = Self::from_byte(inte);
        if self.vblank && enabled.vblank {
            Some(Interrupt::VBlank)
        } else if self.stat && enabled.stat {
            Some(Interrupt::Stat)
        } else if self.timer && enabled.timer {
            Some(Interrupt::Timer)
        } else if self.serial && enabled.serial {
            Some(Interrupt::Serial)
        } else if self.joypad && enabled.joypad {
            Some(Interrupt::Joypad)
        } else {
            None
        }
    }
}

/// Taking a request back leaves every other request as it is.
pub proof fn lemma_request_taken_back(f: IntFlags, irq: Interrupt, other: Interrupt)
    ensures
        !f.without(irq).has(irq),
        other != irq ==> f.without(irq).has(other) == f.has(other),
{
}

/// A transfer to video memory, in blocks of sixteen bytes.
#[derive(Debug, Clone, Copy, PartialEq, Eq, Structural)]
pub struct Hdma {
    /// Where the next block comes from.
    pub src: u16,
    /// Where in the video memory bank the next block goes, from 0 to
    /// 0x1FF0.
    pub dst: u16,
    /// A transfer runs that moves one block in every horizontal blank.
    pub active: bool,
    /// Blocks still to move.
    pub left: u8,
}

impl Hdma {
    pub open spec fn wf(self) -> bool {
        self.dst < 0x2000 && self.left <= 128
    }

    pub open spec fn idle() -> Hdma {
        Hdma { src: 0, dst: 0, active: false, left: 0 }
    }

    /// After a write to one of the four address registers. The low four
    /// bits of both addresses are zero, and the destination lies in video
    /// memory.
    pub open spec fn with_address(self, a: u16, v: u8) -> Hdma {
        if a == HDMA1 {
            Hdma { src: (v * 256 + self.src % 256) as u16, ..self }
        } else if a == HDMA2 {
            Hdma { src: ((self.src / 256) * 256 + (v / 16) * 16) as u16, ..self }
        } else if a == HDMA3 {
            Hdma { dst: ((v % 32) * 256 + self.dst % 256) as u16, ..self }
        } else {
            Hdma { dst: ((self.dst / 256) * 256 + (v / 16) * 16) as u16, ..self }
        }
    }

    /// What HDMA5 reads as: the blocks left less one, with bit 7 set while
    /// no transfer runs; 0xFF once a transfer is complete.
    pub open spec fn status(self) -> u8 {
        if self.left == 0 {
            0xFF
        } else if self.active {
            (self.left - 1) as u8
        } else {
            (0x80 + self.left - 1) as u8
        }
    }

    /// After one block was moved.
    pub open spec fn after_block(self) -> Hdma {
        Hdma {
            src: ((self.src + 16) % 0x10000) as u16,
            dst: ((self.dst + 16) % 0x2000) as u16,
            left: (self.left - 1) as u8,
            active: self.active && self.left > 1,
        }
    }

    fn exec_with_address(&self, a: u16, v: u8) -> (h: Hdma)
        requires
            self.wf(),
        ensures
            h == self.with_address(a, v),
            h.wf(),
    {
        if a == HDMA1 {
            Hdma { src: v as u16 * 256 + self.src % 256, ..*self }
        } else if a == HDMA2 {
            Hdma { src: (self.src / 256) * 256 + (v as u16 / 16) * 16, ..*self }
        } else if a == HDMA3 {
            Hdma { dst: (v as u16 % 32) * 256 + self.dst % 256, ..*self }
        } else {
            Hdma { dst: (self.dst / 256) * 256 + (v as u16 / 16) * 16, ..*self }
        }
    }

    fn exec_status(&self) -> (v: u8)
        requires
            self.wf(),
        ensures
            v == self.status(),
    {
        if self.left == 0 {
            0xFF
        } else if self.active {
            self.left - 1
        } else {
            0x80 + (self.left - 1)
        }
    }

    fn exec_after_block(&self) -> (h: Hdma)
        requires
            self.wf(),
            self.left > 0,
        ensures
            h == self.after_block(),
            h.wf(),
    {
        Hdma {
            src: self.src.wrapping_add(16),
            dst: (self.dst + 16) % 0x2000,
            left: self.left - 1,
            active: self.active && self.left > 1,
        }
    }
}

/// The registers of the memory map itself.
#[derive(Debug, Clone, Copy, PartialEq, Eq, Structural)]
pub struct MmuRegs {
    pub gbmode: GbMode,
    pub speed: GbSpeed,
    /// Bit 0 of KEY1: the next STOP changes the speed.
    pub speed_switch_armed: bool,
    /// The register IE.
    pub inte: u8,
    pub intf: IntFlags,
    /// The bank of work memory seen from 0xD000, 1 to 7.
    pub wram_bank: u8,
    pub hdma: Hdma,
    /// Cycles for which the sprite table stays hidden.
    pub oam_dma_left: u16,
}

impl MmuRegs {
    pub open spec fn wf(self) -> bool {
        1 <= self.wram_bank <= 7 && self.hdma.wf()
    }

    pub open spec fn initial(gbmode: GbMode) -> MmuRegs {
        MmuRegs {
            gbmode,
            speed: GbSpeed::Single,
            speed_switch_armed: false,
            inte: 0,
            intf: IntFlags::none(),
            wram_bank: 1,
            hdma: Hdma::idle(),
            oam_dma_left: 0,
        }
    }

    pub open spec fn color(self) -> bool {
        self.gbmode == GbMode::Color
    }

    /// The register KEY1: bit 7 tells double speed, bit 0 that a change of
    /// speed is armed; the bits between read as ones.
    pub open spec fn key1(self) -> u8 {
        (0x7E + (if self.speed == GbSpeed::Double {
            0x80int
        } else {
            0int
        }) + (if self.speed_switch_armed {
            1int
        } else {
            0int
        })) as u8
    }

    /// The place in work memory of the byte seen at `a`, an address from
    /// 0xC000 to 0xFDFF.
    pub open spec fn wram_index(self, a: u16) -> int {
        let off = (a - 0xC000) % 0x2000;
        if off < 0x1000 {
            off
        } else {
            self.wram_bank * 0x1000 + (off - 0x1000)
        }
    }

    /// The registers with the speed changed, if a change was armed.
    pub open spec fn speed_switched(self) -> MmuRegs {
        if self.speed_switch_armed {
            MmuRegs {
                speed: if self.speed == GbSpeed::Double {
                    GbSpeed::Single
                } else {
                    GbSpeed::Double
                },
                speed_switch_armed: false,
                ..self
            }
        } else {
            self
        }
    }

    fn exec_wram_index(&self, a: u16) -> (i: usize)
        requires
            self.wf(),
            0xC000 <= a < 0xFE00,
        ensures
            i == self.wram_index(a),
            i < WRAM_SIZE,
    {
        let off: usize = ((a - 0xC000) % 0x2000) as usize;
        if off < 0x1000 {
            off
        } else {
            self.wram_bank as usize * 0x1000 + (off - 0x1000)
        }
    }

    fn exec_key1(&self) -> (v: u8)
        ensures
            v == self.key1(),
    {
        let mut v: u8 = 0x7E;
        if self.speed == GbSpeed::Double {
            v = v + 0x80;
        }
        if self.speed_switch_armed {
            v = v + 1;
        }
        v
    }
}

pub struct Mmu {
    pub regs: MmuRegs,
    pub wram: Vec<u8>,
    pub hram: Vec<u8>,
    pub cart: Cartridge,
    pub gpu: Gpu,
    pub timer: Timer,
    pub keypad: Keypad,
    pub serial: Serial,
    pub sound: Sound,
}

/// The memory map as a value.
pub struct MmuModel {
    pub regs: MmuRegs,
    pub wram: Seq<u8>,
    pub hram: Seq<u8>,
    pub cart: CartridgeModel,
    pub gpu: GpuModel,
    pub timer: Timer,
    pub keypad: Keypad,
    pub serial: SerialModel,
    pub sound: SoundModel,
}

impl View for Mmu {
    type V = MmuModel;

    open spec fn view(&self) -> MmuModel {
        MmuModel {
            regs: self.regs,
            wram: self.wram@,
            hram: self.hram@,
            cart: self.cart@,
            gpu: self.gpu@,
            timer: self.timer,
            keypad: self.keypad,
            serial: self.serial@,
            sound: self.sound@,
        }
    }
}

impl MmuModel {
    #[verifier::opaque]
    pub open spec fn wf(self) -> bool {
        &&& self.regs.wf()
        &&& self.wram.len() == WRAM_SIZE
        &&& self.hram.len() == HRAM_SIZE
        &&& self.cart.wf()
        &&& self.gpu.wf()
        &&& self.sound.wf()
    }

    /// The machine with `cart` plugged in, before anything was written to
    /// its registers: memory all zero.
    pub open spec fn blank(cart: CartridgeModel, gbmode: GbMode) -> MmuModel {
        MmuModel {
            regs: MmuRegs::initial(gbmode),
            wram: Seq::new(WRAM_SIZE as nat, |i: int| 0u8),
            hram: Seq::new(HRAM_SIZE as nat, |i: int| 0u8),
            cart,
            gpu: GpuModel::initial(gbmode),
            timer: Timer::initial(),
            keypad: Keypad::initial(),
            serial: SerialModel::initial(),
            sound: SoundModel::initial(),
        }
    }

    /// A register that only the colour machine has.
    pub open spec fn is_color_register(a: u16) -> bool {
        a == KEY1 || (HDMA1 <= a && a <= HDMA5) || a == SVBK
    }

    /// What a read of a register of the memory map itself returns.
    pub open spec fn read_own(self, a: u16) -> u8 {
        if a == IF {
            self.regs.intf.byte()
        } else if a == IE {
            self.regs.inte
        } else if !self.regs.color() {
            0xFF
        } else if a == KEY1 {
            self.regs.key1()
        } else if a == HDMA5 {
            self.regs.hdma.status()
        } else if a == SVBK {
            self.regs.wram_bank
        } else {
            0xFF
        }
    }

    /// What a read of `a` returns. Where nothing answers, and in the sprite
    /// table while a transfer to it hides it, a read returns 0xFF.
    #[verifier::opaque]
    pub open spec fn read(self, a: u16) -> u8 {
        if a < 0x8000 {
            self.cart.read_rom(a)
        } else if a < 0xA000 {
            self.gpu.read(a)
        } else if a < 0xC000 {
            self.cart.read_ram(a)
        } else if a < 0xFE00 {
            self.wram[self.regs.wram_index(a)]
        } else if a < 0xFEA0 {
            if self.regs.oam_dma_left > 0 {
                0xFF
            } else {
                self.gpu.read(a)
            }
        } else if a < 0xFF00 {
            0xFF
        } else if a == JOYP {
            self.keypad.read()
        } else if a == 0xFF01 || a == 0xFF02 {
            self.serial.read(a)
        } else if 0xFF04 <= a && a <= 0xFF07 {
            self.timer.read(a)
        } else if 0xFF10 <= a && a <= 0xFF3F {
            self.sound.read(a)
        } else if a == DMA {
            0xFF
        } else if a == IF || a == IE || Self::is_color_register(a) {
            self.read_own(a)
        } else if (0xFF40 <= a && a <= 0xFF4F) || (0xFF68 <= a && a <= 0xFF6B) {
            self.gpu.read(a)
        } else if 0xFF80 <= a && a <= 0xFFFE {
            self.hram[a - 0xFF80]
        } else {
            0xFF
        }
    }

    /// The machine after byte `k` of a block was copied to video memory:
    /// read through the memory map, written to the bank that the
    /// processor sees.
    pub open spec fn vram_byte_copied(self, src: u16, dst: u16, k: int) -> MmuModel {
        MmuModel {
            gpu: self.gpu.written(
                (0x8000 + (dst + k) % 0x2000) as u16,
                self.read(((src + k) % 0x10000) as u16),
            ),
            ..self
        }
    }

    /// The machine after the first `n` bytes of a block were copied.
    pub open spec fn vram_bytes_copied(self, src: u16, dst: u16, n: int) -> MmuModel
        decreases n,
    {
        if n <= 0 {
            self
        } else {
            self.vram_bytes_copied(src, dst, n - 1).vram_byte_copied(src, dst, n - 1)
        }
    }

    /// The machine after one block of the transfer to video memory was
    /// moved.
    #[verifier::opaque]
    pub open spec fn block_moved(self) -> MmuModel {
        let h = self.regs.hdma;
        let m = self.vram_bytes_copied(h.src, h.dst, 16);
        MmuModel { regs: MmuRegs { hdma: h.after_block(), ..m.regs }, ..m }
    }

    /// The machine after `n` blocks were moved.
    pub open spec fn blocks_moved(self, n: int) -> MmuModel
        decreases n,
    {
        if n <= 0 {
            self
        } else {
            self.blocks_moved(n - 1).block_moved()
        }
    }

    /// The machine after `v` was written to HDMA5. While a transfer runs,
    /// a value with bit 7 clear stops it. Else the low seven bits, plus
    /// one, are the blocks to move: at once with bit 7 clear, one in every
    /// horizontal blank with bit 7 set.
    #[verifier::opaque]
    pub open spec fn hdma_started(self, v: u8) -> MmuModel {
        let h = self.regs.hdma;
        if h.active && v < 128 {
            MmuModel { regs: MmuRegs { hdma: Hdma { active: false, ..h }, ..self.regs }, ..self }
        } else {
            let armed = MmuModel {
                regs: MmuRegs {
                    hdma: Hdma { left: (v % 128 + 1) as u8, active: v >= 128, ..h },
                    ..self.regs
                },
                ..self
            };
            if v >= 128 {
                armed
            } else {
                armed.blocks_moved(v % 128 + 1)
            }
        }
    }

    /// The machine after byte `k` of the sprite table was copied from the
    /// page `page`.
    pub open spec fn oam_byte_copied(self, page: u8, k: int) -> MmuModel {
        MmuModel {
            gpu: self.gpu.written((0xFE00 + k) as u16, self.read((page * 256 + k) as u16)),
            ..self
        }
    }

    /// The machine after the first `n` bytes of the sprite table were
    /// copied.
    pub open spec fn oam_bytes_copied(self, page: u8, n: int) -> MmuModel
        decreases n,
    {
        if n <= 0 {
            self
        } else {
            self.oam_bytes_copied(page, n - 1).oam_byte_copied(page, n - 1)
        }
    }

    /// The machine after `page` was written to the DMA register: the 160
    /// bytes from the start of that page are in the sprite table, and the
    /// table is hidden for the 160 machine cycles that the transfer takes.
    #[verifier::opaque]
    pub open spec fn oam_dma_started(self, page: u8) -> MmuModel {
        let m = self.oam_bytes_copied(page, 160);
        MmuModel { regs: MmuRegs { oam_dma_left: OAM_DMA_CYCLES, ..m.regs }, ..m }
    }

    /// The machine after `v` was written to a register of the memory map
    /// itself.
    #[verifier::opaque]
    pub open spec fn written_own(self, a: u16, v: u8) -> MmuModel {
        let r = self.regs;
        if a == IF {
            MmuModel { regs: MmuRegs { intf: IntFlags::of_byte(v), ..r }, ..self }
        } else if a == IE {
            MmuModel { regs: MmuRegs { inte: v, ..r }, ..self }
        } else if !r.color() {
            self
        } else if a == KEY1 {
            MmuModel { regs: MmuRegs { speed_switch_armed: v % 2 == 1, ..r }, ..self }
        } else if a == HDMA5 {
            self.hdma_started(v)
        } else if HDMA1 <= a && a <= HDMA4 {
            MmuModel { regs: MmuRegs { hdma: r.hdma.with_address(a, v), ..r }, ..self }
        } else if a == SVBK {
            MmuModel {
                regs: MmuRegs {
                    wram_bank: if v % 8 == 0 {
                        1
                    } else {
                        v % 8
                    },
                    ..r
                },
                ..self
            }
        } else {
            self
        }
    }

    /// The machine after `v` was written to `a`, an address below the
    /// registers.
    #[verifier::opaque]
    pub open spec fn written_memory(self, a: u16, v: u8) -> MmuModel {
        if a < 0x8000 {
            MmuModel { cart: self.cart.written_rom(a, v), ..self }
        } else if a < 0xA000 {
            MmuModel { gpu: self.gpu.written(a, v), ..self }
        } else if a < 0xC000 {
            MmuModel { cart: self.cart.written_ram(a, v), ..self }
        } else if a < 0xFE00 {
            MmuModel { wram: self.wram.update(self.regs.wram_index(a), v), ..self }
        } else if a < 0xFEA0 {
            MmuModel { gpu: self.gpu.written(a, v), ..self }
        } else {
            self
        }
    }

    /// The machine after `v` was written to `a`, an address from 0xFF00.
    #[verifier::opaque]
    pub open spec fn written_high(self, a: u16, v: u8) -> MmuModel {
        if a == JOYP {
            MmuModel { keypad: self.keypad.written(v), ..self }
        } else if a == 0xFF01 || a == 0xFF02 {
            MmuModel { serial: self.serial.written(a, v), ..self }
        } else if 0xFF04 <= a && a <= 0xFF07 {
            MmuModel { timer: self.timer.written(a, v), ..self }
        } else if 0xFF10 <= a && a <= 0xFF3F {
            MmuModel { sound: self.sound.written(a, v), ..self }
        } else if a == DMA {
            self.oam_dma_started(v)
        } else if a == IF || a == IE || Self::is_color_register(a) {
            self.written_own(a, v)
        } else if (0xFF40 <= a && a <= 0xFF4F) || (0xFF68 <= a && a <= 0xFF6B) {
            MmuModel { gpu: self.gpu.written(a, v), ..self }
        } else if 0xFF80 <= a && a <= 0xFFFE {
            MmuModel { hram: self.hram.update(a - 0xFF80, v), ..self }
        } else {
            self
        }
    }

    /// The machine after `v` was written to `a`.
    #[verifier::opaque]
    pub open spec fn written(self, a: u16, v: u8) -> MmuModel {
        if a < 0xFF00 {
            self.written_memory(a, v)
        } else {
            self.written_high(a, v)
        }
    }

    /// The two bytes at `a` and after it, the low byte first.
    pub open spec fn read_word(self, a: u16) -> u16 {
        (self.read(a) + 256 * self.read(((a + 1) % 0x10000) as u16)) as u16
    }

    /// The machine after the word `v` was written to `a`, the low byte
    /// first.
    pub open spec fn written_word(self, a: u16, v: u16) -> MmuModel {
        self.written(a, (v % 256) as u8).written(((a + 1) % 0x10000) as u16, (v / 256) as u8)
    }

    /// The cycles of picture and sound that pass in `ticks` cycles of the
    /// processor: as many at single speed, half as many at double speed.
    pub open spec fn dots(self, ticks: u32) -> u32 {
        ticks / self.regs.speed.divider()
    }

    /// The machine `ticks` cycles of the processor later. The timer and
    /// the serial port run at the speed of the processor, picture and
    /// sound at their own. What they ask for is added to the interrupt
    /// flags. If a horizontal blank began while a transfer to video memory
    /// waits for it, one block is moved.
    #[verifier::opaque]
    pub open spec fn advanced(self, ticks: u32) -> MmuModel {
        let dots = self.dots(ticks) as nat;
        let (timer, timer_irq) = self.timer.advance(ticks as nat);
        let (serial, serial_irq) = self.serial.advance(ticks as nat);
        let (gpu, ev) = self.gpu.advance(dots);
        let m = MmuModel {
            regs: MmuRegs {
                intf: self.regs.intf.or(
                    IntFlags {
                        vblank: ev.vblank,
                        stat: ev.stat,
                        timer: timer_irq,
                        serial: serial_irq,
                        joypad: false,
                    },
                ),
                oam_dma_left: if self.regs.oam_dma_left > ticks {
                    (self.regs.oam_dma_left - ticks) as u16
                } else {
                    0
                },
                ..self.regs
            },
            timer,
            serial,
            gpu,
            sound: self.sound.advance(dots),
            ..self
        };
        if ev.hblank && m.regs.hdma.active && m.regs.hdma.left > 0 {
            m.block_moved()
        } else {
            m
        }
    }

    /// The machine after `key` was pressed: a press that pulls a line of
    /// the joypad low requests the joypad interrupt.
    pub open spec fn key_pressed(self, key: KeypadKey) -> MmuModel {
        MmuModel {
            keypad: self.keypad.with_key(key, true),
            regs: MmuRegs {
                intf: IntFlags {
                    joypad: self.regs.intf.joypad || self.keypad.press_interrupts(key),
                    ..self.regs.intf
                },
                ..self.regs
            },
            ..self
        }
    }

    /// The machine after `key` was let go.
    pub open spec fn key_released(self, key: KeypadKey) -> MmuModel {
        MmuModel { keypad: self.keypad.with_key(key, false), ..self }
    }
}

impl Mmu {
    /// The machine with `cart` plugged in and nothing written to its
    /// registers yet.
    pub fn new(cart: Cartridge, gbmode: GbMode) -> (m: Mmu)
        requires
            cart@.wf(),
        ensures
            m@ == MmuModel::blank(cart@, gbmode),
            m@.wf(),
    {
        reveal(MmuModel::wf);
        Mmu {
            regs: MmuRegs {
                gbmode,
                speed: GbSpeed::Single,
                speed_switch_armed: false,
                inte: 0,
                intf: IntFlags {
                    vblank: false,
                    stat: false,
                    timer: false,
                    serial: false,
                    joypad: false,
                },
                wram_bank: 1,
                hdma: Hdma { src: 0, dst: 0, active: false, left: 0 },
                oam_dma_left: 0,
            },
            wram: filled(WRAM_SIZE, 0),
            hram: filled(HRAM_SIZE, 0),
            cart,
            gpu: Gpu::new(gbmode),
            timer: Timer::new(),
            keypad: Keypad::new(),
            serial: Serial::new(),
            sound: Sound::new(),
        }
    }

    fn read_own(&self, a: u16) -> (v: u8)
        requires
            self@.wf(),
        ensures
            v == self@.read_own(a),
    {
        reveal(MmuModel::wf);
        if a == IF {
            self.regs.intf.exec_byte()
        } else if a == IE {
            self.regs.inte
        } else if self.regs.gbmode != GbMode::Color {
            0xFF
        } else if a == KEY1 {
            self.regs.exec_key1()
        } else if a == HDMA5 {
            self.regs.hdma.exec_status()
        } else if a == SVBK {
            self.regs.wram_bank
        } else {
            0xFF
        }
    }

    pub fn rb(&self, a: u16) -> (v: u8)
        requires
            self@.wf(),
        ensures
            v == self@.read(a),
    {
        reveal(MmuModel::wf);
        reveal(MmuModel::read);
        if a < 0x8000 {
            self.cart.read_rom(a)
        } else if a < 0xA000 {
            self.gpu.rb(a)
        } else if a < 0xC000 {
            self.cart.read_ram(a)
        } else if a < 0xFE00 {
            self.wram[self.regs.exec_wram_index(a)]
        } else if a < 0xFEA0 {
            if self.regs.oam_dma_left > 0 {
                0xFF
            } else {
                self.gpu.rb(a)
            }
        } else if a < 0xFF00 {
            0xFF
        } else if a == JOYP {
            self.keypad.rb()
        } else if a == 0xFF01 || a == 0xFF02 {
            self.serial.rb(a)
        } else if 0xFF04 <= a && a <= 0xFF07 {
            self.timer.rb(a)
        } else if 0xFF10 <= a && a <= 0xFF3F {
            self.sound.rb(a)
        } else if a == DMA {
            0xFF
        } else if a == IF || a == IE || a == KEY1 || (HDMA1 <= a && a <= HDMA5) || a == SVBK {
            self.read_own(a)
        } else if (0xFF40 <= a && a <= 0xFF4F) || (0xFF68 <= a && a <= 0xFF6B) {
            self.gpu.rb(a)
        } else if 0xFF80 <= a && a <= 0xFFFE {
            self.hram[(a - 0xFF80) as usize]
        } else {
            0xFF
        }
    }

    /// Reads the word at `a`, low byte first.
    pub fn rw(&self, a: u16) -> (v: u16)
        requires
            self@.wf(),
        ensures
            v == self@.read_word(a),
    {
        reveal(MmuModel::wf);
        self.rb(a) as u16 + 256 * self.rb(a.wrapping_add(1)) as u16
    }

    fn move_block(&mut self)
        requires
            old(self)@.wf(),
            old(self).regs.hdma.left > 0,
        ensures
            final(self)@ == old(self)@.block_moved(),
            final(self)@.wf(),
            final(self).regs.hdma.left == old(self).regs.hdma.left - 1,
    {
        reveal(MmuModel::wf);
        reveal(MmuModel::block_moved);
        let src = self.regs.hdma.src;
        let dst = self.regs.hdma.dst;
        let mut k: u16 = 0;
        while k < 16
            invariant
                k <= 16,
                dst < 0x2000,
                self@.wf(),
                self.regs == old(self).regs,
                self@ == old(self)@.vram_bytes_copied(src, dst, k as int),
            decreases 16 - k,
        {
            reveal(MmuModel::wf);
            let b = self.rb(src.wrapping_add(k));
            self.gpu.wb(0x8000 + (dst + k) % 0x2000, b);
            k += 1;
        }
        self.regs = MmuRegs { hdma: self.regs.hdma.exec_after_block(), ..self.regs };
    }

    fn move_blocks(&mut self, n: u8)
        requires
            old(self)@.wf(),
            n <= old(self).regs.hdma.left,
        ensures
            final(self)@ == old(self)@.blocks_moved(n as int),
            final(self)@.wf(),
    {
        reveal(MmuModel::wf);
        let mut i: u8 = 0;
        while i < n
            invariant
                i <= n,
                self@.wf(),
                self.regs.hdma.left == old(self).regs.hdma.left - i,
                n <= old(self).regs.hdma.left,
                self@ == old(self)@.blocks_moved(i as int),
                self.regs.hdma.left > 0 || i == n,
            decreases n - i,
        {
            reveal(MmuModel::wf);
            self.move_block();
            i += 1;
        }
    }

    fn start_hdma(&mut self, v: u8)
        requires
            old(self)@.wf(),
        ensures
            final(self)@ == old(self)@.hdma_started(v),
            final(self)@.wf(),
    {
        reveal(MmuModel::wf);
        reveal(MmuModel::hdma_started);
        let h = self.regs.hdma;
        if h.active && v < 128 {
            self.regs = MmuRegs { hdma: Hdma { active: false, ..h }, ..self.regs };
        } else {
            self.regs =
            MmuRegs { hdma: Hdma { left: v % 128 + 1, active: v >= 128, ..h }, ..self.regs };
            if v < 128 {
                self.move_blocks(v % 128 + 1);
            }
        }
    }

    fn start_oam_dma(&mut self, page: u8)
        requires
            old(self)@.wf(),
        ensures
            final(self)@ == old(self)@.oam_dma_started(page),
            final(self)@.wf(),
    {
        reveal(MmuModel::wf);
        reveal(MmuModel::oam_dma_started);
        let mut k: u16 = 0;
        while k < 160
            invariant
                k <= 160,
                self@.wf(),
                self@ == old(self)@.oam_bytes_copied(page, k as int),
            decreases 160 - k,
        {
            reveal(MmuModel::wf);
            let b = self.rb(page as u16 * 256 + k);
            self.gpu.wb(0xFE00 + k, b);
            k += 1;
        }
        self.regs = MmuRegs { oam_dma_left: OAM_DMA_CYCLES, ..self.regs };
    }

    fn write_own(&mut self, a: u16, v: u8)
        requires
            old(self)@.wf(),
        ensures
            final(self)@ == old(self)@.written_own(a, v),
            final(self)@.wf(),
    {
        reveal(MmuModel::wf);
        reveal(MmuModel::written_own);
        let r = self.regs;
        if a == IF {
            self.regs = MmuRegs { intf: IntFlags::from_byte(v), ..r };
        } else if a == IE {
            self.regs = MmuRegs { inte: v, ..r };
        } else if r.gbmode != GbMode::Color {
        } else if a == KEY1 {
            self.regs = MmuRegs { speed_switch_armed: v % 2 == 1, ..r };
        } else if a == HDMA5 {
            self.start_hdma(v);
        } else if HDMA1 <= a && a <= HDMA4 {
            self.regs = MmuRegs { hdma: r.hdma.exec_with_address(a, v), ..r };
        } else if a == SVBK {
            self.regs =
            MmuRegs {
                wram_bank: if v % 8 == 0 {
                    1
                } else {
                    v % 8
                },
                ..r
            };
        }
    }

    fn write_cart_rom(&mut self, a: u16, v: u8)
        requires
            old(self)@.wf(),
        ensures
            final(self)@ == (MmuModel { cart: old(self)@.cart.written_rom(a, v), ..old(self)@ }),
            final(self)@.wf(),
    {
        reveal(MmuModel::wf);
        self.cart.write_rom(a, v);
    }

    fn write_cart_ram(&mut self, a: u16, v: u8)
        requires
            old(self)@.wf(),
        ensures
            final(self)@ == (MmuModel { cart: old(self)@.cart.written_ram(a, v), ..old(self)@ }),
            final(self)@.wf(),
    {
        reveal(MmuModel::wf);
        self.cart.write_ram(a, v);
    }

    fn write_gpu(&mut self, a: u16, v: u8)
        requires
            old(self)@.wf(),
        ensures
            final(self)@ == (MmuModel { gpu: old(self)@.gpu.written(a, v), ..old(self)@ }),
            final(self)@.wf(),
    {
        reveal(MmuModel::wf);
        self.gpu.wb(a, v);
    }

    fn write_sound(&mut self, a: u16, v: u8)
        requires
            old(self)@.wf(),
        ensures
            final(self)@ == (MmuModel { sound: old(self)@.sound.written(a, v), ..old(self)@ }),
            final(self)@.wf(),
    {
        reveal(MmuModel::wf);
        self.sound.wb(a, v);
    }

    fn write_serial(&mut self, a: u16, v: u8)
        requires
            old(self)@.wf(),
        ensures
            final(self)@ == (MmuModel { serial: old(self)@.serial.written(a, v), ..old(self)@ }),
            final(self)@.wf(),
    {
        reveal(MmuModel::wf);
        self.serial.wb(a, v);
    }

    fn write_wram(&mut self, a: u16, v: u8)
        requires
            old(self)@.wf(),
            0xC000 <= a < 0xFE00,
        ensures
            final(self)@ == (MmuModel {
                wram: old(self)@.wram.update(old(self).regs.wram_index(a), v),
                ..old(self)@
            }),
            final(self)@.wf(),
    {
        reveal(MmuModel::wf);
        let i = self.regs.exec_wram_index(a);
        self.wram.set(i, v);
    }

    fn write_hram(&mut self, a: u16, v: u8)
        requires
            old(self)@.wf(),
            0xFF80 <= a <= 0xFFFE,
        ensures
            final(self)@ == (MmuModel {
                hram: old(self)@.hram.update(a - 0xFF80, v),
                ..old(self)@
            }),
            final(self)@.wf(),
    {
        reveal(MmuModel::wf);
        self.hram.set((a - 0xFF80) as usize, v);
    }

    fn write_memory(&mut self, a: u16, v: u8)
        requires
            old(self)@.wf(),
        ensures
            final(self)@ == old(self)@.written_memory(a, v),
            final(self)@.wf(),
    {
        reveal(MmuModel::wf);
        reveal(MmuModel::written_memory);
        if a < 0x8000 {
            self.write_cart_rom(a, v);
        } else if a < 0xA000 {
            self.write_gpu(a, v);
        } else if a < 0xC000 {
            self.write_cart_ram(a, v);
        } else if a < 0xFE00 {
            self.write_wram(a, v);
        } else if a < 0xFEA0 {
            self.write_gpu(a, v);
        }
    }

    fn write_high(&mut self, a: u16, v: u8)
        requires
            old(self)@.wf(),
        ensures
            final(self)@ == old(self)@.written_high(a, v),
            final(self)@.wf(),
    {
        reveal(MmuModel::wf);
        reveal(MmuModel::written_high);
        if a == JOYP {
            self.keypad.wb(v);
        } else if a == 0xFF01 || a == 0xFF02 {
            self.write_serial(a, v);
        } else if 0xFF04 <= a && a <= 0xFF07 {
            self.timer.wb(a, v);
        } else if 0xFF10 <= a && a <= 0xFF3F {
            self.write_sound(a, v);
        } else if a == DMA {
            self.start_oam_dma(v);
        } else if a == IF || a == IE || a == KEY1 || (HDMA1 <= a && a <= HDMA5) || a == SVBK {
            self.write_own(a, v);
        } else if (0xFF40 <= a && a <= 0xFF4F) || (0xFF68 <= a && a <= 0xFF6B) {
            self.write_gpu(a, v);
        } else if 0xFF80 <= a && a <= 0xFFFE {
            self.write_hram(a, v);
        }
    }

    pub fn wb(&mut self, a: u16, v: u8)
        requires
            old(self)@.wf(),
        ensures
            final(self)@ == old(self)@.written(a, v),
            final(self)@.wf(),
    {
        reveal(MmuModel::wf);
        reveal(MmuModel::written);
        if a < 0xFF00 {
            self.write_memory(a, v);
        } else {
            self.write_high(a, v);
        }
    }

    /// Writes the word `v` at `a`, low byte first.
    pub fn ww(&mut self, a: u16, v: u16)
        requires
            old(self)@.wf(),
        ensures
            final(self)@ == old(self)@.written_word(a, v),
            final(self)@.wf(),
    {
        reveal(MmuModel::wf);
        self.wb(a, (v % 256) as u8);
        self.wb(a.wrapping_add(1), (v / 256) as u8);
    }

    /// Runs everything but the processor for `ticks` cycles of the
    /// processor. Returns the cycles of picture and sound that passed.
    pub fn do_cycle(&mut self, ticks: u32) -> (dots: u32)
        requires
            old(self)@.wf(),
        ensures
            final(self)@ == old(self)@.advanced(ticks),
            dots == old(self)@.dots(ticks),
            final(self)@.wf(),
    {
        reveal(MmuModel::wf);
        reveal(MmuModel::advanced);
        let dots = ticks / self.regs.speed.cycles_per_dot();
        let timer_irq = self.timer.do_cycle(ticks);
        let serial_irq = self.serial.do_cycle(ticks);
        let ev = self.gpu.do_cycle(dots);
        self.sound.do_cycle(dots);
        let r = self.regs;
        self.regs =
        MmuRegs {
            intf: r.intf.exec_or(
                IntFlags {
                    vblank: ev.vblank,
                    stat: ev.stat,
                    timer: timer_irq,
                    serial: serial_irq,
                    joypad: false,
                },
            ),
            oam_dma_left: if r.oam_dma_left as u32 > ticks {
                (r.oam_dma_left as u32 - ticks) as u16
            } else {
                0
            },
            ..r
        };
        if ev.hblank && self.regs.hdma.active && self.regs.hdma.left > 0 {
            self.move_block();
        }
        dots
    }

    /// Changes the speed of the processor, if a change was armed.
    pub fn switch_speed(&mut self)
        requires
            old(self)@.wf(),
        ensures
            final(self)@ == (MmuModel { regs: old(self).regs.speed_switched(), ..old(self)@ }),
            final(self)@.wf(),
    {
        reveal(MmuModel::wf);
        let r = self.regs;
        if r.speed_switch_armed {
            self.regs =
            MmuRegs {
                speed: if r.speed == GbSpeed::Double {
                    GbSpeed::Single
                } else {
                    GbSpeed::Double
                },
                speed_switch_armed: false,
                ..r
            };
        }
    }

    pub fn keydown(&mut self, key: KeypadKey)
        requires
            old(self)@.wf(),
        ensures
            final(self)@ == old(self)@.key_pressed(key),
            final(self)@.wf(),
    {
        reveal(MmuModel::wf);
        let irq = self.keypad.keydown(key);
        let r = self.regs;
        self.regs = MmuRegs { intf: IntFlags { joypad: r.intf.joypad || irq, ..r.intf }, ..r };
    }

    pub fn keyup(&mut self, key: KeypadKey)
        requires
            old(self)@.wf(),
        ensures
            final(self)@ == old(self)@.key_released(key),
            final(self)@.wf(),
    {
        reveal(MmuModel::wf);
        self.keypad.keyup(key);
    }
}

} // verus!
