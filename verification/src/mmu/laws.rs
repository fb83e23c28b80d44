//! What holds of the memory map whatever the program does.

use crate::gpu::{lemma_advance_regs, GpuModel};
use crate::mbc::header::MbcKind;
use crate::mbc::{lemma_ram_read_back, CartridgeModel};
use crate::mmu::{MmuModel, DMA, OAM_DMA_CYCLES};
use crate::timer::{lemma_div_reset, DIV};
use vstd::prelude::*;

verus! {

/// Whether `a` is an address of plain memory in the machine `m`: memory
/// that keeps what is written to it, a whole byte to an address. That is
/// video memory, work memory with its echo, high memory, the sprite table
/// while no transfer hides it, and the cartridge's RAM while it is
/// switched on and there (but not the half bytes of an MBC2, nor the clock
/// that an MBC3 can show in the RAM's place).
pub open spec fn plain(m: MmuModel, a: u16) -> bool {
    ||| 0x8000 <= a < 0xA000
    ||| (0xA000 <= a < 0xC000 && m.cart.state.ram_on && !m.cart.state.clock_seen()
        && m.cart.state.kind != MbcKind::Mbc2 && m.cart.state.ram_banks > 0)
    ||| 0xC000 <= a < 0xFE00
    ||| (0xFE00 <= a < 0xFEA0 && m.regs.oam_dma_left == 0)
    ||| 0xFF80 <= a <= 0xFFFE
}

/// Whether the addresses `a` and `b` of plain memory stand for one place:
/// they are equal, or lie in work memory and its echo at the same offset,
/// or in the window on the cartridge's RAM at the same offset.
pub open spec fn same_place(m: MmuModel, a: u16, b: u16) -> bool {
    ||| a == b
    ||| (0xC000 <= a < 0xFE00 && 0xC000 <= b < 0xFE00 && m.regs.wram_index(a)
        == m.regs.wram_index(b))
    ||| (0xA000 <= a < 0xC000 && 0xA000 <= b < 0xC000 && a % 0x2000 == b % 0x2000)
}

/// A read of plain memory returns what was last written there: the byte
/// just written, and after a write to another place what it returned
/// before.
pub proof fn lemma_read_back(m: MmuModel, a: u16, v: u8, b: u16)
    requires
        m.wf(),
        plain(m, a),
        plain(m, b),
    ensures
        m.written(a, v).read(a) == v,
        !same_place(m, a, b) ==> m.written(a, v).read(b) == m.read(b),
{
    reveal(MmuModel::wf);
    reveal(MmuModel::read);
    reveal(MmuModel::written);
    reveal(MmuModel::written_memory);
    reveal(MmuModel::written_high);
    reveal(GpuModel::read);
    reveal(GpuModel::written);
    if 0xA000 <= a < 0xC000 {
        lemma_ram_read_back(m.cart, a, v, b);
        reveal(CartridgeModel::written_ram);
        reveal(CartridgeModel::read_ram);
        reveal(CartridgeModel::read_rom);
    }
}

/// After two writes to different places of plain memory, the place written
/// first still reads what was written to it.
pub proof fn lemma_read_back_most_recent(m: MmuModel, a: u16, v: u8, b: u16, w: u8)
    requires
        m.wf(),
        plain(m, a),
        plain(m, b),
        !same_place(m, a, b),
    ensures
        m.written(a, v).written(b, w).read(a) == v,
{
    lemma_read_back(m, a, v, a);
    lemma_plain_write_keeps(m, a, v);
    let m1 = m.written(a, v);
    assert(plain(m1, a) && plain(m1, b));
    assert(!same_place(m1, b, a));
    lemma_read_back(m1, b, w, a);
}

/// A write to plain memory changes nothing that decides what is plain and
/// which addresses stand for one place, and leaves the machine well formed.
pub proof fn lemma_plain_write_keeps(m: MmuModel, a: u16, v: u8)
    requires
        m.wf(),
        plain(m, a),
    ensures
        m.written(a, v).wf(),
        m.written(a, v).regs == m.regs,
        m.written(a, v).cart.state.ram_on == m.cart.state.ram_on,
        m.written(a, v).cart.state.clock_seen() == m.cart.state.clock_seen(),
        m.written(a, v).cart.state.kind == m.cart.state.kind,
        m.written(a, v).cart.state.ram_banks == m.cart.state.ram_banks,
{
    reveal(MmuModel::wf);
    reveal(MmuModel::written);
    reveal(MmuModel::written_memory);
    reveal(MmuModel::written_high);
    reveal(GpuModel::written);
    reveal(CartridgeModel::written_ram);
}

/// A write to DIV, of any value, makes DIV read zero, and it reads zero
/// still after any number of cycles of the processor below 256.
pub proof fn lemma_div_reset_on_bus(m: MmuModel, v: u8, ticks: u32)
    requires
        ticks < 256,
    ensures
        m.written(DIV, v).read(DIV) == 0,
        m.written(DIV, v).advanced(ticks).read(DIV) == 0,
{
    reveal(MmuModel::read);
    reveal(MmuModel::written);
    reveal(MmuModel::written_high);
    lemma_div_reset(m.timer, v, ticks as nat);
    lemma_block_only_moves_video(m.written(DIV, v), ticks);
}

/// What a transfer to video memory leaves alone when it moves bytes:
/// everything but video memory.
pub proof fn lemma_vram_copy_keeps(m: MmuModel, src: u16, dst: u16, n: int)
    requires
        0 <= n <= 16,
    ensures
        ({
            let r = m.vram_bytes_copied(src, dst, n);
            &&& r.regs == m.regs
            &&& r.wram == m.wram
            &&& r.hram == m.hram
            &&& r.cart == m.cart
            &&& r.timer == m.timer
            &&& r.keypad == m.keypad
            &&& r.serial == m.serial
            &&& r.sound == m.sound
            &&& r.gpu.regs == m.gpu.regs
            &&& r.gpu.data == m.gpu.data
            &&& r.gpu.mem.oam == m.gpu.mem.oam
            &&& r.gpu.mem.bg_palette == m.gpu.mem.bg_palette
            &&& r.gpu.mem.obj_palette == m.gpu.mem.obj_palette
        }),
    decreases n,
{
    reveal(GpuModel::written);
    if n > 0 {
        lemma_vram_copy_keeps(m, src, dst, n - 1);
    }
}

/// The step that `advanced` takes after the units have run, the moving of
/// a block to video memory, changes video memory and the state of the
/// transfer and nothing else.
proof fn lemma_block_only_moves_video(m: MmuModel, ticks: u32)
    ensures
        m.advanced(ticks).timer == m.timer.advance(ticks as nat).0,
        m.advanced(ticks).serial == m.serial.advance(ticks as nat).0,
        m.advanced(ticks).sound == m.sound.advance(m.dots(ticks) as nat),
        m.advanced(ticks).gpu.regs == m.gpu.advance(m.dots(ticks) as nat).0.regs,
        m.advanced(ticks).gpu.data == m.gpu.advance(m.dots(ticks) as nat).0.data,
        m.advanced(ticks).gpu.mem.oam == m.gpu.advance(m.dots(ticks) as nat).0.mem.oam,
        m.advanced(ticks).regs.oam_dma_left == if m.regs.oam_dma_left > ticks {
            (m.regs.oam_dma_left - ticks) as u16
        } else {
            0u16
        },
        m.advanced(ticks).wram == m.wram,
        m.advanced(ticks).hram == m.hram,
        m.advanced(ticks).cart == m.cart,
{
    reveal(MmuModel::advanced);
    reveal(MmuModel::block_moved);
    let dots = m.dots(ticks) as nat;
    let (gpu, ev) = m.gpu.advance(dots);
    let h = m.regs.hdma;
    if ev.hblank && h.active && h.left > 0 {
        // the machine before the block is moved
        let before = MmuModel {
            regs: crate::mmu::MmuRegs {
                intf: m.regs.intf.or(
                    crate::mmu::IntFlags {
                        vblank: ev.vblank,
                        stat: ev.stat,
                        timer: m.timer.advance(ticks as nat).1,
                        serial: m.serial.advance(ticks as nat).1,
                        joypad: false,
                    },
                ),
                oam_dma_left: if m.regs.oam_dma_left > ticks {
                    (m.regs.oam_dma_left - ticks) as u16
                } else {
                    0
                },
                ..m.regs
            },
            timer: m.timer.advance(ticks as nat).0,
            serial: m.serial.advance(ticks as nat).0,
            gpu,
            sound: m.sound.advance(dots),
            ..m
        };
        lemma_vram_copy_keeps(before, h.src, h.dst, 16);
    }
}

/// When the processor has run for `ticks` cycles, the timer and the serial
/// port have run for `ticks` cycles, and picture and sound for as many at
/// single speed and for half as many at double speed: exactly, whatever
/// else happened in these cycles.
pub proof fn lemma_cycle_accounting(m: MmuModel, ticks: u32)
    ensures
        m.advanced(ticks).timer == m.timer.advance(ticks as nat).0,
        m.advanced(ticks).serial == m.serial.advance(ticks as nat).0,
        m.advanced(ticks).gpu.regs == m.gpu.regs.after(m.dots(ticks) as nat),
        m.advanced(ticks).sound == m.sound.advance(m.dots(ticks) as nat),
        m.regs.speed == crate::gbmode::GbSpeed::Single ==> m.dots(ticks) == ticks,
        m.regs.speed == crate::gbmode::GbSpeed::Double ==> m.dots(ticks) == ticks / 2,
{
    lemma_block_only_moves_video(m, ticks);
    lemma_advance_regs(m.gpu, m.dots(ticks) as nat);
}

/// What a transfer to the sprite table from work memory leaves alone when
/// it copies bytes, and what it has copied: the table holds, byte for
/// byte, what the source read before.
pub proof fn lemma_oam_copy(m: MmuModel, page: u8, n: int)
    requires
        m.wf(),
        0xC0 <= page <= 0xFD,
        0 <= n <= 160,
    ensures
        ({
            let r = m.oam_bytes_copied(page, n);
            &&& r.wf()
            &&& r.regs == m.regs
            &&& r.wram == m.wram
            &&& r.gpu.regs == m.gpu.regs
            &&& r.gpu.mem.oam.len() == m.gpu.mem.oam.len()
            &&& forall|k: int|
                0 <= k < n ==> r.gpu.mem.oam[k] == #[trigger] m.read((page * 256 + k) as u16)
            &&& forall|k: int| n <= k < 160 ==> r.gpu.mem.oam[k] == m.gpu.mem.oam[k]
        }),
    decreases n,
{
    reveal(MmuModel::wf);
    reveal(GpuModel::written);
    reveal(MmuModel::read);
    if n > 0 {
        lemma_oam_copy(m, page, n - 1);
        let before = m.oam_bytes_copied(page, n - 1);
        let a = (page * 256 + (n - 1)) as u16;
        assert(0xC000 <= a < 0xFE00);
        assert(before.read(a) == m.read(a));
    }
}

/// A transfer to the sprite table that is started from a page of work
/// memory puts the 160 bytes of that page into the table. Once the 160
/// machine cycles of the transfer have passed, the table reads as these
/// bytes.
pub proof fn lemma_oam_dma(m: MmuModel, page: u8, ticks: u32, k: int)
    requires
        m.wf(),
        0xC0 <= page <= 0xFD,
        ticks >= OAM_DMA_CYCLES,
        0 <= k < 160,
    ensures
        m.written(DMA, page).gpu.mem.oam[k] == m.read((page * 256 + k) as u16),
        m.written(DMA, page).advanced(ticks).read((0xFE00 + k) as u16) == m.read(
            (page * 256 + k) as u16,
        ),
{
    reveal(MmuModel::wf);
    reveal(MmuModel::written);
    reveal(MmuModel::written_high);
    reveal(MmuModel::oam_dma_started);
    lemma_oam_copy(m, page, 160);
    let w = m.written(DMA, page);
    lemma_block_only_moves_video(w, ticks);
    lemma_advance_regs(w.gpu, w.dots(ticks) as nat);
    reveal(MmuModel::read);
    reveal(GpuModel::read);
}

} // verus!
