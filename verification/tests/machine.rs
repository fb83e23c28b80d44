use rboy::device::{construct_cpu, Device};
use rboy::gbmode::GbMode;
use rboy::gpu::Gpu;
use rboy::input::GBEvent;
use rboy::keypad::KeypadKey;
use rboy::mbc::Cartridge;
use rboy::mmu::Mmu;
use rboy::plugins::{PluginSource, PluginTable, ScriptValue};
use rboy::register::{Flags, Registers};
use rboy::runner::{plugin_readbyte, plugin_writebyte, run_cycles, Runner, RunnerAction};
use rboy::sound::Sound;

const LOGO: [u8; 48] = [
    0xCE, 0xED, 0x66, 0x66, 0xCC, 0x0D, 0x00, 0x0B, 0x03, 0x73, 0x00, 0x83, 0x00, 0x0C, 0x00, 0x0D,
    0x00, 0x08, 0x11, 0x1F, 0x88, 0x89, 0x00, 0x0E, 0xDC, 0xCC, 0x6E, 0xE6, 0xDD, 0xDD, 0xD9, 0x99,
    0xBB, 0xBB, 0x67, 0x63, 0x6E, 0x0E, 0xEC, 0xCC, 0xDD, 0xDC, 0x99, 0x9F, 0xBB, 0xB9, 0x33, 0x3E,
];

/// An image of 32 KiB that jumps from its entry to `program` at 0x150.
fn image_with(cgb_flag: u8, program: &[u8]) -> Vec<u8> {
    let mut r = vec![0u8; 0x8000];
    r[0x100] = 0xC3;
    r[0x101] = 0x50;
    r[0x102] = 0x01;
    r[0x104..0x134].copy_from_slice(&LOGO);
    for (i, b) in "TESTROM".bytes().enumerate() {
        r[0x134 + i] = b;
    }
    r[0x143] = cgb_flag;
    r[0x150..0x150 + program.len()].copy_from_slice(program);
    let mut x: u8 = 0;
    for i in 0x134..0x14D {
        x = x.wrapping_sub(r[i]).wrapping_sub(1);
    }
    r[0x14D] = x;
    r
}

fn image(program: &[u8]) -> Vec<u8> {
    image_with(0, program)
}

fn mmu(mode: GbMode) -> Mmu {
    Mmu::new(Cartridge::load(image(&[]), false).unwrap(), mode)
}

fn step(d: &mut Device) -> u32 {
    assert!(d.can_step());
    d.do_cycle()
}

fn lcd_on() -> Gpu {
    let mut g = Gpu::new(GbMode::Classic);
    g.wb(0xFF47, 0xE4);
    g.wb(0xFF48, 0xE4);
    g.wb(0xFF49, 0x1B);
    g.wb(0xFF40, 0x91);
    g
}

fn pixel(g: &Gpu, x: usize, y: usize) -> (u8, u8, u8) {
    let i = (y * 160 + x) * 3;
    (g.data[i], g.data[i + 1], g.data[i + 2])
}

#[test]
fn a_line_goes_through_its_modes() {
    let mut g = lcd_on();
    assert_eq!(g.rb(0xFF41) & 3, 2);
    let ev = g.do_cycle(79);
    assert!(!ev.hblank && !ev.vblank && !ev.stat);
    assert_eq!(g.rb(0xFF41) & 3, 2);
    g.do_cycle(1);
    assert_eq!(g.rb(0xFF41) & 3, 3);
    g.do_cycle(171);
    assert_eq!(g.rb(0xFF41) & 3, 3);
    let ev = g.do_cycle(1);
    assert!(ev.hblank);
    assert_eq!(g.rb(0xFF41) & 3, 0);
    g.do_cycle(203);
    assert_eq!(g.rb(0xFF44), 0);
    g.do_cycle(1);
    assert_eq!(g.rb(0xFF44), 1);
    assert_eq!(g.rb(0xFF41) & 3, 2);
}

#[test]
fn a_frame_has_154_lines_and_one_vertical_blank() {
    let mut g = lcd_on();
    let mut vblanks = 0;
    let mut hblanks = 0;
    for n in 0..70224u32 {
        assert_eq!(g.rb(0xFF44) as u32, n / 456);
        let ev = g.do_cycle(1);
        if ev.vblank {
            vblanks += 1;
            assert_eq!(n + 1, 144 * 456);
            assert_eq!(g.rb(0xFF41) & 3, 1);
        }
        if ev.hblank {
            hblanks += 1;
        }
    }
    assert_eq!(vblanks, 1);
    assert_eq!(hblanks, 144);
    assert_eq!(g.rb(0xFF44), 0);
    assert!(g.check_and_reset_updated());
    assert!(!g.check_and_reset_updated());
    assert!(g.do_cycle(144 * 456).vblank);
    assert!(g.check_and_reset_updated());
}

#[test]
fn stat_interrupts_follow_their_enables() {
    let mut g = lcd_on();
    assert!(!g.do_cycle(456).stat);
    g.wb(0xFF41, 0x08);
    assert!(!g.do_cycle(251).stat);
    assert!(g.do_cycle(1).stat);
    g.wb(0xFF41, 0x20);
    assert!(!g.do_cycle(203).stat);
    assert!(g.do_cycle(1).stat);
    g.wb(0xFF41, 0x40);
    g.wb(0xFF45, 5);
    assert!(!g.do_cycle(456 * 2).stat);
    assert_eq!(g.rb(0xFF41) & 4, 0);
    assert!(g.do_cycle(456).stat);
    assert_eq!(g.rb(0xFF44), 5);
    assert_eq!(g.rb(0xFF41) & 4, 4);
    g.wb(0xFF41, 0x10);
    assert!(!g.do_cycle(456 * 138).stat);
    assert!(g.do_cycle(456).stat);
    assert_eq!(g.rb(0xFF44), 144);
}

#[test]
fn switching_the_display_off_clears_the_line() {
    let mut g = lcd_on();
    g.do_cycle(456 * 10 + 100);
    assert_eq!(g.rb(0xFF44), 10);
    g.wb(0xFF40, 0x11);
    assert_eq!(g.rb(0xFF44), 0);
    assert_eq!(g.rb(0xFF41) & 3, 0);
    assert_eq!(g.rb(0xFF40), 0x11);
    let ev = g.do_cycle(70224);
    assert!(!ev.vblank && !ev.hblank);
    assert_eq!(g.rb(0xFF44), 0);
}

#[test]
fn background_tiles_are_drawn() {
    let mut g = lcd_on();
    for row in 0..8u16 {
        g.wb(0x8010 + 2 * row, 0xF0);
        g.wb(0x8011 + 2 * row, 0xCC);
    }
    g.wb(0x9801, 1);
    g.do_cycle(252);
    let white = (255, 255, 255);
    let light = (192, 192, 192);
    let dark = (96, 96, 96);
    let black = (0, 0, 0);
    for x in 0..8 {
        assert_eq!(pixel(&g, x, 0), white);
    }
    let want = [black, black, light, light, dark, dark, white, white];
    for x in 0..8 {
        assert_eq!(pixel(&g, 8 + x, 0), want[x]);
    }
    assert_eq!(pixel(&g, 16, 0), white);
    g.wb(0xFF43, 3);
    g.do_cycle(456);
    for x in 0..8 {
        assert_eq!(pixel(&g, 5 + x, 1), want[x]);
    }
    assert_eq!(pixel(&g, 4, 1), white);
    g.wb(0xFF47, 0x1B);
    g.do_cycle(456);
    assert_eq!(pixel(&g, 5, 2), white);
    assert_eq!(pixel(&g, 7, 2), dark);
    assert_eq!(pixel(&g, 0, 2), black);
}

#[test]
fn signed_tile_numbers_count_around_0x9000() {
    let mut g = lcd_on();
    g.wb(0xFF40, 0x81);
    g.wb(0x9000, 0xFF);
    g.wb(0x8800, 0xFF);
    g.wb(0x8801, 0xFF);
    g.wb(0x9801, 0x80);
    g.do_cycle(252);
    assert_eq!(pixel(&g, 0, 0), (192, 192, 192));
    assert_eq!(pixel(&g, 8, 0), (0, 0, 0));
}

#[test]
fn the_window_covers_the_background() {
    let mut g = lcd_on();
    g.wb(0x8010, 0xFF);
    g.wb(0x8011, 0xFF);
    g.wb(0x9C00, 1);
    g.wb(0xFF4A, 0);
    g.wb(0xFF4B, 7 + 100);
    g.wb(0xFF40, 0xF1);
    g.do_cycle(252);
    assert_eq!(pixel(&g, 99, 0), (255, 255, 255));
    assert_eq!(pixel(&g, 100, 0), (0, 0, 0));
    assert_eq!(pixel(&g, 107, 0), (0, 0, 0));
    assert_eq!(pixel(&g, 108, 0), (255, 255, 255));
}

#[test]
fn sprites_are_drawn_over_the_background() {
    let mut g = lcd_on();
    g.wb(0xFF40, 0x93);
    g.wb(0x8020, 0xFF);
    g.wb(0x8021, 0xFF);
    g.wb(0x8022, 0x0F);
    g.wb(0xFE00, 16);
    g.wb(0xFE01, 8 + 20);
    g.wb(0xFE02, 2);
    g.wb(0xFE03, 0x00);
    g.do_cycle(252);
    assert_eq!(pixel(&g, 19, 0), (255, 255, 255));
    for x in 20..28 {
        assert_eq!(pixel(&g, x, 0), (0, 0, 0));
    }
    assert_eq!(pixel(&g, 28, 0), (255, 255, 255));
    g.do_cycle(456);
    assert_eq!(pixel(&g, 20, 1), (255, 255, 255));
    assert_eq!(pixel(&g, 24, 1), (192, 192, 192));
    g.wb(0xFE03, 0x30);
    g.do_cycle(456 * 153);
    assert_eq!(pixel(&g, 20, 0), (255, 255, 255));
    assert_eq!(pixel(&g, 27, 0), (255, 255, 255));
    g.wb(0xFE03, 0x20);
    g.do_cycle(456);
    assert_eq!(pixel(&g, 20, 1), (192, 192, 192));
    assert_eq!(pixel(&g, 23, 1), (192, 192, 192));
    assert_eq!(pixel(&g, 24, 1), (255, 255, 255));
}

#[test]
fn sprites_behind_the_background_show_through_colour_zero_only() {
    let mut g = lcd_on();
    g.wb(0xFF40, 0x93);
    g.wb(0x8010, 0xF0);
    g.wb(0x8020, 0xFF);
    g.wb(0x8021, 0xFF);
    g.wb(0x9800, 1);
    g.wb(0xFE00, 16);
    g.wb(0xFE01, 8);
    g.wb(0xFE02, 2);
    g.wb(0xFE03, 0x80);
    g.do_cycle(252);
    assert_eq!(pixel(&g, 0, 0), (192, 192, 192));
    assert_eq!(pixel(&g, 3, 0), (192, 192, 192));
    assert_eq!(pixel(&g, 4, 0), (0, 0, 0));
    assert_eq!(pixel(&g, 7, 0), (0, 0, 0));
}

#[test]
fn the_sprite_furthest_left_wins() {
    let mut g = lcd_on();
    g.wb(0xFF40, 0x93);
    g.wb(0x8020, 0xFF);
    g.wb(0x8021, 0xFF);
    g.wb(0x8030, 0xFF);
    g.wb(0xFE00, 16);
    g.wb(0xFE01, 8 + 12);
    g.wb(0xFE02, 2);
    g.wb(0xFE04, 16);
    g.wb(0xFE05, 8 + 10);
    g.wb(0xFE06, 3);
    g.do_cycle(252);
    assert_eq!(pixel(&g, 10, 0), (192, 192, 192));
    assert_eq!(pixel(&g, 12, 0), (192, 192, 192));
    assert_eq!(pixel(&g, 17, 0), (192, 192, 192));
    assert_eq!(pixel(&g, 18, 0), (0, 0, 0));
    assert_eq!(pixel(&g, 19, 0), (0, 0, 0));
    assert_eq!(pixel(&g, 20, 0), (255, 255, 255));
}

#[test]
fn only_ten_sprites_are_drawn_on_a_line() {
    let mut g = lcd_on();
    g.wb(0xFF40, 0x93);
    g.wb(0x8020, 0xFF);
    g.wb(0x8021, 0xFF);
    for i in 0..11u16 {
        g.wb(0xFE00 + 4 * i, 16);
        g.wb(0xFE01 + 4 * i, 8 + 8 * i as u8);
        g.wb(0xFE02 + 4 * i, 2);
    }
    g.do_cycle(252);
    assert_eq!(pixel(&g, 0, 0), (0, 0, 0));
    assert_eq!(pixel(&g, 79, 0), (0, 0, 0));
    assert_eq!(pixel(&g, 80, 0), (255, 255, 255));
}

#[test]
fn colour_palettes_are_written_through_their_index() {
    let mut g = Gpu::new(GbMode::Color);
    g.wb(0xFF68, 0x80);
    g.wb(0xFF69, 0x1F);
    g.wb(0xFF69, 0x00);
    g.wb(0xFF69, 0xE0);
    g.wb(0xFF69, 0x03);
    assert_eq!(g.rb(0xFF68), 0xC4);
    g.wb(0xFF68, 0x02);
    assert_eq!(g.rb(0xFF69), 0xE0);
    g.wb(0xFF69, 0xFF);
    assert_eq!(g.rb(0xFF68), 0x42);
    assert_eq!(g.rb(0xFF69), 0xFF);
    g.wb(0xFF69, 0xE0);
    g.wb(0x8000, 0x80);
    g.wb(0xFF40, 0x91);
    g.do_cycle(252);
    assert_eq!(pixel(&g, 0, 0), (0, 255, 0));
    assert_eq!(pixel(&g, 1, 0), (255, 0, 0));
}

#[test]
fn colour_registers_are_not_there_without_colours() {
    let mut g = Gpu::new(GbMode::Classic);
    g.wb(0xFF4F, 1);
    assert_eq!(g.rb(0xFF4F), 0xFF);
    g.wb(0xFF68, 0x80);
    assert_eq!(g.rb(0xFF68), 0xFF);
    let mut g = Gpu::new(GbMode::Color);
    assert_eq!(g.rb(0xFF4F), 0xFE);
    g.wb(0x8000, 0x11);
    g.wb(0xFF4F, 0xFF);
    assert_eq!(g.rb(0xFF4F), 0xFF);
    assert_eq!(g.rb(0x8000), 0x00);
    g.wb(0x8000, 0x22);
    g.wb(0xFF4F, 0);
    assert_eq!(g.rb(0x8000), 0x11);
}

#[test]
fn plain_memory_reads_back() {
    let mut m = mmu(GbMode::Classic);
    for (a, v) in [(0xC000u16, 1u8), (0xCFFF, 2), (0xD000, 3), (0xDFFF, 4), (0xFF80, 5), (0xFFFE, 6), (0x8000, 7), (0x9FFF, 8), (0xFE00, 9), (0xFE9F, 10)] {
        m.wb(a, v);
    }
    for (a, v) in [(0xC000u16, 1u8), (0xCFFF, 2), (0xD000, 3), (0xDFFF, 4), (0xFF80, 5), (0xFFFE, 6), (0x8000, 7), (0x9FFF, 8), (0xFE00, 9), (0xFE9F, 10)] {
        assert_eq!(m.rb(a), v);
    }
    assert_eq!(m.rb(0xE000), 1);
    assert_eq!(m.rb(0xF000), 3);
    m.wb(0xFDFF, 0x77);
    assert_eq!(m.rb(0xDDFF), 0x77);
    m.wb(0xFEA0, 0x55);
    assert_eq!(m.rb(0xFEA0), 0xFF);
    m.ww(0xC100, 0xBEEF);
    assert_eq!(m.rb(0xC100), 0xEF);
    assert_eq!(m.rb(0xC101), 0xBE);
    assert_eq!(m.rw(0xC100), 0xBEEF);
}

#[test]
fn work_memory_banks_on_the_colour_machine() {
    let mut m = mmu(GbMode::Color);
    assert_eq!(m.rb(0xFF70), 1);
    m.wb(0xD000, 0x11);
    m.wb(0xFF70, 2);
    assert_eq!(m.rb(0xD000), 0);
    m.wb(0xD000, 0x22);
    m.wb(0xFF70, 0);
    assert_eq!(m.rb(0xFF70), 1);
    assert_eq!(m.rb(0xD000), 0x11);
    m.wb(0xFF70, 0xFA);
    assert_eq!(m.rb(0xD000), 0x22);
    m.wb(0xC000, 0x33);
    m.wb(0xFF70, 7);
    assert_eq!(m.rb(0xC000), 0x33);
    let mut m = mmu(GbMode::Classic);
    m.wb(0xD000, 0x11);
    m.wb(0xFF70, 2);
    assert_eq!(m.rb(0xFF70), 0xFF);
    assert_eq!(m.rb(0xD000), 0x11);
}

#[test]
fn interrupt_registers() {
    let mut m = mmu(GbMode::Classic);
    assert_eq!(m.rb(0xFF0F), 0xE0);
    m.wb(0xFF0F, 0x15);
    assert_eq!(m.rb(0xFF0F), 0xF5);
    m.wb(0xFFFF, 0xAB);
    assert_eq!(m.rb(0xFFFF), 0xAB);
}

#[test]
fn oam_dma_copies_a_page() {
    let mut m = mmu(GbMode::Classic);
    for i in 0..160u16 {
        m.wb(0xC000 + i, i as u8);
    }
    m.wb(0xFF46, 0xC0);
    assert_eq!(m.rb(0xFE00), 0xFF);
    m.do_cycle(636);
    assert_eq!(m.rb(0xFE10), 0xFF);
    m.do_cycle(4);
    for i in 0..160u16 {
        assert_eq!(m.rb(0xFE00 + i), i as u8);
    }
    assert_eq!(m.gpu.mem.oam[159], 159);
}

#[test]
fn div_resets_over_the_bus() {
    let mut m = mmu(GbMode::Classic);
    m.do_cycle(1000);
    assert_eq!(m.rb(0xFF04), 3);
    m.wb(0xFF04, 0x99);
    assert_eq!(m.rb(0xFF04), 0);
    m.do_cycle(4);
    assert_eq!(m.rb(0xFF04), 0);
}

#[test]
fn units_run_for_the_cycles_of_the_processor() {
    let mut m = mmu(GbMode::Classic);
    m.wb(0xFF40, 0x91);
    assert_eq!(m.do_cycle(456), 456);
    assert_eq!(m.rb(0xFF44), 1);
    assert_eq!(m.rb(0xFF04), 1);
    let mut m = mmu(GbMode::Color);
    m.wb(0xFF40, 0x91);
    m.wb(0xFF4D, 1);
    assert_eq!(m.rb(0xFF4D), 0x7F);
    m.switch_speed();
    assert_eq!(m.rb(0xFF4D), 0xFE);
    assert_eq!(m.do_cycle(456), 228);
    assert_eq!(m.rb(0xFF44), 0);
    assert_eq!(m.do_cycle(456), 228);
    assert_eq!(m.rb(0xFF44), 1);
    assert_eq!(m.rb(0xFF04), 3);
    m.switch_speed();
    assert_eq!(m.rb(0xFF4D), 0xFE);
}

#[test]
fn timer_interrupt_reaches_the_flags() {
    let mut m = mmu(GbMode::Classic);
    m.wb(0xFF05, 0xFF);
    m.wb(0xFF07, 5);
    m.do_cycle(16);
    assert_eq!(m.rb(0xFF0F) & 4, 0);
    m.do_cycle(4);
    assert_eq!(m.rb(0xFF0F) & 4, 4);
}

#[test]
fn general_transfer_to_video_memory() {
    let mut m = mmu(GbMode::Color);
    for i in 0..48u16 {
        m.wb(0xC010 + i, 0x40 + i as u8);
    }
    m.wb(0xFF51, 0xC0);
    m.wb(0xFF52, 0x1F);
    m.wb(0xFF53, 0x81);
    m.wb(0xFF54, 0x27);
    m.wb(0xFF55, 0x02);
    for i in 0..48u16 {
        assert_eq!(m.rb(0x8120 + i), 0x40 + i as u8);
    }
    assert_eq!(m.rb(0x8150), 0);
    assert_eq!(m.rb(0xFF55), 0xFF);
}

#[test]
fn transfer_in_horizontal_blanks() {
    let mut m = mmu(GbMode::Color);
    m.wb(0xFF40, 0x91);
    for i in 0..32u16 {
        m.wb(0xC000 + i, 1 + i as u8);
    }
    m.wb(0xFF51, 0xC0);
    m.wb(0xFF52, 0x00);
    m.wb(0xFF53, 0x00);
    m.wb(0xFF54, 0x00);
    m.wb(0xFF55, 0x81);
    assert_eq!(m.rb(0xFF55), 0x01);
    assert_eq!(m.rb(0x8000), 0);
    m.do_cycle(252);
    assert_eq!(m.rb(0x8000), 1);
    assert_eq!(m.rb(0x800F), 16);
    assert_eq!(m.rb(0x8010), 0);
    assert_eq!(m.rb(0xFF55), 0x00);
    m.do_cycle(456);
    assert_eq!(m.rb(0x8010), 17);
    assert_eq!(m.rb(0xFF55), 0xFF);
    m.wb(0xFF55, 0x83);
    m.do_cycle(456);
    assert_eq!(m.rb(0xFF55), 0x02);
    m.wb(0xFF55, 0x00);
    assert_eq!(m.rb(0xFF55), 0x82);
    m.do_cycle(456);
    assert_eq!(m.rb(0xFF55), 0x82);
}

#[test]
fn a_key_press_requests_the_joypad_interrupt() {
    let mut m = mmu(GbMode::Classic);
    m.wb(0xFF00, 0x20);
    m.keydown(KeypadKey::Up);
    assert_eq!(m.rb(0xFF00) & 0x0F, 0x0B);
    assert_eq!(m.rb(0xFF0F) & 0x10, 0x10);
    m.keyup(KeypadKey::Up);
    assert_eq!(m.rb(0xFF00) & 0x0F, 0x0F);
}

#[test]
fn low_nibble_of_f_is_zero() {
    let r = Registers::new(false);
    for v in [0x0000u16, 0x00FF, 0x12F7, 0xFFFF, 0xAB0F, 0x5A5A] {
        let w = r.exec_with_rp2(3, v);
        assert_eq!(w.exec_rp2(3), v & 0xFFF0);
        assert_eq!(w.f.exec_byte() & 0x0F, 0);
    }
    assert_eq!(Flags::from_byte(0xFF).exec_byte(), 0xF0);
    assert_eq!(r.f.exec_byte(), 0xB0);
}

#[test]
fn a_program_runs() {
    let program = [
        0x3E, 0x12, // LD A,0x12
        0x06, 0x34, // LD B,0x34
        0x80, // ADD A,B
        0x21, 0x00, 0xC0, // LD HL,0xC000
        0x77, // LD (HL),A
        0x34, // INC (HL)
        0xCB, 0x37, // SWAP A
        0x18, 0xFE, // JR -2
    ];
    let mut d = Device::new(image(&program), false).unwrap();
    assert_eq!(d.cpu.reg.pc, 0x0100);
    assert_eq!(d.cpu.reg.sp, 0xFFFE);
    assert_eq!(d.cpu.reg.a, 0x01);
    let want = [16, 8, 8, 4, 12, 8, 12, 8, 12, 12];
    for cycles in want {
        assert_eq!(step(&mut d), cycles);
    }
    assert_eq!(d.cpu.reg.a, 0x64);
    assert_eq!(d.cpu.reg.b, 0x34);
    assert_eq!(d.cpu.reg.exec_hl(), 0xC000);
    assert_eq!(d.read_byte(0xC000), 0x47);
    assert_eq!(d.cpu.reg.f.exec_byte(), 0x00);
    assert_eq!(d.cpu.reg.pc, 0x015C);
}

#[test]
fn arithmetic_sets_the_flags() {
    let program = [
        0x3E, 0x0F, 0xC6, 0x01, // LD A,0x0F; ADD A,1 -> 0x10, H
        0x3E, 0xFF, 0xC6, 0x01, // ADD -> 0, Z H C
        0x3E, 0x10, 0xD6, 0x01, // SUB 1 -> 0x0F, N H
        0x3E, 0x00, 0xD6, 0x01, // SUB 1 -> 0xFF, N H C
        0x3E, 0x45, 0xC6, 0x38, 0x27, // 45 + 38 = 7D; DAA -> 83
        0x3E, 0x5A, 0xE6, 0x0F, // AND -> 0x0A, H
        0xEE, 0x0A, // XOR -> 0, Z
        0xF6, 0x80, // OR -> 0x80
        0xFE, 0x80, // CP -> Z N
        0x07, // RLCA -> 0x01, C
        0x2F, // CPL -> 0xFE, N H
        0x37, // SCF
        0x3F, // CCF
    ];
    let mut d = Device::new(image(&program), false).unwrap();
    step(&mut d);
    let mut run = |n: usize, a: u8, f: u8| {
        for _ in 0..n {
            step(&mut d);
        }
        assert_eq!((d.cpu.reg.a, d.cpu.reg.f.exec_byte()), (a, f));
    };
    run(2, 0x10, 0x20);
    run(2, 0x00, 0xB0);
    run(2, 0x0F, 0x60);
    run(2, 0xFF, 0x70);
    run(2, 0x7D, 0x00);
    run(1, 0x83, 0x00);
    run(2, 0x0A, 0x20);
    run(1, 0x00, 0x80);
    run(1, 0x80, 0x00);
    run(1, 0x80, 0xC0);
    run(1, 0x01, 0x10);
    run(1, 0xFE, 0x70);
    run(1, 0xFE, 0x10);
    run(1, 0xFE, 0x00);
}

#[test]
fn calls_jumps_and_the_stack() {
    let program = [
        0x31, 0x00, 0xD0, // 150 LD SP,0xD000
        0xCD, 0x60, 0x01, // 153 CALL 0x160
        0x01, 0x34, 0x12, // 156 LD BC,0x1234
        0xC5, // 159 PUSH BC
        0xD1, // 15A POP DE
        0xAF, // 15B XOR A
        0xCA, 0x70, 0x01, // 15C JP Z,0x170
        0x00, // 15F
        0x3E, 0x07, // 160 LD A,7
        0xB7, // 162 OR A
        0xC8, // 163 RET Z (not taken)
        0xC0, // 164 RET NZ (taken)
    ];
    let mut d = Device::new(image(&program), false).unwrap();
    let want = [16, 12, 24, 8, 4, 8, 20, 12, 16, 12, 4, 16];
    for cycles in want {
        assert_eq!(step(&mut d), cycles);
    }
    assert_eq!(d.cpu.reg.pc, 0x0170);
    assert_eq!(d.cpu.reg.sp, 0xD000);
    assert_eq!((d.cpu.reg.d, d.cpu.reg.e), (0x12, 0x34));
    assert_eq!(d.read_byte(0xCFFE), 0x34);
    assert_eq!(d.read_byte(0xCFFF), 0x12);
}

#[test]
fn bit_instructions() {
    let program = [
        0x06, 0x81, // LD B,0x81
        0xCB, 0x00, // RLC B -> 0x03, C
        0xCB, 0x78, // BIT 7,B -> Z
        0xCB, 0xF8, // SET 7,B -> 0x83
        0xCB, 0x80, // RES 0,B -> 0x82
        0xCB, 0x38, // SRL B -> 0x41
        0xCB, 0x28, // SRA B -> 0x20, C
        0xCB, 0x30, // SWAP B -> 0x02
        0x21, 0x00, 0xC0, // LD HL,0xC000
        0x36, 0x80, // LD (HL),0x80
        0xCB, 0x26, // SLA (HL) -> 0, Z C
        0xCB, 0x7E, // BIT 7,(HL)
    ];
    let mut d = Device::new(image(&program), false).unwrap();
    step(&mut d);
    step(&mut d);
    let mut run = |cycles: u32, b: u8, f: u8| {
        assert_eq!(step(&mut d), cycles);
        assert_eq!((d.cpu.reg.b, d.cpu.reg.f.exec_byte()), (b, f));
    };
    run(8, 0x03, 0x10);
    run(8, 0x03, 0xB0);
    run(8, 0x83, 0xB0);
    run(8, 0x82, 0xB0);
    run(8, 0x41, 0x00);
    run(8, 0x20, 0x10);
    run(8, 0x02, 0x00);
    run(12, 0x02, 0x00);
    run(12, 0x02, 0x00);
    run(16, 0x02, 0x90);
    run(12, 0x02, 0xB0);
    assert_eq!(d.read_byte(0xC000), 0);
}

#[test]
fn an_interrupt_is_served() {
    let program = [
        0x3E, 0x01, // LD A,1
        0xE0, 0xFF, // LDH (0xFF),A
        0xFB, // EI
        0x00, // NOP
        0x18, 0xFE, // JR -2
    ];
    let mut d = Device::new(image(&program), false).unwrap();
    let mut cycles = 0;
    while d.cpu.reg.pc != 0x0040 {
        cycles += step(&mut d);
        assert!(cycles < 70224);
    }
    assert!(cycles >= 144 * 456);
    assert_eq!(d.cpu.reg.sp, 0xFFFC);
    assert_eq!(d.cpu.mmu.rw(0xFFFC), 0x0156);
    assert_eq!(d.read_byte(0xFF0F) & 1, 0);
    assert_eq!(d.cpu.state.ime, rboy::cpu::Ime::Disabled);
}

#[test]
fn halt_sleeps_until_an_interrupt() {
    let mut rom = image(&[
        0x3E, 0x01, // LD A,1
        0xE0, 0xFF, // LDH (0xFF),A
        0xFB, // EI
        0x76, // HALT
        0x04, // INC B
        0x18, 0xFE, // JR -2
    ]);
    rom[0x40] = 0xD9; // RETI
    let mut d = Device::new(rom, true).unwrap();
    for _ in 0..5 {
        step(&mut d);
    }
    assert!(d.cpu.state.halted);
    let b = d.cpu.reg.b;
    let mut cycles = 0;
    loop {
        let took = step(&mut d);
        cycles += took;
        assert!(cycles < 70224);
        if !d.cpu.state.halted {
            assert_eq!(took, 20);
            break;
        }
        assert_eq!(took, 4);
    }
    assert!(cycles >= 144 * 456 - 100);
    assert_eq!(d.cpu.reg.pc, 0x0040);
    assert_eq!(step(&mut d), 16);
    assert_eq!(d.cpu.reg.pc, 0x0156);
    assert_eq!(d.cpu.state.ime, rboy::cpu::Ime::Enabled);
    step(&mut d);
    assert_eq!(d.cpu.reg.b, b.wrapping_add(1));
}

#[test]
fn halt_with_interrupts_off_reads_the_next_byte_twice() {
    let program = [
        0x3E, 0x01, // LD A,1
        0xE0, 0xFF, // LDH (0xFF),A   IE = 1
        0xE0, 0x0F, // LDH (0x0F),A   IF = 1
        0x76, // HALT, does not sleep
        0x3C, // INC A, executed twice
        0x18, 0xFE,
    ];
    let mut d = Device::new(image(&program), false).unwrap();
    for _ in 0..5 {
        step(&mut d);
    }
    assert!(!d.cpu.state.halted);
    step(&mut d);
    assert_eq!(d.cpu.reg.a, 2);
    assert_eq!(d.cpu.reg.pc, 0x0157);
    step(&mut d);
    assert_eq!(d.cpu.reg.a, 3);
    assert_eq!(d.cpu.reg.pc, 0x0158);
}

#[test]
fn undefined_opcodes_stop_the_machine() {
    for op in [0xD3u8, 0xDB, 0xDD, 0xE3, 0xE4, 0xEB, 0xEC, 0xED, 0xF4, 0xFC, 0xFD] {
        let mut d = Device::new(image(&[op]), false).unwrap();
        step(&mut d);
        assert!(!d.can_step());
        assert_eq!(run_cycles(&mut d, 10), 0);
    }
    let mut d = Device::new(image(&[0x00, 0x00, 0xD3]), false).unwrap();
    assert_eq!(run_cycles(&mut d, 10), 3);
    assert_eq!(d.cpu.reg.pc, 0x0152);
}

#[test]
fn stop_changes_the_speed_on_the_colour_machine() {
    let program = [
        0x3E, 0x01, // LD A,1
        0xE0, 0x4D, // LDH (0x4D),A
        0x10, 0x00, // STOP
        0x00, 0x18, 0xFE,
    ];
    let mut d = Device::new_cgb(image_with(0x80, &program), false).unwrap();
    assert_eq!(d.cpu.reg.a, 0x11);
    for _ in 0..4 {
        step(&mut d);
    }
    assert_eq!(d.read_byte(0xFF4D), 0xFE);
    assert_eq!(d.cpu.reg.pc, 0x0156);
    assert_eq!(step(&mut d), 2);
    let mut d = Device::new(image(&program), false).unwrap();
    for _ in 0..4 {
        step(&mut d);
    }
    assert!(d.cpu.state.stopped);
    assert_eq!(step(&mut d), 4);
    assert_eq!(d.cpu.reg.pc, 0x0156);
    d.keydown(KeypadKey::Start);
    assert_eq!(step(&mut d), 4);
    assert!(d.cpu.state.stopped);
    d.write_byte(0xFF00, 0x10);
    d.keyup(KeypadKey::Start);
    d.keydown(KeypadKey::Start);
    assert_eq!(step(&mut d), 4);
    assert!(!d.cpu.state.stopped);
    assert_eq!(d.cpu.reg.pc, 0x0157);
}

#[test]
fn vblank_cadence() {
    let mut d = Device::new(image(&[0x18, 0xFE]), false).unwrap();
    let mut cycles = 0;
    let mut frames = 0;
    while cycles < 70224 {
        cycles += step(&mut d);
        if d.check_and_reset_gpu_updated() {
            frames += 1;
            assert_eq!(d.read_byte(0xFF0F) & 1, 1);
        }
    }
    assert_eq!(frames, 1);
    assert_eq!(d.read_byte(0xFF0F) & 1, 1);
    d.write_byte(0xFF0F, 0);
    while cycles < 2 * 70224 {
        cycles += step(&mut d);
        if d.check_and_reset_gpu_updated() {
            frames += 1;
        }
    }
    assert_eq!(frames, 2);
    assert_eq!(d.get_gpu_data().len(), 160 * 144 * 3);
}

#[test]
fn loading_checks_the_header() {
    let good = image(&[0x18, 0xFE]);
    let mut bad = good.clone();
    bad[0x14D] ^= 0xFF;
    assert_eq!(Device::new(bad.clone(), false).err(), Some("Cartridge checksum is invalid"));
    assert!(Device::new(bad.clone(), true).is_ok());
    assert_eq!(Device::new_cgb(bad.clone(), false).err(), Some("Cartridge checksum is invalid"));
    assert!(Device::new_cgb(bad, true).is_ok());
    assert_eq!(Device::new(vec![0; 16], true).err(), Some("Cartridge header is invalid"));
    let mut mbc7 = good.clone();
    mbc7[0x147] = 0x22;
    assert_eq!(Device::new(mbc7, true).err(), Some("Unsupported MBC type"));
    let mut no_ram = good.clone();
    no_ram[0x147] = 0x02;
    assert_eq!(Device::new(no_ram, true).err(), Some("Cartridge RAM size does not fit its type"));
    assert_eq!(Device::new(good, false).unwrap().romname(), "TESTROM");
}

#[test]
fn the_machine_starts_as_after_the_boot_program() {
    let d = Device::new(image(&[]), false).unwrap();
    assert_eq!(d.read_byte(0xFF40), 0x91);
    assert_eq!(d.read_byte(0xFF47), 0xFC);
    assert_eq!(d.read_byte(0xFF26), 0xF1);
    assert_eq!(d.read_byte(0xFF24), 0x77);
    assert_eq!(d.read_byte(0xFF25), 0xF3);
    assert_eq!(d.read_byte(0xFF44), 0);
    assert_eq!(d.read_byte(0xFF0F), 0xE0);
    assert_eq!(d.cpu.reg.exec_rp(0), 0x0013);
    assert_eq!(d.cpu.reg.exec_rp(1), 0x00D8);
    assert_eq!(d.cpu.reg.exec_rp(2), 0x014D);
    assert_eq!(d.cpu.reg.exec_rp2(3), 0x01B0);
    assert_eq!(d.cpu.mmu.regs.gbmode, GbMode::Classic);
    let d = Device::new_cgb(image_with(0xC0, &[]), false).unwrap();
    assert_eq!(d.cpu.mmu.regs.gbmode, GbMode::Color);
    let d = Device::new_cgb(image(&[]), false).unwrap();
    assert_eq!(d.cpu.mmu.regs.gbmode, GbMode::ColorAsClassic);
    assert_eq!(d.cpu.reg.a, 0x01);
}

#[test]
fn serial_output_reaches_the_host() {
    let mut program = Vec::new();
    for b in "Passed".bytes() {
        program.extend_from_slice(&[0x3E, b, 0xE0, 0x01, 0x3E, 0x81, 0xE0, 0x02]);
    }
    program.extend_from_slice(&[0x18, 0xFE]);
    let mut d = construct_cpu(image(&program), true, true, false, false).unwrap();
    assert!(!d.printer);
    assert_eq!(run_cycles(&mut d, 200), 200);
    assert_eq!(d.take_serial_output(), "Passed".bytes().collect::<Vec<u8>>());
    assert!(d.take_serial_output().is_empty());
    let mut d = construct_cpu(image(&program), true, false, false, false).unwrap();
    run_cycles(&mut d, 200);
    assert!(d.take_serial_output().is_empty());
    let mut d = construct_cpu(image(&program), false, false, true, false).unwrap();
    assert!(d.printer);
    run_cycles(&mut d, 200);
    assert_eq!(d.take_serial_output().len(), 6);
    assert!(construct_cpu(vec![], true, true, false, true).is_err());
}

#[test]
fn sound_makes_samples_at_the_rate_asked_for() {
    let mut d = Device::new(image(&[0x18, 0xFE]), false).unwrap();
    assert_eq!(run_cycles(&mut d, 100), 100);
    assert!(d.take_audio().is_empty());
    d.enable_audio(44100);
    let mut cycles: u64 = 0;
    while cycles < 70224 {
        cycles += step(&mut d) as u64;
    }
    let samples = d.take_audio();
    assert_eq!(samples.len() as u64, cycles * 44100 / 4194304);
    assert!(samples.iter().all(|s| -480 <= s.0 && s.0 <= 480 && -480 <= s.1 && s.1 <= 480));
    step(&mut d);
    d.sync_audio();
    assert!(d.take_audio().is_empty());
}

#[test]
fn a_square_wave_sounds() {
    let mut s = Sound::new();
    s.set_sample_rate(4_194_304);
    s.wb(0xFF26, 0x80);
    assert_eq!(s.rb(0xFF26), 0xF0);
    s.wb(0xFF24, 0x73);
    s.wb(0xFF25, 0x11);
    s.wb(0xFF11, 0x80);
    s.wb(0xFF12, 0xF0);
    s.wb(0xFF13, 0x00);
    s.wb(0xFF14, 0x87);
    assert_eq!(s.rb(0xFF26), 0xF1);
    assert_eq!(s.rb(0xFF11), 0xBF);
    assert_eq!(s.rb(0xFF12), 0xF0);
    assert_eq!(s.rb(0xFF14), 0xBF);
    assert_eq!(s.rb(0xFF13), 0xFF);
    s.do_cycle(8 * 1024);
    let samples = s.take_samples();
    assert_eq!(samples.len(), 8 * 1024);
    // frequency 0x700: a step of the wave lasts 1024 cycles; duty 2 is high
    // on steps 0, 5, 6 and 7
    let high = (15 * 8, 15 * 4);
    let low = (-15 * 8, -15 * 4);
    assert_eq!(samples[0], high);
    assert_eq!(samples[1022], high);
    assert_eq!(samples[1023], low);
    assert_eq!(samples[1024 * 5 - 2], low);
    assert_eq!(samples[1024 * 5 - 1], high);
    assert_eq!(samples[1024 * 8 - 2], high);
    assert_eq!(samples[1024 * 8 - 1], high);
}

#[test]
fn a_length_counter_silences_its_channel() {
    let mut s = Sound::new();
    s.wb(0xFF26, 0x80);
    s.wb(0xFF12, 0xF0);
    s.wb(0xFF11, 0x3E);
    s.wb(0xFF14, 0xC0);
    assert_eq!(s.rb(0xFF26) & 1, 1);
    assert_eq!(s.rb(0xFF14), 0xFF);
    s.do_cycle(8192);
    assert_eq!(s.rb(0xFF26) & 1, 1);
    s.do_cycle(8192 * 2 - 1);
    assert_eq!(s.rb(0xFF26) & 1, 1);
    s.do_cycle(1);
    assert_eq!(s.rb(0xFF26) & 1, 0);
}

#[test]
fn an_envelope_fades_the_volume() {
    let mut s = Sound::new();
    s.set_sample_rate(4_194_304);
    s.wb(0xFF26, 0x80);
    s.wb(0xFF24, 0x00);
    s.wb(0xFF25, 0x02);
    s.wb(0xFF16, 0xC0);
    s.wb(0xFF17, 0x21);
    s.wb(0xFF18, 0xFF);
    s.wb(0xFF19, 0x87);
    s.do_cycle(8192 * 8 * 3);
    let samples = s.take_samples();
    let peak = |from: usize, to: usize| samples[from..to].iter().map(|p| p.1).max().unwrap();
    assert_eq!(peak(0, 8192 * 8 - 1), 2 * 2 - 15);
    assert_eq!(peak(8192 * 8, 8192 * 16 - 1), 2 * 1 - 15);
    assert_eq!(peak(8192 * 16, 8192 * 24), -15);
    assert!(samples.iter().all(|p| p.0 == 0));
}

#[test]
fn the_sound_unit_switches_off() {
    let mut s = Sound::new();
    s.wb(0xFF12, 0xF0);
    assert_eq!(s.rb(0xFF12), 0x00);
    s.wb(0xFF26, 0x80);
    s.wb(0xFF12, 0xF3);
    s.wb(0xFF30, 0xAB);
    s.wb(0xFF10, 0x7F);
    assert_eq!(s.rb(0xFF10), 0xFF);
    assert_eq!(s.rb(0xFF12), 0xF3);
    s.wb(0xFF26, 0x00);
    assert_eq!(s.rb(0xFF26), 0x70);
    assert_eq!(s.rb(0xFF12), 0x00);
    assert_eq!(s.rb(0xFF10), 0x80);
    assert_eq!(s.rb(0xFF30), 0xAB);
}

#[test]
fn the_wave_channel_plays_its_table() {
    let mut s = Sound::new();
    s.set_sample_rate(4_194_304);
    s.wb(0xFF26, 0x80);
    s.wb(0xFF24, 0x00);
    s.wb(0xFF25, 0x04);
    s.wb(0xFF30, 0x0F);
    s.wb(0xFF31, 0x84);
    s.wb(0xFF1A, 0x80);
    s.wb(0xFF1C, 0x20);
    s.wb(0xFF1D, 0xFF);
    s.wb(0xFF1E, 0x87);
    s.do_cycle(8);
    let got: Vec<i16> = s.take_samples().iter().map(|p| p.1).collect();
    assert_eq!(got, vec![-15, 15, 15, 1, 1, -7, -7, -15]);
    s.wb(0xFF1C, 0x40);
    s.wb(0xFF1E, 0x87);
    s.do_cycle(4);
    let got: Vec<i16> = s.take_samples().iter().map(|p| p.1).collect();
    assert_eq!(got, vec![-15, -1, -1, -7]);
}

#[test]
fn the_runner_counts_slices() {
    let mut d = Device::new(image(&[0x18, 0xFE]), false).unwrap();
    let mut r = Runner::new();
    assert!(r.limit_speed);
    let mut cycles = 16;
    let o = r.step(&mut d);
    assert!(!o.frame && !o.slice_done);
    assert_eq!(r.ticks, 16);
    let mut frames = 0;
    loop {
        assert!(d.can_step());
        let o = r.step(&mut d);
        cycles += 12;
        if o.frame {
            frames += 1;
        }
        if o.slice_done {
            break;
        }
    }
    assert_eq!(frames, 1);
    assert!(cycles >= 67109 && cycles < 67109 + 12);
    assert_eq!(r.ticks, cycles - 67109);
}

#[test]
fn the_runner_applies_events() {
    let mut d = Device::new(image(&[0x18, 0xFE]), false).unwrap();
    let mut r = Runner::new();
    d.write_byte(0xFF00, 0x10);
    assert_eq!(r.apply_event(&mut d, GBEvent::KeyDown(KeypadKey::B)), RunnerAction::Nothing);
    assert_eq!(d.read_byte(0xFF00), 0xDD);
    assert_eq!(r.apply_event(&mut d, GBEvent::KeyUp(KeypadKey::B)), RunnerAction::Nothing);
    assert_eq!(d.read_byte(0xFF00), 0xDF);
    assert_eq!(r.apply_event(&mut d, GBEvent::SpeedUp), RunnerAction::Nothing);
    assert!(!r.limit_speed);
    d.enable_audio(44100);
    run_cycles(&mut d, 100);
    assert_eq!(r.apply_event(&mut d, GBEvent::SpeedDown), RunnerAction::Nothing);
    assert!(r.limit_speed);
    assert!(d.take_audio().is_empty());
    assert_eq!(r.apply_event(&mut d, GBEvent::Pause), RunnerAction::Pause);
    assert_eq!(r.apply_event(&mut d, GBEvent::Resume), RunnerAction::Nothing);
    assert_eq!(r.apply_event(&mut d, GBEvent::LoadPlugin), RunnerAction::LoadPlugin);
    assert_eq!(r.apply_event(&mut d, GBEvent::RunPlugin), RunnerAction::NoPluginLoaded);
    r.plugin_loaded(PluginTable { plugin_fn: PluginSource::Value });
    assert_eq!(r.apply_event(&mut d, GBEvent::RunPlugin), RunnerAction::RunPlugin);
}

#[test]
fn plugins_read_and_write_memory() {
    let mut d = Device::new(image(&[0x18, 0xFE]), false).unwrap();
    assert!(plugin_writebyte(&mut d, &ScriptValue::Integer(0xC000), &ScriptValue::Integer(0x12)).is_none());
    assert!(plugin_writebyte(&mut d, &ScriptValue::Integer(0x1C001), &ScriptValue::Integer(0x134)).is_none());
    assert!(plugin_writebyte(&mut d, &ScriptValue::Integer(-1), &ScriptValue::Integer(-1)).is_none());
    let read = |d: &Device, a: i64| match plugin_readbyte(d, &ScriptValue::Integer(a)) {
        ScriptValue::Integer(v) => v,
        other => panic!("{:?}", other),
    };
    assert_eq!(read(&d, 0xC000), 0x12);
    assert_eq!(read(&d, 0xC001), 0x34);
    assert_eq!(read(&d, 0xFFFF), 0xFF);
    assert_eq!(read(&d, -0x10000 + 0xC000), 0x12);
    assert_eq!(read(&d, i64::MIN + 0xC001), 0x34);
    assert_eq!(read(&d, 0x0150), 0x18);
    assert!(matches!(plugin_readbyte(&d, &ScriptValue::Nil), ScriptValue::Nil));
    assert!(matches!(plugin_readbyte(&d, &ScriptValue::Number), ScriptValue::Nil));
    assert!(matches!(
        plugin_writebyte(&mut d, &ScriptValue::Boolean(true), &ScriptValue::Integer(1)),
        Some(ScriptValue::Nil)
    ));
    assert!(matches!(
        plugin_writebyte(&mut d, &ScriptValue::Integer(0xC000), &ScriptValue::Nil),
        Some(ScriptValue::Nil)
    ));
    assert_eq!(read(&d, 0xC000), 0x12);
}

#[test]
fn loads_and_word_arithmetic() {
    let program = [
        0x31, 0xF0, 0xCF, // 150 LD SP,0xCFF0
        0x08, 0x00, 0xC1, // 153 LD (0xC100),SP
        0xE8, 0x10, // 156 ADD SP,0x10
        0xF8, 0xFF, // 158 LD HL,SP-1
        0x3E, 0xA5, // 15A LD A,0xA5
        0x22, // 15C LD (HL+),A
        0x32, // 15D LD (HL-),A
        0x2A, // 15E LD A,(HL+)
        0x01, 0xFF, 0xFF, // 15F LD BC,0xFFFF
        0x03, // 162 INC BC
        0x0B, // 163 DEC BC
        0xF5, // 164 PUSH AF
        0xC1, // 165 POP BC
        0x0E, 0x80, // 166 LD C,0x80
        0xE2, // 168 LD (0xFF00+C),A
        0xAF, // 169 XOR A
        0xF2, // 16A LD A,(0xFF00+C)
        0xEF, // 16B RST 0x28
        0x09, // 16C ADD HL,BC
        0x18, 0xFE,
    ];
    let mut rom = image(&program);
    rom[0x28] = 0xC9; // RET
    let mut d = Device::new(rom, true).unwrap();
    let want = [16, 12, 20, 16, 12, 8, 8, 8, 8, 12, 8, 8, 16, 12, 8, 8, 4, 8, 16];
    for cycles in want {
        assert_eq!(step(&mut d), cycles);
    }
    assert_eq!(d.cpu.reg.pc, 0x0028);
    assert_eq!(d.cpu.reg.sp, 0xCFFE);
    assert_eq!(d.cpu.mmu.rw(0xCFFE), 0x016C);
    assert_eq!(step(&mut d), 16);
    assert_eq!(d.cpu.reg.pc, 0x016C);
    assert_eq!(d.cpu.reg.sp, 0xD000);
    assert_eq!(d.cpu.mmu.rw(0xC100), 0xCFF0);
    assert_eq!(d.read_byte(0xD000), 0xA5);
    assert_eq!(d.read_byte(0xFF80), 0xA5);
    assert_eq!(d.cpu.reg.a, 0xA5);
    assert_eq!(d.cpu.reg.exec_rp(0), 0xA580);
    assert_eq!(d.cpu.reg.exec_hl(), 0xD000);
    assert_eq!(d.cpu.reg.f.exec_byte(), 0x80);
    assert_eq!(step(&mut d), 8);
    assert_eq!(d.cpu.reg.exec_hl(), 0x7580);
    assert_eq!(d.cpu.reg.f.exec_byte(), 0x90);
}

#[test]
fn word_offsets_set_the_flags_of_the_low_byte() {
    let program = [
        0x31, 0xFF, 0x00, // LD SP,0x00FF
        0xE8, 0x01, // ADD SP,1 -> 0x0100, H C
        0xE8, 0xFF, // ADD SP,-1 -> 0x00FF
        0x31, 0x00, 0x00, // LD SP,0
        0xF8, 0xFE, // LD HL,SP-2 -> 0xFFFE
    ];
    let mut d = Device::new(image(&program), false).unwrap();
    for _ in 0..3 {
        step(&mut d);
    }
    assert_eq!((d.cpu.reg.sp, d.cpu.reg.f.exec_byte()), (0x0100, 0x30));
    step(&mut d);
    assert_eq!((d.cpu.reg.sp, d.cpu.reg.f.exec_byte()), (0x00FF, 0x00));
    step(&mut d);
    step(&mut d);
    assert_eq!((d.cpu.reg.exec_hl(), d.cpu.reg.sp, d.cpu.reg.f.exec_byte()), (0xFFFE, 0, 0x00));
}

#[test]
fn carry_arithmetic_and_relative_jumps() {
    let program = [
        0x37, // 150 SCF
        0x3E, 0x0F, // 151 LD A,0x0F
        0xCE, 0x00, // 153 ADC A,0 -> 0x10, H
        0x37, // 155 SCF
        0x3E, 0x10, // 156 LD A,0x10
        0xDE, 0x0F, // 158 SBC A,0x0F -> 0, Z N H
        0x20, 0x02, // 15A JR NZ,+2 (not taken)
        0x28, 0x01, // 15C JR Z,+1 (taken)
        0x3C, // 15E INC A (skipped)
        0x3D, // 15F DEC A -> 0xFF, N H
        0x30, 0xED, // 160 JR NC,-19 -> 0x14F
    ];
    let mut d = Device::new(image(&program), false).unwrap();
    for _ in 0..4 {
        step(&mut d);
    }
    assert_eq!((d.cpu.reg.a, d.cpu.reg.f.exec_byte()), (0x10, 0x20));
    for _ in 0..3 {
        step(&mut d);
    }
    assert_eq!((d.cpu.reg.a, d.cpu.reg.f.exec_byte()), (0x00, 0xE0));
    assert_eq!(step(&mut d), 8);
    assert_eq!(d.cpu.reg.pc, 0x015C);
    assert_eq!(step(&mut d), 12);
    assert_eq!(d.cpu.reg.pc, 0x015F);
    assert_eq!(step(&mut d), 4);
    assert_eq!((d.cpu.reg.a, d.cpu.reg.f.exec_byte()), (0xFF, 0x60));
    assert_eq!(step(&mut d), 12);
    assert_eq!(d.cpu.reg.pc, 0x014F);
}

#[test]
fn ei_and_di_switch_the_interrupts() {
    let program = [
        0xFB, // EI
        0xF3, // DI
        0xFB, // EI
        0x00, // NOP
        0x18, 0xFE,
    ];
    let mut d = Device::new(image(&program), false).unwrap();
    assert_eq!(d.cpu.state.ime, rboy::cpu::Ime::Disabled);
    step(&mut d);
    step(&mut d);
    assert_eq!(d.cpu.state.ime, rboy::cpu::Ime::PendingEnable);
    step(&mut d);
    assert_eq!(d.cpu.state.ime, rboy::cpu::Ime::Disabled);
    step(&mut d);
    assert_eq!(d.cpu.state.ime, rboy::cpu::Ime::PendingEnable);
    step(&mut d);
    assert_eq!(d.cpu.state.ime, rboy::cpu::Ime::Enabled);
}

#[test]
fn interrupts_are_served_in_the_order_of_their_priority() {
    let program = [0xFB, 0x00, 0x00, 0x00];
    let mut d = Device::new(image(&program), false).unwrap();
    d.write_byte(0xFFFF, 0x1F);
    d.write_byte(0xFF0F, 0x1A);
    step(&mut d);
    step(&mut d);
    assert_eq!(step(&mut d), 20);
    assert_eq!(d.cpu.reg.pc, 0x0048);
    assert_eq!(d.read_byte(0xFF0F), 0xF8);
    assert_eq!(d.cpu.mmu.rw(d.cpu.reg.sp), 0x0151);
    d.cpu.state.ime = rboy::cpu::Ime::Enabled;
    assert_eq!(step(&mut d), 20);
    assert_eq!(d.cpu.reg.pc, 0x0058);
    assert_eq!(d.read_byte(0xFF0F), 0xF0);
    d.cpu.state.ime = rboy::cpu::Ime::Enabled;
    assert_eq!(step(&mut d), 20);
    assert_eq!(d.cpu.reg.pc, 0x0060);
    assert_eq!(d.read_byte(0xFF0F), 0xE0);
    d.write_byte(0xFFFF, 0x00);
    d.write_byte(0xFF0F, 0x1F);
    d.cpu.state.ime = rboy::cpu::Ime::Enabled;
    assert_eq!(step(&mut d), 4);
    assert_eq!(d.cpu.reg.pc, 0x0061);
}

#[test]
fn colour_map_attributes_flip_and_bank_tiles() {
    let mut g = Gpu::new(GbMode::Color);
    // palette 0: colour 0 black, colour 1 red; palette 1: colour 1 blue
    g.wb(0xFF68, 0x82);
    g.wb(0xFF69, 0x1F);
    g.wb(0xFF69, 0x00);
    g.wb(0xFF68, 0x8A);
    g.wb(0xFF69, 0x00);
    g.wb(0xFF69, 0x7C);
    // tile 0 in bank 0: leftmost point of row 0; in bank 1: rightmost point of row 7
    g.wb(0x8000, 0x80);
    g.wb(0xFF4F, 1);
    g.wb(0x800E, 0x01);
    // map entry 1: palette 1, bank 1, flipped both ways
    g.wb(0x9801, 0x69);
    g.wb(0xFF4F, 0);
    g.wb(0xFF40, 0x91);
    g.do_cycle(252);
    assert_eq!(pixel(&g, 0, 0), (255, 0, 0));
    assert_eq!(pixel(&g, 1, 0), (0, 0, 0));
    assert_eq!(pixel(&g, 8, 0), (0, 0, 255));
    assert_eq!(pixel(&g, 9, 0), (0, 0, 0));
    assert_eq!(pixel(&g, 15, 0), (0, 0, 0));
}

#[test]
fn tall_sprites_use_two_tiles() {
    let mut g = lcd_on();
    g.wb(0xFF40, 0x97);
    g.wb(0x8040, 0xFF);
    g.wb(0x8041, 0xFF);
    g.wb(0x805E, 0xFF);
    g.wb(0xFE00, 16);
    g.wb(0xFE01, 8);
    g.wb(0xFE02, 5);
    g.do_cycle(252);
    assert_eq!(pixel(&g, 0, 0), (0, 0, 0));
    g.do_cycle(456 * 15);
    assert_eq!(pixel(&g, 0, 1), (255, 255, 255));
    assert_eq!(pixel(&g, 0, 14), (255, 255, 255));
    assert_eq!(pixel(&g, 0, 15), (192, 192, 192));
    g.do_cycle(456);
    assert_eq!(pixel(&g, 0, 16), (255, 255, 255));
    g.wb(0xFE03, 0x40);
    g.do_cycle(456 * 153);
    assert_eq!(pixel(&g, 0, 15), (0, 0, 0));
    assert_eq!(pixel(&g, 0, 0), (192, 192, 192));
}
