use rboy::keypad::{Keypad, KeypadKey};
use rboy::mbc::header::{check_header, compute_checksum, title, CartridgeError};
use rboy::mbc::Cartridge;
use rboy::serial::Serial;
use rboy::timer::Timer;

const LOGO: [u8; 48] = [
    0xCE, 0xED, 0x66, 0x66, 0xCC, 0x0D, 0x00, 0x0B, 0x03, 0x73, 0x00, 0x83, 0x00, 0x0C, 0x00, 0x0D,
    0x00, 0x08, 0x11, 0x1F, 0x88, 0x89, 0x00, 0x0E, 0xDC, 0xCC, 0x6E, 0xE6, 0xDD, 0xDD, 0xD9, 0x99,
    0xBB, 0xBB, 0x67, 0x63, 0x6E, 0x0E, 0xEC, 0xCC, 0xDD, 0xDC, 0x99, 0x9F, 0xBB, 0xB9, 0x33, 0x3E,
];

/// An image whose every byte from 0x200 of a bank is the number of the bank.
fn image(cart_type: u8, rom_code: u8, ram_code: u8) -> Vec<u8> {
    let banks = 2usize << rom_code;
    let mut r = vec![0u8; banks * 0x4000];
    for bank in 0..banks {
        for k in 0x200..0x4000 {
            r[bank * 0x4000 + k] = bank as u8;
        }
    }
    r[0x104..0x134].copy_from_slice(&LOGO);
    for (i, b) in "TESTROM".bytes().enumerate() {
        r[0x134 + i] = b;
    }
    r[0x147] = cart_type;
    r[0x148] = rom_code;
    r[0x149] = ram_code;
    let mut x: u8 = 0;
    for i in 0x134..0x14D {
        x = x.wrapping_sub(r[i]).wrapping_sub(1);
    }
    r[0x14D] = x;
    r
}

#[test]
fn div_counts_every_256_cycles() {
    let mut t = Timer::new();
    assert_eq!(t.rb(0xFF04), 0);
    assert!(!t.do_cycle(255));
    assert_eq!(t.rb(0xFF04), 0);
    t.do_cycle(1);
    assert_eq!(t.rb(0xFF04), 1);
    t.do_cycle(256 * 254);
    assert_eq!(t.rb(0xFF04), 255);
    t.do_cycle(256);
    assert_eq!(t.rb(0xFF04), 0);
}

#[test]
fn writing_div_resets_it() {
    let mut t = Timer::new();
    t.do_cycle(5000);
    assert_eq!(t.rb(0xFF04), 19);
    t.wb(0xFF04, 0xAB);
    assert_eq!(t.rb(0xFF04), 0);
    t.do_cycle(4);
    assert_eq!(t.rb(0xFF04), 0);
    t.do_cycle(251);
    assert_eq!(t.rb(0xFF04), 0);
    t.do_cycle(1);
    assert_eq!(t.rb(0xFF04), 1);
}

#[test]
fn tima_counts_at_the_rate_of_tac() {
    for (tac, period) in [(4u8, 1024u32), (5, 16), (6, 64), (7, 256)] {
        let mut t = Timer::new();
        t.wb(0xFF07, tac);
        assert_eq!(t.rb(0xFF07), 0xF8 | tac);
        t.do_cycle(period - 1);
        assert_eq!(t.rb(0xFF05), 0, "tac {}", tac);
        t.do_cycle(1);
        assert_eq!(t.rb(0xFF05), 1, "tac {}", tac);
        t.do_cycle(period * 9);
        assert_eq!(t.rb(0xFF05), 10, "tac {}", tac);
    }
}

#[test]
fn tima_stands_still_while_the_timer_is_off() {
    let mut t = Timer::new();
    t.wb(0xFF07, 1);
    assert!(!t.do_cycle(100_000));
    assert_eq!(t.rb(0xFF05), 0);
}

#[test]
fn tima_overflow_reloads_and_interrupts_a_cycle_later() {
    let mut t = Timer::new();
    t.wb(0xFF06, 0xF0);
    t.wb(0xFF05, 0xFF);
    t.wb(0xFF07, 5);
    assert!(!t.do_cycle(15));
    assert_eq!(t.rb(0xFF05), 0xFF);
    assert!(!t.do_cycle(1));
    assert_eq!(t.rb(0xFF05), 0x00);
    assert!(t.do_cycle(1));
    assert_eq!(t.rb(0xFF05), 0xF0);
    assert!(!t.do_cycle(14));
    assert_eq!(t.rb(0xFF05), 0xF0);
    t.do_cycle(1);
    assert_eq!(t.rb(0xFF05), 0xF1);
    assert_eq!(t.rb(0xFF06), 0xF0);
    assert_eq!(t.rb(0xFF10), 0xFF);
}

#[test]
fn joypad_reads_high_when_idle() {
    let mut k = Keypad::new();
    assert_eq!(k.rb(), 0xFF);
    k.wb(0x00);
    assert_eq!(k.rb(), 0xCF);
    k.wb(0x10);
    assert_eq!(k.rb(), 0xDF);
    k.wb(0x20);
    assert_eq!(k.rb(), 0xEF);
}

#[test]
fn joypad_shows_the_selected_group() {
    let mut k = Keypad::new();
    assert!(!k.keydown(KeypadKey::A));
    assert!(!k.keydown(KeypadKey::Down));
    assert_eq!(k.rb(), 0xFF);
    k.wb(0x10);
    assert_eq!(k.rb(), 0xDE);
    k.wb(0x20);
    assert_eq!(k.rb(), 0xE7);
    k.wb(0x00);
    assert_eq!(k.rb(), 0xC6);
    k.keyup(KeypadKey::A);
    assert_eq!(k.rb(), 0xC7);
    k.keyup(KeypadKey::Down);
    assert_eq!(k.rb(), 0xCF);
}

#[test]
fn joypad_lines_of_all_keys() {
    let cases = [
        (KeypadKey::Right, 0x20u8, 0xEE),
        (KeypadKey::Left, 0x20, 0xED),
        (KeypadKey::Up, 0x20, 0xEB),
        (KeypadKey::Down, 0x20, 0xE7),
        (KeypadKey::A, 0x10, 0xDE),
        (KeypadKey::B, 0x10, 0xDD),
        (KeypadKey::Select, 0x10, 0xDB),
        (KeypadKey::Start, 0x10, 0xD7),
    ];
    for (key, select, reads) in cases {
        let mut k = Keypad::new();
        k.wb(select);
        assert!(k.keydown(key));
        assert_eq!(k.rb(), reads);
    }
}

#[test]
fn joypad_interrupts_when_a_line_falls() {
    let mut k = Keypad::new();
    k.wb(0x20);
    assert!(k.keydown(KeypadKey::Left));
    assert!(!k.keydown(KeypadKey::Left));
    assert!(!k.keydown(KeypadKey::B));
    assert!(k.keydown(KeypadKey::Up));
    k.keyup(KeypadKey::Left);
    assert!(k.keydown(KeypadKey::Left));
}

#[test]
fn serial_transfer_takes_4096_cycles() {
    let mut s = Serial::new();
    s.set_tapped(true);
    s.wb(0xFF01, 0x42);
    assert_eq!(s.rb(0xFF01), 0x42);
    s.wb(0xFF02, 0x81);
    assert_eq!(s.rb(0xFF02), 0xFF);
    assert!(!s.do_cycle(4095));
    assert_eq!(s.rb(0xFF01), 0x42);
    assert!(s.do_cycle(1));
    assert_eq!(s.rb(0xFF01), 0xFF);
    assert_eq!(s.rb(0xFF02), 0x7F);
    assert!(!s.do_cycle(10_000));
    assert_eq!(s.take_sent(), vec![0x42]);
    assert_eq!(s.take_sent(), Vec::<u8>::new());
}

#[test]
fn serial_keeps_nothing_when_not_tapped() {
    let mut s = Serial::new();
    s.wb(0xFF01, 0x42);
    s.wb(0xFF02, 0x80);
    assert!(s.do_cycle(5000));
    assert!(s.take_sent().is_empty());
    s.wb(0xFF02, 0x01);
    assert!(!s.do_cycle(5000));
}

#[test]
fn header_checksum_is_enforced() {
    let good = image(0x00, 0, 0);
    assert_eq!(good[0x14D], compute_checksum(&good));
    assert!(check_header(&good, false).is_ok());
    let mut bad = good.clone();
    bad[0x14D] = bad[0x14D].wrapping_add(1);
    assert_eq!(check_header(&bad, false), Err(CartridgeError::BadChecksum));
    assert!(check_header(&bad, true).is_ok());
    assert!(Cartridge::load(bad.clone(), false).is_err());
    assert!(Cartridge::load(bad, true).is_ok());
}

#[test]
fn header_checksum_value() {
    let mut r = vec![0u8; 0x150];
    assert_eq!(compute_checksum(&r), 0xE7);
    r[0x134] = 1;
    assert_eq!(compute_checksum(&r), 0xE6);
    r[0x14C] = 0xFF;
    assert_eq!(compute_checksum(&r), 0xE7);
}

#[test]
fn header_faults() {
    assert_eq!(check_header(&[], false), Err(CartridgeError::InvalidHeader));
    assert_eq!(check_header(&vec![0u8; 0x14F], true), Err(CartridgeError::InvalidHeader));
    let mut no_logo = image(0x00, 0, 0);
    no_logo[0x110] ^= 1;
    assert_eq!(check_header(&no_logo, true), Err(CartridgeError::InvalidHeader));
    assert_eq!(check_header(&image(0x04, 0, 0), false), Err(CartridgeError::InvalidHeader));
    assert_eq!(check_header(&image(0x00, 9, 0), false), Err(CartridgeError::InvalidHeader));
    for unsupported in [0x08u8, 0x09, 0x0B, 0x0C, 0x0D, 0x20, 0x22, 0xFC, 0xFD, 0xFE, 0xFF] {
        assert_eq!(check_header(&image(unsupported, 0, 0), false), Err(CartridgeError::UnsupportedMbc));
    }
    assert_eq!(check_header(&image(0x03, 0, 0), false), Err(CartridgeError::BadRamSize));
    assert_eq!(check_header(&image(0x1B, 0, 6), false), Err(CartridgeError::BadRamSize));
    assert!(check_header(&image(0x01, 0, 0), false).is_ok());
}

#[test]
fn header_fault_messages() {
    assert_eq!(CartridgeError::InvalidHeader.message(), "Cartridge header is invalid");
    assert_eq!(CartridgeError::UnsupportedMbc.message(), "Unsupported MBC type");
    assert_eq!(CartridgeError::BadChecksum.message(), "Cartridge checksum is invalid");
    assert_eq!(CartridgeError::BadRamSize.message(), "Cartridge RAM size does not fit its type");
}

#[test]
fn title_ends_at_zero_or_eleven_bytes() {
    assert_eq!(title(&image(0x00, 0, 0)), "TESTROM");
    let mut r = image(0x00, 0, 0);
    for (i, b) in "ABCDEFGHIJKLMNOP".bytes().enumerate() {
        r[0x134 + i] = b;
    }
    assert_eq!(title(&r), "ABCDEFGHIJK");
    r[0x134] = 0;
    assert_eq!(title(&r), "");
    r[0x134] = 0xE9;
    r[0x135] = 0;
    assert_eq!(title(&r), "\u{e9}");
}

#[test]
fn plain_rom_shows_both_banks() {
    let c = Cartridge::load(image(0x00, 0, 0), false).unwrap();
    assert_eq!(c.read_rom(0x0200), 0);
    assert_eq!(c.read_rom(0x3FFF), 0);
    assert_eq!(c.read_rom(0x4200), 1);
    assert_eq!(c.read_rom(0x7FFF), 1);
    assert_eq!(c.read_ram(0xA000), 0xFF);
}

#[test]
fn mbc1_bank_zero_shows_bank_one() {
    let mut c = Cartridge::load(image(0x01, 2, 0), false).unwrap();
    assert_eq!(c.read_rom(0x4200), 1);
    c.write_rom(0x2000, 5);
    assert_eq!(c.read_rom(0x4200), 5);
    assert_eq!(c.read_rom(0x0200), 0);
    c.write_rom(0x2000, 0);
    assert_eq!(c.read_rom(0x4200), 1);
    assert_eq!(c.read_rom(0x7FFF), 1);
    c.write_rom(0x3FFF, 0x20);
    assert_eq!(c.read_rom(0x4200), 1);
    c.write_rom(0x2100, 0xE7);
    assert_eq!(c.read_rom(0x4200), 7);
}

#[test]
fn mbc1_large_rom_uses_the_upper_bits() {
    let mut c = Cartridge::load(image(0x01, 5, 0), false).unwrap();
    c.write_rom(0x2000, 0x12);
    c.write_rom(0x4000, 0x01);
    assert_eq!(c.read_rom(0x4200), 0x32);
    assert_eq!(c.read_rom(0x0200), 0);
    c.write_rom(0x6000, 1);
    assert_eq!(c.read_rom(0x0200), 0x20);
    c.write_rom(0x2000, 0);
    assert_eq!(c.read_rom(0x4200), 0x21);
}

#[test]
fn mbc1_bank_numbers_wrap_at_the_size_of_the_rom() {
    let mut c = Cartridge::load(image(0x01, 1, 0), false).unwrap();
    c.write_rom(0x2000, 7);
    assert_eq!(c.read_rom(0x4200), 3);
    c.write_rom(0x2000, 4);
    assert_eq!(c.read_rom(0x4200), 1);
}

#[test]
fn mbc1_ram_is_gated_and_banked() {
    let mut c = Cartridge::load(image(0x03, 0, 3), false).unwrap();
    assert!(c.is_battery_backed());
    c.write_ram(0xA000, 0x55);
    assert_eq!(c.read_ram(0xA000), 0xFF);
    assert!(!c.check_and_reset_ram_updated());
    c.write_rom(0x0000, 0x0A);
    assert_eq!(c.read_ram(0xA000), 0x00);
    c.write_ram(0xA000, 0x55);
    assert_eq!(c.read_ram(0xA000), 0x55);
    assert!(c.check_and_reset_ram_updated());
    assert!(!c.check_and_reset_ram_updated());
    c.write_rom(0x6000, 1);
    c.write_rom(0x4000, 2);
    assert_eq!(c.read_ram(0xA000), 0x00);
    c.write_ram(0xBFFF, 0x66);
    assert_eq!(c.read_ram(0xBFFF), 0x66);
    c.write_rom(0x4000, 0);
    assert_eq!(c.read_ram(0xA000), 0x55);
    assert_eq!(c.read_ram(0xBFFF), 0x00);
    let saved = c.dump_ram();
    assert_eq!(saved.len(), 4 * 0x2000);
    assert_eq!(saved[0], 0x55);
    assert_eq!(saved[2 * 0x2000 + 0x1FFF], 0x66);
    c.write_rom(0x0000, 0x00);
    assert_eq!(c.read_ram(0xA000), 0xFF);
}

#[test]
fn saved_ram_is_put_back() {
    let mut c = Cartridge::load(image(0x03, 0, 2), false).unwrap();
    assert!(!c.load_ram(vec![1, 2, 3]));
    let mut saved = vec![0u8; 0x2000];
    saved[0x10] = 0x99;
    assert!(c.load_ram(saved));
    c.write_rom(0x0000, 0x0A);
    assert_eq!(c.read_ram(0xA010), 0x99);
}

#[test]
fn mbc2_has_512_half_bytes() {
    let mut c = Cartridge::load(image(0x06, 2, 0), false).unwrap();
    c.write_rom(0x0000, 0x0A);
    c.write_ram(0xA000, 0xAB);
    assert_eq!(c.read_ram(0xA000), 0xFB);
    assert_eq!(c.read_ram(0xA200), 0xFB);
    c.write_rom(0x0100, 0x03);
    assert_eq!(c.read_rom(0x4200), 3);
    c.write_rom(0x0100, 0x00);
    assert_eq!(c.read_rom(0x4200), 1);
    assert_eq!(c.dump_ram().len(), 512);
}

#[test]
fn mbc3_banks_and_clock() {
    let mut c = Cartridge::load(image(0x10, 3, 3), false).unwrap();
    c.write_rom(0x2000, 0x0F);
    assert_eq!(c.read_rom(0x4200), 15);
    c.write_rom(0x2000, 0);
    assert_eq!(c.read_rom(0x4200), 1);
    c.write_rom(0x0000, 0x0A);
    c.write_rom(0x4000, 3);
    c.write_ram(0xA123, 0x77);
    assert_eq!(c.read_ram(0xA123), 0x77);
    for _ in 0..(59 + 60 * 2) {
        c.tick_second();
    }
    c.write_rom(0x4000, 0x08);
    assert_eq!(c.read_ram(0xA000), 0);
    c.write_rom(0x6000, 0);
    c.write_rom(0x6000, 1);
    assert_eq!(c.read_ram(0xA000), 59);
    c.write_rom(0x4000, 0x09);
    assert_eq!(c.read_ram(0xA000), 2);
    c.tick_second();
    assert_eq!(c.read_ram(0xA000), 2);
    c.write_rom(0x6000, 1);
    assert_eq!(c.read_ram(0xA000), 2);
    c.write_rom(0x6000, 0);
    c.write_rom(0x6000, 1);
    assert_eq!(c.read_ram(0xA000), 3);
    c.write_rom(0x4000, 0x0C);
    c.write_ram(0xA000, 0x41);
    c.write_rom(0x6000, 0);
    c.write_rom(0x6000, 1);
    assert_eq!(c.read_ram(0xA000), 0x41);
    c.tick_second();
    c.write_rom(0x4000, 0x08);
    c.write_rom(0x6000, 0);
    c.write_rom(0x6000, 1);
    assert_eq!(c.read_ram(0xA000), 0);
    c.write_rom(0x4000, 3);
    assert_eq!(c.read_ram(0xA123), 0x77);
}

#[test]
fn mbc3_clock_carries_into_the_days() {
    let mut c = Cartridge::load(image(0x0F, 0, 0), false).unwrap();
    c.write_rom(0x0000, 0x0A);
    c.write_rom(0x4000, 0x0A);
    c.write_ram(0xA000, 23);
    c.write_rom(0x4000, 0x09);
    c.write_ram(0xA000, 59);
    c.write_rom(0x4000, 0x08);
    c.write_ram(0xA000, 59);
    c.write_rom(0x4000, 0x0B);
    c.write_ram(0xA000, 0xFF);
    c.write_rom(0x4000, 0x0C);
    c.write_ram(0xA000, 0x01);
    c.tick_second();
    c.write_rom(0x6000, 0);
    c.write_rom(0x6000, 1);
    assert_eq!(c.read_ram(0xA000), 0x80);
    c.write_rom(0x4000, 0x0B);
    assert_eq!(c.read_ram(0xA000), 0);
    c.write_rom(0x4000, 0x0A);
    assert_eq!(c.read_ram(0xA000), 0);
}

#[test]
fn mbc5_has_nine_bits_of_bank() {
    let mut c = Cartridge::load(image(0x19, 8, 0), false).unwrap();
    c.write_rom(0x2000, 0x34);
    assert_eq!(c.read_rom(0x4200), 0x34);
    c.write_rom(0x3000, 0x01);
    assert_eq!(c.read_rom(0x4200), 0x34);
    assert_eq!(c.read_rom(0x4000), 0);
    c.write_rom(0x2000, 0xFF);
    assert_eq!(c.read_rom(0x4200), 0xFF);
    c.write_rom(0x3000, 0x00);
    c.write_rom(0x2000, 0x00);
    assert_eq!(c.read_rom(0x4200), 1);
}

#[test]
fn reads_beyond_the_image_return_ff() {
    let mut r = image(0x01, 2, 0);
    r.truncate(0x8000);
    let mut c = Cartridge::load(r, false).unwrap();
    c.write_rom(0x2000, 3);
    assert_eq!(c.read_rom(0x4200), 0xFF);
    c.write_rom(0x2000, 1);
    assert_eq!(c.read_rom(0x4200), 1);
}
