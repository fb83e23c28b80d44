//! The header of a cartridge image: what it says about the cartridge, and
//! whether it is to be believed.

use vstd::prelude::*;

verus! {

/// Bytes that an image must have for its header to be whole.
pub const HEADER_END: usize = 0x150;

/// Place of the logo.
pub const LOGO_START: usize = 0x104;

/// Place of the title.
pub const TITLE_START: usize = 0x134;

/// Length of the title.
pub const TITLE_LEN: usize = 11;

/// Place of the colour flag.
pub const CGB_FLAG: usize = 0x143;

/// Place of the cartridge type.
pub const CARTRIDGE_TYPE: usize = 0x147;

/// Place of the ROM size code.
pub const ROM_SIZE: usize = 0x148;

/// Place of the RAM size code.
pub const RAM_SIZE: usize = 0x149;

/// Place of the header checksum.
pub const HEADER_CHECKSUM: usize = 0x14D;

/// The bank controller on a cartridge.
#[derive(Debug, Clone, Copy, PartialEq, Eq, Structural)]
pub enum MbcKind {
    NoMbc,
    Mbc1,
    Mbc2,
    Mbc3,
    Mbc5,
}

/// What a cartridge type stands for.
#[derive(Debug, Clone, Copy, PartialEq, Eq, Structural)]
pub struct CartridgeFeatures {
    pub kind: MbcKind,
    pub ram: bool,
    pub battery: bool,
    pub timer: bool,
    pub rumble: bool,
}

/// Why an image is not accepted as a cartridge.
#[derive(Debug, Clone, Copy, PartialEq, Eq, Structural)]
pub enum CartridgeError {
    /// The image ends before its header does, the logo is not the one every
    /// cartridge carries, or the type or the ROM size is none that exists.
    InvalidHeader,
    /// The cartridge has a controller that is not emulated.
    UnsupportedMbc,
    /// The header checksum does not match the header.
    BadChecksum,
    /// The cartridge type calls for RAM and the header gives it none.
    BadRamSize,
}

/// The logo that every cartridge carries, 48 bytes.
pub open spec fn logo() -> Seq<u8> {
    seq![
        0xCEu8, 0xED, 0x66, 0x66, 0xCC, 0x0D, 0x00, 0x0B, 0x03, 0x73, 0x00, 0x83, 0x00, 0x0C, 0x00,
        0x0D, 0x00, 0x08, 0x11, 0x1F, 0x88, 0x89, 0x00, 0x0E, 0xDC, 0xCC, 0x6E, 0xE6, 0xDD, 0xDD,
        0xD9, 0x99, 0xBB, 0xBB, 0x67, 0x63, 0x6E, 0x0E, 0xEC, 0xCC, 0xDD, 0xDC, 0x99, 0x9F, 0xBB,
        0xB9, 0x33, 0x3E,
    ]
}

/// The features of a cartridge type that is emulated.
pub open spec fn features_of(code: u8) -> Option<CartridgeFeatures> {
    let f = |kind: MbcKind, ram: bool, battery: bool, timer: bool, rumble: bool|
        Some(CartridgeFeatures { kind, ram, battery, timer, rumble });
    if code == 0x00 {
        f(MbcKind::NoMbc, false, false, false, false)
    } else if code == 0x01 {
        f(MbcKind::Mbc1, false, false, false, false)
    } else if code == 0x02 {
        f(MbcKind::Mbc1, true, false, false, false)
    } else if code == 0x03 {
        f(MbcKind::Mbc1, true, true, false, false)
    } else if code == 0x05 {
        f(MbcKind::Mbc2, false, false, false, false)
    } else if code == 0x06 {
        f(MbcKind::Mbc2, false, true, false, false)
    } else if code == 0x0F {
        f(MbcKind::Mbc3, false, true, true, false)
    } else if code == 0x10 {
        f(MbcKind::Mbc3, true, true, true, false)
    } else if code == 0x11 {
        f(MbcKind::Mbc3, false, false, false, false)
    } else if code == 0x12 {
        f(MbcKind::Mbc3, true, false, false, false)
    } else if code == 0x13 {
        f(MbcKind::Mbc3, true, true, false, false)
    } else if code == 0x19 {
        f(MbcKind::Mbc5, false, false, false, false)
    } else if code == 0x1A {
        f(MbcKind::Mbc5, true, false, false, false)
    } else if code == 0x1B {
        f(MbcKind::Mbc5, true, true, false, false)
    } else if code == 0x1C {
        f(MbcKind::Mbc5, false, false, false, true)
    } else if code == 0x1D {
        f(MbcKind::Mbc5, true, false, false, true)
    } else if code == 0x1E {
        f(MbcKind::Mbc5, true, true, false, true)
    } else {
        None
    }
}

/// Cartridge types that exist and are not emulated: plain ROM with RAM, and
/// the controllers MMM01, MBC6, MBC7, the camera, TAMA5, HuC3 and HuC1.
pub open spec fn is_unsupported_type(code: u8) -> bool {
    code == 0x08 || code == 0x09 || code == 0x0B || code == 0x0C || code == 0x0D || code == 0x20
        || code == 0x22 || code >= 0xFC
}

/// The number of 16 KiB banks of ROM that a size code stands for.
pub open spec fn rom_banks_of(code: u8) -> Option<u16> {
    if code == 0 {
        Some(2)
    } else if code == 1 {
        Some(4)
    } else if code == 2 {
        Some(8)
    } else if code == 3 {
        Some(16)
    } else if code == 4 {
        Some(32)
    } else if code == 5 {
        Some(64)
    } else if code == 6 {
        Some(128)
    } else if code == 7 {
        Some(256)
    } else if code == 8 {
        Some(512)
    } else {
        None
    }
}

/// The number of 8 KiB banks of RAM that a size code stands for.
pub open spec fn ram_banks_of(code: u8) -> u8 {
    if code == 1 || code == 2 {
        1
    } else if code == 3 {
        4
    } else if code == 4 {
        16
    } else if code == 5 {
        8
    } else {
        0
    }
}

/// The checksum of the header bytes from the title up to, and without, the
/// byte at `end`: minus their sum, minus their number, in eight bits.
pub open spec fn checksum_to(data: Seq<u8>, end: int) -> u8
    decreases end,
{
    if end <= TITLE_START {
        0
    } else {
        ((checksum_to(data, end - 1) - data[end - 1] - 1) % 256) as u8
    }
}

/// The checksum that the header should carry.
pub open spec fn header_checksum(data: Seq<u8>) -> u8 {
    checksum_to(data, HEADER_CHECKSUM as int)
}

/// Whether the image carries the logo.
pub open spec fn has_logo(data: Seq<u8>) -> bool {
    data.len() >= HEADER_END && data.subrange(LOGO_START as int, LOGO_START + 48) == logo()
}

/// What is wrong with an image, if anything, in the order in which it is
/// looked for.
pub open spec fn header_fault(data: Seq<u8>, skip_checksum: bool) -> Option<CartridgeError> {
    if data.len() < HEADER_END || !has_logo(data) {
        Some(CartridgeError::InvalidHeader)
    } else if is_unsupported_type(data[CARTRIDGE_TYPE as int]) {
        Some(CartridgeError::UnsupportedMbc)
    } else if features_of(data[CARTRIDGE_TYPE as int]) is None || rom_banks_of(
        data[ROM_SIZE as int],
    ) is None {
        Some(CartridgeError::InvalidHeader)
    } else if !skip_checksum && data[HEADER_CHECKSUM as int] != header_checksum(data) {
        Some(CartridgeError::BadChecksum)
    } else if features_of(data[CARTRIDGE_TYPE as int])->0.ram && ram_banks_of(
        data[RAM_SIZE as int],
    ) == 0 {
        Some(CartridgeError::BadRamSize)
    } else {
        None
    }
}

/// The title: the bytes of the title field before its first zero byte.
pub open spec fn title_len(data: Seq<u8>, upto: int) -> int
    decreases upto,
{
    if upto <= 0 {
        0
    } else if title_len(data, upto - 1) < upto - 1 {
        title_len(data, upto - 1)
    } else if data[TITLE_START + upto - 1] == 0 {
        upto - 1
    } else {
        upto
    }
}

/// The title as text, each byte as the character of that number.
pub open spec fn title_text(data: Seq<u8>) -> Seq<char> {
    Seq::new(
        title_len(data, TITLE_LEN as int) as nat,
        |i: int| data[TITLE_START + i] as char,
    )
}

impl CartridgeError {
    /// The reason in words.
    pub open spec fn text(self) -> Seq<char> {
        match self {
            CartridgeError::InvalidHeader => "Cartridge header is invalid"@,
            CartridgeError::UnsupportedMbc => "Unsupported MBC type"@,
            CartridgeError::BadChecksum => "Cartridge checksum is invalid"@,
            CartridgeError::BadRamSize => "Cartridge RAM size does not fit its type"@,
        }
    }

    pub fn message(self) -> (m: &'static str)
        ensures
            m@ == self.text(),
    {
        match self {
            CartridgeError::InvalidHeader => "Cartridge header is invalid",
            CartridgeError::UnsupportedMbc => "Unsupported MBC type",
            CartridgeError::BadChecksum => "Cartridge checksum is invalid",
            CartridgeError::BadRamSize => "Cartridge RAM size does not fit its type",
        }
    }
}

pub fn features(code: u8) -> (r: Option<CartridgeFeatures>)
    ensures
        r == features_of(code),
{
    let (kind, ram, battery, timer, rumble) = match code {
        0x00 => (MbcKind::NoMbc, false, false, false, false),
        0x01 => (MbcKind::Mbc1, false, false, false, false),
        0x02 => (MbcKind::Mbc1, true, false, false, false),
        0x03 => (MbcKind::Mbc1, true, true, false, false),
        0x05 => (MbcKind::Mbc2, false, false, false, false),
        0x06 => (MbcKind::Mbc2, false, true, false, false),
        0x0F => (MbcKind::Mbc3, false, true, true, false),
        0x10 => (MbcKind::Mbc3, true, true, true, false),
        0x11 => (MbcKind::Mbc3, false, false, false, false),
        0x12 => (MbcKind::Mbc3, true, false, false, false),
        0x13 => (MbcKind::Mbc3, true, true, false, false),
        0x19 => (MbcKind::Mbc5, false, false, false, false),
        0x1A => (MbcKind::Mbc5, true, false, false, false),
        0x1B => (MbcKind::Mbc5, true, true, false, false),
        0x1C => (MbcKind::Mbc5, false, false, false, true),
        0x1D => (MbcKind::Mbc5, true, false, false, true),
        0x1E => (MbcKind::Mbc5, true, true, false, true),
        _ => { return None; },
    };
    Some(CartridgeFeatures { kind, ram, battery, timer, rumble })
}

pub fn rom_banks(code: u8) -> (r: Option<u16>)
    ensures
        r == rom_banks_of(code),
{
    match code {
        0 => Some(2),
        1 => Some(4),
        2 => Some(8),
        3 => Some(16),
        4 => Some(32),
        5 => Some(64),
        6 => Some(128),
        7 => Some(256),
        8 => Some(512),
        _ => None,
    }
}

pub fn ram_banks(code: u8) -> (r: u8)
    ensures
        r == ram_banks_of(code),
{
    match code {
        1 | 2 => 1,
        3 => 4,
        4 => 16,
        5 => 8,
        _ => 0,
    }
}

/// Computes the checksum that the header should carry.
pub fn compute_checksum(data: &[u8]) -> (sum: u8)
    requires
        data@.len() >= HEADER_END,
    ensures
        sum == header_checksum(data@),
{
    let mut value: u8 = 0;
    let mut i: usize = TITLE_START;
    while i < HEADER_CHECKSUM
        invariant
            TITLE_START <= i <= HEADER_CHECKSUM,
            data@.len() >= HEADER_END,
            value == checksum_to(data@, i as int),
        decreases HEADER_CHECKSUM - i,
    {
        value = value.wrapping_sub(data[i]).wrapping_sub(1);
        i += 1;
    }
    value
}

fn check_logo(data: &[u8]) -> (ok: bool)
    requires
        data@.len() >= HEADER_END,
    ensures
        ok == has_logo(data@),
{
    let want: [u8; 48] = [
        0xCE, 0xED, 0x66, 0x66, 0xCC, 0x0D, 0x00, 0x0B, 0x03, 0x73, 0x00, 0x83, 0x00, 0x0C, 0x00,
        0x0D, 0x00, 0x08, 0x11, 0x1F, 0x88, 0x89, 0x00, 0x0E, 0xDC, 0xCC, 0x6E, 0xE6, 0xDD, 0xDD,
        0xD9, 0x99, 0xBB, 0xBB, 0x67, 0x63, 0x6E, 0x0E, 0xEC, 0xCC, 0xDD, 0xDC, 0x99, 0x9F, 0xBB,
        0xB9, 0x33, 0x3E,
    ];
    assert(want@ =~= logo());
    let ghost field = data@.subrange(LOGO_START as int, LOGO_START + 48);
    let mut i: usize = 0;
    while i < 48
        invariant
            i <= 48,
            data@.len() >= HEADER_END,
            want@ == logo(),
            field == data@.subrange(LOGO_START as int, LOGO_START + 48),
            forall|j: int| 0 <= j < i ==> field[j] == want@[j],
        decreases 48 - i,
    {
        if data[LOGO_START + i] != want[i] {
            assert(field[i as int] != logo()[i as int]);
            return false;
        }
        i += 1;
    }
    assert(field =~= logo());
    true
}

/// Looks for what is wrong with an image.
pub fn check_header(data: &[u8], skip_checksum: bool) -> (r: Result<(), CartridgeError>)
    ensures
        match header_fault(data@, skip_checksum) {
            Some(e) => r == Err::<(), CartridgeError>(e),
            None => r is Ok,
        },
{
    if data.len() < HEADER_END || !check_logo(data) {
        return Err(CartridgeError::InvalidHeader);
    }
    let code = data[CARTRIDGE_TYPE];
    if code == 0x08 || code == 0x09 || code == 0x0B || code == 0x0C || code == 0x0D || code == 0x20
        || code == 0x22 || code >= 0xFC {
        return Err(CartridgeError::UnsupportedMbc);
    }
    let f = match features(code) {
        Some(f) => f,
        None => { return Err(CartridgeError::InvalidHeader); },
    };
    if rom_banks(data[ROM_SIZE]).is_none() {
        return Err(CartridgeError::InvalidHeader);
    }
    if !skip_checksum && data[HEADER_CHECKSUM] != compute_checksum(data) {
        return Err(CartridgeError::BadChecksum);
    }
    if f.ram && ram_banks(data[RAM_SIZE]) == 0 {
        return Err(CartridgeError::BadRamSize);
    }
    Ok(())
}

/// `String::push`: the standard library documents that it appends the
/// character to the end of the string.
#[verifier::external_body]
fn push_char(s: &mut String, c: char)
    ensures
        final(s)@ == old(s)@.push(c),
{
    s.push(c);
}

/// The title of the cartridge.
pub fn title(data: &[u8]) -> (name: String)
    requires
        data@.len() >= HEADER_END,
    ensures
        name@ == title_text(data@),
{
    let mut name = String::new();
    let mut i: usize = 0;
    assert(name@ =~= Seq::new(0nat, |k: int| data@[TITLE_START + k] as char));
    while i < TITLE_LEN && data[TITLE_START + i] != 0
        invariant
            i <= TITLE_LEN,
            data@.len() >= HEADER_END,
            title_len(data@, i as int) == i,
            name@ == Seq::new(i as nat, |k: int| data@[TITLE_START + k] as char),
        decreases TITLE_LEN - i,
    {
        push_char(&mut name, data[TITLE_START + i] as char);
        assert(name@ =~= Seq::new((i + 1) as nat, |k: int| data@[TITLE_START + k] as char));
        i += 1;
    }
    proof {
        lemma_title_len_stops(data@, i as int, TITLE_LEN as int);
    }
    name
}

/// Once a zero byte, or the end of the field, is met at `stop`, the title
/// is as long as `stop`, however far one looks.
proof fn lemma_title_len_stops(data: Seq<u8>, stop: int, upto: int)
    requires
        0 <= stop <= upto <= TITLE_LEN,
        title_len(data, stop) == stop,
        stop == TITLE_LEN || data[TITLE_START + stop] == 0,
    ensures
        title_len(data, upto) == stop,
    decreases upto,
{
    if upto > stop {
        lemma_title_len_stops(data, stop, upto - 1);
    }
}

} // verus!
