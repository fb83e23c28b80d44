//! The picture on the host's side: the window that shows it and its dump as text.

use vstd::prelude::*;
use vstd::string::StringExecFns;

verus! {

/// Pixels in one row of the picture.
pub const SCREEN_W: usize = 160;

/// Rows of the picture.
pub const SCREEN_H: usize = 144;

/// The title of the window that shows the game `romname`.
pub fn window_title(romname: &str) -> (title: String)
    ensures
        title@ == "RBoy - "@ + romname@,
{
    String::from_str("RBoy - ").concat(romname)
}

/// The inner size of the window, in logical pixels, at `scale`.
pub fn window_size(scale: u32) -> (size: (u32, u32))
    requires
        SCREEN_W * scale <= u32::MAX,
    ensures
        size.0 == SCREEN_W * scale,
        size.1 == SCREEN_H * scale,
{
    (160 * scale, 144 * scale)
}

/// Where on the window the picture is drawn.
#[derive(Debug, Clone, Copy, PartialEq, Eq, Structural)]
pub struct BlitRect {
    pub left: u32,
    pub bottom: u32,
    pub width: i32,
    pub height: i32,
}

/// The place of the picture on a window of `target_w` by `target_h`
/// points: all of the window, from its upper edge downwards, since the
/// picture counts its lines from the top and the window from the bottom.
pub fn blit_target(target_w: u32, target_h: u32) -> (r: BlitRect)
    requires
        target_w <= i32::MAX,
        target_h <= i32::MAX,
    ensures
        r.left == 0,
        r.bottom == target_h,
        r.width == target_w,
        r.height == -target_h,
{
    BlitRect { left: 0, bottom: target_h, width: target_w as i32, height: -(target_h as i32) }
}

/// The digit that writes `n` in base sixteen, in lower case.
pub open spec fn hex_digit(n: int) -> char {
    if n == 0 {
        '0'
    } else if n == 1 {
        '1'
    } else if n == 2 {
        '2'
    } else if n == 3 {
        '3'
    } else if n == 4 {
        '4'
    } else if n == 5 {
        '5'
    } else if n == 6 {
        '6'
    } else if n == 7 {
        '7'
    } else if n == 8 {
        '8'
    } else if n == 9 {
        '9'
    } else if n == 10 {
        'a'
    } else if n == 11 {
        'b'
    } else if n == 12 {
        'c'
    } else if n == 13 {
        'd'
    } else if n == 14 {
        'e'
    } else {
        'f'
    }
}

/// The bytes of `data` in base sixteen, two digits each, high digit first.
pub open spec fn hex_text(data: Seq<u8>) -> Seq<char> {
    Seq::new(
        2 * data.len(),
        |i: int|
            if i % 2 == 0 {
                hex_digit(data[i / 2] as int / 16)
            } else {
                hex_digit(data[i / 2] as int % 16)
            },
    )
}

fn hex_digit_str(n: u8) -> (s: &'static str)
    requires
        n < 16,
    ensures
        s@ == seq![hex_digit(n as int)],
{
    proof {
        reveal_strlit("0");
        reveal_strlit("1");
        reveal_strlit("2");
        reveal_strlit("3");
        reveal_strlit("4");
        reveal_strlit("5");
        reveal_strlit("6");
        reveal_strlit("7");
        reveal_strlit("8");
        reveal_strlit("9");
        reveal_strlit("a");
        reveal_strlit("b");
        reveal_strlit("c");
        reveal_strlit("d");
        reveal_strlit("e");
        reveal_strlit("f");
    }
    let s = if n == 0 {
        "0"
    } else if n == 1 {
        "1"
    } else if n == 2 {
        "2"
    } else if n == 3 {
        "3"
    } else if n == 4 {
        "4"
    } else if n == 5 {
        "5"
    } else if n == 6 {
        "6"
    } else if n == 7 {
        "7"
    } else if n == 8 {
        "8"
    } else if n == 9 {
        "9"
    } else if n == 10 {
        "a"
    } else if n == 11 {
        "b"
    } else if n == 12 {
        "c"
    } else if n == 13 {
        "d"
    } else if n == 14 {
        "e"
    } else {
        "f"
    };
    assert(s@ =~= seq![hex_digit(n as int)]);
    s
}

/// The line that dumps a picture: a tag, then every byte in base sixteen.
pub fn screenshot_line(data: &[u8]) -> (line: String)
    ensures
        line@ == "SCREENSHOT:"@ + hex_text(data@),
{
    let mut line = String::from_str("SCREENSHOT:");
    let mut i: usize = 0;
    assert(hex_text(data@.take(0)) =~= Seq::<char>::empty());
    assert(line@ =~= "SCREENSHOT:"@ + hex_text(data@.take(0)));
    while i < data.len()
        invariant
            i <= data.len(),
            line@ == "SCREENSHOT:"@ + hex_text(data@.take(i as int)),
        decreases data.len() - i,
    {
        let b = data[i];
        line.append(hex_digit_str(b / 16));
        line.append(hex_digit_str(b % 16));
        proof {
            let before = hex_text(data@.take(i as int));
            let after = hex_text(data@.take(i + 1));
            assert(after =~= before + seq![hex_digit(b as int / 16)] + seq![
                hex_digit(b as int % 16),
            ]);
            assert(line@ =~= "SCREENSHOT:"@ + after);
        }
        i += 1;
    }
    assert(data@.take(i as int) =~= data@);
    line
}

} // verus!
