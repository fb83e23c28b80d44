//! The joypad: eight keys behind one register.
//!
//! The keys form two groups of four, the directions and the buttons. Each
//! group shares the four low bits of the register, the lines. Bit 4 of the
//! register, when zero, puts the directions on the lines, and bit 5, when
//! zero, the buttons. A line is low while a key on it is held down; a line
//! that a key press pulls low requests the joypad interrupt.

use vstd::prelude::*;

verus! {

#[derive(Debug, Clone, Copy, PartialEq, Eq, Structural)]
pub enum KeypadKey {
    Right,
    Left,
    Up,
    Down,
    A,
    B,
    Select,
    Start,
}

impl KeypadKey {
    /// The line that the key pulls low, from 0 to 3.
    pub open spec fn line(self) -> int {
        match self {
            KeypadKey::Right | KeypadKey::A => 0,
            KeypadKey::Left | KeypadKey::B => 1,
            KeypadKey::Up | KeypadKey::Select => 2,
            KeypadKey::Down | KeypadKey::Start => 3,
        }
    }

    /// Whether the key is one of the four directions.
    pub open spec fn is_direction(self) -> bool {
        match self {
            KeypadKey::Right | KeypadKey::Left | KeypadKey::Up | KeypadKey::Down => true,
            _ => false,
        }
    }
}

#[derive(Debug, Clone, Copy, PartialEq, Eq, Structural)]
pub struct Keypad {
    pub right: bool,
    pub left: bool,
    pub up: bool,
    pub down: bool,
    pub a: bool,
    pub b: bool,
    pub select: bool,
    pub start: bool,
    /// Bit 4 of the register is zero.
    pub directions_selected: bool,
    /// Bit 5 of the register is zero.
    pub buttons_selected: bool,
}

impl Keypad {
    /// No key held down, no group selected.
    pub open spec fn initial() -> Keypad {
        Keypad {
            right: false,
            left: false,
            up: false,
            down: false,
            a: false,
            b: false,
            select: false,
            start: false,
            directions_selected: false,
            buttons_selected: false,
        }
    }

    /// Whether `key` is held down.
    pub open spec fn held(self, key: KeypadKey) -> bool {
        match key {
            KeypadKey::Right => self.right,
            KeypadKey::Left => self.left,
            KeypadKey::Up => self.up,
            KeypadKey::Down => self.down,
            KeypadKey::A => self.a,
            KeypadKey::B => self.b,
            KeypadKey::Select => self.select,
            KeypadKey::Start => self.start,
        }
    }

    /// The keypad with `key` held down or let go.
    pub open spec fn with_key(self, key: KeypadKey, down: bool) -> Keypad {
        match key {
            KeypadKey::Right => Keypad { right: down, ..self },
            KeypadKey::Left => Keypad { left: down, ..self },
            KeypadKey::Up => Keypad { up: down, ..self },
            KeypadKey::Down => Keypad { down: down, ..self },
            KeypadKey::A => Keypad { a: down, ..self },
            KeypadKey::B => Keypad { b: down, ..self },
            KeypadKey::Select => Keypad { select: down, ..self },
            KeypadKey::Start => Keypad { start: down, ..self },
        }
    }

    /// Whether line `n` is low: a key on it is held down and its group is
    /// selected.
    pub open spec fn line_low(self, n: int) -> bool {
        let (direction, button) = if n == 0 {
            (self.right, self.a)
        } else if n == 1 {
            (self.left, self.b)
        } else if n == 2 {
            (self.up, self.select)
        } else {
            (self.down, self.start)
        };
        (self.directions_selected && direction) || (self.buttons_selected && button)
    }

    /// The register: bits 6 and 7 read as ones, bits 4 and 5 as written, and
    /// each line as a one while it is high.
    pub open spec fn read(self) -> u8 {
        (0xC0 + (if self.buttons_selected {
            0int
        } else {
            0x20int
        }) + (if self.directions_selected {
            0int
        } else {
            0x10int
        }) + (if self.line_low(3) {
            0int
        } else {
            8int
        }) + (if self.line_low(2) {
            0int
        } else {
            4int
        }) + (if self.line_low(1) {
            0int
        } else {
            2int
        }) + (if self.line_low(0) {
            0int
        } else {
            1int
        })) as u8
    }

    /// The keypad after `v` was written to the register: only bits 4 and 5
    /// are taken.
    pub open spec fn written(self, v: u8) -> Keypad {
        Keypad {
            directions_selected: (v / 16) % 2 == 0,
            buttons_selected: (v / 32) % 2 == 0,
            ..self
        }
    }

    /// Whether pressing `key` pulls a line low that was high.
    pub open spec fn press_interrupts(self, key: KeypadKey) -> bool {
        !self.line_low(key.line()) && self.with_key(key, true).line_low(key.line())
    }

    pub fn new() -> (k: Keypad)
        ensures
            k == Keypad::initial(),
    {
        Keypad {
            right: false,
            left: false,
            up: false,
            down: false,
            a: false,
            b: false,
            select: false,
            start: false,
            directions_selected: false,
            buttons_selected: false,
        }
    }

    fn line_is_low(&self, n: u8) -> (low: bool)
        ensures
            low == self.line_low(n as int),
    {
        let (direction, button) = if n == 0 {
            (self.right, self.a)
        } else if n == 1 {
            (self.left, self.b)
        } else if n == 2 {
            (self.up, self.select)
        } else {
            (self.down, self.start)
        };
        (self.directions_selected && direction) || (self.buttons_selected && button)
    }

    pub fn rb(&self) -> (v: u8)
        ensures
            v == self.read(),
    {
        let mut v: u8 = 0xC0;
        if !self.buttons_selected {
            v = v + 0x20;
        }
        if !self.directions_selected {
            v = v + 0x10;
        }
        if !self.line_is_low(3) {
            v = v + 8;
        }
        if !self.line_is_low(2) {
            v = v + 4;
        }
        if !self.line_is_low(1) {
            v = v + 2;
        }
        if !self.line_is_low(0) {
            v = v + 1;
        }
        v
    }

    pub fn wb(&mut self, v: u8)
        ensures
            *final(self) == old(self).written(v),
    {
        self.directions_selected = (v / 16) % 2 == 0;
        self.buttons_selected = (v / 32) % 2 == 0;
    }

    fn set_key(&mut self, key: KeypadKey, down: bool)
        ensures
            *final(self) == old(self).with_key(key, down),
    {
        match key {
            KeypadKey::Right => self.right = down,
            KeypadKey::Left => self.left = down,
            KeypadKey::Up => self.up = down,
            KeypadKey::Down => self.down = down,
            KeypadKey::A => self.a = down,
            KeypadKey::B => self.b = down,
            KeypadKey::Select => self.select = down,
            KeypadKey::Start => self.start = down,
        }
    }

    /// Holds `key` down. Returns whether the joypad interrupt is to be
    /// requested.
    pub fn keydown(&mut self, key: KeypadKey) -> (irq: bool)
        ensures
            *final(self) == old(self).with_key(key, true),
            irq == old(self).press_interrupts(key),
    {
        let n: u8 = match key {
            KeypadKey::Right | KeypadKey::A => 0,
            KeypadKey::Left | KeypadKey::B => 1,
            KeypadKey::Up | KeypadKey::Select => 2,
            KeypadKey::Down | KeypadKey::Start => 3,
        };
        let was_low = self.line_is_low(n);
        self.set_key(key, true);
        !was_low && self.line_is_low(n)
    }

    /// Lets `key` go.
    pub fn keyup(&mut self, key: KeypadKey)
        ensures
            *final(self) == old(self).with_key(key, false),
    {
        self.set_key(key, false);
    }
}

/// The line of a key reads zero exactly while the key is held down and its
/// group is selected, or the key of the other group that shares the line is.
pub proof fn lemma_key_reads_low(k: Keypad, key: KeypadKey)
    requires
        k.held(key),
        if key.is_direction() {
            k.directions_selected
        } else {
            k.buttons_selected
        },
    ensures
        k.line_low(key.line()),
        key.line() == 0 ==> k.read() % 2 == 0,
        key.line() == 1 ==> (k.read() / 2) % 2 == 0,
        key.line() == 2 ==> (k.read() / 4) % 2 == 0,
        key.line() == 3 ==> (k.read() / 8) % 2 == 0,
{
}

/// With no key held down, or no group selected, all four lines read one.
pub proof fn lemma_idle_lines_high(k: Keypad)
    requires
        (!k.directions_selected && !k.buttons_selected) || (!k.right && !k.left && !k.up && !k.down
            && !k.a && !k.b && !k.select && !k.start),
    ensures
        k.read() % 16 == 15,
{
}

} // verus!
