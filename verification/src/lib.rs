//! Core of a Game Boy / Game Boy Color emulator, together with the rules its
//! host front end follows. Every item is stated with a contract and verified.

use vstd::prelude::*;

pub use crate::keypad::KeypadKey;
pub use crate::screen::{SCREEN_H, SCREEN_W};
pub use crate::sound::CPU_FREQUENCY;

pub mod args;
pub mod audio;
pub mod bits;
pub mod cpu;
pub mod device;
pub mod gbmode;
pub mod gpu;
pub mod input;
pub mod keypad;
pub mod mbc;
pub mod mmu;
pub mod plugins;
pub mod register;
pub mod runner;
pub mod screen;
pub mod seqs;
pub mod serial;
pub mod sound;
pub mod strict;
pub mod timer;

verus! {

/// What a function that can fail for a reason in words returns.
pub type StrResult<T> = Result<T, &'static str>;

} // verus!
