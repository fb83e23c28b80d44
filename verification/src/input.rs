//! What the keys of the host's keyboard do.

use crate::keypad::KeypadKey;
use vstd::prelude::*;

verus! {

/// A key of the host's keyboard that has a name.
#[derive(Debug, Clone, Copy, PartialEq, Eq, Structural)]
pub enum NamedKey {
    Escape,
    Shift,
    ArrowUp,
    ArrowDown,
    ArrowLeft,
    ArrowRight,
    Space,
    Enter,
    /// A named key that does nothing here.
    Other,
}

/// A key of the host's keyboard.
#[derive(Debug, Clone, Copy, PartialEq, Eq, Structural)]
pub enum Key {
    /// A key that types the one character.
    Character(char),
    Named(NamedKey),
    /// A key that types nothing, or more than one character.
    Other,
}

/// Whether a key went down or up.
#[derive(Debug, Clone, Copy, PartialEq, Eq, Structural)]
pub enum ElementState {
    Pressed,
    Released,
}

/// What the window tells the thread that runs the machine.
#[derive(Debug, Clone, Copy, PartialEq, Eq, Structural)]
pub enum GBEvent {
    KeyUp(KeypadKey),
    KeyDown(KeypadKey),
    SpeedUp,
    SpeedDown,
    Pause,
    Resume,
    LoadPlugin,
    RunPlugin,
}

/// What a key makes the window do.
#[derive(Debug, Clone, Copy, PartialEq, Eq, Structural)]
pub enum WindowAction {
    Nothing,
    /// Close the window and end the program.
    Exit,
    /// Give the window the size of the picture at this scale.
    SetWindowSize(u32),
    /// Tell the machine's thread.
    Send(GBEvent),
    /// Switch between smooth and sharp scaling of the picture.
    ToggleInterpolation,
}

/// How the picture is drawn.
#[derive(Debug, Clone, Copy, PartialEq, Eq, Structural)]
pub struct RenderOptions {
    pub linear_interpolation: bool,
}

impl Default for RenderOptions {
    fn default() -> (r: Self)
        ensures
            !r.linear_interpolation,
    {
        RenderOptions { linear_interpolation: false }
    }
}

/// The key of the machine that a key of the host stands for: Z and X are A
/// and B, the arrows are the directions, space is Select and enter Start.
pub open spec fn keypad_key_of(key: Key) -> Option<KeypadKey> {
    match key {
        Key::Character(c) => if c == 'Z' || c == 'z' {
            Some(KeypadKey::A)
        } else if c == 'X' || c == 'x' {
            Some(KeypadKey::B)
        } else {
            None
        },
        Key::Named(NamedKey::ArrowUp) => Some(KeypadKey::Up),
        Key::Named(NamedKey::ArrowDown) => Some(KeypadKey::Down),
        Key::Named(NamedKey::ArrowLeft) => Some(KeypadKey::Left),
        Key::Named(NamedKey::ArrowRight) => Some(KeypadKey::Right),
        Key::Named(NamedKey::Space) => Some(KeypadKey::Select),
        Key::Named(NamedKey::Enter) => Some(KeypadKey::Start),
        _ => None,
    }
}

/// What the window does when `key` goes down or up, and whether the
/// machine is paused afterwards. Escape ends the program; 1 resets the
/// size of the window; P pauses and resumes; L loads the plugin and R runs
/// it; shift, while held, lets the machine run at full speed; T switches
/// the scaling. Every other key is passed to the machine if it stands for
/// one of its keys.
pub open spec fn action_of(state: ElementState, key: Key, paused: bool) -> (WindowAction, bool) {
    match (state, key) {
        (ElementState::Pressed, Key::Named(NamedKey::Escape)) => (WindowAction::Exit, paused),
        (ElementState::Pressed, Key::Character('1')) => (WindowAction::SetWindowSize(1), paused),
        (ElementState::Pressed, Key::Character('p')) | (
            ElementState::Pressed,
            Key::Character('P'),
        ) => (
            WindowAction::Send(
                if paused {
                    GBEvent::Resume
                } else {
                    GBEvent::Pause
                },
            ),
            !paused,
        ),
        (ElementState::Pressed, Key::Character('l')) | (
            ElementState::Pressed,
            Key::Character('L'),
        ) => (WindowAction::Send(GBEvent::LoadPlugin), paused),
        (ElementState::Pressed, Key::Character('r')) | (
            ElementState::Pressed,
            Key::Character('R'),
        ) => (WindowAction::Send(GBEvent::RunPlugin), paused),
        (ElementState::Pressed, Key::Named(NamedKey::Shift)) => (
            WindowAction::Send(GBEvent::SpeedUp),
            paused,
        ),
        (ElementState::Released, Key::Named(NamedKey::Shift)) => (
            WindowAction::Send(GBEvent::SpeedDown),
            paused,
        ),
        (ElementState::Pressed, Key::Character('t')) | (
            ElementState::Pressed,
            Key::Character('T'),
        ) => (WindowAction::ToggleInterpolation, paused),
        (ElementState::Pressed, k) => (
            match keypad_key_of(k) {
                Some(key) => WindowAction::Send(GBEvent::KeyDown(key)),
                None => WindowAction::Nothing,
            },
            paused,
        ),
        (ElementState::Released, k) => (
            match keypad_key_of(k) {
                Some(key) => WindowAction::Send(GBEvent::KeyUp(key)),
                None => WindowAction::Nothing,
            },
            paused,
        ),
    }
}

/// The key of the machine that a key of the host stands for.
pub fn winit_to_keypad(key: Key) -> (r: Option<KeypadKey>)
    ensures
        r == keypad_key_of(key),
{
    match key {
        Key::Character(c) => if c == 'Z' || c == 'z' {
            Some(KeypadKey::A)
        } else if c == 'X' || c == 'x' {
            Some(KeypadKey::B)
        } else {
            None
        },
        Key::Named(NamedKey::ArrowUp) => Some(KeypadKey::Up),
        Key::Named(NamedKey::ArrowDown) => Some(KeypadKey::Down),
        Key::Named(NamedKey::ArrowLeft) => Some(KeypadKey::Left),
        Key::Named(NamedKey::ArrowRight) => Some(KeypadKey::Right),
        Key::Named(NamedKey::Space) => Some(KeypadKey::Select),
        Key::Named(NamedKey::Enter) => Some(KeypadKey::Start),
        _ => None,
    }
}

fn is_letter(key: Key, lower: char, upper: char) -> (r: bool)
    ensures
        r == (key == Key::Character(lower) || key == Key::Character(upper)),
{
    match key {
        Key::Character(c) => c == lower || c == upper,
        _ => false,
    }
}

/// What the window does when `key` goes down or up. Returns the action
/// and whether the machine is paused afterwards.
pub fn key_action(state: ElementState, key: Key, paused: bool) -> (r: (WindowAction, bool))
    ensures
        r == action_of(state, key, paused),
{
    let pressed = match state {
        ElementState::Pressed => true,
        ElementState::Released => false,
    };
    let shift = match key {
        Key::Named(NamedKey::Shift) => true,
        _ => false,
    };
    let escape = match key {
        Key::Named(NamedKey::Escape) => true,
        _ => false,
    };
    if pressed && escape {
        (WindowAction::Exit, paused)
    } else if pressed && is_letter(key, '1', '1') {
        (WindowAction::SetWindowSize(1), paused)
    } else if pressed && is_letter(key, 'p', 'P') {
        (
            WindowAction::Send(
                if paused {
                    GBEvent::Resume
                } else {
                    GBEvent::Pause
                },
            ),
            !paused,
        )
    } else if pressed && is_letter(key, 'l', 'L') {
        (WindowAction::Send(GBEvent::LoadPlugin), paused)
    } else if pressed && is_letter(key, 'r', 'R') {
        (WindowAction::Send(GBEvent::RunPlugin), paused)
    } else if shift {
        (
            WindowAction::Send(
                if pressed {
                    GBEvent::SpeedUp
                } else {
                    GBEvent::SpeedDown
                },
            ),
            paused,
        )
    } else if pressed && is_letter(key, 't', 'T') {
        (WindowAction::ToggleInterpolation, paused)
    } else {
        match winit_to_keypad(key) {
            Some(k) => (
                WindowAction::Send(
                    if pressed {
                        GBEvent::KeyDown(k)
                    } else {
                        GBEvent::KeyUp(k)
                    },
                ),
                paused,
            ),
            None => (WindowAction::Nothing, paused),
        }
    }
}

} // verus!
