//! What a key does: the console's controls on the keyboard, the screen
//! switches, saving and loading, and scrolling.

use vstd::prelude::*;

use crate::nes::pad::{Pad, PadButton};
use crate::proc::ProcessMode;

verus! {

/// Whether a key went down or up.
#[derive(Clone, Copy, PartialEq, Eq, Structural, Debug)]
pub enum KeyState {
    Up,
    Down,
    SingleShot,
}

/// The keys that do something; the others are `Other`.
#[derive(Clone, Copy, PartialEq, Eq, Structural, Debug)]
pub enum KeyCode {
    Tab,
    F1,
    F2,
    F3,
    F4,
    L,
    K,
    W,
    S,
    A,
    D,
    Z,
    Key1,
    Key2,
    ArrowUp,
    ArrowDown,
    PageUp,
    PageDown,
    ArrowLeft,
    ArrowRight,
    Return,
    Other,
}

/// A decoded key event and the modifier keys held.
#[derive(Clone, Copy, PartialEq, Eq, Structural, Debug)]
pub struct KeyEvent {
    pub code: KeyCode,
    pub state: KeyState,
    pub ctrl: bool,
    pub shift: bool,
}

/// What the kernel does for a key.
#[derive(Clone, Copy, PartialEq, Eq, Structural, Debug)]
pub enum KeyAction {
    /// Show the next screen in turn.
    ShiftProcess,
    /// Show the given screen.
    SwitchProcess(ProcessMode),
    /// A controller button of player 1 went down or up (or neither).
    Pad(PadButton, KeyState),
    /// Save the cartridge's battery RAM.
    SaveRam,
    /// Save the machine state.
    SaveState,
    /// Load the cartridge's battery RAM.
    LoadRam,
    /// Load the machine state and restart the game screen.
    LoadState,
    /// Move the menu cursor up.
    CursorBack,
    /// Move the menu cursor down.
    CursorForward,
    /// Scroll the log by this many lines.
    Scroll(i32),
    /// Scroll the log to its end.
    ResetScroll,
    /// Load the selected cartridge and start it.
    StartGame,
    Nothing,
}

pub struct BKeyboard;

impl BKeyboard {
    /// The key map: Tab cycles the screens and F1-F4 pick one (on key
    /// down); L, K, W, S, A, D, 1 and 2 are A, B, up, down, left, right,
    /// select and start (down and up), but Ctrl+S saves (with Shift the
    /// battery RAM, else the state); Ctrl+Z loads likewise (on key down).
    /// The arrows move the menu cursor on the menu screen and scroll the
    /// log elsewhere (up and down one line, left to the top, right to the
    /// end), page up and down scroll 256 lines, and Return starts the
    /// selected cartridge from the menu.
    pub open spec fn spec_decide(e: KeyEvent, mode: ProcessMode) -> KeyAction {
        let down = e.state == KeyState::Down;
        match e.code {
            KeyCode::Tab => if down { KeyAction::ShiftProcess } else { KeyAction::Nothing },
            KeyCode::F1 => if down { KeyAction::SwitchProcess(ProcessMode::System) } else { KeyAction::Nothing },
            KeyCode::F2 => if down { KeyAction::SwitchProcess(ProcessMode::Game) } else { KeyAction::Nothing },
            KeyCode::F3 => if down { KeyAction::SwitchProcess(ProcessMode::Info) } else { KeyAction::Nothing },
            KeyCode::F4 => if down { KeyAction::SwitchProcess(ProcessMode::Log) } else { KeyAction::Nothing },
            KeyCode::L => KeyAction::Pad(PadButton::A, e.state),
            KeyCode::K => KeyAction::Pad(PadButton::B, e.state),
            KeyCode::W => KeyAction::Pad(PadButton::Up, e.state),
            KeyCode::S => if e.ctrl {
                if e.shift { KeyAction::SaveRam } else { KeyAction::SaveState }
            } else {
                KeyAction::Pad(PadButton::Down, e.state)
            },
            KeyCode::A => KeyAction::Pad(PadButton::Left, e.state),
            KeyCode::D => KeyAction::Pad(PadButton::Right, e.state),
            KeyCode::Z => if down && e.ctrl {
                if e.shift { KeyAction::LoadRam } else { KeyAction::LoadState }
            } else {
                KeyAction::Nothing
            },
            KeyCode::Key1 => KeyAction::Pad(PadButton::Select, e.state),
            KeyCode::Key2 => KeyAction::Pad(PadButton::Start, e.state),
            KeyCode::ArrowUp => if !down {
                KeyAction::Nothing
            } else if mode == ProcessMode::System {
                KeyAction::CursorBack
            } else {
                KeyAction::Scroll(-1i32)
            },
            KeyCode::ArrowDown => if !down {
                KeyAction::Nothing
            } else if mode == ProcessMode::System {
                KeyAction::CursorForward
            } else {
                KeyAction::Scroll(1i32)
            },
            KeyCode::PageUp => if down { KeyAction::Scroll(-0x100i32) } else { KeyAction::Nothing },
            KeyCode::PageDown => if down { KeyAction::Scroll(0x100i32) } else { KeyAction::Nothing },
            KeyCode::ArrowLeft => if down { KeyAction::Scroll(-0xFFFFFFFi32) } else { KeyAction::Nothing },
            KeyCode::ArrowRight => if down { KeyAction::ResetScroll } else { KeyAction::Nothing },
            KeyCode::Return => if down && mode == ProcessMode::System { KeyAction::StartGame } else { KeyAction::Nothing },
            KeyCode::Other => KeyAction::Nothing,
        }
    }

    /// What to do for a key event on screen `mode` (see `spec_decide`).
    pub fn on_event(e: KeyEvent, mode: ProcessMode) -> (r: KeyAction)
        ensures
            r == Self::spec_decide(e, mode),
    {
        let down = e.state == KeyState::Down;
        match e.code {
            KeyCode::Tab => if down { KeyAction::ShiftProcess } else { KeyAction::Nothing },
            KeyCode::F1 => if down { KeyAction::SwitchProcess(ProcessMode::System) } else { KeyAction::Nothing },
            KeyCode::F2 => if down { KeyAction::SwitchProcess(ProcessMode::Game) } else { KeyAction::Nothing },
            KeyCode::F3 => if down { KeyAction::SwitchProcess(ProcessMode::Info) } else { KeyAction::Nothing },
            KeyCode::F4 => if down { KeyAction::SwitchProcess(ProcessMode::Log) } else { KeyAction::Nothing },
            KeyCode::L => KeyAction::Pad(PadButton::A, e.state),
            KeyCode::K => KeyAction::Pad(PadButton::B, e.state),
            KeyCode::W => KeyAction::Pad(PadButton::Up, e.state),
            KeyCode::S => {
                if e.ctrl {
                    if e.shift { KeyAction::SaveRam } else { KeyAction::SaveState }
                } else {
                    KeyAction::Pad(PadButton::Down, e.state)
                }
            },
            KeyCode::A => KeyAction::Pad(PadButton::Left, e.state),
            KeyCode::D => KeyAction::Pad(PadButton::Right, e.state),
            KeyCode::Z => {
                if down && e.ctrl {
                    if e.shift { KeyAction::LoadRam } else { KeyAction::LoadState }
                } else {
                    KeyAction::Nothing
                }
            },
            KeyCode::Key1 => KeyAction::Pad(PadButton::Select, e.state),
            KeyCode::Key2 => KeyAction::Pad(PadButton::Start, e.state),
            KeyCode::ArrowUp => {
                if !down {
                    KeyAction::Nothing
                } else if mode == ProcessMode::System {
                    KeyAction::CursorBack
                } else {
                    KeyAction::Scroll(-1)
                }
            },
            KeyCode::ArrowDown => {
                if !down {
                    KeyAction::Nothing
                } else if mode == ProcessMode::System {
                    KeyAction::CursorForward
                } else {
                    KeyAction::Scroll(1)
                }
            },
            KeyCode::PageUp => if down { KeyAction::Scroll(-0x100) } else { KeyAction::Nothing },
            KeyCode::PageDown => if down { KeyAction::Scroll(0x100) } else { KeyAction::Nothing },
            KeyCode::ArrowLeft => if down { KeyAction::Scroll(-0xFFFFFFF) } else { KeyAction::Nothing },
            KeyCode::ArrowRight => if down { KeyAction::ResetScroll } else { KeyAction::Nothing },
            KeyCode::Return => if down && mode == ProcessMode::System { KeyAction::StartGame } else { KeyAction::Nothing },
            KeyCode::Other => KeyAction::Nothing,
        }
    }

    /// A controller key: pressed on key down, released on key up.
    pub fn on_pad_button(state: KeyState, button: PadButton, pad: &mut Pad)
        ensures
            state == KeyState::Down ==> *final(pad) == old(pad).spec_set_button(button, true),
            state == KeyState::Up ==> *final(pad) == old(pad).spec_set_button(button, false),
            state == KeyState::SingleShot ==> *final(pad) == *old(pad),
    {
        match state {
            KeyState::Down => pad.press_button(button),
            KeyState::Up => pad.release_button(button),
            KeyState::SingleShot => {},
        }
    }
}

} // verus!
