use vstd::prelude::*;

verus! {

/// The plain shape of one raw input event, as the terminal collaborator
/// hands it to the library: a typed character, a control-key chord, one of
/// the navigation keys, some other key, or a non-key event.
#[derive(Clone, Copy, Debug, PartialEq, Eq, Structural)]
pub enum KeyInput {
    Char(char),
    Ctrl(char),
    Backspace,
    Up,
    Down,
    OtherKey,
    NonKey,
}

/// What one key event means while editing an answer.
#[derive(Clone, Copy, Debug, PartialEq, Eq, Structural)]
pub enum KeyCharPressed {
    Backspace,
    Char(char),
    Exit,
    NoKey,
    Quit,
}

/// Whether the session is browsing the list or editing the highlighted
/// item's answer.
#[derive(Clone, Copy, Debug, PartialEq, Eq, Structural)]
pub enum Mode {
    Navigate,
    Edit,
}

/// Semantic command produced by translating one raw key event; one is made
/// fresh per event and never persisted.
#[derive(Clone, Copy, Debug, PartialEq, Eq, Structural)]
pub enum Action {
    Move(i32),
    EnterEdit,
    ExitEdit,
    InsertChar(char),
    Backspace,
    Quit,
    NoOp,
}

/// The edit-mode meaning of a key event: typed characters and backspace
/// edit, ctrl-w leaves edit mode, ctrl-g quits, anything else does nothing.
pub open spec fn spec_get_key_char(key_event: KeyInput) -> KeyCharPressed {
    match key_event {
        KeyInput::Char(c) => KeyCharPressed::Char(c),
        KeyInput::Backspace => KeyCharPressed::Backspace,
        KeyInput::Ctrl(c) => if c == 'w' {
            KeyCharPressed::Exit
        } else if c == 'g' {
            KeyCharPressed::Quit
        } else {
            KeyCharPressed::NoKey
        },
        _ => KeyCharPressed::NoKey,
    }
}

/// Translates one key event for edit mode.
pub fn get_key_char(key_event: KeyInput) -> (r: KeyCharPressed)
    ensures
        r == spec_get_key_char(key_event),
{
    match key_event {
        KeyInput::Char(c) => KeyCharPressed::Char(c),
        KeyInput::Backspace => KeyCharPressed::Backspace,
        KeyInput::Ctrl(c) => {
            if c == 'w' {
                KeyCharPressed::Exit
            } else if c == 'g' {
                KeyCharPressed::Quit
            } else {
                KeyCharPressed::NoKey
            }
        },
        _ => KeyCharPressed::NoKey,
    }
}

/// The navigate-mode meaning of a key event as a raw code: the arrow keys
/// give a move delta, ctrl-w gives 254 (toggle editing), ctrl-g gives 255
/// (quit), anything else 0.
pub open spec fn spec_down_or_up(key_event: KeyInput) -> i32 {
    match key_event {
        KeyInput::Ctrl(c) => if c == 'w' {
            254i32
        } else if c == 'g' {
            255i32
        } else {
            0i32
        },
        KeyInput::Up => -1i32,
        KeyInput::Down => 1i32,
        _ => 0i32,
    }
}

/// Translates one key event for navigate mode into its raw code.
pub fn down_or_up(key_event: KeyInput) -> (r: i32)
    ensures
        r == spec_down_or_up(key_event),
{
    match key_event {
        KeyInput::Ctrl(c) => {
            if c == 'w' {
                254
            } else if c == 'g' {
                255
            } else {
                0
            }
        },
        KeyInput::Up => -1,
        KeyInput::Down => 1,
        _ => 0,
    }
}

/// The one action a key event means under the current mode: arrows move only
/// while navigating, characters and backspace edit only while editing,
/// ctrl-w toggles the mode, ctrl-g always quits, and anything unrecognized
/// is a no-op, never an error.
pub open spec fn spec_translate_key(mode: Mode, key_event: KeyInput) -> Action {
    match key_event {
        KeyInput::Ctrl(c) => if c == 'g' {
            Action::Quit
        } else if c == 'w' {
            if mode is Navigate {
                Action::EnterEdit
            } else {
                Action::ExitEdit
            }
        } else {
            Action::NoOp
        },
        KeyInput::Up => if mode is Navigate {
            Action::Move(-1i32)
        } else {
            Action::NoOp
        },
        KeyInput::Down => if mode is Navigate {
            Action::Move(1i32)
        } else {
            Action::NoOp
        },
        KeyInput::Char(c) => if mode is Edit {
            Action::InsertChar(c)
        } else {
            Action::NoOp
        },
        KeyInput::Backspace => if mode is Edit {
            Action::Backspace
        } else {
            Action::NoOp
        },
        _ => Action::NoOp,
    }
}

/// Maps one raw key event to exactly one action under the current mode.
/// Toggling is strict: while editing the translator never emits `EnterEdit`,
/// and while navigating it never emits `ExitEdit`.
pub fn translate_key(mode: Mode, key_event: KeyInput) -> (a: Action)
    ensures
        a == spec_translate_key(mode, key_event),
        mode is Edit ==> a != Action::EnterEdit,
        mode is Navigate ==> a != Action::ExitEdit,
        a matches Action::Move(d) ==> (d == 1 || d == -1) && mode is Navigate,
{
    match key_event {
        KeyInput::Ctrl(c) => {
            if c == 'g' {
                Action::Quit
            } else if c == 'w' {
                match mode {
                    Mode::Navigate => Action::EnterEdit,
                    Mode::Edit => Action::ExitEdit,
                }
            } else {
                Action::NoOp
            }
        },
        KeyInput::Up => {
            match mode {
                Mode::Navigate => Action::Move(-1),
                Mode::Edit => Action::NoOp,
            }
        },
        KeyInput::Down => {
            match mode {
                Mode::Navigate => Action::Move(1),
                Mode::Edit => Action::NoOp,
            }
        },
        KeyInput::Char(c) => {
            match mode {
                Mode::Edit => Action::InsertChar(c),
                Mode::Navigate => Action::NoOp,
            }
        },
        KeyInput::Backspace => {
            match mode {
                Mode::Edit => Action::Backspace,
                Mode::Navigate => Action::NoOp,
            }
        },
        KeyInput::OtherKey => Action::NoOp,
        KeyInput::NonKey => Action::NoOp,
    }
}

} // verus!
