use vstd::prelude::*;

verus! {

/// The keys the session distinguishes. The terminal backend's richer event
/// type is decoded into this before any of the core logic sees it.
#[derive(Clone, Copy, Debug)]
pub enum KeyCode {
    Char(char),
    Enter,
    Backspace,
    Delete,
    Left,
    Right,
    Up,
    Down,
    Esc,
    Other,
}

/// One key event: which key, whether control was held, and whether this is a
/// press rather than a release or repeat.
#[derive(Clone, Copy, Debug)]
pub struct KeyEvent {
    pub code: KeyCode,
    pub ctrl: bool,
    pub press: bool,
}

impl KeyEvent {
    /// A plain key press without modifiers.
    pub fn press(code: KeyCode) -> (r: KeyEvent)
        ensures
            r == (KeyEvent { code, ctrl: false, press: true }),
    {
        KeyEvent { code, ctrl: false, press: true }
    }
}

} // verus!
