use vstd::prelude::*;

verus! {

/// Whether keys navigate the screen or are fed into the input line.
#[derive(Clone, Copy, PartialEq, Eq, Structural, Debug)]
pub enum InputMode {
    Normal,
    Editing,
}

} // verus!
