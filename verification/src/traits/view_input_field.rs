use vstd::prelude::*;

use crate::input_mode::InputMode;

verus! {

/// A view that owns a text-entry widget whose mode and submissions the
/// driver may steer from outside.
pub trait ViewInputField {
    fn get_input_mode(&self) -> InputMode;

    fn set_input_mode(&mut self, mode: InputMode);

    fn enter_message(&mut self, message: &str);
}

} // verus!
