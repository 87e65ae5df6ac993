use vstd::prelude::*;

use crate::app_flags::AppLoopFlag;
use crate::keys::KeyEvent;

verus! {

/// One full-terminal interactive mode. Each cycle consumes at most one
/// decoded key event — none on the first, forced draw — and produces the
/// verdict that tells the driver whether to keep looping. Rendering itself
/// belongs to the terminal layer; a view only carries the state it draws
/// from.
pub trait DisplayView: Sized {
    /// The view's internal consistency, preserved by every cycle.
    spec fn wf(&self) -> bool;

    /// Drive one handle cycle from the delivered key event.
    fn display_view(&mut self, event: Option<KeyEvent>) -> (flag: AppLoopFlag)
        requires
            old(self).wf(),
        ensures
            final(self).wf(),
    ;

    /// Move the view's selection one row down, wrapping around.
    fn arrow_down(&mut self)
        requires
            old(self).wf(),
        ensures
            final(self).wf(),
    ;

    /// Move the view's selection one row up, wrapping around.
    fn arrow_up(&mut self)
        requires
            old(self).wf(),
        ensures
            final(self).wf(),
    ;
}

} // verus!
