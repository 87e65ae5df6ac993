use vstd::prelude::*;

verus! {

/// Two-state control token returned by every screen render-and-handle cycle:
/// tells the outer driver whether to keep looping or to stop.
pub struct AppLoopFlag {
    terminate_execution: bool,
}

impl AppLoopFlag {
    /// True when this flag asks the driver to stop the loop.
    pub closed spec fn terminates(&self) -> bool {
        self.terminate_execution
    }

    pub fn should_continue(&self) -> (r: bool)
        ensures
            r == !self.terminates(),
    {
        !self.terminate_execution
    }

    pub fn should_terminate(&self) -> (r: bool)
        ensures
            r == self.terminates(),
    {
        self.terminate_execution
    }

    pub fn new(terminate: bool) -> (r: Self)
        ensures
            r.terminates() == terminate,
    {
        Self { terminate_execution: terminate }
    }

    pub fn terminate() -> (r: Self)
        ensures
            r.terminates(),
    {
        Self { terminate_execution: true }
    }

    pub fn continue_() -> (r: Self)
        ensures
            !r.terminates(),
    {
        Self { terminate_execution: false }
    }
}

impl Default for AppLoopFlag {
    /// A freshly constructed flag lets the loop continue.
    fn default() -> (r: Self)
        ensures
            !r.terminates(),
    {
        Self { terminate_execution: false }
    }
}

} // verus!
