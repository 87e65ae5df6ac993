use vstd::prelude::*;

verus! {

/// A source-control invocation under construction: not yet assembled into a
/// runnable command line.
#[allow(dead_code)]
pub struct GitCommand {
    options: Vec<String>,
    command: String,
    value: String,
}

/// Something that can render itself as a source-control command line.
pub trait CommandBuilder {
    fn to_git_command() -> String;
}

impl CommandBuilder for GitCommand {
    fn to_git_command() -> String {
        String::new()
    }
}

} // verus!
