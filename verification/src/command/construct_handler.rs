use vstd::prelude::*;

use crate::command::command_handler::{CommandCallback, CommandHandler};

verus! {

/// Build the table every screen starts from: empty but for the built-in
/// `quit` command, which asks the session to stop.
pub fn handler_create_callbacks() -> (handler: CommandHandler)
    ensures
        handler.table() == Map::<Seq<char>, CommandCallback>::empty().insert(
            "quit"@,
            CommandCallback::Quit,
        ),
{
    let mut handler = CommandHandler { handlers: Vec::new() };
    proof {
        assert(CommandHandler::table_of(Seq::<(String, CommandCallback)>::empty())
            =~= Map::<Seq<char>, CommandCallback>::empty());
    }
    handler.add_handler("quit", CommandCallback::Quit);
    handler
}

} // verus!
