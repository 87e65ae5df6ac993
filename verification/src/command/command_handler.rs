use vstd::prelude::*;

use crate::text::{lemma_views_of, tokenize, tokens_of, views_of};

verus! {

/// What a registered callback does with the tokens that follow the command
/// name. The verifier does not take function pointers, so the table stores
/// the possible behaviours as data and `run_callback` interprets them.
#[derive(Clone, Copy)]
pub enum CommandCallback {
    /// Ask the session to stop.
    Quit,
    /// Leave the session running.
    Proceed,
}

/// The answer a callback gives: `false` asks the driver to stop looping.
pub open spec fn callback_result(cb: CommandCallback) -> bool {
    match cb {
        CommandCallback::Quit => false,
        CommandCallback::Proceed => true,
    }
}

/// Run `callback` on the tokens that followed the command name.
pub fn run_callback(callback: CommandCallback, _tokens: &Vec<String>) -> (r: bool)
    ensures
        r == callback_result(callback),
{
    match callback {
        CommandCallback::Quit => false,
        CommandCallback::Proceed => true,
    }
}

/// A mapping from command name to callback. Callbacks return a boolean,
/// `false` meaning to quit the application, `true` meaning to continue.
pub struct CommandHandler {
    pub(crate) handlers: Vec<(String, CommandCallback)>,
}

impl CommandHandler {
    /// The table a fresh handler starts from: the built-in `quit`
    /// registration and nothing else.
    pub open spec fn default_table() -> Map<Seq<char>, CommandCallback> {
        Map::<Seq<char>, CommandCallback>::empty().insert("quit"@, CommandCallback::Quit)
    }

    /// The registrations folded into a map: a later entry for the same name
    /// overrides an earlier one.
    pub open(crate) spec fn table_of(entries: Seq<(String, CommandCallback)>) -> Map<
        Seq<char>,
        CommandCallback,
    >
        decreases entries.len(),
    {
        if entries.len() == 0 {
            Map::<Seq<char>, CommandCallback>::empty()
        } else {
            Self::table_of(entries.drop_last()).insert(entries.last().0@, entries.last().1)
        }
    }

    /// The table as a mathematical map from command name to callback.
    pub open(crate) spec fn table(&self) -> Map<Seq<char>, CommandCallback> {
        Self::table_of(self.handlers@)
    }

    /// Register `callback` under `command`; the last registration for a given
    /// name wins.
    pub fn add_handler(&mut self, command: &str, callback: CommandCallback)
        ensures
            final(self).table() == old(self).table().insert(command@, callback),
    {
        let owned = command.to_owned();
        self.handlers.push((owned, callback));
        proof {
            assert(self.handlers@.drop_last() =~= old(self).handlers@);
        }
    }

    /// Split `command` into tokens; when the first token names a registered
    /// callback, run it on the remaining tokens and hand back its answer.
    /// A line without tokens, or with an unknown first token, matches nothing.
    pub fn call_handler(&self, command: &str) -> (r: Option<bool>)
        ensures
            ({
                let toks = tokens_of(command@);
                match r {
                    None => toks.len() == 0 || !self.table().dom().contains(toks[0]),
                    Some(b) => toks.len() > 0 && self.table().dom().contains(toks[0]) && b
                        == callback_result(self.table()[toks[0]]),
                }
            }),
    {
        let tokens = tokenize(command);
        proof {
            lemma_views_of(tokens@);
        }
        if tokens.len() == 0 {
            return None;
        }
        let ghost key = tokens_of(command@)[0];
        let ghost entries = self.handlers@;
        proof {
            assert(entries.take(entries.len() as int) =~= entries);
        }
        let mut j: usize = self.handlers.len();
        let mut found: Option<CommandCallback> = None;
        while j > 0 && found.is_none()
            invariant
                j <= entries.len(),
                entries == self.handlers@,
                tokens@.len() > 0,
                views_of(tokens@) == tokens_of(command@),
                forall|i: int| 0 <= i < tokens@.len() ==> views_of(tokens@)[i] == #[trigger] tokens@[i]@,
                views_of(tokens@).len() == tokens@.len(),
                key == tokens@[0]@,
                match found {
                    None => {
                        &&& Self::table_of(entries).dom().contains(key)
                            == Self::table_of(entries.take(j as int)).dom().contains(key)
                        &&& (Self::table_of(entries).dom().contains(key) ==> Self::table_of(
                            entries,
                        )[key] == Self::table_of(entries.take(j as int))[key])
                    },
                    Some(cb) => Self::table_of(entries).dom().contains(key) && Self::table_of(
                        entries,
                    )[key] == cb,
                },
            decreases j,
        {
            proof {
                assert(entries.take(j as int).drop_last() =~= entries.take(j - 1));
                assert(entries.take(j as int).last() == entries[j - 1]);
            }
            let entry_name: &String = &self.handlers[j - 1].0;
            if entry_name.eq(&tokens[0]) {
                found = Some(self.handlers[j - 1].1);
            }
            j = j - 1;
        }
        match found {
            Some(cb) => {
                let mut rest: Vec<String> = Vec::new();
                let mut i: usize = 1;
                while i < tokens.len()
                    invariant
                        1 <= i <= tokens@.len(),
                    decreases tokens@.len() - i,
                {
                    rest.push(tokens[i].clone());
                    i += 1;
                }
                Some(run_callback(cb, &rest))
            },
            None => {
                proof {
                    assert(entries.take(0) =~= Seq::<(String, CommandCallback)>::empty());
                }
                None
            },
        }
    }
}

/// Registration order does not matter: registering two distinct names in
/// either order builds the same table.
pub proof fn lemma_registration_order_irrelevant(
    table: Map<Seq<char>, CommandCallback>,
    name_a: Seq<char>,
    cb_a: CommandCallback,
    name_b: Seq<char>,
    cb_b: CommandCallback,
)
    requires
        name_a != name_b,
    ensures
        table.insert(name_a, cb_a).insert(name_b, cb_b) == table.insert(name_b, cb_b).insert(
            name_a,
            cb_a,
        ),
{
    assert(table.insert(name_a, cb_a).insert(name_b, cb_b) =~= table.insert(name_b, cb_b).insert(
        name_a,
        cb_a,
    ));
}

impl Default for CommandHandler {
    /// A fresh table holds the built-in `quit` registration.
    fn default() -> (r: Self)
        ensures
            r.table() == Self::default_table(),
    {
        crate::command::construct_handler::handler_create_callbacks()
    }
}

} // verus!
