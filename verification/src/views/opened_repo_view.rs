use vstd::prelude::*;

use crate::app_flags::AppLoopFlag;
use crate::command::command_handler::{callback_result, CommandHandler};
use crate::data_table::{advance_spec, retreat_spec, DataTable};
use crate::input_mode::InputMode;
use crate::keys::{KeyCode, KeyEvent};
use crate::text::tokens_of;
use crate::traits::display_view::DisplayView;
use crate::view_components::input_field::{
    editor_fed, editor_submitted, is_quit_event, is_quit_spec, InputField,
};

verus! {

/// The commit browser: a table of commit rows, a command line whose
/// submissions go to the dispatch table, and the flag that forces the first
/// draw before any input is consumed.
pub struct OpenedRepoView {
    pub repo_commits: DataTable,
    pub input_field: InputField,
    pub force_draw: bool,
    pub handler: CommandHandler,
    pub repo_name: String,
}

/// Everything one browser cycle decides: how the view after the cycle and
/// the stop verdict relate to the view before it and the delivered event.
/// The first cycle only clears the forced draw. After that: the quit chord
/// ends the screen; every other key is fed to the command line; a pressed
/// arrow moves the commit list with wraparound; a pressed enter submits the
/// line and hands it to the dispatch table, whose callback decides whether
/// the session goes on.
pub open spec fn browser_cycle_spec(
    pre: OpenedRepoView,
    post: OpenedRepoView,
    event: Option<KeyEvent>,
    stops: bool,
) -> bool {
    &&& post.repo_name == pre.repo_name
    &&& post.handler == pre.handler
    &&& (pre.force_draw ==> {
        &&& !stops
        &&& !post.force_draw
        &&& post.repo_commits == pre.repo_commits
        &&& post.input_field == pre.input_field
    })
    &&& (!pre.force_draw ==> post.force_draw == pre.force_draw)
    &&& (!pre.force_draw ==> match event {
        None => !stops && post == pre,
        Some(e) => {
            if is_quit_spec(e) {
                stops && post == pre
            } else if !e.press {
                &&& !stops
                &&& editor_fed(pre.input_field, post.input_field, e)
                &&& post.repo_commits == pre.repo_commits
            } else {
                match e.code {
                    KeyCode::Down => {
                        &&& !stops
                        &&& editor_fed(pre.input_field, post.input_field, e)
                        &&& post.repo_commits.table_items == pre.repo_commits.table_items
                        &&& post.repo_commits.sel() == advance_spec(
                            pre.repo_commits.sel(),
                            pre.repo_commits.table_items@.len() as int,
                        )
                    },
                    KeyCode::Up => {
                        &&& !stops
                        &&& editor_fed(pre.input_field, post.input_field, e)
                        &&& post.repo_commits.table_items == pre.repo_commits.table_items
                        &&& post.repo_commits.sel() == retreat_spec(
                            pre.repo_commits.sel(),
                            pre.repo_commits.table_items@.len() as int,
                        )
                    },
                    KeyCode::Enter => {
                        let line = pre.input_field.input.text();
                        let toks = tokens_of(line);
                        &&& editor_submitted(pre.input_field, post.input_field)
                        &&& post.repo_commits == pre.repo_commits
                        &&& (if toks.len() > 0 && pre.handler.table().dom().contains(toks[0]) {
                            stops == !callback_result(pre.handler.table()[toks[0]])
                        } else {
                            !stops
                        })
                    },
                    _ => {
                        &&& !stops
                        &&& editor_fed(pre.input_field, post.input_field, e)
                        &&& post.repo_commits == pre.repo_commits
                    },
                }
            }
        },
    })
}

impl OpenedRepoView {
    pub open spec fn wf(&self) -> bool {
        self.input_field.wf()
    }

    /// True while the first, input-free draw is still owed.
    pub fn needs_input(&self) -> (r: bool)
        ensures
            r == !self.force_draw,
    {
        !self.force_draw
    }

    /// One render-and-handle cycle, as `browser_cycle_spec` says.
    pub fn handle_cycle(&mut self, event: Option<KeyEvent>) -> (flag: AppLoopFlag)
        requires
            old(self).wf(),
        ensures
            final(self).wf(),
            browser_cycle_spec(*old(self), *final(self), event, flag.terminates()),
    {
        if !self.force_draw {
            if let Some(key_event) = event {
                if is_quit_event(&key_event) {
                    return AppLoopFlag::terminate();
                }
                self.input_field.input.handle_key(key_event);
                if key_event.press {
                    match key_event.code {
                        KeyCode::Down => {
                            self.repo_commits.advance();
                        },
                        KeyCode::Up => {
                            self.repo_commits.retreat();
                        },
                        KeyCode::Enter => {
                            self.input_field.enter_message();
                            let input = match self.input_field.last_message() {
                                Some(m) => m,
                                None => unreached(),
                            };
                            if let Some(should_continue) = self.handler.call_handler(
                                input.as_str(),
                            ) {
                                return AppLoopFlag::new(!should_continue);
                            }
                        },
                        _ => {},
                    }
                }
            }
        } else {
            self.force_draw = false;
        }
        AppLoopFlag::continue_()
    }
}

impl DisplayView for OpenedRepoView {
    open spec fn wf(&self) -> bool {
        self.input_field.wf()
    }

    fn display_view(&mut self, event: Option<KeyEvent>) -> (flag: AppLoopFlag)
        ensures
            browser_cycle_spec(*old(self), *final(self), event, flag.terminates()),
    {
        self.handle_cycle(event)
    }

    fn arrow_down(&mut self)
        ensures
            final(self).repo_commits.table_items == old(self).repo_commits.table_items,
            final(self).repo_commits.sel() == advance_spec(
                old(self).repo_commits.sel(),
                old(self).repo_commits.table_items@.len() as int,
            ),
            final(self).input_field == old(self).input_field,
            final(self).force_draw == old(self).force_draw,
            final(self).handler == old(self).handler,
            final(self).repo_name == old(self).repo_name,
    {
        self.repo_commits.advance();
    }

    fn arrow_up(&mut self)
        ensures
            final(self).repo_commits.table_items == old(self).repo_commits.table_items,
            final(self).repo_commits.sel() == retreat_spec(
                old(self).repo_commits.sel(),
                old(self).repo_commits.table_items@.len() as int,
            ),
            final(self).input_field == old(self).input_field,
            final(self).force_draw == old(self).force_draw,
            final(self).handler == old(self).handler,
            final(self).repo_name == old(self).repo_name,
    {
        self.repo_commits.retreat();
    }
}

impl Default for OpenedRepoView {
    /// A fresh browser shows an empty listing with the first row cursor
    /// already placed, owes its first draw, takes text from the start, and
    /// answers to the default command table.
    fn default() -> (r: Self)
        ensures
            r.wf(),
            r.force_draw,
            r.repo_commits.table_items@.len() == 0,
            r.repo_commits.sel() == Some(0int),
            r.input_field.input.text() == Seq::<char>::empty(),
            r.input_field.input_mode == InputMode::Editing,
            r.input_field.messages@.len() == 0,
            r.repo_name@ == Seq::<char>::empty(),
            r.handler.table() == CommandHandler::default_table(),
    {
        let mut table = DataTable::default();
        table.table_state.select(Some(0));
        OpenedRepoView {
            repo_commits: table,
            input_field: InputField::default(),
            force_draw: true,
            handler: CommandHandler::default(),
            repo_name: String::new(),
        }
    }
}

} // verus!
