use vstd::prelude::*;

use crate::app_flags::AppLoopFlag;
use crate::command::command_handler::CommandHandler;
use crate::config::repo::{SavedRepositories, SerializedRepository};
use crate::data_table::{advance_spec, retreat_spec, DataTable};
use crate::git::{get_repo_url, open_repository, repo_name_spec};
use crate::input_mode::InputMode;
use crate::keys::{KeyCode, KeyEvent};
use crate::traits::display_view::DisplayView;
use crate::view_components::input_field::{
    editor_fed, editor_submitted, is_quit_event, is_quit_spec, InputField,
};
use crate::volnita::build_recent_descriptor;

verus! {

/// The repository selector: the remembered repositories as a table, a text
/// line for opening a path directly, and the record of whether the last
/// interaction was list navigation — which decides what an accept key means.
pub struct StartView {
    pub repositories: DataTable,
    pub input_field: InputField,
    pub force_draw: bool,
    pub handler: CommandHandler,
    pub repo_selected: Option<SerializedRepository>,
    pub arrow_used: bool,
}

/// The index an accept falls on: the selected row, or the first row when
/// nothing is selected.
pub open spec fn accept_index(sel: Option<int>) -> int {
    match sel {
        Some(i) => i,
        None => 0,
    }
}

/// The cell of `row` at `i`, or empty text where the row is too short.
pub open spec fn cell_or_empty(row: Seq<String>, i: int) -> Seq<char> {
    if 0 <= i < row.len() {
        row[i]@
    } else {
        Seq::<char>::empty()
    }
}

/// Everything one selector cycle decides: how the view after the cycle and
/// the stop verdict relate to the view before it and the delivered event.
/// The first cycle only clears the forced draw. After that: the quit chord
/// abandons the screen with nothing selected; arrows move the list and make
/// the accept key mean the highlighted row; an accept after navigation ends
/// the screen carrying the highlighted row's descriptor — never the typed
/// text; an accept after typing submits the line and tries to open it as a
/// repository path, ending the screen with that repository's descriptor only
/// when the open succeeds.
pub open spec fn selector_cycle_spec(
    pre: StartView,
    post: StartView,
    event: Option<KeyEvent>,
    stops: bool,
) -> bool {
    &&& post.handler == pre.handler
    &&& (pre.first_draw_pending() ==> {
        &&& !stops
        &&& !post.first_draw_pending()
        &&& post.repositories == pre.repositories
        &&& post.input_field == pre.input_field
        &&& post.repo_selected == pre.repo_selected
        &&& post.arrow_recent() == pre.arrow_recent()
    })
    &&& (!pre.first_draw_pending() ==> post.first_draw_pending() == pre.first_draw_pending())
    &&& (!pre.first_draw_pending() ==> match event {
        None => !stops && post == pre,
        Some(e) => {
            if is_quit_spec(e) {
                stops && post == pre
            } else if !e.press {
                &&& !stops
                &&& editor_fed(pre.input_field, post.input_field, e)
                &&& post.repositories == pre.repositories
                &&& post.repo_selected == pre.repo_selected
                &&& post.arrow_recent() == pre.arrow_recent()
            } else {
                match e.code {
                    KeyCode::Down => {
                        &&& !stops
                        &&& editor_fed(pre.input_field, post.input_field, e)
                        &&& post.repositories.table_items == pre.repositories.table_items
                        &&& post.repositories.sel() == advance_spec(
                            pre.repositories.sel(),
                            pre.repositories.table_items@.len() as int,
                        )
                        &&& post.repo_selected == pre.repo_selected
                        &&& post.arrow_recent()
                    },
                    KeyCode::Up => {
                        &&& !stops
                        &&& editor_fed(pre.input_field, post.input_field, e)
                        &&& post.repositories.table_items == pre.repositories.table_items
                        &&& post.repositories.sel() == retreat_spec(
                            pre.repositories.sel(),
                            pre.repositories.table_items@.len() as int,
                        )
                        &&& post.repo_selected == pre.repo_selected
                        &&& post.arrow_recent()
                    },
                    KeyCode::Enter => {
                        if pre.arrow_recent() {
                            let ind = accept_index(pre.repositories.sel());
                            let items = pre.repositories.table_items@;
                            &&& editor_fed(pre.input_field, post.input_field, e)
                            &&& post.repositories == pre.repositories
                            &&& post.arrow_recent() == pre.arrow_recent()
                            &&& (if 0 <= ind < items.len() {
                                let row = items[ind]@;
                                &&& stops
                                &&& (post.repo_selected matches Some(d) ==> {
                                    &&& d.path@ == cell_or_empty(row, 1)
                                    &&& d.name@ == cell_or_empty(row, 0)
                                    &&& d.repo_url@ == cell_or_empty(row, 2)
                                })
                                &&& post.repo_selected is Some
                            } else {
                                &&& !stops
                                &&& post.repo_selected == pre.repo_selected
                            })
                        } else {
                            let typed = pre.input_field.input.text();
                            &&& editor_submitted(pre.input_field, post.input_field)
                            &&& post.repositories == pre.repositories
                            &&& post.arrow_recent() == pre.arrow_recent()
                            &&& (stops ==> {
                                &&& post.repo_selected is Some
                                &&& (post.repo_selected matches Some(d) ==> {
                                    &&& d.path@ == typed
                                    &&& d.name@ == repo_name_spec(typed)
                                })
                            })
                            &&& (!stops ==> post.repo_selected == pre.repo_selected)
                        }
                    },
                    _ => {
                        &&& !stops
                        &&& editor_fed(pre.input_field, post.input_field, e)
                        &&& post.repositories == pre.repositories
                        &&& post.repo_selected == pre.repo_selected
                        &&& !post.arrow_recent()
                    },
                }
            }
        },
    })
}

impl StartView {
    pub open spec fn wf(&self) -> bool {
        self.input_field.wf()
    }

    /// True while the first, input-free draw is still owed.
    pub open spec fn first_draw_pending(&self) -> bool {
        self.force_draw
    }

    /// True when the last interaction was list navigation, so that an accept
    /// key picks the highlighted row rather than the typed text.
    pub open spec fn arrow_recent(&self) -> bool {
        self.arrow_used
    }

    pub fn needs_input(&self) -> (r: bool)
        ensures
            r == !self.first_draw_pending(),
    {
        !self.force_draw
    }

    /// Materialize the remembered repositories into the table: one row per
    /// descriptor, showing name, path and URL.
    pub fn load_table(&mut self, config: &SavedRepositories)
        ensures
            final(self).repositories.table_items@.len()
                == config.recent_repositories@.len(),
            forall|i: int|
                0 <= i < config.recent_repositories@.len() ==> {
                    let row = (#[trigger] final(self).repositories.table_items@[i])@;
                    &&& row.len() == 3
                    &&& row[0]@ == config.recent_repositories@[i].name@
                    &&& row[1]@ == config.recent_repositories@[i].path@
                    &&& row[2]@ == config.recent_repositories@[i].repo_url@
                },
            final(self).repositories.table_state == old(self).repositories.table_state,
            final(self).input_field == old(self).input_field,
            final(self).first_draw_pending() == old(self).first_draw_pending(),
            final(self).handler == old(self).handler,
            final(self).repo_selected == old(self).repo_selected,
            final(self).arrow_recent() == old(self).arrow_recent(),
    {
        self.repositories.table_items = Self::get_table_items(config);
    }

    /// The table rows a store is displayed as.
    fn get_table_items(config: &SavedRepositories) -> (r: Vec<Vec<String>>)
        ensures
            r@.len() == config.recent_repositories@.len(),
            forall|i: int|
                0 <= i < config.recent_repositories@.len() ==> {
                    let row = (#[trigger] r@[i])@;
                    &&& row.len() == 3
                    &&& row[0]@ == config.recent_repositories@[i].name@
                    &&& row[1]@ == config.recent_repositories@[i].path@
                    &&& row[2]@ == config.recent_repositories@[i].repo_url@
                },
    {
        let mut table_items: Vec<Vec<String>> = Vec::new();
        let mut i: usize = 0;
        while i < config.recent_repositories.len()
            invariant
                i <= config.recent_repositories@.len(),
                table_items@.len() == i,
                forall|k: int|
                    0 <= k < i ==> {
                        let row = (#[trigger] table_items@[k])@;
                        &&& row.len() == 3
                        &&& row[0]@ == config.recent_repositories@[k].name@
                        &&& row[1]@ == config.recent_repositories@[k].path@
                        &&& row[2]@ == config.recent_repositories@[k].repo_url@
                    },
            decreases config.recent_repositories@.len() - i,
        {
            let repo = &config.recent_repositories[i];
            let mut row: Vec<String> = Vec::new();
            row.push(repo.name.clone());
            row.push(repo.path.clone());
            row.push(repo.repo_url.clone());
            table_items.push(row);
            i += 1;
        }
        table_items
    }

    /// One render-and-handle cycle, as `selector_cycle_spec` says.
    pub fn handle_cycle(&mut self, event: Option<KeyEvent>) -> (flag: AppLoopFlag)
        requires
            old(self).wf(),
        ensures
            final(self).wf(),
            selector_cycle_spec(*old(self), *final(self), event, flag.terminates()),
    {
        if !self.force_draw {
            if let Some(key_event) = event {
                if is_quit_event(&key_event) {
                    return AppLoopFlag::terminate();
                }
                self.input_field.input.handle_key(key_event);
                if key_event.press {
                    match key_event.code {
                        KeyCode::Down => {
                            self.repositories.advance();
                            self.arrow_used = true;
                        },
                        KeyCode::Up => {
                            self.repositories.retreat();
                            self.arrow_used = true;
                        },
                        KeyCode::Enter => {
                            if self.arrow_used {
                                let selected_ind: usize = match self.repositories.table_state
                                    .selected() {
                                    Some(i) => i,
                                    None => 0,
                                };
                                if selected_ind < self.repositories.table_items.len() {
                                    let selected_repo = &self.repositories.table_items[
                                        selected_ind];
                                    let path = if selected_repo.len() > 1 {
                                        selected_repo[1].clone()
                                    } else {
                                        String::new()
                                    };
                                    let name = if selected_repo.len() > 0 {
                                        selected_repo[0].clone()
                                    } else {
                                        String::new()
                                    };
                                    let repo_url = if selected_repo.len() > 2 {
                                        selected_repo[2].clone()
                                    } else {
                                        String::new()
                                    };
                                    self.repo_selected = Some(
                                        SerializedRepository { path, name, repo_url },
                                    );
                                    return AppLoopFlag::terminate();
                                }
                            } else {
                                self.input_field.enter_message();
                                let input = match self.input_field.last_message() {
                                    Some(m) => m,
                                    None => unreached(),
                                };
                                match open_repository(input.as_str()) {
                                    Ok(git_repo) => {
                                        let url = get_repo_url(&git_repo);
                                        let descriptor = build_recent_descriptor(input, url);
                                        self.repo_selected = Some(descriptor);
                                        return AppLoopFlag::terminate();
                                    },
                                    Err(_) => {},
                                }
                            }
                        },
                        _ => {
                            self.arrow_used = false;
                        },
                    }
                }
            }
        } else {
            self.force_draw = false;
        }
        AppLoopFlag::continue_()
    }
}

impl DisplayView for StartView {
    open spec fn wf(&self) -> bool {
        self.input_field.wf()
    }

    fn display_view(&mut self, event: Option<KeyEvent>) -> (flag: AppLoopFlag)
        ensures
            selector_cycle_spec(*old(self), *final(self), event, flag.terminates()),
    {
        self.handle_cycle(event)
    }

    fn arrow_down(&mut self)
        ensures
            final(self).repositories.table_items == old(self).repositories.table_items,
            final(self).repositories.sel() == advance_spec(
                old(self).repositories.sel(),
                old(self).repositories.table_items@.len() as int,
            ),
            final(self).arrow_recent(),
            final(self).input_field == old(self).input_field,
            final(self).first_draw_pending() == old(self).first_draw_pending(),
            final(self).handler == old(self).handler,
            final(self).repo_selected == old(self).repo_selected,
    {
        self.repositories.advance();
        self.arrow_used = true;
    }

    fn arrow_up(&mut self)
        ensures
            final(self).repositories.table_items == old(self).repositories.table_items,
            final(self).repositories.sel() == retreat_spec(
                old(self).repositories.sel(),
                old(self).repositories.table_items@.len() as int,
            ),
            final(self).arrow_recent(),
            final(self).input_field == old(self).input_field,
            final(self).first_draw_pending() == old(self).first_draw_pending(),
            final(self).handler == old(self).handler,
            final(self).repo_selected == old(self).repo_selected,
    {
        self.repositories.retreat();
        self.arrow_used = true;
    }
}

impl Default for StartView {
    /// A fresh selector: an empty table with the first row cursor placed —
    /// the driver materializes the remembered repositories into it — the
    /// first draw owed, nothing selected, and navigation assumed, so that a
    /// bare accept picks from the list.
    fn default() -> (r: Self)
        ensures
            r.wf(),
            r.first_draw_pending(),
            r.repositories.table_items@.len() == 0,
            r.repositories.sel() == Some(0int),
            r.input_field.input.text() == Seq::<char>::empty(),
            r.input_field.input_mode == InputMode::Editing,
            r.input_field.messages@.len() == 0,
            r.repo_selected is None,
            r.arrow_recent(),
            r.handler.table() == CommandHandler::default_table(),
    {
        let mut table = DataTable::default();
        table.table_state.select(Some(0));
        StartView {
            repositories: table,
            input_field: InputField::default(),
            force_draw: true,
            handler: CommandHandler::default(),
            repo_selected: None,
            arrow_used: true,
        }
    }
}

} // verus!
