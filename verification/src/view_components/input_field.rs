use vstd::prelude::*;
use vstd::string::*;

use crate::input_mode::InputMode;
use crate::keys::{KeyCode, KeyEvent};
use crate::text::push_char;

verus! {

/// A buffered, cursor-tracked line of text under edit: the portable core of
/// the input widget.
pub struct Input {
    value: String,
    cursor: usize,
}

/// What one key event does to a buffer and its cursor: printable keys insert
/// at the cursor, editing keys remove or move, anything else (or any key with
/// control held) leaves both alone.
pub open spec fn edited(text: Seq<char>, cursor: int, event: KeyEvent) -> (Seq<char>, int) {
    if event.ctrl {
        (text, cursor)
    } else {
        match event.code {
            KeyCode::Char(c) => (text.take(cursor).push(c) + text.skip(cursor), cursor + 1),
            KeyCode::Backspace => if cursor > 0 {
                (text.take(cursor - 1) + text.skip(cursor), cursor - 1)
            } else {
                (text, cursor)
            },
            KeyCode::Delete => if cursor < text.len() {
                (text.take(cursor) + text.skip(cursor + 1), cursor)
            } else {
                (text, cursor)
            },
            KeyCode::Left => (text, if cursor > 0 {
                cursor - 1
            } else {
                0
            }),
            KeyCode::Right => (text, if cursor < text.len() {
                cursor + 1
            } else {
                cursor
            }),
            _ => (text, cursor),
        }
    }
}

impl Input {
    /// The characters currently in the buffer.
    pub closed spec fn text(&self) -> Seq<char> {
        self.value@
    }

    /// The cursor position, counted in characters from the start.
    pub closed spec fn cursor_at(&self) -> int {
        self.cursor as int
    }

    /// The cursor always sits inside the buffer or just past its end.
    pub open spec fn wf(&self) -> bool {
        0 <= self.cursor_at() <= self.text().len()
    }

    pub fn value(&self) -> (r: &str)
        ensures
            r@ == self.text(),
    {
        self.value.as_str()
    }

    pub fn cursor(&self) -> (r: usize)
        ensures
            r == self.cursor_at(),
    {
        self.cursor
    }

    /// Clear the buffer and put the cursor back at the start.
    pub fn reset(&mut self)
        ensures
            final(self).text() == Seq::<char>::empty(),
            final(self).cursor_at() == 0,
            final(self).wf(),
    {
        self.value = String::new();
        self.cursor = 0;
    }

    /// Apply one key event to the buffer, as `edited` says.
    pub fn handle_key(&mut self, event: KeyEvent)
        requires
            old(self).wf(),
        ensures
            final(self).wf(),
            (final(self).text(), final(self).cursor_at()) == edited(
                old(self).text(),
                old(self).cursor_at(),
                event,
            ),
    {
        if event.ctrl {
            return ;
        }
        let n = self.value.as_str().unicode_len();
        match event.code {
            KeyCode::Char(c) => {
                let mut left = self.value.as_str().substring_char(0, self.cursor).to_owned();
                push_char(&mut left, c);
                let cpos = left.as_str().unicode_len();
                let right = self.value.as_str().substring_char(self.cursor, n);
                left.append(right);
                proof {
                    assert(left@ =~= old(self).text().take(old(self).cursor_at()).push(c) + old(
                        self,
                    ).text().skip(old(self).cursor_at()));
                }
                self.value = left;
                self.cursor = cpos;
            },
            KeyCode::Backspace => {
                if self.cursor > 0 {
                    let mut left = self.value.as_str().substring_char(0, self.cursor - 1)
                        .to_owned();
                    let right = self.value.as_str().substring_char(self.cursor, n);
                    left.append(right);
                    self.value = left;
                    self.cursor = self.cursor - 1;
                }
            },
            KeyCode::Delete => {
                if self.cursor < n {
                    let mut left = self.value.as_str().substring_char(0, self.cursor).to_owned();
                    let right = self.value.as_str().substring_char(self.cursor + 1, n);
                    left.append(right);
                    self.value = left;
                }
            },
            KeyCode::Left => {
                if self.cursor > 0 {
                    self.cursor = self.cursor - 1;
                }
            },
            KeyCode::Right => {
                if self.cursor < n {
                    self.cursor = self.cursor + 1;
                }
            },
            _ => {},
        }
    }
}

impl Default for Input {
    /// A fresh input holds no text.
    fn default() -> (r: Self)
        ensures
            r.text() == Seq::<char>::empty(),
            r.cursor_at() == 0,
            r.wf(),
    {
        Input { value: String::new(), cursor: 0 }
    }
}

/// The input widget of a screen: an editable line, the mode that says whether
/// it is receiving text, and the lines submitted so far.
pub struct InputField {
    pub input: Input,
    pub input_mode: InputMode,
    pub messages: Vec<String>,
}

impl InputField {
    pub open spec fn wf(&self) -> bool {
        self.input.wf()
    }

    /// Move the buffer into the message history and clear it. The buffer is
    /// recorded as typed, even when it is empty.
    pub fn enter_message(&mut self)
        requires
            old(self).wf(),
        ensures
            final(self).wf(),
            final(self).messages@.len() == old(self).messages@.len() + 1,
            final(self).messages@.drop_last() == old(self).messages@,
            final(self).messages@.last()@ == old(self).input.text(),
            final(self).input.text() == Seq::<char>::empty(),
            final(self).input.cursor_at() == 0,
            final(self).input_mode == old(self).input_mode,
    {
        let m = self.input.value().to_owned();
        self.messages.push(m);
        self.input.reset();
        proof {
            assert(self.messages@.drop_last() =~= old(self).messages@);
        }
    }

    /// The most recently submitted line, if any line was ever submitted.
    pub fn last_message(&self) -> (r: Option<String>)
        ensures
            match r {
                Some(m) => self.messages@.len() > 0 && m == self.messages@.last(),
                None => self.messages@.len() == 0,
            },
    {
        if self.messages.len() == 0 {
            None
        } else {
            Some(self.messages[self.messages.len() - 1].clone())
        }
    }
}

impl InputField {
    /// Drive a modal prompt by one key: the quit chord abandons the prompt
    /// untouched, enter submits the buffer into the history, and any other
    /// key edits the buffer and waits for the next one.
    pub fn prompt_step(&mut self, event: KeyEvent) -> (r: PromptSignal)
        requires
            old(self).wf(),
        ensures
            final(self).wf(),
            is_quit_spec(event) ==> r is Quit && *final(self) == *old(self),
            (!is_quit_spec(event) && event.code is Enter) ==> r is Submitted && editor_submitted(
                *old(self),
                *final(self),
            ),
            (!is_quit_spec(event) && !(event.code is Enter)) ==> r is Pending && editor_fed(
                *old(self),
                *final(self),
                event,
            ),
    {
        if is_quit_event(&event) {
            return PromptSignal::Quit;
        }
        self.input.handle_key(event);
        if let KeyCode::Enter = event.code {
            self.enter_message();
            PromptSignal::Submitted
        } else {
            PromptSignal::Pending
        }
    }
}

impl Default for InputField {
    /// A fresh field is already in editing mode, with nothing typed and
    /// nothing submitted.
    fn default() -> (r: Self)
        ensures
            r.wf(),
            r.input.text() == Seq::<char>::empty(),
            r.input.cursor_at() == 0,
            r.input_mode == InputMode::Editing,
            r.messages@.len() == 0,
    {
        InputField { input: Input::default(), input_mode: InputMode::Editing, messages: Vec::new() }
    }
}

/// The input widget after one key was fed to it: buffer and cursor move as
/// `edited` says and nothing else about the widget changes.
pub open spec fn editor_fed(pre: InputField, post: InputField, e: KeyEvent) -> bool {
    &&& (post.input.text(), post.input.cursor_at()) == edited(
        pre.input.text(),
        pre.input.cursor_at(),
        e,
    )
    &&& post.messages == pre.messages
    &&& post.input_mode == pre.input_mode
}

/// The input widget after a submit: the buffer, as it stood, moved into the
/// history, and the line left empty.
pub open spec fn editor_submitted(pre: InputField, post: InputField) -> bool {
    &&& post.messages@.len() == pre.messages@.len() + 1
    &&& post.messages@.drop_last() == pre.messages@
    &&& post.messages@.last()@ == pre.input.text()
    &&& post.input.text() == Seq::<char>::empty()
    &&& post.input.cursor_at() == 0
    &&& post.input_mode == pre.input_mode
}

/// What one key means to a modal input prompt.
pub enum PromptSignal {
    /// The quit chord: abandon the prompt.
    Quit,
    /// A line was submitted and now stands last in the history.
    Submitted,
    /// The key only edited the buffer; keep prompting.
    Pending,
}

/// The dedicated quit chord: control together with the character `c`. It is
/// recognized in any mode, before any other interpretation of the event.
pub fn is_quit_event(key_event: &KeyEvent) -> (r: bool)
    ensures
        r == is_quit_spec(*key_event),
{
    key_event.ctrl && (match key_event.code {
        KeyCode::Char(c) => c == 'c',
        _ => false,
    })
}

/// The event is the quit chord.
pub open spec fn is_quit_spec(key_event: KeyEvent) -> bool {
    key_event.ctrl && (key_event.code matches KeyCode::Char(c) && c == 'c')
}

} // verus!
