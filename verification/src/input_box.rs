//! The input box: the text being typed with its cursor and selection, the history of sent
//! messages, and how far the history is scrolled.

use vstd::prelude::*;

pub mod editing;
pub mod chat;
pub mod input_area;
pub mod mouse;
pub mod events;
pub mod render;

use crate::selection::{Selection, MouseSelection};
use crate::theme::Theme;
use crate::text::{str_chars, string_from_chars, chars_equal};
use crate::wrap::copy_range;

verus! {

/// The input box of the Graphite shell.
pub struct InputBox {
    /// The text being typed.
    pub text: String,
    messages: Vec<String>,
    cursor: usize,
    input_selection_anchor: Option<usize>,
    history_selection: Option<(usize, Selection)>,
    mouse_selection: Option<MouseSelection>,
    chat_scroll: u16,
    follow_bottom: bool,
    dirty: bool,
    theme: Theme,
}

/// The state of an input box, as the contracts speak of it.
pub struct InputView {
    /// The text being typed.
    pub text: Seq<char>,
    /// The messages sent so far, oldest first.
    pub messages: Seq<Seq<char>>,
    /// The cursor, as a character position in `text`.
    pub cursor: int,
    /// Where a selection of the typed text started, if one is being made.
    pub anchor: Option<int>,
    /// The selected part of one history message, by message index.
    pub history_selection: Option<(int, Selection)>,
    /// What a left-button drag is selecting.
    pub mouse_selection: Option<MouseSelection>,
    /// How many rows the history is scrolled up from its newest end.
    pub chat_scroll: int,
    /// Whether the history view sticks to its newest end.
    pub follow_bottom: bool,
    /// Whether the screen needs to be drawn again.
    pub dirty: bool,
}

pub open spec fn min(a: int, b: int) -> int {
    if a <= b {
        a
    } else {
        b
    }
}

pub open spec fn max(a: int, b: int) -> int {
    if a <= b {
        b
    } else {
        a
    }
}

impl InputView {
    /// The cursor lies within the text, the selection anchor is a position (it may lie past
    /// the end of the text once text before it is removed), and a history selection runs forward.
    pub open spec fn wf(self) -> bool {
        &&& 0 <= self.cursor <= self.text.len()
        &&& self.anchor matches Some(a) ==> 0 <= a
        &&& self.history_selection matches Some((_, s)) ==> s.start <= s.end
    }

    /// The selected part `(start, end)` of the typed text: from the anchor to the cursor, in
    /// order, when the two differ.
    pub open spec fn selection(self) -> Option<(int, int)> {
        match self.anchor {
            Some(a) => if a != self.cursor {
                Some((min(a, self.cursor), max(a, self.cursor)))
            } else {
                None
            },
            None => None,
        }
    }

    /// The state once the selected typed text, if any, is removed (a selection running past
    /// the end of the text stops there): the cursor moves to where the selection started and the
    /// anchor is dropped.
    pub open spec fn without_selection(self) -> InputView {
        match self.selection() {
            Some((s, e)) => InputView {
                text: self.text.take(s) + self.text.skip(min(e, self.text.len() as int)),
                cursor: s,
                anchor: None,
                ..self
            },
            None => self,
        }
    }

    /// Both selections cleared.
    pub open spec fn cleared(self) -> InputView {
        InputView { anchor: None, history_selection: None, ..self }
    }

    /// The cursor moved to `position` (at most the end of the text). A selecting move keeps the
    /// anchor, or anchors at the old cursor if there was none; any other move drops it.
    pub open spec fn moved(self, position: int, selecting: bool) -> InputView {
        InputView {
            cursor: min(position, self.text.len() as int),
            anchor: if selecting {
                if self.anchor is None {
                    Some(self.cursor)
                } else {
                    self.anchor
                }
            } else {
                None
            },
            dirty: true,
            ..self
        }
    }

    /// The selected text of the history message that has a selection, if that message exists.
    pub open spec fn history_text(self) -> Option<Seq<char>> {
        match self.history_selection {
            Some((i, s)) => if 0 <= i < self.messages.len() {
                let m = self.messages[i];
                let a = min(s.start as int, m.len() as int);
                let b = min(a + (s.end - s.start), m.len() as int);
                Some(m.subrange(a, b))
            } else {
                None
            },
            None => None,
        }
    }
}

impl View for InputBox {
    type V = InputView;

    closed spec fn view(&self) -> InputView {
        InputView {
            text: self.text@,
            messages: self.messages@.map_values(|m: String| m@),
            cursor: self.cursor as int,
            anchor: match self.input_selection_anchor {
                Some(a) => Some(a as int),
                None => None,
            },
            history_selection: match self.history_selection {
                Some((i, s)) => Some((i as int, s)),
                None => None,
            },
            mouse_selection: self.mouse_selection,
            chat_scroll: self.chat_scroll as int,
            follow_bottom: self.follow_bottom,
            dirty: self.dirty,
        }
    }
}

impl InputBox {
    /// The theme the box is drawn with.
    pub closed spec fn theme_spec(&self) -> Theme {
        self.theme
    }

    /// The state is consistent.
    pub open spec fn wf(&self) -> bool {
        self@.wf()
    }

    /// An empty input box with no history, following the newest messages, drawn with `theme`.
    pub fn new(theme: Theme) -> (b: InputBox)
        ensures
            b.wf(),
            b.theme_spec() == theme,
            b@ == (InputView {
                text: Seq::empty(),
                messages: Seq::empty(),
                cursor: 0,
                anchor: None,
                history_selection: None,
                mouse_selection: None,
                chat_scroll: 0,
                follow_bottom: true,
                dirty: true,
            }),
    {
        let b = InputBox {
            text: String::new(),
            messages: Vec::new(),
            cursor: 0,
            input_selection_anchor: None,
            history_selection: None,
            mouse_selection: None,
            chat_scroll: 0,
            follow_bottom: true,
            dirty: true,
            theme,
        };
        assert(b@.messages =~= Seq::<Seq<char>>::empty());
        b
    }

    /// The theme the box is drawn with.
    pub fn theme(&self) -> (t: &Theme)
        ensures
            *t == self.theme_spec(),
    {
        &self.theme
    }

    /// Whether the screen needs to be drawn again.
    pub fn needs_redraw(&self) -> (r: bool)
        ensures
            r == self@.dirty,
    {
        self.dirty
    }

    /// Asks for the screen to be drawn, as happens when reading starts.
    pub fn request_redraw(&mut self)
        ensures
            final(self)@ == (InputView { dirty: true, ..old(self)@ }),
            final(self).theme_spec() == old(self).theme_spec(),
    {
        self.dirty = true;
    }

    /// Records that the screen has been drawn.
    pub fn mark_drawn(&mut self)
        ensures
            final(self)@ == (InputView { dirty: false, ..old(self)@ }),
            final(self).theme_spec() == old(self).theme_spec(),
    {
        self.dirty = false;
    }

    /// The typed text as characters.
    pub fn text_chars(&self) -> (v: Vec<char>)
        ensures
            v@ == self@.text,
    {
        str_chars(self.text.as_str())
    }

    /// The number of typed characters.
    pub fn text_len(&self) -> (n: usize)
        ensures
            n == self@.text.len(),
    {
        self.text_chars().len()
    }

    /// The number of messages in the history.
    pub fn message_count(&self) -> (n: usize)
        ensures
            n == self@.messages.len(),
    {
        self.messages.len()
    }

    /// The messages sent so far, oldest first.
    pub fn messages(&self) -> (m: &Vec<String>)
        ensures
            m@.map_values(|s: String| s@) == self@.messages,
    {
        &self.messages
    }

    /// The cursor position.
    pub fn cursor(&self) -> (c: usize)
        ensures
            c == self@.cursor,
    {
        self.cursor
    }

    /// Adds a sent message to the history and empties the input: the typed text, its cursor and
    /// every selection are cleared and the history view returns to its newest end.
    pub fn add_message(&mut self, message: &str)
        requires
            old(self).wf(),
        ensures
            final(self).wf(),
            final(self).theme_spec() == old(self).theme_spec(),
            final(self)@ == (InputView {
                text: Seq::empty(),
                messages: old(self)@.messages.push(message@),
                cursor: 0,
                anchor: None,
                history_selection: None,
                mouse_selection: None,
                chat_scroll: 0,
                follow_bottom: true,
                dirty: true,
            }),
    {
        let ghost before = self.messages@;
        self.messages.push(message.to_owned());
        self.text = String::new();
        self.cursor = 0;
        self.input_selection_anchor = None;
        self.history_selection = None;
        self.mouse_selection = None;
        self.follow_bottom = true;
        self.chat_scroll = 0;
        self.dirty = true;
        assert(self@.messages =~= before.map_values(|m: String| m@).push(message@));
    }

    /// Handles a line the user submitted: surrounding white space is dropped; `/exit` and
    /// `/quit` end the session (returns false); other non-empty text is added to the history.
    pub fn submit(&mut self, line: &str) -> (keep_running: bool)
        requires
            old(self).wf(),
        ensures
            final(self).wf(),
            final(self).theme_spec() == old(self).theme_spec(),
            ({
                let t = crate::text::trimmed(line@);
                if t == "/exit"@ || t == "/quit"@ {
                    !keep_running && final(self)@ == old(self)@
                } else if t.len() == 0 {
                    keep_running && final(self)@ == old(self)@
                } else {
                    keep_running && final(self)@ == (InputView {
                        text: Seq::empty(),
                        messages: old(self)@.messages.push(t),
                        cursor: 0,
                        anchor: None,
                        history_selection: None,
                        mouse_selection: None,
                        chat_scroll: 0,
                        follow_bottom: true,
                        dirty: true,
                    })
                }
            }),
    {
        let chars = str_chars(line);
        let t = crate::text::trim(chars.as_slice());
        let exit = str_chars("/exit");
        let quit = str_chars("/quit");
        if chars_equal(t.as_slice(), exit.as_slice()) || chars_equal(t.as_slice(), quit.as_slice()) {
            return false;
        }
        if t.len() > 0 {
            let message = string_from_chars(t.as_slice());
            self.add_message(message.as_str());
        }
        true
    }

    /// Clears both the input selection and the history selection.
    pub fn clear_selection(&mut self)
        requires
            old(self).wf(),
        ensures
            final(self).wf(),
            final(self).theme_spec() == old(self).theme_spec(),
            final(self)@ == old(self)@.cleared(),
    {
        self.input_selection_anchor = None;
        self.history_selection = None;
    }

    /// The selected part of the typed text, if it is not empty.
    pub fn input_selection(&self) -> (s: Option<Selection>)
        requires
            self.wf(),
        ensures
            (match self@.selection() {
                Some((a, b)) => s matches Some(sel) && sel.start == a && sel.end == b,
                None => s is None,
            }),
    {
        match self.input_selection_anchor {
            Some(anchor) => {
                let selection = Selection::new(anchor, self.cursor);
                if selection.is_empty() {
                    None
                } else {
                    Some(selection)
                }
            },
            None => None,
        }
    }

    /// The selected typed text, if any (a selection running past the end of the text stops there).
    pub fn selected_input_text(&self) -> (t: Option<String>)
        requires
            self.wf(),
        ensures
            (match self@.selection() {
                Some((a, b)) => t matches Some(s) && s@ == self@.text.subrange(
                    a,
                    min(b, self@.text.len() as int),
                ),
                None => t is None,
            }),
    {
        match self.input_selection() {
            Some(selection) => {
                let text = self.text_chars();
                let end = if selection.end < text.len() {
                    selection.end
                } else {
                    text.len()
                };
                let chars = copy_range(text.as_slice(), selection.start, end);
                Some(string_from_chars(chars.as_slice()))
            },
            None => None,
        }
    }

    /// The selected text of a history message, if a history selection is set and its message
    /// exists (a selection running past the end of the message is cut short there).
    pub fn selected_history_text(&self) -> (t: Option<String>)
        requires
            self.wf(),
        ensures
            (match self@.history_text() {
                Some(h) => t matches Some(s) && s@ == h,
                None => t is None,
            }),
    {
        match self.history_selection {
            Some((index, selection)) => {
                if index < self.messages.len() {
                    let chars = str_chars(self.messages[index].as_str());
                    let a = if selection.start < chars.len() {
                        selection.start
                    } else {
                        chars.len()
                    };
                    let b = if selection.end - selection.start < chars.len() - a {
                        a + (selection.end - selection.start)
                    } else {
                        chars.len()
                    };
                    let piece = copy_range(chars.as_slice(), a, b);
                    Some(string_from_chars(piece.as_slice()))
                } else {
                    None
                }
            },
            None => None,
        }
    }

    /// Removes the selected typed text, if any, leaving the cursor where it started. Returns
    /// whether there was a selection to remove.
    pub fn delete_selected_input(&mut self) -> (removed: bool)
        requires
            old(self).wf(),
        ensures
            final(self).wf(),
            final(self).theme_spec() == old(self).theme_spec(),
            removed == old(self)@.selection() is Some,
            final(self)@ == old(self)@.without_selection(),
    {
        match self.input_selection() {
            Some(selection) => {
                let mut text = self.text_chars();
                let ghost t = text@;
                let end = if selection.end < text.len() {
                    selection.end
                } else {
                    text.len()
                };
                let mut tail = text.split_off(end);
                text.truncate(selection.start);
                text.append(&mut tail);
                assert(text@ =~= t.take(selection.start as int) + t.skip(end as int));
                self.text = string_from_chars(text.as_slice());
                self.cursor = selection.start;
                self.input_selection_anchor = None;
                true
            },
            None => false,
        }
    }
}

} // verus!
