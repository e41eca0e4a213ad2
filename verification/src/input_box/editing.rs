//! Editing the typed text: inserting, deleting, moving the cursor and selecting.

use vstd::prelude::*;
use crate::input_box::{InputBox, InputView, min};
use crate::text::{is_white_space, is_whitespace, str_chars, string_from_chars};

verus! {

/// The position a word-wise move to the left reaches from `p`: back over white space, then back
/// over the word before it.
pub open spec fn word_left(text: Seq<char>, p: int) -> int {
    back_over_word(text, back_over_space(text, p))
}

pub open spec fn back_over_space(text: Seq<char>, p: int) -> int
    decreases p,
{
    if 0 < p <= text.len() && is_white_space(text[p - 1]) {
        back_over_space(text, p - 1)
    } else {
        p
    }
}

pub open spec fn back_over_word(text: Seq<char>, p: int) -> int
    decreases p,
{
    if 0 < p <= text.len() && !is_white_space(text[p - 1]) {
        back_over_word(text, p - 1)
    } else {
        p
    }
}

/// The position a word-wise move to the right reaches from `p`: forward over white space, then
/// forward over the word after it.
pub open spec fn word_right(text: Seq<char>, p: int) -> int {
    forward_over_word(text, forward_over_space(text, p))
}

pub open spec fn forward_over_space(text: Seq<char>, p: int) -> int
    decreases text.len() - p,
{
    if 0 <= p < text.len() && is_white_space(text[p]) {
        forward_over_space(text, p + 1)
    } else {
        p
    }
}

pub open spec fn forward_over_word(text: Seq<char>, p: int) -> int
    decreases text.len() - p,
{
    if 0 <= p < text.len() && !is_white_space(text[p]) {
        forward_over_word(text, p + 1)
    } else {
        p
    }
}

proof fn lemma_back_bounds(text: Seq<char>, p: int)
    requires
        0 <= p <= text.len(),
    ensures
        0 <= back_over_space(text, p) <= p,
        0 <= back_over_word(text, p) <= p,
        0 <= word_left(text, p) <= p,
    decreases p,
{
    if p > 0 {
        lemma_back_bounds(text, p - 1);
    }
    let q = back_over_space(text, p);
    if q < p {
        lemma_back_bounds(text, q);
    }
}

proof fn lemma_forward_bounds(text: Seq<char>, p: int)
    requires
        0 <= p <= text.len(),
    ensures
        p <= forward_over_space(text, p) <= text.len(),
        p <= forward_over_word(text, p) <= text.len(),
        p <= word_right(text, p) <= text.len(),
    decreases text.len() - p,
{
    if p < text.len() {
        lemma_forward_bounds(text, p + 1);
    }
    let q = forward_over_space(text, p);
    if q > p {
        lemma_forward_bounds(text, q);
    }
}

impl InputView {
    /// The state after typing `c`: the selection, if any, is replaced by `c`, which lands at the
    /// cursor; the cursor moves past it and both selections are cleared.
    pub open spec fn after_insert(self, c: char) -> InputView {
        let t = self.without_selection();
        InputView {
            text: t.text.insert(t.cursor, c),
            cursor: t.cursor + 1,
            anchor: None,
            history_selection: None,
            dirty: true,
            ..t
        }
    }

    /// The state after pasting `p`: as typing each of its characters in turn, when `p` is not
    /// empty.
    pub open spec fn after_paste(self, p: Seq<char>) -> InputView {
        if p.len() == 0 {
            self
        } else {
            let t = self.without_selection();
            InputView {
                text: t.text.take(t.cursor) + p + t.text.skip(t.cursor),
                cursor: t.cursor + p.len(),
                anchor: None,
                history_selection: None,
                dirty: true,
                ..t
            }
        }
    }

    /// The state after Backspace: removes the selection if there is one, else the character
    /// before the cursor, if any.
    pub open spec fn after_backspace(self) -> InputView {
        if self.selection() is Some {
            InputView { dirty: true, ..self.without_selection() }
        } else if self.cursor == 0 {
            self
        } else {
            InputView {
                text: self.text.remove(self.cursor - 1),
                cursor: self.cursor - 1,
                dirty: true,
                ..self
            }
        }
    }

    /// The state after Delete: removes the selection if there is one, else the character at the
    /// cursor, if any.
    pub open spec fn after_delete(self) -> InputView {
        if self.selection() is Some {
            InputView { dirty: true, ..self.without_selection() }
        } else if self.cursor >= self.text.len() {
            self
        } else {
            InputView { text: self.text.remove(self.cursor), dirty: true, ..self }
        }
    }

    /// The state after Left: one character left, unless at the start.
    pub open spec fn after_left(self, selecting: bool) -> InputView {
        if self.cursor == 0 {
            self
        } else {
            self.moved(self.cursor - 1, selecting)
        }
    }

    /// The state after Right: one character right, unless at the end.
    pub open spec fn after_right(self, selecting: bool) -> InputView {
        if self.cursor >= self.text.len() {
            self
        } else {
            self.moved(self.cursor + 1, selecting)
        }
    }

    /// The state after Control+Left: to the start of the previous word, unless at the start.
    pub open spec fn after_word_left(self, selecting: bool) -> InputView {
        if self.cursor == 0 {
            self
        } else {
            self.moved(word_left(self.text, self.cursor), selecting)
        }
    }

    /// The state after Control+Right: to the end of the next word.
    pub open spec fn after_word_right(self, selecting: bool) -> InputView {
        self.moved(word_right(self.text, self.cursor), selecting)
    }

    /// The state after selecting all typed text: anchored at its start with the cursor at its end.
    pub open spec fn after_select_all(self) -> InputView {
        InputView {
            anchor: Some(0),
            cursor: self.text.len() as int,
            history_selection: None,
            mouse_selection: None,
            dirty: true,
            ..self
        }
    }
}

/// Typing a character and then pressing Backspace leaves the text and the cursor as they were,
/// when nothing was selected.
pub proof fn law_backspace_undoes_typing(v: InputView, c: char)
    requires
        v.wf(),
        v.selection() is None,
    ensures
        v.after_insert(c).after_backspace().text == v.text,
        v.after_insert(c).after_backspace().cursor == v.cursor,
{
    assert(v.text.insert(v.cursor, c).remove(v.cursor) =~= v.text);
}

/// Cutting the selected text and pasting it back restores the text, with the cursor after the
/// pasted part.
pub proof fn law_cut_then_paste_restores(v: InputView)
    requires
        v.wf(),
        v.selection() is Some,
    ensures
        ({
            let (a, b) = v.selection()->0;
            let e = min(b, v.text.len() as int);
            let cut = v.text.subrange(a, e);
            &&& v.without_selection().after_paste(cut).text == v.text
            &&& v.without_selection().after_paste(cut).cursor == e
        }),
{
    let (a, b) = v.selection()->0;
    let e = min(b, v.text.len() as int);
    let w = v.without_selection();
    let cut = v.text.subrange(a, e);
    assert(w.text.take(a) =~= v.text.take(a));
    assert(w.text.skip(a) =~= v.text.skip(e));
    assert(v.text.take(a) + cut + v.text.skip(e) =~= v.text);
}

/// Delete with typed text selected removes exactly the selected text (a selection running past
/// the end of the text stops there), puts the cursor where the selection started and drops the
/// anchor, as Backspace does; the history is untouched.
pub proof fn law_delete_removes_selection(v: InputView)
    requires
        v.wf(),
        v.selection() is Some,
    ensures
        ({
            let (a, b) = v.selection()->0;
            let d = v.after_delete();
            &&& d.text == v.text.take(a) + v.text.skip(min(b, v.text.len() as int))
            &&& d.cursor == a
            &&& d.anchor is None
            &&& d.messages == v.messages
            &&& d == v.after_backspace()
        }),
{
}

/// Delete with nothing selected removes the character at the cursor, if there is one, and
/// leaves the cursor where it is.
pub proof fn law_delete_removes_next_character(v: InputView)
    requires
        v.wf(),
        v.selection() is None,
    ensures
        v.cursor < v.text.len() ==> v.after_delete().text == v.text.take(v.cursor) + v.text.skip(
            v.cursor + 1,
        ),
        v.cursor == v.text.len() ==> v.after_delete().text == v.text,
        v.after_delete().cursor == v.cursor,
{
    if v.cursor < v.text.len() {
        assert(v.text.remove(v.cursor) =~= v.text.take(v.cursor) + v.text.skip(v.cursor + 1));
    }
}

/// Selecting all the typed text and typing a character leaves just that character.
pub proof fn law_typing_over_everything(v: InputView, c: char)
    requires
        v.wf(),
    ensures
        v.after_select_all().after_insert(c).text == seq![c],
        v.after_select_all().after_insert(c).cursor == 1,
{
    let s = v.after_select_all();
    if v.text.len() > 0 {
        assert(s.without_selection().text =~= Seq::<char>::empty());
    } else {
        assert(v.text =~= Seq::<char>::empty());
    }
    assert(s.without_selection().text.insert(0, c) =~= seq![c]);
}

/// A word-wise move left from inside the text always moves left, and lands at the start of a
/// word: at the start of the text or just after white space.
pub proof fn law_word_left_lands_on_word_start(text: Seq<char>, cursor: int)
    requires
        0 < cursor <= text.len(),
    ensures
        0 <= word_left(text, cursor) < cursor,
        word_left(text, cursor) == 0 || is_white_space(text[word_left(text, cursor) - 1]),
{
    lemma_back_bounds(text, cursor);
    lemma_back_over_word_stops(text, back_over_space(text, cursor));
    lemma_back_over_space_stops(text, cursor);
    let q = back_over_space(text, cursor);
    if q > 0 {
        assert(back_over_word(text, q) == back_over_word(text, q - 1));
        lemma_back_bounds(text, q - 1);
    }
}

proof fn lemma_back_over_space_stops(text: Seq<char>, p: int)
    requires
        0 <= p <= text.len(),
    ensures
        back_over_space(text, p) == 0 || !is_white_space(text[back_over_space(text, p) - 1]),
    decreases p,
{
    if p > 0 && is_white_space(text[p - 1]) {
        lemma_back_over_space_stops(text, p - 1);
    }
}

proof fn lemma_back_over_word_stops(text: Seq<char>, p: int)
    requires
        0 <= p <= text.len(),
    ensures
        back_over_word(text, p) == 0 || is_white_space(text[back_over_word(text, p) - 1]),
    decreases p,
{
    if p > 0 && !is_white_space(text[p - 1]) {
        lemma_back_over_word_stops(text, p - 1);
    }
}

proof fn lemma_forward_over_space_stops(text: Seq<char>, p: int)
    requires
        0 <= p <= text.len(),
    ensures
        forward_over_space(text, p) == text.len() || !is_white_space(text[forward_over_space(text, p)]),
    decreases text.len() - p,
{
    if p < text.len() && is_white_space(text[p]) {
        lemma_forward_over_space_stops(text, p + 1);
    }
}

proof fn lemma_forward_over_word_stops(text: Seq<char>, p: int)
    requires
        0 <= p <= text.len(),
    ensures
        forward_over_word(text, p) == text.len() || is_white_space(text[forward_over_word(text, p)]),
    decreases text.len() - p,
{
    if p < text.len() && !is_white_space(text[p]) {
        lemma_forward_over_word_stops(text, p + 1);
    }
}

/// A word-wise move right from inside the text always moves right, and lands at the end of a
/// word: at the end of the text or just before white space.
pub proof fn law_word_right_lands_on_word_end(text: Seq<char>, cursor: int)
    requires
        0 <= cursor < text.len(),
    ensures
        cursor < word_right(text, cursor) <= text.len(),
        word_right(text, cursor) == text.len() || is_white_space(text[word_right(text, cursor)]),
{
    lemma_forward_bounds(text, cursor);
    let q = forward_over_space(text, cursor);
    lemma_forward_over_space_stops(text, cursor);
    lemma_forward_over_word_stops(text, q);
    if q < text.len() {
        assert(forward_over_word(text, q) == forward_over_word(text, q + 1));
        lemma_forward_bounds(text, q + 1);
    }
}

impl InputBox {
    /// Types `character` at the cursor, replacing the selected text if there is any.
    pub fn insert_character(&mut self, character: char)
        requires
            old(self).wf(),
        ensures
            final(self).wf(),
            final(self).theme_spec() == old(self).theme_spec(),
            final(self)@ == old(self)@.after_insert(character),
    {
        self.delete_selected_input();
        let mut text = self.text_chars();
        let ghost t = text@;
        text.insert(self.cursor, character);
        assert(text@ =~= t.insert(self.cursor as int, character));
        let len = text.len();
        self.text = string_from_chars(text.as_slice());
        assert(self.cursor < len);
        self.cursor = self.cursor + 1;
        self.input_selection_anchor = None;
        self.history_selection = None;
        self.dirty = true;
    }

    /// Inserts `pasted` at the cursor, replacing the selected text if there is any; pasting
    /// empty text changes nothing.
    pub fn paste_text(&mut self, pasted: &str)
        requires
            old(self).wf(),
        ensures
            final(self).wf(),
            final(self).theme_spec() == old(self).theme_spec(),
            final(self)@ == old(self)@.after_paste(pasted@),
    {
        let chars = str_chars(pasted);
        if chars.len() == 0 {
            return;
        }
        self.delete_selected_input();
        let mut text = self.text_chars();
        let ghost t = text@;
        let mut tail = text.split_off(self.cursor);
        let mut middle = chars;
        let count = middle.len();
        text.append(&mut middle);
        text.append(&mut tail);
        assert(text@ =~= t.take(self.cursor as int) + pasted@ + t.skip(self.cursor as int));
        let len = text.len();
        self.text = string_from_chars(text.as_slice());
        assert(self.cursor + count <= len);
        self.cursor = self.cursor + count;
        self.input_selection_anchor = None;
        self.history_selection = None;
        self.dirty = true;
    }

    /// Removes the selection, or else the character before the cursor.
    pub fn backspace(&mut self)
        requires
            old(self).wf(),
        ensures
            final(self).wf(),
            final(self).theme_spec() == old(self).theme_spec(),
            final(self)@ == old(self)@.after_backspace(),
    {
        if self.delete_selected_input() {
            self.dirty = true;
            return;
        }
        if self.cursor == 0 {
            return;
        }
        let mut text = self.text_chars();
        text.remove(self.cursor - 1);
        self.text = string_from_chars(text.as_slice());
        self.cursor = self.cursor - 1;
        self.dirty = true;
    }

    /// Removes the selection, or else the character at the cursor.
    pub fn delete(&mut self)
        requires
            old(self).wf(),
        ensures
            final(self).wf(),
            final(self).theme_spec() == old(self).theme_spec(),
            final(self)@ == old(self)@.after_delete(),
    {
        if self.delete_selected_input() {
            self.dirty = true;
            return;
        }
        let mut text = self.text_chars();
        if self.cursor >= text.len() {
            return;
        }
        text.remove(self.cursor);
        self.text = string_from_chars(text.as_slice());
        self.dirty = true;
    }

    /// Moves the cursor to `position` (at most the end of the text), extending the selection
    /// when `selecting` and dropping it otherwise.
    pub fn move_cursor(&mut self, position: usize, selecting: bool)
        requires
            old(self).wf(),
        ensures
            final(self).wf(),
            final(self).theme_spec() == old(self).theme_spec(),
            final(self)@ == old(self)@.moved(position as int, selecting),
    {
        let max = self.text_len();
        let position = if position < max {
            position
        } else {
            max
        };
        if selecting {
            if self.input_selection_anchor.is_none() {
                self.input_selection_anchor = Some(self.cursor);
            }
        } else {
            self.input_selection_anchor = None;
        }
        self.cursor = position;
        self.dirty = true;
    }

    /// Moves the cursor one character left, unless it is at the start.
    pub fn move_cursor_left(&mut self, selecting: bool)
        requires
            old(self).wf(),
        ensures
            final(self).wf(),
            final(self).theme_spec() == old(self).theme_spec(),
            final(self)@ == old(self)@.after_left(selecting),
    {
        if self.cursor == 0 {
            return;
        }
        self.move_cursor(self.cursor - 1, selecting);
    }

    /// Moves the cursor one character right, unless it is at the end.
    pub fn move_cursor_right(&mut self, selecting: bool)
        requires
            old(self).wf(),
        ensures
            final(self).wf(),
            final(self).theme_spec() == old(self).theme_spec(),
            final(self)@ == old(self)@.after_right(selecting),
    {
        if self.cursor >= self.text_len() {
            return;
        }
        self.move_cursor(self.cursor + 1, selecting);
    }

    /// Moves the cursor to the start of the word before it (past any white space first),
    /// unless it is at the start of the text.
    pub fn move_word_left(&mut self, selecting: bool)
        requires
            old(self).wf(),
        ensures
            final(self).wf(),
            final(self).theme_spec() == old(self).theme_spec(),
            final(self)@ == old(self)@.after_word_left(selecting),
    {
        if self.cursor == 0 {
            return;
        }
        let text = self.text_chars();
        let mut position = self.cursor;
        while position > 0 && is_whitespace(text[position - 1])
            invariant
                text@ == self.text@,
                position <= self.text@.len(),
                back_over_space(self.text@, self.cursor as int) == back_over_space(
                    self.text@,
                    position as int,
                ),
            decreases position,
        {
            position = position - 1;
        }
        let ghost mid = position;
        while position > 0 && !is_whitespace(text[position - 1])
            invariant
                text@ == self.text@,
                position <= self.text@.len(),
                back_over_word(self.text@, mid as int) == back_over_word(
                    self.text@,
                    position as int,
                ),
            decreases position,
        {
            position = position - 1;
        }
        self.move_cursor(position, selecting);
    }

    /// Moves the cursor to the end of the word after it (past any white space first).
    pub fn move_word_right(&mut self, selecting: bool)
        requires
            old(self).wf(),
        ensures
            final(self).wf(),
            final(self).theme_spec() == old(self).theme_spec(),
            final(self)@ == old(self)@.after_word_right(selecting),
    {
        let text = self.text_chars();
        let len = text.len();
        let mut position = self.cursor;
        while position < len && is_whitespace(text[position])
            invariant
                text@ == self.text@,
                len == self.text@.len(),
                self.cursor <= position <= len,
                forward_over_space(self.text@, self.cursor as int) == forward_over_space(
                    self.text@,
                    position as int,
                ),
            decreases len - position,
        {
            position = position + 1;
        }
        let ghost mid = position;
        while position < len && !is_whitespace(text[position])
            invariant
                text@ == self.text@,
                len == self.text@.len(),
                mid <= position <= len,
                forward_over_word(self.text@, mid as int) == forward_over_word(
                    self.text@,
                    position as int,
                ),
            decreases len - position,
        {
            position = position + 1;
        }
        proof {
            lemma_forward_bounds(self.text@, self.cursor as int);
        }
        self.move_cursor(position, selecting);
    }

    /// Selects all of the typed text, dropping any history selection or drag.
    pub fn select_all_input(&mut self)
        requires
            old(self).wf(),
        ensures
            final(self).wf(),
            final(self).theme_spec() == old(self).theme_spec(),
            final(self)@ == old(self)@.after_select_all(),
    {
        self.input_selection_anchor = Some(0);
        self.cursor = self.text_len();
        self.history_selection = None;
        self.mouse_selection = None;
        self.dirty = true;
    }

    /// Completes a cut once the selected typed text is on the clipboard: removes it, ends any
    /// drag and asks for a redraw. Returns whether there was a selection; without one nothing
    /// changes.
    pub fn finish_cut(&mut self) -> (cut: bool)
        requires
            old(self).wf(),
        ensures
            final(self).wf(),
            final(self).theme_spec() == old(self).theme_spec(),
            cut == old(self)@.selection() is Some,
            final(self)@ == if cut {
                InputView {
                    mouse_selection: None,
                    dirty: true,
                    ..old(self)@.without_selection()
                }
            } else {
                old(self)@
            },
    {
        if self.delete_selected_input() {
            self.mouse_selection = None;
            self.dirty = true;
            true
        } else {
            false
        }
    }

    /// Completes a copy once the selected text is on the clipboard: clears both selections and
    /// asks for a redraw.
    pub fn finish_copy(&mut self)
        requires
            old(self).wf(),
        ensures
            final(self).wf(),
            final(self).theme_spec() == old(self).theme_spec(),
            final(self)@ == (InputView { dirty: true, ..old(self)@.cleared() }),
    {
        self.clear_selection();
        self.dirty = true;
    }

    /// The text a copy puts on the clipboard: the selected typed text if there is any, else
    /// the selected history text, if any.
    pub fn text_to_copy(&self) -> (t: Option<String>)
        requires
            self.wf(),
        ensures
            (match self@.selection() {
                Some((a, b)) => t matches Some(s) && s@ == self@.text.subrange(
                    a,
                    min(b, self@.text.len() as int),
                ),
                None => match self@.history_text() {
                    Some(h) => t matches Some(s) && s@ == h,
                    None => t is None,
                },
            }),
    {
        match self.selected_input_text() {
            Some(text) => Some(text),
            None => self.selected_history_text(),
        }
    }
}

} // verus!
