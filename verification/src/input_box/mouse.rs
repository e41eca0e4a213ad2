//! The screen layout of the input box, and mouse selection: finding the text under the mouse in
//! the input region or in a history message, and starting or extending a selection there.

use vstd::prelude::*;
use crate::input_box::{InputBox, InputView, min};
use crate::input_box::chat::{
    layout_at, history_fits, rows_before, message_rows, lemma_rows_before_monotone,
    lemma_rows_before_nonneg,
};
use crate::input_box::render::{message_frame, message_shows, law_message_drawing_stays_in_chat};
use crate::input_box::input_area::{input_position, input_scroll, line_count, wrap_width};
use crate::layout::{Area, header_height, input_height, vertical_parts, screen_layout, message_width};
use crate::selection::{Selection, MouseSelection, selection_between};
use crate::wrap::{wrap_message, wrap_spans, spans_of, law_wrapping_keeps_text};

verus! {

/// Whether `row` lies in the rows of `area` (its bottom saturating at `u16::MAX`).
pub open spec fn in_rows(row: u16, area: Area) -> bool {
    area.y <= row < min(area.y + area.height, 0xFFFF)
}

/// The message and character position under a click at `column` on history row `abs` (rows
/// counted from the top of the history), looking at the boxes from message `k` on. A click on a
/// box's header row, or below its text, hits nothing; on a text line it hits the character under
/// the mouse (the boxes are right-aligned, so columns count from the box's left edge, and a click
/// right of the line's text hits its end).
pub open spec fn hit_from(msgs: Seq<Seq<char>>, chat: Area, column: u16, abs: int, k: int) -> Option<
    (int, int),
>
    decreases msgs.len() - k,
{
    if k < 0 || k >= msgs.len() {
        None
    } else {
        let l = layout_at(msgs, chat, k);
        if abs < l.top || abs >= min(l.top + l.height, 0xFFFF) {
            hit_from(msgs, chat, column, abs, k + 1)
        } else {
            let rel = abs - l.top;
            if rel == 0 {
                None
            } else if rel <= (l.text_lines as u16) {
                let line = wrap_spans(msgs[k], l.width as int)[rel - 1];
                let line_len = line.1 - line.0;
                let rc = if column >= min(l.x + line_len, 0xFFFF) {
                    line_len
                } else if column <= l.x {
                    0
                } else {
                    column - l.x
                };
                Some((k, min(line.0 + rc, line.1)))
            } else {
                None
            }
        }
    }
}

/// The message and character position under a click at `(column, row)` in the chat region:
/// nothing outside it, else what the history row under it (counting the scroll) holds.
pub open spec fn history_hit(v: InputView, column: u16, row: u16, chat: Area) -> Option<(int, int)> {
    if !in_rows(row, chat) {
        None
    } else {
        hit_from(v.messages, chat, column, min(row - chat.y + v.scroll_offset(chat), 0xFFFF), 0)
    }
}

/// A click on a history row at or below the top of box `i` passes over every box before it.
proof fn lemma_hit_passes_boxes_above(
    msgs: Seq<Seq<char>>,
    chat: Area,
    column: u16,
    abs: int,
    k: int,
    i: int,
)
    requires
        history_fits(msgs, chat.width),
        0 <= k <= i < msgs.len(),
        abs >= rows_before(msgs, message_width(chat.width) as int, i),
    ensures
        hit_from(msgs, chat, column, abs, k) == hit_from(msgs, chat, column, abs, i),
    decreases i - k,
{
    if k < i {
        let w = message_width(chat.width) as int;
        lemma_rows_before_monotone(msgs, w, k + 1, i);
        lemma_rows_before_monotone(msgs, w, i, msgs.len() - 1);
        lemma_rows_before_nonneg(msgs, w, k);
        assert(rows_before(msgs, w, k + 1) == rows_before(msgs, w, k) + message_rows(msgs[k], w));
        lemma_hit_passes_boxes_above(msgs, chat, column, abs, k + 1, i);
    }
}

/// Clicking agrees with drawing: a click on a screen row where the message box of message `i`
/// is drawn with its text lines (at the current scroll offset) hits message `i`, at a position
/// within the text line drawn on that row. Assumes the box's top row is not scrolled above the
/// first screen row and the box ends above the last row a `u16` counts. A click over the line's
/// text hits the character under the mouse.
pub proof fn law_click_hits_the_drawn_line(v: InputView, chat: Area, i: int, column: u16, row: u16)
    requires
        history_fits(v.messages, chat.width),
        0 <= i < v.messages.len(),
        message_shows(chat, layout_at(v.messages, chat, i), v.scroll_offset(chat)),
        chat.y + layout_at(v.messages, chat, i).top >= v.scroll_offset(chat),
        chat.y + layout_at(v.messages, chat, i).top + layout_at(v.messages, chat, i).height
            < 0xFFFF,
    ensures
        ({
            let l = layout_at(v.messages, chat, i);
            let spans = wrap_spans(v.messages[i], l.width as int);
            let f = message_frame(chat, l, v.scroll_offset(chat), spans.len() as int);
            f.text matches Some((first, last, area)) ==> (area.y <= row < area.y + area.height
                ==> {
                let j = first + (row - area.y);
                &&& first <= j < last <= spans.len()
                &&& history_hit(v, column, row, chat) matches Some((h, p))
                &&& h == i
                &&& spans[j].0 <= p <= spans[j].1
                &&& l.x <= column <= l.x + (spans[j].1 - spans[j].0) && column < 0xFFFF ==> p
                    == spans[j].0 + (column - l.x)
            })
        }),
{
    let msgs = v.messages;
    let l = layout_at(msgs, chat, i);
    let w = message_width(chat.width) as int;
    let spans = wrap_spans(msgs[i], l.width as int);
    let lines = spans.len() as int;
    let scroll = v.scroll_offset(chat);
    let f = message_frame(chat, l, scroll, lines);
    lemma_rows_before_monotone(msgs, w, i, msgs.len() - 1);
    law_wrapping_keeps_text(msgs[i], l.width as int);
    if let Some((first, last, area)) = f.text {
        if area.y <= row < area.y + area.height {
            law_message_drawing_stays_in_chat(chat, l, scroll, lines);
            assert(in_rows(row, chat));
            let j = first + (row - area.y);
            assert(l.height == lines + 3);
            // The row under the click is history row `abs`, on text line `j` of box `i`.
            let abs = l.top + 1 + j;
            assert(row - chat.y + scroll == abs);
            lemma_hit_passes_boxes_above(msgs, chat, column, abs, 0, i);
            assert(spans[j].0 <= spans[j].1);
        }
    }
}

impl InputView {
    /// The state after pressing the left button at `(column, row)`: in the input region, the
    /// cursor moves under the mouse and an input selection is anchored there; on history text, an
    /// empty selection of that message is anchored at the character under the mouse; elsewhere
    /// nothing changes.
    pub open spec fn after_mouse_down(self, column: u16, row: u16, chat: Area, input: Area, position: int) -> InputView {
        if in_rows(row, input) {
            InputView {
                cursor: position,
                anchor: Some(position),
                history_selection: None,
                mouse_selection: Some(MouseSelection::Input { anchor: position as usize }),
                dirty: true,
                ..self
            }
        } else {
            match history_hit(self, column, row, chat) {
                Some((i, p)) => InputView {
                    history_selection: Some((i, selection_between(p as usize, p as usize))),
                    anchor: None,
                    mouse_selection: Some(
                        MouseSelection::History { message_index: i as usize, anchor: p as usize },
                    ),
                    dirty: true,
                    ..self
                },
                None => self,
            }
        }
    }

    /// The state after dragging with the left button to `(column, row)`: an input drag moves
    /// the cursor under the mouse (keeping its anchor) while the mouse is in the input region; a
    /// history drag extends the selection while the mouse is over text of the same message.
    pub open spec fn after_mouse_drag(self, column: u16, row: u16, chat: Area, input: Area, position: int) -> InputView {
        match self.mouse_selection {
            None => self,
            Some(MouseSelection::Input { anchor }) => if in_rows(row, input) {
                InputView {
                    cursor: position,
                    anchor: Some(anchor as int),
                    history_selection: None,
                    dirty: true,
                    ..self
                }
            } else {
                self
            },
            Some(MouseSelection::History { message_index, anchor }) => match history_hit(
                self,
                column,
                row,
                chat,
            ) {
                Some((i, p)) => if i == message_index {
                    InputView {
                        history_selection: Some(
                            (i, selection_between(anchor, p as usize)),
                        ),
                        anchor: None,
                        dirty: true,
                        ..self
                    }
                } else {
                    self
                },
                None => self,
            },
        }
    }
}

impl InputBox {
    /// Splits the screen `area` into the header, chat and input regions; the input region is
    /// as tall as the typed text's lines (at most five) plus its borders. The area's rows must
    /// end within `u16`, as they do for every area ratatui's `Rect::new` builds.
    pub fn terminal_layout(&self, area: Area) -> (parts: (Area, Area, Area))
        requires
            area.y + area.height <= 0xFFFF,
        ensures
            parts == vertical_parts(
                area,
                header_height(area.height),
                input_height(
                    area.height,
                    line_count(self@.text.len() as int, wrap_width(area.width)),
                ),
            ),
    {
        screen_layout(area, self.input_lines(area))
    }

    /// The message and character position under a click at `(column, row)` in `chat_area`.
    pub fn history_index_from_mouse(&self, column: u16, row: u16, chat_area: Area) -> (hit: Option<
        (usize, usize),
    >)
        requires
            self.wf(),
            in_rows(row, chat_area) ==> history_fits(self@.messages, chat_area.width),
        ensures
            (match history_hit(self@, column, row, chat_area) {
                Some((i, p)) => hit matches Some((a, b)) && a == i && b == p && 0 <= i
                    < self@.messages.len() && 0 <= p <= self@.messages[i].len(),
                None => hit is None,
            }),
    {
        if row < chat_area.y || row >= chat_area.y.saturating_add(chat_area.height) {
            return None;
        }
        let layouts = self.message_layouts(chat_area);
        let scroll = self.chat_scroll_offset(chat_area);
        let absolute_row = row.saturating_sub(chat_area.y).saturating_add(scroll);
        let ghost msgs = self@.messages;
        let mut k: usize = 0;
        while k < layouts.len()
            invariant
                self.wf(),
                msgs == self@.messages,
                layouts@.len() == msgs.len(),
                forall|i: int| 0 <= i < layouts@.len() ==> #[trigger] layouts@[i] == layout_at(msgs, chat_area, i),
                k <= layouts@.len(),
                hit_from(msgs, chat_area, column, absolute_row as int, k as int) == history_hit(
                    self@,
                    column,
                    row,
                    chat_area,
                ),
            decreases layouts@.len() - k,
        {
            let layout = layouts[k];
            if absolute_row < layout.top || absolute_row >= layout.top.saturating_add(layout.height) {
                k = k + 1;
                continue;
            }
            let relative_row = absolute_row - layout.top;
            if relative_row == 0 {
                return None;
            }
            if relative_row <= layout.text_lines as u16 {
                let lines = wrap_message(self.messages[layout.message_index].as_str(), layout.width as usize);
                proof {
                    assert(msgs[k as int] == self.messages@[k as int]@);
                    assert(spans_of(lines@).len() == lines@.len());
                    law_wrapping_keeps_text(msgs[k as int], layout.width as int);
                    assert(spans_of(lines@)[relative_row - 1] == (lines@[relative_row - 1].start as int, lines@[relative_row - 1].end as int));
                }
                let line = &lines[(relative_row - 1) as usize];
                let line_len = line.end - line.start;
                let right_edge = layout.x.saturating_add(line_len as u16);
                let relative_column = if column >= right_edge {
                    line_len
                } else if column <= layout.x {
                    0
                } else {
                    column.saturating_sub(layout.x) as usize
                };
                let reach = line.start + relative_column;
                let position = if reach < line.end {
                    reach
                } else {
                    line.end
                };
                return Some((layout.message_index, position));
            }
            return None;
        }
        None
    }

    /// Presses the left button at `(column, row)`: starts a selection in the input region or
    /// in the history message text under the mouse.
    pub fn begin_mouse_selection(&mut self, column: u16, row: u16, chat_area: Area, input_area: Area)
        requires
            old(self).wf(),
            input_area.x + 3 <= 0xFFFF,
            !in_rows(row, input_area) && in_rows(row, chat_area) ==> history_fits(
                old(self)@.messages,
                chat_area.width,
            ),
        ensures
            final(self).wf(),
            final(self).theme_spec() == old(self).theme_spec(),
            final(self)@ == old(self)@.after_mouse_down(
                column,
                row,
                chat_area,
                input_area,
                input_position(
                    column,
                    row,
                    input_area,
                    input_scroll(
                        line_count(old(self)@.text.len() as int, wrap_width(input_area.width)),
                        old(self)@.cursor,
                        wrap_width(input_area.width),
                    ),
                    wrap_width(input_area.width),
                    old(self)@.text.len() as int,
                ),
            ),
    {
        if row >= input_area.y && row < input_area.y.saturating_add(input_area.height) {
            let position = self.input_index_from_mouse(column, row, input_area);
            self.cursor = position;
            self.input_selection_anchor = Some(position);
            self.history_selection = None;
            self.mouse_selection = Some(MouseSelection::Input { anchor: position });
            self.dirty = true;
            return;
        }
        let hit = self.history_index_from_mouse(column, row, chat_area);
        if let Some((message_index, position)) = hit {
            self.history_selection = Some((message_index, Selection::new(position, position)));
            self.input_selection_anchor = None;
            self.mouse_selection = Some(MouseSelection::History { message_index, anchor: position });
            self.dirty = true;
        }
    }

    /// Drags with the left button to `(column, row)`: extends the selection the press started.
    pub fn update_mouse_selection(&mut self, column: u16, row: u16, chat_area: Area, input_area: Area)
        requires
            old(self).wf(),
            input_area.x + 3 <= 0xFFFF,
            old(self)@.mouse_selection matches Some(MouseSelection::History { .. }) && in_rows(row, chat_area)
                ==> history_fits(old(self)@.messages, chat_area.width),
        ensures
            final(self).wf(),
            final(self).theme_spec() == old(self).theme_spec(),
            final(self)@ == old(self)@.after_mouse_drag(
                column,
                row,
                chat_area,
                input_area,
                input_position(
                    column,
                    row,
                    input_area,
                    input_scroll(
                        line_count(old(self)@.text.len() as int, wrap_width(input_area.width)),
                        old(self)@.cursor,
                        wrap_width(input_area.width),
                    ),
                    wrap_width(input_area.width),
                    old(self)@.text.len() as int,
                ),
            ),
    {
        let selection = match self.mouse_selection {
            Some(selection) => selection,
            None => {
                return;
            },
        };
        match selection {
            MouseSelection::Input { anchor } => {
                if row >= input_area.y && row < input_area.y.saturating_add(input_area.height) {
                    let position = self.input_index_from_mouse(column, row, input_area);
                    self.cursor = position;
                    self.input_selection_anchor = Some(anchor);
                    self.history_selection = None;
                    self.dirty = true;
                }
            },
            MouseSelection::History { message_index, anchor } => {
                        let hit = self.history_index_from_mouse(column, row, chat_area);
                if let Some((index, position)) = hit {
                    if index == message_index {
                        self.history_selection = Some((message_index, Selection::new(anchor, position)));
                        self.input_selection_anchor = None;
                        self.dirty = true;
                    }
                }
            },
        }
    }
}

} // verus!
