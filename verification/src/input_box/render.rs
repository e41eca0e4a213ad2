//! What the screen shows: where each message box's header, text rows and separator go (clipped
//! to the chat region), which input lines are shown, and where the cursor is.

use vstd::prelude::*;
use crate::input_box::{InputBox, min, max};
use crate::input_box::chat::{MessageLayout, history_fits};
use crate::input_box::input_area::{MAX_INPUT_LINES, input_chunks, input_scroll, line_count, wrap_width, law_input_line_count};
use crate::layout::Area;
use crate::selection::Selection;
use crate::wrap::{WrappedLine, wrap_message, wrap_spans, spans_of, lines_show};

verus! {

/// Saturating addition on `u16` values.
pub open spec fn sat_add(a: int, b: int) -> int {
    min(a + b, 0xFFFF)
}

/// Saturating subtraction on `u16` values.
pub open spec fn sat_sub(a: int, b: int) -> int {
    max(a - b, 0)
}

/// Where the parts of a message box go on screen.
pub struct MessageFrame {
    /// The row of the "You" header, when it is inside the chat region.
    pub header: Option<Area>,
    /// The wrapped lines `first..last` that are inside the chat region, and where they go.
    pub text: Option<(usize, usize, Area)>,
    /// The separator under the text, when it is inside the chat region.
    pub separator: Option<Area>,
}

/// The screen row where a message box starts: its history row, shifted up by the scroll.
pub open spec fn message_row(chat: Area, layout: MessageLayout, scroll: int) -> int {
    sat_sub(sat_add(chat.y as int, layout.top as int), scroll)
}

/// Whether any row of a message box shows in the chat region.
pub open spec fn message_shows(chat: Area, layout: MessageLayout, scroll: int) -> bool {
    let y = message_row(chat, layout, scroll);
    let chat_bottom = sat_add(chat.y as int, chat.height as int);
    !(y >= chat_bottom || sat_add(y, layout.height as int) <= chat.y)
}

/// The frame of a shown message box with `lines` wrapped lines: every part is clipped to the
/// rows of the chat region.
pub open spec fn message_frame(chat: Area, layout: MessageLayout, scroll: int, lines: int) -> MessageFrame {
    let y = message_row(chat, layout, scroll);
    let chat_bottom = sat_add(chat.y as int, chat.height as int);
    let bottom = sat_add(y, layout.height as int);
    let visible_top = max(chat.y as int, y);
    let visible_bottom = min(chat_bottom, bottom);
    let first = sat_sub(sat_sub(visible_top, y), 1);
    let last = min(sat_sub(sat_sub(visible_bottom, y), 1), (lines as u16) as int);
    let separator_y = sat_add(y, 1 + (lines as u16) as int);
    let separator_width = max(layout.separator_width as int, 1);
    MessageFrame {
        header: if y >= visible_top && y < visible_bottom {
            Some(Area { x: layout.x, y: y as u16, width: layout.width, height: 1 })
        } else {
            None
        },
        text: if first < last && first < lines {
            Some(
                (
                    first as usize,
                    last as usize,
                    Area {
                        x: layout.x,
                        y: sat_add(sat_add(y, 1), (first as u16) as int) as u16,
                        width: layout.width,
                        height: (last - first) as u16,
                    },
                ),
            )
        } else {
            None
        },
        separator: if separator_y >= chat.y && separator_y < chat_bottom {
            Some(
                Area {
                    x: if layout.right_aligned {
                        sat_add(layout.x as int, sat_sub(layout.width as int, separator_width)) as u16
                    } else {
                        layout.x
                    },
                    y: separator_y as u16,
                    width: min(separator_width, chat.width as int) as u16,
                    height: 1,
                },
            )
        } else {
            None
        },
    }
}

/// An area lies within the rows of `chat`.
pub open spec fn within_rows(a: Area, chat: Area) -> bool {
    chat.y <= a.y && a.y + a.height <= sat_add(chat.y as int, chat.height as int)
}

/// Drawing a message box never paints outside the chat region's rows: its header, text rows
/// and separator all lie within them, so scrolled history cannot cover the header or the input.
pub proof fn law_message_drawing_stays_in_chat(chat: Area, layout: MessageLayout, scroll: int, lines: int)
    requires
        scroll >= 0,
        lines >= 0,
        message_shows(chat, layout, scroll),
    ensures
        ({
            let f = message_frame(chat, layout, scroll, lines);
            &&& f.header matches Some(h) ==> within_rows(h, chat)
            &&& f.text matches Some((_, _, t)) ==> within_rows(t, chat)
            &&& f.separator matches Some(s) ==> within_rows(s, chat)
        }),
{
}

/// A message box to draw: its wrapped lines, the selected part of it, and where its parts go.
pub struct MessagePlan {
    pub lines: Vec<WrappedLine>,
    pub selection: Option<Selection>,
    pub frame: MessageFrame,
}

/// The lines of the input region to draw, and where the cursor goes.
pub struct InputPlan {
    /// The shown lines, from the first shown one on.
    pub lines: Vec<WrappedLine>,
    /// Whether the input is empty, so the first line shows the placeholder instead.
    pub placeholder: bool,
    /// The selected part of the typed text.
    pub selection: Option<Selection>,
    pub cursor_x: u16,
    pub cursor_y: u16,
}

/// The screen position of the cursor in the input region `input` when the first shown line is
/// `scroll`: after the three-column prompt and one border row, and never past the region's last
/// column or row.
pub open spec fn cursor_cell(input: Area, cursor: int, w: int, scroll: int) -> (int, int) {
    let line = cursor / w;
    let column = cursor % w;
    let shown_line = sat_sub(line, scroll);
    let x = min(sat_add(sat_add(input.x as int, 3), (column as u16) as int), sat_add(input.x as int, sat_sub(input.width as int, 1)));
    let y = min(sat_add(sat_add(input.y as int, 1), (shown_line as u16) as int), sat_add(input.y as int, sat_sub(input.height as int, 1)));
    (x, y)
}

/// The divider line under the header region: its last row.
pub fn divider_area(header: Area) -> (a: Area)
    ensures
        a == (Area {
            x: header.x,
            y: sat_add(header.y as int, sat_sub(header.height as int, 1)) as u16,
            width: header.width,
            height: 1,
        }),
{
    Area {
        x: header.x,
        y: header.y.saturating_add(header.height.saturating_sub(1)),
        width: header.width,
        height: 1,
    }
}

/// Where the logo goes in the header region: its top rows, as many as the logo has lines (at
/// most the region's height); nowhere when the logo or the region is empty.
pub fn logo_area(area: Area, logo_lines: usize) -> (a: Option<Area>)
    ensures
        a == if logo_lines == 0 || area.width == 0 || area.height == 0 {
            None
        } else {
            Some(Area { x: area.x, y: area.y, width: area.width, height: min(logo_lines as int, area.height as int) as u16 })
        },
{
    if logo_lines == 0 || area.width == 0 || area.height == 0 {
        return None;
    }
    let height = if logo_lines < area.height as usize {
        logo_lines as u16
    } else {
        area.height
    };
    Some(Area { x: area.x, y: area.y, width: area.width, height })
}

/// Whether any row of message box `layout` shows in `chat_area` when the first shown history row
/// is `scroll`.
pub fn message_visible(chat_area: Area, layout: MessageLayout, scroll: u16) -> (r: bool)
    ensures
        r == message_shows(chat_area, layout, scroll as int),
{
    let message_y = chat_area.y.saturating_add(layout.top).saturating_sub(scroll);
    let chat_bottom = chat_area.y.saturating_add(chat_area.height);
    let message_bottom = message_y.saturating_add(layout.height);
    !(message_y >= chat_bottom || message_bottom <= chat_area.y)
}

/// Computes `message_frame`.
#[verifier::rlimit(40)]
#[verifier::spinoff_prover]
fn frame_of(chat_area: Area, layout: MessageLayout, scroll: u16, lines: usize) -> (f: MessageFrame)
    requires
        (lines as u16) < 0xFFFF,
    ensures
        f == message_frame(chat_area, layout, scroll as int, lines as int),
{
        let message_y = chat_area.y.saturating_add(layout.top).saturating_sub(scroll);
        let chat_bottom = chat_area.y.saturating_add(chat_area.height);
        let message_bottom = message_y.saturating_add(layout.height);
        let visible_top = if chat_area.y < message_y {
            message_y
        } else {
            chat_area.y
        };
        let visible_bottom = if chat_bottom < message_bottom {
            chat_bottom
        } else {
            message_bottom
        };
        let header = if message_y >= visible_top && message_y < visible_bottom {
            Some(Area { x: layout.x, y: message_y, width: layout.width, height: 1 })
        } else {
            None
        };
        let line_rows = lines as u16;
        let first = visible_top.saturating_sub(message_y).saturating_sub(1) as usize;
        let bottom_rows = visible_bottom.saturating_sub(message_y).saturating_sub(1);
        let last = (if bottom_rows < line_rows {
            bottom_rows
        } else {
            line_rows
        }) as usize;
        let text = if first < last && first < lines {
            Some(
                (
                    first,
                    last,
                    Area {
                        x: layout.x,
                        y: message_y.saturating_add(1).saturating_add(first as u16),
                        width: layout.width,
                        height: (last - first) as u16,
                    },
                ),
            )
        } else {
            None
        };
        let separator_y = message_y.saturating_add(1 + line_rows);
        let separator = if separator_y >= chat_area.y && separator_y < chat_bottom {
            let separator_width = if layout.separator_width < 1 {
                1
            } else {
                layout.separator_width
            };
            let separator_x = if layout.right_aligned {
                layout.x.saturating_add(layout.width.saturating_sub(separator_width))
            } else {
                layout.x
            };
            Some(
                Area {
                    x: separator_x,
                    y: separator_y,
                    width: if separator_width < chat_area.width {
                        separator_width
                    } else {
                        chat_area.width
                    },
                    height: 1,
                },
            )
        } else {
            None
        };
        MessageFrame { header, text, separator }
}

impl InputBox {
    /// What to draw of message box `layout` in `chat_area`; nothing when its message does not
    /// exist or no row of it shows.
    pub fn message_plan(&self, chat_area: Area, layout: MessageLayout) -> (plan: Option<MessagePlan>)
        requires
            self.wf(),
            history_fits(self@.messages, chat_area.width),
            0 <= layout.message_index < self@.messages.len() && message_shows(
                chat_area,
                layout,
                self@.scroll_offset(chat_area),
            ) ==> (wrap_spans(
                self@.messages[layout.message_index as int],
                layout.width as int,
            ).len() as u16) < 0xFFFF,
        ensures
            ({
                let i = layout.message_index as int;
                let scroll = self@.scroll_offset(chat_area);
                if !(0 <= i < self@.messages.len()) || !message_shows(chat_area, layout, scroll) {
                    plan is None
                } else {
                    plan matches Some(p) && {
                        let spans = wrap_spans(self@.messages[i], layout.width as int);
                        &&& spans_of(p.lines@) == spans
                        &&& lines_show(p.lines@, self@.messages[i])
                        &&& p.selection == match self@.history_selection {
                            Some((j, s)) => if j == i {
                                Some(s)
                            } else {
                                None
                            },
                            None => None,
                        }
                        &&& p.frame == message_frame(chat_area, layout, scroll, spans.len() as int)
                    }
                }
            }),
    {
        if layout.message_index >= self.messages.len() {
            return None;
        }
        let lines = wrap_message(self.messages[layout.message_index].as_str(), layout.width as usize);
        let ghost spans = wrap_spans(self@.messages[layout.message_index as int], layout.width as int);
        proof {
            assert(self@.messages[layout.message_index as int] == self.messages@[layout.message_index as int]@);
            assert(spans_of(lines@).len() == lines@.len());
        }
        let selection = match self.history_selection {
            Some((index, selection)) => if index == layout.message_index {
                Some(selection)
            } else {
                None
            },
            None => None,
        };
        let scroll = self.chat_scroll_offset(chat_area);
        if !message_visible(chat_area, layout, scroll) {
            return None;
        }
        let frame = frame_of(chat_area, layout, scroll, lines.len());
        Some(MessagePlan { lines, selection, frame })
    }

    /// What to draw in the input region `input_area`: the shown lines (at most five, from the
    /// scroll position), whether the placeholder replaces the empty text, the selection, and the
    /// cursor's screen position.
    pub fn input_plan(&self, input_area: Area) -> (plan: InputPlan)
        requires
            self.wf(),
        ensures
            ({
                let n = self@.text.len() as int;
                let w = wrap_width(input_area.width);
                let chunks = input_chunks(n, w);
                let scroll = input_scroll(line_count(n, w), self@.cursor, w);
                let end = min(scroll + min(chunks.len() as int, MAX_INPUT_LINES as int), chunks.len() as int);
                &&& spans_of(plan.lines@) == chunks.subrange(scroll, end)
                &&& lines_show(plan.lines@, self@.text)
                &&& plan.placeholder == (n == 0)
                &&& (match self@.selection() {
                    Some((a, b)) => plan.selection matches Some(s) && s.start == a && s.end == b,
                    None => plan.selection is None,
                })
                &&& (plan.cursor_x as int, plan.cursor_y as int) == cursor_cell(input_area, self@.cursor, w, scroll)
            }),
    {
        let selection = self.input_selection();
        let wrapped = self.wrapped_input(input_area);
        let ghost n = self@.text.len() as int;
        let ghost w = wrap_width(input_area.width);
        proof {
            law_input_line_count(n, w);
            assert(spans_of(wrapped@).len() == wrapped@.len());
        }
        let visible_lines = if wrapped.len() < MAX_INPUT_LINES {
            wrapped.len()
        } else {
            MAX_INPUT_LINES
        };
        let scroll_offset = self.input_scroll_offset(input_area);
        let visible_end = if scroll_offset + visible_lines < wrapped.len() {
            scroll_offset + visible_lines
        } else {
            wrapped.len()
        };
        let ghost all = wrapped@;
        let mut wrapped = wrapped;
        let mut lines = wrapped.split_off(scroll_offset);
        lines.truncate(visible_end - scroll_offset);
        proof {
            assert(lines@ =~= all.subrange(scroll_offset as int, visible_end as int));
            assert(spans_of(lines@) =~= spans_of(all).subrange(scroll_offset as int, visible_end as int));
        }
        let width = self.input_wrap_width(input_area);
        let cursor_line = self.cursor / width;
        let cursor_column = self.cursor % width;
        let shown_line = cursor_line.saturating_sub(scroll_offset);
        let right = input_area.x.saturating_add(input_area.width.saturating_sub(1));
        let bottom = input_area.y.saturating_add(input_area.height.saturating_sub(1));
        let x = input_area.x.saturating_add(3).saturating_add(cursor_column as u16);
        let y = input_area.y.saturating_add(1).saturating_add(shown_line as u16);
        InputPlan {
            lines,
            placeholder: self.text.as_str().is_empty(),
            selection,
            cursor_x: if x < right {
                x
            } else {
                right
            },
            cursor_y: if y < bottom {
                y
            } else {
                bottom
            },
        }
    }
}

} // verus!
