//! The chat history region: where each message box sits, how far the history can scroll, and
//! scrolling it.

use vstd::prelude::*;
use crate::input_box::{InputBox, InputView, min, max};
use crate::layout::{Area, message_width, chat_message_width};
use crate::wrap::{wrap_message, wrap_spans, spans_of};

verus! {

/// Where one message box of the history sits, in rows counted from the top of the history.
#[derive(Debug, Clone, Copy, PartialEq, Eq, Structural)]
pub struct MessageLayout {
    pub message_index: usize,
    /// The first row of the box (its "You" header).
    pub top: u16,
    /// Header, text lines, separator and a blank row.
    pub height: u16,
    pub width: u16,
    pub x: u16,
    /// The first text row.
    pub text_top: u16,
    pub text_lines: usize,
    /// The width of the separator under the text: the widest text line.
    pub separator_width: u16,
    pub right_aligned: bool,
}

/// `u16::MAX` as an integer.
pub open spec fn row_limit() -> int {
    0xFFFF
}

/// The rows a message box takes: its wrapped lines plus three, at most `u16::MAX`.
pub open spec fn message_rows(m: Seq<char>, width: int) -> int {
    min(wrap_spans(m, width).len() as int + 3, row_limit())
}

/// The rows taken by the boxes of the first `i` messages.
pub open spec fn rows_before(msgs: Seq<Seq<char>>, width: int, i: int) -> int
    decreases i,
{
    if i <= 0 {
        0
    } else {
        rows_before(msgs, width, i - 1) + message_rows(msgs[i - 1], width)
    }
}

/// The length of the longest span.
pub open spec fn widest_span(spans: Seq<(int, int)>) -> int
    decreases spans.len(),
{
    if spans.len() == 0 {
        0
    } else {
        max(widest_span(spans.drop_last()), spans.last().1 - spans.last().0)
    }
}

/// The layout of message `i` of the history in a chat region: boxes are right-aligned, as wide
/// as `message_width`, and stacked from the top, each starting where the previous ones end
/// (rows saturate at `u16::MAX`).
pub open spec fn layout_at(msgs: Seq<Seq<char>>, chat: Area, i: int) -> MessageLayout {
    let w = message_width(chat.width);
    let spans = wrap_spans(msgs[i], w as int);
    let top = min(rows_before(msgs, w as int, i), row_limit());
    let gap = chat.width - w;
    MessageLayout {
        message_index: i as usize,
        top: top as u16,
        height: message_rows(msgs[i], w as int) as u16,
        width: w,
        x: min(chat.x + gap, row_limit()) as u16,
        text_top: (top + 1) as u16,
        text_lines: spans.len() as usize,
        separator_width: min(widest_span(spans), w as int) as u16,
        right_aligned: true,
    }
}

/// The history's boxes all start above row `u16::MAX`, so the row under each box's header
/// can be counted (every box but the last fits in the rows a `u16` counts).
pub open spec fn history_fits(msgs: Seq<Seq<char>>, chat_width: u16) -> bool {
    msgs.len() == 0 || rows_before(msgs, message_width(chat_width) as int, msgs.len() - 1)
        < row_limit()
}

/// The rows the whole history takes, at most `u16::MAX`.
pub open spec fn chat_rows(msgs: Seq<Seq<char>>, chat_width: u16) -> int {
    min(rows_before(msgs, message_width(chat_width) as int, msgs.len() as int), row_limit())
}

pub proof fn lemma_rows_before_nonneg(msgs: Seq<Seq<char>>, width: int, i: int)
    ensures
        0 <= rows_before(msgs, width, i),
    decreases i,
{
    if i > 0 {
        lemma_rows_before_nonneg(msgs, width, i - 1);
    }
}

pub proof fn lemma_rows_before_monotone(msgs: Seq<Seq<char>>, width: int, i: int, j: int)
    requires
        0 <= i <= j,
    ensures
        0 <= rows_before(msgs, width, i) <= rows_before(msgs, width, j),
    decreases j,
{
    lemma_rows_before_nonneg(msgs, width, i);
    if i < j {
        lemma_rows_before_monotone(msgs, width, i, j - 1);
    }
}

impl InputView {
    /// How far the history can scroll: the rows it takes beyond the chat region's height.
    pub open spec fn max_scroll(self, chat: Area) -> int {
        max(chat_rows(self.messages, chat.width) - chat.height, 0)
    }

    /// The first history row shown: the bottom of the history when following it, else
    /// `chat_scroll` rows above the bottom (at most the top).
    pub open spec fn scroll_offset(self, chat: Area) -> int {
        let m = self.max_scroll(chat);
        if self.follow_bottom {
            m
        } else {
            m - min(self.chat_scroll, m)
        }
    }

    /// The state after scrolling up by `amount` rows when the history can scroll `limit` rows:
    /// the distance from the bottom grows, at most to `limit`. A history that fits the region
    /// stays at its bottom.
    pub open spec fn scrolled_up(self, amount: int, limit: int) -> InputView {
        if limit == 0 {
            InputView { follow_bottom: true, chat_scroll: 0, dirty: true, ..self }
        } else {
            InputView {
                chat_scroll: if self.follow_bottom {
                    min(amount, limit)
                } else {
                    min(min(self.chat_scroll + amount, row_limit()), limit)
                },
                follow_bottom: false,
                dirty: true,
                ..self
            }
        }
    }

    /// The state after scrolling down by `amount` rows: the distance from the bottom shrinks,
    /// and the view follows the bottom again once it reaches it.
    pub open spec fn scrolled_down(self, amount: int) -> InputView {
        let s = max(self.chat_scroll - amount, 0);
        InputView { chat_scroll: s, follow_bottom: s == 0, dirty: true, ..self }
    }
}

/// Scrolling up from the newest messages and back down by the same amount returns to them.
pub proof fn law_scroll_up_then_down_returns_to_bottom(v: InputView, amount: int, limit: int)
    requires
        v.follow_bottom,
        amount >= 0,
        limit >= 0,
    ensures
        v.scrolled_up(amount, limit).scrolled_down(amount).follow_bottom,
        v.scrolled_up(amount, limit).scrolled_down(amount).chat_scroll == 0,
{
}

/// Scrolling never changes the history or the typed text; it only changes which part of the
/// history is shown.
pub proof fn law_scrolling_keeps_history(v: InputView, amount: int, limit: int)
    ensures
        v.scrolled_up(amount, limit).messages == v.messages,
        v.scrolled_up(amount, limit).text == v.text,
        v.scrolled_down(amount).messages == v.messages,
        v.scrolled_down(amount).text == v.text,
{
}

/// Scrolling up moves the view towards older rows: the first shown row never moves down, and
/// it moves up when the view is not already at the top.
pub proof fn law_scrolling_up_moves_view_up(v: InputView, amount: int, chat: Area)
    requires
        0 <= v.chat_scroll <= row_limit(),
        amount >= 0,
    ensures
        ({
            let w = v.scrolled_up(amount, v.max_scroll(chat));
            &&& w.scroll_offset(chat) <= v.scroll_offset(chat)
            &&& amount > 0 && v.scroll_offset(chat) > 0 ==> w.scroll_offset(chat) < v.scroll_offset(
                chat,
            )
        }),
{
}

/// Following the bottom shows the newest rows: the view starts where the last region's worth
/// of history starts.
pub proof fn law_following_shows_newest(v: InputView, chat: Area)
    requires
        v.follow_bottom,
    ensures
        v.scroll_offset(chat) == v.max_scroll(chat),
        v.scroll_offset(chat) + chat.height >= chat_rows(v.messages, chat.width),
{
}

/// Every message box is tall enough for its wrapped text: its height is its header row, one row
/// per wrapped line, the separator and a blank row (at most `u16::MAX`), its text starts under
/// the header, and the boxes are stacked without gaps or overlap, the first at the top and each
/// next one right below the blank row of the one before; the history takes the rows down to the
/// bottom of the last box.
pub proof fn law_message_boxes_hold_their_text(msgs: Seq<Seq<char>>, chat: Area, i: int)
    requires
        history_fits(msgs, chat.width),
        0 <= i < msgs.len(),
    ensures
        ({
            let w = message_width(chat.width) as int;
            let lines = wrap_spans(msgs[i], w).len() as int;
            let l = layout_at(msgs, chat, i);
            &&& l.height == min(lines + 3, 0xFFFF)
            &&& lines <= usize::MAX ==> l.text_lines == lines
            &&& l.text_top == l.top + 1
            &&& i == 0 ==> l.top == 0
            &&& i + 1 < msgs.len() ==> layout_at(msgs, chat, i + 1).top == l.top + l.height
            &&& i + 1 == msgs.len() ==> chat_rows(msgs, chat.width) == min(l.top + l.height, 0xFFFF)
        }),
{
    let w = message_width(chat.width) as int;
    let n = msgs.len() as int;
    lemma_rows_before_monotone(msgs, w, i, n - 1);
    lemma_rows_before_nonneg(msgs, w, i);
    assert(rows_before(msgs, w, i + 1) == rows_before(msgs, w, i) + message_rows(msgs[i], w));
    if i + 1 < n {
        lemma_rows_before_monotone(msgs, w, i + 1, n - 1);
    }
}

impl InputBox {
    /// The width of message boxes in `chat_area`.
    pub fn message_width(&self, chat_area: Area) -> (w: u16)
        ensures
            w == message_width(chat_area.width),
    {
        chat_message_width(chat_area)
    }

    /// Whether every message box of the history starts above row `u16::MAX` in `chat_area`
    /// (drawing and hit-testing the history need this).
    pub fn history_fits(&self, chat_area: Area) -> (r: bool)
        requires
            self.wf(),
        ensures
            r == history_fits(self@.messages, chat_area.width),
    {
        let n = self.messages.len();
        if n == 0 {
            return true;
        }
        let w = chat_message_width(chat_area);
        let mut rows: u32 = 0;
        let mut i: usize = 0;
        while i < n - 1
            invariant
                self.wf(),
                n == self@.messages.len(),
                n >= 1,
                0 <= i <= n - 1,
                w == message_width(chat_area.width),
                rows == rows_before(self@.messages, w as int, i as int),
                rows < row_limit(),
            decreases n - i,
        {
            let lines = wrap_message(self.messages[i].as_str(), w as usize);
            proof {
                assert(self@.messages[i as int] == self.messages@[i as int]@);
                assert(spans_of(lines@).len() == lines@.len());
            }
            let h: u32 = if lines.len() < 0xFFFF - 3 {
                (lines.len() + 3) as u32
            } else {
                0xFFFF
            };
            if h >= 0xFFFF - rows {
                proof {
                    lemma_rows_before_monotone(self@.messages, w as int, i + 1, n - 1);
                }
                return false;
            }
            rows = rows + h;
            i = i + 1;
        }
        true
    }

    /// The layout of every message box of the history in `chat_area`, oldest first.
    pub fn message_layouts(&self, chat_area: Area) -> (layouts: Vec<MessageLayout>)
        requires
            self.wf(),
            history_fits(self@.messages, chat_area.width),
        ensures
            layouts@.len() == self@.messages.len(),
            forall|i: int|
                0 <= i < layouts@.len() ==> #[trigger] layouts@[i] == layout_at(
                    self@.messages,
                    chat_area,
                    i,
                ),
    {
        let w = chat_message_width(chat_area);
        let n = self.messages.len();
        let mut layouts: Vec<MessageLayout> = Vec::new();
        let mut top: u16 = 0;
        let mut i: usize = 0;
        while i < n
            invariant
                self.wf(),
                n == self@.messages.len(),
                history_fits(self@.messages, chat_area.width),
                i <= n,
                w == message_width(chat_area.width),
                top == min(rows_before(self@.messages, w as int, i as int), row_limit()),
                layouts@.len() == i,
                forall|k: int|
                    0 <= k < i ==> #[trigger] layouts@[k] == layout_at(
                        self@.messages,
                        chat_area,
                        k,
                    ),
            decreases n - i,
        {
            let lines = wrap_message(self.messages[i].as_str(), w as usize);
            let ghost m = self@.messages[i as int];
            let ghost spans = wrap_spans(m, w as int);
            proof {
                assert(m == self.messages@[i as int]@);
                assert(spans_of(lines@).len() == lines@.len());
            }
            let mut widest: usize = 0;
            let mut j: usize = 0;
            while j < lines.len()
                invariant
                    j <= lines@.len(),
                    spans_of(lines@) == spans,
                    widest == widest_span(spans.take(j as int)),
                    crate::wrap::lines_show(lines@, m),
                decreases lines@.len() - j,
            {
                let line_width = lines[j].end - lines[j].start;
                assert(spans.take(j + 1).drop_last() =~= spans.take(j as int));
                assert(spans[j as int] == (lines@[j as int].start as int, lines@[j as int].end as int));
                if line_width > widest {
                    widest = line_width;
                }
                j = j + 1;
            }
            assert(spans.take(lines@.len() as int) =~= spans);
            let text_lines = lines.len();
            let height = if text_lines < 0xFFFF - 3 {
                (text_lines + 3) as u16
            } else {
                0xFFFF
            };
            let separator_width = if widest < w as usize {
                widest as u16
            } else {
                w
            };
            let x = chat_area.x.saturating_add(chat_area.width.saturating_sub(w));
            proof {
                lemma_rows_before_monotone(self@.messages, w as int, i as int, n - 1);
            }
            let layout = MessageLayout {
                message_index: i,
                top,
                height,
                width: w,
                x,
                text_top: top + 1,
                text_lines,
                separator_width,
                right_aligned: true,
            };
            layouts.push(layout);
            top = top.saturating_add(height);
            i = i + 1;
        }
        layouts
    }

    /// The rows the whole history takes in `chat_area` (at most `u16::MAX`).
    pub fn chat_line_count(&self, chat_area: Area) -> (rows: u16)
        requires
            self.wf(),
            history_fits(self@.messages, chat_area.width),
        ensures
            rows == chat_rows(self@.messages, chat_area.width),
    {
        let layouts = self.message_layouts(chat_area);
        if layouts.len() == 0 {
            return 0;
        }
        let last = layouts[layouts.len() - 1];
        proof {
            let n = self@.messages.len() as int;
            let w = message_width(chat_area.width) as int;
            assert(last == layout_at(self@.messages, chat_area, n - 1));
            lemma_rows_before_nonneg(self@.messages, w, n - 1);
            assert(rows_before(self@.messages, w, n) == rows_before(self@.messages, w, n - 1)
                + message_rows(self@.messages[n - 1], w));
        }
        last.top.saturating_add(last.height)
    }

    /// How far the history can scroll in `chat_area`.
    pub fn max_chat_scroll(&self, chat_area: Area) -> (m: u16)
        requires
            self.wf(),
            history_fits(self@.messages, chat_area.width),
        ensures
            m == self@.max_scroll(chat_area),
    {
        self.chat_line_count(chat_area).saturating_sub(chat_area.height)
    }

    /// The first history row shown in `chat_area`; never past the furthest scroll.
    pub fn chat_scroll_offset(&self, chat_area: Area) -> (offset: u16)
        requires
            self.wf(),
            history_fits(self@.messages, chat_area.width),
        ensures
            offset == self@.scroll_offset(chat_area),
            offset <= self@.max_scroll(chat_area),
    {
        let max_scroll = self.max_chat_scroll(chat_area);
        if self.follow_bottom {
            max_scroll
        } else {
            max_scroll.saturating_sub(self.chat_scroll.min(max_scroll))
        }
    }

    /// Scrolls the history up by `amount` rows (away from the newest messages).
    pub fn scroll_up(&mut self, amount: u16, chat_area: Area)
        requires
            old(self).wf(),
            history_fits(old(self)@.messages, chat_area.width),
        ensures
            final(self).wf(),
            final(self).theme_spec() == old(self).theme_spec(),
            final(self)@ == old(self)@.scrolled_up(
                amount as int,
                old(self)@.max_scroll(chat_area),
            ),
    {
        let max_scroll = self.max_chat_scroll(chat_area);
        if max_scroll == 0 {
            self.follow_bottom = true;
            self.chat_scroll = 0;
            self.dirty = true;
            return;
        }
        self.chat_scroll = if self.follow_bottom {
            amount.min(max_scroll)
        } else {
            self.chat_scroll.saturating_add(amount).min(max_scroll)
        };
        self.follow_bottom = false;
        self.dirty = true;
    }

    /// Scrolls the history down by `amount` rows (towards the newest messages).
    pub fn scroll_down(&mut self, amount: u16)
        requires
            old(self).wf(),
        ensures
            final(self).wf(),
            final(self).theme_spec() == old(self).theme_spec(),
            final(self)@ == old(self)@.scrolled_down(amount as int),
    {
        self.chat_scroll = self.chat_scroll.saturating_sub(amount);
        if self.chat_scroll == 0 {
            self.follow_bottom = true;
        } else {
            self.follow_bottom = false;
        }
        self.dirty = true;
    }

    /// Scrolls to the oldest messages.
    pub fn scroll_to_top(&mut self, chat_area: Area)
        requires
            old(self).wf(),
            history_fits(old(self)@.messages, chat_area.width),
        ensures
            final(self).wf(),
            final(self).theme_spec() == old(self).theme_spec(),
            final(self)@ == (InputView {
                chat_scroll: old(self)@.max_scroll(chat_area),
                follow_bottom: false,
                dirty: true,
                ..old(self)@
            }),
    {
        let max_scroll = self.max_chat_scroll(chat_area);
        self.chat_scroll = max_scroll;
        self.follow_bottom = false;
        self.dirty = true;
    }

    /// Scrolls to the newest messages and follows them.
    pub fn scroll_to_bottom(&mut self)
        requires
            old(self).wf(),
        ensures
            final(self).wf(),
            final(self).theme_spec() == old(self).theme_spec(),
            final(self)@ == (InputView {
                chat_scroll: 0,
                follow_bottom: true,
                dirty: true,
                ..old(self)@
            }),
    {
        self.chat_scroll = 0;
        self.follow_bottom = true;
        self.dirty = true;
    }
}

} // verus!
