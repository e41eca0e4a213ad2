//! The input region: the typed text chunked into lines of fixed width, which of them are shown,
//! moving the cursor between lines, and mapping a mouse position to a text position.

use vstd::prelude::*;
use crate::input_box::{InputBox, min, max};
use crate::layout::Area;
use crate::wrap::{WrappedLine, copy_range, spans_of, lines_show, joined};

verus! {

/// The most lines the input region shows at once.
pub const MAX_INPUT_LINES: usize = 5;

/// The text width of an input region `area_width` columns wide: five columns go to the prompt
/// and borders, and at least one column is left.
pub open spec fn wrap_width(area_width: u16) -> int {
    max(area_width as int - 5, 1)
}

/// `n / w` rounded up.
pub open spec fn div_ceil(n: int, w: int) -> int {
    n / w + if n % w == 0 {
        0int
    } else {
        1int
    }
}

/// The number of lines `n` characters take at `w` per line; at least one.
pub open spec fn line_count(n: int, w: int) -> int {
    max(div_ceil(n, w), 1)
}

/// The spans of the input lines: consecutive chunks of `w` characters (the last one shorter);
/// no text is one empty line.
pub open spec fn input_chunks(n: int, w: int) -> Seq<(int, int)> {
    if n == 0 {
        seq![(0, 0)]
    } else {
        Seq::new(div_ceil(n, w) as nat, |i: int| (i * w, min(i * w + w, n)))
    }
}

/// The first input line shown: none are hidden when all fit in five lines; otherwise the view
/// keeps the cursor's line on its last row when it can, and never scrolls past the last line.
pub open spec fn input_scroll(total: int, cursor: int, w: int) -> int {
    let visible = min(total, MAX_INPUT_LINES as int);
    if total <= visible {
        0
    } else {
        min(max(cursor / w - (visible - 1), 0), total - visible)
    }
}

/// The text position under a mouse click at `(column, row)` in the input region `area`, whose
/// first shown line is `scroll`: row and column are counted from the first text cell (the
/// prompt takes three columns), clamped to the shown lines and the line width, and the
/// position is at most the end of the text.
pub open spec fn input_position(
    column: u16,
    row: u16,
    area: Area,
    scroll: int,
    w: int,
    n: int,
) -> int {
    let first_row = min(area.y + 1, 0xFFFF);
    let visible_line = min(max(row - first_row, 0), MAX_INPUT_LINES as int - 1);
    let line = scroll + visible_line;
    let start_x = area.x + 3;
    let col = if column <= start_x {
        0
    } else {
        column - start_x
    };
    min(line * w + min(col, w), n)
}

/// The position a move to the line above (`up`) or below reaches from `cursor`: the same
/// column on that line, or its end if it is shorter; the first and last lines stay put.
pub open spec fn vertical_target(cursor: int, up: bool, w: int, n: int) -> int {
    let line = cursor / w;
    let column = cursor % w;
    let total = line_count(n, w);
    let target_line = if up {
        max(line - 1, 0)
    } else {
        min(line + 1, max(total - 1, 0))
    };
    let start = target_line * w;
    let end = min((target_line + 1) * w, n);
    min(start + column, end)
}

fn saturating_mul(a: usize, b: usize) -> (r: usize)
    ensures
        r == min(a * b, usize::MAX as int),
{
    match a.checked_mul(b) {
        Some(v) => v,
        None => usize::MAX,
    }
}

proof fn lemma_div_ceil_exact(n: int, w: int, k: int)
    requires
        n > 0,
        w >= 1,
        k >= 1,
        k * w >= n,
        (k - 1) * w < n,
    ensures
        k == div_ceil(n, w),
{
    let q = n / w;
    let r = n % w;
    assert(n == q * w + r && 0 <= r < w) by (nonlinear_arith)
        requires
            w >= 1,
            q == n / w,
            r == n % w,
    ;
    if r == 0 {
        assert(k == q) by (nonlinear_arith)
            requires
                k * w >= q * w,
                (k - 1) * w < q * w,
                w >= 1,
        ;
    } else {
        assert(k == q + 1) by (nonlinear_arith)
            requires
                k * w >= q * w + r,
                (k - 1) * w < q * w + r,
                0 < r < w,
        ;
    }
}

proof fn lemma_div_ceil_positive(n: int, w: int)
    requires
        n > 0,
        w >= 1,
    ensures
        div_ceil(n, w) >= 1,
        (div_ceil(n, w) - 1) * w < n,
{
    let q = n / w;
    let r = n % w;
    assert(n == q * w + r && 0 <= r < w && q >= 0) by (nonlinear_arith)
        requires
            w >= 1,
            n > 0,
            q == n / w,
            r == n % w,
    ;
    if r == 0 {
        assert(q >= 1) by (nonlinear_arith)
            requires
                n == q * w,
                n > 0,
                q >= 0,
        ;
        assert((q - 1) * w < n) by (nonlinear_arith)
            requires
                n == q * w,
                w >= 1,
        ;
    } else {
        assert(q * w < n);
    }
}

proof fn lemma_div_ceil_covers(n: int, w: int)
    requires
        n >= 0,
        w >= 1,
    ensures
        div_ceil(n, w) * w >= n,
{
    let q = n / w;
    let r = n % w;
    assert(n == q * w + r && 0 <= r < w) by (nonlinear_arith)
        requires
            w >= 1,
            q == n / w,
            r == n % w,
    ;
    if r != 0 {
        assert((q + 1) * w == q * w + w) by (nonlinear_arith);
    }
}

proof fn lemma_joined_prefix(lines: Seq<WrappedLine>, text: Seq<char>, w: int, k: int)
    requires
        w >= 1,
        text.len() > 0,
        spans_of(lines) == input_chunks(text.len() as int, w),
        lines_show(lines, text),
        0 <= k <= lines.len(),
    ensures
        joined(lines.take(k)) == text.take(min(k * w, text.len() as int)),
    decreases k,
{
    let n = text.len() as int;
    let len = lines.len() as int;
    if k == 0 {
        assert(lines.take(0) =~= Seq::<WrappedLine>::empty());
        assert(text.take(0) =~= Seq::<char>::empty());
    } else {
        lemma_joined_prefix(lines, text, w, k - 1);
        lemma_div_ceil_positive(n, w);
        assert((k - 1) * w <= (len - 1) * w) by (nonlinear_arith)
            requires
                k - 1 <= len - 1,
                w >= 1,
        ;
        assert(k * w == (k - 1) * w + w) by (nonlinear_arith);
        assert((k - 1) * w >= 0) by (nonlinear_arith)
            requires
                k >= 1,
                w >= 1,
        ;
        assert(spans_of(lines).len() == lines.len());
        assert(len == div_ceil(n, w));
        assert((k - 1) * w < n);
        let c = input_chunks(n, w);
        assert(c[k - 1] == ((k - 1) * w, min((k - 1) * w + w, n)));
        assert(spans_of(lines)[k - 1] == (lines[k - 1].start as int, lines[k - 1].end as int));
        assert(lines[k - 1].start <= lines[k - 1].end);
        assert(lines[k - 1].text@ == text.subrange((k - 1) * w, min(k * w, n)));
        assert(min((k - 1) * w, n) == (k - 1) * w);
        assert(lines.take(k).drop_last() =~= lines.take(k - 1));
        assert(lines.take(k).last() == lines[k - 1]);
        assert(text.take((k - 1) * w) + text.subrange((k - 1) * w, min(k * w, n)) =~= text.take(
            min(k * w, n),
        ));
    }
}

/// The input lines, one after another, give back the whole typed text.
pub proof fn law_input_lines_concatenate(lines: Seq<WrappedLine>, text: Seq<char>, w: int)
    requires
        w >= 1,
        spans_of(lines) == input_chunks(text.len() as int, w),
        lines_show(lines, text),
    ensures
        joined(lines) == text,
{
    let n = text.len() as int;
    if n == 0 {
        assert(spans_of(lines).len() == lines.len());
        assert(spans_of(lines).len() == 1);
        assert(spans_of(lines)[0] == (lines[0].start as int, lines[0].end as int));
        assert(lines[0].start <= lines[0].end);
        assert(lines.drop_last() =~= Seq::<WrappedLine>::empty());
        assert(joined(lines.drop_last()) =~= Seq::<char>::empty());
        assert(lines.last() == lines[0]);
        assert(lines.last().text@ =~= text);
        assert(joined(lines) == joined(lines.drop_last()) + lines.last().text@);
        assert(joined(lines) =~= text);
    } else {
        let len = lines.len() as int;
        lemma_joined_prefix(lines, text, w, len);
        lemma_div_ceil_covers(n, w);
        assert(spans_of(lines).len() == lines.len());
        assert(len == div_ceil(n, w));
        assert(min(len * w, n) == n);
        assert(lines.take(len) =~= lines);
        assert(text.take(n) =~= text);
    }
}

/// The input lines are exactly as many as the line count says.
pub proof fn law_input_line_count(n: int, w: int)
    requires
        n >= 0,
        w >= 1,
    ensures
        input_chunks(n, w).len() == line_count(n, w),
{
    if n > 0 {
        lemma_div_ceil_positive(n, w);
    }
}

/// The input view keeps the cursor's line on screen: when the cursor is on one of the text's
/// lines, that line lies among the five shown from the scroll position.
pub proof fn law_cursor_line_shown(n: int, cursor: int, w: int)
    requires
        0 <= cursor <= n,
        w >= 1,
        cursor / w < line_count(n, w),
    ensures
        ({
            let total = line_count(n, w);
            let s = input_scroll(total, cursor, w);
            s <= cursor / w < s + min(total, MAX_INPUT_LINES as int)
        }),
{
    assert(cursor / w >= 0) by (nonlinear_arith)
        requires
            cursor >= 0,
            w >= 1,
    ;
}

impl InputBox {
    /// The text width of the input region `area`.
    pub fn input_wrap_width(&self, area: Area) -> (w: usize)
        ensures
            w == wrap_width(area.width),
            w >= 1,
    {
        let w = area.width.saturating_sub(5);
        if w < 1 {
            1
        } else {
            w as usize
        }
    }

    /// The number of lines the typed text takes in the input region `area`.
    pub fn input_lines(&self, area: Area) -> (lines: usize)
        ensures
            lines == line_count(self@.text.len() as int, wrap_width(area.width)),
    {
        let width = self.input_wrap_width(area);
        let n = self.text_len();
        proof {
            assert(n % width != 0 ==> n / width < usize::MAX) by (nonlinear_arith)
                requires
                    width >= 1,
                    n <= usize::MAX,
            ;
        }
        let lines = n / width + if n % width == 0 {
            0
        } else {
            1
        };
        if lines < 1 {
            1
        } else {
            lines
        }
    }

    /// The first input line shown in the input region `area`.
    pub fn input_scroll_offset(&self, area: Area) -> (offset: usize)
        requires
            self.wf(),
        ensures
            offset == input_scroll(
                line_count(self@.text.len() as int, wrap_width(area.width)),
                self@.cursor,
                wrap_width(area.width),
            ),
    {
        let total_lines = self.input_lines(area);
        let visible_lines = if total_lines < MAX_INPUT_LINES {
            total_lines
        } else {
            MAX_INPUT_LINES
        };
        let width = self.input_wrap_width(area);
        let cursor_line = self.cursor / width;
        if total_lines <= visible_lines {
            return 0;
        }
        let up = cursor_line.saturating_sub(visible_lines.saturating_sub(1));
        let last = total_lines.saturating_sub(visible_lines);
        if up < last {
            up
        } else {
            last
        }
    }

    /// The typed text as the lines of the input region `area`.
    pub fn wrapped_input(&self, area: Area) -> (lines: Vec<WrappedLine>)
        ensures
            spans_of(lines@) == input_chunks(self@.text.len() as int, wrap_width(area.width)),
            lines_show(lines@, self@.text),
    {
        let w = self.input_wrap_width(area);
        let chars = self.text_chars();
        let n = chars.len();
        let mut lines: Vec<WrappedLine> = Vec::new();
        if n == 0 {
            lines.push(WrappedLine { text: Vec::new(), start: 0, end: 0 });
            assert(spans_of(lines@) =~= seq![(0int, 0int)]);
            assert(lines@[0].text@ =~= self@.text.subrange(0, 0));
            return lines;
        }
        let mut start: usize = 0;
        let ghost mut k: int = 0;
        while start < n
            invariant
                chars@ == self@.text,
                n == self@.text.len(),
                n > 0,
                w >= 1,
                w == wrap_width(area.width),
                k >= 0,
                start == min(k * w, n as int),
                k == 0 || (k - 1) * w < n,
                lines@.len() == k,
                forall|i: int|
                    0 <= i < k ==> #[trigger] spans_of(lines@)[i] == (i * w, min(i * w + w, n as int)),
                lines_show(lines@, self@.text),
            decreases n - start,
        {
            let end = if w < n - start {
                start + w
            } else {
                n
            };
            let text = copy_range(chars.as_slice(), start, end);
            let ghost before = lines@;
            lines.push(WrappedLine { text, start, end });
            proof {
                assert(k * w + w == (k + 1) * w) by (nonlinear_arith);
                assert(spans_of(lines@)[k] == (k * w, min(k * w + w, n as int)));
                assert forall|i: int| 0 <= i < k implies #[trigger] spans_of(lines@)[i] == (i * w, min(i * w + w, n as int)) by {
                    assert(spans_of(lines@)[i] == spans_of(before)[i]);
                }
                k = k + 1;
            }
            start = end;
        }
        proof {
            assert(k * w >= n) by (nonlinear_arith)
                requires
                    n as int == min(k * w, n as int),
            ;
            lemma_div_ceil_exact(n as int, w as int, k);
            assert(spans_of(lines@) =~= input_chunks(n as int, w as int));
        }
        lines
    }

    /// Moves the cursor to the same column of the line above (`direction < 0`) or below,
    /// stopping at the end of a shorter line, with the usual selecting behaviour.
    pub fn move_cursor_vertical(&mut self, direction: i32, area: Area, selecting: bool)
        requires
            old(self).wf(),
        ensures
            final(self).wf(),
            final(self).theme_spec() == old(self).theme_spec(),
            final(self)@ == old(self)@.moved(
                vertical_target(
                    old(self)@.cursor,
                    direction < 0,
                    wrap_width(area.width),
                    old(self)@.text.len() as int,
                ),
                selecting,
            ),
    {
        let width = self.input_wrap_width(area);
        let current_line = self.cursor / width;
        let current_column = self.cursor % width;
        let line_count = self.input_lines(area);
        let n = self.text_len();
        let target_line = if direction < 0 {
            current_line.saturating_sub(1)
        } else {
            let next = current_line.saturating_add(1);
            let last = line_count.saturating_sub(1);
            if next < last {
                next
            } else {
                last
            }
        };
        let target_start = saturating_mul(target_line, width);
        let next_start = saturating_mul(target_line.saturating_add(1), width);
        let target_end = if next_start < n {
            next_start
        } else {
            n
        };
        let reach = target_start.saturating_add(current_column);
        let target = if reach < target_end {
            reach
        } else {
            target_end
        };
        proof {
            assert(current_line * width <= self.cursor) by (nonlinear_arith)
                requires
                    current_line == self.cursor / width,
                    width >= 1,
            ;
            assert(current_column < width) by (nonlinear_arith)
                requires
                    current_column == self.cursor % width,
                    width >= 1,
            ;
        }
        self.move_cursor(target, selecting);
    }

    /// The text position under a mouse click at `(column, row)` in the input region `input_area`.
    pub fn input_index_from_mouse(&self, column: u16, row: u16, input_area: Area) -> (p: usize)
        requires
            self.wf(),
            input_area.x + 3 <= 0xFFFF,
        ensures
            p == input_position(
                column,
                row,
                input_area,
                input_scroll(
                    line_count(self@.text.len() as int, wrap_width(input_area.width)),
                    self@.cursor,
                    wrap_width(input_area.width),
                ),
                wrap_width(input_area.width),
                self@.text.len() as int,
            ),
            p <= self@.text.len(),
    {
        let width = self.input_wrap_width(input_area);
        let visible_line = row.saturating_sub(input_area.y.saturating_add(1)).min(
            (MAX_INPUT_LINES - 1) as u16,
        ) as usize;
        let line = self.input_scroll_offset(input_area).saturating_add(visible_line);
        let start_x = input_area.x + 3;
        let column = if column <= start_x {
            0
        } else {
            column.saturating_sub(start_x) as usize
        };
        let offset = if column < width {
            column
        } else {
            width
        };
        let position = saturating_mul(line, width).saturating_add(offset);
        let n = self.text_len();
        proof {
            assert(line * width >= 0) by (nonlinear_arith)
                requires
                    line >= 0,
                    width >= 1,
            ;
        }
        if position < n {
            position
        } else {
            n
        }
    }
}

} // verus!
