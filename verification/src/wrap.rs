//! Breaking text into display lines: greedy word wrapping for chat messages and fixed-width
//! chunking for the input box.

use vstd::prelude::*;
use crate::text::{is_white_space, is_whitespace, all_white_space, str_chars};

verus! {

/// One display line: the characters `text`, taken from positions `start..end` of the source.
#[derive(Debug)]
pub struct WrappedLine {
    pub text: Vec<char>,
    pub start: usize,
    pub end: usize,
}

/// The first position in `p..limit` that holds a line feed, or `limit` when there is none.
pub open spec fn line_stop(chars: Seq<char>, p: int, limit: int) -> int
    decreases limit - p,
{
    if p >= limit {
        limit
    } else if chars[p] == '\n' {
        p
    } else {
        line_stop(chars, p + 1, limit)
    }
}

/// The last white-space position in `from..to`, if any.
pub open spec fn last_space(chars: Seq<char>, from: int, to: int) -> Option<int>
    decreases to - from,
{
    if to <= from {
        None
    } else if is_white_space(chars[to - 1]) {
        Some(to - 1)
    } else {
        last_space(chars, from, to - 1)
    }
}

/// The first position at or after `i` that is not a white-space character other than a
/// line feed.
pub open spec fn skip_blanks(chars: Seq<char>, i: int) -> int
    decreases chars.len() - i,
{
    if 0 <= i < chars.len() && is_white_space(chars[i]) && chars[i] != '\n' {
        skip_blanks(chars, i + 1)
    } else {
        i
    }
}

pub open spec fn min_int(a: int, b: int) -> int {
    if a <= b {
        a
    } else {
        b
    }
}

/// The line that starts at position `s` (`s < chars.len()`), as `(start, end, next)`: the line
/// shows `chars[start..end]` and the following line starts at `next`.
///
/// A line feed ends a line and is not shown. A line that reaches the end of the text or a line
/// feed drops one trailing white-space character. A line that would exceed `width` breaks after
/// its last white space (which is dropped, with the blanks that follow it), or, when it has no
/// white space past its first character, is cut at exactly `width` characters.
pub open spec fn wrap_step(chars: Seq<char>, width: int, s: int) -> (int, int, int) {
    if chars[s] == '\n' {
        (s, s, s + 1)
    } else {
        let p = line_stop(chars, s, min_int(chars.len() as int, s + width));
        if p >= chars.len() || chars[p] == '\n' {
            let end = if p > s && is_white_space(chars[p - 1]) {
                p - 1
            } else {
                p
            };
            (s, end, if p < chars.len() {
                p + 1
            } else {
                chars.len() as int
            })
        } else {
            match last_space(chars, s, p) {
                Some(sp) => if sp > s {
                    (s, sp, skip_blanks(chars, sp + 1))
                } else {
                    (s, s + width, s + width)
                },
                None => (s, s + width, s + width),
            }
        }
    }
}

pub proof fn lemma_line_stop_bounds(chars: Seq<char>, p: int, limit: int)
    requires
        p <= limit,
    ensures
        p <= line_stop(chars, p, limit) <= limit,
        forall|k: int| p <= k < line_stop(chars, p, limit) ==> chars[k] != '\n',
        line_stop(chars, p, limit) < limit ==> chars[line_stop(chars, p, limit)] == '\n',
    decreases limit - p,
{
    if p < limit && chars[p] != '\n' {
        lemma_line_stop_bounds(chars, p + 1, limit);
    }
}

pub proof fn lemma_last_space_bounds(chars: Seq<char>, from: int, to: int)
    ensures
        last_space(chars, from, to) matches Some(sp) ==> from <= sp < to && is_white_space(
            chars[sp],
        ),
    decreases to - from,
{
    if to > from && !is_white_space(chars[to - 1]) {
        lemma_last_space_bounds(chars, from, to - 1);
    }
}

pub proof fn lemma_skip_blanks(chars: Seq<char>, i: int)
    requires
        0 <= i,
    ensures
        i <= skip_blanks(chars, i),
        skip_blanks(chars, i) <= chars.len() || skip_blanks(chars, i) == i,
        all_white_space(chars, i, skip_blanks(chars, i)),
    decreases chars.len() - i,
{
    if 0 <= i < chars.len() && is_white_space(chars[i]) && chars[i] != '\n' {
        lemma_skip_blanks(chars, i + 1);
    }
}

/// The facts about one wrapping step that the rest of the library relies on.
pub proof fn lemma_wrap_step(chars: Seq<char>, width: int, s: int)
    requires
        width >= 1,
        0 <= s < chars.len(),
    ensures
        ({
            let (a, e, n) = wrap_step(chars, width, s);
            &&& a == s
            &&& s <= e <= n <= chars.len()
            &&& s < n
            &&& e - s <= width
            &&& all_white_space(chars, e, n)
        }),
{
    if chars[s] != '\n' {
        let limit = min_int(chars.len() as int, s + width);
        lemma_line_stop_bounds(chars, s, limit);
        let p = line_stop(chars, s, limit);
        if !(p >= chars.len() || chars[p] == '\n') {
            lemma_last_space_bounds(chars, s, p);
            match last_space(chars, s, p) {
                Some(sp) => {
                    if sp > s {
                        lemma_skip_blanks(chars, sp + 1);
                    }
                },
                None => {},
            }
        }
    }
}

/// The `(start, end)` spans of the lines of `chars`, from the line that starts at `s` on.
pub open spec fn wrap_lines(chars: Seq<char>, width: int, s: int) -> Seq<(int, int)>
    decreases chars.len() - s,
{
    if s < 0 || width < 1 || s >= chars.len() {
        seq![]
    } else {
        let (a, e, n) = wrap_step(chars, width, s);
        proof {
            lemma_wrap_step(chars, width, s);
        }
        seq![(a, e)] + wrap_lines(chars, width, n)
    }
}

/// The `(start, end)` spans of the lines that a chat message wraps into at `width` columns
/// (a width of zero counts as one); an empty message is one empty line.
pub open spec fn wrap_spans(chars: Seq<char>, width: int) -> Seq<(int, int)> {
    let w = if width < 1 {
        1
    } else {
        width
    };
    if chars.len() == 0 {
        seq![(0, 0)]
    } else {
        wrap_lines(chars, w, 0)
    }
}

/// The spans of a list of lines.
pub open spec fn spans_of(lines: Seq<WrappedLine>) -> Seq<(int, int)> {
    lines.map_values(|l: WrappedLine| (l.start as int, l.end as int))
}

/// The texts of the lines, one after another.
pub open spec fn joined(lines: Seq<WrappedLine>) -> Seq<char>
    decreases lines.len(),
{
    if lines.len() == 0 {
        seq![]
    } else {
        joined(lines.drop_last()) + lines.last().text@
    }
}

/// Each line shows exactly the characters of `chars` between its bounds.
pub open spec fn lines_show(lines: Seq<WrappedLine>, chars: Seq<char>) -> bool {
    forall|i: int|
        0 <= i < lines.len() ==> {
            &&& #[trigger] lines[i].start <= lines[i].end <= chars.len()
            &&& lines[i].text@ == chars.subrange(lines[i].start as int, lines[i].end as int)
        }
}

/// Position `k` lies inside one of the spans.
pub open spec fn covered(spans: Seq<(int, int)>, k: int) -> bool {
    exists|i: int| 0 <= i < spans.len() && #[trigger] spans[i].0 <= k < spans[i].1
}

/// The spans lie inside `lo..hi`, each at most `width` long, in order and without overlap,
/// and every position of `lo..hi` that no span covers holds white space.
pub open spec fn spans_tile(chars: Seq<char>, spans: Seq<(int, int)>, width: int, lo: int, hi: int) -> bool {
    &&& forall|i: int|
        0 <= i < spans.len() ==> lo <= #[trigger] spans[i].0 <= spans[i].1 <= hi && spans[i].1
            - spans[i].0 <= width
    &&& forall|i: int, j: int|
        0 <= i < j < spans.len() ==> #[trigger] spans[i].1 <= #[trigger] spans[j].0
    &&& forall|k: int| lo <= k < hi && !covered(spans, k) ==> is_white_space(#[trigger] chars[k])
}

proof fn lemma_wrap_lines_tile(chars: Seq<char>, width: int, s: int)
    requires
        width >= 1,
        0 <= s <= chars.len(),
    ensures
        spans_tile(chars, wrap_lines(chars, width, s), width, s, chars.len() as int),
        s < chars.len() ==> wrap_lines(chars, width, s).len() >= 1,
    decreases chars.len() - s,
{
    if s < chars.len() {
        let (a, e, n) = wrap_step(chars, width, s);
        lemma_wrap_step(chars, width, s);
        lemma_wrap_lines_tile(chars, width, n);
        let rest = wrap_lines(chars, width, n);
        let spans = wrap_lines(chars, width, s);
        assert(spans == seq![(a, e)] + rest);
        assert forall|i: int| 0 <= i < spans.len() implies s <= #[trigger] spans[i].0 <= spans[i].1
            <= chars.len() && spans[i].1 - spans[i].0 <= width by {
            if i > 0 {
                assert(spans[i] == rest[i - 1]);
            }
        }
        assert forall|i: int, j: int| 0 <= i < j < spans.len() implies #[trigger] spans[i].1
            <= #[trigger] spans[j].0 by {
            assert(spans[j] == rest[j - 1]);
            if i > 0 {
                assert(spans[i] == rest[i - 1]);
            } else {
                assert(n <= rest[j - 1].0);
            }
        }
        assert forall|k: int| s <= k < chars.len() && !covered(spans, k) implies is_white_space(
            #[trigger] chars[k],
        ) by {
            if k < e {
                assert(spans[0].0 <= k < spans[0].1);
            } else if k >= n {
                if covered(rest, k) {
                    let i = choose|i: int| 0 <= i < rest.len() && #[trigger] rest[i].0 <= k
                        < rest[i].1;
                    assert(spans[i + 1] == rest[i]);
                }
            }
        }
    }
}

/// Wrapping a message keeps all of its visible text: the lines lie in order inside the
/// message without overlapping, none is wider than the wrapping width, there is at least one,
/// and every character that no line shows is white space (a line feed or a blank dropped at a
/// line break).
pub proof fn law_wrapping_keeps_text(chars: Seq<char>, width: int)
    ensures
        ({
            let w = if width < 1 {
                1
            } else {
                width
            };
            &&& spans_tile(chars, wrap_spans(chars, width), w, 0, chars.len() as int)
            &&& wrap_spans(chars, width).len() >= 1
        }),
{
    let w = if width < 1 {
        1
    } else {
        width
    };
    if chars.len() > 0 {
        lemma_wrap_lines_tile(chars, w, 0);
    } else {
        let spans = wrap_spans(chars, width);
        assert(spans =~= seq![(0int, 0int)]);
    }
}

proof fn lemma_wrap_lines_are_steps(chars: Seq<char>, width: int, s: int)
    requires
        width >= 1,
        0 <= s <= chars.len(),
    ensures
        forall|i: int|
            0 <= i < wrap_lines(chars, width, s).len() ==> {
                let sp = #[trigger] wrap_lines(chars, width, s)[i];
                &&& s <= sp.0 < chars.len()
                &&& sp.1 == wrap_step(chars, width, sp.0).1
                &&& i + 1 < wrap_lines(chars, width, s).len() ==> wrap_lines(chars, width, s)[i
                    + 1].0 == wrap_step(chars, width, sp.0).2
                &&& i + 1 == wrap_lines(chars, width, s).len() ==> wrap_step(chars, width, sp.0).2
                    == chars.len()
            },
        s < chars.len() ==> wrap_lines(chars, width, s).len() > 0 && wrap_lines(chars, width, s)[0].0 == s,
    decreases chars.len() - s,
{
    if s < chars.len() {
        let (a, e, n) = wrap_step(chars, width, s);
        lemma_wrap_step(chars, width, s);
        lemma_wrap_lines_are_steps(chars, width, n);
        let rest = wrap_lines(chars, width, n);
        let spans = wrap_lines(chars, width, s);
        assert(spans == seq![(a, e)] + rest);
        assert forall|i: int| 0 <= i < spans.len() implies {
            let sp = #[trigger] spans[i];
            &&& s <= sp.0 < chars.len()
            &&& sp.1 == wrap_step(chars, width, sp.0).1
            &&& i + 1 < spans.len() ==> spans[i + 1].0 == wrap_step(chars, width, sp.0).2
            &&& i + 1 == spans.len() ==> wrap_step(chars, width, sp.0).2 == chars.len()
        } by {
            if i > 0 {
                assert(spans[i] == rest[i - 1]);
                if i + 1 < spans.len() {
                    assert(spans[i + 1] == rest[i]);
                }
            } else {
                if i + 1 < spans.len() {
                    assert(spans[1] == rest[0]);
                } else {
                    assert(rest.len() == 0);
                }
            }
        }
    }
}

proof fn lemma_line_stop_is(chars: Seq<char>, p: int, limit: int, q: int)
    requires
        p <= q <= limit,
        forall|k: int| p <= k < q ==> chars[k] != '\n',
        q == limit || chars[q] == '\n',
    ensures
        line_stop(chars, p, limit) == q,
    decreases q - p,
{
    if p < q {
        lemma_line_stop_is(chars, p + 1, limit, q);
    }
}

/// Wrapping is greedy: a line is only broken early when its text does not fit. When the
/// characters from a line's start up to the next line feed (or the end of the message) number at
/// most the width, that line runs all the way there, dropping only one trailing white-space
/// character.
pub proof fn law_wrapping_is_greedy(chars: Seq<char>, width: int, i: int, q: int)
    requires
        width >= 1,
        0 <= i < wrap_spans(chars, width).len(),
        wrap_spans(chars, width)[i].0 <= q <= chars.len(),
        q - wrap_spans(chars, width)[i].0 <= width,
        forall|k: int| wrap_spans(chars, width)[i].0 <= k < q ==> chars[k] != '\n',
        q == chars.len() || chars[q] == '\n',
    ensures
        wrap_spans(chars, width)[i].1 == if q > wrap_spans(chars, width)[i].0 && is_white_space(
            chars[q - 1],
        ) {
            q - 1
        } else {
            q
        },
        q < chars.len() && i + 1 < wrap_spans(chars, width).len() ==> wrap_spans(chars, width)[i
            + 1].0 == q + 1,
        q == chars.len() && chars.len() > 0 ==> i + 1 == wrap_spans(chars, width).len(),
{
    let spans = wrap_spans(chars, width);
    if chars.len() == 0 {
        assert(spans =~= seq![(0int, 0int)]);
    } else {
        lemma_wrap_lines_are_steps(chars, width, 0);
        let s = spans[i].0;
        assert(0 <= s < chars.len() && spans[i].1 == wrap_step(chars, width, s).1);
        if chars[s] != '\n' {
            let limit = min_int(chars.len() as int, s + width);
            lemma_line_stop_is(chars, s, limit, q);
        }
        if q == chars.len() && i + 1 < spans.len() {
            lemma_wrap_step(chars, width, s);
            lemma_wrap_lines_are_steps(chars, width, 0);
            assert(spans[i + 1].0 < chars.len());
        }
    }
}

/// A copy of `chars[start..end]`.
pub fn copy_range(chars: &[char], start: usize, end: usize) -> (v: Vec<char>)
    requires
        start <= end <= chars@.len(),
    ensures
        v@ == chars@.subrange(start as int, end as int),
{
    let mut v: Vec<char> = Vec::new();
    let mut i = start;
    while i < end
        invariant
            start <= i <= end <= chars@.len(),
            v@ == chars@.subrange(start as int, i as int),
        decreases end - i,
    {
        v.push(chars[i]);
        i = i + 1;
    }
    v
}

/// Scans from `s` for the end of the line's candidate text: returns the first line feed in
/// `s..limit` (or `limit`) and the last white space before it.
fn scan_line(chars: &[char], s: usize, limit: usize) -> (r: (usize, Option<usize>))
    requires
        s <= limit <= chars@.len(),
    ensures
        r.0 == line_stop(chars@, s as int, limit as int),
        (match r.1 {
            Some(sp) => last_space(chars@, s as int, r.0 as int) == Some(sp as int),
            None => last_space(chars@, s as int, r.0 as int) is None,
        }),
{
    let mut position = s;
    let mut last: Option<usize> = None;
    while position < limit && chars[position] != '\n'
        invariant
            s <= position <= limit <= chars@.len(),
            line_stop(chars@, s as int, limit as int) == line_stop(
                chars@,
                position as int,
                limit as int,
            ),
            (match last {
                Some(sp) => last_space(chars@, s as int, position as int) == Some(sp as int),
                None => last_space(chars@, s as int, position as int) is None,
            }),
        decreases limit - position,
    {
        if is_whitespace(chars[position]) {
            last = Some(position);
        }
        position = position + 1;
    }
    (position, last)
}

/// The first position at or after `i` that is not a blank (white space other than a line feed).
fn skip_blanks_from(chars: &[char], i: usize) -> (r: usize)
    requires
        i <= chars@.len(),
    ensures
        r == skip_blanks(chars@, i as int),
{
    let mut j = i;
    while j < chars.len() && is_whitespace(chars[j]) && chars[j] != '\n'
        invariant
            i <= j <= chars@.len(),
            skip_blanks(chars@, i as int) == skip_blanks(chars@, j as int),
        decreases chars@.len() - j,
    {
        j = j + 1;
    }
    j
}

/// One wrapping step, computed.
fn next_line(chars: &[char], width: usize, s: usize) -> (r: (usize, usize, usize))
    requires
        width >= 1,
        s < chars@.len(),
    ensures
        (r.0 as int, r.1 as int, r.2 as int) == wrap_step(chars@, width as int, s as int),
{
    if chars[s] == '\n' {
        return (s, s, s + 1);
    }
    let limit = if width < chars.len() - s {
        s + width
    } else {
        chars.len()
    };
    proof {
        lemma_line_stop_bounds(chars@, s as int, limit as int);
    }
    let (p, last) = scan_line(chars, s, limit);
    if p >= chars.len() || chars[p] == '\n' {
        let end = if p > s && is_whitespace(chars[p - 1]) {
            p - 1
        } else {
            p
        };
        let next = if p < chars.len() {
            p + 1
        } else {
            chars.len()
        };
        return (s, end, next);
    }
    proof {
        lemma_last_space_bounds(chars@, s as int, p as int);
    }
    match last {
        Some(sp) => {
            if sp > s {
                let next = skip_blanks_from(chars, sp + 1);
                (s, sp, next)
            } else {
                (s, s + width, s + width)
            }
        },
        None => (s, s + width, s + width),
    }
}

/// Wraps a chat message into display lines at most `width` characters wide (a width of zero
/// counts as one): lines break at line feeds, after the last white space that fits, or, for a
/// word longer than the width, inside the word. An empty message is one empty line.
pub fn wrap_message(message: &str, width: usize) -> (lines: Vec<WrappedLine>)
    ensures
        spans_of(lines@) == wrap_spans(message@, width as int),
        lines_show(lines@, message@),
{
    let width = if width < 1 {
        1
    } else {
        width
    };
    let chars = str_chars(message);
    let mut lines: Vec<WrappedLine> = Vec::new();
    if chars.len() == 0 {
        lines.push(WrappedLine { text: Vec::new(), start: 0, end: 0 });
        assert(spans_of(lines@) =~= seq![(0int, 0int)]);
        assert(lines@[0].text@ =~= message@.subrange(0, 0));
        return lines;
    }
    let mut line_start: usize = 0;
    while line_start < chars.len()
        invariant
            width >= 1,
            chars@ == message@,
            line_start <= chars@.len(),
            spans_of(lines@) + wrap_lines(chars@, width as int, line_start as int) == wrap_lines(
                chars@,
                width as int,
                0,
            ),
            lines_show(lines@, chars@),
        decreases chars@.len() - line_start,
    {
        let (a, e, n) = next_line(chars.as_slice(), width, line_start);
        proof {
            lemma_wrap_step(chars@, width as int, line_start as int);
        }
        let text = copy_range(chars.as_slice(), a, e);
        let ghost before = lines@;
        lines.push(WrappedLine { text, start: a, end: e });
        assert(spans_of(lines@) =~= spans_of(before) + seq![(a as int, e as int)]);
        assert(wrap_lines(chars@, width as int, line_start as int) =~= seq![(a as int, e as int)]
            + wrap_lines(chars@, width as int, n as int));
        line_start = n;
    }
    assert(spans_of(lines@) =~= wrap_lines(chars@, width as int, 0));
    lines
}

} // verus!
