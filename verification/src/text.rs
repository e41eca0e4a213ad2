//! Character-level helpers: Unicode white space, conversions between `String` and
//! character vectors, string equality and trimming.

use vstd::prelude::*;

verus! {

/// The UTF-8 encoding of a character sequence (the bytes of a `str` holding it).
pub open spec fn utf8_bytes(s: Seq<char>) -> Seq<u8> {
    vstd::utf8::encode_utf8(s)
}

/// The characters that carry the Unicode `White_Space` property.
pub open spec fn is_white_space(c: char) -> bool {
    let u = c as u32;
    ||| 0x09 <= u <= 0x0D
    ||| u == 0x20
    ||| u == 0x85
    ||| u == 0xA0
    ||| u == 0x1680
    ||| 0x2000 <= u <= 0x200A
    ||| u == 0x2028
    ||| u == 0x2029
    ||| u == 0x202F
    ||| u == 0x205F
    ||| u == 0x3000
}

/// Whether `c` is white space in the Unicode sense (the test `char::is_whitespace` makes).
pub fn is_whitespace(c: char) -> (r: bool)
    ensures
        r == is_white_space(c),
{
    let u = c as u32;
    (0x09 <= u && u <= 0x0D) || u == 0x20 || u == 0x85 || u == 0xA0 || u == 0x1680 || (0x2000
        <= u && u <= 0x200A) || u == 0x2028 || u == 0x2029 || u == 0x202F || u == 0x205F || u
        == 0x3000
}

/// The characters of `s`, in order.
pub fn str_chars(s: &str) -> (v: Vec<char>)
    ensures
        v@ == s@,
{
    let mut v: Vec<char> = Vec::new();
    for c in it: s.chars()
        invariant
            v@ == it.seq().take(it.index() as int),
    {
        v.push(c);
    }
    v
}

/// Builds a `String` with std's `String::from_iter` over the characters; the contract claims,
/// as std documents for collecting characters into a `String`, that it holds exactly those
/// characters in order.
#[verifier::external_body]
pub(crate) fn string_from_chars(chars: &[char]) -> (s: String)
    ensures
        s@ == chars@,
{
    String::from_iter(chars.iter())
}

/// Whether two character sequences are equal.
pub fn chars_equal(a: &[char], b: &[char]) -> (r: bool)
    ensures
        r == (a@ == b@),
{
    if a.len() != b.len() {
        return false;
    }
    let mut i: usize = 0;
    while i < a.len()
        invariant
            a@.len() == b@.len(),
            i <= a@.len(),
            forall|k: int| 0 <= k < i ==> a@[k] == b@[k],
        decreases a@.len() - i,
    {
        if a[i] != b[i] {
            return false;
        }
        i = i + 1;
    }
    assert(a@ =~= b@);
    true
}

/// Whether two strings hold the same characters.
pub fn str_equals(a: &str, b: &str) -> (r: bool)
    ensures
        r == (a@ == b@),
{
    let x = str_chars(a);
    let y = str_chars(b);
    chars_equal(x.as_slice(), y.as_slice())
}

/// `s` is made of white space from index `from` (inclusive) to index `to` (exclusive).
pub open spec fn all_white_space(s: Seq<char>, from: int, to: int) -> bool {
    forall|k: int| from <= k < to ==> is_white_space(#[trigger] s[k])
}

/// The bounds `(start, end)` of `s` with its leading and trailing white space removed,
/// as `str::trim` removes them.
pub open spec fn is_trim_bounds(s: Seq<char>, start: int, end: int) -> bool {
    &&& 0 <= start <= end <= s.len()
    &&& all_white_space(s, 0, start)
    &&& all_white_space(s, end, s.len() as int)
    &&& start < end ==> !is_white_space(s[start]) && !is_white_space(s[end - 1])
    &&& start == end ==> start == s.len()
}

/// Where the text of `s` starts and ends once surrounding white space is removed.
pub fn trim_bounds(s: &[char]) -> (r: (usize, usize))
    ensures
        is_trim_bounds(s@, r.0 as int, r.1 as int),
{
    let mut start: usize = 0;
    while start < s.len() && is_whitespace(s[start])
        invariant
            start <= s@.len(),
            all_white_space(s@, 0, start as int),
        decreases s@.len() - start,
    {
        start = start + 1;
    }
    let mut end: usize = s.len();
    while end > start && is_whitespace(s[end - 1])
        invariant
            start <= end <= s@.len(),
            all_white_space(s@, end as int, s@.len() as int),
            start < s@.len() ==> !is_white_space(s@[start as int]),
        decreases end,
    {
        end = end - 1;
    }
    (start, end)
}

/// `s` with its leading and trailing white space removed (what `str::trim` returns).
pub open spec fn trimmed(s: Seq<char>) -> Seq<char> {
    let (a, b) = choose|a: int, b: int| is_trim_bounds(s, a, b);
    s.subrange(a, b)
}

/// The characters of `s` without leading and trailing white space.
pub fn trim(s: &[char]) -> (t: Vec<char>)
    ensures
        t@ == trimmed(s@),
{
    let (a, b) = trim_bounds(s);
    proof {
        assert(is_trim_bounds(s@, a as int, b as int));
        let (c, d) = choose|c: int, d: int| is_trim_bounds(s@, c, d);
        lemma_trim_bounds_unique(s@, a as int, b as int, c, d);
    }
    crate::wrap::copy_range(s, a, b)
}

/// Two bounds pairs that both trim `s` are the same pair.
pub proof fn lemma_trim_bounds_unique(s: Seq<char>, a: int, b: int, c: int, d: int)
    requires
        is_trim_bounds(s, a, b),
        is_trim_bounds(s, c, d),
    ensures
        a == c && b == d,
{
    if a < c {
        assert(is_white_space(s[a]));
    } else if c < a {
        assert(is_white_space(s[c]));
    }
    if a < b && c < d {
        if b < d {
            assert(is_white_space(s[d - 1]));
        } else if d < b {
            assert(is_white_space(s[b - 1]));
        }
    }
}

} // verus!
