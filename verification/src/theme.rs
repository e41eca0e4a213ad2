//! Color themes: the palette of named colors, the usages that pick a palette entry, parsing
//! of `#rrggbb` color text, and the escape sequences that set the terminal background.

use vstd::prelude::*;
use crate::text::str_equals;

verus! {

/// A terminal color: the terminal's default, or a 24-bit RGB color.
#[derive(Debug, Clone, Copy, PartialEq, Eq, Structural)]
pub enum ThemeColor {
    Reset,
    Rgb(u8, u8, u8),
}

/// The palette of a theme: `#rrggbb` text for each named color.
pub struct ThemeColors {
    pub background: String,
    pub background_alt: String,
    pub background_highlight: String,
    pub foreground: String,
    pub foreground_alt: String,
    pub muted: String,
    pub black: String,
    pub red: String,
    pub orange: String,
    pub yellow: String,
    pub green: String,
    pub cyan: String,
    pub blue: String,
    pub purple: String,
    pub magenta: String,
    pub white: String,
    pub bright_black: String,
    pub bright_red: String,
    pub bright_orange: String,
    pub bright_yellow: String,
    pub bright_green: String,
    pub bright_cyan: String,
    pub bright_blue: String,
    pub bright_purple: String,
    pub bright_magenta: String,
    pub bright_white: String,
}

/// Which palette entry each part of the interface uses.
pub struct ThemeUsage {
    pub background: String,
    pub foreground: String,
    pub logo: String,
    pub you: String,
    pub input: String,
    pub prompt: String,
    pub placeholder: String,
    pub cursor: String,
    pub separator: String,
    pub border: String,
    pub selection_background: String,
    pub selection_foreground: String,
    pub success: String,
    pub warning: String,
    pub error: String,
    pub info: String,
    pub muted: String,
}

/// A color theme.
pub struct Theme {
    pub name: String,
    pub colors: ThemeColors,
    pub usage: ThemeUsage,
}

/// The palette entry called `name`, if the palette has one.
pub open spec fn palette_entry(colors: &ThemeColors, name: Seq<char>) -> Option<Seq<char>> {
    if name == "background"@ {
        Some(colors.background@)
    } else if name == "background_alt"@ {
        Some(colors.background_alt@)
    } else if name == "background_highlight"@ {
        Some(colors.background_highlight@)
    } else if name == "foreground"@ {
        Some(colors.foreground@)
    } else if name == "foreground_alt"@ {
        Some(colors.foreground_alt@)
    } else if name == "muted"@ {
        Some(colors.muted@)
    } else if name == "black"@ {
        Some(colors.black@)
    } else if name == "red"@ {
        Some(colors.red@)
    } else if name == "orange"@ {
        Some(colors.orange@)
    } else if name == "yellow"@ {
        Some(colors.yellow@)
    } else if name == "green"@ {
        Some(colors.green@)
    } else if name == "cyan"@ {
        Some(colors.cyan@)
    } else if name == "blue"@ {
        Some(colors.blue@)
    } else if name == "purple"@ {
        Some(colors.purple@)
    } else if name == "magenta"@ {
        Some(colors.magenta@)
    } else if name == "white"@ {
        Some(colors.white@)
    } else if name == "bright_black"@ {
        Some(colors.bright_black@)
    } else if name == "bright_red"@ {
        Some(colors.bright_red@)
    } else if name == "bright_orange"@ {
        Some(colors.bright_orange@)
    } else if name == "bright_yellow"@ {
        Some(colors.bright_yellow@)
    } else if name == "bright_green"@ {
        Some(colors.bright_green@)
    } else if name == "bright_cyan"@ {
        Some(colors.bright_cyan@)
    } else if name == "bright_blue"@ {
        Some(colors.bright_blue@)
    } else if name == "bright_purple"@ {
        Some(colors.bright_purple@)
    } else if name == "bright_magenta"@ {
        Some(colors.bright_magenta@)
    } else if name == "bright_white"@ {
        Some(colors.bright_white@)
    } else {
        None
    }
}

/// The palette entry name that a usage refers to, if `usage` is a known usage.
pub open spec fn usage_entry(usage_table: &ThemeUsage, usage: Seq<char>) -> Option<Seq<char>> {
    if usage == "background"@ {
        Some(usage_table.background@)
    } else if usage == "foreground"@ {
        Some(usage_table.foreground@)
    } else if usage == "logo"@ {
        Some(usage_table.logo@)
    } else if usage == "you"@ {
        Some(usage_table.you@)
    } else if usage == "input"@ {
        Some(usage_table.input@)
    } else if usage == "prompt"@ {
        Some(usage_table.prompt@)
    } else if usage == "placeholder"@ {
        Some(usage_table.placeholder@)
    } else if usage == "cursor"@ {
        Some(usage_table.cursor@)
    } else if usage == "separator"@ {
        Some(usage_table.separator@)
    } else if usage == "border"@ {
        Some(usage_table.border@)
    } else if usage == "selection_background"@ {
        Some(usage_table.selection_background@)
    } else if usage == "selection_foreground"@ {
        Some(usage_table.selection_foreground@)
    } else if usage == "success"@ {
        Some(usage_table.success@)
    } else if usage == "warning"@ {
        Some(usage_table.warning@)
    } else if usage == "error"@ {
        Some(usage_table.error@)
    } else if usage == "info"@ {
        Some(usage_table.info@)
    } else if usage == "muted"@ {
        Some(usage_table.muted@)
    } else {
        None
    }
}

/// A byte that continues a multi-byte UTF-8 character rather than starting one.
pub open spec fn is_continuation(b: u8) -> bool {
    0x80 <= b < 0xC0
}

/// The number of `#` bytes at the start of `bytes`.
pub open spec fn hash_prefix(bytes: Seq<u8>) -> int
    decreases bytes.len(),
{
    if bytes.len() > 0 && bytes[0] == 0x23 {
        1 + hash_prefix(bytes.drop_first())
    } else {
        0
    }
}

/// Color text on which `parse_color` is defined: once leading `#`s are removed, text of six
/// bytes must split into three two-byte pieces at character boundaries.
pub open spec fn color_text_splits(bytes: Seq<u8>) -> bool {
    let rest = bytes.skip(hash_prefix(bytes));
    rest.len() == 6 ==> !is_continuation(rest[2]) && !is_continuation(rest[4])
}

/// The value of a hexadecimal digit byte, if it is one.
pub open spec fn hex_digit(b: u8) -> Option<u8> {
    if 0x30 <= b <= 0x39 {
        Some((b - 0x30) as u8)
    } else if 0x61 <= b <= 0x66 {
        Some((b - 0x61 + 10) as u8)
    } else if 0x41 <= b <= 0x46 {
        Some((b - 0x41 + 10) as u8)
    } else {
        None
    }
}

/// What `u8::from_str_radix(_, 16)` gives for a two-byte string: two hexadecimal digits, or a
/// `+` sign followed by one.
pub open spec fn hex_pair(b0: u8, b1: u8) -> Option<u8> {
    if b0 == 0x2B {
        hex_digit(b1)
    } else {
        match (hex_digit(b0), hex_digit(b1)) {
            (Some(h), Some(l)) => Some((16 * h + l) as u8),
            _ => None,
        }
    }
}

/// The color that color text stands for: after any leading `#`s, six bytes that form three
/// hexadecimal pairs give that RGB color; anything else gives the terminal's default color.
pub open spec fn color_of_text(bytes: Seq<u8>) -> ThemeColor {
    let rest = bytes.skip(hash_prefix(bytes));
    if rest.len() != 6 {
        ThemeColor::Reset
    } else {
        match (hex_pair(rest[0], rest[1]), hex_pair(rest[2], rest[3]), hex_pair(rest[4], rest[5])) {
            (Some(r), Some(g), Some(b)) => ThemeColor::Rgb(r, g, b),
            _ => ThemeColor::Reset,
        }
    }
}

fn hex_digit_value(b: u8) -> (r: Option<u8>)
    ensures
        r == hex_digit(b),
{
    if 0x30 <= b && b <= 0x39 {
        Some(b - 0x30)
    } else if 0x61 <= b && b <= 0x66 {
        Some(b - 0x61 + 10)
    } else if 0x41 <= b && b <= 0x46 {
        Some(b - 0x41 + 10)
    } else {
        None
    }
}

fn parse_hex_pair(b0: u8, b1: u8) -> (r: Option<u8>)
    ensures
        r == hex_pair(b0, b1),
{
    if b0 == 0x2B {
        hex_digit_value(b1)
    } else {
        match (hex_digit_value(b0), hex_digit_value(b1)) {
            (Some(h), Some(l)) => Some(16 * h + l),
            _ => None,
        }
    }
}

proof fn lemma_hash_prefix_bounds(bytes: Seq<u8>)
    ensures
        0 <= hash_prefix(bytes) <= bytes.len(),
    decreases bytes.len(),
{
    if bytes.len() > 0 && bytes[0] == 0x23 {
        lemma_hash_prefix_bounds(bytes.drop_first());
    }
}

/// Parses color text: any leading `#`s, then six hexadecimal digits `rrggbb` (each pair may
/// instead be `+` and one digit, as `u8::from_str_radix` accepts). Anything else is the
/// terminal's default color.
pub fn parse_color(value: &str) -> (c: ThemeColor)
    requires
        color_text_splits(crate::text::utf8_bytes(value@)),
    ensures
        c == color_of_text(crate::text::utf8_bytes(value@)),
{
    let bytes = value.as_bytes();
    let ghost b = bytes@;
    assert(b == crate::text::utf8_bytes(value@));
    let mut i: usize = 0;
    assert(b.skip(0) =~= b);
    while i < bytes.len() && bytes[i] == 0x23
        invariant
            b == bytes@,
            i <= b.len(),
            hash_prefix(b) == i + hash_prefix(b.skip(i as int)),
        decreases b.len() - i,
    {
        assert(b.skip(i as int).drop_first() =~= b.skip(i + 1));
        i = i + 1;
    }
    assert(hash_prefix(b) == i);
    if bytes.len() - i != 6 {
        return ThemeColor::Reset;
    }
    let ghost rest = b.skip(i as int);
    assert(rest[0] == bytes[i as int] && rest[1] == bytes[i + 1] && rest[2] == bytes[i + 2]);
    assert(rest[3] == bytes[i + 3] && rest[4] == bytes[i + 4] && rest[5] == bytes[i + 5]);
    let red = parse_hex_pair(bytes[i], bytes[i + 1]);
    let green = parse_hex_pair(bytes[i + 2], bytes[i + 3]);
    let blue = parse_hex_pair(bytes[i + 4], bytes[i + 5]);
    match (red, green, blue) {
        (Some(r), Some(g), Some(b)) => ThemeColor::Rgb(r, g, b),
        _ => ThemeColor::Reset,
    }
}

/// ASCII color text always splits at character boundaries.
pub proof fn lemma_ascii_color_text_splits(s: Seq<char>)
    requires
        vstd::utf8::is_ascii_chars(s),
    ensures
        color_text_splits(crate::text::utf8_bytes(s)),
{
    let b = crate::text::utf8_bytes(s);
    vstd::utf8::is_ascii_chars_encode_utf8(s);
    lemma_hash_prefix_bounds(b);
    let h = hash_prefix(b);
    let rest = b.skip(h);
    if rest.len() == 6 {
        assert(rest[2] == b[h + 2] && b[h + 2] == s[h + 2] as u8);
        assert(rest[4] == b[h + 4] && b[h + 4] == s[h + 4] as u8);
    }
}

proof fn lemma_ascii_palette(colors: &ThemeColors)
    requires
        vstd::utf8::is_ascii_chars(colors.background@),
        vstd::utf8::is_ascii_chars(colors.background_alt@),
        vstd::utf8::is_ascii_chars(colors.background_highlight@),
        vstd::utf8::is_ascii_chars(colors.foreground@),
        vstd::utf8::is_ascii_chars(colors.foreground_alt@),
        vstd::utf8::is_ascii_chars(colors.muted@),
        vstd::utf8::is_ascii_chars(colors.black@),
        vstd::utf8::is_ascii_chars(colors.red@),
        vstd::utf8::is_ascii_chars(colors.orange@),
        vstd::utf8::is_ascii_chars(colors.yellow@),
        vstd::utf8::is_ascii_chars(colors.green@),
        vstd::utf8::is_ascii_chars(colors.cyan@),
        vstd::utf8::is_ascii_chars(colors.blue@),
        vstd::utf8::is_ascii_chars(colors.purple@),
        vstd::utf8::is_ascii_chars(colors.magenta@),
        vstd::utf8::is_ascii_chars(colors.white@),
        vstd::utf8::is_ascii_chars(colors.bright_black@),
        vstd::utf8::is_ascii_chars(colors.bright_red@),
        vstd::utf8::is_ascii_chars(colors.bright_orange@),
        vstd::utf8::is_ascii_chars(colors.bright_yellow@),
        vstd::utf8::is_ascii_chars(colors.bright_green@),
        vstd::utf8::is_ascii_chars(colors.bright_cyan@),
        vstd::utf8::is_ascii_chars(colors.bright_blue@),
        vstd::utf8::is_ascii_chars(colors.bright_purple@),
        vstd::utf8::is_ascii_chars(colors.bright_magenta@),
        vstd::utf8::is_ascii_chars(colors.bright_white@),
    ensures
        colors.wf(),
{
    reveal(ThemeColors::wf);
    lemma_ascii_color_text_splits(colors.background@);
    lemma_ascii_color_text_splits(colors.background_alt@);
    lemma_ascii_color_text_splits(colors.background_highlight@);
    lemma_ascii_color_text_splits(colors.foreground@);
    lemma_ascii_color_text_splits(colors.foreground_alt@);
    lemma_ascii_color_text_splits(colors.muted@);
    lemma_ascii_color_text_splits(colors.black@);
    lemma_ascii_color_text_splits(colors.red@);
    lemma_ascii_color_text_splits(colors.orange@);
    lemma_ascii_color_text_splits(colors.yellow@);
    lemma_ascii_color_text_splits(colors.green@);
    lemma_ascii_color_text_splits(colors.cyan@);
    lemma_ascii_color_text_splits(colors.blue@);
    lemma_ascii_color_text_splits(colors.purple@);
    lemma_ascii_color_text_splits(colors.magenta@);
    lemma_ascii_color_text_splits(colors.white@);
    lemma_ascii_color_text_splits(colors.bright_black@);
    lemma_ascii_color_text_splits(colors.bright_red@);
    lemma_ascii_color_text_splits(colors.bright_orange@);
    lemma_ascii_color_text_splits(colors.bright_yellow@);
    lemma_ascii_color_text_splits(colors.bright_green@);
    lemma_ascii_color_text_splits(colors.bright_cyan@);
    lemma_ascii_color_text_splits(colors.bright_blue@);
    lemma_ascii_color_text_splits(colors.bright_purple@);
    lemma_ascii_color_text_splits(colors.bright_magenta@);
    lemma_ascii_color_text_splits(colors.bright_white@);
}

/// The color a palette entry name stands for in a palette.
pub open spec fn palette_color(colors: &ThemeColors, name: Seq<char>) -> ThemeColor {
    match palette_entry(colors, name) {
        Some(text) => color_of_text(crate::text::utf8_bytes(text)),
        None => ThemeColor::Reset,
    }
}

impl ThemeColors {
    /// Every palette entry is color text that `parse_color` is defined on.
    #[verifier::opaque]
    pub open spec fn wf(&self) -> bool {
        &&& color_text_splits(crate::text::utf8_bytes(self.background@))
        &&& color_text_splits(crate::text::utf8_bytes(self.background_alt@))
        &&& color_text_splits(crate::text::utf8_bytes(self.background_highlight@))
        &&& color_text_splits(crate::text::utf8_bytes(self.foreground@))
        &&& color_text_splits(crate::text::utf8_bytes(self.foreground_alt@))
        &&& color_text_splits(crate::text::utf8_bytes(self.muted@))
        &&& color_text_splits(crate::text::utf8_bytes(self.black@))
        &&& color_text_splits(crate::text::utf8_bytes(self.red@))
        &&& color_text_splits(crate::text::utf8_bytes(self.orange@))
        &&& color_text_splits(crate::text::utf8_bytes(self.yellow@))
        &&& color_text_splits(crate::text::utf8_bytes(self.green@))
        &&& color_text_splits(crate::text::utf8_bytes(self.cyan@))
        &&& color_text_splits(crate::text::utf8_bytes(self.blue@))
        &&& color_text_splits(crate::text::utf8_bytes(self.purple@))
        &&& color_text_splits(crate::text::utf8_bytes(self.magenta@))
        &&& color_text_splits(crate::text::utf8_bytes(self.white@))
        &&& color_text_splits(crate::text::utf8_bytes(self.bright_black@))
        &&& color_text_splits(crate::text::utf8_bytes(self.bright_red@))
        &&& color_text_splits(crate::text::utf8_bytes(self.bright_orange@))
        &&& color_text_splits(crate::text::utf8_bytes(self.bright_yellow@))
        &&& color_text_splits(crate::text::utf8_bytes(self.bright_green@))
        &&& color_text_splits(crate::text::utf8_bytes(self.bright_cyan@))
        &&& color_text_splits(crate::text::utf8_bytes(self.bright_blue@))
        &&& color_text_splits(crate::text::utf8_bytes(self.bright_purple@))
        &&& color_text_splits(crate::text::utf8_bytes(self.bright_magenta@))
        &&& color_text_splits(crate::text::utf8_bytes(self.bright_white@))
    }
}

/// Whether color text splits as `parse_color` needs it to.
pub fn color_text_can_split(value: &str) -> (r: bool)
    ensures
        r == color_text_splits(crate::text::utf8_bytes(value@)),
{
    let bytes = value.as_bytes();
    let ghost b = bytes@;
    let mut i: usize = 0;
    assert(b.skip(0) =~= b);
    while i < bytes.len() && bytes[i] == 0x23
        invariant
            b == bytes@,
            i <= b.len(),
            hash_prefix(b) == i + hash_prefix(b.skip(i as int)),
        decreases b.len() - i,
    {
        assert(b.skip(i as int).drop_first() =~= b.skip(i + 1));
        i = i + 1;
    }
    if bytes.len() - i != 6 {
        return true;
    }
    let ghost rest = b.skip(i as int);
    assert(rest[2] == bytes[i + 2] && rest[4] == bytes[i + 4]);
    !(0x80 <= bytes[i + 2] && bytes[i + 2] < 0xC0) && !(0x80 <= bytes[i + 4] && bytes[i + 4] < 0xC0)
}

impl Theme {
    /// Every palette entry is color text that `parse_color` is defined on.
    pub open spec fn wf(&self) -> bool {
        self.colors.wf()
    }

    /// The palette entry `name` names color text that `parse_color` is defined on, if it names one.
    pub open spec fn color_defined(&self, name: Seq<char>) -> bool {
        palette_entry(&self.colors, name) matches Some(t) ==> color_text_splits(
            crate::text::utf8_bytes(t),
        )
    }

    /// The palette entry that `usage` refers to holds color text that `parse_color` is defined on,
    /// if there is such an entry.
    pub open spec fn usage_color_defined(&self, usage: Seq<char>) -> bool {
        usage_entry(&self.usage, usage) matches Some(name) ==> self.color_defined(name)
    }

    /// The text of the palette entry called `name`.
    pub fn palette_text(&self, name: &str) -> (t: Option<&String>)
        ensures
            (match palette_entry(&self.colors, name@) {
                Some(v) => t matches Some(s) && s@ == v,
                None => t is None,
            }),
    {
        if str_equals(name, "background") {
            return Some(&self.colors.background);
        } else if str_equals(name, "background_alt") {
            return Some(&self.colors.background_alt);
        } else if str_equals(name, "background_highlight") {
            return Some(&self.colors.background_highlight);
        } else if str_equals(name, "foreground") {
            return Some(&self.colors.foreground);
        } else if str_equals(name, "foreground_alt") {
            return Some(&self.colors.foreground_alt);
        } else if str_equals(name, "muted") {
            return Some(&self.colors.muted);
        } else if str_equals(name, "black") {
            return Some(&self.colors.black);
        } else if str_equals(name, "red") {
            return Some(&self.colors.red);
        } else if str_equals(name, "orange") {
            return Some(&self.colors.orange);
        } else if str_equals(name, "yellow") {
            return Some(&self.colors.yellow);
        } else if str_equals(name, "green") {
            return Some(&self.colors.green);
        } else if str_equals(name, "cyan") {
            return Some(&self.colors.cyan);
        } else if str_equals(name, "blue") {
            return Some(&self.colors.blue);
        } else if str_equals(name, "purple") {
            return Some(&self.colors.purple);
        } else if str_equals(name, "magenta") {
            return Some(&self.colors.magenta);
        } else if str_equals(name, "white") {
            return Some(&self.colors.white);
        } else if str_equals(name, "bright_black") {
            return Some(&self.colors.bright_black);
        } else if str_equals(name, "bright_red") {
            return Some(&self.colors.bright_red);
        } else if str_equals(name, "bright_orange") {
            return Some(&self.colors.bright_orange);
        } else if str_equals(name, "bright_yellow") {
            return Some(&self.colors.bright_yellow);
        } else if str_equals(name, "bright_green") {
            return Some(&self.colors.bright_green);
        } else if str_equals(name, "bright_cyan") {
            return Some(&self.colors.bright_cyan);
        } else if str_equals(name, "bright_blue") {
            return Some(&self.colors.bright_blue);
        } else if str_equals(name, "bright_purple") {
            return Some(&self.colors.bright_purple);
        } else if str_equals(name, "bright_magenta") {
            return Some(&self.colors.bright_magenta);
        } else if str_equals(name, "bright_white") {
            return Some(&self.colors.bright_white);
        } else {
            None
        }
    }

    /// The palette entry name that `usage` refers to.
    pub fn usage_name(&self, usage: &str) -> (t: Option<&String>)
        ensures
            (match usage_entry(&self.usage, usage@) {
                Some(v) => t matches Some(s) && s@ == v,
                None => t is None,
            }),
    {
        if str_equals(usage, "background") {
            return Some(&self.usage.background);
        } else if str_equals(usage, "foreground") {
            return Some(&self.usage.foreground);
        } else if str_equals(usage, "logo") {
            return Some(&self.usage.logo);
        } else if str_equals(usage, "you") {
            return Some(&self.usage.you);
        } else if str_equals(usage, "input") {
            return Some(&self.usage.input);
        } else if str_equals(usage, "prompt") {
            return Some(&self.usage.prompt);
        } else if str_equals(usage, "placeholder") {
            return Some(&self.usage.placeholder);
        } else if str_equals(usage, "cursor") {
            return Some(&self.usage.cursor);
        } else if str_equals(usage, "separator") {
            return Some(&self.usage.separator);
        } else if str_equals(usage, "border") {
            return Some(&self.usage.border);
        } else if str_equals(usage, "selection_background") {
            return Some(&self.usage.selection_background);
        } else if str_equals(usage, "selection_foreground") {
            return Some(&self.usage.selection_foreground);
        } else if str_equals(usage, "success") {
            return Some(&self.usage.success);
        } else if str_equals(usage, "warning") {
            return Some(&self.usage.warning);
        } else if str_equals(usage, "error") {
            return Some(&self.usage.error);
        } else if str_equals(usage, "info") {
            return Some(&self.usage.info);
        } else if str_equals(usage, "muted") {
            return Some(&self.usage.muted);
        } else {
            None
        }
    }

    /// The color of the palette entry called `name` (the terminal's default color when the
    /// palette has no such entry).
    pub fn color(&self, name: &str) -> (c: ThemeColor)
        requires
            self.color_defined(name@),
        ensures
            c == palette_color(&self.colors, name@),
    {
        match self.palette_text(name) {
            Some(value) => parse_color(value.as_str()),
            None => ThemeColor::Reset,
        }
    }

    /// The color that the interface part `usage` is drawn in: the palette entry its usage names
    /// (the terminal's default color when `usage` is unknown).
    pub fn usage_color(&self, usage: &str) -> (c: ThemeColor)
        requires
            self.usage_color_defined(usage@),
        ensures
            c == (match usage_entry(&self.usage, usage@) {
                Some(name) => palette_color(&self.colors, name),
                None => ThemeColor::Reset,
            }),
    {
        match self.usage_name(usage) {
            Some(name) => self.color(name.as_str()),
            None => ThemeColor::Reset,
        }
    }

    /// Whether `usage_color(usage)` is defined: its palette entry's text, if any, splits as
    /// `parse_color` needs it to.
    pub fn usage_color_is_defined(&self, usage: &str) -> (r: bool)
        ensures
            r == self.usage_color_defined(usage@),
    {
        match self.usage_name(usage) {
            Some(name) => match self.palette_text(name.as_str()) {
                Some(value) => color_text_can_split(value.as_str()),
                None => true,
            },
            None => true,
        }
    }
}

/// A theme whose every palette entry parses (the fallback theme is one) gives a color for every
/// name and every usage.
pub proof fn law_well_formed_theme_gives_every_color(theme: &Theme, name: Seq<char>)
    requires
        theme.wf(),
    ensures
        theme.color_defined(name),
        theme.usage_color_defined(name),
{
    reveal(ThemeColors::wf);
}

/// The lower-case hexadecimal digit for `n < 16`.
pub open spec fn hex_char(n: u8) -> u8 {
    if n < 10 {
        (0x30 + n) as u8
    } else {
        (0x61 + n - 10) as u8
    }
}

/// A byte as two lower-case hexadecimal digits.
pub open spec fn hex_byte(v: u8) -> Seq<u8> {
    seq![hex_char(v / 16), hex_char(v % 16)]
}

/// The OSC 11 escape sequence `ESC ] 11;rgb:rr/gg/bb BEL` that sets the terminal's background
/// color.
pub open spec fn background_sequence(r: u8, g: u8, b: u8) -> Seq<u8> {
    seq![0x1Bu8, 0x5D, 0x31, 0x31, 0x3B, 0x72, 0x67, 0x62, 0x3A] + hex_byte(r) + seq![0x2Fu8]
        + hex_byte(g) + seq![0x2Fu8] + hex_byte(b) + seq![0x07u8]
}

fn push_hex_byte(out: &mut Vec<u8>, v: u8)
    ensures
        final(out)@ == old(out)@ + hex_byte(v),
{
    let high = v / 16;
    let low = v % 16;
    out.push(if high < 10 {
        0x30 + high
    } else {
        0x61 + high - 10
    });
    out.push(if low < 10 {
        0x30 + low
    } else {
        0x61 + low - 10
    });
}

/// The bytes that set the terminal's background to `color`; none for the default color,
/// which leaves the background as it is.
pub fn terminal_background_sequence(color: ThemeColor) -> (seq: Option<Vec<u8>>)
    ensures
        (match color {
            ThemeColor::Reset => seq is None,
            ThemeColor::Rgb(r, g, b) => seq matches Some(v) && v@ == background_sequence(r, g, b),
        }),
{
    match color {
        ThemeColor::Reset => None,
        ThemeColor::Rgb(r, g, b) => {
            let mut out: Vec<u8> = Vec::new();
            out.push(0x1B);
            out.push(0x5D);
            out.push(0x31);
            out.push(0x31);
            out.push(0x3B);
            out.push(0x72);
            out.push(0x67);
            out.push(0x62);
            out.push(0x3A);
            push_hex_byte(&mut out, r);
            out.push(0x2F);
            push_hex_byte(&mut out, g);
            out.push(0x2F);
            push_hex_byte(&mut out, b);
            out.push(0x07);
            assert(out@ =~= background_sequence(r, g, b));
            Some(out)
        },
    }
}

/// The OSC 111 escape sequence `ESC ] 111 BEL` that restores the terminal's own background.
pub fn reset_background_sequence() -> (seq: Vec<u8>)
    ensures
        seq@ == seq![0x1Bu8, 0x5D, 0x31, 0x31, 0x31, 0x07],
{
    let mut out: Vec<u8> = Vec::new();
    out.push(0x1B);
    out.push(0x5D);
    out.push(0x31);
    out.push(0x31);
    out.push(0x31);
    out.push(0x07);
    assert(out@ =~= seq![0x1Bu8, 0x5D, 0x31, 0x31, 0x31, 0x07]);
    out
}

/// The theme used when the configured one cannot be loaded: black and white with red accents.
pub fn fallback_theme() -> (t: Theme)
    ensures
        t.wf(),
        t.name@ == "fallback"@,
        t.colors.background@ == "#000000"@,
        t.colors.background_alt@ == "#000000"@,
        t.colors.background_highlight@ == "#444444"@,
        t.colors.foreground@ == "#FFFFFF"@,
        t.colors.foreground_alt@ == "#CCCCCC"@,
        t.colors.muted@ == "#666666"@,
        t.colors.black@ == "#000000"@,
        t.colors.red@ == "#FF0000"@,
        t.colors.orange@ == "#FF8800"@,
        t.colors.yellow@ == "#FFFF00"@,
        t.colors.green@ == "#00FF00"@,
        t.colors.cyan@ == "#00FFFF"@,
        t.colors.blue@ == "#0000FF"@,
        t.colors.purple@ == "#8800FF"@,
        t.colors.magenta@ == "#FF00FF"@,
        t.colors.white@ == "#FFFFFF"@,
        t.colors.bright_black@ == "#666666"@,
        t.colors.bright_red@ == "#FF0000"@,
        t.colors.bright_orange@ == "#FF8800"@,
        t.colors.bright_yellow@ == "#FFFF00"@,
        t.colors.bright_green@ == "#00FF00"@,
        t.colors.bright_cyan@ == "#00FFFF"@,
        t.colors.bright_blue@ == "#0000FF"@,
        t.colors.bright_purple@ == "#8800FF"@,
        t.colors.bright_magenta@ == "#FF00FF"@,
        t.colors.bright_white@ == "#FFFFFF"@,
        t.usage.background@ == "background"@,
        t.usage.foreground@ == "foreground"@,
        t.usage.logo@ == "red"@,
        t.usage.you@ == "red"@,
        t.usage.input@ == "foreground"@,
        t.usage.prompt@ == "red"@,
        t.usage.placeholder@ == "muted"@,
        t.usage.cursor@ == "foreground"@,
        t.usage.separator@ == "background_highlight"@,
        t.usage.border@ == "background_highlight"@,
        t.usage.selection_background@ == "background_highlight"@,
        t.usage.selection_foreground@ == "foreground"@,
        t.usage.success@ == "green"@,
        t.usage.warning@ == "yellow"@,
        t.usage.error@ == "red"@,
        t.usage.info@ == "cyan"@,
        t.usage.muted@ == "muted"@,
{
    let t = Theme {
        name: "fallback".to_owned(),
        colors: ThemeColors {
            background: "#000000".to_owned(),
            background_alt: "#000000".to_owned(),
            background_highlight: "#444444".to_owned(),
            foreground: "#FFFFFF".to_owned(),
            foreground_alt: "#CCCCCC".to_owned(),
            muted: "#666666".to_owned(),
            black: "#000000".to_owned(),
            red: "#FF0000".to_owned(),
            orange: "#FF8800".to_owned(),
            yellow: "#FFFF00".to_owned(),
            green: "#00FF00".to_owned(),
            cyan: "#00FFFF".to_owned(),
            blue: "#0000FF".to_owned(),
            purple: "#8800FF".to_owned(),
            magenta: "#FF00FF".to_owned(),
            white: "#FFFFFF".to_owned(),
            bright_black: "#666666".to_owned(),
            bright_red: "#FF0000".to_owned(),
            bright_orange: "#FF8800".to_owned(),
            bright_yellow: "#FFFF00".to_owned(),
            bright_green: "#00FF00".to_owned(),
            bright_cyan: "#00FFFF".to_owned(),
            bright_blue: "#0000FF".to_owned(),
            bright_purple: "#8800FF".to_owned(),
            bright_magenta: "#FF00FF".to_owned(),
            bright_white: "#FFFFFF".to_owned(),
        },
        usage: ThemeUsage {
            background: "background".to_owned(),
            foreground: "foreground".to_owned(),
            logo: "red".to_owned(),
            you: "red".to_owned(),
            input: "foreground".to_owned(),
            prompt: "red".to_owned(),
            placeholder: "muted".to_owned(),
            cursor: "foreground".to_owned(),
            separator: "background_highlight".to_owned(),
            border: "background_highlight".to_owned(),
            selection_background: "background_highlight".to_owned(),
            selection_foreground: "foreground".to_owned(),
            success: "green".to_owned(),
            warning: "yellow".to_owned(),
            error: "red".to_owned(),
            info: "cyan".to_owned(),
            muted: "muted".to_owned(),
        },
    };
    proof {
        reveal_strlit("#000000");
        reveal_strlit("#444444");
        reveal_strlit("#FFFFFF");
        reveal_strlit("#CCCCCC");
        reveal_strlit("#666666");
        reveal_strlit("#FF0000");
        reveal_strlit("#FF8800");
        reveal_strlit("#FFFF00");
        reveal_strlit("#00FF00");
        reveal_strlit("#00FFFF");
        reveal_strlit("#0000FF");
        reveal_strlit("#8800FF");
        reveal_strlit("#FF00FF");
    }
    proof {
        lemma_ascii_palette(&t.colors);
    }
    t
}

} // verus!
