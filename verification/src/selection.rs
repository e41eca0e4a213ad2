//! Selections of text: a range of character positions, and the anchor a mouse drag started from.

use vstd::prelude::*;

verus! {

/// A range `start..end` of character positions, with `start <= end`.
#[derive(Debug, Clone, Copy, PartialEq, Eq, Structural)]
pub struct Selection {
    pub start: usize,
    pub end: usize,
}

/// The selection between positions `a` and `b`, whichever comes first.
pub open spec fn selection_between(a: usize, b: usize) -> Selection {
    if a <= b {
        Selection { start: a, end: b }
    } else {
        Selection { start: b, end: a }
    }
}

impl Selection {
    /// The selection between two positions, in either order.
    pub fn new(a: usize, b: usize) -> (s: Selection)
        ensures
            s == selection_between(a, b),
            s.start <= s.end,
    {
        if a <= b {
            Selection { start: a, end: b }
        } else {
            Selection { start: b, end: a }
        }
    }

    /// Whether the selection covers no character.
    pub fn is_empty(self) -> (r: bool)
        ensures
            r == (self.start == self.end),
    {
        self.start == self.end
    }

    /// Whether position `index` lies inside the selection.
    pub fn contains(self, index: usize) -> (r: bool)
        ensures
            r == (self.start <= index && index < self.end),
    {
        self.start <= index && index < self.end
    }
}

/// Whether the character at position `index` is inside `selection`, if there is one (it is then
/// drawn in the selection colors).
pub fn char_is_selected(selection: Option<Selection>, index: usize) -> (r: bool)
    ensures
        r == (selection matches Some(s) && s.start <= index < s.end),
{
    match selection {
        Some(s) => s.contains(index),
        None => false,
    }
}

/// What a drag with the left mouse button is selecting: input text from an anchor position,
/// or the text of one history message from an anchor position in it.
#[derive(Debug, Clone, Copy, PartialEq, Eq, Structural)]
pub enum MouseSelection {
    Input { anchor: usize },
    History { message_index: usize, anchor: usize },
}

} // verus!
