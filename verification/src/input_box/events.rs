//! Reacting to terminal events: each key press or mouse event changes the input box and tells
//! the caller what to do next (keep reading, return the typed text, quit, or use the clipboard).

use vstd::prelude::*;
use crate::input_box::{InputBox, InputView};
use crate::input_box::chat::history_fits;
use crate::input_box::input_area::{input_position, input_scroll, line_count, wrap_width};
use crate::input_box::mouse::in_rows;
use crate::layout::{Area, header_height, input_height, vertical_parts};
use crate::selection::MouseSelection;
use crate::text::string_from_chars;

verus! {

/// A key of the keyboard, as far as the input box tells keys apart.
#[derive(Debug, Clone, Copy, PartialEq, Eq, Structural)]
pub enum Key {
    Enter,
    Char(char),
    Left,
    Right,
    Home,
    End,
    Backspace,
    Delete,
    PageUp,
    PageDown,
    Up,
    Down,
    Other,
}

/// A mouse action, as far as the input box tells them apart.
#[derive(Debug, Clone, Copy, PartialEq, Eq, Structural)]
pub enum MouseKind {
    ScrollUp,
    ScrollDown,
    LeftDown,
    LeftDrag,
    LeftUp,
    Other,
}

/// A terminal event.
#[derive(Debug, Clone, Copy, PartialEq, Eq, Structural)]
pub enum InputEvent {
    /// A key event: `press` is false for repeats and releases, which are ignored.
    Key { key: Key, shift: bool, control: bool, press: bool },
    Mouse { kind: MouseKind, column: u16, row: u16 },
    Resize,
    Other,
}

/// What the caller does after an event.
#[derive(Debug)]
pub enum Action {
    /// Keep reading events.
    Continue,
    /// Stop reading and return this typed text.
    Submit(String),
    /// Stop reading with nothing typed (Control+C with nothing selected).
    Quit,
    /// Put this text on the clipboard, then call `finish_copy`.
    Copy(String),
    /// Put this text on the clipboard, then call `finish_cut`.
    Cut(String),
    /// Read the clipboard and pass its text to `paste_text`.
    Paste,
    /// The history is too tall for its rows to be counted in a `u16`: laying it out would
    /// overflow, so the event cannot be handled.
    HistoryOverflow,
}

/// An `Action` as the contracts speak of it.
pub enum Outcome {
    Continue,
    Submit(Seq<char>),
    Quit,
    Copy(Seq<char>),
    Cut(Seq<char>),
    Paste,
    HistoryOverflow,
}

/// The outcome an action stands for.
pub open spec fn outcome_of(a: Action) -> Outcome {
    match a {
        Action::Continue => Outcome::Continue,
        Action::Submit(s) => Outcome::Submit(s@),
        Action::Quit => Outcome::Quit,
        Action::Copy(s) => Outcome::Copy(s@),
        Action::Cut(s) => Outcome::Cut(s@),
        Action::Paste => Outcome::Paste,
        Action::HistoryOverflow => Outcome::HistoryOverflow,
    }
}

/// Whether handling `event` needs the size of the screen: the keys that scroll or move between
/// input lines, and every mouse event.
pub open spec fn event_needs_screen(event: InputEvent) -> bool {
    match event {
        InputEvent::Key { key, press, .. } => press && (key is PageUp || key is PageDown
            || key is Up || key is Down),
        InputEvent::Mouse { .. } => true,
        _ => false,
    }
}

/// The whole screen of a terminal `size` cells large.
pub open spec fn screen_area(size: (u16, u16)) -> Area {
    Area { x: 0, y: 0, width: size.0, height: size.1 }
}

/// The header, chat and input regions of `screen` for state `v`.
pub open spec fn screen_parts(v: InputView, screen: Area) -> (Area, Area, Area) {
    vertical_parts(
        screen,
        header_height(screen.height),
        input_height(screen.height, line_count(v.text.len() as int, wrap_width(screen.width))),
    )
}

/// The text position under a click at `(column, row)` in the input region `input`.
pub open spec fn click_position(v: InputView, column: u16, row: u16, input: Area) -> int {
    let w = wrap_width(input.width);
    input_position(
        column,
        row,
        input,
        input_scroll(line_count(v.text.len() as int, w), v.cursor, w),
        w,
        v.text.len() as int,
    )
}

/// Scrolling the history up by `amount` in `chat`, or an overflow when the history cannot be
/// laid out there.
pub open spec fn scroll_up_step(v: InputView, amount: int, chat: Area) -> (InputView, Outcome) {
    if history_fits(v.messages, chat.width) {
        (v.scrolled_up(amount, v.max_scroll(chat)), Outcome::Continue)
    } else {
        (v, Outcome::HistoryOverflow)
    }
}

/// The effect of a key press.
pub open spec fn key_step(v: InputView, key: Key, shift: bool, control: bool, screen: Area) -> (
    InputView,
    Outcome,
) {
    match key {
        Key::Enter => if v.text.len() > 0 {
            (v, Outcome::Submit(v.text))
        } else {
            (v, Outcome::Continue)
        },
        Key::Char(c) => if control {
            if c == 'c' {
                match v.selection() {
                    Some((a, b)) => (
                        v,
                        Outcome::Copy(v.text.subrange(a, crate::input_box::min(b, v.text.len() as int))),
                    ),
                    None => match v.history_text() {
                        Some(h) => (v, Outcome::Copy(h)),
                        None => (v, Outcome::Quit),
                    },
                }
            } else if c == 'x' {
                match v.selection() {
                    Some((a, b)) => (
                        v,
                        Outcome::Cut(v.text.subrange(a, crate::input_box::min(b, v.text.len() as int))),
                    ),
                    None => (v, Outcome::Continue),
                }
            } else if c == 'v' {
                (v, Outcome::Paste)
            } else if c == 'a' {
                (v.after_select_all(), Outcome::Continue)
            } else {
                (v, Outcome::Continue)
            }
        } else {
            (v.after_insert(c), Outcome::Continue)
        },
        Key::Left => if control {
            (v.after_word_left(shift), Outcome::Continue)
        } else {
            (v.after_left(shift), Outcome::Continue)
        },
        Key::Right => if control {
            (v.after_word_right(shift), Outcome::Continue)
        } else {
            (v.after_right(shift), Outcome::Continue)
        },
        Key::Home => (v.moved(0, shift), Outcome::Continue),
        Key::End => (v.moved(v.text.len() as int, shift), Outcome::Continue),
        Key::Backspace => (v.after_backspace(), Outcome::Continue),
        Key::Delete => (v.after_delete(), Outcome::Continue),
        Key::PageUp => scroll_up_step(v, 2, screen_parts(v, screen).1),
        Key::PageDown => (v.scrolled_down(2), Outcome::Continue),
        Key::Up => if line_count(v.text.len() as int, wrap_width(screen.width)) > 1 {
            (
                v.moved(
                    crate::input_box::input_area::vertical_target(
                        v.cursor,
                        true,
                        wrap_width(screen.width),
                        v.text.len() as int,
                    ),
                    shift,
                ),
                Outcome::Continue,
            )
        } else {
            scroll_up_step(v, 1, screen_parts(v, screen).1)
        },
        Key::Down => if line_count(v.text.len() as int, wrap_width(screen.width)) > 1 {
            (
                v.moved(
                    crate::input_box::input_area::vertical_target(
                        v.cursor,
                        false,
                        wrap_width(screen.width),
                        v.text.len() as int,
                    ),
                    shift,
                ),
                Outcome::Continue,
            )
        } else {
            (v.scrolled_down(1), Outcome::Continue)
        },
        Key::Other => (v, Outcome::Continue),
    }
}

impl InputView {
    /// The state after releasing the left button: the drag ends, and a history selection that
    /// covers nothing is dropped when no typed text is selected either.
    pub open spec fn after_mouse_up(self) -> InputView {
        let ended = InputView { mouse_selection: None, ..self };
        let history_empty = match self.history_selection {
            Some((_, s)) => s.start == s.end,
            None => true,
        };
        if self.selection() is None && history_empty {
            InputView { history_selection: None, dirty: true, ..ended }
        } else {
            ended
        }
    }
}

/// The effect of a mouse event at `(column, row)`.
pub open spec fn mouse_step(v: InputView, kind: MouseKind, column: u16, row: u16, screen: Area) -> (
    InputView,
    Outcome,
) {
    let parts = screen_parts(v, screen);
    let chat = parts.1;
    let input = parts.2;
    match kind {
        MouseKind::ScrollUp => scroll_up_step(v, 1, chat),
        MouseKind::ScrollDown => (v.scrolled_down(1), Outcome::Continue),
        MouseKind::LeftDown => if !in_rows(row, input) && in_rows(row, chat) && !history_fits(
            v.messages,
            chat.width,
        ) {
            (v, Outcome::HistoryOverflow)
        } else {
            (
                v.after_mouse_down(column, row, chat, input, click_position(v, column, row, input)),
                Outcome::Continue,
            )
        },
        MouseKind::LeftDrag => if v.mouse_selection matches Some(MouseSelection::History { .. })
            && in_rows(row, chat) && !history_fits(v.messages, chat.width) {
            (v, Outcome::HistoryOverflow)
        } else {
            (
                v.after_mouse_drag(column, row, chat, input, click_position(v, column, row, input)),
                Outcome::Continue,
            )
        },
        MouseKind::LeftUp => (v.after_mouse_up(), Outcome::Continue),
        MouseKind::Other => (v, Outcome::Continue),
    }
}

/// The effect of `event` on state `v` when the screen is `screen`.
pub open spec fn event_step(v: InputView, event: InputEvent, screen: Area) -> (InputView, Outcome) {
    match event {
        InputEvent::Key { key, shift, control, press } => if press {
            key_step(v, key, shift, control, screen)
        } else {
            (v, Outcome::Continue)
        },
        InputEvent::Mouse { kind, column, row } => mouse_step(v, kind, column, row, screen),
        InputEvent::Resize => (InputView { dirty: true, ..v }, Outcome::Continue),
        InputEvent::Other => (v, Outcome::Continue),
    }
}

/// Shift makes every cursor key select: pressed with Shift from a state with no selection
/// anchor, a cursor key moves the cursor exactly as it does without Shift, changes nothing else
/// but the anchor, and, when the cursor moved, anchors a selection at the old cursor, so the
/// selection runs from the old cursor to the new one. Without Shift the key leaves no anchor.
/// In particular Shift+Right before the end of the text selects the character after the cursor.
pub proof fn law_shift_selects_with_cursor_keys(
    v: InputView,
    key: Key,
    control: bool,
    screen: Area,
)
    requires
        v.wf(),
        v.anchor is None,
        key is Left || key is Right || key is Home || key is End || ((key is Up || key is Down)
            && line_count(v.text.len() as int, wrap_width(screen.width)) > 1),
    ensures
        ({
            let a = event_step(
                v,
                InputEvent::Key { key, shift: true, control, press: true },
                screen,
            ).0;
            let b = event_step(
                v,
                InputEvent::Key { key, shift: false, control, press: true },
                screen,
            ).0;
            &&& b.anchor is None
            &&& a == InputView { anchor: a.anchor, ..b }
            &&& a.text == v.text
            &&& a.messages == v.messages
            &&& a.cursor != v.cursor ==> a.anchor == Some(v.cursor)
            &&& a.cursor == v.cursor ==> a.selection() is None
            &&& a.cursor != v.cursor ==> a.selection() == Some(
                (
                    crate::input_box::min(v.cursor, a.cursor),
                    crate::input_box::max(v.cursor, a.cursor),
                ),
            )
            &&& key is Right && !control && v.cursor < v.text.len() ==> a.cursor == v.cursor + 1
                && a.selection() == Some((v.cursor, v.cursor + 1))
        }),
{
}

/// Whether handling `event` needs the size of the screen.
pub fn event_needs_screen_size(event: &InputEvent) -> (r: bool)
    ensures
        r == event_needs_screen(*event),
{
    match event {
        InputEvent::Key { key, press, .. } => *press && match key {
            Key::PageUp | Key::PageDown | Key::Up | Key::Down => true,
            _ => false,
        },
        InputEvent::Mouse { .. } => true,
        _ => false,
    }
}

impl InputBox {
    fn scroll_up_checked(&mut self, amount: u16, chat_area: Area) -> (a: Action)
        requires
            old(self).wf(),
        ensures
            final(self).wf(),
            final(self).theme_spec() == old(self).theme_spec(),
            (final(self)@, outcome_of(a)) == scroll_up_step(old(self)@, amount as int, chat_area),
    {
        if self.history_fits(chat_area) {
            self.scroll_up(amount, chat_area);
            Action::Continue
        } else {
            Action::HistoryOverflow
        }
    }

    fn handle_key(&mut self, key: Key, shift: bool, control: bool, screen: Area) -> (a: Action)
        requires
            old(self).wf(),
            screen.x == 0,
            screen.y == 0,
        ensures
            final(self).wf(),
            final(self).theme_spec() == old(self).theme_spec(),
            (final(self)@, outcome_of(a)) == key_step(old(self)@, key, shift, control, screen),
    {
        match key {
            Key::Enter => {
                if self.text_len() > 0 {
                    Action::Submit(self.text.clone())
                } else {
                    Action::Continue
                }
            },
            Key::Char(c) => {
                if control {
                    if c == 'c' {
                        match self.text_to_copy() {
                            Some(text) => Action::Copy(text),
                            None => Action::Quit,
                        }
                    } else if c == 'x' {
                        match self.selected_input_text() {
                            Some(text) => Action::Cut(text),
                            None => Action::Continue,
                        }
                    } else if c == 'v' {
                        Action::Paste
                    } else if c == 'a' {
                        self.select_all_input();
                        Action::Continue
                    } else {
                        Action::Continue
                    }
                } else {
                    self.insert_character(c);
                    Action::Continue
                }
            },
            Key::Left => {
                if control {
                    self.move_word_left(shift);
                } else {
                    self.move_cursor_left(shift);
                }
                Action::Continue
            },
            Key::Right => {
                if control {
                    self.move_word_right(shift);
                } else {
                    self.move_cursor_right(shift);
                }
                Action::Continue
            },
            Key::Home => {
                self.move_cursor(0, shift);
                Action::Continue
            },
            Key::End => {
                let end = self.text_len();
                self.move_cursor(end, shift);
                Action::Continue
            },
            Key::Backspace => {
                self.backspace();
                Action::Continue
            },
            Key::Delete => {
                self.delete();
                Action::Continue
            },
            Key::PageUp => {
                let (_, chat, _) = self.terminal_layout(screen);
                self.scroll_up_checked(2, chat)
            },
            Key::PageDown => {
                self.scroll_down(2);
                Action::Continue
            },
            Key::Up => {
                if self.input_lines(screen) > 1 {
                    self.move_cursor_vertical(-1, screen, shift);
                    Action::Continue
                } else {
                    let (_, chat, _) = self.terminal_layout(screen);
                    self.scroll_up_checked(1, chat)
                }
            },
            Key::Down => {
                if self.input_lines(screen) > 1 {
                    self.move_cursor_vertical(1, screen, shift);
                } else {
                    self.scroll_down(1);
                }
                Action::Continue
            },
            Key::Other => Action::Continue,
        }
    }

    fn handle_mouse(&mut self, kind: MouseKind, column: u16, row: u16, screen: Area) -> (a: Action)
        requires
            old(self).wf(),
            screen.x == 0,
            screen.y == 0,
        ensures
            final(self).wf(),
            final(self).theme_spec() == old(self).theme_spec(),
            (final(self)@, outcome_of(a)) == mouse_step(old(self)@, kind, column, row, screen),
    {
        let (_, chat, input) = self.terminal_layout(screen);
        match kind {
            MouseKind::ScrollUp => self.scroll_up_checked(1, chat),
            MouseKind::ScrollDown => {
                self.scroll_down(1);
                Action::Continue
            },
            MouseKind::LeftDown => {
                let in_input = row >= input.y && row < input.y.saturating_add(input.height);
                let in_chat = row >= chat.y && row < chat.y.saturating_add(chat.height);
                if !in_input && in_chat && !self.history_fits(chat) {
                    return Action::HistoryOverflow;
                }
                self.begin_mouse_selection(column, row, chat, input);
                Action::Continue
            },
            MouseKind::LeftDrag => {
                let dragging_history = match self.mouse_selection {
                    Some(MouseSelection::History { .. }) => true,
                    _ => false,
                };
                let in_chat = row >= chat.y && row < chat.y.saturating_add(chat.height);
                if dragging_history && in_chat && !self.history_fits(chat) {
                    return Action::HistoryOverflow;
                }
                self.update_mouse_selection(column, row, chat, input);
                Action::Continue
            },
            MouseKind::LeftUp => {
                self.mouse_selection = None;
                let empty_input_selection = self.input_selection().is_none();
                let empty_history_selection = match self.history_selection {
                    Some((_, selection)) => selection.is_empty(),
                    None => true,
                };
                if empty_input_selection && empty_history_selection {
                    self.history_selection = None;
                    self.dirty = true;
                }
                Action::Continue
            },
            MouseKind::Other => Action::Continue,
        }
    }

    /// Handles one terminal event and says what to do next. `screen_size` is the terminal's
    /// size in columns and rows; it is needed (and only read) for the events
    /// `event_needs_screen_size` names.
    pub fn handle_event(&mut self, event: InputEvent, screen_size: Option<(u16, u16)>) -> (a: Action)
        requires
            old(self).wf(),
            event_needs_screen(event) ==> screen_size is Some,
        ensures
            final(self).wf(),
            final(self).theme_spec() == old(self).theme_spec(),
            (final(self)@, outcome_of(a)) == event_step(
                old(self)@,
                event,
                screen_area(
                    match screen_size {
                        Some(s) => s,
                        None => (0, 0),
                    },
                ),
            ),
    {
        let size = match screen_size {
            Some(s) => s,
            None => (0, 0),
        };
        let screen = Area::new(0, 0, size.0, size.1);
        match event {
            InputEvent::Key { key, shift, control, press } => {
                if !press {
                    return Action::Continue;
                }
                self.handle_key(key, shift, control, screen)
            },
            InputEvent::Mouse { kind, column, row } => self.handle_mouse(kind, column, row, screen),
            InputEvent::Resize => {
                self.dirty = true;
                Action::Continue
            },
            InputEvent::Other => Action::Continue,
        }
    }
}

} // verus!
