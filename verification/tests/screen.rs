use graphite_cli::input_box::InputBox;
use graphite_cli::input_box::events::{Action, InputEvent, Key, MouseKind, event_needs_screen_size};
use graphite_cli::input_box::render::{divider_area, logo_area};
use graphite_cli::layout::Area;
use graphite_cli::selection::{Selection, char_is_selected};
use graphite_cli::theme::fallback_theme;

fn press(key: Key) -> InputEvent {
    InputEvent::Key { key, shift: false, control: false, press: true }
}

fn control(c: char) -> InputEvent {
    InputEvent::Key { key: Key::Char(c), shift: false, control: true, press: true }
}

fn mouse(kind: MouseKind, column: u16, row: u16) -> InputEvent {
    InputEvent::Mouse { kind, column, row }
}

fn text(b: &InputBox) -> String {
    b.text.clone()
}

const SCREEN: Option<(u16, u16)> = Some((80, 24));

#[test]
fn splits_the_screen() {
    let b = InputBox::new(fallback_theme());
    let (header, chat, input) = b.terminal_layout(Area::new(0, 0, 80, 24));
    assert_eq!(header, Area::new(0, 0, 80, 9));
    assert_eq!(chat, Area::new(0, 9, 80, 12));
    assert_eq!(input, Area::new(0, 21, 80, 3));
    let (header, chat, input) = b.terminal_layout(Area::new(0, 0, 40, 10));
    assert_eq!(header, Area::new(0, 0, 40, 4));
    assert_eq!(chat, Area::new(0, 4, 40, 3));
    assert_eq!(input, Area::new(0, 7, 40, 3));
}

#[test]
fn lays_out_messages() {
    let mut b = InputBox::new(fallback_theme());
    b.add_message("hi");
    b.add_message("second message");
    let chat = Area::new(0, 9, 80, 12);
    assert_eq!(b.message_width(chat), 49);
    let layouts = b.message_layouts(chat);
    assert_eq!(layouts.len(), 2);
    assert_eq!((layouts[0].top, layouts[0].height, layouts[0].x), (0, 4, 31));
    assert_eq!((layouts[0].text_top, layouts[0].text_lines, layouts[0].separator_width), (1, 1, 2));
    assert_eq!((layouts[1].top, layouts[1].separator_width), (4, 14));
    assert_eq!(b.chat_line_count(chat), 8);
    assert_eq!(b.max_chat_scroll(chat), 0);
    assert!(b.history_fits(chat));
}

#[test]
fn scrolling_the_history() {
    let mut b = InputBox::new(fallback_theme());
    for i in 0..5 {
        b.add_message(&format!("message {i}"));
    }
    let chat = Area::new(0, 9, 80, 12);
    assert_eq!(b.chat_line_count(chat), 20);
    assert_eq!(b.max_chat_scroll(chat), 8);
    assert_eq!(b.chat_scroll_offset(chat), 8);
    b.scroll_up(3, chat);
    assert_eq!(b.chat_scroll_offset(chat), 5);
    b.scroll_up(100, chat);
    assert_eq!(b.chat_scroll_offset(chat), 0);
    b.scroll_down(3);
    assert_eq!(b.chat_scroll_offset(chat), 3);
    b.scroll_to_bottom();
    assert_eq!(b.chat_scroll_offset(chat), 8);
    b.scroll_to_top(chat);
    assert_eq!(b.chat_scroll_offset(chat), 0);
    b.scroll_down(100);
    assert_eq!(b.chat_scroll_offset(chat), 8);
    b.scroll_up(2, chat);
    b.scroll_down(2);
    assert_eq!(b.chat_scroll_offset(chat), 8);
}

#[test]
fn short_history_does_not_scroll() {
    let mut b = InputBox::new(fallback_theme());
    b.add_message("only");
    let chat = Area::new(0, 9, 80, 12);
    b.scroll_up(5, chat);
    assert_eq!(b.chat_scroll_offset(chat), 0);
    assert_eq!(b.max_chat_scroll(chat), 0);
}

#[test]
fn keys_edit_and_submit() {
    let mut b = InputBox::new(fallback_theme());
    assert!(matches!(b.handle_event(press(Key::Enter), None), Action::Continue));
    for c in "hi".chars() {
        assert!(matches!(b.handle_event(press(Key::Char(c)), None), Action::Continue));
    }
    b.handle_event(press(Key::Home), None);
    assert_eq!(b.cursor(), 0);
    b.handle_event(press(Key::Delete), None);
    assert_eq!(text(&b), "i");
    b.handle_event(press(Key::End), None);
    b.handle_event(press(Key::Char('!')), None);
    let released = InputEvent::Key { key: Key::Char('x'), shift: false, control: false, press: false };
    b.handle_event(released, None);
    assert_eq!(text(&b), "i!");
    match b.handle_event(press(Key::Enter), None) {
        Action::Submit(t) => assert_eq!(t, "i!"),
        other => panic!("unexpected {other:?}"),
    }
}

#[test]
fn control_keys() {
    let mut b = InputBox::new(fallback_theme());
    assert!(matches!(b.handle_event(control('c'), None), Action::Quit));
    assert!(matches!(b.handle_event(control('v'), None), Action::Paste));
    assert!(matches!(b.handle_event(control('x'), None), Action::Continue));
    b.paste_text("abc");
    assert!(matches!(b.handle_event(control('a'), None), Action::Continue));
    match b.handle_event(control('x'), None) {
        Action::Cut(t) => assert_eq!(t, "abc"),
        other => panic!("unexpected {other:?}"),
    }
    match b.handle_event(control('c'), None) {
        Action::Copy(t) => assert_eq!(t, "abc"),
        other => panic!("unexpected {other:?}"),
    }
    assert!(matches!(b.handle_event(control('q'), None), Action::Continue));
    assert_eq!(text(&b), "abc");
    b.finish_copy();
    let shift_left = InputEvent::Key { key: Key::Left, shift: true, control: true, press: true };
    b.handle_event(shift_left, None);
    assert_eq!(b.selected_input_text().as_deref(), Some("abc"));
}

#[test]
fn which_events_need_the_screen() {
    assert!(event_needs_screen_size(&press(Key::PageUp)));
    assert!(event_needs_screen_size(&press(Key::Up)));
    assert!(!event_needs_screen_size(&press(Key::Left)));
    assert!(event_needs_screen_size(&mouse(MouseKind::ScrollUp, 0, 0)));
    assert!(!event_needs_screen_size(&InputEvent::Resize));
}

#[test]
fn page_keys_scroll_the_history() {
    let mut b = InputBox::new(fallback_theme());
    for i in 0..5 {
        b.add_message(&format!("message {i}"));
    }
    let chat = Area::new(0, 9, 80, 12);
    b.mark_drawn();
    b.handle_event(press(Key::PageUp), SCREEN);
    assert_eq!(b.chat_scroll_offset(chat), 6);
    assert!(b.needs_redraw());
    b.handle_event(press(Key::Up), SCREEN);
    assert_eq!(b.chat_scroll_offset(chat), 5);
    b.handle_event(mouse(MouseKind::ScrollUp, 0, 0), SCREEN);
    assert_eq!(b.chat_scroll_offset(chat), 4);
    b.handle_event(press(Key::PageDown), SCREEN);
    b.handle_event(press(Key::Down), SCREEN);
    b.handle_event(mouse(MouseKind::ScrollDown, 0, 0), SCREEN);
    assert_eq!(b.chat_scroll_offset(chat), 8);
}

#[test]
fn mouse_selects_input_text() {
    let mut b = InputBox::new(fallback_theme());
    b.paste_text("hello");
    b.handle_event(mouse(MouseKind::LeftDown, 5, 22), SCREEN);
    assert_eq!(b.cursor(), 2);
    b.handle_event(mouse(MouseKind::LeftDrag, 7, 22), SCREEN);
    assert_eq!(b.cursor(), 4);
    assert_eq!(b.selected_input_text().as_deref(), Some("ll"));
    b.handle_event(mouse(MouseKind::LeftUp, 7, 22), SCREEN);
    assert_eq!(b.selected_input_text().as_deref(), Some("ll"));
    b.handle_event(mouse(MouseKind::LeftDown, 79, 23), SCREEN);
    assert_eq!(b.cursor(), 5);
}

#[test]
fn mouse_selects_history_text() {
    let mut b = InputBox::new(fallback_theme());
    b.add_message("hi");
    let chat = Area::new(0, 9, 80, 12);
    assert_eq!(b.history_index_from_mouse(32, 10, chat), Some((0, 1)));
    assert_eq!(b.history_index_from_mouse(32, 9, chat), None);
    assert_eq!(b.history_index_from_mouse(32, 8, chat), None);
    assert_eq!(b.history_index_from_mouse(0, 10, chat), Some((0, 0)));
    b.handle_event(mouse(MouseKind::LeftDown, 32, 10), SCREEN);
    b.handle_event(mouse(MouseKind::LeftDrag, 40, 10), SCREEN);
    assert_eq!(b.selected_history_text().as_deref(), Some("i"));
    match b.handle_event(control('c'), None) {
        Action::Copy(t) => assert_eq!(t, "i"),
        other => panic!("unexpected {other:?}"),
    }
    b.finish_copy();
    assert_eq!(b.selected_history_text(), None);
}

#[test]
fn releasing_an_empty_history_selection_drops_it() {
    let mut b = InputBox::new(fallback_theme());
    b.add_message("hi");
    b.handle_event(mouse(MouseKind::LeftDown, 32, 10), SCREEN);
    assert_eq!(b.selected_history_text().as_deref(), Some(""));
    b.handle_event(mouse(MouseKind::LeftUp, 32, 10), SCREEN);
    assert_eq!(b.selected_history_text(), None);
}

#[test]
fn input_plan_shows_lines_and_cursor() {
    let mut b = InputBox::new(fallback_theme());
    let input = Area::new(0, 21, 80, 3);
    let plan = b.input_plan(input);
    assert!(plan.placeholder);
    assert_eq!(plan.lines.len(), 1);
    assert_eq!((plan.cursor_x, plan.cursor_y), (3, 22));
    b.paste_text("abc");
    let plan = b.input_plan(input);
    assert!(!plan.placeholder);
    assert_eq!((plan.cursor_x, plan.cursor_y), (6, 22));
    // Eight lines of five characters: the last five are shown.
    let narrow = Area::new(0, 0, 10, 7);
    let mut b = InputBox::new(fallback_theme());
    b.paste_text(&"x".repeat(40));
    let plan = b.input_plan(narrow);
    assert_eq!(plan.lines.len(), 5);
    assert_eq!(plan.lines[0].start, 15);
    assert_eq!((plan.cursor_x, plan.cursor_y), (3, 6));
}

#[test]
fn message_plan_clips_to_the_chat_region() {
    let mut b = InputBox::new(fallback_theme());
    for i in 0..5 {
        b.add_message(&format!("message {i}"));
    }
    let chat = Area::new(0, 9, 80, 12);
    let layouts = b.message_layouts(chat);
    // Following the bottom, the history is scrolled by 8 rows: the first box is gone, the
    // third starts at row 9 + 8 - 8 = 9.
    assert!(b.message_plan(chat, layouts[0]).is_none());
    let plan = b.message_plan(chat, layouts[2]).unwrap();
    let header = plan.frame.header.unwrap();
    assert_eq!((header.x, header.y, header.width), (31, 9, 49));
    let (first, last, text) = plan.frame.text.unwrap();
    assert_eq!((first, last, text.y, text.height), (0, 1, 10, 1));
    let separator = plan.frame.separator.unwrap();
    assert_eq!((separator.x, separator.y, separator.width), (71, 11, 9));
    // The second box ends where the region starts.
    assert!(b.message_plan(chat, layouts[1]).is_none());
    // Scrolled up one row, only the second box's blank last row shows.
    b.scroll_up(1, chat);
    let plan = b.message_plan(chat, layouts[1]).unwrap();
    assert!(plan.frame.header.is_none());
    assert!(plan.frame.text.is_none());
    assert!(plan.frame.separator.is_none());
}

#[test]
fn input_lines_match_the_wrapped_input() {
    let area = Area::new(0, 0, 12, 10);
    for n in 0..30 {
        let mut b = InputBox::new(fallback_theme());
        b.paste_text(&"y".repeat(n));
        let lines = b.wrapped_input(area);
        assert_eq!(lines.len(), b.input_lines(area));
        let joined: String = lines.iter().flat_map(|l| l.text.iter()).collect();
        assert_eq!(joined, "y".repeat(n));
    }
}

#[test]
fn the_cursor_line_stays_shown() {
    let area = Area::new(0, 0, 10, 7);
    let mut b = InputBox::new(fallback_theme());
    b.paste_text(&"z".repeat(42));
    for position in [0, 3, 12, 27, 41, 42] {
        b.move_cursor(position, false);
        let scroll = b.input_scroll_offset(area);
        let line = position / 5;
        assert!(scroll <= line && line < scroll + 5);
    }
    b.move_cursor(2, false);
    assert_eq!(b.input_scroll_offset(area), 0);
    b.move_cursor(41, false);
    assert_eq!(b.input_scroll_offset(area), 4);
}

#[test]
fn logo_and_divider_areas() {
    let header = Area::new(0, 0, 80, 9);
    assert_eq!(logo_area(header, 6), Some(Area::new(0, 0, 80, 6)));
    assert_eq!(logo_area(Area::new(0, 0, 80, 4), 6), Some(Area::new(0, 0, 80, 4)));
    assert_eq!(logo_area(header, 0), None);
    assert_eq!(divider_area(header), Area::new(0, 8, 80, 1));
}

#[test]
fn a_history_too_tall_to_count_overflows() {
    let mut b = InputBox::new(fallback_theme());
    let chat = Area::new(0, 9, 80, 12);
    for _ in 0..16384 {
        b.add_message("m");
    }
    // The last box starts at row 65532: still countable.
    assert!(b.history_fits(chat));
    assert_eq!(b.chat_line_count(chat), u16::MAX);
    b.add_message("m");
    assert!(!b.history_fits(chat));
    assert!(matches!(b.handle_event(press(Key::PageUp), SCREEN), Action::HistoryOverflow));
    assert!(matches!(b.handle_event(press(Key::PageDown), SCREEN), Action::Continue));
    assert!(matches!(
        b.handle_event(mouse(MouseKind::LeftDown, 5, 10), SCREEN),
        Action::HistoryOverflow
    ));
    assert!(matches!(b.handle_event(mouse(MouseKind::LeftDown, 5, 22), SCREEN), Action::Continue));
}

#[test]
fn selected_characters() {
    let s = Selection::new(5, 2);
    assert!(!char_is_selected(Some(s), 1));
    assert!(char_is_selected(Some(s), 2));
    assert!(char_is_selected(Some(s), 4));
    assert!(!char_is_selected(Some(s), 5));
    assert!(!char_is_selected(None, 3));
}
