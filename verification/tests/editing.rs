use graphite_cli::input_box::InputBox;
use graphite_cli::layout::Area;
use graphite_cli::theme::fallback_theme;

fn boxed(text: &str) -> InputBox {
    let mut b = InputBox::new(fallback_theme());
    for c in text.chars() {
        b.insert_character(c);
    }
    b
}

fn text(b: &InputBox) -> String {
    b.text.clone()
}

#[test]
fn starts_empty() {
    let b = InputBox::new(fallback_theme());
    assert!(b.text.is_empty());
    assert_eq!(b.cursor(), 0);
    assert_eq!(b.message_count(), 0);
    assert!(b.needs_redraw());
}

#[test]
fn typing_inserts_at_the_cursor() {
    let mut b = boxed("héllo");
    assert_eq!(text(&b), "héllo");
    assert_eq!(b.cursor(), 5);
    b.move_cursor(1, false);
    b.insert_character('X');
    assert_eq!(text(&b), "hXéllo");
    assert_eq!(b.cursor(), 2);
}

#[test]
fn backspace_undoes_typing() {
    let mut b = boxed("abc");
    b.move_cursor(1, false);
    b.insert_character('z');
    b.backspace();
    assert_eq!(text(&b), "abc");
    assert_eq!(b.cursor(), 1);
}

#[test]
fn backspace_and_delete_at_the_edges() {
    let mut b = boxed("ab");
    b.delete();
    assert_eq!(text(&b), "ab");
    b.move_cursor(0, false);
    b.backspace();
    assert_eq!(text(&b), "ab");
    b.delete();
    assert_eq!(text(&b), "b");
    assert_eq!(b.cursor(), 0);
}

#[test]
fn selecting_and_replacing() {
    let mut b = boxed("hello world");
    b.move_cursor(0, false);
    b.move_cursor(5, true);
    assert_eq!(b.selected_input_text().as_deref(), Some("hello"));
    let selection = b.input_selection().unwrap();
    assert_eq!((selection.start, selection.end), (0, 5));
    b.insert_character('J');
    assert_eq!(text(&b), "J world");
    assert_eq!(b.cursor(), 1);
    assert!(b.input_selection().is_none());
}

#[test]
fn selection_backwards_is_ordered() {
    let mut b = boxed("hello");
    b.move_cursor(1, true);
    let selection = b.input_selection().unwrap();
    assert_eq!((selection.start, selection.end), (1, 5));
    b.backspace();
    assert_eq!(text(&b), "h");
    assert_eq!(b.cursor(), 1);
}

#[test]
fn selection_anchor_past_the_text_is_cut_short() {
    let mut b = boxed("ab");
    b.move_cursor(2, true);
    b.backspace();
    assert_eq!(text(&b), "a");
    b.move_cursor_left(true);
    assert_eq!(b.selected_input_text().as_deref(), Some("a"));
    assert!(b.delete_selected_input());
    assert_eq!(text(&b), "");
    assert_eq!(b.cursor(), 0);
}

#[test]
fn word_moves() {
    let mut b = boxed("foo  bar baz");
    b.move_word_left(false);
    assert_eq!(b.cursor(), 9);
    b.move_word_left(false);
    assert_eq!(b.cursor(), 5);
    b.move_word_left(true);
    assert_eq!(b.cursor(), 0);
    assert_eq!(b.selected_input_text().as_deref(), Some("foo  "));
    b.move_word_right(false);
    assert_eq!(b.cursor(), 3);
    b.move_word_right(false);
    assert_eq!(b.cursor(), 8);
    b.move_word_right(false);
    b.move_word_right(false);
    assert_eq!(b.cursor(), 12);
}

#[test]
fn arrow_moves_stop_at_the_ends() {
    let mut b = boxed("ab");
    b.move_cursor_right(false);
    assert_eq!(b.cursor(), 2);
    b.move_cursor_left(false);
    b.move_cursor_left(false);
    b.move_cursor_left(false);
    assert_eq!(b.cursor(), 0);
    b.move_cursor(99, false);
    assert_eq!(b.cursor(), 2);
}

#[test]
fn select_all_then_type_replaces_everything() {
    let mut b = boxed("some text");
    b.select_all_input();
    assert_eq!(b.selected_input_text().as_deref(), Some("some text"));
    b.insert_character('x');
    assert_eq!(text(&b), "x");
}

#[test]
fn pasting_inserts_text() {
    let mut b = boxed("ad");
    b.move_cursor(1, false);
    b.paste_text("bc");
    assert_eq!(text(&b), "abcd");
    assert_eq!(b.cursor(), 3);
    b.paste_text("");
    assert_eq!(text(&b), "abcd");
    b.select_all_input();
    b.paste_text("é");
    assert_eq!(text(&b), "é");
}

#[test]
fn cut_then_paste_restores_the_text() {
    let mut b = boxed("hello world");
    b.move_cursor(6, false);
    b.move_cursor(11, true);
    let cut = b.text_to_copy().unwrap();
    assert_eq!(cut, "world");
    assert!(b.finish_cut());
    assert_eq!(text(&b), "hello ");
    b.paste_text(&cut);
    assert_eq!(text(&b), "hello world");
    assert!(!b.finish_cut());
}

#[test]
fn copy_clears_selections() {
    let mut b = boxed("abc");
    b.select_all_input();
    assert_eq!(b.text_to_copy().as_deref(), Some("abc"));
    b.finish_copy();
    assert!(b.input_selection().is_none());
    assert_eq!(b.text_to_copy(), None);
}

#[test]
fn vertical_moves_keep_the_column() {
    // A 10-column region wraps at 5 characters.
    let area = Area::new(0, 0, 10, 10);
    let mut b = boxed("abcdefghijkl");
    assert_eq!(b.input_lines(area), 3);
    b.move_cursor(7, false);
    b.move_cursor_vertical(-1, area, false);
    assert_eq!(b.cursor(), 2);
    b.move_cursor_vertical(-1, area, false);
    assert_eq!(b.cursor(), 2);
    b.move_cursor(4, false);
    b.move_cursor_vertical(1, area, false);
    assert_eq!(b.cursor(), 9);
    b.move_cursor_vertical(1, area, false);
    assert_eq!(b.cursor(), 12);
}

#[test]
fn submitting_adds_trimmed_text() {
    let mut b = boxed("typed");
    assert!(b.submit("  hi there \n"));
    assert_eq!(b.messages(), &vec!["hi there".to_string()]);
    assert!(b.text.is_empty());
    assert_eq!(b.cursor(), 0);
    assert!(b.submit("   "));
    assert_eq!(b.message_count(), 1);
    assert!(!b.submit(" /exit "));
    assert!(!b.submit("/quit"));
    assert_eq!(b.message_count(), 1);
    assert!(b.submit("/exits"));
    assert_eq!(b.message_count(), 2);
}
