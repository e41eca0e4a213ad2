# graphite_cli

The terminal input box of the Graphite shell, as a verified library.

- `src/` holds the logic, verified with Verus: editing the typed text (`input_box`,
  `input_box/editing.rs`), greedy word wrapping of chat messages (`wrap.rs`), the layout and
  scrolling of the chat history (`input_box/chat.rs`), the input region (`input_box/input_area.rs`),
  mouse selection (`input_box/mouse.rs`), the reaction to each terminal event
  (`input_box/events.rs`), what to draw where (`input_box/render.rs`), and color themes
  (`theme.rs`). The screen split calls ratatui's layout solver.
- `app/` is the program around it: it loads the theme (TOML and JSON), sets up the terminal with
  crossterm, draws with ratatui, talks to the clipboard with arboard, and runs the event loop,
  handing each event to `InputBox::handle_event`.
- `tests/` runs the library on concrete inputs.
