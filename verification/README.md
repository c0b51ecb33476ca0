# tui_kit

Building blocks for terminal user interfaces, written in Verus with their
behaviour stated in contracts and proved.

- `src/` is the verified library:
  - `input`: a single-line text input with a character cursor, and the key
    handling of search and login modals (`input::key` holds key presses as
    plain values);
  - `shortcuts`: key matching helpers and shortcut listings;
  - `ui`: text shaping (`to_single_line`, `fit_text`, `truncate_text`,
    right-aligned lines), highlighted spans, row windows, chip wrapping,
    modal sizes and the text of small widgets; display widths come from
    the `unicode-width` crate;
  - `storage`: session flags, timestamp expiry, and the commands and scripts
    of the platform secret stores.
- `app/` draws with ratatui, converts crossterm key events, and does the file,
  process, environment and clock work that the storage needs.
- `tests/` exercises the library.
