# tabterm

The logic of a terminal emulator with tabs, verified with Verus.

- `src/` is the library. It decides what keys, the mouse, window events and the output of child
  processes do, and keeps the tabs, the search and the state of the input. It works on snapshots of
  the terminal and the window, and returns lists of instructions.
- `tests/` run the library on concrete values.
- `app/` carries the instructions out: the event loop of `glutin`, child processes, the clipboard
  and files.

Trusted are the contracts of `String::push` (`src/text.rs`) and of two functions of the `pad` crate
(`src/padding.rs`), which name the columns that `pad` counts for a text `display_columns`.
