# zellij_tab_config

A terminal editor for Zellij themes: browse the elements of a simulated
Zellij screen, edit their colours, save themes as KDL files and select a
theme in Zellij's `config.kdl`.

The library under `src/` is written in Verus and verified:

- `theme` — colours, theme components and the default theme; hex text.
- `kdl_tree` — parsed KDL documents copied into plain values.
- `config` — reading a theme from KDL (component blocks or a colour
  palette), writing a theme as KDL, theme file paths and the `config.kdl`
  edit that applying a theme makes.
- `update` — version tags, the release asset for a platform, and whether a
  release is newer.
- `ui::state`, `ui::events` — editor state and key bindings (with the
  theme-name prompt that applies after naming).
- `ui::editor`, `ui::keys` — the editor the program runs: the picker edits
  an attribute of its own and an apply waits for a name.
- `ui::color_picker` — the picker's modes, focus order, text entry and the
  layout and hit-testing of its controls.
- `ui::loader` — which saved themes the loader lists for a filter and a
  search.
- `ui::screen` — what the simulated Zellij screen shows: the text and
  colours of the tab bar, the highlighted pane and the status bar, how the
  selected element is lightened, where the picker overlay goes (away from
  the element being edited) and the overlay's text.
- `ui::search` — finding a preview element by typing part of its name.

Key handling never touches the disk: it returns the file operation to
perform, and `app/` performs it and hands the outcome back. `app/` also
draws the library's pieces of the screen with `ratatui`, reads keys with `crossterm`, keeps the
floating-point HSL/HSV readings of the picker, and talks to GitHub for
self-updates.

`extras/contrast_threshold.py` compares the integer luminance test of
`contrast_text` with the same test in single precision.
