# liteconfig_tui

The state machine of a terminal UI that manages agent configuration:
skills, MCP servers, rules, plugins, profiles, backups and settings.

- `src/` is the library, written in Verus. It holds the application state
  (`App`), the key and mouse bindings (`events`), the list filters, cursor
  movement, selection sets, the task log and toasts, the text shown in each
  pane and the layout of the clickable regions. Every function carries a
  contract, and the laws that tie functions together (cursor moves undo each
  other, toggling twice restores a selection, the tab order cycles, sorting
  yields an ordered permutation, the toast stack stays bounded, click regions
  stay inside their strip) are proof functions.
- `app/` is the program around it: terminal set-up, drawing with ratatui,
  input decoding with crossterm, the worker thread that runs store jobs, and
  the calls into the configuration store.
- `tests/` runs the library on concrete scenarios.
