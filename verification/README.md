# linutil_state

The navigation and key-handling state of the Linutil terminal interface,
verified with Verus.

- `src/node.rs`: commands, nodes, listed entries and tabs, with their
  mathematical values.
- `src/app_state.rs`: the state, its model `AppView`, its well-formedness,
  `AppState::new`.
- `src/misc.rs`: the selected row, entering and leaving directories, marking
  commands, opening the floating windows; each operation is stated as a
  function on `AppView`.
- `src/keybindings.rs`: `AppState::handle_key` and the answers of the search
  bar, floating windows and confirmation that it hands keys to.
- `src/hints.rs`: the shortcut hints of each focused part.
- `src/ui.rs`: the size check and the rows of the command list.
- `src/laws.rs`: properties across operations, proved.
- `src/external.rs`: the declared outside types and the trusted wrappers.
- `app/`: terminal key conversion, the loop that carries out the state's
  requests, and drawing with `ratatui`.
