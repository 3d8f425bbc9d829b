# hookey

An execution layer over the `ropey` text rope: a typed buffer, a persistent
cursor, primitive editor operations and high-level actions, with contracts
proved by Verus.

- `src/domain.rs`: typed character indices, ranges, line indices and counts.
- `src/lines.rs`: the mathematical model of a text's lines (Unicode line
  breaks, CRLF counted once) and its laws.
- `src/buffer.rs`: the buffer over `ropey::Rope`; the rope's methods enter
  through trusted specifications at the top of the file.
- `src/decimal.rs`: decimal notation for the error messages.
- `src/cursor.rs`: the cursor and its movements.
- `src/editor.rs`: operations, the abstract editor state, and the laws of
  applying operations and actions.
- `src/actions.rs`: high-level actions and their expansion into operations.
- `app/`: the terminal playground (crossterm, ratatui) and the editor with a
  post-action hook, which holds a user closure.
