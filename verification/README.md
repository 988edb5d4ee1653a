# grin_gui

The decision logic of the Grin wallet and node GUI, written in Verus: what
each screen does with a message, the texts it builds, and the rules behind
the transaction list, stated as contracts and proved.

Layout:

- `src/lib.rs` — error texts (the error dialog and the error log) and the
  self-update clean-up decision.
- `src/text.rs` — decimal rendering, string comparison and search, word
  counting, used by the rest.
- `src/localization.rs` — the fallback from a missing translation to its key.
- `src/gui/` — the top-level modes, the modal dialog, keyboard shortcuts, and
  under `element/` one module per screen: the transaction list and its
  columns, the confirmed-transaction history, contract creation, slatepack
  handling, the home screen's clock tick, wallet setup and naming, the
  settings, and the node's sync status line.
- `tests/` — concrete cases for each rule.
- `app/` — the program around the library: command line, logging, the
  self-update file operations, and clock conversions.
