# xiangqi

Logic of a Xiangqi (Chinese chess) game and its computer opponent, written
in Verus: the executable functions in `src/` carry contracts that Verus
proves; the few trusted calls into std (appending a character, lowercasing
a string) are marked `external_body` in `src/text.rs`.

The built-in alpha-beta search and the move generator it needs are not
part of this project: without an external UCI engine (Pikafish) the
computer plays opening-book moves only. The search's per-node decisions
(ordering, pruning, reductions, table use) are here and verified.

## Layout

- `src/xiangqi.rs` — colours, pieces, points, ICCS moves, the board and FEN.
- `src/fen_laws.rs` — FEN and ICCS round trips.
- `src/eval.rs`, `src/endgame.rs` — static evaluation and endgame
  classification.
- `src/search.rs` — the decisions of the alpha-beta search: move ordering,
  history and killer tables, pruning and reduction rules, transposition-table
  use, aspiration windows; `src/exchange.rs` — static exchange evaluation.
- `src/tt.rs`, `src/rng.rs`, `src/book.rs`, `src/difficulty.rs` — the
  transposition table, the move-variety generator, the opening book and the
  difficulty presets.
- `src/uci.rs`, `src/engine_session.rs`, `src/engine_bundle.rs` — the UCI
  protocol text, the long-lived engine session as a state machine, and where
  a bundled engine is looked for.
- `src/gui/` — the interface's rules: settings cycles, trackers, notation,
  records, the sprite plan of the board view and the panels' state.
- `src/text.rs`, `src/collections.rs` — characters, decimal text, and small
  string-keyed tables with specifications.
- `tests/` — tests run against the compiled library.
- `app/` — plain Rust around the library: the engine process over tokio,
  files, the clipboard, serde copies of settings types and floating-point
  display helpers.
