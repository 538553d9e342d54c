# chess_listen

The core of a xiangqi screen listener, verified with Verus.

- `src/board.rs` — the board (ten ranks of nine points), sides, kinds of change, board equality.
- `src/listen.rs` — which windows are listed, which window is watched, and which part of each
  captured frame is kept.
- `src/frame.rs` — captured RGBA frames and cropping (through the `image` crate).
- `src/worker.rs` — the watcher's state machine: for each recognised board, the next state and the
  actions to perform, with its laws as proof functions.
- `src/analysis.rs` — reading the engine's lines into the expected move and the moves shown.
- `app/` — the window-system side (`xcap`), the serialisable window type, and the loop that drives
  the state machine.
