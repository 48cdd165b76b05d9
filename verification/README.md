# ml_chess

A chess engine and terminal interface whose game logic is verified with Verus.

- `src/` is the verified library. The rules of chess (move generation,
  check, notation) come from the `shakmaty` crate, called through a small set
  of trusted wrappers in `src/chess/position.rs`; everything built on them is
  proved against contracts:
  - `chess/`: positions as plain values, game state, FEN/EPD/PGN, UCI/SAN
    parsing, game results and the fifty-move rule;
  - `eval/`: the classical evaluation (material and piece-square tables, with
    its colour-symmetry law), the network input encoding and the policy index
    of a move;
  - `agents/`: alpha-beta negamax with a transposition table and deadline,
    iterative deepening, the random and human agents, and the integer parts of
    Monte Carlo tree search;
  - `tui/` and `app.rs`: board layout, the menu, the move list, and the
    interface's state machine (`Session`), which turns key presses and agent
    moves into the next state and a command for the host;
  - `training/`: self-play verdicts and the integer part of the training
    targets.
- `app/` is the program around it: the command line, the terminal drawing,
  the agent threads, the neural networks and their training (floating point,
  `burn`), checkpoints and game records on disk.
- `tests/` exercises the library on concrete games.
