//! A terminal chess engine library: chess positions and rules on top of the
//! `shakmaty` move generator, a classical evaluator, alpha-beta search and the
//! decision logic of the terminal user interface.

pub mod agents;
pub mod app;
pub mod chess;
pub mod eval;
pub mod text;
pub mod training;
pub mod tui;
