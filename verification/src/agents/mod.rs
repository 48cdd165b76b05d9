pub mod clock;
pub mod human;
pub mod mcts;
pub mod minimax;
pub mod negamax;
pub mod random;
pub mod search;
pub mod search_laws;
