pub mod board;
pub mod moves;
pub mod notation;
pub mod position;
pub mod rules;
pub mod types;
