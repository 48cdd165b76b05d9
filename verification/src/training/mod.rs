pub mod examples;
pub mod self_play;
