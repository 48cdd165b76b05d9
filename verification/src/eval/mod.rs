pub mod classical;
pub mod neural;
pub mod policy;
