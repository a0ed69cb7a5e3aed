pub mod achievements;
pub mod games;
