pub mod raw;
pub mod repos;
