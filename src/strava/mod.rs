pub mod activities;
pub mod map;
pub mod token;
pub mod challenge;
pub mod event;
