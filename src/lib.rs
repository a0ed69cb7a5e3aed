//! Mirrors rate-limited remote sources into locally served snapshots.
//!
//! The library holds the change-gated snapshot cell, the credential
//! lifecycle of the push-driven source, the state machine of one
//! synchronisation run with its cascade of side effects, and the
//! normalisation of each provider's payload into the entities served.
pub mod error;
pub mod github;
pub mod order;
pub mod resp;
pub mod reval;
pub mod snapshot;
pub mod steam;
pub mod strava;
pub mod sync;
pub mod text;
pub mod time;
