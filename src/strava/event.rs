use crate::text::{decimal, decimal_digits, same_text};
use std::collections::HashMap;
use vstd::prelude::*;

verus! {

/// A webhook event pushed by the source.
pub struct Event {
    pub aspect_type: String,
    pub event_time: u64,
    pub object_id: u64,
    pub object_type: String,
    pub owner_id: u64,
    pub subscription_id: u64,
    pub updates: HashMap<String, String>,
}

/// Whether the event belongs to the configured subscription: its
/// identifier, written in decimal, is the expected text.
pub open spec fn admitted(subscription_id: u64, expected: Seq<char>) -> bool {
    decimal_digits(subscription_id as nat) == expected
}

impl Event {
    pub fn is_admitted(&self, expected: &str) -> (r: bool)
        ensures
            r == admitted(self.subscription_id, expected@),
    {
        let id = decimal(self.subscription_id);
        same_text(id.as_str(), expected)
    }
}

} // verus!
