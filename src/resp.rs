use crate::time::Timestamp;
use vstd::prelude::*;

verus! {

/// Served data together with the time it last changed.
pub struct Response<T> {
    pub last_updated: Timestamp,
    pub data: T,
}

impl<T> Response<T> {
    /// Wraps `t`, stamped with the time `at`.
    pub fn new(t: T, at: Timestamp) -> (r: Response<T>)
        ensures
            r.data == t,
            r.last_updated == at,
    {
        Response { last_updated: at, data: t }
    }
}

} // verus!
