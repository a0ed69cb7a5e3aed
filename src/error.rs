use vstd::prelude::*;

verus! {

/// Why fetching a source's collection failed. Never fatal to the process:
/// the next run tries again.
#[derive(Clone, Copy, Debug, PartialEq, Eq, Structural)]
pub enum FetchError {
    /// The request could not be sent or its body not read.
    Transport,
    /// The upstream answered with something that does not decode.
    Malformed,
    /// The upstream returned fewer records than a snapshot holds.
    TooFewRecords,
}

/// Why the credential could not be made fresh: the refresh was refused or
/// its answer did not decode. Aborts the current run only.
#[derive(Clone, Copy, Debug, PartialEq, Eq, Structural)]
pub enum CredentialError {
    Refused,
    Malformed,
}

/// The lock around a snapshot cell was poisoned: a holder crashed while
/// holding it. Fatal: a possibly torn cell is never served.
#[derive(Clone, Copy, Debug, PartialEq, Eq, Structural)]
pub enum PoisonedCellError {
    Poisoned,
}

} // verus!
