use vstd::prelude::*;

verus! {

/// Every way a transition can fail.  A failed transition aborts whole: no
/// record is created or mutated.
///
/// - not-found: the referenced entity has no backing record at the derived
///   address (`PollDoesNotExist`, `CandidateNotFound`);
/// - conflict: a record already exists in a state incompatible with the
///   request (`AlreadyInitialized`, `CandidateAlreadyRegistered`,
///   `AlreadyVoted`);
/// - validation: an argument violates a field constraint
///   (`InvalidTimeRange`, `CapacityExceeded`);
/// - temporal: the current time lies outside the poll's window
///   (`PollNotActive`).
#[derive(Clone, Copy, Debug, PartialEq, Eq, Structural)]
pub enum ErrorCode {
    AlreadyInitialized,
    InvalidTimeRange,
    CapacityExceeded,
    PollDoesNotExist,
    CandidateAlreadyRegistered,
    CandidateNotFound,
    AlreadyVoted,
    PollNotActive,
}

} // verus!
