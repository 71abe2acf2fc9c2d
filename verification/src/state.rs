use vstd::prelude::*;

verus! {

/// Maximum length, in characters, of a poll's description.
pub const MAX_DESCRIPTION_LEN: usize = 280;

/// Maximum length, in characters, of a candidate's name.
pub const MAX_NAME_LEN: usize = 32;

/// Every persisted record is prefixed by an 8-byte type discriminator.
pub const DISCRIMINATOR_SIZE: u64 = 8;

/// A bounded string is stored as a 4-byte length prefix plus its declared
/// maximum capacity, one byte per character.
pub const STRING_PREFIX_SIZE: u64 = 4;

/// Storage reserved for the `Counter` singleton: discriminator + `count`.
pub const COUNTER_SPACE: u64 = DISCRIMINATOR_SIZE + 8;

/// Storage reserved for the `Registrations` singleton: discriminator + `count`.
pub const REGISTRATIONS_SPACE: u64 = DISCRIMINATOR_SIZE + 8;

/// Storage reserved for a `Poll` record: discriminator + `id` + bounded
/// `description` + `start` + `end` + `candidates`.
pub const POLL_SPACE: u64 = DISCRIMINATOR_SIZE + 8 + (STRING_PREFIX_SIZE + 280) + 8 + 8 + 8;

/// Storage reserved for a `Candidate` record: discriminator +
/// `has_registered` + `cid` + `poll_id` + bounded `name` + `votes`.
pub const CANDIDATE_SPACE: u64 = DISCRIMINATOR_SIZE + 1 + 8 + 8 + (STRING_PREFIX_SIZE + 32) + 8;

/// Storage reserved for a `Voter` record: discriminator + `poll_id` +
/// `has_voted` + `cid`.
pub const VOTER_SPACE: u64 = DISCRIMINATOR_SIZE + 8 + 1 + 8;

/// Singleton record: the global poll sequence counter.  `count` only ever
/// grows, by exactly 1 per poll created, and the `id` of a new poll is the
/// incremented value.
#[derive(Clone, Copy, Debug, PartialEq, Eq, Structural)]
pub struct Counter {
    pub count: u64,
}

/// Singleton record: the global count of candidates ever registered, across
/// all polls.  `count` only ever grows, by exactly 1 per successful
/// registration, and the incremented value becomes the new candidate's `cid`.
#[derive(Clone, Copy, Debug, PartialEq, Eq, Structural)]
pub struct Registrations {
    pub count: u64,
}

/// One record per created poll, addressed by `id`.
#[derive(Debug)]
pub struct Poll {
    pub id: u64,
    pub description: String,
    pub start: u64,
    pub end: u64,
    /// Number of candidates successfully registered under this poll.
    pub candidates: u64,
}

/// One record per (poll, registration sequence number) pair.  Created once at
/// registration; afterwards only `votes` changes.
#[derive(Debug)]
pub struct Candidate {
    pub has_registered: bool,
    /// Globally unique candidate id, assigned from `Registrations.count + 1`.
    pub cid: u64,
    pub poll_id: u64,
    pub name: String,
    /// Tally of votes cast for this candidate.
    pub votes: u64,
}

/// One record per (poll, voter) pair, created at the voter's first successful
/// vote in that poll and immutable afterwards.  The voter's identity is part
/// of the record's derived address, not of the record itself.
#[derive(Clone, Copy, Debug, PartialEq, Eq, Structural)]
pub struct Voter {
    pub poll_id: u64,
    pub has_voted: bool,
    /// The candidate this voter chose.
    pub cid: u64,
}

/// Mathematical image of a `Poll`: the description as a character sequence.
#[verifier::ext_equal]
pub struct PollModel {
    pub id: u64,
    pub description: Seq<char>,
    pub start: u64,
    pub end: u64,
    pub candidates: u64,
}

/// Mathematical image of a `Candidate`: the name as a character sequence.
#[verifier::ext_equal]
pub struct CandidateModel {
    pub has_registered: bool,
    pub cid: u64,
    pub poll_id: u64,
    pub name: Seq<char>,
    pub votes: u64,
}

impl View for Poll {
    type V = PollModel;

    open spec fn view(&self) -> PollModel {
        PollModel {
            id: self.id,
            description: self.description@,
            start: self.start,
            end: self.end,
            candidates: self.candidates,
        }
    }
}

impl View for Candidate {
    type V = CandidateModel;

    open spec fn view(&self) -> CandidateModel {
        CandidateModel {
            has_registered: self.has_registered,
            cid: self.cid,
            poll_id: self.poll_id,
            name: self.name@,
            votes: self.votes,
        }
    }
}

} // verus!
