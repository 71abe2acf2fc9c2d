use vstd::prelude::*;

use crate::address::{spec_derive, LogicalKey};
use crate::errors::ErrorCode;
use crate::state::{
    Candidate, CandidateModel, Counter, Poll, PollModel, Registrations, Voter, MAX_DESCRIPTION_LEN,
    MAX_NAME_LEN,
};

verus! {

/// What `create_poll` does to the counter, and the record it creates, as a
/// function of the prior counter value and the arguments.  Meaningful for
/// `counter < u64::MAX`.
pub open spec fn spec_create_poll(
    counter: u64,
    description: Seq<char>,
    start: u64,
    end: u64,
) -> (u64, Result<PollModel, ErrorCode>) {
    if start >= end {
        (counter, Err(ErrorCode::InvalidTimeRange))
    } else if description.len() > MAX_DESCRIPTION_LEN {
        (counter, Err(ErrorCode::CapacityExceeded))
    } else {
        let id = (counter + 1) as u64;
        (id, Ok(PollModel { id, description, start, end, candidates: 0 }))
    }
}

/// What `register_candidate` does to the three records it touches, as a
/// function of their prior values and the arguments.  Meaningful for
/// `registrations < u64::MAX` and `poll.candidates < u64::MAX`.
pub open spec fn spec_register_candidate(
    poll: PollModel,
    candidate: CandidateModel,
    registrations: u64,
    poll_id: u64,
    name: Seq<char>,
) -> (PollModel, CandidateModel, u64, Result<(), ErrorCode>) {
    if poll.id != poll_id {
        (poll, candidate, registrations, Err(ErrorCode::PollDoesNotExist))
    } else if candidate.has_registered {
        (poll, candidate, registrations, Err(ErrorCode::CandidateAlreadyRegistered))
    } else if name.len() > MAX_NAME_LEN {
        (poll, candidate, registrations, Err(ErrorCode::CapacityExceeded))
    } else {
        let count = (registrations + 1) as u64;
        (
            PollModel {
                id: poll.id,
                description: poll.description,
                start: poll.start,
                end: poll.end,
                candidates: (poll.candidates + 1) as u64,
            },
            CandidateModel {
                has_registered: true,
                cid: count,
                poll_id,
                name,
                votes: candidate.votes,
            },
            count,
            Ok(()),
        )
    }
}

/// What `vote` does to the candidate and voter records, as a function of
/// their prior values, the poll, and the arguments.  Meaningful for
/// `candidate.votes < u64::MAX`.
pub open spec fn spec_vote(
    poll: PollModel,
    candidate: CandidateModel,
    voter: Voter,
    now: u64,
    poll_id: u64,
    cid: u64,
) -> (CandidateModel, Voter, Result<(), ErrorCode>) {
    if poll.id != poll_id {
        (candidate, voter, Err(ErrorCode::PollDoesNotExist))
    } else if !(poll.start <= now && now < poll.end) {
        (candidate, voter, Err(ErrorCode::PollNotActive))
    } else if candidate.poll_id != poll_id || candidate.cid != cid || !candidate.has_registered {
        (candidate, voter, Err(ErrorCode::CandidateNotFound))
    } else if voter.has_voted {
        (candidate, voter, Err(ErrorCode::AlreadyVoted))
    } else {
        (
            CandidateModel {
                has_registered: candidate.has_registered,
                cid: candidate.cid,
                poll_id: candidate.poll_id,
                name: candidate.name,
                votes: (candidate.votes + 1) as u64,
            },
            Voter { poll_id, has_voted: true, cid },
            Ok(()),
        )
    }
}

/// Registration idempotence guard: once a registration against a candidate
/// slot has succeeded, a second `register_candidate` against the same slot —
/// whatever name it carries — fails with `CandidateAlreadyRegistered` and
/// leaves the poll's candidate count, the candidate record and the global
/// registration count exactly as the first call left them.
pub proof fn lemma_register_candidate_second_call_rejected(
    poll: PollModel,
    candidate: CandidateModel,
    registrations: u64,
    poll_id: u64,
    name1: Seq<char>,
    name2: Seq<char>,
)
    requires
        spec_register_candidate(poll, candidate, registrations, poll_id, name1).3 is Ok,
    ensures
        ({
            let e1 = spec_register_candidate(poll, candidate, registrations, poll_id, name1);
            let e2 = spec_register_candidate(e1.0, e1.1, e1.2, poll_id, name2);
            &&& e2.3 == Err::<(), ErrorCode>(ErrorCode::CandidateAlreadyRegistered)
            &&& e2.0 == e1.0
            &&& e2.1 == e1.1
            &&& e2.2 == e1.2
        }),
{
}

/// Mismatched poll id rejected: `register_candidate` against a poll record
/// whose stored id differs from the requested one fails with
/// `PollDoesNotExist` and mutates nothing, whatever the other records hold.
pub proof fn lemma_mismatched_poll_id_rejected(
    poll: PollModel,
    candidate: CandidateModel,
    registrations: u64,
    poll_id: u64,
    name: Seq<char>,
)
    requires
        poll.id != poll_id,
    ensures
        spec_register_candidate(poll, candidate, registrations, poll_id, name) == (
            poll,
            candidate,
            registrations,
            Err::<(), ErrorCode>(ErrorCode::PollDoesNotExist),
        ),
{
}

/// Initialize: set both freshly created singleton counters to zero.  The
/// existence check (`AlreadyInitialized`) is the store's concern; see
/// `Ledger::initialize`.
pub fn initialize(counter: &mut Counter, registrations: &mut Registrations)
    ensures
        final(counter).count == 0,
        final(registrations).count == 0,
{
    counter.count = 0;
    registrations.count = 0;
}

/// CreatePoll: validate the time window and the description's capacity, then
/// assign the next poll id from the counter and build the poll record with no
/// candidates yet.  On failure the counter is untouched and no record is
/// returned.
pub fn create_poll(counter: &mut Counter, description: String, start: u64, end: u64) -> (r: Result<
    Poll,
    ErrorCode,
>)
    requires
        old(counter).count < u64::MAX,
    ensures
        ({
            let (c, pr) = spec_create_poll(old(counter).count, description@, start, end);
            &&& final(counter).count == c
            &&& match (r, pr) {
                (Ok(p), Ok(pm)) => p@ == pm,
                (Err(e), Err(em)) => e == em,
                _ => false,
            }
        }),
        r is Ok <==> start < end && description@.len() <= MAX_DESCRIPTION_LEN,
{
    if start >= end {
        return Err(ErrorCode::InvalidTimeRange);
    }
    if description.as_str().unicode_len() > MAX_DESCRIPTION_LEN {
        return Err(ErrorCode::CapacityExceeded);
    }
    counter.count = counter.count + 1;
    Ok(Poll { id: counter.count, description, start, end, candidates: 0 })
}

/// RegisterCandidate: reject a poll record whose stored id differs from the
/// requested one, a slot that already registered, and an over-long name;
/// otherwise, atomically: bump the global registration count, fill in the
/// candidate record with the new count as its `cid`, and bump the poll's
/// candidate count.  On failure nothing is mutated.
pub fn register_candidate(
    poll: &mut Poll,
    candidate: &mut Candidate,
    registrations: &mut Registrations,
    poll_id: u64,
    name: String,
) -> (r: Result<(), ErrorCode>)
    requires
        old(registrations).count < u64::MAX,
        old(poll).candidates < u64::MAX,
    ensures
        ({
            let e = spec_register_candidate(
                old(poll)@,
                old(candidate)@,
                old(registrations).count,
                poll_id,
                name@,
            );
            &&& final(poll)@ == e.0
            &&& final(candidate)@ == e.1
            &&& final(registrations).count == e.2
            &&& r == e.3
        }),
        r is Ok <==> old(poll).id == poll_id && !old(candidate).has_registered && name@.len()
            <= MAX_NAME_LEN,
{
    if poll.id != poll_id {
        return Err(ErrorCode::PollDoesNotExist);
    }

    if candidate.has_registered {
        return Err(ErrorCode::CandidateAlreadyRegistered);
    }

    if name.as_str().unicode_len() > MAX_NAME_LEN {
        return Err(ErrorCode::CapacityExceeded);
    }

    registrations.count = registrations.count + 1;

    candidate.has_registered = true;
    candidate.cid = registrations.count;
    candidate.poll_id = poll_id;
    candidate.name = name;

    poll.candidates = poll.candidates + 1;

    Ok(())
}

/// Vote: reject a poll record whose stored id differs from the requested one,
/// a time outside the poll's `[start, end)` window, a candidate record that
/// does not back the requested (poll, cid) pair, and a voter who already
/// voted; otherwise record the choice and bump the candidate's tally.  On
/// failure nothing is mutated.
pub fn vote(
    poll: &Poll,
    candidate: &mut Candidate,
    voter: &mut Voter,
    now: u64,
    poll_id: u64,
    cid: u64,
) -> (r: Result<(), ErrorCode>)
    requires
        old(candidate).votes < u64::MAX,
    ensures
        ({
            let e = spec_vote(poll@, old(candidate)@, *old(voter), now, poll_id, cid);
            &&& final(candidate)@ == e.0
            &&& *final(voter) == e.1
            &&& r == e.2
        }),
        r is Ok <==> poll.id == poll_id && poll.start <= now < poll.end && old(
            candidate,
        ).poll_id == poll_id && old(candidate).cid == cid && old(candidate).has_registered && !old(
            voter,
        ).has_voted,
{
    if poll.id != poll_id {
        return Err(ErrorCode::PollDoesNotExist);
    }

    if !(poll.start <= now && now < poll.end) {
        return Err(ErrorCode::PollNotActive);
    }

    if candidate.poll_id != poll_id || candidate.cid != cid || !candidate.has_registered {
        return Err(ErrorCode::CandidateNotFound);
    }

    if voter.has_voted {
        return Err(ErrorCode::AlreadyVoted);
    }

    voter.poll_id = poll_id;
    voter.has_voted = true;
    voter.cid = cid;

    candidate.votes = candidate.votes + 1;

    Ok(())
}

/// The addresses an `initialize` call touches: both singletons, created by
/// the call.
pub struct Initialize {
    pub counter_address: Vec<u8>,
    pub registrations_address: Vec<u8>,
}

impl Initialize {
    /// Derive the two singleton addresses; they depend on no runtime value.
    pub fn derive() -> (r: Initialize)
        ensures
            r.counter_address@ == spec_derive(LogicalKey::Counter),
            r.registrations_address@ == spec_derive(LogicalKey::Registrations),
    {
        let (counter_address, _) = crate::address::derive(LogicalKey::Counter);
        let (registrations_address, _) = crate::address::derive(LogicalKey::Registrations);
        Initialize { counter_address, registrations_address }
    }
}

/// The addresses a `create_poll` call touches: the poll counter, and the
/// poll record the call creates, keyed by the id the counter will assign.
pub struct CreatePoll {
    pub counter_address: Vec<u8>,
    pub poll_address: Vec<u8>,
}

impl CreatePoll {
    /// Derive from the counter value current at submission time.  A stale
    /// read yields an address that no longer matches the id the transition
    /// assigns, and the transaction fails closed.
    pub fn derive(counter_count: u64) -> (r: CreatePoll)
        requires
            counter_count < u64::MAX,
        ensures
            r.counter_address@ == spec_derive(LogicalKey::Counter),
            r.poll_address@ == spec_derive(
                LogicalKey::Poll { poll_id: (counter_count + 1) as u64 },
            ),
    {
        let (counter_address, _) = crate::address::derive(LogicalKey::Counter);
        let (poll_address, _) = crate::address::derive(LogicalKey::Poll { poll_id: counter_count + 1 });
        CreatePoll { counter_address, poll_address }
    }
}

/// The addresses a `register_candidate` call touches: the poll record, the
/// candidate record the call creates, and the registration counter.
pub struct RegisterCandidate {
    pub poll_address: Vec<u8>,
    pub candidate_address: Vec<u8>,
    pub registrations_address: Vec<u8>,
}

impl RegisterCandidate {
    /// Derive from the registration count current at submission time: the
    /// candidate's address carries the sequence number the transition will
    /// assign.  A stale read yields an address that no longer matches, and
    /// the transaction fails closed rather than corrupt another record.
    pub fn derive(poll_id: u64, registrations_count: u64) -> (r: RegisterCandidate)
        requires
            registrations_count < u64::MAX,
        ensures
            r.poll_address@ == spec_derive(LogicalKey::Poll { poll_id }),
            r.candidate_address@ == spec_derive(
                LogicalKey::Candidate { poll_id, sequence: (registrations_count + 1) as u64 },
            ),
            r.registrations_address@ == spec_derive(LogicalKey::Registrations),
    {
        let (poll_address, _) = crate::address::derive(LogicalKey::Poll { poll_id });
        let (candidate_address, _) = crate::address::derive(
            LogicalKey::Candidate { poll_id, sequence: registrations_count + 1 },
        );
        let (registrations_address, _) = crate::address::derive(LogicalKey::Registrations);
        RegisterCandidate { poll_address, candidate_address, registrations_address }
    }
}

/// The addresses a `vote` call touches: the poll record, the chosen
/// candidate's record, and the voter record created at the voter's first
/// vote in the poll.
pub struct Vote {
    pub poll_address: Vec<u8>,
    pub candidate_address: Vec<u8>,
    pub voter_address: Vec<u8>,
}

impl Vote {
    /// Derive from the poll, the chosen candidate's cid — which is also the
    /// sequence number its record was created under — and the voter's
    /// identity.
    pub fn derive(poll_id: u64, cid: u64, voter: u64) -> (r: Vote)
        ensures
            r.poll_address@ == spec_derive(LogicalKey::Poll { poll_id }),
            r.candidate_address@ == spec_derive(LogicalKey::Candidate { poll_id, sequence: cid }),
            r.voter_address@ == spec_derive(LogicalKey::Voter { poll_id, voter }),
    {
        let (poll_address, _) = crate::address::derive(LogicalKey::Poll { poll_id });
        let (candidate_address, _) = crate::address::derive(LogicalKey::Candidate { poll_id, sequence: cid });
        let (voter_address, _) = crate::address::derive(LogicalKey::Voter { poll_id, voter });
        Vote { poll_address, candidate_address, voter_address }
    }
}

} // verus!
