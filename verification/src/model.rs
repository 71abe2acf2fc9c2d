use vstd::prelude::*;

use crate::errors::ErrorCode;
use crate::instructions;
use crate::state::{CandidateModel, PollModel, Voter, MAX_DESCRIPTION_LEN, MAX_NAME_LEN};

verus! {

/// A voter record together with the voter identity that its derived address
/// carries.
#[derive(Clone, Copy, Debug, PartialEq, Eq, Structural)]
pub struct VoterSlot {
    pub voter: u64,
    pub record: Voter,
}

/// The candidate record every registration starts from: the host creates the
/// record zeroed, and the transition fills it in.
pub open spec fn fresh_candidate() -> CandidateModel {
    CandidateModel { has_registered: false, cid: 0, poll_id: 0, name: Seq::empty(), votes: 0 }
}

/// The voter record a first vote starts from.
pub open spec fn fresh_voter() -> Voter {
    Voter { poll_id: 0, has_voted: false, cid: 0 }
}

/// How many candidate records are registered under `poll_id`.
pub open spec fn count_for(cands: Seq<CandidateModel>, poll_id: u64) -> int
    decreases cands.len(),
{
    if cands.len() == 0 {
        0
    } else {
        count_for(cands.drop_last(), poll_id) + if cands.last().poll_id == poll_id
            && cands.last().has_registered {
            1int
        } else {
            0int
        }
    }
}

/// The sum of all candidates' vote tallies.
pub open spec fn total_votes(cands: Seq<CandidateModel>) -> int
    decreases cands.len(),
{
    if cands.len() == 0 {
        0
    } else {
        total_votes(cands.drop_last()) + cands.last().votes
    }
}

/// The whole store: the two singletons and every poll, candidate and voter
/// record, each sequence ordered by creation.  A record's position encodes
/// its derived address: the poll with id `i + 1` sits at index `i`, the
/// candidate with cid `i + 1` at index `i`.
#[verifier::ext_equal]
pub struct LedgerModel {
    pub counter: Option<u64>,
    pub registrations: Option<u64>,
    pub polls: Seq<PollModel>,
    pub candidates: Seq<CandidateModel>,
    pub voters: Seq<VoterSlot>,
}

impl LedgerModel {
    /// The store before `initialize` ran.
    pub open spec fn empty() -> LedgerModel {
        LedgerModel {
            counter: None,
            registrations: None,
            polls: Seq::empty(),
            candidates: Seq::empty(),
            voters: Seq::empty(),
        }
    }

    pub open spec fn initialized(self) -> bool {
        self.counter is Some
    }

    /// The poll counter's value; zero while uninitialized.
    pub open spec fn counter_val(self) -> int {
        match self.counter {
            Some(c) => c as int,
            None => 0,
        }
    }

    /// The registration counter's value; zero while uninitialized.
    pub open spec fn registrations_val(self) -> int {
        match self.registrations {
            Some(c) => c as int,
            None => 0,
        }
    }

    /// A poll record backs id `poll_id`.
    pub open spec fn has_poll(self, poll_id: u64) -> bool {
        1 <= poll_id <= self.polls.len()
    }

    /// A voter record backs the (voter, poll) pair.
    pub open spec fn has_voted_in(self, voter: u64, poll_id: u64) -> bool {
        exists|i: int|
            0 <= i < self.voters.len() && (#[trigger] self.voters[i]).voter == voter
                && self.voters[i].record.poll_id == poll_id
    }

    /// Everything the four transitions jointly maintain.
    pub open spec fn well_formed(self) -> bool {
        &&& (self.counter is Some <==> self.registrations is Some)
        &&& self.counter_val() == self.polls.len()
        &&& self.registrations_val() == self.candidates.len()
        &&& forall|i: int|
            0 <= i < self.polls.len() ==> (#[trigger] self.polls[i]).id == i + 1
        &&& forall|i: int|
            0 <= i < self.polls.len() ==> (#[trigger] self.polls[i]).start < self.polls[i].end
        &&& forall|i: int|
            0 <= i < self.polls.len() ==> (#[trigger] self.polls[i]).description.len()
                <= MAX_DESCRIPTION_LEN
        &&& forall|i: int|
            0 <= i < self.polls.len() ==> (#[trigger] self.polls[i]).candidates == count_for(
                self.candidates,
                self.polls[i].id,
            )
        &&& forall|i: int|
            0 <= i < self.candidates.len() ==> (#[trigger] self.candidates[i]).cid == i + 1
        &&& forall|i: int|
            0 <= i < self.candidates.len() ==> (#[trigger] self.candidates[i]).has_registered
        &&& forall|i: int|
            0 <= i < self.candidates.len() ==> 1 <= (#[trigger] self.candidates[i]).poll_id
                <= self.polls.len()
        &&& forall|i: int|
            0 <= i < self.candidates.len() ==> (#[trigger] self.candidates[i]).name.len()
                <= MAX_NAME_LEN
        &&& forall|i: int, j: int|
            0 <= i < j < self.voters.len() ==> !((#[trigger] self.voters[i]).voter == (
            #[trigger] self.voters[j]).voter && self.voters[i].record.poll_id
                == self.voters[j].record.poll_id)
        &&& forall|i: int|
            0 <= i < self.voters.len() ==> (#[trigger] self.voters[i]).record.has_voted
        &&& forall|i: int|
            0 <= i < self.voters.len() ==> 1 <= (#[trigger] self.voters[i]).record.cid
                <= self.candidates.len() && self.candidates[self.voters[i].record.cid
                - 1].poll_id == self.voters[i].record.poll_id
        &&& total_votes(self.candidates) == self.voters.len()
    }

    /// Initialize: create both singletons with count zero; refuse when either
    /// already holds a record.
    pub open spec fn spec_initialize(self) -> (LedgerModel, Result<(), ErrorCode>) {
        if self.counter is Some || self.registrations is Some {
            (self, Err(ErrorCode::AlreadyInitialized))
        } else {
            (
                LedgerModel {
                    counter: Some(0),
                    registrations: Some(0),
                    polls: self.polls,
                    candidates: self.candidates,
                    voters: self.voters,
                },
                Ok(()),
            )
        }
    }

    /// CreatePoll at store level: on success the new poll record is appended
    /// and its id returned.  Meaningful for an initialized store with
    /// `counter_val() < u64::MAX`.
    pub open spec fn spec_create_poll(self, description: Seq<char>, start: u64, end: u64) -> (
        LedgerModel,
        Result<u64, ErrorCode>,
    ) {
        let (c, pr) = instructions::spec_create_poll(
            self.counter->Some_0,
            description,
            start,
            end,
        );
        match pr {
            Ok(pm) => (
                LedgerModel {
                    counter: Some(c),
                    registrations: self.registrations,
                    polls: self.polls.push(pm),
                    candidates: self.candidates,
                    voters: self.voters,
                },
                Ok(pm.id),
            ),
            Err(e) => (self, Err(e)),
        }
    }

    /// RegisterCandidate at store level: resolve the poll record at the
    /// derived address, hand the transition a freshly created candidate
    /// record at address (poll id, registration count + 1), and on success
    /// append it.  Meaningful for an initialized store with
    /// `registrations_val() < u64::MAX`.
    pub open spec fn spec_register_candidate(self, poll_id: u64, name: Seq<char>) -> (
        LedgerModel,
        Result<(), ErrorCode>,
    ) {
        if !self.has_poll(poll_id) {
            (self, Err(ErrorCode::PollDoesNotExist))
        } else {
            let e = instructions::spec_register_candidate(
                self.polls[poll_id - 1],
                fresh_candidate(),
                self.registrations->Some_0,
                poll_id,
                name,
            );
            match e.3 {
                Ok(_) => (
                    LedgerModel {
                        counter: self.counter,
                        registrations: Some(e.2),
                        polls: self.polls.update(poll_id - 1, e.0),
                        candidates: self.candidates.push(e.1),
                        voters: self.voters,
                    },
                    Ok(()),
                ),
                Err(err) => (self, Err(err)),
            }
        }
    }

    /// Vote at store level: resolve the poll and candidate records at their
    /// derived addresses, hand the transition the voter record at address
    /// (poll id, voter) — freshly created when absent — and on success append
    /// it and keep the updated tally.
    pub open spec fn spec_vote(self, voter: u64, poll_id: u64, cid: u64, now: u64) -> (
        LedgerModel,
        Result<(), ErrorCode>,
    ) {
        if !self.has_poll(poll_id) {
            (self, Err(ErrorCode::PollDoesNotExist))
        } else {
            let poll = self.polls[poll_id - 1];
            if !(1 <= cid <= self.candidates.len()) {
                if !(poll.start <= now && now < poll.end) {
                    (self, Err(ErrorCode::PollNotActive))
                } else {
                    (self, Err(ErrorCode::CandidateNotFound))
                }
            } else {
                let prior = if self.has_voted_in(voter, poll_id) {
                    self.voters[choose|i: int|
                        0 <= i < self.voters.len() && (#[trigger] self.voters[i]).voter == voter
                            && self.voters[i].record.poll_id == poll_id].record
                } else {
                    fresh_voter()
                };
                let e = instructions::spec_vote(
                    poll,
                    self.candidates[cid - 1],
                    prior,
                    now,
                    poll_id,
                    cid,
                );
                match e.2 {
                    Ok(_) => (
                        LedgerModel {
                            counter: self.counter,
                            registrations: self.registrations,
                            polls: self.polls,
                            candidates: self.candidates.update(cid - 1, e.0),
                            voters: self.voters.push(VoterSlot { voter, record: e.1 }),
                        },
                        Ok(()),
                    ),
                    Err(err) => (self, Err(err)),
                }
            }
        }
    }
}

pub proof fn lemma_count_for_push(cands: Seq<CandidateModel>, c: CandidateModel, poll_id: u64)
    ensures
        count_for(cands.push(c), poll_id) == count_for(cands, poll_id) + if c.poll_id == poll_id
            && c.has_registered {
            1int
        } else {
            0int
        },
{
    assert(cands.push(c).drop_last() =~= cands);
    assert(cands.push(c).last() == c);
}

pub proof fn lemma_count_for_update(
    cands: Seq<CandidateModel>,
    i: int,
    c: CandidateModel,
    poll_id: u64,
)
    requires
        0 <= i < cands.len(),
        c.poll_id == cands[i].poll_id,
        c.has_registered == cands[i].has_registered,
    ensures
        count_for(cands.update(i, c), poll_id) == count_for(cands, poll_id),
    decreases cands.len(),
{
    let u = cands.update(i, c);
    if i == cands.len() - 1 {
        assert(u.drop_last() =~= cands.drop_last());
        assert(u.last() == c);
    } else {
        assert(u.drop_last() =~= cands.drop_last().update(i, c));
        lemma_count_for_update(cands.drop_last(), i, c, poll_id);
        assert(u.last() == cands.last());
    }
}

pub proof fn lemma_count_for_absent(cands: Seq<CandidateModel>, poll_id: u64)
    requires
        forall|j: int| 0 <= j < cands.len() ==> (#[trigger] cands[j]).poll_id != poll_id,
    ensures
        count_for(cands, poll_id) == 0,
    decreases cands.len(),
{
    if cands.len() > 0 {
        assert(cands.last() == cands[cands.len() - 1]);
        assert(forall|j: int|
            0 <= j < cands.drop_last().len() ==> #[trigger] cands.drop_last()[j] == cands[j]);
        lemma_count_for_absent(cands.drop_last(), poll_id);
    }
}

pub proof fn lemma_count_for_bounds(cands: Seq<CandidateModel>, poll_id: u64)
    ensures
        0 <= count_for(cands, poll_id) <= cands.len(),
    decreases cands.len(),
{
    if cands.len() > 0 {
        lemma_count_for_bounds(cands.drop_last(), poll_id);
    }
}

pub proof fn lemma_total_votes_push(cands: Seq<CandidateModel>, c: CandidateModel)
    ensures
        total_votes(cands.push(c)) == total_votes(cands) + c.votes,
{
    assert(cands.push(c).drop_last() =~= cands);
    assert(cands.push(c).last() == c);
}

pub proof fn lemma_total_votes_update(cands: Seq<CandidateModel>, i: int, c: CandidateModel)
    requires
        0 <= i < cands.len(),
    ensures
        total_votes(cands.update(i, c)) == total_votes(cands) - cands[i].votes + c.votes,
    decreases cands.len(),
{
    let u = cands.update(i, c);
    if i == cands.len() - 1 {
        assert(u.drop_last() =~= cands.drop_last());
        assert(u.last() == c);
    } else {
        assert(u.drop_last() =~= cands.drop_last().update(i, c));
        lemma_total_votes_update(cands.drop_last(), i, c);
        assert(u.last() == cands.last());
    }
}

pub proof fn lemma_total_votes_nonneg(cands: Seq<CandidateModel>)
    ensures
        total_votes(cands) >= 0,
    decreases cands.len(),
{
    if cands.len() > 0 {
        lemma_total_votes_nonneg(cands.drop_last());
    }
}

pub proof fn lemma_votes_le_total(cands: Seq<CandidateModel>, i: int)
    requires
        0 <= i < cands.len(),
    ensures
        cands[i].votes <= total_votes(cands),
    decreases cands.len(),
{
    lemma_total_votes_nonneg(cands.drop_last());
    if i < cands.len() - 1 {
        lemma_votes_le_total(cands.drop_last(), i);
    }
}

impl LedgerModel {
    /// `initialize` keeps the store well-formed.
    pub proof fn lemma_initialize_preserves_well_formed(self)
        requires
            self.well_formed(),
        ensures
            self.spec_initialize().0.well_formed(),
    {
    }

    /// `create_poll` keeps the store well-formed.
    pub proof fn lemma_create_poll_preserves_well_formed(
        self,
        description: Seq<char>,
        start: u64,
        end: u64,
    )
        requires
            self.well_formed(),
            self.initialized(),
            self.counter_val() < u64::MAX,
        ensures
            self.spec_create_poll(description, start, end).0.well_formed(),
    {
        let (m1, r) = self.spec_create_poll(description, start, end);
        if r is Ok {
            let pm = m1.polls.last();
            assert(forall|j: int|
                0 <= j < self.candidates.len() ==> (#[trigger] self.candidates[j]).poll_id
                    != pm.id);
            lemma_count_for_absent(self.candidates, pm.id);
            assert(forall|i: int|
                0 <= i < self.polls.len() ==> #[trigger] m1.polls[i] == self.polls[i]);
        }
    }

    /// Every poll's candidate count is bounded by the registration counter.
    pub proof fn lemma_poll_candidates_bounded(self, i: int)
        requires
            self.well_formed(),
            0 <= i < self.polls.len(),
        ensures
            self.polls[i].candidates <= self.registrations_val(),
    {
        lemma_count_for_bounds(self.candidates, self.polls[i].id);
    }

    /// `register_candidate` keeps the store well-formed.
    pub proof fn lemma_register_preserves_well_formed(self, poll_id: u64, name: Seq<char>)
        requires
            self.well_formed(),
            self.initialized(),
            self.registrations_val() < u64::MAX,
        ensures
            self.spec_register_candidate(poll_id, name).0.well_formed(),
    {
        let (m1, r) = self.spec_register_candidate(poll_id, name);
        if r is Ok {
            let idx = poll_id - 1;
            let e = instructions::spec_register_candidate(
                self.polls[idx],
                fresh_candidate(),
                self.registrations->Some_0,
                poll_id,
                name,
            );
            let c2 = e.1;
            assert(self.polls[idx].id == poll_id);
            lemma_count_for_bounds(self.candidates, poll_id);
            assert forall|i: int| 0 <= i < m1.polls.len() implies (#[trigger] m1.polls[i]).candidates
                == count_for(m1.candidates, m1.polls[i].id) by {
                lemma_count_for_push(self.candidates, c2, m1.polls[i].id);
                if i == idx {
                    assert(m1.polls[i] == e.0);
                    assert(count_for(m1.candidates, poll_id) == count_for(self.candidates, poll_id)
                        + 1);
                } else {
                    assert(m1.polls[i] == self.polls[i]);
                    assert(self.polls[i].id == i + 1);
                    assert(m1.polls[i].id != poll_id);
                }
            }
            lemma_total_votes_push(self.candidates, c2);
            assert(forall|i: int|
                0 <= i < self.candidates.len() ==> #[trigger] m1.candidates[i]
                    == self.candidates[i]);
        }
    }

    /// `vote` keeps the store well-formed.
    pub proof fn lemma_vote_preserves_well_formed(self, voter: u64, poll_id: u64, cid: u64, now: u64)
        requires
            self.well_formed(),
            self.voters.len() < u64::MAX,
        ensures
            self.spec_vote(voter, poll_id, cid, now).0.well_formed(),
    {
        let (m1, r) = self.spec_vote(voter, poll_id, cid, now);
        if r is Ok {
            let idx = cid - 1;
            let cand = self.candidates[idx];
            assert(!self.has_voted_in(voter, poll_id));
            lemma_votes_le_total(self.candidates, idx);
            let c2 = CandidateModel {
                has_registered: cand.has_registered,
                cid: cand.cid,
                poll_id: cand.poll_id,
                name: cand.name,
                votes: (cand.votes + 1) as u64,
            };
            assert(m1.candidates == self.candidates.update(idx, c2));
            assert forall|i: int| 0 <= i < m1.polls.len() implies (#[trigger] m1.polls[i]).candidates
                == count_for(m1.candidates, m1.polls[i].id) by {
                lemma_count_for_update(self.candidates, idx, c2, m1.polls[i].id);
            }
            lemma_total_votes_update(self.candidates, idx, c2);
            assert forall|i: int, j: int| 0 <= i < j < m1.voters.len() implies !((
            #[trigger] m1.voters[i]).voter == (#[trigger] m1.voters[j]).voter
                && m1.voters[i].record.poll_id == m1.voters[j].record.poll_id) by {
                if j == m1.voters.len() - 1 {
                    if m1.voters[i].voter == voter && m1.voters[i].record.poll_id == poll_id {
                        assert(self.voters[i].voter == voter && self.voters[i].record.poll_id
                            == poll_id);
                        assert(self.has_voted_in(voter, poll_id));
                    }
                }
            }
        }
    }

    /// Initialization is exactly-once: from an uninitialized store the first
    /// `initialize` succeeds and both counters read zero; a second call
    /// yields `AlreadyInitialized` and changes nothing.
    pub proof fn lemma_initialize_exactly_once(self)
        requires
            self.counter is None,
            self.registrations is None,
        ensures
            ({
                let (m1, r1) = self.spec_initialize();
                let (m2, r2) = m1.spec_initialize();
                &&& r1 == Ok::<(), ErrorCode>(())
                &&& m1.counter == Some(0u64)
                &&& m1.registrations == Some(0u64)
                &&& r2 == Err::<(), ErrorCode>(ErrorCode::AlreadyInitialized)
                &&& m2 == m1
            }),
    {
    }

    /// Monotonic counters: in every well-formed store — reached by any number
    /// of successful registrations, each of which appends one candidate and
    /// bumps the count by one — the registration counter equals the number of
    /// candidates ever registered, and the assigned cids are exactly the
    /// distinct integers 1 through that count.
    pub proof fn lemma_cids_distinct(self)
        requires
            self.well_formed(),
            self.initialized(),
        ensures
            self.registrations == Some(self.candidates.len() as u64),
            forall|i: int|
                0 <= i < self.candidates.len() ==> 1 <= (#[trigger] self.candidates[i]).cid
                    <= self.candidates.len(),
            forall|i: int, j: int|
                0 <= i < j < self.candidates.len() ==> (#[trigger] self.candidates[i]).cid != (
                #[trigger] self.candidates[j]).cid,
    {
    }

    /// The poll counter only increases, by exactly 1 per successful
    /// `create_poll`; a failed call leaves the whole store untouched, and the
    /// registration counter is never consumed.
    pub proof fn lemma_create_poll_advances_counter_by_one(
        self,
        description: Seq<char>,
        start: u64,
        end: u64,
    )
        requires
            self.initialized(),
            self.counter_val() < u64::MAX,
        ensures
            ({
                let (m1, r) = self.spec_create_poll(description, start, end);
                &&& m1.registrations == self.registrations
                &&& r is Ok ==> m1.counter_val() == self.counter_val() + 1 && m1.polls.len()
                    == self.polls.len() + 1 && m1.polls.last().id == m1.counter_val()
                &&& r is Err ==> m1 == self
            }),
    {
    }

    /// The registration counter only increases, by exactly 1 per successful
    /// `register_candidate`, and the incremented value is the new record's
    /// cid; a failed call leaves the whole store untouched, and the poll
    /// counter is never consumed.
    pub proof fn lemma_register_advances_count_by_one(self, poll_id: u64, name: Seq<char>)
        requires
            self.registrations is Some,
            self.registrations_val() < u64::MAX,
        ensures
            ({
                let (m1, r) = self.spec_register_candidate(poll_id, name);
                &&& m1.counter == self.counter
                &&& r is Ok ==> m1.registrations_val() == self.registrations_val() + 1
                    && m1.candidates.len() == self.candidates.len() + 1
                    && m1.candidates.last().cid == m1.registrations_val()
                &&& r is Err ==> m1 == self
            }),
    {
    }

    /// Poll-candidate consistency: in every well-formed store, each poll's
    /// `candidates` field equals the number of candidate records registered
    /// under its id.
    pub proof fn lemma_poll_candidate_consistency(self, i: int)
        requires
            self.well_formed(),
            0 <= i < self.polls.len(),
        ensures
            self.polls[i].candidates == count_for(self.candidates, self.polls[i].id),
    {
    }

    /// One vote per voter per poll, first half: after a voter successfully
    /// votes in a poll, a second vote by the same voter in the same poll
    /// fails with `AlreadyVoted` and changes nothing — provided the second
    /// attempt is made while the poll is still active and names a candidate
    /// registered under it, so that no earlier check masks the rejection.
    pub proof fn lemma_one_vote_per_voter_per_poll(
        self,
        voter: u64,
        poll_id: u64,
        cid: u64,
        now: u64,
        cid2: u64,
        now2: u64,
    )
        requires
            self.well_formed(),
            self.voters.len() < u64::MAX,
            self.spec_vote(voter, poll_id, cid, now).1 is Ok,
            self.polls[poll_id - 1].start <= now2 < self.polls[poll_id - 1].end,
            1 <= cid2 <= self.candidates.len(),
            self.candidates[cid2 - 1].poll_id == poll_id,
        ensures
            ({
                let (m1, r1) = self.spec_vote(voter, poll_id, cid, now);
                let (m2, r2) = m1.spec_vote(voter, poll_id, cid2, now2);
                &&& r2 == Err::<(), ErrorCode>(ErrorCode::AlreadyVoted)
                &&& m2 == m1
            }),
    {
        self.lemma_vote_preserves_well_formed(voter, poll_id, cid, now);
        let (m1, r1) = self.spec_vote(voter, poll_id, cid, now);
        let last = m1.voters.len() - 1;
        assert(m1.voters[last].voter == voter && m1.voters[last].record.poll_id == poll_id);
        assert(m1.has_voted_in(voter, poll_id));
    }

    /// One vote per voter per poll, second half: a vote in one poll does not
    /// spend the voter's vote in any other poll — an attempt in a different
    /// poll that would have succeeded before still succeeds after.
    pub proof fn lemma_vote_other_poll_independent(
        self,
        voter: u64,
        poll_id: u64,
        cid: u64,
        now: u64,
        poll_id2: u64,
        cid2: u64,
        now2: u64,
    )
        requires
            self.well_formed(),
            self.voters.len() < u64::MAX,
            self.spec_vote(voter, poll_id, cid, now).1 is Ok,
            self.spec_vote(voter, poll_id2, cid2, now2).1 is Ok,
            poll_id2 != poll_id,
        ensures
            ({
                let (m1, r1) = self.spec_vote(voter, poll_id, cid, now);
                m1.spec_vote(voter, poll_id2, cid2, now2).1 is Ok
            }),
    {
        let (m1, r1) = self.spec_vote(voter, poll_id, cid, now);
        assert(!self.has_voted_in(voter, poll_id2));
        assert forall|i: int|
            !(0 <= i < m1.voters.len() && (#[trigger] m1.voters[i]).voter == voter
                && m1.voters[i].record.poll_id == poll_id2) by {
            if 0 <= i < m1.voters.len() - 1 {
                if m1.voters[i].voter == voter && m1.voters[i].record.poll_id == poll_id2 {
                    assert(self.has_voted_in(voter, poll_id2));
                }
            }
        }
        assert(!m1.has_voted_in(voter, poll_id2));
        assert(m1.candidates[cid2 - 1].poll_id == self.candidates[cid2 - 1].poll_id);
    }
}

} // verus!
