use vstd::prelude::*;

use crate::errors::ErrorCode;
use crate::instructions;
use crate::model::{LedgerModel, VoterSlot};
use crate::state::{Candidate, Counter, Poll, Registrations, Voter};

verus! {

/// The executable store: the two singletons and every poll, candidate and
/// voter record, each sequence ordered by creation so that a record's
/// position encodes its derived address.  The four transition methods are
/// the whole mutation surface; each is atomic — on failure nothing changes.
pub struct Ledger {
    pub counter: Option<Counter>,
    pub registrations: Option<Registrations>,
    pub polls: Vec<Poll>,
    pub candidates: Vec<Candidate>,
    pub voters: Vec<VoterSlot>,
}

impl View for Ledger {
    type V = LedgerModel;

    open spec fn view(&self) -> LedgerModel {
        LedgerModel {
            counter: match self.counter {
                Some(c) => Some(c.count),
                None => None,
            },
            registrations: match self.registrations {
                Some(g) => Some(g.count),
                None => None,
            },
            polls: self.polls@.map_values(|p: Poll| p@),
            candidates: self.candidates@.map_values(|c: Candidate| c@),
            voters: self.voters@,
        }
    }
}

impl Ledger {
    /// An empty, uninitialized store.
    pub fn new() -> (l: Ledger)
        ensures
            l@ == LedgerModel::empty(),
            l@.well_formed(),
    {
        let l = Ledger {
            counter: None,
            registrations: None,
            polls: Vec::new(),
            candidates: Vec::new(),
            voters: Vec::new(),
        };
        proof {
            assert(l@ =~= LedgerModel::empty());
        }
        l
    }

    /// Initialize: create both singleton counters with count zero; fail with
    /// `AlreadyInitialized` when either address already holds a record.
    pub fn initialize(&mut self) -> (r: Result<(), ErrorCode>)
        requires
            old(self)@.well_formed(),
        ensures
            ({
                let (m1, rr) = old(self)@.spec_initialize();
                &&& final(self)@ == m1
                &&& r == rr
            }),
            final(self)@.well_formed(),
    {
        proof {
            old(self)@.lemma_initialize_preserves_well_formed();
        }
        if self.counter.is_some() || self.registrations.is_some() {
            return Err(ErrorCode::AlreadyInitialized);
        }
        let mut counter = Counter { count: 0 };
        let mut registrations = Registrations { count: 0 };
        instructions::initialize(&mut counter, &mut registrations);
        self.counter = Some(counter);
        self.registrations = Some(registrations);
        Ok(())
    }

    /// CreatePoll: validate the window and description, assign the next id
    /// from the poll counter, and append the new poll record.  Returns the
    /// new poll's id.
    pub fn create_poll(&mut self, description: String, start: u64, end: u64) -> (r: Result<
        u64,
        ErrorCode,
    >)
        requires
            old(self)@.well_formed(),
            old(self)@.initialized(),
            old(self)@.counter_val() < u64::MAX,
        ensures
            ({
                let (m1, rr) = old(self)@.spec_create_poll(description@, start, end);
                &&& final(self)@ == m1
                &&& r == rr
            }),
            final(self)@.well_formed(),
    {
        proof {
            old(self)@.lemma_create_poll_preserves_well_formed(description@, start, end);
        }
        let mut counter = self.counter.unwrap();
        match instructions::create_poll(&mut counter, description, start, end) {
            Ok(poll) => {
                self.counter = Some(counter);
                let id = poll.id;
                self.polls.push(poll);
                proof {
                    assert(self@ =~= old(self)@.spec_create_poll(description@, start, end).0);
                }
                Ok(id)
            },
            Err(e) => Err(e),
        }
    }

    /// RegisterCandidate: resolve the poll record at the derived address,
    /// create the candidate record at address (poll id, registration count +
    /// 1), and run the registration transition; on success the filled-in
    /// candidate record is appended.
    pub fn register_candidate(&mut self, poll_id: u64, name: String) -> (r: Result<(), ErrorCode>)
        requires
            old(self)@.well_formed(),
            old(self)@.initialized(),
            old(self)@.registrations_val() < u64::MAX,
        ensures
            ({
                let (m1, rr) = old(self)@.spec_register_candidate(poll_id, name@);
                &&& final(self)@ == m1
                &&& r == rr
            }),
            final(self)@.well_formed(),
    {
        proof {
            old(self)@.lemma_register_preserves_well_formed(poll_id, name@);
        }
        if poll_id < 1 || poll_id > self.polls.len() as u64 {
            return Err(ErrorCode::PollDoesNotExist);
        }
        let idx = (poll_id - 1) as usize;
        proof {
            old(self)@.lemma_poll_candidates_bounded(idx as int);
        }
        let mut registrations = self.registrations.unwrap();
        let mut candidate = Candidate {
            has_registered: false,
            cid: 0,
            poll_id: 0,
            name: String::new(),
            votes: 0,
        };
        let r = instructions::register_candidate(
            &mut self.polls[idx],
            &mut candidate,
            &mut registrations,
            poll_id,
            name,
        );
        self.registrations = Some(registrations);
        if r.is_ok() {
            self.candidates.push(candidate);
        }
        proof {
            assert(self@ =~= old(self)@.spec_register_candidate(poll_id, name@).0);
        }
        r
    }

    /// Vote: resolve the poll and candidate records at their derived
    /// addresses and the voter record at address (poll id, voter) — created
    /// fresh at a voter's first vote in the poll — and run the vote
    /// transition; on success the voter record is appended and the
    /// candidate's tally kept.
    pub fn vote(&mut self, voter: u64, poll_id: u64, cid: u64, now: u64) -> (r: Result<
        (),
        ErrorCode,
    >)
        requires
            old(self)@.well_formed(),
            old(self)@.voters.len() < u64::MAX,
        ensures
            ({
                let (m1, rr) = old(self)@.spec_vote(voter, poll_id, cid, now);
                &&& final(self)@ == m1
                &&& r == rr
            }),
            final(self)@.well_formed(),
    {
        proof {
            old(self)@.lemma_vote_preserves_well_formed(voter, poll_id, cid, now);
        }
        if poll_id < 1 || poll_id > self.polls.len() as u64 {
            return Err(ErrorCode::PollDoesNotExist);
        }
        let pidx = (poll_id - 1) as usize;
        if cid < 1 || cid > self.candidates.len() as u64 {
            // no candidate record backs (poll_id, cid); report the window
            // check first, as the transition itself would
            let p = &self.polls[pidx];
            if !(p.start <= now && now < p.end) {
                return Err(ErrorCode::PollNotActive);
            }
            return Err(ErrorCode::CandidateNotFound);
        }
        let cidx = (cid - 1) as usize;
        proof {
            crate::model::lemma_votes_le_total(old(self)@.candidates, cidx as int);
        }
        match self.find_voter(voter, poll_id) {
            Some(vi) => {
                // a voter record exists; under the store invariant it is
                // marked voted, so the transition rejects the vote
                let mut prior = self.voters[vi].record;
                let r = instructions::vote(
                    &self.polls[pidx],
                    &mut self.candidates[cidx],
                    &mut prior,
                    now,
                    poll_id,
                    cid,
                );
                proof {
                    assert(self@ =~= old(self)@);
                }
                r
            },
            None => {
                let mut prior = Voter { poll_id: 0, has_voted: false, cid: 0 };
                let r = instructions::vote(
                    &self.polls[pidx],
                    &mut self.candidates[cidx],
                    &mut prior,
                    now,
                    poll_id,
                    cid,
                );
                if r.is_ok() {
                    self.voters.push(VoterSlot { voter, record: prior });
                }
                proof {
                    assert(self@ =~= old(self)@.spec_vote(voter, poll_id, cid, now).0);
                }
                r
            },
        }
    }

    /// Look the voter record for (voter, poll) up by its derived address.
    fn find_voter(&self, voter: u64, poll_id: u64) -> (r: Option<usize>)
        ensures
            match r {
                Some(vi) => vi < self.voters@.len() && self.voters@[vi as int].voter == voter
                    && self.voters@[vi as int].record.poll_id == poll_id,
                None => !self@.has_voted_in(voter, poll_id),
            },
    {
        let mut i: usize = 0;
        while i < self.voters.len()
            invariant
                i <= self.voters@.len(),
                forall|j: int|
                    0 <= j < i ==> !((#[trigger] self.voters@[j]).voter == voter
                        && self.voters@[j].record.poll_id == poll_id),
            decreases self.voters@.len() - i,
        {
            let slot = self.voters[i];
            if slot.voter == voter && slot.record.poll_id == poll_id {
                return Some(i);
            }
            i = i + 1;
        }
        None
    }
}

} // verus!

