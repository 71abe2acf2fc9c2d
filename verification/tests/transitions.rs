use votee::errors::ErrorCode;
use votee::instructions;
use votee::ledger::Ledger;
use votee::state::{Candidate, Counter, Poll, Registrations, Voter};

fn active_poll(id: u64) -> Poll {
    Poll { id, description: String::from("which snack"), start: 10, end: 20, candidates: 0 }
}

fn blank_candidate() -> Candidate {
    Candidate { has_registered: false, cid: 0, poll_id: 0, name: String::new(), votes: 0 }
}

#[test]
fn initialize_sets_both_counters_to_zero() {
    let mut ledger = Ledger::new();
    assert_eq!(ledger.initialize(), Ok(()));
    assert_eq!(ledger.counter.unwrap().count, 0);
    assert_eq!(ledger.registrations.unwrap().count, 0);
}

#[test]
fn initialize_twice_rejected() {
    let mut ledger = Ledger::new();
    assert_eq!(ledger.initialize(), Ok(()));
    assert_eq!(ledger.initialize(), Err(ErrorCode::AlreadyInitialized));
    assert_eq!(ledger.counter.unwrap().count, 0);
    assert_eq!(ledger.registrations.unwrap().count, 0);
}

#[test]
fn create_poll_assigns_sequential_ids() {
    let mut ledger = Ledger::new();
    ledger.initialize().unwrap();
    assert_eq!(ledger.create_poll(String::from("first"), 10, 20), Ok(1));
    assert_eq!(ledger.create_poll(String::from("second"), 5, 8), Ok(2));
    assert_eq!(ledger.counter.unwrap().count, 2);
    assert_eq!(ledger.polls.len(), 2);
    assert_eq!(ledger.polls[0].id, 1);
    assert_eq!(ledger.polls[0].description, "first");
    assert_eq!(ledger.polls[0].start, 10);
    assert_eq!(ledger.polls[0].end, 20);
    assert_eq!(ledger.polls[0].candidates, 0);
    assert_eq!(ledger.polls[1].id, 2);
}

#[test]
fn create_poll_rejects_bad_time_range() {
    let mut ledger = Ledger::new();
    ledger.initialize().unwrap();
    assert_eq!(ledger.create_poll(String::from("p"), 20, 10), Err(ErrorCode::InvalidTimeRange));
    assert_eq!(ledger.create_poll(String::from("p"), 10, 10), Err(ErrorCode::InvalidTimeRange));
    assert_eq!(ledger.counter.unwrap().count, 0);
    assert_eq!(ledger.polls.len(), 0);
}

#[test]
fn create_poll_rejects_over_long_description() {
    let mut ledger = Ledger::new();
    ledger.initialize().unwrap();
    let too_long = "d".repeat(281);
    assert_eq!(ledger.create_poll(too_long, 10, 20), Err(ErrorCode::CapacityExceeded));
    assert_eq!(ledger.counter.unwrap().count, 0);
    assert_eq!(ledger.polls.len(), 0);
    let at_capacity = "d".repeat(280);
    assert_eq!(ledger.create_poll(at_capacity, 10, 20), Ok(1));
}

#[test]
fn register_candidate_fills_record_and_counts() {
    let mut ledger = Ledger::new();
    ledger.initialize().unwrap();
    ledger.create_poll(String::from("p"), 10, 20).unwrap();
    assert_eq!(ledger.register_candidate(1, String::from("ada")), Ok(()));
    assert_eq!(ledger.registrations.unwrap().count, 1);
    assert_eq!(ledger.candidates.len(), 1);
    let c = &ledger.candidates[0];
    assert!(c.has_registered);
    assert_eq!(c.cid, 1);
    assert_eq!(c.poll_id, 1);
    assert_eq!(c.name, "ada");
    assert_eq!(c.votes, 0);
    assert_eq!(ledger.polls[0].candidates, 1);
}

#[test]
fn register_candidate_rejects_missing_poll() {
    let mut ledger = Ledger::new();
    ledger.initialize().unwrap();
    ledger.create_poll(String::from("p"), 10, 20).unwrap();
    assert_eq!(ledger.register_candidate(0, String::from("ada")), Err(ErrorCode::PollDoesNotExist));
    assert_eq!(ledger.register_candidate(2, String::from("ada")), Err(ErrorCode::PollDoesNotExist));
    assert_eq!(ledger.candidates.len(), 0);
    assert_eq!(ledger.registrations.unwrap().count, 0);
}

#[test]
fn register_candidate_rejects_over_long_name() {
    let mut ledger = Ledger::new();
    ledger.initialize().unwrap();
    ledger.create_poll(String::from("p"), 10, 20).unwrap();
    let too_long = "n".repeat(33);
    assert_eq!(ledger.register_candidate(1, too_long), Err(ErrorCode::CapacityExceeded));
    assert_eq!(ledger.candidates.len(), 0);
    assert_eq!(ledger.registrations.unwrap().count, 0);
    assert_eq!(ledger.polls[0].candidates, 0);
    let at_capacity = "n".repeat(32);
    assert_eq!(ledger.register_candidate(1, at_capacity), Ok(()));
}

#[test]
fn register_second_call_against_registered_slot_rejected() {
    // the raw transition, handed the same candidate record twice
    let mut poll = active_poll(5);
    let mut candidate = blank_candidate();
    let mut registrations = Registrations { count: 7 };
    assert_eq!(
        instructions::register_candidate(
            &mut poll,
            &mut candidate,
            &mut registrations,
            5,
            String::from("ada"),
        ),
        Ok(()),
    );
    assert_eq!(registrations.count, 8);
    assert_eq!(poll.candidates, 1);
    assert_eq!(
        instructions::register_candidate(
            &mut poll,
            &mut candidate,
            &mut registrations,
            5,
            String::from("bob"),
        ),
        Err(ErrorCode::CandidateAlreadyRegistered),
    );
    // unchanged from after the first call
    assert_eq!(registrations.count, 8);
    assert_eq!(poll.candidates, 1);
    assert!(candidate.has_registered);
    assert_eq!(candidate.cid, 8);
    assert_eq!(candidate.name, "ada");
}

#[test]
fn mismatched_poll_id_rejected() {
    let mut poll = active_poll(7);
    let mut candidate = blank_candidate();
    let mut registrations = Registrations { count: 3 };
    assert_eq!(
        instructions::register_candidate(
            &mut poll,
            &mut candidate,
            &mut registrations,
            5,
            String::from("ada"),
        ),
        Err(ErrorCode::PollDoesNotExist),
    );
    assert_eq!(registrations.count, 3);
    assert_eq!(poll.candidates, 0);
    assert!(!candidate.has_registered);
    assert_eq!(candidate.cid, 0);
}

#[test]
fn cids_are_distinct_and_sequential_across_polls() {
    let mut ledger = Ledger::new();
    ledger.initialize().unwrap();
    ledger.create_poll(String::from("p1"), 10, 20).unwrap();
    ledger.create_poll(String::from("p2"), 10, 20).unwrap();
    ledger.register_candidate(1, String::from("a")).unwrap();
    ledger.register_candidate(2, String::from("b")).unwrap();
    ledger.register_candidate(1, String::from("c")).unwrap();
    ledger.register_candidate(2, String::from("d")).unwrap();
    assert_eq!(ledger.registrations.unwrap().count, 4);
    let mut cids: Vec<u64> = ledger.candidates.iter().map(|c| c.cid).collect();
    cids.sort();
    assert_eq!(cids, vec![1, 2, 3, 4]);
}

#[test]
fn poll_candidate_counts_match_records() {
    let mut ledger = Ledger::new();
    ledger.initialize().unwrap();
    ledger.create_poll(String::from("p1"), 10, 20).unwrap();
    ledger.create_poll(String::from("p2"), 10, 20).unwrap();
    ledger.register_candidate(1, String::from("a")).unwrap();
    ledger.register_candidate(1, String::from("b")).unwrap();
    ledger.register_candidate(2, String::from("c")).unwrap();
    for poll in &ledger.polls {
        let records = ledger
            .candidates
            .iter()
            .filter(|c| c.poll_id == poll.id && c.has_registered)
            .count();
        assert_eq!(poll.candidates as usize, records);
    }
    assert_eq!(ledger.polls[0].candidates, 2);
    assert_eq!(ledger.polls[1].candidates, 1);
}

#[test]
fn vote_records_choice_and_tally() {
    let mut ledger = Ledger::new();
    ledger.initialize().unwrap();
    ledger.create_poll(String::from("p"), 10, 20).unwrap();
    ledger.register_candidate(1, String::from("ada")).unwrap();
    assert_eq!(ledger.vote(42, 1, 1, 15), Ok(()));
    assert_eq!(ledger.candidates[0].votes, 1);
    assert_eq!(ledger.voters.len(), 1);
    assert_eq!(ledger.voters[0].voter, 42);
    assert_eq!(ledger.voters[0].record, Voter { poll_id: 1, has_voted: true, cid: 1 });
    // another voter's vote for the same candidate
    assert_eq!(ledger.vote(43, 1, 1, 19), Ok(()));
    assert_eq!(ledger.candidates[0].votes, 2);
}

#[test]
fn one_vote_per_voter_per_poll() {
    let mut ledger = Ledger::new();
    ledger.initialize().unwrap();
    ledger.create_poll(String::from("p1"), 10, 20).unwrap();
    ledger.create_poll(String::from("p2"), 10, 20).unwrap();
    ledger.register_candidate(1, String::from("a")).unwrap();
    ledger.register_candidate(1, String::from("b")).unwrap();
    ledger.register_candidate(2, String::from("c")).unwrap();
    assert_eq!(ledger.vote(42, 1, 1, 15), Ok(()));
    // same voter, same poll: rejected even for a different candidate
    assert_eq!(ledger.vote(42, 1, 1, 16), Err(ErrorCode::AlreadyVoted));
    assert_eq!(ledger.vote(42, 1, 2, 16), Err(ErrorCode::AlreadyVoted));
    assert_eq!(ledger.candidates[0].votes, 1);
    assert_eq!(ledger.candidates[1].votes, 0);
    assert_eq!(ledger.voters.len(), 1);
    // same voter, different poll: independent
    assert_eq!(ledger.vote(42, 2, 3, 15), Ok(()));
    assert_eq!(ledger.candidates[2].votes, 1);
    assert_eq!(ledger.voters.len(), 2);
}

#[test]
fn vote_rejects_missing_poll_and_candidate() {
    let mut ledger = Ledger::new();
    ledger.initialize().unwrap();
    ledger.create_poll(String::from("p"), 10, 20).unwrap();
    ledger.register_candidate(1, String::from("ada")).unwrap();
    assert_eq!(ledger.vote(42, 2, 1, 15), Err(ErrorCode::PollDoesNotExist));
    assert_eq!(ledger.vote(42, 0, 1, 15), Err(ErrorCode::PollDoesNotExist));
    assert_eq!(ledger.vote(42, 1, 2, 15), Err(ErrorCode::CandidateNotFound));
    assert_eq!(ledger.vote(42, 1, 0, 15), Err(ErrorCode::CandidateNotFound));
    assert_eq!(ledger.voters.len(), 0);
    assert_eq!(ledger.candidates[0].votes, 0);
}

#[test]
fn vote_rejects_candidate_of_another_poll() {
    let mut ledger = Ledger::new();
    ledger.initialize().unwrap();
    ledger.create_poll(String::from("p1"), 10, 20).unwrap();
    ledger.create_poll(String::from("p2"), 10, 20).unwrap();
    ledger.register_candidate(2, String::from("c")).unwrap();
    // cid 1 exists, but under poll 2, not poll 1
    assert_eq!(ledger.vote(42, 1, 1, 15), Err(ErrorCode::CandidateNotFound));
    assert_eq!(ledger.voters.len(), 0);
}

#[test]
fn vote_rejects_inactive_poll() {
    let mut ledger = Ledger::new();
    ledger.initialize().unwrap();
    ledger.create_poll(String::from("p"), 10, 20).unwrap();
    ledger.register_candidate(1, String::from("ada")).unwrap();
    assert_eq!(ledger.vote(42, 1, 1, 9), Err(ErrorCode::PollNotActive));
    // the window is half-open: `end` itself is outside
    assert_eq!(ledger.vote(42, 1, 1, 20), Err(ErrorCode::PollNotActive));
    assert_eq!(ledger.vote(42, 1, 1, 10), Ok(()));
    assert_eq!(ledger.candidates[0].votes, 1);
}

#[test]
fn raw_vote_transition_checks_order() {
    let poll = active_poll(3);
    let mut candidate = Candidate {
        has_registered: true,
        cid: 9,
        poll_id: 3,
        name: String::from("ada"),
        votes: 0,
    };
    let mut voter = Voter { poll_id: 0, has_voted: false, cid: 0 };
    // mismatched poll record reported before anything else
    assert_eq!(
        instructions::vote(&poll, &mut candidate, &mut voter, 15, 4, 9),
        Err(ErrorCode::PollDoesNotExist),
    );
    // the window is checked before the candidate
    assert_eq!(
        instructions::vote(&poll, &mut candidate, &mut voter, 25, 3, 8),
        Err(ErrorCode::PollNotActive),
    );
    assert_eq!(
        instructions::vote(&poll, &mut candidate, &mut voter, 15, 3, 8),
        Err(ErrorCode::CandidateNotFound),
    );
    assert_eq!(instructions::vote(&poll, &mut candidate, &mut voter, 15, 3, 9), Ok(()));
    assert_eq!(voter, Voter { poll_id: 3, has_voted: true, cid: 9 });
    assert_eq!(candidate.votes, 1);
    assert_eq!(
        instructions::vote(&poll, &mut candidate, &mut voter, 16, 3, 9),
        Err(ErrorCode::AlreadyVoted),
    );
    assert_eq!(candidate.votes, 1);
}

#[test]
fn raw_initialize_zeroes_fresh_records() {
    let mut counter = Counter { count: 77 };
    let mut registrations = Registrations { count: 99 };
    instructions::initialize(&mut counter, &mut registrations);
    assert_eq!(counter.count, 0);
    assert_eq!(registrations.count, 0);
}

#[test]
fn raw_create_poll_increments_counter_only_on_success() {
    let mut counter = Counter { count: 4 };
    assert_eq!(
        instructions::create_poll(&mut counter, String::from("p"), 9, 9).unwrap_err(),
        ErrorCode::InvalidTimeRange,
    );
    assert_eq!(counter.count, 4);
    let poll = instructions::create_poll(&mut counter, String::from("p"), 9, 12).unwrap();
    assert_eq!(counter.count, 5);
    assert_eq!(poll.id, 5);
    assert_eq!(poll.candidates, 0);
}
