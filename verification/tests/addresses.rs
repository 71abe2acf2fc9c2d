use votee::address::{
    LogicalKey, CANDIDATE_TAG, COUNTER_TAG, POLL_TAG, REGISTRATIONS_TAG, VOTER_TAG,
};
use votee::instructions::{CreatePoll, Initialize, RegisterCandidate, Vote};
use votee::state::{CANDIDATE_SPACE, COUNTER_SPACE, POLL_SPACE, REGISTRATIONS_SPACE, VOTER_SPACE};

#[test]
fn derivation_is_deterministic() {
    let keys = [
        LogicalKey::Counter,
        LogicalKey::Registrations,
        LogicalKey::Poll { poll_id: 5 },
        LogicalKey::Candidate { poll_id: 5, sequence: 3 },
        LogicalKey::Voter { poll_id: 5, voter: 900 },
    ];
    for key in keys {
        assert_eq!(votee::address::derive(key), votee::address::derive(key));
    }
}

#[test]
fn distinct_keys_get_distinct_addresses() {
    let addresses: Vec<Vec<u8>> = [
        LogicalKey::Counter,
        LogicalKey::Registrations,
        LogicalKey::Poll { poll_id: 5 },
        LogicalKey::Poll { poll_id: 6 },
        LogicalKey::Candidate { poll_id: 5, sequence: 3 },
        LogicalKey::Candidate { poll_id: 5, sequence: 4 },
        LogicalKey::Candidate { poll_id: 3, sequence: 5 },
        // the same numbers as a candidate key, under the voter kind
        LogicalKey::Voter { poll_id: 5, voter: 3 },
        LogicalKey::Voter { poll_id: 5, voter: 4 },
    ]
    .into_iter()
    .map(|k| votee::address::derive(k).0)
    .collect();
    for i in 0..addresses.len() {
        for j in 0..addresses.len() {
            if i != j {
                assert_ne!(addresses[i], addresses[j]);
            }
        }
    }
}

#[test]
fn address_layout_is_tag_then_le_key_parts() {
    let (counter, tag) = votee::address::derive(LogicalKey::Counter);
    assert_eq!(counter, vec![COUNTER_TAG]);
    assert_eq!(tag, COUNTER_TAG);
    let (registrations, tag) = votee::address::derive(LogicalKey::Registrations);
    assert_eq!(registrations, vec![REGISTRATIONS_TAG]);
    assert_eq!(tag, REGISTRATIONS_TAG);
    let (poll, tag) = votee::address::derive(LogicalKey::Poll { poll_id: 0x0102030405060708 });
    assert_eq!(poll, vec![POLL_TAG, 8, 7, 6, 5, 4, 3, 2, 1]);
    assert_eq!(tag, POLL_TAG);
    let (candidate, tag) = votee::address::derive(LogicalKey::Candidate { poll_id: 1, sequence: 2 });
    assert_eq!(candidate, vec![CANDIDATE_TAG, 1, 0, 0, 0, 0, 0, 0, 0, 2, 0, 0, 0, 0, 0, 0, 0]);
    assert_eq!(tag, CANDIDATE_TAG);
    let (voter, tag) = votee::address::derive(LogicalKey::Voter { poll_id: 1, voter: 2 });
    assert_eq!(voter, vec![VOTER_TAG, 1, 0, 0, 0, 0, 0, 0, 0, 2, 0, 0, 0, 0, 0, 0, 0]);
    assert_eq!(tag, VOTER_TAG);
}

#[test]
fn account_bundles_carry_the_derived_addresses() {
    let init = Initialize::derive();
    assert_eq!(init.counter_address, votee::address::derive(LogicalKey::Counter).0);
    assert_eq!(init.registrations_address, votee::address::derive(LogicalKey::Registrations).0);

    // a create-poll submitted while the counter reads 4 targets poll id 5
    let create = CreatePoll::derive(4);
    assert_eq!(create.counter_address, votee::address::derive(LogicalKey::Counter).0);
    assert_eq!(create.poll_address, votee::address::derive(LogicalKey::Poll { poll_id: 5 }).0);

    // a registration submitted while 7 registrations exist targets sequence 8
    let register = RegisterCandidate::derive(5, 7);
    assert_eq!(register.poll_address, votee::address::derive(LogicalKey::Poll { poll_id: 5 }).0);
    assert_eq!(
        register.candidate_address,
        votee::address::derive(LogicalKey::Candidate { poll_id: 5, sequence: 8 }).0,
    );
    assert_eq!(register.registrations_address, votee::address::derive(LogicalKey::Registrations).0);

    let vote = Vote::derive(5, 8, 42);
    assert_eq!(vote.poll_address, votee::address::derive(LogicalKey::Poll { poll_id: 5 }).0);
    assert_eq!(vote.candidate_address, votee::address::derive(LogicalKey::Candidate { poll_id: 5, sequence: 8 }).0);
    assert_eq!(vote.voter_address, votee::address::derive(LogicalKey::Voter { poll_id: 5, voter: 42 }).0);
}

#[test]
fn record_space_budgets() {
    assert_eq!(COUNTER_SPACE, 16);
    assert_eq!(REGISTRATIONS_SPACE, 16);
    assert_eq!(POLL_SPACE, 8 + 8 + (4 + 280) + 8 + 8 + 8);
    assert_eq!(CANDIDATE_SPACE, 8 + 1 + 8 + 8 + (4 + 32) + 8);
    assert_eq!(VOTER_SPACE, 8 + 8 + 1 + 8);
}

#[test]
fn space_to_reserve_follows_the_key_kind() {
    assert_eq!(votee::address::space_for(LogicalKey::Counter), COUNTER_SPACE);
    assert_eq!(votee::address::space_for(LogicalKey::Registrations), REGISTRATIONS_SPACE);
    assert_eq!(votee::address::space_for(LogicalKey::Poll { poll_id: 3 }), POLL_SPACE);
    assert_eq!(
        votee::address::space_for(LogicalKey::Candidate { poll_id: 3, sequence: 1 }),
        CANDIDATE_SPACE,
    );
    assert_eq!(votee::address::space_for(LogicalKey::Voter { poll_id: 3, voter: 9 }), VOTER_SPACE);
}
