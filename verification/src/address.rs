use vstd::bytes::{lemma_auto_spec_u64_to_from_le_bytes, spec_u64_to_le_bytes, u64_to_le_bytes};
use vstd::prelude::*;

use crate::state::{
    CANDIDATE_SPACE, COUNTER_SPACE, POLL_SPACE, REGISTRATIONS_SPACE, VOTER_SPACE,
};

verus! {

/// Kind tag for the `Counter` singleton's address.
pub const COUNTER_TAG: u8 = 0;

/// Kind tag for the `Registrations` singleton's address.
pub const REGISTRATIONS_TAG: u8 = 1;

/// Kind tag for a poll record's address.
pub const POLL_TAG: u8 = 2;

/// Kind tag for a candidate record's address.
pub const CANDIDATE_TAG: u8 = 3;

/// Kind tag for a voter record's address.
pub const VOTER_TAG: u8 = 4;

/// The logical key of a record: what a record *is about*, never what it
/// contains.  The singletons have fixed keys; a poll is keyed by its id; a
/// candidate by its poll and the registration sequence number current when
/// it was created; a voter record by its poll and the voter's identity.
#[derive(Clone, Copy, Debug, PartialEq, Eq, Structural)]
pub enum LogicalKey {
    Counter,
    Registrations,
    Poll { poll_id: u64 },
    Candidate { poll_id: u64, sequence: u64 },
    Voter { poll_id: u64, voter: u64 },
}

/// The disambiguation tag of a key: it separates the address spaces of the
/// record kinds, so that a candidate key and a voter key with the same pair
/// of numbers resolve to different addresses.
pub open spec fn spec_tag_of(key: LogicalKey) -> u8 {
    match key {
        LogicalKey::Counter => COUNTER_TAG,
        LogicalKey::Registrations => REGISTRATIONS_TAG,
        LogicalKey::Poll { .. } => POLL_TAG,
        LogicalKey::Candidate { .. } => CANDIDATE_TAG,
        LogicalKey::Voter { .. } => VOTER_TAG,
    }
}

/// The storage address of a key: the kind tag followed by the key parts in
/// fixed-width little-endian form.  Deterministic and injective by
/// construction, and independent of any record's contents.
pub open spec fn spec_derive(key: LogicalKey) -> Seq<u8> {
    match key {
        LogicalKey::Counter => seq![COUNTER_TAG],
        LogicalKey::Registrations => seq![REGISTRATIONS_TAG],
        LogicalKey::Poll { poll_id } => seq![POLL_TAG] + spec_u64_to_le_bytes(poll_id),
        LogicalKey::Candidate { poll_id, sequence } => seq![CANDIDATE_TAG] + spec_u64_to_le_bytes(
            poll_id,
        ) + spec_u64_to_le_bytes(sequence),
        LogicalKey::Voter { poll_id, voter } => seq![VOTER_TAG] + spec_u64_to_le_bytes(poll_id)
            + spec_u64_to_le_bytes(voter),
    }
}

/// The storage to reserve when creating the record a key addresses.  A
/// record is created with exactly its declared size; it never grows.
pub open spec fn spec_space_for(key: LogicalKey) -> u64 {
    match key {
        LogicalKey::Counter => COUNTER_SPACE,
        LogicalKey::Registrations => REGISTRATIONS_SPACE,
        LogicalKey::Poll { .. } => POLL_SPACE,
        LogicalKey::Candidate { .. } => CANDIDATE_SPACE,
        LogicalKey::Voter { .. } => VOTER_SPACE,
    }
}

/// The storage to reserve when creating the record `key` addresses.
pub fn space_for(key: LogicalKey) -> (r: u64)
    ensures
        r == spec_space_for(key),
{
    match key {
        LogicalKey::Counter => COUNTER_SPACE,
        LogicalKey::Registrations => REGISTRATIONS_SPACE,
        LogicalKey::Poll { .. } => POLL_SPACE,
        LogicalKey::Candidate { .. } => CANDIDATE_SPACE,
        LogicalKey::Voter { .. } => VOTER_SPACE,
    }
}

/// Derive the storage address and the disambiguation tag of a logical key.
pub fn derive(key: LogicalKey) -> (r: (Vec<u8>, u8))
    ensures
        r.0@ == spec_derive(key),
        r.1 == spec_tag_of(key),
{
    match key {
        LogicalKey::Counter => {
            let mut address: Vec<u8> = Vec::new();
            address.push(COUNTER_TAG);
            proof {
                assert(address@ =~= spec_derive(key));
            }
            (address, COUNTER_TAG)
        },
        LogicalKey::Registrations => {
            let mut address: Vec<u8> = Vec::new();
            address.push(REGISTRATIONS_TAG);
            proof {
                assert(address@ =~= spec_derive(key));
            }
            (address, REGISTRATIONS_TAG)
        },
        LogicalKey::Poll { poll_id } => {
            let mut address: Vec<u8> = Vec::new();
            address.push(POLL_TAG);
            let mut id_bytes = u64_to_le_bytes(poll_id);
            address.append(&mut id_bytes);
            proof {
                assert(address@ =~= spec_derive(key));
            }
            (address, POLL_TAG)
        },
        LogicalKey::Candidate { poll_id, sequence } => {
            let mut address: Vec<u8> = Vec::new();
            address.push(CANDIDATE_TAG);
            let mut id_bytes = u64_to_le_bytes(poll_id);
            address.append(&mut id_bytes);
            let mut sequence_bytes = u64_to_le_bytes(sequence);
            address.append(&mut sequence_bytes);
            proof {
                assert(address@ =~= spec_derive(key));
            }
            (address, CANDIDATE_TAG)
        },
        LogicalKey::Voter { poll_id, voter } => {
            let mut address: Vec<u8> = Vec::new();
            address.push(VOTER_TAG);
            let mut id_bytes = u64_to_le_bytes(poll_id);
            address.append(&mut id_bytes);
            let mut voter_bytes = u64_to_le_bytes(voter);
            address.append(&mut voter_bytes);
            proof {
                assert(address@ =~= spec_derive(key));
            }
            (address, VOTER_TAG)
        },
    }
}

/// Two transitions that reference the same logical key resolve to the same
/// address, and — the injectivity direction proved here — distinct keys never
/// collide, so no two records can back the same key.
pub proof fn lemma_derive_injective(k1: LogicalKey, k2: LogicalKey)
    requires
        spec_derive(k1) == spec_derive(k2),
    ensures
        k1 == k2,
{
    lemma_auto_spec_u64_to_from_le_bytes();
    assert(spec_derive(k1)[0] == spec_tag_of(k1));
    assert(spec_derive(k2)[0] == spec_tag_of(k2));
    match (k1, k2) {
        (LogicalKey::Poll { poll_id: a }, LogicalKey::Poll { poll_id: b }) => {
            lemma_one_u64_part(seq![POLL_TAG], a, b);
        },
        (
            LogicalKey::Candidate { poll_id: a1, sequence: a2 },
            LogicalKey::Candidate { poll_id: b1, sequence: b2 },
        ) => {
            lemma_two_u64_parts(seq![CANDIDATE_TAG], a1, a2, b1, b2);
        },
        (
            LogicalKey::Voter { poll_id: a1, voter: a2 },
            LogicalKey::Voter { poll_id: b1, voter: b2 },
        ) => {
            lemma_two_u64_parts(seq![VOTER_TAG], a1, a2, b1, b2);
        },
        _ => {},
    }
}

/// A one-part key's bytes determine the part.
proof fn lemma_one_u64_part(prefix: Seq<u8>, a: u64, b: u64)
    requires
        prefix + spec_u64_to_le_bytes(a) == prefix + spec_u64_to_le_bytes(b),
    ensures
        a == b,
{
    lemma_auto_spec_u64_to_from_le_bytes();
    let sa = spec_u64_to_le_bytes(a);
    let sb = spec_u64_to_le_bytes(b);
    assert forall|i: int| 0 <= i < 8 implies sa[i] == sb[i] by {
        assert((prefix + sa)[prefix.len() + i] == sa[i]);
        assert((prefix + sb)[prefix.len() + i] == sb[i]);
    }
    assert(sa =~= sb);
}

/// A two-part key's bytes determine both parts.
proof fn lemma_two_u64_parts(prefix: Seq<u8>, a1: u64, a2: u64, b1: u64, b2: u64)
    requires
        prefix + spec_u64_to_le_bytes(a1) + spec_u64_to_le_bytes(a2) == prefix + spec_u64_to_le_bytes(
            b1,
        ) + spec_u64_to_le_bytes(b2),
    ensures
        a1 == b1,
        a2 == b2,
{
    lemma_auto_spec_u64_to_from_le_bytes();
    let sa1 = spec_u64_to_le_bytes(a1);
    let sa2 = spec_u64_to_le_bytes(a2);
    let sb1 = spec_u64_to_le_bytes(b1);
    let sb2 = spec_u64_to_le_bytes(b2);
    assert forall|i: int| 0 <= i < 8 implies sa1[i] == sb1[i] && sa2[i] == sb2[i] by {
        assert((prefix + sa1 + sa2)[prefix.len() + i] == sa1[i]);
        assert((prefix + sb1 + sb2)[prefix.len() + i] == sb1[i]);
        assert((prefix + sa1 + sa2)[prefix.len() + 8 + i] == sa2[i]);
        assert((prefix + sb1 + sb2)[prefix.len() + 8 + i] == sb2[i]);
    }
    assert(sa1 =~= sb1);
    assert(sa2 =~= sb2);
}

} // verus!
