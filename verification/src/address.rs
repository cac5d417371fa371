//! Where a record is kept: the address derived from the record's key.
//!
//! A key is turned into seeds: a tag for the kind of record, the poll id as
//! eight little-endian bytes, and for options and voters the ordinal (eight
//! little-endian bytes) or the voter's key bytes. The address is the program
//! address that the seeds derive under the program's own id.

use vstd::prelude::*;
use vstd::bytes::{
    lemma_auto_spec_u64_to_from_le_bytes, spec_u64_from_le_bytes, spec_u64_to_le_bytes,
    u64_to_le_bytes,
};
use anchor_lang::prelude::Pubkey;
use crate::identity::Identity;

verus! {

/// The tag of poll records: the bytes of `poll`.
pub open spec fn poll_tag() -> Seq<u8> {
    seq![112u8, 111u8, 108u8, 108u8]
}

/// The tag of option records: the bytes of `poll_option`.
pub open spec fn poll_option_tag() -> Seq<u8> {
    seq![112u8, 111u8, 108u8, 108u8, 95u8, 111u8, 112u8, 116u8, 105u8, 111u8, 110u8]
}

/// The tag of voter records: the bytes of `vote`.
pub open spec fn vote_tag() -> Seq<u8> {
    seq![118u8, 111u8, 116u8, 101u8]
}

/// What identifies a record.
#[derive(Clone, Copy, Debug, PartialEq, Eq)]
pub enum RecordKey {
    /// The poll `poll_id`.
    Poll { poll_id: u64 },
    /// The option `ordinal` of the poll `poll_id`.
    PollOption { poll_id: u64, ordinal: u64 },
    /// The record of `voter` on the poll `poll_id`.
    Voter { poll_id: u64, voter: Identity },
}

/// A [`RecordKey`] as a mathematical value.
pub enum RecordKeyView {
    Poll { poll_id: u64 },
    PollOption { poll_id: u64, ordinal: u64 },
    Voter { poll_id: u64, voter: Seq<u8> },
}

impl View for RecordKey {
    type V = RecordKeyView;

    open spec fn view(&self) -> RecordKeyView {
        match *self {
            RecordKey::Poll { poll_id } => RecordKeyView::Poll { poll_id },
            RecordKey::PollOption { poll_id, ordinal } => RecordKeyView::PollOption {
                poll_id,
                ordinal,
            },
            RecordKey::Voter { poll_id, voter } => RecordKeyView::Voter { poll_id, voter: voter@ },
        }
    }
}

impl RecordKeyView {
    /// A voter's key bytes are 32.
    pub open spec fn wf(self) -> bool {
        self is Voter ==> self->Voter_voter.len() == 32
    }

    /// The seeds of the key, in the order in which they are hashed.
    pub open spec fn seeds(self) -> Seq<Seq<u8>> {
        match self {
            RecordKeyView::Poll { poll_id } => seq![poll_tag(), spec_u64_to_le_bytes(poll_id)],
            RecordKeyView::PollOption { poll_id, ordinal } => seq![
                poll_option_tag(),
                spec_u64_to_le_bytes(poll_id),
                spec_u64_to_le_bytes(ordinal),
            ],
            RecordKeyView::Voter { poll_id, voter } => seq![
                vote_tag(),
                spec_u64_to_le_bytes(poll_id),
                voter,
            ],
        }
    }

    /// The bytes that the derivation hashes for this key: its seeds, one
    /// after another.
    pub open spec fn preimage(self) -> Seq<u8> {
        self.seeds().flatten()
    }
}

/// The bytes of each seed of a list.
pub open spec fn seeds_view(seeds: Seq<Vec<u8>>) -> Seq<Seq<u8>> {
    Seq::new(seeds.len(), |i: int| seeds[i]@)
}

/// The program address that `seeds` derive under the program id `program`,
/// with its bump seed; `None` where the seeds derive none.
pub uninterp spec fn program_address(seeds: Seq<Seq<u8>>, program: Seq<u8>) -> Option<
    (Seq<u8>, u8),
>;

/// An address and its bump seed as mathematical values.
pub open spec fn address_view(found: Option<(Identity, u8)>) -> Option<(Seq<u8>, u8)> {
    match found {
        Some((address, bump)) => Some((address@, bump)),
        None => None,
    }
}

/// Calls `Pubkey::try_find_program_address` of `anchor_lang`. Not proved:
/// that the address and bump seed it finds depend on the seeds and the
/// program id alone, which is what gives them the name [`program_address`].
#[verifier::external_body]
fn find_program_address(seeds: &Vec<Vec<u8>>, program: &Identity) -> (found: Option<(Identity, u8)>)
    ensures
        address_view(found) == program_address(seeds_view(seeds@), program@),
{
    let slices: Vec<&[u8]> = seeds.iter().map(|seed| seed.as_slice()).collect();
    let program_id = Pubkey::new_from_array(program.bytes);
    match Pubkey::try_find_program_address(&slices, &program_id) {
        Some((address, bump)) => Some((Identity { bytes: address.to_bytes() }, bump)),
        None => None,
    }
}

impl RecordKey {
    /// The seeds of the key.
    pub fn seeds(&self) -> (seeds: Vec<Vec<u8>>)
        ensures
            seeds_view(seeds@) == self@.seeds(),
    {
        let mut seeds: Vec<Vec<u8>> = Vec::new();
        match self {
            RecordKey::Poll { poll_id } => {
                seeds.push(vec![112u8, 111u8, 108u8, 108u8]);
                seeds.push(u64_to_le_bytes(*poll_id));
            },
            RecordKey::PollOption { poll_id, ordinal } => {
                seeds.push(
                    vec![112u8, 111u8, 108u8, 108u8, 95u8, 111u8, 112u8, 116u8, 105u8, 111u8, 110u8],
                );
                seeds.push(u64_to_le_bytes(*poll_id));
                seeds.push(u64_to_le_bytes(*ordinal));
            },
            RecordKey::Voter { poll_id, voter } => {
                seeds.push(vec![118u8, 111u8, 116u8, 101u8]);
                seeds.push(u64_to_le_bytes(*poll_id));
                seeds.push(voter.to_vec());
            },
        }
        assert(seeds_view(seeds@) =~= self@.seeds());
        seeds
    }

    /// The address of the record under the program id `program`, with its
    /// bump seed: what the key's seeds derive.
    pub fn address(&self, program: &Identity) -> (found: Option<(Identity, u8)>)
        ensures
            address_view(found) == program_address(self@.seeds(), program@),
    {
        let seeds = self.seeds();
        find_program_address(&seeds, program)
    }
}

/// The hashed bytes of a key: tag, poll id, and what else the key holds.
pub proof fn lemma_preimage_parts(key: RecordKeyView)
    ensures
        key.preimage() =~= match key {
            RecordKeyView::Poll { poll_id } => poll_tag() + spec_u64_to_le_bytes(poll_id),
            RecordKeyView::PollOption { poll_id, ordinal } => poll_option_tag()
                + spec_u64_to_le_bytes(poll_id) + spec_u64_to_le_bytes(ordinal),
            RecordKeyView::Voter { poll_id, voter } => vote_tag() + spec_u64_to_le_bytes(poll_id)
                + voter,
        },
{
    reveal_with_fuel(Seq::flatten, 4);
    let seeds = key.seeds();
    match key {
        RecordKeyView::Poll { poll_id } => {
            assert(seeds.drop_first() =~= seq![spec_u64_to_le_bytes(poll_id)]);
            assert(seeds.drop_first().drop_first() =~= Seq::<Seq<u8>>::empty());
        },
        RecordKeyView::PollOption { poll_id, ordinal } => {
            assert(seeds.drop_first() =~= seq![
                spec_u64_to_le_bytes(poll_id),
                spec_u64_to_le_bytes(ordinal),
            ]);
            assert(seeds.drop_first().drop_first() =~= seq![spec_u64_to_le_bytes(ordinal)]);
            assert(seeds.drop_first().drop_first().drop_first() =~= Seq::<Seq<u8>>::empty());
        },
        RecordKeyView::Voter { poll_id, voter } => {
            assert(seeds.drop_first() =~= seq![spec_u64_to_le_bytes(poll_id), voter]);
            assert(seeds.drop_first().drop_first() =~= seq![voter]);
            assert(seeds.drop_first().drop_first().drop_first() =~= Seq::<Seq<u8>>::empty());
        },
    }
}

/// Two keys whose seeds hash the same bytes are the same key: no two records
/// share the bytes from which their address is derived.
pub proof fn law_keys_do_not_collide(a: RecordKeyView, b: RecordKeyView)
    requires
        a.wf(),
        b.wf(),
        a.preimage() == b.preimage(),
    ensures
        a == b,
{
    lemma_preimage_parts(a);
    lemma_preimage_parts(b);
    lemma_auto_spec_u64_to_from_le_bytes();
    let pa = a.preimage();
    let pb = b.preimage();
    // The three kinds hash 12, 27 and 44 bytes.
    assert(a is Poll ==> pa.len() == 12);
    assert(a is PollOption ==> pa.len() == 27);
    assert(a is Voter ==> pa.len() == 44);
    assert(b is Poll ==> pb.len() == 12);
    assert(b is PollOption ==> pb.len() == 27);
    assert(b is Voter ==> pb.len() == 44);
    match (a, b) {
        (RecordKeyView::Poll { poll_id: x }, RecordKeyView::Poll { poll_id: y }) => {
            assert(pa.subrange(4, 12) =~= spec_u64_to_le_bytes(x));
            assert(pb.subrange(4, 12) =~= spec_u64_to_le_bytes(y));
            assert(spec_u64_from_le_bytes(spec_u64_to_le_bytes(x)) == x);
            assert(spec_u64_from_le_bytes(spec_u64_to_le_bytes(y)) == y);
        },
        (
            RecordKeyView::PollOption { poll_id: x, ordinal: m },
            RecordKeyView::PollOption { poll_id: y, ordinal: n },
        ) => {
            assert(pa.subrange(11, 19) =~= spec_u64_to_le_bytes(x));
            assert(pb.subrange(11, 19) =~= spec_u64_to_le_bytes(y));
            assert(pa.subrange(19, 27) =~= spec_u64_to_le_bytes(m));
            assert(pb.subrange(19, 27) =~= spec_u64_to_le_bytes(n));
            assert(spec_u64_from_le_bytes(spec_u64_to_le_bytes(x)) == x);
            assert(spec_u64_from_le_bytes(spec_u64_to_le_bytes(y)) == y);
            assert(spec_u64_from_le_bytes(spec_u64_to_le_bytes(m)) == m);
            assert(spec_u64_from_le_bytes(spec_u64_to_le_bytes(n)) == n);
        },
        (
            RecordKeyView::Voter { poll_id: x, voter: v },
            RecordKeyView::Voter { poll_id: y, voter: w },
        ) => {
            assert(pa.subrange(4, 12) =~= spec_u64_to_le_bytes(x));
            assert(pb.subrange(4, 12) =~= spec_u64_to_le_bytes(y));
            assert(pa.subrange(12, 44) =~= v);
            assert(pb.subrange(12, 44) =~= w);
            assert(spec_u64_from_le_bytes(spec_u64_to_le_bytes(x)) == x);
            assert(spec_u64_from_le_bytes(spec_u64_to_le_bytes(y)) == y);
        },
        _ => {},
    }
}

} // verus!
