//! The escrow account record: the fixed-size state blob the program owns,
//! one per escrow instance, and its packed binary layout.

use vstd::prelude::*;
use crate::Address;
use crate::encoding::{
    lemma_le_bytes_round_trip, lemma_u64_le_round_trip, push_address, push_u64_le, read_address,
    read_u64_le, spec_le_to_u64, spec_u64_le,
};
use crate::error::EscrowError;

verus! {

/// Exact byte length of a packed escrow record: state tag, bump seed,
/// five 32-byte addresses, and a 64-bit duration.
pub const RECORD_LEN: usize = 170;

/// Lifecycle state of an escrow record. A record whose tag byte is zero is
/// uninitialized; `Launched` is the funds-custody-ready state.
#[derive(Clone, Copy, Debug, PartialEq, Eq, Structural)]
pub enum EscrowState {
    Uninitialized,
    Launched,
}

/// The persistent state of one escrow instance.
#[derive(Clone, Copy, Debug, PartialEq, Eq)]
pub struct Escrow {
    /// Lifecycle state; never an out-of-range tag.
    pub state: EscrowState,
    /// The disambiguation byte that derives the custodian authority for
    /// this record; fixed at creation.
    pub bump_seed: u8,
    /// Which token type this escrow custodies.
    pub token_mint: Address,
    /// The token account holding the escrowed balance.
    pub token_account: Address,
    /// The party on whose behalf funds are ultimately released.
    pub launcher: Address,
    /// The party authorized to trigger cancellation.
    pub canceler: Address,
    /// Destination for returned funds on cancellation.
    pub canceler_token_account: Address,
    /// Validity window in seconds from creation.
    pub duration: u64,
}

/// The byte that encodes a lifecycle state.
pub open spec fn spec_state_tag(s: EscrowState) -> u8 {
    match s {
        EscrowState::Uninitialized => 0,
        EscrowState::Launched => 1,
    }
}

/// The packed bytes of an escrow record: tag, bump seed, the five
/// addresses, then the duration in little-endian order.
pub open spec fn spec_pack(e: Escrow) -> Seq<u8> {
    seq![spec_state_tag(e.state), e.bump_seed] + e.token_mint@ + e.token_account@ + e.launcher@
        + e.canceler@ + e.canceler_token_account@ + spec_u64_le(e.duration)
}

/// Whether bytes are a well-formed packed record: exactly `RECORD_LEN`
/// bytes with an in-range state tag.
pub open spec fn spec_valid_record(b: Seq<u8>) -> bool {
    b.len() == RECORD_LEN && (b[0] == 0 || b[0] == 1)
}

/// Field-for-field equality of two records, comparing addresses by their bytes.
pub open spec fn record_fields_eq(a: Escrow, b: Escrow) -> bool {
    a.state == b.state && a.bump_seed == b.bump_seed && a.token_mint@ == b.token_mint@
        && a.token_account@ == b.token_account@ && a.launcher@ == b.launcher@ && a.canceler@
        == b.canceler@ && a.canceler_token_account@ == b.canceler_token_account@ && a.duration
        == b.duration
}

/// Packing always yields exactly `RECORD_LEN` bytes, with the state tag and
/// the bump seed first; a packed record is always well formed.
pub proof fn lemma_pack_len(e: Escrow)
    ensures
        spec_pack(e).len() == RECORD_LEN,
        spec_pack(e)[0] == spec_state_tag(e.state),
        spec_pack(e)[1] == e.bump_seed,
        spec_valid_record(spec_pack(e)),
{
}

/// Law: the packed layout is injective. Two records that pack to the same
/// bytes agree on every field.
pub proof fn lemma_pack_injective(a: Escrow, b: Escrow)
    requires
        spec_pack(a) == spec_pack(b),
    ensures
        record_fields_eq(a, b),
{
    lemma_pack_len(a);
    lemma_pack_len(b);
    assert(spec_pack(a).subrange(2, 34) =~= a.token_mint@);
    assert(spec_pack(b).subrange(2, 34) =~= b.token_mint@);
    assert(spec_pack(a).subrange(34, 66) =~= a.token_account@);
    assert(spec_pack(b).subrange(34, 66) =~= b.token_account@);
    assert(spec_pack(a).subrange(66, 98) =~= a.launcher@);
    assert(spec_pack(b).subrange(66, 98) =~= b.launcher@);
    assert(spec_pack(a).subrange(98, 130) =~= a.canceler@);
    assert(spec_pack(b).subrange(98, 130) =~= b.canceler@);
    assert(spec_pack(a).subrange(130, 162) =~= a.canceler_token_account@);
    assert(spec_pack(b).subrange(130, 162) =~= b.canceler_token_account@);
    assert(spec_pack(a).subrange(162, 170) =~= spec_u64_le(a.duration));
    assert(spec_pack(b).subrange(162, 170) =~= spec_u64_le(b.duration));
    lemma_u64_le_round_trip(a.duration);
    lemma_u64_le_round_trip(b.duration);
}

impl Escrow {
    /// Serializes the record into its packed layout.
    pub fn pack(&self) -> (r: Vec<u8>)
        ensures
            r@ == spec_pack(*self),
            r@.len() == RECORD_LEN,
    {
        let mut v: Vec<u8> = Vec::new();
        let tag: u8 = match self.state {
            EscrowState::Uninitialized => 0,
            EscrowState::Launched => 1,
        };
        v.push(tag);
        v.push(self.bump_seed);
        push_address(&mut v, &self.token_mint);
        push_address(&mut v, &self.token_account);
        push_address(&mut v, &self.launcher);
        push_address(&mut v, &self.canceler);
        push_address(&mut v, &self.canceler_token_account);
        push_u64_le(&mut v, self.duration);
        proof {
            assert(v@ =~= spec_pack(*self));
            lemma_pack_len(*self);
        }
        v
    }

    /// Deserializes a packed record. Succeeds exactly on well-formed bytes,
    /// returning the unique record that packs to them; rejects any other
    /// byte length with `InvalidAccountSize` and an out-of-range state tag
    /// with `InvalidInstructionData`.
    pub fn unpack(data: &Vec<u8>) -> (r: Result<Escrow, EscrowError>)
        ensures
            r is Ok <==> spec_valid_record(data@),
            r matches Ok(e) ==> spec_pack(e) == data@,
            r matches Err(er) ==> (er == EscrowError::InvalidAccountSize <==> data@.len()
                != RECORD_LEN) && (er == EscrowError::InvalidInstructionData <==> (data@.len()
                == RECORD_LEN && data@[0] != 0 && data@[0] != 1)),
    {
        if data.len() != RECORD_LEN {
            return Err(EscrowError::InvalidAccountSize);
        }
        let tag = data[0];
        let state = if tag == 0 {
            EscrowState::Uninitialized
        } else if tag == 1 {
            EscrowState::Launched
        } else {
            return Err(EscrowError::InvalidInstructionData);
        };
        let e = Escrow {
            state,
            bump_seed: data[1],
            token_mint: read_address(data, 2),
            token_account: read_address(data, 34),
            launcher: read_address(data, 66),
            canceler: read_address(data, 98),
            canceler_token_account: read_address(data, 130),
            duration: read_u64_le(data, 162),
        };
        proof {
            lemma_le_bytes_round_trip(data@.subrange(162, 170));
            assert(spec_pack(e) =~= data@);
        }
        Ok(e)
    }
}

} // verus!
