//! The custodian authority deriver: maps (program identity, escrow record
//! address) to a deterministic keyless address plus its disambiguation byte,
//! by searching downward from bump byte 255 for the first candidate whose
//! derived address is not a valid signing-curve point.

use vstd::prelude::*;
use crate::Address;

verus! {

/// The address the ledger's deterministic-address hash yields for
/// (record address, bump byte, program identity), or `None` where that
/// hash lands on the signing curve. A function of its arguments alone.
pub uninterp spec fn program_address_of(record: Seq<u8>, bump: u8, program: Seq<u8>) -> Option<
    Seq<u8>,
>;

/// Whether a 32-byte address is a valid point on the ed25519 signing curve,
/// and so could have a corresponding private key.
pub uninterp spec fn on_curve(addr: Seq<u8>) -> bool;

/// Relies on solana_program::pubkey::Pubkey::create_program_address with the
/// seeds [record bytes, [bump]]: it hashes the seeds together with the
/// program identity and a fixed marker, returns the 32-byte hash as the
/// derived address, and fails exactly when that hash is a valid curve point.
/// The result depends on the arguments alone.
#[verifier::external_body]
fn try_derive_authority(record: &Address, bump: u8, program: &Address) -> (r: Option<Address>)
    ensures
        match program_address_of(record@, bump, program@) {
            Some(a) => r matches Some(x) && x@ == a && a.len() == 32 && !on_curve(a),
            None => r is None,
        },
{
    let program_id = solana_program::pubkey::Pubkey::new_from_array(program.bytes);
    match solana_program::pubkey::Pubkey::create_program_address(
        &[&record.bytes, &[bump]],
        &program_id,
    ) {
        Ok(derived) => Some(Address { bytes: derived.to_bytes() }),
        Err(_) => None,
    }
}

/// Re-derives the custodian authority from a stored bump seed, as every
/// validation of an already-initialized record does: one hash, no search.
/// Returns `None` where that bump seed yields a curve point, so no keyless
/// authority exists for it.
pub fn derive_authority(program_id: &Address, record: &Address, bump: u8) -> (r: Option<Address>)
    ensures
        match program_address_of(record@, bump, program_id@) {
            Some(a) => r matches Some(x) && x@ == a && !on_curve(a),
            None => r is None,
        },
{
    try_derive_authority(record, bump, program_id)
}

/// The first bump byte at or below `bump` whose derived address is off the
/// curve, with that address; `None` if no bump byte down to 1 works.
pub open spec fn spec_find_from(program: Seq<u8>, record: Seq<u8>, bump: u8) -> Option<
    (Seq<u8>, u8),
>
    decreases bump,
{
    if bump == 0 {
        None
    } else {
        match program_address_of(record, bump, program) {
            Some(a) => Some((a, bump)),
            None => spec_find_from(program, record, (bump - 1) as u8),
        }
    }
}

/// The custodian authority and bump seed for (program identity, record
/// address): the search starts at bump byte 255.
pub open spec fn spec_find_authority(program: Seq<u8>, record: Seq<u8>) -> Option<(Seq<u8>, u8)> {
    spec_find_from(program, record, 255)
}

/// Finds the custodian authority for an escrow record address: the first
/// bump byte from 255 downward whose derived address has no corresponding
/// private key. Returns `None` in the statistically improbable case that
/// every bump byte down to 1 yields a curve point.
///
/// The returned address is never a valid signing-curve point.
pub fn find_authority_bump_seed(program_id: &Address, record: &Address) -> (r: Option<
    (Address, u8),
>)
    ensures
        match spec_find_authority(program_id@, record@) {
            Some((a, b)) => r matches Some(p) && p.0@ == a && p.1 == b && !on_curve(a),
            None => r is None,
        },
{
    let mut bump: u8 = 255;
    loop
        invariant
            1 <= bump <= 255,
            spec_find_authority(program_id@, record@) == spec_find_from(
                program_id@,
                record@,
                bump,
            ),
        decreases bump,
    {
        match try_derive_authority(record, bump, program_id) {
            Some(authority) => {
                return Some((authority, bump));
            },
            None => {},
        }
        if bump == 1 {
            return None;
        }
        bump = bump - 1;
    }
}

/// A successful search result always came from the hash at its own bump byte.
proof fn lemma_find_from_rederives(program: Seq<u8>, record: Seq<u8>, start: u8)
    ensures
        spec_find_from(program, record, start) matches Some((a, b))
            ==> program_address_of(record, b, program) == Some(a),
    decreases start,
{
    if start != 0 && program_address_of(record, start, program) is None {
        lemma_find_from_rederives(program, record, (start - 1) as u8);
    }
}

/// Law: the stored bump seed re-derives the found authority. Where the
/// search yields (authority, bump), the single hash at that bump byte yields
/// that same authority, so a validator holding only the record address and
/// the stored bump seed reconstructs the authority byte for byte.
pub proof fn lemma_stored_bump_rederives(program: Seq<u8>, record: Seq<u8>)
    ensures
        spec_find_authority(program, record) matches Some((a, b)) ==> program_address_of(
            record,
            b,
            program,
        ) == Some(a),
{
    lemma_find_from_rederives(program, record, 255);
}

/// Law: the derivation is deterministic. The custodian authority and bump
/// seed are a function of the program identity and record address alone, so
/// any two derivations from the same pair agree.
pub proof fn lemma_derivation_deterministic(
    program: Seq<u8>,
    record: Seq<u8>,
    r1: Option<(Seq<u8>, u8)>,
    r2: Option<(Seq<u8>, u8)>,
)
    requires
        r1 == spec_find_authority(program, record),
        r2 == spec_find_authority(program, record),
    ensures
        r1 == r2,
{
}

} // verus!
