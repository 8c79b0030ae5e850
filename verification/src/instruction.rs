//! The versioned binary request envelope: a leading variant tag byte
//! followed by the variant's fields in a fixed layout.

use vstd::prelude::*;
use crate::Address;
use crate::encoding::{
    lemma_le_bytes_round_trip, push_address, push_u64_le, read_address, read_u64_le,
    spec_le_to_u64, spec_u64_le,
};
use crate::error::EscrowError;

verus! {

/// Byte length of an encoded Initialize request: the tag byte, five
/// 32-byte addresses, and a 64-bit duration.
pub const INITIALIZE_LEN: usize = 169;

/// The fields of an Initialize request.
#[derive(Clone, Copy, Debug, PartialEq, Eq)]
pub struct InitializeArgs {
    /// Mint of the token this escrow custodies.
    pub mint: Address,
    /// The token account that will hold the escrowed balance.
    pub escrow_token_account: Address,
    /// The party on whose behalf funds are ultimately released.
    pub launcher: Address,
    /// The party authorized to trigger cancellation.
    pub canceler: Address,
    /// Destination for returned funds on cancellation.
    pub canceler_token_account: Address,
    /// Validity window in seconds from creation.
    pub duration: u64,
}

/// The closed set of request variants the processor accepts.
#[derive(Clone, Copy, Debug, PartialEq, Eq)]
pub enum EscrowInstruction {
    /// Populate an empty escrow record and take custody of a token account.
    Initialize(InitializeArgs),
}

/// Field-for-field equality of two Initialize requests, comparing
/// addresses by their bytes.
pub open spec fn args_fields_eq(a: InitializeArgs, b: InitializeArgs) -> bool {
    a.mint@ == b.mint@ && a.escrow_token_account@ == b.escrow_token_account@ && a.launcher@
        == b.launcher@ && a.canceler@ == b.canceler@ && a.canceler_token_account@
        == b.canceler_token_account@ && a.duration == b.duration
}

/// The encoded bytes of an Initialize request: tag zero, the five
/// addresses, then the duration in little-endian order.
pub open spec fn spec_encode_initialize(a: InitializeArgs) -> Seq<u8> {
    seq![0u8] + a.mint@ + a.escrow_token_account@ + a.launcher@ + a.canceler@
        + a.canceler_token_account@ + spec_u64_le(a.duration)
}

/// Whether bytes are a well-formed request envelope: not truncated, a
/// known variant tag, and no trailing bytes.
pub open spec fn spec_valid_request(b: Seq<u8>) -> bool {
    b.len() == INITIALIZE_LEN && b[0] == 0
}

/// Encoding always yields exactly `INITIALIZE_LEN` bytes, tagged zero.
pub proof fn lemma_encode_len(a: InitializeArgs)
    ensures
        spec_encode_initialize(a).len() == INITIALIZE_LEN,
        spec_encode_initialize(a)[0] == 0,
        spec_valid_request(spec_encode_initialize(a)),
{
}

/// Law: encoding is injective. Two Initialize requests that encode to the
/// same bytes agree on every field.
pub proof fn lemma_encode_injective(a: InitializeArgs, b: InitializeArgs)
    requires
        spec_encode_initialize(a) == spec_encode_initialize(b),
    ensures
        args_fields_eq(a, b),
{
    lemma_encode_len(a);
    lemma_encode_len(b);
    assert(spec_encode_initialize(a).subrange(1, 33) =~= a.mint@);
    assert(spec_encode_initialize(b).subrange(1, 33) =~= b.mint@);
    assert(spec_encode_initialize(a).subrange(33, 65) =~= a.escrow_token_account@);
    assert(spec_encode_initialize(b).subrange(33, 65) =~= b.escrow_token_account@);
    assert(spec_encode_initialize(a).subrange(65, 97) =~= a.launcher@);
    assert(spec_encode_initialize(b).subrange(65, 97) =~= b.launcher@);
    assert(spec_encode_initialize(a).subrange(97, 129) =~= a.canceler@);
    assert(spec_encode_initialize(b).subrange(97, 129) =~= b.canceler@);
    assert(spec_encode_initialize(a).subrange(129, 161) =~= a.canceler_token_account@);
    assert(spec_encode_initialize(b).subrange(129, 161) =~= b.canceler_token_account@);
    assert(spec_encode_initialize(a).subrange(161, 169) =~= spec_u64_le(a.duration));
    assert(spec_encode_initialize(b).subrange(161, 169) =~= spec_u64_le(b.duration));
    crate::encoding::lemma_u64_le_round_trip(a.duration);
    crate::encoding::lemma_u64_le_round_trip(b.duration);
}

impl InitializeArgs {
    /// Serializes the request into its envelope.
    pub fn encode(&self) -> (r: Vec<u8>)
        ensures
            r@ == spec_encode_initialize(*self),
            r@.len() == INITIALIZE_LEN,
    {
        let mut v: Vec<u8> = Vec::new();
        v.push(0u8);
        push_address(&mut v, &self.mint);
        push_address(&mut v, &self.escrow_token_account);
        push_address(&mut v, &self.launcher);
        push_address(&mut v, &self.canceler);
        push_address(&mut v, &self.canceler_token_account);
        push_u64_le(&mut v, self.duration);
        proof {
            assert(v@ =~= spec_encode_initialize(*self));
            lemma_encode_len(*self);
        }
        v
    }
}

impl EscrowInstruction {
    /// Deserializes a request envelope. Succeeds exactly on well-formed
    /// bytes, returning the unique request that encodes to them; truncated
    /// input, an unknown tag, and trailing bytes all fail with
    /// `InvalidInstructionData`.
    pub fn decode(input: &Vec<u8>) -> (r: Result<EscrowInstruction, EscrowError>)
        ensures
            r is Ok <==> spec_valid_request(input@),
            r matches Ok(ins) ==> (ins matches EscrowInstruction::Initialize(a)
                && spec_encode_initialize(a) == input@),
            r is Err ==> r == Err::<EscrowInstruction, EscrowError>(
                EscrowError::InvalidInstructionData,
            ),
    {
        if input.len() != INITIALIZE_LEN {
            return Err(EscrowError::InvalidInstructionData);
        }
        if input[0] != 0 {
            return Err(EscrowError::InvalidInstructionData);
        }
        let a = InitializeArgs {
            mint: read_address(input, 1),
            escrow_token_account: read_address(input, 33),
            launcher: read_address(input, 65),
            canceler: read_address(input, 97),
            canceler_token_account: read_address(input, 129),
            duration: read_u64_le(input, 161),
        };
        proof {
            lemma_le_bytes_round_trip(input@.subrange(161, 169));
            assert(spec_encode_initialize(a) =~= input@);
        }
        Ok(EscrowInstruction::Initialize(a))
    }
}

/// Law: encoding round-trips through decoding. The bytes of an encoded
/// Initialize request are a well-formed envelope, so `decode` accepts them,
/// and by its contract it returns a request that encodes to the same bytes —
/// which, as stated here, has exactly the fields that were encoded.
pub proof fn lemma_encode_decode_round_trip(a: InitializeArgs)
    ensures
        spec_valid_request(spec_encode_initialize(a)),
        forall|d: InitializeArgs|
            spec_encode_initialize(d) == spec_encode_initialize(a) ==> args_fields_eq(d, a),
{
    lemma_encode_len(a);
    assert forall|d: InitializeArgs|
        spec_encode_initialize(d) == spec_encode_initialize(a) implies args_fields_eq(d, a) by {
        lemma_encode_injective(d, a);
    }
}

} // verus!
