//! The instruction processor: validates every account it is handed against
//! the program's own rules and performs the record mutation only after all
//! checks pass, so failure never leaves a partial write.

use vstd::prelude::*;
use crate::{address_eq, Address};
use crate::derive::{find_authority_bump_seed, spec_find_authority};
use crate::encoding::read_address;
use crate::error::EscrowError;
use crate::instruction::{spec_encode_initialize, EscrowInstruction, InitializeArgs};
use crate::state::{spec_pack, Escrow, EscrowState, RECORD_LEN};

verus! {

/// Exact byte length of a token account in the dependent token program's
/// fixed layout.
pub const TOKEN_ACCOUNT_LEN: usize = 165;

/// A snapshot of one ledger account as the host hands it to an instruction:
/// its address, the program that owns it, and its data bytes.
pub struct AccountView {
    pub address: Address,
    pub owner: Address,
    pub data: Vec<u8>,
}

/// The mint field of a token account in the dependent token program's
/// layout: its first 32 bytes.
pub open spec fn spec_token_mint(d: Seq<u8>) -> Seq<u8> {
    d.subrange(0, 32)
}

/// The authority field of a token account in the dependent token program's
/// layout: bytes 32 to 64.
pub open spec fn spec_token_authority(d: Seq<u8>) -> Seq<u8> {
    d.subrange(32, 64)
}

/// What Initialize does, as a function of the snapshots it is handed: the
/// new record bytes on success, or the first failing check's error.
///
/// The checks run in this order: the record must be owned by this program,
/// sized exactly `RECORD_LEN`, and still uninitialized; the token account
/// must be owned by the dependent token program, sized exactly
/// `TOKEN_ACCOUNT_LEN`, be the account the request names, hold the mint the
/// request names, and have the custodian authority this program derives for
/// the record address. On success every record field comes from the
/// request, the bump seed from the derivation, and the state is `Launched`.
pub open spec fn spec_process_initialize(
    program_id: Address,
    token_program_id: Address,
    record: AccountView,
    token: AccountView,
    args: InitializeArgs,
) -> Result<Seq<u8>, EscrowError> {
    if record.owner@ != program_id@ {
        Err(EscrowError::InvalidOwner)
    } else if record.data@.len() != RECORD_LEN {
        Err(EscrowError::InvalidAccountSize)
    } else if record.data@[0] != 0 {
        Err(EscrowError::AlreadyInitialized)
    } else if token.owner@ != token_program_id@ {
        Err(EscrowError::InvalidOwner)
    } else if token.data@.len() != TOKEN_ACCOUNT_LEN {
        Err(EscrowError::InvalidAccountSize)
    } else if token.address@ != args.escrow_token_account@ {
        Err(EscrowError::InvalidAuthority)
    } else if spec_token_mint(token.data@) != args.mint@ {
        Err(EscrowError::MintMismatch)
    } else {
        match spec_find_authority(program_id@, record.address@) {
            None => Err(EscrowError::InvalidAuthority),
            Some((authority, bump)) => if spec_token_authority(token.data@) != authority {
                Err(EscrowError::InvalidAuthority)
            } else {
                Ok(
                    spec_pack(
                        Escrow {
                            state: EscrowState::Launched,
                            bump_seed: bump,
                            token_mint: args.mint,
                            token_account: args.escrow_token_account,
                            launcher: args.launcher,
                            canceler: args.canceler,
                            canceler_token_account: args.canceler_token_account,
                            duration: args.duration,
                        },
                    ),
                )
            },
        }
    }
}

/// Validates the handed accounts and populates the escrow record in one
/// atomic step. On any failure the record bytes are left exactly as they
/// were: no partial write ever happens.
pub fn process_initialize(
    program_id: &Address,
    token_program_id: &Address,
    record: &mut AccountView,
    token: &AccountView,
    args: &InitializeArgs,
) -> (r: Result<(), EscrowError>)
    ensures
        final(record).address == old(record).address,
        final(record).owner == old(record).owner,
        match spec_process_initialize(*program_id, *token_program_id, *old(record), *token, *args) {
            Ok(bytes) => r is Ok && final(record).data@ == bytes,
            Err(e) => r == Err::<(), EscrowError>(e) && final(record).data@ == old(record).data@,
        },
{
    if !address_eq(&record.owner, program_id) {
        return Err(EscrowError::InvalidOwner);
    }
    if record.data.len() != RECORD_LEN {
        return Err(EscrowError::InvalidAccountSize);
    }
    if record.data[0] != 0 {
        return Err(EscrowError::AlreadyInitialized);
    }
    if !address_eq(&token.owner, token_program_id) {
        return Err(EscrowError::InvalidOwner);
    }
    if token.data.len() != TOKEN_ACCOUNT_LEN {
        return Err(EscrowError::InvalidAccountSize);
    }
    if !address_eq(&token.address, &args.escrow_token_account) {
        return Err(EscrowError::InvalidAuthority);
    }
    let token_mint = read_address(&token.data, 0);
    if !address_eq(&token_mint, &args.mint) {
        return Err(EscrowError::MintMismatch);
    }
    let token_authority = read_address(&token.data, 32);
    let (authority, bump_seed) = match find_authority_bump_seed(program_id, &record.address) {
        Some(found) => found,
        None => {
            return Err(EscrowError::InvalidAuthority);
        },
    };
    if !address_eq(&token_authority, &authority) {
        return Err(EscrowError::InvalidAuthority);
    }
    let escrow = Escrow {
        state: EscrowState::Launched,
        bump_seed,
        token_mint: args.mint,
        token_account: args.escrow_token_account,
        launcher: args.launcher,
        canceler: args.canceler,
        canceler_token_account: args.canceler_token_account,
        duration: args.duration,
    };
    record.data = escrow.pack();
    Ok(())
}

/// Decodes a request envelope and routes it. Malformed bytes fail with
/// `InvalidInstructionData` and leave the record untouched; well-formed
/// bytes are processed as `spec_process_initialize` of the request they
/// encode — any request, since the encoding is injective.
pub fn process(
    program_id: &Address,
    token_program_id: &Address,
    record: &mut AccountView,
    token: &AccountView,
    input: &Vec<u8>,
) -> (r: Result<(), EscrowError>)
    ensures
        final(record).address == old(record).address,
        final(record).owner == old(record).owner,
        !crate::instruction::spec_valid_request(input@) ==> r == Err::<(), EscrowError>(
            EscrowError::InvalidInstructionData,
        ) && final(record).data@ == old(record).data@,
        forall|a: InitializeArgs|
            spec_encode_initialize(a) == input@ ==> match spec_process_initialize(
                *program_id,
                *token_program_id,
                *old(record),
                *token,
                a,
            ) {
                Ok(bytes) => r is Ok && final(record).data@ == bytes,
                Err(e) => r == Err::<(), EscrowError>(e) && final(record).data@ == old(
                    record,
                ).data@,
            },
{
    let args = match EscrowInstruction::decode(input) {
        Ok(EscrowInstruction::Initialize(args)) => args,
        Err(e) => {
            proof {
                assert forall|a: InitializeArgs|
                    spec_encode_initialize(a) == input@ implies false by {
                    crate::instruction::lemma_encode_len(a);
                }
            }
            return Err(e);
        },
    };
    let r = process_initialize(program_id, token_program_id, record, token, &args);
    proof {
        assert forall|a: InitializeArgs| spec_encode_initialize(a) == input@ implies
            spec_process_initialize(*program_id, *token_program_id, *old(record), *token, a)
            == spec_process_initialize(
            *program_id,
            *token_program_id,
            *old(record),
            *token,
            args,
        ) by {
            crate::instruction::lemma_encode_injective(a, args);
            lemma_initialize_depends_on_fields(
                *program_id,
                *token_program_id,
                *old(record),
                *token,
                a,
                args,
            );
        }
    }
    r
}

/// Initialize reads only the byte-level fields of its request: two requests
/// with equal fields are processed identically.
pub proof fn lemma_initialize_depends_on_fields(
    program_id: Address,
    token_program_id: Address,
    record: AccountView,
    token: AccountView,
    a1: InitializeArgs,
    a2: InitializeArgs,
)
    requires
        crate::instruction::args_fields_eq(a1, a2),
    ensures
        spec_process_initialize(program_id, token_program_id, record, token, a1)
            == spec_process_initialize(program_id, token_program_id, record, token, a2),
{
}

/// Law: initializing twice is rejected. A record whose bytes are the
/// output of a successful Initialize fails any further Initialize with
/// `AlreadyInitialized`, whatever token account and request accompany the
/// second attempt; by `process_initialize`'s contract the failed attempt
/// leaves those bytes exactly as the first attempt wrote them.
pub proof fn lemma_initialize_rejected_twice(
    program_id: Address,
    token_program_id: Address,
    record1: AccountView,
    token1: AccountView,
    args1: InitializeArgs,
    record2: AccountView,
    token2: AccountView,
    args2: InitializeArgs,
)
    requires
        spec_process_initialize(program_id, token_program_id, record1, token1, args1) matches Ok(
            written,
        ) && record2.data@ == written,
        record2.owner@ == program_id@,
    ensures
        spec_process_initialize(program_id, token_program_id, record2, token2, args2) == Err::<
            Seq<u8>,
            EscrowError,
        >(EscrowError::AlreadyInitialized),
{
    let written = spec_process_initialize(
        program_id,
        token_program_id,
        record1,
        token1,
        args1,
    ).unwrap();
    let (authority, bump) = spec_find_authority(program_id@, record1.address@).unwrap();
    let launched = Escrow {
        state: EscrowState::Launched,
        bump_seed: bump,
        token_mint: args1.mint,
        token_account: args1.escrow_token_account,
        launcher: args1.launcher,
        canceler: args1.canceler,
        canceler_token_account: args1.canceler_token_account,
        duration: args1.duration,
    };
    crate::state::lemma_pack_len(launched);
    assert(written[0] == 1);
}

/// Law: the custodian authority binds the token account. When every check
/// before the authority comparison passes but the supplied token account's
/// authority field is anything other than the address this program derives
/// for the record address, Initialize fails with `InvalidAuthority`.
pub proof fn lemma_authority_binding(
    program_id: Address,
    token_program_id: Address,
    record: AccountView,
    token: AccountView,
    args: InitializeArgs,
)
    requires
        record.owner@ == program_id@,
        record.data@.len() == RECORD_LEN,
        record.data@[0] == 0,
        token.owner@ == token_program_id@,
        token.data@.len() == TOKEN_ACCOUNT_LEN,
        token.address@ == args.escrow_token_account@,
        spec_token_mint(token.data@) == args.mint@,
        spec_find_authority(program_id@, record.address@) matches Some((authority, bump))
            ==> spec_token_authority(token.data@) != authority,
    ensures
        spec_process_initialize(program_id, token_program_id, record, token, args) == Err::<
            Seq<u8>,
            EscrowError,
        >(EscrowError::InvalidAuthority),
{
}

/// Law: the size gate. A record account owned by this program whose byte
/// length differs from `RECORD_LEN` — by even one byte — fails Initialize
/// with `InvalidAccountSize`.
pub proof fn lemma_size_gate(
    program_id: Address,
    token_program_id: Address,
    record: AccountView,
    token: AccountView,
    args: InitializeArgs,
)
    requires
        record.owner@ == program_id@,
        record.data@.len() != RECORD_LEN,
    ensures
        spec_process_initialize(program_id, token_program_id, record, token, args) == Err::<
            Seq<u8>,
            EscrowError,
        >(EscrowError::InvalidAccountSize),
{
}

/// Whether the escrow's validity window has passed: forward progress is
/// barred once the ledger's current time reaches the creation time plus
/// the record's duration.
pub open spec fn spec_expired(now: u64, creation_time: u64, duration: u64) -> bool {
    now >= creation_time + duration
}

/// Gate for operations that require an unexpired escrow: succeeds exactly
/// while `now` is strictly before `creation_time + duration`, and fails
/// with `EscrowExpired` from that moment on.
pub fn check_not_expired(now: u64, creation_time: u64, duration: u64) -> (r: Result<
    (),
    EscrowError,
>)
    ensures
        r is Ok <==> !spec_expired(now, creation_time, duration),
        r is Err ==> r == Err::<(), EscrowError>(EscrowError::EscrowExpired),
{
    if now < creation_time {
        Ok(())
    } else if now - creation_time < duration {
        Ok(())
    } else {
        Err(EscrowError::EscrowExpired)
    }
}

} // verus!
